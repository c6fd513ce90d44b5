//! The outcomes of the bridge's calls: errors, payload size, control bodies
//! and how a waiting request ends.
use vstd::prelude::*;
use crate::correlator::Poll;
use crate::frame::{
    CommandFrame, FrameError, cmd_key, data_key, decode_spec, key_cmd, key_data, key_msg, message_spec, msg_key,
};
use crate::json::{JsonValue, has_key, find_key};

verus! {

/// Every way a bridge call can fail.
#[derive(Clone, Copy, Debug, PartialEq, Eq, Structural)]
pub enum BridgeError {
    /// The local endpoint could not be bound.
    Bind,
    /// The operating system refused to send.
    Send,
    /// The encoded payload is longer than a datagram may be.
    Oversize { len: usize, limit: usize },
    /// The value is not a frame.
    Malformed(FrameError),
    /// No matching reply came before the deadline.
    Timeout,
    /// The request was withdrawn before it ended.
    Cancelled,
    /// Every request id has been used.
    IdsExhausted,
}

/// Lets an encoded payload through when it fits one datagram of `limit`
/// bytes; a longer one is an error, never split.
pub fn fit_datagram(bytes: Vec<u8>, limit: usize) -> (r: Result<Vec<u8>, BridgeError>)
    ensures
        bytes@.len() <= limit ==> r == Ok::<Vec<u8>, BridgeError>(bytes),
        bytes@.len() > limit ==> r == Err::<Vec<u8>, BridgeError>(
            BridgeError::Oversize { len: bytes@.len() as usize, limit },
        ),
{
    if bytes.len() <= limit {
        Ok(bytes)
    } else {
        Err(BridgeError::Oversize { len: bytes.len(), limit })
    }
}

/// A message whose members are only `cmd` and `data`, each at most once.
pub open spec fn is_plain_message(fields: Seq<(String, JsonValue)>) -> bool {
    &&& fields.len() <= 2
    &&& forall|i: int|
        0 <= i < fields.len() ==> (#[trigger] fields[i]).0@ == cmd_key() || fields[i].0@ == data_key()
    &&& fields.len() == 2 ==> fields[0].0@ != fields[1].0@
}

/// An envelope whose one member is `msg`, holding a plain message.
pub open spec fn is_plain_envelope(fields: Seq<(String, JsonValue)>) -> bool {
    &&& fields.len() == 1
    &&& match fields[0].1 {
        JsonValue::Object(m) => is_plain_message(m@),
        _ => false,
    }
}

/// A caller's control body read as a frame: a full envelope
/// `{"msg": {..}}`, or the bare message `{"cmd": .., "data": ..}`. A body
/// that reads as a frame but has other members, or a name twice, is
/// rejected rather than trimmed.
pub open spec fn control_spec(body: JsonValue) -> Result<CommandFrame, FrameError> {
    match body {
        JsonValue::Object(fields) => if has_key(fields@, msg_key()) {
            match decode_spec(JsonValue::Object(fields)) {
                Ok(f) => if is_plain_envelope(fields@) {
                    Ok(f)
                } else {
                    Err(FrameError::UnexpectedMember)
                },
                Err(e) => Err(e),
            }
        } else {
            match message_spec(JsonValue::Object(fields)) {
                Ok(f) => if is_plain_message(fields@) {
                    Ok(f)
                } else {
                    Err(FrameError::UnexpectedMember)
                },
                Err(e) => Err(e),
            }
        },
        _ => Err(FrameError::NotAnObject),
    }
}

fn plain_message(fields: &Vec<(String, JsonValue)>) -> (r: bool)
    ensures
        r == is_plain_message(fields@),
{
    if fields.len() > 2 {
        return false;
    }
    let cmd = key_cmd();
    let data = key_data();
    let mut i: usize = 0;
    while i < fields.len()
        invariant
            fields@.len() <= 2,
            i <= fields@.len(),
            cmd@ == cmd_key(),
            data@ == data_key(),
            forall|j: int| 0 <= j < i ==> (#[trigger] fields@[j]).0@ == cmd_key() || fields@[j].0@ == data_key(),
        decreases fields.len() - i,
    {
        if !(fields[i].0 == cmd) && !(fields[i].0 == data) {
            return false;
        }
        i = i + 1;
    }
    if fields.len() == 2 && fields[0].0 == fields[1].0 {
        return false;
    }
    true
}

fn plain_envelope(fields: &Vec<(String, JsonValue)>) -> (r: bool)
    ensures
        r == is_plain_envelope(fields@),
{
    if fields.len() != 1 {
        return false;
    }
    match &fields[0].1 {
        JsonValue::Object(m) => plain_message(m),
        _ => false,
    }
}

/// Checks and reads a caller's control body; a body that is not a plain
/// frame is rejected at once, never coerced.
pub fn control_frame(body: JsonValue) -> (r: Result<CommandFrame, BridgeError>)
    ensures
        match control_spec(body) {
            Ok(f) => r == Ok::<CommandFrame, BridgeError>(f),
            Err(e) => r == Err::<CommandFrame, BridgeError>(BridgeError::Malformed(e)),
        },
{
    let (envelope, plain) = match &body {
        JsonValue::Object(fields) => {
            if find_key(fields, &key_msg()).is_some() {
                (true, plain_envelope(fields))
            } else {
                (false, plain_message(fields))
            }
        },
        _ => (false, false),
    };
    let read = if envelope {
        CommandFrame::decode(body)
    } else {
        CommandFrame::from_message(body)
    };
    match read {
        Ok(f) => if plain {
            Ok(f)
        } else {
            Err(BridgeError::Malformed(FrameError::UnexpectedMember))
        },
        Err(e) => Err(BridgeError::Malformed(e)),
    }
}

/// How a request ends after a `poll`: its reply, a timeout, or a
/// cancellation; `None` while it still waits.
pub fn request_outcome(p: Poll) -> (r: Option<Result<JsonValue, BridgeError>>)
    ensures
        match p {
            Poll::Ready(v) => r == Some(Ok::<JsonValue, BridgeError>(v)),
            Poll::TimedOut => r == Some(Err::<JsonValue, BridgeError>(BridgeError::Timeout)),
            Poll::Unknown => r == Some(Err::<JsonValue, BridgeError>(BridgeError::Cancelled)),
            Poll::Waiting => r is None,
        },
{
    match p {
        Poll::Ready(v) => Some(Ok(v)),
        Poll::TimedOut => Some(Err(BridgeError::Timeout)),
        Poll::Unknown => Some(Err(BridgeError::Cancelled)),
        Poll::Waiting => None,
    }
}

} // verus!
