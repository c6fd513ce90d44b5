//! The device wire envelope: `{"msg": {"cmd": <name>, "data": <payload>}}`.
use vstd::prelude::*;
use crate::json::{JsonValue, field, find_key};

verus! {

/// One protocol message: a command name and its opaque payload.
#[derive(Debug)]
pub struct CommandFrame {
    pub cmd: String,
    pub data: JsonValue,
}

/// Why a value is not a frame.
#[derive(Clone, Copy, Debug, PartialEq, Eq, Structural)]
pub enum FrameError {
    /// The value (or its `msg` member) is not a JSON object.
    NotAnObject,
    /// The envelope has no `msg` member.
    MissingMsg,
    /// The message has no `cmd` member holding a string.
    MissingCmd,
    /// A caller's body has a member the protocol does not know, or one twice.
    UnexpectedMember,
}

pub open spec fn msg_key() -> Seq<char> {
    seq!['m', 's', 'g']
}

pub open spec fn cmd_key() -> Seq<char> {
    seq!['c', 'm', 'd']
}

pub open spec fn data_key() -> Seq<char> {
    seq!['d', 'a', 't', 'a']
}

/// Reads a message object `{"cmd": .., "data": ..}`; a missing `data` reads as null.
pub open spec fn message_spec(m: JsonValue) -> Result<CommandFrame, FrameError> {
    match m {
        JsonValue::Object(fields) => match field(fields@, cmd_key()) {
            Some(JsonValue::Str(name)) => Ok(
                CommandFrame {
                    cmd: name,
                    data: match field(fields@, data_key()) {
                        Some(d) => d,
                        None => JsonValue::Null,
                    },
                },
            ),
            _ => Err(FrameError::MissingCmd),
        },
        _ => Err(FrameError::NotAnObject),
    }
}

/// Reads a whole envelope `{"msg": {..}}`.
pub open spec fn decode_spec(v: JsonValue) -> Result<CommandFrame, FrameError> {
    match v {
        JsonValue::Object(top) => match field(top@, msg_key()) {
            Some(m) => message_spec(m),
            None => Err(FrameError::MissingMsg),
        },
        _ => Err(FrameError::NotAnObject),
    }
}

/// `v` is exactly the envelope that carries `f`: one `msg` member holding
/// `cmd` then `data`.
pub open spec fn is_envelope_of(v: JsonValue, f: CommandFrame) -> bool {
    match v {
        JsonValue::Object(top) => {
            &&& top@.len() == 1
            &&& top@[0].0@ == msg_key()
            &&& match top@[0].1 {
                JsonValue::Object(inner) => {
                    &&& inner@.len() == 2
                    &&& inner@[0].0@ == cmd_key()
                    &&& inner@[0].1 == JsonValue::Str(f.cmd)
                    &&& inner@[1].0@ == data_key()
                    &&& inner@[1].1 == f.data
                },
                _ => false,
            }
        },
        _ => false,
    }
}

pub(crate) fn key_msg() -> (r: String)
    ensures
        r@ == msg_key(),
{
    proof {
        reveal_strlit("msg");
    }
    String::from_str("msg")
}

pub(crate) fn key_cmd() -> (r: String)
    ensures
        r@ == cmd_key(),
{
    proof {
        reveal_strlit("cmd");
    }
    String::from_str("cmd")
}

pub(crate) fn key_data() -> (r: String)
    ensures
        r@ == data_key(),
{
    proof {
        reveal_strlit("data");
    }
    String::from_str("data")
}

impl CommandFrame {
    /// Builds the wire envelope that carries this frame.
    pub fn encode(self) -> (r: JsonValue)
        ensures
            is_envelope_of(r, self),
    {
        let mut inner: Vec<(String, JsonValue)> = Vec::new();
        inner.push((key_cmd(), JsonValue::Str(self.cmd)));
        inner.push((key_data(), self.data));
        let mut top: Vec<(String, JsonValue)> = Vec::new();
        top.push((key_msg(), JsonValue::Object(inner)));
        JsonValue::Object(top)
    }

    /// Reads a message object `{"cmd": .., "data": ..}` without the envelope.
    pub fn from_message(m: JsonValue) -> (r: Result<CommandFrame, FrameError>)
        ensures
            r == message_spec(m),
    {
        match m {
            JsonValue::Object(mut fields) => {
                let cmd = match find_key(&fields, &key_cmd()) {
                    None => {
                        return Err(FrameError::MissingCmd);
                    },
                    Some(ci) => match &fields[ci].1 {
                        JsonValue::Str(s) => s.clone(),
                        _ => {
                            return Err(FrameError::MissingCmd);
                        },
                    },
                };
                let data = match find_key(&fields, &key_data()) {
                    None => JsonValue::Null,
                    Some(di) => fields.remove(di).1,
                };
                Ok(CommandFrame { cmd, data })
            },
            _ => Err(FrameError::NotAnObject),
        }
    }

    /// Reads a wire envelope; fails on a non-object, a missing `msg`, or a
    /// message without a string `cmd`.
    pub fn decode(v: JsonValue) -> (r: Result<CommandFrame, FrameError>)
        ensures
            r == decode_spec(v),
    {
        match v {
            JsonValue::Object(mut top) => match find_key(&top, &key_msg()) {
                None => Err(FrameError::MissingMsg),
                Some(i) => {
                    let m = top.remove(i);
                    CommandFrame::from_message(m.1)
                },
            },
            _ => Err(FrameError::NotAnObject),
        }
    }
}

/// Decoding the envelope that `encode` builds gives back the same command
/// name and the same payload.
pub proof fn lemma_round_trip(v: JsonValue, f: CommandFrame)
    requires
        is_envelope_of(v, f),
    ensures
        decode_spec(v) == Ok::<CommandFrame, FrameError>(f),
{
    assert(msg_key()[0] != cmd_key()[0]);
    assert(data_key()[0] != cmd_key()[0]);
    if let JsonValue::Object(top) = v {
        assert(crate::json::is_first_key(top@, msg_key(), 0));
        if let JsonValue::Object(inner) = top@[0].1 {
            assert(crate::json::is_first_key(inner@, cmd_key(), 0));
            assert(crate::json::is_first_key(inner@, data_key(), 1));
        }
    }
}

} // verus!
