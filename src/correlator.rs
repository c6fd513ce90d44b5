//! The table of requests that wait for a reply, and how inbound frames are
//! routed to them.
use vstd::prelude::*;
use crate::json::JsonValue;
use crate::frame::{CommandFrame, decode_spec};

verus! {

/// One outstanding request: who must answer, with which command tag, by when,
/// and the write-once slot for the answer.
#[derive(Debug)]
pub struct PendingRequest {
    pub id: u64,
    pub host: String,
    pub port: u16,
    pub tag: String,
    pub deadline_ms: u64,
    pub reply: Option<JsonValue>,
}

/// What `poll` found for a request.
#[derive(Debug)]
pub enum Poll {
    /// The reply's payload; the request is finished and gone from the table.
    Ready(JsonValue),
    /// The deadline passed with no reply; the request is gone from the table.
    TimedOut,
    /// Still open.
    Waiting,
    /// No such request (finished, timed out or cancelled before).
    Unknown,
}

/// All requests that wait for a reply, each under an id of its own.
#[derive(Debug)]
pub struct PendingTable {
    pub entries: Vec<PendingRequest>,
    pub next_id: u64,
}

/// `e` may take a reply tagged `tag` that came from `host:port` at time `now`.
pub open spec fn eligible(e: PendingRequest, now: u64, host: Seq<char>, port: u16, tag: Seq<char>) -> bool {
    &&& e.host@ == host
    &&& e.port == port
    &&& e.tag@ == tag
    &&& e.reply is None
    &&& now < e.deadline_ms
}

pub open spec fn has_eligible(s: Seq<PendingRequest>, now: u64, host: Seq<char>, port: u16, tag: Seq<char>) -> bool {
    exists|i: int| 0 <= i < s.len() && eligible(#[trigger] s[i], now, host, port, tag)
}

pub open spec fn is_first_eligible(
    s: Seq<PendingRequest>,
    now: u64,
    host: Seq<char>, port: u16,
    tag: Seq<char>,
    i: int,
) -> bool {
    &&& 0 <= i < s.len()
    &&& eligible(s[i], now, host, port, tag)
    &&& forall|j: int| 0 <= j < i ==> !eligible(#[trigger] s[j], now, host, port, tag)
}

/// The oldest request that may take the reply: the first match wins.
pub open spec fn first_eligible(s: Seq<PendingRequest>, now: u64, host: Seq<char>, port: u16, tag: Seq<char>) -> int {
    choose|i: int| is_first_eligible(s, now, host, port, tag, i)
}

/// The table after frame `f` from `host:port` arrived at `now`: at most one
/// request takes it.
pub open spec fn deliver_spec(s: Seq<PendingRequest>, now: u64, host: Seq<char>, port: u16, f: CommandFrame) -> Seq<
    PendingRequest,
> {
    if has_eligible(s, now, host, port, f.cmd@) {
        let i = first_eligible(s, now, host, port, f.cmd@);
        s.update(i, PendingRequest { reply: Some(f.data), ..s[i] })
    } else {
        s
    }
}

/// The table after an inbound datagram from `host:port` at `now`; `payload` is the
/// parsed JSON, `None` where the bytes were not JSON. Anything that is not a
/// frame is dropped.
pub open spec fn absorb_spec(
    s: Seq<PendingRequest>,
    now: u64,
    host: Seq<char>, port: u16,
    payload: Option<JsonValue>,
) -> Seq<PendingRequest> {
    match payload {
        Some(v) => match decode_spec(v) {
            Ok(f) => deliver_spec(s, now, host, port, f),
            Err(_) => s,
        },
        None => s,
    }
}

/// The id of the request that an inbound datagram reaches, if any.
pub open spec fn absorb_target(
    s: Seq<PendingRequest>,
    now: u64,
    host: Seq<char>, port: u16,
    payload: Option<JsonValue>,
) -> Option<u64> {
    match payload {
        Some(v) => match decode_spec(v) {
            Ok(f) => if has_eligible(s, now, host, port, f.cmd@) {
                Some(s[first_eligible(s, now, host, port, f.cmd@)].id)
            } else {
                None
            },
            Err(_) => None,
        },
        None => None,
    }
}

pub open spec fn id_index(s: Seq<PendingRequest>, id: u64) -> int {
    choose|i: int| 0 <= i < s.len() && s[i].id == id
}

pub open spec fn has_id(s: Seq<PendingRequest>, id: u64) -> bool {
    exists|i: int| 0 <= i < s.len() && (#[trigger] s[i]).id == id
}

/// Where some request may take a reply, a first such request exists.
pub proof fn lemma_first_eligible_exists(
    s: Seq<PendingRequest>,
    now: u64,
    host: Seq<char>, port: u16,
    tag: Seq<char>,
    w: int,
)
    requires
        0 <= w < s.len(),
        eligible(s[w], now, host, port, tag),
    ensures
        is_first_eligible(s, now, host, port, tag, first_eligible(s, now, host, port, tag)),
    decreases w,
{
    if forall|j: int| 0 <= j < w ==> !eligible(#[trigger] s[j], now, host, port, tag) {
        assert(is_first_eligible(s, now, host, port, tag, w));
    } else {
        let j = choose|j: int| 0 <= j < w && eligible(#[trigger] s[j], now, host, port, tag);
        lemma_first_eligible_exists(s, now, host, port, tag, j);
    }
}

/// Routing keeps every request in its place under its id; only the payload
/// slot of at most one request changes.
pub proof fn lemma_absorb_keeps_requests(
    s: Seq<PendingRequest>,
    now: u64,
    host: Seq<char>, port: u16,
    payload: Option<JsonValue>,
    j: int,
)
    requires
        0 <= j < s.len(),
    ensures
        absorb_spec(s, now, host, port, payload).len() == s.len(),
        absorb_spec(s, now, host, port, payload)[j].id == s[j].id,
        absorb_spec(s, now, host, port, payload)[j].host == s[j].host,
        absorb_spec(s, now, host, port, payload)[j].port == s[j].port,
        absorb_spec(s, now, host, port, payload)[j].tag == s[j].tag,
        absorb_spec(s, now, host, port, payload)[j].deadline_ms == s[j].deadline_ms,
{
    if let Some(v) = payload {
        if let Ok(f) = decode_spec(v) {
            if has_eligible(s, now, host, port, f.cmd@) {
                let w = choose|i: int| 0 <= i < s.len() && eligible(#[trigger] s[i], now, host, port, f.cmd@);
                lemma_first_eligible_exists(s, now, host, port, f.cmd@, w);
            }
        }
    }
}

/// A datagram from one address (host and port) never resolves a request
/// that waits on another address.
pub proof fn lemma_reply_reaches_only_its_address(
    s: Seq<PendingRequest>,
    now: u64,
    host: Seq<char>, port: u16,
    payload: Option<JsonValue>,
    j: int,
)
    requires
        0 <= j < s.len(),
        s[j].host@ != host || s[j].port != port,
    ensures
        absorb_spec(s, now, host, port, payload)[j] == s[j],
{
    if let Some(v) = payload {
        if let Ok(f) = decode_spec(v) {
            if has_eligible(s, now, host, port, f.cmd@) {
                let w = choose|i: int| 0 <= i < s.len() && eligible(#[trigger] s[i], now, host, port, f.cmd@);
                lemma_first_eligible_exists(s, now, host, port, f.cmd@, w);
            }
        }
    }
}

/// A reply that arrives once a request's deadline has come does not reach
/// that request.
pub proof fn lemma_late_reply_is_dropped(
    s: Seq<PendingRequest>,
    now: u64,
    host: Seq<char>, port: u16,
    payload: Option<JsonValue>,
    j: int,
)
    requires
        0 <= j < s.len(),
        s[j].deadline_ms <= now,
    ensures
        absorb_spec(s, now, host, port, payload)[j] == s[j],
{
    if let Some(v) = payload {
        if let Ok(f) = decode_spec(v) {
            if has_eligible(s, now, host, port, f.cmd@) {
                let w = choose|i: int| 0 <= i < s.len() && eligible(#[trigger] s[i], now, host, port, f.cmd@);
                lemma_first_eligible_exists(s, now, host, port, f.cmd@, w);
            }
        }
    }
}

/// A datagram that is not a frame changes nothing, so the reply that comes
/// after it is routed as if it had never arrived.
pub proof fn lemma_noise_does_not_block(
    s: Seq<PendingRequest>,
    noise_at: u64,
    noise_from: Seq<char>,
    noise_port: u16,
    noise: Option<JsonValue>,
    now: u64,
    host: Seq<char>, port: u16,
    reply: Option<JsonValue>,
)
    requires
        noise matches Some(v) ==> decode_spec(v) is Err,
    ensures
        absorb_spec(s, noise_at, noise_from, noise_port, noise) == s,
        absorb_spec(absorb_spec(s, noise_at, noise_from, noise_port, noise), now, host, port, reply)
            == absorb_spec(s, now, host, port, reply),
{
}

impl PendingTable {
    /// Ids are unique and all below `next_id`.
    pub open spec fn wf(&self) -> bool {
        &&& forall|i: int| 0 <= i < self.entries@.len() ==> (#[trigger] self.entries@[i]).id < self.next_id
        &&& forall|i: int, j: int|
            0 <= i < self.entries@.len() && 0 <= j < self.entries@.len() && i != j
                ==> (#[trigger] self.entries@[i]).id != (#[trigger] self.entries@[j]).id
    }

    pub fn new() -> (r: PendingTable)
        ensures
            r.wf(),
            r.entries@.len() == 0,
            r.next_id == 0,
    {
        PendingTable { entries: Vec::new(), next_id: 0 }
    }

    /// Opens a request for a reply tagged `tag` from `host:port` before `deadline_ms`.
    /// It is registered before anything is sent, so no reply can outrun it.
    /// Gives `None` only once every id has been handed out.
    pub fn register(&mut self, host: String, port: u16, tag: String, deadline_ms: u64) -> (r: Option<u64>)
        requires
            old(self).wf(),
        ensures
            final(self).wf(),
            match r {
                Some(id) => {
                    &&& id == old(self).next_id
                    &&& final(self).next_id == id + 1
                    &&& final(self).entries@ == old(self).entries@.push(
                        PendingRequest { id, host, port, tag, deadline_ms, reply: None },
                    )
                },
                None => old(self).next_id == u64::MAX && *final(self) == *old(self),
            },
    {
        if self.next_id == u64::MAX {
            return None;
        }
        let id = self.next_id;
        self.entries.push(PendingRequest { id, host, port, tag, deadline_ms, reply: None });
        self.next_id = id + 1;
        Some(id)
    }

    /// Hands frame `f`, which came from `host:port` at `now`, to the oldest
    /// open request for that address with that tag and a deadline still ahead. Gives
    /// the id of the request that took it, if any.
    pub fn deliver(&mut self, now: u64, host: &String, port: u16, f: CommandFrame) -> (r: Option<u64>)
        requires
            old(self).wf(),
        ensures
            final(self).wf(),
            final(self).next_id == old(self).next_id,
            final(self).entries@ == deliver_spec(old(self).entries@, now, host@, port, f),
            r == if has_eligible(old(self).entries@, now, host@, port, f.cmd@) {
                Some(old(self).entries@[first_eligible(old(self).entries@, now, host@, port, f.cmd@)].id)
            } else {
                None::<u64>
            },
    {
        let mut i: usize = 0;
        while i < self.entries.len()
            invariant
                i <= self.entries@.len(),
                self.wf(),
                self.next_id == old(self).next_id,
                self.entries@ == old(self).entries@,
                forall|j: int| 0 <= j < i ==> !eligible(#[trigger] self.entries@[j], now, host@, port, f.cmd@),
            decreases self.entries.len() - i,
        {
            let e = &self.entries[i];
            if e.host == *host && e.port == port && e.tag == f.cmd && e.reply.is_none() && now < e.deadline_ms {
                let ghost s = self.entries@;
                assert(is_first_eligible(s, now, host@, port, f.cmd@, i as int));
                let ghost k = first_eligible(s, now, host@, port, f.cmd@);
                assert(k == i) by {
                    if k < i {
                        assert(!eligible(s[k], now, host@, port, f.cmd@));
                    } else if k > i {
                        assert(!eligible(s[i as int], now, host@, port, f.cmd@));
                    }
                }
                let taken = self.entries.remove(i);
                let id = taken.id;
                let updated = PendingRequest {
                    id: taken.id,
                    host: taken.host,
                    port: taken.port,
                    tag: taken.tag,
                    deadline_ms: taken.deadline_ms,
                    reply: Some(f.data),
                };
                self.entries.insert(i, updated);
                assert(self.entries@ =~= s.update(i as int, PendingRequest { reply: Some(f.data), ..s[i as int] }));
                assert(forall|a: int| 0 <= a < s.len() ==> (#[trigger] self.entries@[a]).id == s[a].id);
                return Some(id);
            }
            i = i + 1;
        }
        None
    }

    /// Routes one inbound datagram from `host:port` at `now`: a parsed frame goes to
    /// `deliver`; unparsed bytes (`None`) and values that are not frames are
    /// dropped and leave the table as it was.
    pub fn absorb(&mut self, now: u64, host: &String, port: u16, payload: Option<JsonValue>) -> (r: Option<u64>)
        requires
            old(self).wf(),
        ensures
            final(self).wf(),
            final(self).next_id == old(self).next_id,
            final(self).entries@ == absorb_spec(old(self).entries@, now, host@, port, payload),
            r == absorb_target(old(self).entries@, now, host@, port, payload),
    {
        match payload {
            Some(v) => match CommandFrame::decode(v) {
                Ok(f) => self.deliver(now, host, port, f),
                Err(_) => None,
            },
            None => None,
        }
    }

    /// Finds the position of request `id`.
    fn position(&self, id: u64) -> (r: Option<usize>)
        requires
            self.wf(),
        ensures
            match r {
                Some(k) => k < self.entries@.len() && self.entries@[k as int].id == id && id_index(
                    self.entries@,
                    id,
                ) == k,
                None => !has_id(self.entries@, id),
            },
    {
        let mut i: usize = 0;
        while i < self.entries.len()
            invariant
                i <= self.entries@.len(),
                self.wf(),
                forall|j: int| 0 <= j < i ==> (#[trigger] self.entries@[j]).id != id,
            decreases self.entries.len() - i,
        {
            if self.entries[i].id == id {
                let ghost k = id_index(self.entries@, id);
                assert(self.entries@[i as int].id == id);
                assert(0 <= k < self.entries@.len() && self.entries@[k].id == id);
                assert(k == i) by {
                    if k != i {
                        assert(self.entries@[k].id != self.entries@[i as int].id);
                    }
                }
                return Some(i);
            }
            i = i + 1;
        }
        None
    }

    /// Takes the request at position `k` out of the table.
    fn remove_at(&mut self, k: usize) -> (e: PendingRequest)
        requires
            old(self).wf(),
            k < old(self).entries@.len(),
        ensures
            final(self).wf(),
            final(self).next_id == old(self).next_id,
            e == old(self).entries@[k as int],
            final(self).entries@ == old(self).entries@.remove(k as int),
            !has_id(final(self).entries@, e.id),
    {
        let ghost s = self.entries@;
        let e = self.entries.remove(k);
        assert forall|a: int| 0 <= a < self.entries@.len() implies (#[trigger] self.entries@[a]).id != e.id by {
            if a < k {
                assert(self.entries@[a] == s[a]);
            } else {
                assert(self.entries@[a] == s[a + 1]);
            }
        }
        assert forall|a: int| 0 <= a < self.entries@.len() implies (#[trigger] self.entries@[a]).id < self.next_id by {
            if a < k {
                assert(self.entries@[a] == s[a]);
            } else {
                assert(self.entries@[a] == s[a + 1]);
            }
        }
        assert forall|a: int, b: int|
            0 <= a < self.entries@.len() && 0 <= b < self.entries@.len() && a != b
            implies (#[trigger] self.entries@[a]).id != (#[trigger] self.entries@[b]).id by {
            let a0 = if a < k { a } else { a + 1 };
            let b0 = if b < k { b } else { b + 1 };
            assert(self.entries@[a] == s[a0]);
            assert(self.entries@[b] == s[b0]);
        }
        e
    }

    /// Withdraws request `id`, as a caller that gives up on it does; the
    /// shared socket is not touched. Gives whether the request was there.
    pub fn cancel(&mut self, id: u64) -> (r: bool)
        requires
            old(self).wf(),
        ensures
            final(self).wf(),
            final(self).next_id == old(self).next_id,
            r == has_id(old(self).entries@, id),
            r ==> final(self).entries@ == old(self).entries@.remove(id_index(old(self).entries@, id)),
            !r ==> final(self).entries@ == old(self).entries@,
            !has_id(final(self).entries@, id),
    {
        match self.position(id) {
            None => false,
            Some(k) => {
                self.remove_at(k);
                true
            },
        }
    }

    /// Empties the table on shutdown. Gives the ids of the requests that were
    /// still in it, oldest first: each of them ends as cancelled.
    pub fn drain(&mut self) -> (r: Vec<u64>)
        requires
            old(self).wf(),
        ensures
            final(self).wf(),
            final(self).next_id == old(self).next_id,
            final(self).entries@.len() == 0,
            r@.len() == old(self).entries@.len(),
            forall|i: int| 0 <= i < r@.len() ==> r@[i] == (#[trigger] old(self).entries@[i]).id,
    {
        let mut ids: Vec<u64> = Vec::new();
        let mut i: usize = 0;
        while i < self.entries.len()
            invariant
                i <= self.entries@.len(),
                self.entries@ == old(self).entries@,
                ids@.len() == i,
                forall|j: int| 0 <= j < i ==> ids@[j] == (#[trigger] self.entries@[j]).id,
            decreases self.entries.len() - i,
        {
            ids.push(self.entries[i].id);
            i = i + 1;
        }
        self.entries = Vec::new();
        ids
    }

    /// Looks at request `id` at time `now`. A request with a reply gives it up
    /// and leaves the table; one without a reply whose deadline has come times
    /// out and leaves the table, so no later reply can reach it.
    pub fn poll(&mut self, id: u64, now: u64) -> (r: Poll)
        requires
            old(self).wf(),
        ensures
            final(self).wf(),
            final(self).next_id == old(self).next_id,
            !has_id(old(self).entries@, id) ==> r is Unknown && final(self).entries@ == old(self).entries@,
            has_id(old(self).entries@, id) ==> {
                let k = id_index(old(self).entries@, id);
                let e = old(self).entries@[k];
                match e.reply {
                    Some(v) => r == Poll::Ready(v) && final(self).entries@ == old(self).entries@.remove(k),
                    None => if now >= e.deadline_ms {
                        r is TimedOut && final(self).entries@ == old(self).entries@.remove(k)
                    } else {
                        r is Waiting && final(self).entries@ == old(self).entries@
                    },
                }
            },
            !(r is Waiting) ==> !has_id(final(self).entries@, id),
    {
        match self.position(id) {
            None => Poll::Unknown,
            Some(k) => {
                if self.entries[k].reply.is_none() && now < self.entries[k].deadline_ms {
                    return Poll::Waiting;
                }
                let e = self.remove_at(k);
                match e.reply {
                    Some(v) => Poll::Ready(v),
                    None => Poll::TimedOut,
                }
            },
        }
    }
}

} // verus!
