//! Discovery: the probe frame, reading scan replies, and the window that
//! gathers them, one device per address.
use vstd::prelude::*;
use crate::address::{DeviceAddress, deadline_after};
use crate::frame::{CommandFrame, decode_spec};
use crate::json::{JsonValue, field, find_key};

verus! {

/// A device that answered a discovery probe.
#[derive(Debug)]
pub struct DiscoveredDevice {
    pub address: DeviceAddress,
    pub device_id: String,
    pub model: String,
    /// The whole `data` object of the reply.
    pub raw: JsonValue,
}

pub open spec fn scan_cmd() -> Seq<char> {
    seq!['s', 'c', 'a', 'n']
}

pub open spec fn device_key() -> Seq<char> {
    seq!['d', 'e', 'v', 'i', 'c', 'e']
}

pub open spec fn sku_key() -> Seq<char> {
    seq!['s', 'k', 'u']
}

pub open spec fn account_topic_key() -> Seq<char> {
    seq!['a', 'c', 'c', 'o', 'u', 'n', 't', '_', 't', 'o', 'p', 'i', 'c']
}

pub open spec fn reserve_value() -> Seq<char> {
    seq!['r', 'e', 's', 'e', 'r', 'v', 'e']
}

/// The device a scan reply `f` from `source` describes: the command is
/// `scan` and its data holds the device id under `device` and the model
/// under `sku`, both strings.
pub open spec fn scan_reply_spec(f: CommandFrame, source: DeviceAddress) -> Option<DiscoveredDevice> {
    if f.cmd@ != scan_cmd() {
        None
    } else {
        match f.data {
            JsonValue::Object(fields) => match (field(fields@, device_key()), field(fields@, sku_key())) {
                (Some(JsonValue::Str(id)), Some(JsonValue::Str(model))) => Some(
                    DiscoveredDevice {
                        address: source,
                        device_id: id,
                        model,
                        raw: JsonValue::Object(fields),
                    },
                ),
                _ => None,
            },
            _ => None,
        }
    }
}

fn text_scan() -> (r: String)
    ensures
        r@ == scan_cmd(),
{
    proof {
        reveal_strlit("scan");
    }
    String::from_str("scan")
}

fn text_device() -> (r: String)
    ensures
        r@ == device_key(),
{
    proof {
        reveal_strlit("device");
    }
    String::from_str("device")
}

fn text_sku() -> (r: String)
    ensures
        r@ == sku_key(),
{
    proof {
        reveal_strlit("sku");
    }
    String::from_str("sku")
}

fn text_account_topic() -> (r: String)
    ensures
        r@ == account_topic_key(),
{
    proof {
        reveal_strlit("account_topic");
    }
    String::from_str("account_topic")
}

fn text_reserve() -> (r: String)
    ensures
        r@ == reserve_value(),
{
    proof {
        reveal_strlit("reserve");
    }
    String::from_str("reserve")
}

/// `f` is the discovery probe.
pub open spec fn is_scan_probe(f: CommandFrame) -> bool {
    &&& f.cmd@ == scan_cmd()
    &&& match f.data {
        JsonValue::Object(fields) => {
            &&& fields@.len() == 1
            &&& fields@[0].0@ == account_topic_key()
            &&& match fields@[0].1 {
                JsonValue::Str(v) => v@ == reserve_value(),
                _ => false,
            }
        },
        _ => false,
    }
}

/// The discovery probe: `scan` with `{"account_topic": "reserve"}`.
pub fn scan_request() -> (r: CommandFrame)
    ensures
        is_scan_probe(r),
{
    let mut fields: Vec<(String, JsonValue)> = Vec::new();
    fields.push((text_account_topic(), JsonValue::Str(text_reserve())));
    CommandFrame { cmd: text_scan(), data: JsonValue::Object(fields) }
}

/// Reads a scan reply that came from `source`; anything else gives `None`.
pub fn scan_reply(f: CommandFrame, source: DeviceAddress) -> (r: Option<DiscoveredDevice>)
    ensures
        r == scan_reply_spec(f, source),
{
    if !(f.cmd == text_scan()) {
        return None;
    }
    match f.data {
        JsonValue::Object(fields) => {
            let id = match find_key(&fields, &text_device()) {
                Some(i) => match &fields[i].1 {
                    JsonValue::Str(s) => s.clone(),
                    _ => {
                        return None;
                    },
                },
                None => {
                    return None;
                },
            };
            let model = match find_key(&fields, &text_sku()) {
                Some(i) => match &fields[i].1 {
                    JsonValue::Str(s) => s.clone(),
                    _ => {
                        return None;
                    },
                },
                None => {
                    return None;
                },
            };
            Some(DiscoveredDevice { address: source, device_id: id, model, raw: JsonValue::Object(fields) })
        },
        _ => None,
    }
}

/// An address as host and port: what tells two devices apart.
pub open spec fn addr_key(a: DeviceAddress) -> (Seq<char>, u16) {
    (a.host@, a.port)
}

/// Whether some device in `s` has address `h`.
pub open spec fn has_address(s: Seq<DiscoveredDevice>, h: (Seq<char>, u16)) -> bool {
    exists|i: int| 0 <= i < s.len() && addr_key((#[trigger] s[i]).address) == h
}

/// The position of the device with address `h`.
pub open spec fn address_index(s: Seq<DiscoveredDevice>, h: (Seq<char>, u16)) -> int {
    choose|i: int| 0 <= i < s.len() && addr_key((#[trigger] s[i]).address) == h
}

/// No two devices share an address.
pub open spec fn addresses_unique(s: Seq<DiscoveredDevice>) -> bool {
    forall|i: int, j: int|
        0 <= i < s.len() && 0 <= j < s.len() && i != j ==> addr_key((#[trigger] s[i]).address) != addr_key((
        #[trigger] s[j]).address)
}

/// `d` joins the set, replacing the device with the same address if there is one.
pub open spec fn upsert(s: Seq<DiscoveredDevice>, d: DiscoveredDevice) -> Seq<DiscoveredDevice> {
    if has_address(s, addr_key(d.address)) {
        s.update(address_index(s, addr_key(d.address)), d)
    } else {
        s.push(d)
    }
}

/// The set after `d` arrived at `now` in a window that closes at `deadline_ms`.
pub open spec fn record_spec(deadline_ms: u64, now: u64, s: Seq<DiscoveredDevice>, d: DiscoveredDevice) -> Seq<
    DiscoveredDevice,
> {
    if now < deadline_ms {
        upsert(s, d)
    } else {
        s
    }
}

/// The set after a datagram from `source` arrived at `now`; `payload` is the
/// parsed JSON, `None` where the bytes were not JSON.
pub open spec fn observe_spec(
    deadline_ms: u64,
    now: u64,
    s: Seq<DiscoveredDevice>,
    source: DeviceAddress,
    payload: Option<JsonValue>,
) -> Seq<DiscoveredDevice> {
    match payload {
        Some(v) => match decode_spec(v) {
            Ok(f) => match scan_reply_spec(f, source) {
                Some(d) => record_spec(deadline_ms, now, s, d),
                None => s,
            },
            Err(_) => s,
        },
        None => s,
    }
}

/// The devices heard during one discovery call, until its deadline.
#[derive(Debug)]
pub struct DiscoveryWindow {
    pub deadline_ms: u64,
    pub devices: Vec<DiscoveredDevice>,
}

impl DiscoveryWindow {
    pub open spec fn wf(&self) -> bool {
        addresses_unique(self.devices@)
    }

    /// A window opened at `start_ms` that listens `timeout_ms`, or
    /// `default_ms` where no timeout is given.
    pub fn open(start_ms: u64, timeout_ms: Option<u64>, default_ms: u64) -> (r: DiscoveryWindow)
        ensures
            r.wf(),
            r.devices@.len() == 0,
            r.deadline_ms == deadline_after(
                start_ms,
                match timeout_ms {
                    Some(t) => t,
                    None => default_ms,
                },
            ),
    {
        let deadline_ms = crate::address::deadline(start_ms, timeout_ms, default_ms);
        DiscoveryWindow { deadline_ms, devices: Vec::new() }
    }

    /// Whether a datagram that arrives at `now` still counts.
    pub fn is_open(&self, now: u64) -> (r: bool)
        ensures
            r == (now < self.deadline_ms),
    {
        now < self.deadline_ms
    }

    /// Adds `d`, heard at `now`, keeping one device per address (host and
    /// port): a later reply from the same address replaces the earlier one. After the deadline
    /// nothing changes.
    pub fn record(&mut self, now: u64, d: DiscoveredDevice)
        requires
            old(self).wf(),
        ensures
            final(self).wf(),
            final(self).deadline_ms == old(self).deadline_ms,
            final(self).devices@ == record_spec(old(self).deadline_ms, now, old(self).devices@, d),
    {
        if now >= self.deadline_ms {
            return;
        }
        let ghost s = self.devices@;
        let ghost h = addr_key(d.address);
        let mut i: usize = 0;
        while i < self.devices.len()
            invariant
                i <= self.devices@.len(),
                self.devices@ == s,
                s == old(self).devices@,
                now < self.deadline_ms,
                self.deadline_ms == old(self).deadline_ms,
                addresses_unique(s),
                h == addr_key(d.address),
                forall|j: int| 0 <= j < i ==> addr_key((#[trigger] s[j]).address) != h,
            decreases self.devices.len() - i,
        {
            if self.devices[i].address.host == d.address.host && self.devices[i].address.port == d.address.port {
                assert(addr_key(s[i as int].address) == h);
                assert(has_address(s, h));
                let ghost k = address_index(s, h);
                assert(0 <= k < s.len() && addr_key(s[k].address) == h);
                assert(k == i) by {
                    if k != i {
                        assert(addr_key(s[k].address) != addr_key(s[i as int].address));
                    }
                }
                self.devices.set(i, d);
                assert(self.devices@ == upsert(s, d));
                assert forall|a: int, b: int|
                    0 <= a < self.devices@.len() && 0 <= b < self.devices@.len() && a != b
                    implies addr_key((#[trigger] self.devices@[a]).address) != addr_key((
                #[trigger] self.devices@[b]).address) by {
                    assert(addr_key(s[a].address) != addr_key(s[b].address));
                }
                return;
            }
            i = i + 1;
        }
        self.devices.push(d);
    }

    /// Handles one datagram from `source` heard at `now`: a scan reply is
    /// recorded; anything else, including bytes that were not JSON
    /// (`None`), is ignored.
    pub fn observe(&mut self, now: u64, source: DeviceAddress, payload: Option<JsonValue>)
        requires
            old(self).wf(),
        ensures
            final(self).wf(),
            final(self).deadline_ms == old(self).deadline_ms,
            final(self).devices@ == observe_spec(
                old(self).deadline_ms,
                now,
                old(self).devices@,
                source,
                payload,
            ),
    {
        if let Some(v) = payload {
            if let Ok(f) = CommandFrame::decode(v) {
                if let Some(d) = scan_reply(f, source) {
                    self.record(now, d);
                }
            }
        }
    }

    /// The devices heard, one per address.
    pub fn finish(self) -> (r: Vec<DiscoveredDevice>)
        requires
            self.wf(),
        ensures
            r@ == self.devices@,
            addresses_unique(r@),
    {
        self.devices
    }
}

/// Two replies from one address leave exactly one device for it in the set,
/// the later one, whatever their payloads.
pub proof fn lemma_one_device_per_address(s: Seq<DiscoveredDevice>, first: DiscoveredDevice, second: DiscoveredDevice)
    requires
        addresses_unique(s),
        addr_key(first.address) == addr_key(second.address),
    ensures
        ({
            let r = upsert(upsert(s, first), second);
            &&& addresses_unique(r)
            &&& exists|i: int| 0 <= i < r.len() && r[i] == second && forall|j: int|
                0 <= j < r.len() && j != i ==> addr_key((#[trigger] r[j]).address) != addr_key(second.address)
        }),
{
    lemma_upsert_unique(s, first);
    let t = upsert(s, first);
    lemma_upsert_unique(t, second);
    let r = upsert(t, second);
    let h = addr_key(second.address);
    let i = address_index(t, h);
    assert(0 <= i < t.len() && addr_key(t[i].address) == h) by {
        if has_address(s, h) {
            let k = address_index(s, h);
            assert(addr_key(t[k].address) == h);
        } else {
            assert(addr_key(t[s.len() as int].address) == h);
        }
    }
    assert(r[i] == second);
    assert forall|j: int| 0 <= j < r.len() && j != i implies addr_key((#[trigger] r[j]).address) != h by {
        assert(r[j] == t[j]);
        assert(addr_key(t[j].address) != addr_key(t[i].address));
    }
}

/// `upsert` keeps addresses unique.
pub proof fn lemma_upsert_unique(s: Seq<DiscoveredDevice>, d: DiscoveredDevice)
    requires
        addresses_unique(s),
    ensures
        addresses_unique(upsert(s, d)),
{
    let r = upsert(s, d);
    let h = addr_key(d.address);
    if has_address(s, h) {
        let k = address_index(s, h);
        assert forall|a: int, b: int|
            0 <= a < r.len() && 0 <= b < r.len() && a != b
            implies addr_key((#[trigger] r[a]).address) != addr_key((#[trigger] r[b]).address) by {
            assert(addr_key(s[a].address) != addr_key(s[b].address));
        }
    } else {
        assert forall|a: int, b: int|
            0 <= a < r.len() && 0 <= b < r.len() && a != b
            implies addr_key((#[trigger] r[a]).address) != addr_key((#[trigger] r[b]).address) by {
            if a < s.len() && b < s.len() {
                assert(addr_key(s[a].address) != addr_key(s[b].address));
            } else if a < s.len() {
                assert(r[a] == s[a]);
            } else {
                assert(r[b] == s[b]);
            }
        }
    }
}

/// A window with no time to listen takes in no device: whatever arrives
/// once the call has started is ignored, so the result is empty.
pub proof fn lemma_zero_timeout_finds_nothing(
    start_ms: u64,
    now: u64,
    source: DeviceAddress,
    payload: Option<JsonValue>,
)
    requires
        start_ms <= now,
    ensures
        observe_spec(deadline_after(start_ms, 0), now, Seq::empty(), source, payload) == Seq::<
            DiscoveredDevice,
        >::empty(),
{
}

} // verus!
