use lights_bridge::address::{
    deadline, BridgeConfig, DeviceAddress, CONTROL_PORT, DISCOVER_TIMEOUT_MS, MAX_DATAGRAM, REPLY_PORT,
    REQUEST_TIMEOUT_MS, SCAN_PORT,
};
use lights_bridge::bridge::{control_frame, fit_datagram, request_outcome, BridgeError};
use lights_bridge::correlator::{PendingTable, Poll};
use lights_bridge::discovery::{scan_reply, scan_request, DiscoveryWindow};
use lights_bridge::frame::{CommandFrame, FrameError};
use lights_bridge::json::{find_key, lookup, JsonValue};
use lights_bridge::status::{read_status, status_request, status_tag, Rgb, StatusError};

fn s(x: &str) -> String {
    x.to_string()
}

fn obj(entries: Vec<(&str, JsonValue)>) -> JsonValue {
    JsonValue::Object(entries.into_iter().map(|(k, v)| (s(k), v)).collect())
}

fn st(x: &str) -> JsonValue {
    JsonValue::Str(s(x))
}

fn same(a: &JsonValue, b: &JsonValue) -> bool {
    match (a, b) {
        (JsonValue::Null, JsonValue::Null) => true,
        (JsonValue::Bool(x), JsonValue::Bool(y)) => x == y,
        (JsonValue::Int(x), JsonValue::Int(y)) => x == y,
        (JsonValue::Decimal(x), JsonValue::Decimal(y)) => x == y,
        (JsonValue::Str(x), JsonValue::Str(y)) => x == y,
        (JsonValue::Array(x), JsonValue::Array(y)) => {
            x.len() == y.len() && x.iter().zip(y.iter()).all(|(p, q)| same(p, q))
        }
        (JsonValue::Object(x), JsonValue::Object(y)) => {
            x.len() == y.len() && x.iter().zip(y.iter()).all(|(p, q)| p.0 == q.0 && same(&p.1, &q.1))
        }
        _ => false,
    }
}

fn envelope(cmd: &str, data: JsonValue) -> JsonValue {
    CommandFrame { cmd: s(cmd), data }.encode()
}

fn scan_payload(id: &str, sku: &str) -> JsonValue {
    envelope("scan", obj(vec![("ip", st("10.0.0.7")), ("device", st(id)), ("sku", st(sku))]))
}

fn addr(host: &str, port: u16) -> DeviceAddress {
    DeviceAddress { host: s(host), port }
}

#[test]
fn round_trip_recovers_frame() {
    let data = obj(vec![
        ("value", JsonValue::Int(1)),
        ("list", JsonValue::Array(vec![JsonValue::Null, JsonValue::Bool(true), JsonValue::Decimal(s("0.5"))])),
        ("name", st("lamp")),
    ]);
    let expected = obj(vec![
        ("value", JsonValue::Int(1)),
        ("list", JsonValue::Array(vec![JsonValue::Null, JsonValue::Bool(true), JsonValue::Decimal(s("0.5"))])),
        ("name", st("lamp")),
    ]);
    let frame = CommandFrame { cmd: s("turn"), data };
    let back = CommandFrame::decode(frame.encode()).unwrap();
    assert_eq!(back.cmd, "turn");
    assert!(same(&back.data, &expected));
}

#[test]
fn encode_builds_msg_envelope() {
    let v = envelope("turn", obj(vec![("value", JsonValue::Int(0))]));
    let expected = obj(vec![(
        "msg",
        obj(vec![("cmd", st("turn")), ("data", obj(vec![("value", JsonValue::Int(0))]))]),
    )]);
    assert!(same(&v, &expected));
}

#[test]
fn decode_rejects_non_frames() {
    assert_eq!(CommandFrame::decode(st("x")).unwrap_err(), FrameError::NotAnObject);
    assert_eq!(CommandFrame::decode(obj(vec![("cmd", st("scan"))])).unwrap_err(), FrameError::MissingMsg);
    assert_eq!(
        CommandFrame::decode(obj(vec![("msg", obj(vec![("data", JsonValue::Null)]))])).unwrap_err(),
        FrameError::MissingCmd
    );
    assert_eq!(
        CommandFrame::decode(obj(vec![("msg", obj(vec![("cmd", JsonValue::Int(3))]))])).unwrap_err(),
        FrameError::MissingCmd
    );
    assert_eq!(CommandFrame::decode(obj(vec![("msg", JsonValue::Int(3))])).unwrap_err(), FrameError::NotAnObject);
}

#[test]
fn decode_without_data_reads_null_and_first_key_wins() {
    let v = obj(vec![("msg", obj(vec![("cmd", st("a")), ("cmd", st("b"))]))]);
    let f = CommandFrame::decode(v).unwrap();
    assert_eq!(f.cmd, "a");
    assert!(same(&f.data, &JsonValue::Null));
}

#[test]
fn find_key_and_lookup_take_the_first_entry() {
    let fields = vec![(s("a"), JsonValue::Int(1)), (s("b"), JsonValue::Int(2)), (s("a"), JsonValue::Int(3))];
    assert_eq!(find_key(&fields, &s("a")), Some(0));
    assert_eq!(find_key(&fields, &s("b")), Some(1));
    assert_eq!(find_key(&fields, &s("c")), None);
    assert!(same(lookup(&fields, &s("a")).unwrap(), &JsonValue::Int(1)));
}

#[test]
fn discover_with_zero_timeout_is_empty() {
    let mut w = DiscoveryWindow::open(5000, Some(0), DISCOVER_TIMEOUT_MS);
    assert_eq!(w.deadline_ms, 5000);
    assert!(!w.is_open(5000));
    w.observe(5000, addr("10.0.0.7", 4003), Some(scan_payload("AA:BB", "H6000")));
    assert!(w.finish().is_empty());
}

#[test]
fn discovery_dedups_by_address() {
    let mut w = DiscoveryWindow::open(0, None, DISCOVER_TIMEOUT_MS);
    assert_eq!(w.deadline_ms, 3000);
    w.observe(10, addr("10.0.0.7", 4003), Some(scan_payload("AA:BB", "H6000")));
    w.observe(20, addr("10.0.0.7", 4003), Some(scan_payload("AA:BB", "H6001")));
    w.observe(30, addr("10.0.0.8", 4003), Some(scan_payload("CC:DD", "H7000")));
    let devices = w.finish();
    assert_eq!(devices.len(), 2);
    assert_eq!(devices[0].address.host, "10.0.0.7");
    assert_eq!(devices[0].model, "H6001");
    assert_eq!(devices[0].device_id, "AA:BB");
    assert_eq!(devices[1].address.host, "10.0.0.8");
}

#[test]
fn discovery_ignores_noise_and_late_replies() {
    let mut w = DiscoveryWindow::open(0, Some(100), DISCOVER_TIMEOUT_MS);
    w.observe(10, addr("10.0.0.7", 4003), None);
    w.observe(11, addr("10.0.0.7", 4003), Some(st("hello")));
    w.observe(12, addr("10.0.0.7", 4003), Some(envelope("devStatus", obj(vec![]))));
    w.observe(100, addr("10.0.0.9", 4003), Some(scan_payload("EE", "H1")));
    assert!(w.devices.is_empty());
    w.observe(99, addr("10.0.0.9", 4003), Some(scan_payload("EE", "H1")));
    assert_eq!(w.finish().len(), 1);
}

#[test]
fn scan_request_and_reply() {
    let probe = scan_request();
    assert_eq!(probe.cmd, "scan");
    assert!(same(&probe.data, &obj(vec![("account_topic", st("reserve"))])));
    let reply = CommandFrame { cmd: s("scan"), data: obj(vec![("device", st("AA")), ("sku", st("H6"))]) };
    let d = scan_reply(reply, addr("10.0.0.3", 4003)).unwrap();
    assert_eq!(d.device_id, "AA");
    assert_eq!(d.model, "H6");
    assert_eq!(d.address.port, 4003);
    let missing = CommandFrame { cmd: s("scan"), data: obj(vec![("device", st("AA"))]) };
    assert!(scan_reply(missing, addr("10.0.0.3", 4003)).is_none());
    let other = CommandFrame { cmd: s("devStatus"), data: obj(vec![("device", st("AA")), ("sku", st("H6"))]) };
    assert!(scan_reply(other, addr("10.0.0.3", 4003)).is_none());
}

#[test]
fn replies_reach_only_their_host() {
    let mut t = PendingTable::new();
    let a = t.register(s("10.0.0.1"), 4003, status_tag(), 1000).unwrap();
    let b = t.register(s("10.0.0.2"), 4003, status_tag(), 1000).unwrap();
    assert_eq!((a, b), (0, 1));
    let routed = t.absorb(10, &s("10.0.0.1"), 4003, Some(envelope("devStatus", obj(vec![("onOff", JsonValue::Int(1))]))));
    assert_eq!(routed, Some(a));
    assert!(matches!(t.poll(b, 20), Poll::Waiting));
    assert!(matches!(t.poll(a, 20), Poll::Ready(_)));
    assert!(matches!(t.poll(a, 20), Poll::Unknown));
    assert!(matches!(t.poll(b, 20), Poll::Waiting));
}

#[test]
fn reply_with_other_tag_is_not_routed() {
    let mut t = PendingTable::new();
    let a = t.register(s("10.0.0.1"), 4003, status_tag(), 1000).unwrap();
    assert_eq!(t.absorb(10, &s("10.0.0.1"), 4003, Some(envelope("scan", obj(vec![])))), None);
    assert!(matches!(t.poll(a, 10), Poll::Waiting));
}

#[test]
fn first_waiter_wins_and_slot_is_write_once() {
    let mut t = PendingTable::new();
    let a = t.register(s("h"), 4003, s("t"), 1000).unwrap();
    let b = t.register(s("h"), 4003, s("t"), 1000).unwrap();
    assert_eq!(t.absorb(1, &s("h"), 4003, Some(envelope("t", JsonValue::Int(1)))), Some(a));
    assert_eq!(t.absorb(2, &s("h"), 4003, Some(envelope("t", JsonValue::Int(2)))), Some(b));
    assert_eq!(t.absorb(3, &s("h"), 4003, Some(envelope("t", JsonValue::Int(3)))), None);
    match t.poll(a, 4) {
        Poll::Ready(v) => assert!(same(&v, &JsonValue::Int(1))),
        _ => panic!("expected a reply"),
    }
}

#[test]
fn request_times_out_and_late_reply_is_dropped() {
    let mut t = PendingTable::new();
    let id = t.register(s("10.0.0.5"), 4003, status_tag(), 100).unwrap();
    assert!(matches!(t.poll(id, 99), Poll::Waiting));
    let p = t.poll(id, 100);
    assert!(matches!(p, Poll::TimedOut));
    assert_eq!(request_outcome(p).unwrap().unwrap_err(), BridgeError::Timeout);
    assert!(t.entries.is_empty());
    assert_eq!(t.absorb(101, &s("10.0.0.5"), 4003, Some(envelope("devStatus", obj(vec![])))), None);
    assert!(matches!(t.poll(id, 101), Poll::Unknown));
}

#[test]
fn reply_at_the_deadline_does_not_land() {
    let mut t = PendingTable::new();
    let id = t.register(s("10.0.0.5"), 4003, status_tag(), 100).unwrap();
    assert_eq!(t.absorb(100, &s("10.0.0.5"), 4003, Some(envelope("devStatus", obj(vec![])))), None);
    assert!(matches!(t.poll(id, 100), Poll::TimedOut));
}

#[test]
fn malformed_datagrams_do_not_block_routing() {
    let mut t = PendingTable::new();
    let id = t.register(s("10.0.0.5"), 4003, status_tag(), 1000).unwrap();
    assert_eq!(t.absorb(1, &s("10.0.0.5"), 4003, None), None);
    assert_eq!(t.absorb(2, &s("10.0.0.5"), 4003, Some(st("garbage"))), None);
    assert_eq!(t.absorb(3, &s("10.0.0.5"), 4003, Some(obj(vec![("msg", JsonValue::Null)]))), None);
    assert_eq!(t.absorb(4, &s("10.0.0.5"), 4003, Some(envelope("devStatus", obj(vec![])))), Some(id));
}

#[test]
fn register_fails_when_ids_run_out() {
    let mut t = PendingTable::new();
    t.next_id = u64::MAX;
    assert_eq!(t.register(s("h"), 4003, s("t"), 1), None);
    assert!(t.entries.is_empty());
}

#[test]
fn get_status_reads_on_and_brightness() {
    let mut t = PendingTable::new();
    let request = status_request();
    assert_eq!(request.cmd, "devStatus");
    let id = t.register(s("10.0.0.5"), 4003, status_tag(), 2000).unwrap();
    let reply = obj(vec![(
        "msg",
        obj(vec![
            ("cmd", st("devStatus")),
            ("data", obj(vec![("onOff", JsonValue::Int(1)), ("brightness", JsonValue::Int(42))])),
        ]),
    )]);
    assert_eq!(t.absorb(50, &s("10.0.0.5"), 4003, Some(reply)), Some(id));
    let data = request_outcome(t.poll(id, 60)).unwrap().unwrap();
    let status = read_status(data).unwrap();
    assert!(status.on);
    assert_eq!(status.brightness, 42);
    assert_eq!(status.color, None);
}

#[test]
fn status_tolerates_missing_and_odd_fields() {
    let status = read_status(obj(vec![])).unwrap();
    assert!(!status.on);
    assert_eq!(status.brightness, 0);
    let status = read_status(obj(vec![
        ("onOff", JsonValue::Bool(true)),
        ("brightness", JsonValue::Int(250)),
        ("color", obj(vec![("r", JsonValue::Int(255)), ("g", JsonValue::Int(10)), ("b", JsonValue::Int(0))])),
    ]))
    .unwrap();
    assert!(status.on);
    assert_eq!(status.brightness, 100);
    assert_eq!(status.color, Some(Rgb { r: 255, g: 10, b: 0 }));
    let status = read_status(obj(vec![
        ("onOff", JsonValue::Int(0)),
        ("brightness", JsonValue::Int(-5)),
        ("color", obj(vec![("r", JsonValue::Int(256)), ("g", JsonValue::Int(0)), ("b", JsonValue::Int(0))])),
    ]))
    .unwrap();
    assert!(!status.on);
    assert_eq!(status.brightness, 0);
    assert_eq!(status.color, None);
    assert_eq!(read_status(JsonValue::Null).unwrap_err(), StatusError::NotAnObject);
}

#[test]
fn oversize_payload_is_an_error() {
    assert_eq!(fit_datagram(vec![1, 2, 3], 3).unwrap(), vec![1, 2, 3]);
    assert_eq!(fit_datagram(vec![1, 2, 3, 4], 3).unwrap_err(), BridgeError::Oversize { len: 4, limit: 3 });
    assert!(fit_datagram(vec![], 0).is_ok());
}

#[test]
fn control_bodies_are_checked() {
    let f = control_frame(obj(vec![("cmd", st("turn")), ("data", obj(vec![("value", JsonValue::Int(1))]))])).unwrap();
    assert_eq!(f.cmd, "turn");
    assert!(same(&f.data, &obj(vec![("value", JsonValue::Int(1))])));
    let f = control_frame(envelope("brightness", obj(vec![("value", JsonValue::Int(20))]))).unwrap();
    assert_eq!(f.cmd, "brightness");
    assert_eq!(control_frame(st("on")).unwrap_err(), BridgeError::Malformed(FrameError::NotAnObject));
    assert_eq!(
        control_frame(obj(vec![("data", JsonValue::Null)])).unwrap_err(),
        BridgeError::Malformed(FrameError::MissingCmd)
    );
    assert_eq!(
        control_frame(obj(vec![("msg", JsonValue::Null)])).unwrap_err(),
        BridgeError::Malformed(FrameError::NotAnObject)
    );
}

#[test]
fn request_outcomes() {
    assert!(request_outcome(Poll::Waiting).is_none());
    assert_eq!(request_outcome(Poll::Unknown).unwrap().unwrap_err(), BridgeError::Cancelled);
    assert!(same(&request_outcome(Poll::Ready(JsonValue::Int(7))).unwrap().unwrap(), &JsonValue::Int(7)));
}

#[test]
fn addresses_and_deadlines() {
    let a = DeviceAddress::resolve(s("10.0.0.5"), None, CONTROL_PORT);
    assert_eq!(a.port, 4003);
    let b = DeviceAddress::resolve(s("10.0.0.5"), Some(5000), CONTROL_PORT);
    assert_eq!(b.port, 5000);
    assert_eq!(deadline(10, None, REQUEST_TIMEOUT_MS), 2010);
    assert_eq!(deadline(10, Some(5), REQUEST_TIMEOUT_MS), 15);
    assert_eq!(deadline(u64::MAX - 1, Some(5), REQUEST_TIMEOUT_MS), u64::MAX);
}

#[test]
fn default_config() {
    let c = BridgeConfig::default();
    assert_eq!(c.scan_host, "239.255.255.250");
    assert_eq!((c.scan_port, c.reply_port, c.control_port), (SCAN_PORT, REPLY_PORT, CONTROL_PORT));
    assert_eq!((c.scan_port, c.reply_port, c.control_port), (4001, 4002, 4003));
    assert_eq!(c.max_datagram, MAX_DATAGRAM);
    assert_eq!(c.discover_timeout_ms, 3000);
    assert_eq!(c.request_timeout_ms, 2000);
}

#[test]
fn cancel_removes_only_that_request() {
    let mut t = PendingTable::new();
    let a = t.register(s("10.0.0.1"), 4003, status_tag(), 1000).unwrap();
    let b = t.register(s("10.0.0.1"), 4003, status_tag(), 1000).unwrap();
    assert!(t.cancel(a));
    assert!(!t.cancel(a));
    assert_eq!(t.absorb(5, &s("10.0.0.1"), 4003, Some(envelope("devStatus", obj(vec![])))), Some(b));
    assert!(matches!(t.poll(a, 5), Poll::Unknown));
    assert_eq!(request_outcome(t.poll(a, 5)).unwrap().unwrap_err(), BridgeError::Cancelled);
}

#[test]
fn drain_cancels_everything_in_flight() {
    let mut t = PendingTable::new();
    let a = t.register(s("h1"), 4003, s("t"), 10).unwrap();
    let b = t.register(s("h2"), 4003, s("t"), 10).unwrap();
    assert_eq!(t.drain(), vec![a, b]);
    assert!(t.entries.is_empty());
    assert_eq!(t.register(s("h3"), 4003, s("t"), 10), Some(2));
}

#[test]
fn reply_from_another_port_of_the_same_host_is_not_routed() {
    let mut t = PendingTable::new();
    let b = t.register(s("10.0.0.1"), 5000, status_tag(), 1000).unwrap();
    let a = t.register(s("10.0.0.1"), 4003, status_tag(), 1000).unwrap();
    let reply = envelope("devStatus", obj(vec![("onOff", JsonValue::Int(1))]));
    assert_eq!(t.absorb(10, &s("10.0.0.1"), 4003, Some(reply)), Some(a));
    assert!(matches!(t.poll(b, 20), Poll::Waiting));
    assert!(matches!(t.poll(a, 20), Poll::Ready(_)));
    assert_eq!(t.absorb(30, &s("10.0.0.1"), 4004, Some(envelope("devStatus", obj(vec![])))), None);
    assert!(matches!(t.poll(b, 1000), Poll::TimedOut));
}

#[test]
fn discovery_keeps_distinct_ports_of_one_host_apart() {
    let mut w = DiscoveryWindow::open(0, None, DISCOVER_TIMEOUT_MS);
    w.observe(10, addr("10.0.0.7", 4003), Some(scan_payload("AA:BB", "H6000")));
    w.observe(20, addr("10.0.0.7", 4004), Some(scan_payload("AA:BB", "H6000")));
    w.observe(30, addr("10.0.0.7", 4003), Some(scan_payload("AA:BB", "H6001")));
    let devices = w.finish();
    assert_eq!(devices.len(), 2);
    assert_eq!((devices[0].address.port, devices[0].model.as_str()), (4003, "H6001"));
    assert_eq!((devices[1].address.port, devices[1].model.as_str()), (4004, "H6000"));
}

#[test]
fn control_bodies_with_unknown_members_are_rejected() {
    let unexpected = BridgeError::Malformed(FrameError::UnexpectedMember);
    assert_eq!(control_frame(obj(vec![("cmd", st("turn")), ("extra", JsonValue::Int(1))])).unwrap_err(), unexpected);
    assert_eq!(control_frame(obj(vec![("cmd", st("turn")), ("cmd", st("brightness"))])).unwrap_err(), unexpected);
    let wrapped = obj(vec![("msg", obj(vec![("cmd", st("turn"))])), ("note", st("x"))]);
    assert_eq!(control_frame(wrapped).unwrap_err(), unexpected);
    let inner = obj(vec![("msg", obj(vec![("cmd", st("turn")), ("data", JsonValue::Null), ("x", JsonValue::Null)]))]);
    assert_eq!(control_frame(inner).unwrap_err(), unexpected);
    assert!(control_frame(obj(vec![("msg", obj(vec![("cmd", st("turn"))]))])).is_ok());
}
