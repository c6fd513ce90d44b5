//! Device endpoints and the bridge's configuration.
use vstd::prelude::*;

verus! {

/// The port devices listen on for control and status requests.
pub const CONTROL_PORT: u16 = 4003;

/// The port devices answer to.
pub const REPLY_PORT: u16 = 4002;

/// The port the discovery probe goes to.
pub const SCAN_PORT: u16 = 4001;

/// The largest datagram the bridge sends.
pub const MAX_DATAGRAM: usize = 1024;

/// How long discovery listens by default.
pub const DISCOVER_TIMEOUT_MS: u64 = 3000;

/// How long a request waits for its reply by default.
pub const REQUEST_TIMEOUT_MS: u64 = 2000;

/// A device endpoint.
#[derive(Debug)]
pub struct DeviceAddress {
    pub host: String,
    pub port: u16,
}

impl DeviceAddress {
    /// The endpoint `host:port`, with `default_port` where no port is given.
    pub fn resolve(host: String, port: Option<u16>, default_port: u16) -> (r: DeviceAddress)
        ensures
            r.host == host,
            r.port == match port {
                Some(p) => p,
                None => default_port,
            },
    {
        let port = match port {
            Some(p) => p,
            None => default_port,
        };
        DeviceAddress { host, port }
    }
}

/// The environment-specific settings of the bridge.
#[derive(Debug)]
pub struct BridgeConfig {
    /// Where the discovery probe is sent (a multicast group).
    pub scan_host: String,
    pub scan_port: u16,
    /// The local port replies arrive on.
    pub reply_port: u16,
    /// The device port used when a call names none.
    pub control_port: u16,
    pub max_datagram: usize,
    pub discover_timeout_ms: u64,
    pub request_timeout_ms: u64,
}

pub open spec fn default_scan_host() -> Seq<char> {
    seq!['2', '3', '9', '.', '2', '5', '5', '.', '2', '5', '5', '.', '2', '5', '0']
}

impl Default for BridgeConfig {
    fn default() -> (r: BridgeConfig)
        ensures
            r.scan_host@ == default_scan_host(),
            r.scan_port == SCAN_PORT,
            r.reply_port == REPLY_PORT,
            r.control_port == CONTROL_PORT,
            r.max_datagram == MAX_DATAGRAM,
            r.discover_timeout_ms == DISCOVER_TIMEOUT_MS,
            r.request_timeout_ms == REQUEST_TIMEOUT_MS,
    {
        proof {
            reveal_strlit("239.255.255.250");
        }
        BridgeConfig {
            scan_host: String::from_str("239.255.255.250"),
            scan_port: SCAN_PORT,
            reply_port: REPLY_PORT,
            control_port: CONTROL_PORT,
            max_datagram: MAX_DATAGRAM,
            discover_timeout_ms: DISCOVER_TIMEOUT_MS,
            request_timeout_ms: REQUEST_TIMEOUT_MS,
        }
    }
}

/// The time `timeout_ms` after `start_ms`, held at the largest instant.
pub open spec fn deadline_after(start_ms: u64, timeout_ms: u64) -> u64 {
    if start_ms + timeout_ms > u64::MAX {
        u64::MAX
    } else {
        (start_ms + timeout_ms) as u64
    }
}

/// The deadline of a call that starts at `start_ms` and waits `timeout_ms`,
/// or `default_ms` where it names no timeout.
pub fn deadline(start_ms: u64, timeout_ms: Option<u64>, default_ms: u64) -> (r: u64)
    ensures
        r == deadline_after(
            start_ms,
            match timeout_ms {
                Some(t) => t,
                None => default_ms,
            },
        ),
{
    let t = match timeout_ms {
        Some(t) => t,
        None => default_ms,
    };
    start_ms.saturating_add(t)
}

} // verus!
