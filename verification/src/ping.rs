//! Fixed-target reachability statuses.
//!
//! A reachability pass probes a fixed list of well-known hosts; each probe
//! yields a status line for the caller. Sending the probes is the platform
//! shell's work; the shape of the statuses it reports is fixed here.

use vstd::prelude::*;

verus! {

/// The reachability status of one probed address: a status string and, on
/// success, the observed round-trip time.
#[derive(Debug)]
pub struct PingStatus {
    pub ip: String,
    pub status: String,
    pub latency_ms: Option<u64>,
}

impl PingStatus {
    /// A reachable host: the status reads "Success" and carries the
    /// round-trip time.
    pub fn success(ip: String, rtt_ms: u64) -> (r: Self)
        ensures
            r.ip == ip,
            r.status@ == "Success"@,
            r.latency_ms == Some(rtt_ms),
    {
        PingStatus { ip, status: "Success".to_owned(), latency_ms: Some(rtt_ms) }
    }

    /// An unreachable host or a failed probe: the caller's reason becomes
    /// the status and no round-trip time is reported.
    pub fn failure(ip: String, reason: String) -> (r: Self)
        ensures
            r.ip == ip,
            r.status == reason,
            r.latency_ms is None,
    {
        PingStatus { ip, status: reason, latency_ms: None }
    }
}

/// The fixed list of probed addresses: the public resolvers of Cloudflare,
/// Google and Level 3.
pub fn ping_targets() -> (r: Vec<String>)
    ensures
        r@.len() == 3,
        r@[0]@ == "1.1.1.1"@,
        r@[1]@ == "8.8.8.8"@,
        r@[2]@ == "4.2.2.2"@,
{
    let mut r: Vec<String> = Vec::new();
    r.push("1.1.1.1".to_owned());
    r.push("8.8.8.8".to_owned());
    r.push("4.2.2.2".to_owned());
    r
}

} // verus!
