use vstd::prelude::*;
use vstd::string::StringExecFns;

use super::PollOutcome;

verus! {

/// Polls a node by sending an ICMP echo request (ping). The daemon runs it
/// with unprivileged ICMP sockets.
pub struct IcmpExecutor;

impl IcmpExecutor {
    pub fn new() -> (e: Self)
        ensures
            e == IcmpExecutor,
    {
        IcmpExecutor
    }
}

impl Default for IcmpExecutor {
    fn default() -> (e: Self)
        ensures
            e == IcmpExecutor,
    {
        IcmpExecutor::new()
    }
}

/// The outcome of an ICMP poll of `address` that could not be resolved to an
/// IP address: a failure, with no latency, whose error is
/// `"Failed to resolve address: <address>"`.
pub fn unresolved_outcome(address: &str) -> (o: PollOutcome)
    ensures
        !o.success,
        o.latency_ns is None,
        o.error matches Some(e) && e@ == "Failed to resolve address: "@ + address@,
{
    broadcast use vstd::string::group_string_axioms;
    let mut error = "Failed to resolve address: ".to_string();
    error.append(address);
    PollOutcome::failed(error, None)
}

/// The outcome of an ICMP poll whose socket could not be opened, for the
/// reason `detail`: a failure, with no latency, whose error is
/// `"Failed to create ICMP client: <detail>"`.
pub fn client_failure_outcome(detail: &str) -> (o: PollOutcome)
    ensures
        !o.success,
        o.latency_ns is None,
        o.error matches Some(e) && e@ == "Failed to create ICMP client: "@ + detail@,
{
    broadcast use vstd::string::group_string_axioms;
    let mut error = "Failed to create ICMP client: ".to_string();
    error.append(detail);
    PollOutcome::failed(error, None)
}

} // verus!
