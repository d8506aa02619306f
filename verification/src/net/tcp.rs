use vstd::prelude::*;
use vstd::string::StringExecFns;

use super::PollOutcome;

verus! {

/// Polls a node by attempting a TCP connection to a given port.
pub struct TcpExecutor {
    pub port: u16,
}

impl TcpExecutor {
    pub fn new(port: u16) -> (e: Self)
        ensures
            e.port == port,
    {
        TcpExecutor { port }
    }
}

/// The outcome of a TCP connection attempt to `target` (`address:port`)
/// that did not complete in time: a failure, with no latency, whose error
/// is `"TCP connect to <target> timed out"`.
pub fn timed_out_outcome(target: &str) -> (o: PollOutcome)
    ensures
        !o.success,
        o.latency_ns is None,
        o.error matches Some(e) && e@ == "TCP connect to "@ + target@ + " timed out"@,
{
    broadcast use vstd::string::group_string_axioms;
    let mut error = "TCP connect to ".to_string();
    error.append(target);
    error.append(" timed out");
    PollOutcome::failed(error, None)
}

} // verus!
