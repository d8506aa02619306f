use vstd::prelude::*;

use super::instant::{current_time_ns, CLOCK_REACH_NS};
use super::ident::{is_random_uuid, new_random_id};

verus! {

/// Protocol type for polling: ICMP ping or TCP connect check.
#[derive(Debug, Clone, Copy, PartialEq, Eq, Structural)]
pub enum PollProtocol {
    /// ICMP echo request (ping)
    Icmp,
    /// TCP connection attempt
    TcpConnect { port: u16 },
}

/// Polling configuration for a node: how and when to poll it.
///
/// Durations are held as whole milliseconds. The interval is a `u128`, so
/// that it holds every interval of a whole number of seconds up to
/// `u64::MAX` seconds, as a `std::time::Duration` does.
#[derive(Debug, Clone, Copy, PartialEq, Eq, Structural)]
pub struct Poll {
    /// Unique identifier for this poll configuration
    pub id: u128,
    /// Node this poll applies to
    pub node_id: u128,
    /// Protocol to use for polling
    pub protocol: PollProtocol,
    /// How often to poll, in milliseconds
    pub interval_ms: u128,
    /// Maximum time to wait for response, in milliseconds
    pub timeout_ms: u64,
    /// Number of retry attempts on failure
    pub retries: u32,
    /// Number of consecutive failures before marking Down
    pub failure_threshold: u32,
    /// Number of consecutive successes before marking Up from Down
    pub recovery_threshold: u32,
}

/// Failure threshold of a poll that does not set one.
pub const DEFAULT_FAILURE_THRESHOLD: u32 = 3;

/// Recovery threshold of a poll that does not set one.
pub const DEFAULT_RECOVERY_THRESHOLD: u32 = 1;

/// The interval, in milliseconds, of a poll whose interval is given in
/// whole seconds.
pub open spec fn interval_ms_for(interval_secs: u64) -> u128 {
    (interval_secs * 1000) as u128
}

/// Whether an interval of `interval_ms` milliseconds lasts at most `u64::MAX`
/// whole seconds, as every `std::time::Duration` does.
pub open spec fn interval_fits_duration(interval_ms: u128) -> bool {
    interval_ms / 1000 <= u64::MAX
}

/// The interval, in milliseconds, of a poll whose interval is given in whole
/// seconds.
pub fn interval_ms_from_secs(interval_secs: u64) -> (ms: u128)
    ensures
        ms == interval_ms_for(interval_secs),
        interval_fits_duration(ms),
{
    (interval_secs as u128) * 1000
}

impl Poll {
    /// Create a new poll configuration with a fresh random id, no retries,
    /// failure threshold 3 and recovery threshold 1. `None` when no random id
    /// can be drawn (the operating system's random source failed).
    pub fn new(node_id: u128, protocol: PollProtocol, interval_ms: u128, timeout_ms: u64) -> (r: Option<Self>)
        ensures
            r matches Some(poll) ==> {
                &&& is_random_uuid(poll.id)
                &&& poll.node_id == node_id
                &&& poll.protocol == protocol
                &&& poll.interval_ms == interval_ms
                &&& poll.timeout_ms == timeout_ms
                &&& poll.retries == 0
                &&& poll.failure_threshold == DEFAULT_FAILURE_THRESHOLD
                &&& poll.recovery_threshold == DEFAULT_RECOVERY_THRESHOLD
            },
    {
        let id = match new_random_id() {
            Some(id) => id,
            None => return None,
        };
        Some(
            Poll {
                id,
                node_id,
                protocol,
                interval_ms,
                timeout_ms,
                retries: 0,
                failure_threshold: DEFAULT_FAILURE_THRESHOLD,
                recovery_threshold: DEFAULT_RECOVERY_THRESHOLD,
            },
        )
    }
}

/// Immutable, timestamped result of a poll execution.
///
/// The timestamp is in nanoseconds since the Unix epoch; the latency in
/// nanoseconds.
#[derive(Debug, Clone)]
pub struct PollResult {
    /// Unique identifier for this result
    pub id: u128,
    /// Poll configuration that generated this result
    pub poll_id: u128,
    /// Node that was polled
    pub node_id: u128,
    /// When the poll was executed
    pub timestamp_ns: i128,
    /// Whether the poll succeeded
    pub success: bool,
    /// Response latency if successful
    pub latency_ns: Option<u128>,
    /// Error message if failed
    pub error: Option<String>,
}

impl PollResult {
    /// Create a new successful poll result, stamped with the current time
    /// (`current_time_ns`).
    /// `None` when no random id can be drawn (the operating system's random
    /// source failed).
    pub fn success(poll_id: u128, node_id: u128, latency_ns: u128) -> (r: Option<Self>)
        ensures
            r matches Some(res) ==> {
                &&& is_random_uuid(res.id)
                &&& res.poll_id == poll_id
                &&& res.node_id == node_id
                &&& res.success
                &&& res.latency_ns == Some(latency_ns)
                &&& res.error is None
                &&& -CLOCK_REACH_NS <= res.timestamp_ns <= CLOCK_REACH_NS
            },
    {
        let id = match new_random_id() {
            Some(id) => id,
            None => return None,
        };
        Some(
            PollResult {
                id,
                poll_id,
                node_id,
                timestamp_ns: current_time_ns(),
                success: true,
                latency_ns: Some(latency_ns),
                error: None,
            },
        )
    }

    /// Create a new failed poll result, stamped with the current time
    /// (`current_time_ns`).
    /// `None` when no random id can be drawn (the operating system's random
    /// source failed).
    pub fn failure(poll_id: u128, node_id: u128, error: &str) -> (r: Option<Self>)
        ensures
            r matches Some(res) ==> {
                &&& is_random_uuid(res.id)
                &&& res.poll_id == poll_id
                &&& res.node_id == node_id
                &&& !res.success
                &&& res.latency_ns is None
                &&& res.error matches Some(e) && e@ == error@
                &&& -CLOCK_REACH_NS <= res.timestamp_ns <= CLOCK_REACH_NS
            },
    {
        broadcast use vstd::string::group_string_axioms;
        let id = match new_random_id() {
            Some(id) => id,
            None => return None,
        };
        Some(
            PollResult {
                id,
                poll_id,
                node_id,
                timestamp_ns: current_time_ns(),
                success: false,
                latency_ns: None,
                error: Some(error.to_string()),
            },
        )
    }
}

} // verus!
