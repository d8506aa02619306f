use std::collections::HashMap;
use vstd::prelude::*;

use crate::db::codec::{format_uuid, parse_uuid, uuid_from_text, uuid_text};
use crate::engine::monitor::EngineError;
use crate::models::ident::{is_random_uuid, new_random_id};
use crate::models::node::Node;
use crate::models::poll::{
    interval_fits_duration, interval_ms_for, interval_ms_from_secs, Poll, PollProtocol, DEFAULT_FAILURE_THRESHOLD, DEFAULT_RECOVERY_THRESHOLD,
};
use crate::models::status::{effective_status_name, node_status_name, EffectiveStatus, NodeStatus};

verus! {

/// The text form in which the API serves an id: its UUID text, which
/// `parse_id` reads back to the id.
pub fn id_text(id: u128) -> (s: String)
    ensures
        s@ == uuid_text(id),
        uuid_from_text(s@) == Some(id),
{
    format_uuid(id)
}

/// The id that an id text of a request path stands for; `None` when the
/// text is not a UUID.
pub fn parse_id(text: &str) -> (r: Option<u128>)
    ensures
        r == uuid_from_text(text@),
{
    parse_uuid(text)
}

/// Body of an error response: `{ "error": message }`.
#[derive(Debug, Clone)]
pub struct ErrorResponse {
    pub error: String,
}

/// Request to register a node.
#[derive(Debug, Clone)]
pub struct CreateNodeRequest {
    pub name: String,
    pub addresses: Vec<String>,
    pub polling_profile: String,
    pub parent_node_id: Option<u128>,
    pub metadata: Option<HashMap<String, String>>,
    pub tags: Option<Vec<String>>,
}

/// A node as served, with its statuses in text form.
#[derive(Debug, Clone)]
pub struct NodeResponse {
    pub id: u128,
    pub name: String,
    pub addresses: Vec<String>,
    pub polling_profile: String,
    pub status: String,
    pub effective_status: String,
    pub parent_node_id: Option<u128>,
    pub tags: Vec<String>,
    pub consecutive_failures: u32,
    pub consecutive_successes: u32,
}

/// A node's statuses and counters as served.
#[derive(Debug, Clone)]
pub struct StatusResponse {
    pub status: String,
    pub effective_status: String,
    pub consecutive_failures: u32,
    pub consecutive_successes: u32,
}

/// Request to add a poll to a node.
#[derive(Debug, Clone)]
pub struct CreatePollRequest {
    pub protocol: PollProtocol,
    pub interval_secs: u64,
    pub timeout_ms: u64,
    pub retries: Option<u32>,
    pub failure_threshold: Option<u32>,
    pub recovery_threshold: Option<u32>,
}

/// A poll configuration as served.
#[derive(Debug, Clone)]
pub struct PollResponse {
    pub id: u128,
    pub node_id: u128,
    pub protocol: PollProtocol,
    pub interval_secs: u64,
    pub timeout_ms: u64,
    pub retries: u32,
    pub failure_threshold: u32,
    pub recovery_threshold: u32,
}

/// Engine statistics as served.
#[derive(Debug, Clone, Copy)]
pub struct StatsResponse {
    pub node_count: usize,
    pub engine_uptime_secs: u64,
}

/// The message of the response to a node request without addresses.
pub open spec fn empty_addresses_message() -> Seq<char> {
    "addresses must not be empty"@
}

/// Build the node that a creation request describes: a fresh id, the
/// request's name, addresses, profile, parent, metadata and tags (none given
/// means no tags), status `Unknown` and zero counters.
///
/// A request without addresses is refused with
/// `"addresses must not be empty"` (a bad request). A valid request gives
/// `Ok(None)` when no random id can be drawn (the operating system's random
/// source failed).
pub fn node_from_request(req: CreateNodeRequest) -> (r: Result<Option<Node>, ErrorResponse>)
    ensures
        req.addresses@.len() == 0 ==> (r matches Err(e) && e.error@ == empty_addresses_message()),
        req.addresses@.len() > 0 ==> r is Ok,
        r matches Ok(Some(n)) ==> ({
            &&& is_random_uuid(n.id)
            &&& n.name@ == req.name@
            &&& n.addresses@ == req.addresses@
            &&& n.polling_profile == req.polling_profile
            &&& n.parent_node_id == req.parent_node_id
            &&& n.metadata == req.metadata
            &&& n.tags@ == match req.tags {
                Some(t) => t@,
                None => Seq::<String>::empty(),
            }
            &&& n.status == NodeStatus::Unknown
            &&& n.effective_status == EffectiveStatus::Unknown
            &&& n.consecutive_failures == 0
            &&& n.consecutive_successes == 0
        }),
{
    broadcast use vstd::string::group_string_axioms;
    if req.addresses.len() == 0 {
        return Err(ErrorResponse { error: "addresses must not be empty".to_string() });
    }
    let CreateNodeRequest { name, addresses, polling_profile, parent_node_id, metadata, tags } = req;
    let mut node = match Node::new(name.as_str(), addresses) {
        Some(n) => n,
        None => return Ok(None),
    };
    node.polling_profile = polling_profile;
    node.parent_node_id = parent_node_id;
    node.metadata = metadata;
    node.tags = match tags {
        Some(t) => t,
        None => Vec::new(),
    };
    Ok(Some(node))
}

/// Build the poll that a request describes for node `node_id`: a fresh id,
/// the request's protocol, interval and timeout, and the request's retries
/// and thresholds where given (0 retries, thresholds 3 and 1 otherwise).
/// `None` when no random id can be drawn (the operating system's random
/// source failed).
pub fn poll_from_request(node_id: u128, req: &CreatePollRequest) -> (r: Option<Poll>)
    ensures
        r matches Some(p) ==> {
            &&& is_random_uuid(p.id)
            &&& p.node_id == node_id
            &&& p.protocol == req.protocol
            &&& p.interval_ms == interval_ms_for(req.interval_secs)
            &&& interval_fits_duration(p.interval_ms)
            &&& p.timeout_ms == req.timeout_ms
            &&& p.retries == match req.retries {
                Some(v) => v,
                None => 0u32,
            }
            &&& p.failure_threshold == match req.failure_threshold {
                Some(v) => v,
                None => DEFAULT_FAILURE_THRESHOLD,
            }
            &&& p.recovery_threshold == match req.recovery_threshold {
                Some(v) => v,
                None => DEFAULT_RECOVERY_THRESHOLD,
            }
        },
{
    let id = match new_random_id() {
        Some(id) => id,
        None => return None,
    };
    let interval_ms = interval_ms_from_secs(req.interval_secs);
    Some(
        Poll {
            id,
            node_id,
            protocol: req.protocol,
            interval_ms,
            timeout_ms: req.timeout_ms,
            retries: match req.retries {
                Some(v) => v,
                None => 0,
            },
            failure_threshold: match req.failure_threshold {
                Some(v) => v,
                None => DEFAULT_FAILURE_THRESHOLD,
            },
            recovery_threshold: match req.recovery_threshold {
                Some(v) => v,
                None => DEFAULT_RECOVERY_THRESHOLD,
            },
        },
    )
}

impl NodeResponse {
    /// The node as served: its fields, with the statuses in text form.
    pub fn from_node(n: Node) -> (r: NodeResponse)
        ensures
            r.id == n.id,
            r.name == n.name,
            r.addresses == n.addresses,
            r.polling_profile == n.polling_profile,
            r.status@ == node_status_name(n.status),
            r.effective_status@ == effective_status_name(n.effective_status),
            r.parent_node_id == n.parent_node_id,
            r.tags == n.tags,
            r.consecutive_failures == n.consecutive_failures,
            r.consecutive_successes == n.consecutive_successes,
    {
        broadcast use vstd::string::group_string_axioms;
        let status = n.status.as_str().to_string();
        let effective_status = n.effective_status.as_str().to_string();
        NodeResponse {
            id: n.id,
            name: n.name,
            addresses: n.addresses,
            polling_profile: n.polling_profile,
            status,
            effective_status,
            parent_node_id: n.parent_node_id,
            tags: n.tags,
            consecutive_failures: n.consecutive_failures,
            consecutive_successes: n.consecutive_successes,
        }
    }
}

impl StatusResponse {
    /// A node's statuses (in text form) and counters.
    pub fn from_node(n: &Node) -> (r: StatusResponse)
        ensures
            r.status@ == node_status_name(n.status),
            r.effective_status@ == effective_status_name(n.effective_status),
            r.consecutive_failures == n.consecutive_failures,
            r.consecutive_successes == n.consecutive_successes,
    {
        broadcast use vstd::string::group_string_axioms;
        StatusResponse {
            status: n.status.as_str().to_string(),
            effective_status: n.effective_status.as_str().to_string(),
            consecutive_failures: n.consecutive_failures,
            consecutive_successes: n.consecutive_successes,
        }
    }
}

impl PollResponse {
    /// A poll configuration as served: interval in whole seconds, timeout in
    /// milliseconds. The interval must last at most `u64::MAX` seconds, as a
    /// `std::time::Duration` does (every poll built from a request or read
    /// from a row does).
    pub fn from_poll(p: Poll) -> (r: PollResponse)
        requires
            interval_fits_duration(p.interval_ms),
        ensures
            r.id == p.id,
            r.node_id == p.node_id,
            r.protocol == p.protocol,
            r.interval_secs == p.interval_ms / 1000,
            r.timeout_ms == p.timeout_ms,
            r.retries == p.retries,
            r.failure_threshold == p.failure_threshold,
            r.recovery_threshold == p.recovery_threshold,
    {
        PollResponse {
            id: p.id,
            node_id: p.node_id,
            protocol: p.protocol,
            interval_secs: (p.interval_ms / 1000) as u64,
            timeout_ms: p.timeout_ms,
            retries: p.retries,
            failure_threshold: p.failure_threshold,
            recovery_threshold: p.recovery_threshold,
        }
    }
}

/// The HTTP status that an engine error is answered with: 404 for an unknown
/// node, 500 otherwise.
pub fn status_code_for(e: EngineError) -> (code: u16)
    ensures
        e is NodeNotFound ==> code == 404,
        e is NoAddress ==> code == 500,
{
    match e {
        EngineError::NodeNotFound(_) => 404,
        EngineError::NoAddress => 500,
    }
}

} // verus!
