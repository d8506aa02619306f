use std::collections::HashMap;
use vstd::prelude::*;

use super::codec::{
    decode_metadata, decode_strings, encode_metadata, encode_strings, format_uuid, json_of_strings,
    metadata_from_json, parse_uuid, strings_from_json, text_views, uuid_from_text, uuid_text,
};
use crate::models::instant::{
    ns_in_four_digit_years, ns_of_rfc3339, rfc3339_of_ns, timestamp_from_text, timestamp_text,
};
use crate::models::node::Node;
use crate::models::poll::{interval_fits_duration, interval_ms_for, interval_ms_from_secs, Poll, PollProtocol, PollResult};
use crate::models::status::{
    effective_of, lemma_status_text_round_trip, node_status_name, parse_node_status,
    EffectiveStatus, NodeStatus,
};

verus! {

/// A row of the `nodes` table, column by column, as stored.
///
/// Ids are UUID texts; addresses and tags are JSON arrays of strings;
/// metadata is a JSON object of strings; the status is its text form.
#[derive(Debug, Clone)]
pub struct NodeRow {
    pub id: String,
    pub name: String,
    pub addresses: String,
    pub polling_profile: String,
    pub status: String,
    pub parent_node_id: Option<String>,
    pub metadata: Option<String>,
    pub tags: String,
    pub consecutive_failures: u32,
    pub consecutive_successes: u32,
}

/// A row of the `polls` table, as stored (the protocol column is the JSON of
/// the protocol, which the daemon writes and reads).
#[derive(Debug, Clone)]
pub struct PollRow {
    pub id: String,
    pub node_id: String,
    pub protocol: PollProtocol,
    pub interval_secs: i64,
    pub timeout_ms: i64,
    pub retries: u32,
    pub failure_threshold: u32,
    pub recovery_threshold: u32,
}

/// A row of the `poll_results` table, as stored: ids are UUID texts, the
/// timestamp is RFC 3339 text, success is 0 or 1, latency in microseconds.
#[derive(Debug, Clone)]
pub struct PollResultRow {
    pub id: String,
    pub poll_id: String,
    pub node_id: String,
    pub timestamp: String,
    pub success: i32,
    pub latency_us: Option<i64>,
    pub error: Option<String>,
}

/// `row` is how `node` is stored; the texts read back to the node's values.
/// (The metadata text is fixed only up to the order of its entries.)
pub open spec fn encodes_node(node: Node, row: NodeRow) -> bool {
    &&& row.id@ == uuid_text(node.id)
    &&& uuid_from_text(row.id@) == Some(node.id)
    &&& row.name == node.name
    &&& row.addresses@ == json_of_strings(text_views(node.addresses@))
    &&& strings_from_json(row.addresses@) == Some(text_views(node.addresses@))
    &&& row.polling_profile == node.polling_profile
    &&& row.status@ == node_status_name(node.status)
    &&& match node.parent_node_id {
        Some(p) => (row.parent_node_id matches Some(t) && t@ == uuid_text(p) && uuid_from_text(t@)
            == Some(p)),
        None => row.parent_node_id is None,
    }
    &&& match node.metadata {
        Some(m) => (row.metadata matches Some(t) && metadata_from_json(t@) == Some(m@)),
        None => row.metadata is None,
    }
    &&& row.tags@ == json_of_strings(text_views(node.tags@))
    &&& strings_from_json(row.tags@) == Some(text_views(node.tags@))
    &&& row.consecutive_failures == node.consecutive_failures
    &&& row.consecutive_successes == node.consecutive_successes
}

/// `r` is what reading `row` gives: `None` when the id or the addresses do
/// not parse; otherwise the node, with an unparsable parent taken as none,
/// unparsable metadata as none, unparsable tags as no tags, an unknown
/// status text as `Unknown`, and the effective status equal to the status.
pub open spec fn decodes_node(row: NodeRow, r: Option<Node>) -> bool {
    &&& (r is None) == (uuid_from_text(row.id@) is None || strings_from_json(row.addresses@) is None)
    &&& r matches Some(n) ==> {
        &&& uuid_from_text(row.id@) == Some(n.id)
        &&& n.name == row.name
        &&& strings_from_json(row.addresses@) == Some(text_views(n.addresses@))
        &&& n.polling_profile == row.polling_profile
        &&& n.status == parse_node_status(row.status@)
        &&& n.effective_status == effective_of(n.status)
        &&& n.parent_node_id == match row.parent_node_id {
            Some(t) => uuid_from_text(t@),
            None => None,
        }
        &&& match row.metadata {
            Some(t) => match metadata_from_json(t@) {
                Some(m) => (n.metadata matches Some(h) && h@ == m),
                None => n.metadata is None,
            },
            None => n.metadata is None,
        }
        &&& text_views(n.tags@) == match strings_from_json(row.tags@) {
            Some(ts) => ts,
            None => Seq::empty(),
        }
        &&& n.consecutive_failures == row.consecutive_failures
        &&& n.consecutive_successes == row.consecutive_successes
    }
}

/// The row that stores a node.
pub fn node_to_row(node: &Node) -> (r: NodeRow)
    ensures
        encodes_node(*node, r),
{
    broadcast use vstd::string::group_string_axioms;
    let parent_node_id = match node.parent_node_id {
        Some(p) => Some(format_uuid(p)),
        None => None,
    };
    let metadata = match &node.metadata {
        Some(m) => Some(encode_metadata(m)),
        None => None,
    };
    NodeRow {
        id: format_uuid(node.id),
        name: node.name.clone(),
        addresses: encode_strings(&node.addresses),
        polling_profile: node.polling_profile.clone(),
        status: node.status.as_str().to_string(),
        parent_node_id,
        metadata,
        tags: encode_strings(&node.tags),
        consecutive_failures: node.consecutive_failures,
        consecutive_successes: node.consecutive_successes,
    }
}

/// Assemble a node from a stored row and what was parsed out of its
/// columns: the id, the addresses, the parent id, the metadata and the tags.
///
/// `None` when the id or the addresses did not parse; a parent, metadata or
/// tags that did not parse count as none (no tags); the status text is read
/// by `NodeStatus::from_db_str` and the effective status is the status.
pub fn node_from_parsed(
    row: NodeRow,
    id: Option<u128>,
    addresses: Option<Vec<String>>,
    parent_node_id: Option<u128>,
    metadata: Option<HashMap<String, String>>,
    tags: Option<Vec<String>>,
) -> (r: Option<Node>)
    ensures
        (r is None) == (id is None || addresses is None),
        r matches Some(n) ==> {
            &&& Some(n.id) == id
            &&& n.name == row.name
            &&& Some(n.addresses) == addresses
            &&& n.polling_profile == row.polling_profile
            &&& n.status == parse_node_status(row.status@)
            &&& n.effective_status == effective_of(n.status)
            &&& n.parent_node_id == parent_node_id
            &&& n.metadata == metadata
            &&& n.tags@ == match tags {
                Some(t) => t@,
                None => Seq::empty(),
            }
            &&& n.consecutive_failures == row.consecutive_failures
            &&& n.consecutive_successes == row.consecutive_successes
        },
{
    let id = match id {
        Some(id) => id,
        None => return None,
    };
    let addresses = match addresses {
        Some(a) => a,
        None => return None,
    };
    let tags = match tags {
        Some(t) => t,
        None => Vec::new(),
    };
    let status = NodeStatus::from_db_str(row.status.as_str());
    let NodeRow { name, polling_profile, consecutive_failures, consecutive_successes, .. } = row;
    Some(
        Node {
            id,
            name,
            addresses,
            polling_profile,
            status,
            effective_status: EffectiveStatus::from(status),
            parent_node_id,
            metadata,
            tags,
            consecutive_failures,
            consecutive_successes,
        },
    )
}

/// Read a stored node row (see `decodes_node`): parse its columns and
/// assemble the node with `node_from_parsed`.
pub fn node_from_row(row: NodeRow) -> (r: Option<Node>)
    ensures
        decodes_node(row, r),
{
    let id = parse_uuid(row.id.as_str());
    let addresses = decode_strings(row.addresses.as_str());
    let parent_node_id = match &row.parent_node_id {
        Some(t) => parse_uuid(t.as_str()),
        None => None,
    };
    let metadata = match &row.metadata {
        Some(t) => decode_metadata(t.as_str()),
        None => None,
    };
    let tags = decode_strings(row.tags.as_str());
    proof {
        assert(text_views(Seq::<String>::empty()) =~= Seq::<Seq<char>>::empty());
    }
    node_from_parsed(row, id, addresses, parent_node_id, metadata, tags)
}

/// What is stored of a node reads back as the node: the same id, name,
/// addresses, profile, status, parent, metadata, tags and counters; only the
/// effective status is taken afresh from the status (the engine recomputes
/// it on load).
pub proof fn lemma_stored_node_reads_back(node: Node, row: NodeRow, back: Option<Node>)
    requires
        encodes_node(node, row),
        decodes_node(row, back),
    ensures
        back matches Some(n) && {
            &&& n.id == node.id
            &&& n.name == node.name
            &&& text_views(n.addresses@) == text_views(node.addresses@)
            &&& n.polling_profile == node.polling_profile
            &&& n.status == node.status
            &&& n.effective_status == effective_of(node.status)
            &&& n.parent_node_id == node.parent_node_id
            &&& match node.metadata {
                Some(m) => (n.metadata matches Some(h) && h@ == m@),
                None => n.metadata is None,
            }
            &&& text_views(n.tags@) == text_views(node.tags@)
            &&& n.consecutive_failures == node.consecutive_failures
            &&& n.consecutive_successes == node.consecutive_successes
        },
{
    lemma_status_text_round_trip(node.status);
}

/// `row` is how poll `p` is stored: the interval in whole seconds, the
/// timeout in milliseconds (as a signed column), ids as UUID texts that read
/// back to the ids.
pub open spec fn encodes_poll(p: Poll, row: PollRow) -> bool {
    &&& row.id@ == uuid_text(p.id)
    &&& uuid_from_text(row.id@) == Some(p.id)
    &&& row.node_id@ == uuid_text(p.node_id)
    &&& uuid_from_text(row.node_id@) == Some(p.node_id)
    &&& row.protocol == p.protocol
    &&& row.interval_secs == (p.interval_ms / 1000) as i64
    &&& row.timeout_ms == p.timeout_ms as i64
    &&& row.retries == p.retries
    &&& row.failure_threshold == p.failure_threshold
    &&& row.recovery_threshold == p.recovery_threshold
}

/// `r` is what reading `row` gives: `None` when an id does not parse,
/// otherwise the poll with the interval in milliseconds.
pub open spec fn decodes_poll(row: PollRow, r: Option<Poll>) -> bool {
    &&& (r is None) == (uuid_from_text(row.id@) is None || uuid_from_text(row.node_id@) is None)
    &&& r matches Some(p) ==> {
        &&& uuid_from_text(row.id@) == Some(p.id)
        &&& uuid_from_text(row.node_id@) == Some(p.node_id)
        &&& p.protocol == row.protocol
        &&& p.interval_ms == interval_ms_for(row.interval_secs as u64)
        &&& interval_fits_duration(p.interval_ms)
        &&& p.timeout_ms == row.timeout_ms as u64
        &&& p.retries == row.retries
        &&& p.failure_threshold == row.failure_threshold
        &&& p.recovery_threshold == row.recovery_threshold
    }
}

/// The row that stores a poll configuration.
pub fn poll_to_row(p: &Poll) -> (r: PollRow)
    ensures
        encodes_poll(*p, r),
{
    PollRow {
        id: format_uuid(p.id),
        node_id: format_uuid(p.node_id),
        protocol: p.protocol,
        interval_secs: (p.interval_ms / 1000) as i64,
        timeout_ms: p.timeout_ms as i64,
        retries: p.retries,
        failure_threshold: p.failure_threshold,
        recovery_threshold: p.recovery_threshold,
    }
}

/// Assemble a poll from a stored row and its parsed ids: `None` when an id
/// did not parse; the interval goes from whole seconds to milliseconds and
/// the timeout from the signed column to `u64`.
pub fn poll_from_parsed(row: &PollRow, id: Option<u128>, node_id: Option<u128>) -> (r: Option<Poll>)
    ensures
        (r is None) == (id is None || node_id is None),
        r matches Some(p) ==> {
            &&& Some(p.id) == id
            &&& Some(p.node_id) == node_id
            &&& p.protocol == row.protocol
            &&& p.interval_ms == interval_ms_for(row.interval_secs as u64)
            &&& interval_fits_duration(p.interval_ms)
            &&& p.timeout_ms == row.timeout_ms as u64
            &&& p.retries == row.retries
            &&& p.failure_threshold == row.failure_threshold
            &&& p.recovery_threshold == row.recovery_threshold
        },
{
    let id = match id {
        Some(id) => id,
        None => return None,
    };
    let node_id = match node_id {
        Some(id) => id,
        None => return None,
    };
    Some(
        Poll {
            id,
            node_id,
            protocol: row.protocol,
            interval_ms: interval_ms_from_secs(row.interval_secs as u64),
            timeout_ms: row.timeout_ms as u64,
            retries: row.retries,
            failure_threshold: row.failure_threshold,
            recovery_threshold: row.recovery_threshold,
        },
    )
}

/// Read a stored poll row (see `decodes_poll`).
pub fn poll_from_row(row: &PollRow) -> (r: Option<Poll>)
    ensures
        decodes_poll(*row, r),
{
    let id = parse_uuid(row.id.as_str());
    let node_id = parse_uuid(row.node_id.as_str());
    poll_from_parsed(row, id, node_id)
}

/// What is stored of a poll reads back as the poll, with its interval
/// rounded down to whole seconds (for an interval of at most `u64::MAX`
/// seconds, as every `std::time::Duration` is).
pub proof fn lemma_stored_poll_reads_back(p: Poll, row: PollRow, back: Option<Poll>)
    requires
        interval_fits_duration(p.interval_ms),
        encodes_poll(p, row),
        decodes_poll(row, back),
    ensures
        back == Some(Poll { interval_ms: ((p.interval_ms / 1000) * 1000) as u128, ..p }),
{
    let t = p.timeout_ms;
    assert((t as i64) as u64 == t) by (bit_vector);
    let x: u128 = p.interval_ms / 1000;
    assert(x <= 0xffff_ffff_ffff_ffffu128 ==> ((x as i64) as u64) as u128 == x) by (bit_vector);
    assert(x * 1000 <= p.interval_ms);
}

/// `row` is how result `r` is stored (the timestamp must have a text):
/// texts that read back to the ids, a timestamp text that reads back to the
/// instant when its year has four digits, and the latency in whole
/// microseconds (as a signed column).
pub open spec fn encodes_result(r: PollResult, row: PollResultRow) -> bool {
    &&& row.id@ == uuid_text(r.id)
    &&& uuid_from_text(row.id@) == Some(r.id)
    &&& row.poll_id@ == uuid_text(r.poll_id)
    &&& uuid_from_text(row.poll_id@) == Some(r.poll_id)
    &&& row.node_id@ == uuid_text(r.node_id)
    &&& uuid_from_text(row.node_id@) == Some(r.node_id)
    &&& rfc3339_of_ns(r.timestamp_ns as int) == Some(row.timestamp@)
    &&& ns_in_four_digit_years(r.timestamp_ns as int) ==> ns_of_rfc3339(row.timestamp@) == Some(
        r.timestamp_ns as int,
    )
    &&& row.success == (if r.success { 1i32 } else { 0i32 })
    &&& row.latency_us == match r.latency_ns {
        Some(l) => Some((l / 1000) as i64),
        None => None,
    }
    &&& row.error == r.error
}

/// `r` is what reading `row` gives: `None` when an id or the timestamp does
/// not parse; otherwise the result, successful when the column is not 0,
/// with the latency taken from whole microseconds.
pub open spec fn decodes_result(row: PollResultRow, r: Option<PollResult>) -> bool {
    &&& (r is None) == (uuid_from_text(row.id@) is None || uuid_from_text(row.poll_id@) is None
        || uuid_from_text(row.node_id@) is None || ns_of_rfc3339(row.timestamp@) is None)
    &&& r matches Some(res) ==> {
        &&& uuid_from_text(row.id@) == Some(res.id)
        &&& uuid_from_text(row.poll_id@) == Some(res.poll_id)
        &&& uuid_from_text(row.node_id@) == Some(res.node_id)
        &&& ns_of_rfc3339(row.timestamp@) == Some(res.timestamp_ns as int)
        &&& res.success == (row.success != 0)
        &&& res.latency_ns == match row.latency_us {
            Some(l) => Some(((l as u64) * 1000) as u128),
            None => None,
        }
        &&& res.error == row.error
    }
}

/// The row that stores a poll result; `None` when its timestamp has no RFC
/// 3339 text (it is outside chrono's range of instants).
pub fn result_to_row(r: &PollResult) -> (row: Option<PollResultRow>)
    ensures
        match row {
            Some(row) => encodes_result(*r, row),
            None => rfc3339_of_ns(r.timestamp_ns as int) is None,
        },
{
    let timestamp = match timestamp_text(r.timestamp_ns) {
        Some(t) => t,
        None => return None,
    };
    let latency_us = match r.latency_ns {
        Some(l) => Some((l / 1000) as i64),
        None => None,
    };
    let error = match &r.error {
        Some(e) => Some(e.clone()),
        None => None,
    };
    Some(
        PollResultRow {
            id: format_uuid(r.id),
            poll_id: format_uuid(r.poll_id),
            node_id: format_uuid(r.node_id),
            timestamp,
            success: if r.success {
                1
            } else {
                0
            },
            latency_us,
            error,
        },
    )
}

/// Assemble a poll result from a stored row and its parsed ids and
/// timestamp: `None` when one of them did not parse; the result succeeded
/// when the column is not 0; the latency goes from whole microseconds in the
/// signed column to nanoseconds.
pub fn result_from_parsed(
    row: &PollResultRow,
    id: Option<u128>,
    poll_id: Option<u128>,
    node_id: Option<u128>,
    timestamp_ns: Option<i128>,
) -> (r: Option<PollResult>)
    ensures
        (r is None) == (id is None || poll_id is None || node_id is None || timestamp_ns is None),
        r matches Some(res) ==> {
            &&& Some(res.id) == id
            &&& Some(res.poll_id) == poll_id
            &&& Some(res.node_id) == node_id
            &&& Some(res.timestamp_ns) == timestamp_ns
            &&& res.success == (row.success != 0)
            &&& res.latency_ns == match row.latency_us {
                Some(l) => Some(((l as u64) * 1000) as u128),
                None => None,
            }
            &&& res.error == row.error
        },
{
    let id = match id {
        Some(v) => v,
        None => return None,
    };
    let poll_id = match poll_id {
        Some(v) => v,
        None => return None,
    };
    let node_id = match node_id {
        Some(v) => v,
        None => return None,
    };
    let timestamp_ns = match timestamp_ns {
        Some(v) => v,
        None => return None,
    };
    let latency_ns = match row.latency_us {
        Some(l) => Some((l as u64) as u128 * 1000),
        None => None,
    };
    let error = match &row.error {
        Some(e) => Some(e.clone()),
        None => None,
    };
    Some(
        PollResult {
            id,
            poll_id,
            node_id,
            timestamp_ns,
            success: row.success != 0,
            latency_ns,
            error,
        },
    )
}

/// Read a stored poll result row (see `decodes_result`).
pub fn result_from_row(row: &PollResultRow) -> (r: Option<PollResult>)
    ensures
        decodes_result(*row, r),
{
    let id = parse_uuid(row.id.as_str());
    let poll_id = parse_uuid(row.poll_id.as_str());
    let node_id = parse_uuid(row.node_id.as_str());
    let timestamp_ns = timestamp_from_text(row.timestamp.as_str());
    result_from_parsed(row, id, poll_id, node_id, timestamp_ns)
}

/// What is stored of a poll result taken in the years 0000 through 9999
/// reads back as the same result, with its latency rounded down to whole
/// microseconds (for a latency of at most `u64::MAX` microseconds).
pub proof fn lemma_stored_result_reads_back(r: PollResult, row: PollResultRow, back: Option<PollResult>)
    requires
        ns_in_four_digit_years(r.timestamp_ns as int),
        r.latency_ns matches Some(l) ==> l / 1000 <= u64::MAX,
        encodes_result(r, row),
        decodes_result(row, back),
    ensures
        back matches Some(b) && b.id == r.id && b.poll_id == r.poll_id && b.node_id == r.node_id
            && b.timestamp_ns == r.timestamp_ns && b.success == r.success && b.latency_ns == match r.latency_ns {
            Some(l) => Some((l / 1000 * 1000) as u128),
            None => None,
        } && b.error == r.error,
{
    if let Some(l) = r.latency_ns {
        let x: u128 = l / 1000;
        assert(x <= 0xffff_ffff_ffff_ffffu128 ==> ((x as i64) as u64) as u128 == x) by (bit_vector);
    }
}

} // verus!
