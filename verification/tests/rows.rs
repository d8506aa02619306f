use std::collections::HashMap;

use vigil::db::retention::{retention_cutoff_ns, retention_cutoff_text};
use vigil::models::instant::{current_time_ns, instant_of_reading, timestamp_from_text, timestamp_text};
use vigil::db::rows::{
    node_from_parsed, node_from_row, node_to_row, poll_from_parsed, poll_from_row, poll_to_row,
    result_from_parsed, result_from_row, result_to_row, NodeRow, PollResultRow, PollRow,
};
use vigil::models::node::Node;
use vigil::models::poll::{Poll, PollProtocol, PollResult};
use vigil::models::status::{EffectiveStatus, NodeStatus};

#[test]
fn node_rows_hold_uuid_and_json_texts() {
    let mut node = Node::new("test-router", vec!["192.168.1.1".to_string()]).unwrap();
    node.id = 0xa1a2a3a4b1b2c1c2d1d2d3d4d5d6d7d8;
    node.status = NodeStatus::Up;
    node.tags = vec!["core".to_string(), "a\"b".to_string()];
    let row = node_to_row(&node);
    assert_eq!(row.id, "a1a2a3a4-b1b2-c1c2-d1d2-d3d4d5d6d7d8");
    assert_eq!(row.addresses, "[\"192.168.1.1\"]");
    assert_eq!(row.status, "Up");
    assert_eq!(row.tags, "[\"core\",\"a\\\"b\"]");
    assert!(row.parent_node_id.is_none());
    assert!(row.metadata.is_none());
}

#[test]
fn stored_nodes_read_back() {
    let parent = Node::new("parent", vec![]).unwrap();
    let mut node = Node::new("test-router", vec!["192.168.1.1".to_string(), "h.example".to_string()]).unwrap();
    node.status = NodeStatus::Down;
    node.effective_status = EffectiveStatus::Suppressed;
    node.parent_node_id = Some(parent.id);
    let mut meta = HashMap::new();
    meta.insert("site".to_string(), "lab".to_string());
    node.metadata = Some(meta.clone());
    node.consecutive_failures = 5;
    let back = node_from_row(node_to_row(&node)).unwrap();
    assert_eq!(back.id, node.id);
    assert_eq!(back.name, node.name);
    assert_eq!(back.addresses, node.addresses);
    assert_eq!(back.status, NodeStatus::Down);
    // The effective status is taken from the status; the engine recomputes it.
    assert_eq!(back.effective_status, EffectiveStatus::Down);
    assert_eq!(back.parent_node_id, Some(parent.id));
    assert_eq!(back.metadata, Some(meta));
    assert_eq!(back.consecutive_failures, 5);
}

#[test]
fn malformed_node_rows() {
    let node = Node::new("n", vec!["10.0.0.1".to_string()]).unwrap();
    let mut row = node_to_row(&node);
    row.id = "not-a-uuid".to_string();
    assert!(node_from_row(row).is_none());

    let mut row = node_to_row(&node);
    row.addresses = "{".to_string();
    assert!(node_from_row(row).is_none());

    // Lenient columns fall back.
    let mut row = node_to_row(&node);
    row.tags = "oops".to_string();
    row.metadata = Some("[1]".to_string());
    row.parent_node_id = Some("zzz".to_string());
    row.status = "Sideways".to_string();
    let back = node_from_row(row).unwrap();
    assert!(back.tags.is_empty());
    assert!(back.metadata.is_none());
    assert!(back.parent_node_id.is_none());
    assert_eq!(back.status, NodeStatus::Unknown);
}

#[test]
fn stored_polls_read_back_with_whole_seconds() {
    let mut poll = Poll::new(7, PollProtocol::TcpConnect { port: 443 }, 30_500, 5_000).unwrap();
    poll.retries = 2;
    let row = poll_to_row(&poll);
    assert_eq!(row.interval_secs, 30);
    assert_eq!(row.timeout_ms, 5_000);
    let back = poll_from_row(&row).unwrap();
    assert_eq!(back.id, poll.id);
    assert_eq!(back.node_id, 7);
    assert_eq!(back.interval_ms, 30_000);
    assert_eq!(back.timeout_ms, 5_000);
    assert_eq!(back.retries, 2);
    assert_eq!(back.protocol, PollProtocol::TcpConnect { port: 443 });
    let mut bad = row.clone();
    bad.node_id = String::new();
    assert!(poll_from_row(&bad).is_none());
}

#[test]
fn longest_interval_reads_back() {
    let poll = Poll::new(7, PollProtocol::Icmp, u64::MAX as u128 * 1000, 5_000).unwrap();
    let row = poll_to_row(&poll);
    assert_eq!(row.interval_secs, -1);
    let back = poll_from_row(&row).unwrap();
    assert_eq!(back.interval_ms, u64::MAX as u128 * 1000);
}

#[test]
fn stored_results_read_back() {
    let mut r = PollResult::failure(1, 2, "Connection timeout").unwrap();
    r.timestamp_ns = 1_662_921_288_123_456_789;
    let row = result_to_row(&r).unwrap();
    assert_eq!(row.success, 0);
    assert_eq!(row.timestamp, "2022-09-11T18:34:48.123456789+00:00");
    let back = result_from_row(&row).unwrap();
    assert_eq!(back.id, r.id);
    assert_eq!(back.poll_id, 1);
    assert_eq!(back.node_id, 2);
    assert_eq!(back.timestamp_ns, r.timestamp_ns);
    assert!(!back.success);
    assert_eq!(back.error, Some("Connection timeout".to_string()));

    let ok = PollResult::success(3, 4, 25_000_999).unwrap();
    let row = result_to_row(&ok).unwrap();
    assert_eq!(row.latency_us, Some(25_000));
    let back = result_from_row(&row).unwrap();
    assert!(back.success);
    assert_eq!(back.latency_ns, Some(25_000_000));
}

#[test]
fn out_of_range_timestamps_are_not_stored() {
    let mut r = PollResult::success(1, 2, 3).unwrap();
    r.timestamp_ns = i128::MAX;
    assert!(result_to_row(&r).is_none());
    r.timestamp_ns = i64::MAX as i128 * 1_000_000_000;
    assert!(result_to_row(&r).is_none());
}

#[test]
fn last_four_digit_year_instant_reads_back() {
    let mut r = PollResult::success(1, 2, 3).unwrap();
    r.timestamp_ns = 253_402_300_799_999_999_999;
    let row = result_to_row(&r).unwrap();
    assert_eq!(row.timestamp, "9999-12-31T23:59:59.999999999+00:00");
    let back = result_from_row(&row).unwrap();
    assert_eq!(back.timestamp_ns, r.timestamp_ns);
}

#[test]
fn five_digit_year_is_written_but_not_read_back() {
    let mut r = PollResult::success(1, 2, 3).unwrap();
    r.timestamp_ns = 253_402_300_800_000_000_000;
    let row = result_to_row(&r).unwrap();
    assert_eq!(row.timestamp, "+10000-01-01T00:00:00+00:00");
    assert!(result_from_row(&row).is_none());
}

#[test]
fn malformed_result_rows() {
    let row = PollResultRow {
        id: "a1a2a3a4-b1b2-c1c2-d1d2-d3d4d5d6d7d8".to_string(),
        poll_id: "a1a2a3a4-b1b2-c1c2-d1d2-d3d4d5d6d7d8".to_string(),
        node_id: "a1a2a3a4-b1b2-c1c2-d1d2-d3d4d5d6d7d8".to_string(),
        timestamp: "yesterday".to_string(),
        success: 1,
        latency_us: None,
        error: None,
    };
    assert!(result_from_row(&row).is_none());
    let row = PollResultRow { timestamp: "1996-12-19T16:39:57-08:00".to_string(), ..row };
    let r = result_from_row(&row).unwrap();
    assert_eq!(r.timestamp_ns, 851_042_397_000_000_000);
    assert!(r.success);
}

#[test]
fn retention_cutoff() {
    let day = 86_400_000_000_000i128;
    assert_eq!(retention_cutoff_ns(100 * day, 30), Some(70 * day));
    assert_eq!(retention_cutoff_ns(0, 0), Some(0));
    assert_eq!(retention_cutoff_ns(i128::MIN + 5, 1), None);
    assert_eq!(retention_cutoff_text(31 * day + 500, 30), Some("1970-01-02T00:00:00.000000500+00:00".to_string()));
    assert_eq!(retention_cutoff_text(i128::MIN + 5, 1), None);
    assert_eq!(retention_cutoff_text(i128::MAX, 1), None);
}

#[test]
fn timestamp_texts() {
    assert_eq!(timestamp_text(0), Some("1970-01-01T00:00:00+00:00".to_string()));
    assert_eq!(timestamp_text(-1), Some("1969-12-31T23:59:59.999999999+00:00".to_string()));
    assert_eq!(timestamp_text(1_500_000_000), Some("1970-01-01T00:00:01.500+00:00".to_string()));
    assert_eq!(timestamp_from_text("1969-12-31T23:59:59.999999999+00:00"), Some(-1));
    assert_eq!(timestamp_from_text("1970-01-01T01:00:00+01:00"), Some(0));
    assert_eq!(timestamp_from_text("not a time"), None);
    assert!(current_time_ns() > 1_577_836_800_000_000_000);
}

#[test]
fn assembling_parsed_rows() {
    let row = NodeRow {
        id: String::new(),
        name: "edge".to_string(),
        addresses: String::new(),
        polling_profile: "default".to_string(),
        status: "Down".to_string(),
        parent_node_id: None,
        metadata: None,
        tags: String::new(),
        consecutive_failures: 3,
        consecutive_successes: 0,
    };
    assert!(node_from_parsed(row.clone(), None, Some(vec![]), None, None, None).is_none());
    assert!(node_from_parsed(row.clone(), Some(1), None, None, None, None).is_none());
    let n = node_from_parsed(row, Some(1), Some(vec!["a".to_string()]), Some(2), None, None).unwrap();
    assert_eq!(n.id, 1);
    assert_eq!(n.parent_node_id, Some(2));
    assert_eq!(n.status, NodeStatus::Down);
    assert_eq!(n.effective_status, EffectiveStatus::Down);
    assert!(n.tags.is_empty());
    assert_eq!(n.consecutive_failures, 3);

    let prow = PollRow {
        id: String::new(),
        node_id: String::new(),
        protocol: PollProtocol::Icmp,
        interval_secs: 60,
        timeout_ms: -1,
        retries: 1,
        failure_threshold: 2,
        recovery_threshold: 2,
    };
    assert!(poll_from_parsed(&prow, Some(1), None).is_none());
    let p = poll_from_parsed(&prow, Some(1), Some(2)).unwrap();
    assert_eq!(p.interval_ms, 60_000);
    assert_eq!(p.timeout_ms, u64::MAX);

    let rrow = PollResultRow {
        id: String::new(),
        poll_id: String::new(),
        node_id: String::new(),
        timestamp: String::new(),
        success: 2,
        latency_us: Some(40),
        error: None,
    };
    assert!(result_from_parsed(&rrow, Some(1), Some(2), Some(3), None).is_none());
    let r = result_from_parsed(&rrow, Some(1), Some(2), Some(3), Some(77)).unwrap();
    assert!(r.success);
    assert_eq!(r.timestamp_ns, 77);
    assert_eq!(r.latency_ns, Some(40_000));
}

#[test]
fn test_insert_and_get_node() {
    let node = Node::new("test-router", vec!["192.168.1.1".to_string()]).unwrap();
    let node_id = node.id;
    let retrieved = node_from_row(node_to_row(&node));
    assert!(retrieved.is_some());
    let retrieved = retrieved.unwrap();
    assert_eq!(retrieved.id, node_id);
    assert_eq!(retrieved.name, "test-router");
    assert_eq!(retrieved.addresses, vec!["192.168.1.1".to_string()]);
}

#[test]
fn test_update_node_status() {
    let node = Node::new("test-router", vec!["192.168.1.1".to_string()]).unwrap();
    let mut row = node_to_row(&node);
    // The columns that a status update writes.
    row.status = NodeStatus::Up.as_str().to_string();
    row.consecutive_failures = 0;
    row.consecutive_successes = 5;
    let retrieved = node_from_row(row).unwrap();
    assert_eq!(retrieved.status, NodeStatus::Up);
    assert_eq!(retrieved.consecutive_successes, 5);
    assert_eq!(retrieved.consecutive_failures, 0);
}

#[test]
fn test_insert_and_retrieve_poll_results() {
    let node = Node::new("test-router", vec!["192.168.1.1".to_string()]).unwrap();
    let poll = Poll::new(node.id, PollProtocol::Icmp, 30_000, 5_000).unwrap();
    let poll_back = poll_from_row(&poll_to_row(&poll)).unwrap();
    assert_eq!(poll_back.id, poll.id);
    let result = PollResult::success(poll.id, node.id, 25_000).unwrap();
    let results: Vec<PollResult> =
        result_to_row(&result).into_iter().filter_map(|row| result_from_row(&row)).collect();
    assert_eq!(results.len(), 1);
    assert!(results[0].success);
}

#[test]
fn test_purge_old_results() {
    let node = Node::new("test-router", vec!["192.168.1.1".to_string()]).unwrap();
    let poll = Poll::new(node.id, PollProtocol::Icmp, 30_000, 5_000).unwrap();
    let day = 86_400_000_000_000i128;
    let mut old_result = PollResult::success(poll.id, node.id, 25_000_000).unwrap();
    old_result.timestamp_ns -= 60 * day;
    let recent_result = PollResult::success(poll.id, node.id, 25_000_000).unwrap();
    let rows = [result_to_row(&old_result).unwrap(), result_to_row(&recent_result).unwrap()];
    // The purge deletes the rows whose timestamp text sorts before the
    // cutoff text (`timestamp < cutoff` in SQL).
    let cutoff = retention_cutoff_text(current_time_ns(), 30).unwrap();
    let deleted = rows.iter().filter(|r| r.timestamp < cutoff).count();
    assert_eq!(deleted, 1);
    let kept: Vec<PollResult> =
        rows.iter().filter(|r| r.timestamp >= cutoff).filter_map(result_from_row).collect();
    assert_eq!(kept.len(), 1);
    assert_eq!(kept[0].timestamp_ns, recent_result.timestamp_ns);
}

#[test]
fn clock_readings_convert_to_instants() {
    assert_eq!(instant_of_reading(Ok((0, 0))), 0);
    assert_eq!(instant_of_reading(Ok((1_662_921_288, 123_456_789))), 1_662_921_288_123_456_789);
    assert_eq!(instant_of_reading(Err((1, 500))), -1_000_000_500);
    assert_eq!(instant_of_reading(Ok((u64::MAX, 999_999_999))), 18_446_744_073_709_551_615_999_999_999);
    assert_eq!(instant_of_reading(Err((u64::MAX, 999_999_999))), -18_446_744_073_709_551_615_999_999_999);
}
