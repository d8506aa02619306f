use vigil::db::rows::{result_from_row, result_to_row};
use vigil::engine::monitor::{Engine, EngineError};
use vigil::models::node::Node;
use vigil::models::poll::{Poll, PollProtocol, PollResult};
use vigil::models::status::{EffectiveStatus, NodeStatus};

fn make_engine() -> Engine {
    Engine::new(Vec::new(), Vec::new(), 128, 0)
}

fn make_node(name: &str) -> Node {
    Node::new(name, vec!["127.0.0.1".to_string()]).unwrap()
}

fn make_poll(node_id: u128) -> Poll {
    let mut poll = Poll::new(node_id, PollProtocol::TcpConnect { port: 80 }, 30_000, 5_000).unwrap();
    poll.retries = 0;
    poll
}

fn make_result(poll_id: u128, node_id: u128, success: bool) -> PollResult {
    if success {
        PollResult::success(poll_id, node_id, 10_000).unwrap()
    } else {
        PollResult::failure(poll_id, node_id, "timeout").unwrap()
    }
}

#[test]
fn test_unknown_to_up_on_success() {
    let mut engine = make_engine();
    let node = make_node("host-a");
    let node_id = node.id;
    engine.add_node(node);
    let poll = make_poll(node_id);
    let poll_id = poll.id;
    engine.add_poll(poll, 0).unwrap();

    engine.handle_poll_result(&make_result(poll_id, node_id, true));
    let n = engine.get_node(&node_id).unwrap();
    assert_eq!(n.status, NodeStatus::Up);
    assert_eq!(n.effective_status, EffectiveStatus::Up);
}

#[test]
fn test_failure_threshold_triggers_down() {
    let mut engine = make_engine();
    let node = make_node("host-b");
    let node_id = node.id;
    engine.add_node(node);
    let mut poll = make_poll(node_id);
    poll.failure_threshold = 2;
    let poll_id = poll.id;
    engine.add_poll(poll, 0).unwrap();

    engine.handle_poll_result(&make_result(poll_id, node_id, false));
    assert_eq!(engine.get_node(&node_id).unwrap().status, NodeStatus::Unknown);
    engine.handle_poll_result(&make_result(poll_id, node_id, false));
    assert_eq!(engine.get_node(&node_id).unwrap().status, NodeStatus::Down);
}

#[test]
fn test_down_to_up_on_recovery() {
    let mut engine = make_engine();
    let mut node = make_node("host-c");
    let node_id = node.id;
    // Registered while Down.
    node.status = NodeStatus::Down;
    engine.add_node(node);
    let mut poll = make_poll(node_id);
    poll.recovery_threshold = 2;
    let poll_id = poll.id;
    engine.add_poll(poll, 0).unwrap();

    engine.handle_poll_result(&make_result(poll_id, node_id, true));
    assert_eq!(engine.get_node(&node_id).unwrap().status, NodeStatus::Down);
    engine.handle_poll_result(&make_result(poll_id, node_id, true));
    assert_eq!(engine.get_node(&node_id).unwrap().status, NodeStatus::Up);
}

#[test]
fn test_poll_result_for_unknown_node_is_ignored() {
    let mut engine = make_engine();
    let r = make_result(1, 2, true);
    assert!(engine.handle_poll_result(&r).is_none());
    assert_eq!(engine.nodes().len(), 0);
}

#[test]
fn test_child_suppressed_when_parent_down() {
    let mut engine = make_engine();
    let parent = make_node("parent");
    let parent_id = parent.id;
    engine.add_node(parent);
    let mut child = make_node("child");
    child.parent_node_id = Some(parent_id);
    let child_id = child.id;
    engine.add_node(child);

    let mut poll = make_poll(parent_id);
    poll.failure_threshold = 1;
    let poll_id = poll.id;
    engine.add_poll(poll, 0).unwrap();
    engine.handle_poll_result(&make_result(poll_id, parent_id, false));

    assert_eq!(engine.get_node(&parent_id).unwrap().status, NodeStatus::Down);
    assert_eq!(engine.get_node(&child_id).unwrap().effective_status, EffectiveStatus::Suppressed);
    // The child's own status is untouched.
    assert_eq!(engine.get_node(&child_id).unwrap().status, NodeStatus::Unknown);
}

#[test]
fn test_add_and_get_node() {
    let mut engine = make_engine();
    let node = make_node("router-1");
    let node_id = node.id;
    engine.add_node(node);
    assert!(engine.nodes().contains_key(&node_id));
    assert_eq!(engine.nodes().len(), 1);
}

#[test]
fn test_remove_node_removes_polls() {
    let mut engine = make_engine();
    let node = make_node("router-2");
    let node_id = node.id;
    engine.add_node(node);
    engine.add_poll(make_poll(node_id), 0).unwrap();
    assert_eq!(engine.polls().len(), 1);

    engine.remove_node(&node_id).unwrap();
    assert!(engine.nodes().is_empty());
    assert!(engine.polls().is_empty());
    assert_eq!(engine.scheduler().poll_count(), 0);
}

#[test]
fn test_remove_nonexistent_node_errors() {
    let mut engine = make_engine();
    let result = engine.remove_node(&12345);
    assert!(matches!(result, Err(EngineError::NodeNotFound(12345))));
}

#[test]
fn test_add_poll_fails_without_node() {
    let mut engine = make_engine();
    let poll = make_poll(999);
    let result = engine.add_poll(poll, 0);
    assert!(matches!(result, Err(EngineError::NodeNotFound(999))));
    assert!(engine.polls().is_empty());
}

#[test]
fn test_get_status() {
    let mut engine = make_engine();
    let node = make_node("switch-1");
    let node_id = node.id;
    engine.add_node(node);
    let (status, eff) = engine.get_status(&node_id).unwrap();
    assert_eq!(status, NodeStatus::Unknown);
    assert_eq!(eff, EffectiveStatus::Unknown);
    assert!(engine.get_status(&7).is_none());
}

#[test]
fn test_engine_loads_nodes_from_db() {
    let node = make_node("pre-existing");
    let node_id = node.id;
    let engine = Engine::new(vec![node], Vec::new(), 128, 0);
    assert!(engine.nodes().contains_key(&node_id));
}

#[test]
fn add_poll_without_address_is_refused() {
    let mut engine = make_engine();
    let node = Node::new("bare", Vec::new()).unwrap();
    let node_id = node.id;
    engine.add_node(node);
    assert_eq!(engine.add_poll(make_poll(node_id), 0), Err(EngineError::NoAddress));
    assert!(engine.polls().is_empty());
}

#[test]
fn loading_schedules_every_poll_of_a_registered_node() {
    let mut parent = make_node("parent");
    parent.status = NodeStatus::Down;
    let parent_id = parent.id;
    let mut child = Node::new("child", Vec::new()).unwrap();
    child.parent_node_id = Some(parent_id);
    let child_id = child.id;
    let p1 = make_poll(parent_id);
    let p2 = make_poll(child_id);
    let orphan = make_poll(424242);
    let engine = Engine::new(vec![parent, child], vec![p1, p2, orphan], 16, 100);
    // Effective statuses are recomputed on load.
    assert_eq!(engine.get_node(&child_id).unwrap().effective_status, EffectiveStatus::Suppressed);
    assert_eq!(engine.get_node(&parent_id).unwrap().effective_status, EffectiveStatus::Down);
    // The orphan's node is not registered: it is dropped. The child has no
    // address: its poll is scheduled against an empty address.
    assert_eq!(engine.polls().len(), 2);
    assert!(engine.polls().contains_key(&p2.id));
    assert!(!engine.polls().contains_key(&orphan.id));
    assert_eq!(engine.scheduler().poll_count(), 2);
    let e = engine.scheduler().entry(p1.id).unwrap();
    assert_eq!(e.next_run_at, 100);
    assert_eq!(e.address, "127.0.0.1");
    let e = engine.scheduler().entry(p2.id).unwrap();
    assert_eq!(e.next_run_at, 100);
    assert_eq!(e.address, "");
    assert!(!e.running);
    assert_eq!(engine.scheduler().max_concurrent(), 16);
}

#[test]
fn unregistered_polls_use_default_thresholds() {
    let mut engine = make_engine();
    let node = make_node("host");
    let node_id = node.id;
    engine.add_node(node);
    for _ in 0..2 {
        engine.handle_poll_result(&make_result(555, node_id, false));
    }
    assert_eq!(engine.get_node(&node_id).unwrap().status, NodeStatus::Unknown);
    let t = engine.handle_poll_result(&make_result(555, node_id, false)).unwrap();
    assert_eq!(t.new_status, NodeStatus::Down);
    assert!(t.changed);
    assert_eq!(t.new_consecutive_failures, 3);
}

#[test]
fn recovery_of_parent_lifts_suppression() {
    let mut engine = make_engine();
    let mut parent = make_node("p");
    parent.status = NodeStatus::Down;
    let parent_id = parent.id;
    engine.add_node(parent);
    let mut child = make_node("c");
    child.status = NodeStatus::Up;
    child.parent_node_id = Some(parent_id);
    let child_id = child.id;
    engine.add_node(child);
    assert_eq!(engine.get_node(&child_id).unwrap().effective_status, EffectiveStatus::Suppressed);
    engine.handle_poll_result(&make_result(1, parent_id, true));
    assert_eq!(engine.get_node(&child_id).unwrap().effective_status, EffectiveStatus::Up);
}

#[test]
fn removing_a_parent_keeps_stale_suppression() {
    // Removal does not recompute effective statuses.
    let mut engine = make_engine();
    let mut parent = make_node("p");
    parent.status = NodeStatus::Down;
    let parent_id = parent.id;
    engine.add_node(parent);
    let mut child = make_node("c");
    child.parent_node_id = Some(parent_id);
    let child_id = child.id;
    engine.add_node(child);
    engine.remove_node(&parent_id).unwrap();
    assert_eq!(engine.get_node(&child_id).unwrap().effective_status, EffectiveStatus::Suppressed);
}

#[test]
fn engine_tick_and_completion() {
    let mut engine = make_engine();
    let node = make_node("n");
    let node_id = node.id;
    engine.add_node(node);
    let poll = make_poll(node_id);
    engine.add_poll(poll, 0).unwrap();
    let launched = engine.tick(0);
    assert_eq!(launched.len(), 1);
    assert_eq!(launched[0].poll.id, poll.id);
    assert_eq!(engine.scheduler().active_count(), 1);
    engine.complete_poll(poll.id);
    assert_eq!(engine.scheduler().active_count(), 0);
    assert!(engine.counters_have_room(&make_result(poll.id, node_id, true)));
}

#[test]
fn a_result_moves_only_its_node() {
    let mut engine = make_engine();
    let a = make_node("a");
    let a_id = a.id;
    let mut b = make_node("b");
    b.status = NodeStatus::Up;
    b.consecutive_successes = 4;
    let b_id = b.id;
    engine.add_node(a);
    engine.add_node(b);
    engine.handle_poll_result(&make_result(1, a_id, false));
    let b_after = engine.get_node(&b_id).unwrap();
    assert_eq!(b_after.status, NodeStatus::Up);
    assert_eq!(b_after.consecutive_successes, 4);
    assert_eq!(b_after.consecutive_failures, 0);
    let a_after = engine.get_node(&a_id).unwrap();
    assert_eq!(a_after.consecutive_failures, 1);
    assert_eq!(a_after.status, NodeStatus::Unknown);
}

#[test]
fn test_poll_result_persisted_to_db() {
    let mut engine = make_engine();
    let node = make_node("host-d");
    let node_id = node.id;
    engine.add_node(node);
    let poll = make_poll(node_id);
    let poll_id = poll.id;
    engine.add_poll(poll, 0).unwrap();

    let result = make_result(poll_id, node_id, true);
    let transition = engine.handle_poll_result(&result).unwrap();
    // What the daemon persists: the node's new status and the result row.
    assert_eq!(transition.new_status, NodeStatus::Up);
    let stored: Vec<PollResult> =
        result_to_row(&result).into_iter().filter_map(|row| result_from_row(&row)).collect();
    assert_eq!(stored.len(), 1);
    assert!(stored[0].success);
}
