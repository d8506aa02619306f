use vigil::engine::status::compute_status_transition;
use vigil::models::status::NodeStatus;

#[test]
fn test_unknown_to_up_on_first_success() {
    let transition = compute_status_transition(NodeStatus::Unknown, 0, 0, 3, 1, true);
    assert_eq!(transition.new_status, NodeStatus::Up);
    assert_eq!(transition.new_consecutive_successes, 1);
    assert_eq!(transition.new_consecutive_failures, 0);
    assert!(transition.changed);
    assert_eq!(transition.previous_status, NodeStatus::Unknown);
}

#[test]
fn test_unknown_stays_unknown_on_failure_below_threshold() {
    let transition = compute_status_transition(NodeStatus::Unknown, 1, 0, 3, 1, false);
    assert_eq!(transition.new_status, NodeStatus::Unknown);
    assert_eq!(transition.new_consecutive_failures, 2);
    assert_eq!(transition.new_consecutive_successes, 0);
    assert!(!transition.changed);
}

#[test]
fn test_unknown_to_down_on_failure_at_threshold() {
    let transition = compute_status_transition(NodeStatus::Unknown, 2, 0, 3, 1, false);
    assert_eq!(transition.new_status, NodeStatus::Down);
    assert_eq!(transition.new_consecutive_failures, 3);
    assert_eq!(transition.new_consecutive_successes, 0);
    assert!(transition.changed);
}

#[test]
fn test_up_stays_up_on_failure_below_threshold() {
    let transition = compute_status_transition(NodeStatus::Up, 1, 0, 3, 1, false);
    assert_eq!(transition.new_status, NodeStatus::Up);
    assert_eq!(transition.new_consecutive_failures, 2);
    assert!(!transition.changed);
}

#[test]
fn test_up_to_down_on_failure_at_threshold() {
    let transition = compute_status_transition(NodeStatus::Up, 2, 0, 3, 1, false);
    assert_eq!(transition.new_status, NodeStatus::Down);
    assert_eq!(transition.new_consecutive_failures, 3);
    assert!(transition.changed);
}

#[test]
fn test_down_stays_down_on_success_below_recovery() {
    let transition = compute_status_transition(NodeStatus::Down, 0, 0, 3, 3, true);
    assert_eq!(transition.new_status, NodeStatus::Down);
    assert_eq!(transition.new_consecutive_successes, 1);
    assert_eq!(transition.new_consecutive_failures, 0);
    assert!(!transition.changed);
}

#[test]
fn test_down_to_up_on_success_at_recovery_threshold() {
    let transition = compute_status_transition(NodeStatus::Down, 0, 2, 3, 3, true);
    assert_eq!(transition.new_status, NodeStatus::Up);
    assert_eq!(transition.new_consecutive_successes, 3);
    assert_eq!(transition.new_consecutive_failures, 0);
    assert!(transition.changed);
}

#[test]
fn test_counters_reset_on_direction_change() {
    // A success resets the failure counter.
    let transition = compute_status_transition(NodeStatus::Up, 2, 0, 3, 1, true);
    assert_eq!(transition.new_consecutive_failures, 0);
    assert_eq!(transition.new_consecutive_successes, 1);

    // A failure resets the success counter.
    let transition = compute_status_transition(NodeStatus::Down, 0, 2, 3, 3, false);
    assert_eq!(transition.new_consecutive_failures, 1);
    assert_eq!(transition.new_consecutive_successes, 0);
}

#[test]
fn test_failure_threshold_of_1() {
    let transition = compute_status_transition(NodeStatus::Up, 0, 10, 1, 1, false);
    assert_eq!(transition.new_status, NodeStatus::Down);
    assert_eq!(transition.new_consecutive_failures, 1);
    assert!(transition.changed);
}

#[test]
fn test_recovery_threshold_of_1() {
    let transition = compute_status_transition(NodeStatus::Down, 5, 0, 3, 1, true);
    assert_eq!(transition.new_status, NodeStatus::Up);
    assert_eq!(transition.new_consecutive_successes, 1);
    assert!(transition.changed);
}

#[test]
fn test_high_thresholds() {
    let mut status = NodeStatus::Up;
    let mut failures = 0;
    let mut successes = 0;

    // 4 failures keep the node Up.
    for _ in 0..4 {
        let transition = compute_status_transition(status, failures, successes, 5, 3, false);
        status = transition.new_status;
        failures = transition.new_consecutive_failures;
        successes = transition.new_consecutive_successes;
    }
    assert_eq!(status, NodeStatus::Up);
    assert_eq!(failures, 4);

    // The 5th failure marks it Down.
    let transition = compute_status_transition(status, failures, successes, 5, 3, false);
    assert_eq!(transition.new_status, NodeStatus::Down);
    assert_eq!(transition.new_consecutive_failures, 5);
    assert!(transition.changed);
}

#[test]
fn failures_reach_down_exactly_at_threshold_from_any_state() {
    for start in [NodeStatus::Unknown, NodeStatus::Up, NodeStatus::Down] {
        let mut status = start;
        let mut failures = 0;
        let mut successes = 0;
        for n in 1..=6u32 {
            let t = compute_status_transition(status, failures, successes, 4, 2, false);
            status = t.new_status;
            failures = t.new_consecutive_failures;
            successes = t.new_consecutive_successes;
            if n >= 4 {
                assert_eq!(status, NodeStatus::Down);
            } else {
                assert_eq!(status, start);
            }
        }
    }
}

#[test]
fn successes_recover_exactly_at_recovery_threshold() {
    let mut status = NodeStatus::Down;
    let mut failures = 7;
    let mut successes = 0;
    for n in 1..=4u32 {
        let t = compute_status_transition(status, failures, successes, 3, 3, true);
        status = t.new_status;
        failures = t.new_consecutive_failures;
        successes = t.new_consecutive_successes;
        if n >= 3 {
            assert_eq!(status, NodeStatus::Up);
        } else {
            assert_eq!(status, NodeStatus::Down);
        }
    }
    assert_eq!(failures, 0);
}

#[test]
fn zero_thresholds_act_on_first_poll() {
    let t = compute_status_transition(NodeStatus::Up, 0, 0, 0, 0, false);
    assert_eq!(t.new_status, NodeStatus::Down);
    let t = compute_status_transition(NodeStatus::Down, 0, 0, 0, 0, true);
    assert_eq!(t.new_status, NodeStatus::Up);
}

#[test]
fn counters_near_the_top_of_u32() {
    let t = compute_status_transition(NodeStatus::Up, u32::MAX - 1, 0, 3, 1, false);
    assert_eq!(t.new_consecutive_failures, u32::MAX);
    assert_eq!(t.new_status, NodeStatus::Down);
    // The other counter may be at the top: it is reset, not incremented.
    let t = compute_status_transition(NodeStatus::Down, u32::MAX, 0, 3, 1, true);
    assert_eq!(t.new_consecutive_failures, 0);
    assert_eq!(t.new_status, NodeStatus::Up);
}
