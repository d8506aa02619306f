use vstd::prelude::*;

use crate::models::status::NodeStatus;

verus! {

/// Result of processing a poll result through the status engine
#[derive(Debug, Clone, Copy, PartialEq, Eq, Structural)]
pub struct StatusTransition {
    /// New status after applying the poll result
    pub new_status: NodeStatus,
    /// New consecutive failure count
    pub new_consecutive_failures: u32,
    /// New consecutive success count
    pub new_consecutive_successes: u32,
    /// Whether the status actually changed
    pub changed: bool,
    /// Previous status before transition
    pub previous_status: NodeStatus,
}

/// The status that one poll result leads to, from the current status, the
/// counters before the poll and the two thresholds.
///
/// On success the success counter becomes `successes + 1`: `Unknown` and `Up`
/// go to `Up`, and `Down` goes to `Up` once that count reaches the recovery
/// threshold. On failure the failure counter becomes `failures + 1`: once it
/// reaches the failure threshold the node is `Down`, otherwise the status stays.
pub open spec fn next_status(
    current: NodeStatus,
    failures: int,
    successes: int,
    failure_threshold: int,
    recovery_threshold: int,
    poll_success: bool,
) -> NodeStatus {
    if poll_success {
        match current {
            NodeStatus::Unknown => NodeStatus::Up,
            NodeStatus::Up => NodeStatus::Up,
            NodeStatus::Down => if successes + 1 >= recovery_threshold {
                NodeStatus::Up
            } else {
                NodeStatus::Down
            },
        }
    } else if failures + 1 >= failure_threshold {
        NodeStatus::Down
    } else {
        current
    }
}

/// The transition that one poll result causes: the new status, the counters
/// after the poll (the incremented one, the other reset to zero), whether the
/// status changed, and the status before.
pub open spec fn status_transition(
    current: NodeStatus,
    consecutive_failures: u32,
    consecutive_successes: u32,
    failure_threshold: u32,
    recovery_threshold: u32,
    poll_success: bool,
) -> StatusTransition {
    let new_status = next_status(
        current,
        consecutive_failures as int,
        consecutive_successes as int,
        failure_threshold as int,
        recovery_threshold as int,
        poll_success,
    );
    StatusTransition {
        new_status,
        new_consecutive_failures: if poll_success {
            0
        } else {
            (consecutive_failures + 1) as u32
        },
        new_consecutive_successes: if poll_success {
            (consecutive_successes + 1) as u32
        } else {
            0
        },
        changed: new_status != current,
        previous_status: current,
    }
}

/// Whether the counter that a poll outcome increments still has room below
/// `u32::MAX`.
pub open spec fn counter_has_room(
    consecutive_failures: u32,
    consecutive_successes: u32,
    poll_success: bool,
) -> bool {
    if poll_success {
        consecutive_successes < u32::MAX
    } else {
        consecutive_failures < u32::MAX
    }
}

/// Compute the next status given current state and a new poll result.
///
/// A pure, deterministic function of the current status, the two counters,
/// the two thresholds and the outcome of the poll: no clock is involved.
/// The counter that the poll outcome increments must not be at `u32::MAX`.
pub fn compute_status_transition(
    current_status: NodeStatus,
    consecutive_failures: u32,
    consecutive_successes: u32,
    failure_threshold: u32,
    recovery_threshold: u32,
    poll_success: bool,
) -> (t: StatusTransition)
    requires
        counter_has_room(consecutive_failures, consecutive_successes, poll_success),
    ensures
        t == status_transition(
            current_status,
            consecutive_failures,
            consecutive_successes,
            failure_threshold,
            recovery_threshold,
            poll_success,
        ),
        t.previous_status == current_status,
        t.new_status == next_status(
            current_status,
            consecutive_failures as int,
            consecutive_successes as int,
            failure_threshold as int,
            recovery_threshold as int,
            poll_success,
        ),
        poll_success ==> t.new_consecutive_successes == consecutive_successes + 1
            && t.new_consecutive_failures == 0,
        !poll_success ==> t.new_consecutive_failures == consecutive_failures + 1
            && t.new_consecutive_successes == 0,
        t.changed == (t.new_status != current_status),
{
    let previous_status = current_status;
    if poll_success {
        let new_consecutive_successes = consecutive_successes + 1;
        let new_consecutive_failures: u32 = 0;
        let new_status = match current_status {
            NodeStatus::Unknown => NodeStatus::Up,
            NodeStatus::Down => {
                if new_consecutive_successes >= recovery_threshold {
                    NodeStatus::Up
                } else {
                    NodeStatus::Down
                }
            },
            NodeStatus::Up => NodeStatus::Up,
        };
        StatusTransition {
            new_status,
            new_consecutive_failures,
            new_consecutive_successes,
            changed: new_status != previous_status,
            previous_status,
        }
    } else {
        let new_consecutive_failures = consecutive_failures + 1;
        let new_consecutive_successes: u32 = 0;
        let new_status = if new_consecutive_failures >= failure_threshold {
            NodeStatus::Down
        } else {
            current_status
        };
        StatusTransition {
            new_status,
            new_consecutive_failures,
            new_consecutive_successes,
            changed: new_status != previous_status,
            previous_status,
        }
    }
}

/// The status after `n` consecutive failed polls, starting from `status` with
/// `failures` consecutive failures already counted.
pub open spec fn status_after_failures(
    status: NodeStatus,
    failures: int,
    failure_threshold: int,
    recovery_threshold: int,
    n: nat,
) -> NodeStatus
    decreases n,
{
    if n == 0 {
        status
    } else {
        next_status(
            status_after_failures(status, failures, failure_threshold, recovery_threshold, (n - 1) as nat),
            failures + n - 1,
            0,
            failure_threshold,
            recovery_threshold,
            false,
        )
    }
}

/// The status after `n` consecutive successful polls, starting from `status`
/// with `successes` consecutive successes already counted.
pub open spec fn status_after_successes(
    status: NodeStatus,
    successes: int,
    failure_threshold: int,
    recovery_threshold: int,
    n: nat,
) -> NodeStatus
    decreases n,
{
    if n == 0 {
        status
    } else {
        next_status(
            status_after_successes(status, successes, failure_threshold, recovery_threshold, (n - 1) as nat),
            0,
            successes + n - 1,
            failure_threshold,
            recovery_threshold,
            true,
        )
    }
}

/// A run of failed polls marks the node `Down` exactly when the failure
/// counter reaches the failure threshold; before that the status is unchanged
/// (`Unknown` stays `Unknown`, `Up` stays `Up`, `Down` stays `Down`).
pub proof fn lemma_failures_reach_down(
    status: NodeStatus,
    failures: int,
    failure_threshold: int,
    recovery_threshold: int,
    n: nat,
)
    requires
        n > 0,
    ensures
        status_after_failures(status, failures, failure_threshold, recovery_threshold, n)
            == (if failures + n >= failure_threshold { NodeStatus::Down } else { status }),
    decreases n,
{
    if n > 1 {
        lemma_failures_reach_down(status, failures, failure_threshold, recovery_threshold, (n - 1) as nat);
    } else {
        assert(status_after_failures(status, failures, failure_threshold, recovery_threshold, 0) == status);
    }
}

/// A run of successful polls brings the node `Up`: at once from `Unknown` or
/// `Up`, and from `Down` exactly when the success counter reaches the recovery
/// threshold.
pub proof fn lemma_successes_reach_up(
    status: NodeStatus,
    successes: int,
    failure_threshold: int,
    recovery_threshold: int,
    n: nat,
)
    requires
        n > 0,
    ensures
        status_after_successes(status, successes, failure_threshold, recovery_threshold, n)
            == (if status == NodeStatus::Down && successes + n < recovery_threshold {
            NodeStatus::Down
        } else {
            NodeStatus::Up
        }),
    decreases n,
{
    if n > 1 {
        lemma_successes_reach_up(status, successes, failure_threshold, recovery_threshold, (n - 1) as nat);
    } else {
        assert(status_after_successes(status, successes, failure_threshold, recovery_threshold, 0) == status);
    }
}

/// The status machine, for every status, both counters and both
/// thresholds:
/// - a successful poll takes an `Unknown` or `Up` node to `Up`, and a `Down`
///   node to `Up` exactly when its successes, this one included, reach the
///   recovery threshold (else it stays `Down`), whatever its failure count;
/// - a failed poll takes any node to `Down` exactly when its failures, this
///   one included, reach the failure threshold, and otherwise leaves its
///   status as it was, whatever its success count;
/// - the transition reports the status before it, and reports a change
///   exactly when the new status differs from it.
pub proof fn lemma_status_machine(
    current: NodeStatus,
    failures: u32,
    successes: u32,
    failure_threshold: u32,
    recovery_threshold: u32,
    poll_success: bool,
)
    ensures
        ({
            let t = status_transition(
                current,
                failures,
                successes,
                failure_threshold,
                recovery_threshold,
                poll_success,
            );
            &&& poll_success && current != NodeStatus::Down ==> t.new_status == NodeStatus::Up
            &&& poll_success && current == NodeStatus::Down ==> (t.new_status == NodeStatus::Up
                <==> successes + 1 >= recovery_threshold)
            &&& poll_success && current == NodeStatus::Down && successes + 1 < recovery_threshold
                ==> t.new_status == NodeStatus::Down
            &&& !poll_success && failures + 1 >= failure_threshold ==> t.new_status == NodeStatus::Down
            &&& !poll_success && failures + 1 < failure_threshold ==> t.new_status == current
            &&& t.previous_status == current
            &&& t.changed == (t.new_status != current)
        }),
{
}

/// The counters that one poll result leaves, for every starting pair with
/// room in the counter that the result increments: a success counts one
/// more success and clears the failures; a failure counts one more failure
/// and clears the successes.
pub proof fn lemma_status_counters(
    current: NodeStatus,
    failures: u32,
    successes: u32,
    failure_threshold: u32,
    recovery_threshold: u32,
    poll_success: bool,
)
    requires
        counter_has_room(failures, successes, poll_success),
    ensures
        ({
            let t = status_transition(
                current,
                failures,
                successes,
                failure_threshold,
                recovery_threshold,
                poll_success,
            );
            &&& poll_success ==> t.new_consecutive_successes == successes + 1 && t.new_consecutive_failures
                == 0
            &&& !poll_success ==> t.new_consecutive_failures == failures + 1 && t.new_consecutive_successes
                == 0
        }),
{
}

/// The new status after a success does not depend on the failure count, and
/// the new status after a failure does not depend on the success count: two
/// nodes that differ only in that counter move to the same status.
pub proof fn lemma_status_ignores_other_counter(
    current: NodeStatus,
    failures_a: u32,
    failures_b: u32,
    successes_a: u32,
    successes_b: u32,
    failure_threshold: u32,
    recovery_threshold: u32,
)
    ensures
        status_transition(current, failures_a, successes_a, failure_threshold, recovery_threshold, true).new_status
            == status_transition(current, failures_b, successes_a, failure_threshold, recovery_threshold, true).new_status,
        status_transition(current, failures_a, successes_a, failure_threshold, recovery_threshold, false).new_status
            == status_transition(current, failures_a, successes_b, failure_threshold, recovery_threshold, false).new_status,
{
}

} // verus!
