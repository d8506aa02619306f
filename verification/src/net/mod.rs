pub mod icmp;
pub mod tcp;

use vstd::prelude::*;

verus! {

/// Outcome of a single poll execution attempt.
///
/// The latency is in nanoseconds.
#[derive(Debug, Clone)]
pub struct PollOutcome {
    pub success: bool,
    pub latency_ns: Option<u128>,
    pub error: Option<String>,
}

impl PollOutcome {
    /// A successful attempt that took `latency_ns` nanoseconds.
    pub fn succeeded(latency_ns: u128) -> (o: PollOutcome)
        ensures
            o.success,
            o.latency_ns == Some(latency_ns),
            o.error is None,
    {
        PollOutcome { success: true, latency_ns: Some(latency_ns), error: None }
    }

    /// A failed attempt with the error `error`, and the time it took when it
    /// was measured.
    pub fn failed(error: String, latency_ns: Option<u128>) -> (o: PollOutcome)
        ensures
            !o.success,
            o.latency_ns == latency_ns,
            o.error == Some(error),
    {
        PollOutcome { success: false, latency_ns, error: Some(error) }
    }
}

/// Whether another attempt follows when a poll runs with `retries`
/// additional attempts on failure: after `attempts_made` attempts (the first
/// one included), the last of which gave `last_success`.
///
/// A run stops at the first success, and otherwise after `1 + retries`
/// attempts, returning the outcome of the last attempt made. (The count of
/// attempts is a `u64`, so that it holds `1 + u32::MAX`.)
pub fn should_retry(attempts_made: u64, retries: u32, last_success: bool) -> (b: bool)
    ensures
        b == (!last_success && attempts_made <= retries),
{
    !last_success && attempts_made <= retries as u64
}

/// The number of attempts that a run makes when attempt `k` (from 0) would
/// succeed exactly when `outcomes[k]` holds, counting from `made` attempts.
pub open spec fn attempts_run(outcomes: Seq<bool>, retries: nat, made: nat) -> nat
    decreases retries + 1 - made,
{
    if made >= 1 && made <= retries && !outcomes[made - 1] {
        attempts_run(outcomes, retries, made + 1)
    } else {
        made
    }
}

/// Retries end at the first success: a run makes between one and
/// `1 + retries` attempts, every attempt but the last failed, and the last
/// one succeeded unless all `1 + retries` attempts were used. So the outcome
/// returned is the first success, or the last failure.
pub proof fn lemma_retries_stop_at_first_success(outcomes: Seq<bool>, retries: nat)
    requires
        outcomes.len() > retries,
    ensures
        1 <= attempts_run(outcomes, retries, 1) <= retries + 1,
        forall|j: int| 0 <= j < attempts_run(outcomes, retries, 1) - 1 ==> !#[trigger] outcomes[j],
        outcomes[attempts_run(outcomes, retries, 1) - 1] || attempts_run(outcomes, retries, 1) == retries
            + 1,
{
    lemma_attempts_run_from(outcomes, retries, 1);
}

proof fn lemma_attempts_run_from(outcomes: Seq<bool>, retries: nat, made: nat)
    requires
        outcomes.len() > retries,
        1 <= made <= retries + 1,
    ensures
        made <= attempts_run(outcomes, retries, made) <= retries + 1,
        forall|j: int|
            made - 1 <= j < attempts_run(outcomes, retries, made) - 1 ==> !#[trigger] outcomes[j],
        outcomes[attempts_run(outcomes, retries, made) - 1] || attempts_run(outcomes, retries, made)
            == retries + 1,
    decreases retries + 1 - made,
{
    if made <= retries && !outcomes[made - 1] {
        lemma_attempts_run_from(outcomes, retries, made + 1);
    }
}

} // verus!
