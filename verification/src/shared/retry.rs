//! The retry schedule: what to do after each attempt of an operation that
//! may fail.
//!
//! Whoever runs the operation also does the waiting. After each attempt it
//! hands the outcome to `retry_step` and does what the step says.

use crate::shared::errors::{TroopError, TroopResult, MAX_RETRIES, RETRY_DELAYS};
use vstd::prelude::*;

verus! {

/// What follows an attempt.
#[derive(Debug)]
pub enum RetryStep<T> {
    /// The attempt succeeded: this is the result.
    Done(T),
    /// The attempt failed: wait this many seconds, then attempt again.
    Wait(u64),
    /// The attempt failed, and no other follows: this is the error.
    Fail(TroopError),
}

/// Seconds to wait after attempt number `attempt` (counted from zero) has
/// failed, where another attempt follows.
pub open spec fn delay_after(attempt: nat) -> nat {
    if attempt == 0 {
        1
    } else if attempt == 1 {
        2
    } else {
        4
    }
}

/// What follows attempt number `attempt` (counted from zero) that ended in
/// `outcome`. A result is final. An error is final where it is of no kind
/// that may pass, or where the attempt was the last one allowed.
pub open spec fn step_after<T>(attempt: nat, outcome: TroopResult<T>) -> RetryStep<T> {
    match outcome {
        Ok(value) => RetryStep::Done(value),
        Err(e) => if e.retriable() && attempt + 1 < MAX_RETRIES {
            RetryStep::Wait(delay_after(attempt) as u64)
        } else {
            RetryStep::Fail(e)
        },
    }
}

/// What follows attempt number `attempt` (counted from zero) that ended in
/// `outcome`.
pub fn retry_step<T>(attempt: u32, outcome: TroopResult<T>) -> (step: RetryStep<T>)
    ensures
        step == step_after(attempt as nat, outcome),
{
    match outcome {
        Ok(value) => RetryStep::Done(value),
        Err(e) => {
            if e.is_retriable() && attempt < MAX_RETRIES - 1 {
                RetryStep::Wait(RETRY_DELAYS[attempt as usize])
            } else {
                RetryStep::Fail(e)
            }
        },
    }
}

/// Whether an attempt ended in an error of a kind that may pass.
pub open spec fn may_pass<T>(outcome: TroopResult<T>) -> bool {
    outcome matches Err(e) && e.retriable()
}

/// How a run of attempts ends.
pub struct RetryRun<T> {
    /// How many attempts were made.
    pub calls: nat,
    /// Seconds spent waiting between them.
    pub waited: nat,
    /// What the run returns; `None` where the outcomes ran out before a step
    /// was final.
    pub result: Option<TroopResult<T>>,
}

/// The run in which attempt number `attempt + i` ends in `outcomes[i]`: each
/// outcome is taken in turn until a step is final.
pub open spec fn run_from<T>(attempt: nat, outcomes: Seq<TroopResult<T>>) -> RetryRun<T>
    decreases outcomes.len(),
{
    if outcomes.len() == 0 {
        RetryRun { calls: 0, waited: 0, result: None }
    } else {
        match step_after(attempt, outcomes[0]) {
            RetryStep::Done(value) => RetryRun { calls: 1, waited: 0, result: Some(Ok(value)) },
            RetryStep::Fail(e) => RetryRun { calls: 1, waited: 0, result: Some(Err(e)) },
            RetryStep::Wait(secs) => {
                let rest = run_from(attempt + 1, outcomes.drop_first());
                RetryRun {
                    calls: rest.calls + 1,
                    waited: rest.waited + secs as nat,
                    result: rest.result,
                }
            },
        }
    }
}

/// A run that starts at attempt zero ends within `MAX_RETRIES` attempts, and
/// waits three seconds at most.
pub proof fn law_run_is_bounded<T>(outcomes: Seq<TroopResult<T>>)
    requires
        outcomes.len() >= MAX_RETRIES,
    ensures
        run_from(0, outcomes).result is Some,
        1 <= run_from(0, outcomes).calls <= MAX_RETRIES,
        run_from(0, outcomes).waited <= 3,
{
    reveal_with_fuel(run_from, 4);
    let second = outcomes.drop_first();
    let third = second.drop_first();
    assert(run_from(2, third).calls == 1 && run_from(2, third).result is Some);
    assert(run_from(1, second).calls <= 2 && run_from(1, second).result is Some);
}

/// The first result ends the run: where the attempts before it fail with
/// errors that may pass, the run returns that result, after one attempt for
/// each outcome up to it.
pub proof fn law_first_result_wins<T>(outcomes: Seq<TroopResult<T>>, k: int)
    requires
        0 <= k < outcomes.len(),
        k < MAX_RETRIES,
        outcomes[k] is Ok,
        forall|i: int| 0 <= i < k ==> may_pass(#[trigger] outcomes[i]),
    ensures
        run_from(0, outcomes).result == Some(outcomes[k]),
        run_from(0, outcomes).calls == k + 1,
        run_from(0, outcomes).waited == if k == 0 {
            0nat
        } else if k == 1 {
            1nat
        } else {
            3nat
        },
{
    reveal_with_fuel(run_from, 4);
    let second = outcomes.drop_first();
    if k >= 1 {
        assert(outcomes[0] is Err);
        assert(second[0] == outcomes[1]);
        if k >= 2 {
            let third = second.drop_first();
            assert(outcomes[1] is Err);
            assert(third[0] == outcomes[2]);
        }
    }
}

/// An error of a kind that does not pass ends the run at once.
pub proof fn law_final_error_is_not_retried<T>(outcomes: Seq<TroopResult<T>>)
    requires
        outcomes.len() >= 1,
        outcomes[0] is Err,
        !may_pass(outcomes[0]),
    ensures
        run_from(0, outcomes).result == Some(outcomes[0]),
        run_from(0, outcomes).calls == 1,
        run_from(0, outcomes).waited == 0,
{
}

/// Where every attempt fails with an error that may pass, the run makes
/// `MAX_RETRIES` attempts and returns the last error.
pub proof fn law_last_error_is_returned<T>(outcomes: Seq<TroopResult<T>>)
    requires
        outcomes.len() >= MAX_RETRIES,
        forall|i: int| 0 <= i < MAX_RETRIES ==> may_pass(#[trigger] outcomes[i]),
    ensures
        run_from(0, outcomes).result == Some(outcomes[MAX_RETRIES - 1]),
        run_from(0, outcomes).calls == MAX_RETRIES,
        run_from(0, outcomes).waited == 3,
{
    reveal_with_fuel(run_from, 4);
    let second = outcomes.drop_first();
    let third = second.drop_first();
    assert(may_pass(outcomes[0]) && may_pass(outcomes[1]) && may_pass(outcomes[2]));
    assert(second[0] == outcomes[1]);
    assert(third[0] == outcomes[2]);
}

} // verus!
