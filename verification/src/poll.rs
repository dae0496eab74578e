//! The bounded polling loop that waits for a dispatched call.
//!
//! The call itself runs on an independent worker, which sets a shared
//! completion flag once its result is captured. The initiating flow sleeps
//! for one interval, reads the flag, and repeats, for at most
//! [`POLL_BUDGET`] polls. The decision taken after each poll is the
//! verified step function here; the surrounding binary performs the sleeps
//! and the flag reads and obeys the step it is handed.

use vstd::prelude::*;

verus! {

/// The greatest number of polls made before the wait is abandoned.
pub const POLL_BUDGET: u64 = 60;

/// How long the flow sleeps before each poll, in milliseconds.
pub const POLL_INTERVAL_MS: u64 = 500;

/// What the flow does after one poll of the completion flag.
#[derive(Clone, Copy, PartialEq, Eq, Structural, Debug)]
pub enum PollStep {
    /// The flag was set: collect the worker's result now.
    CollectResult,
    /// The flag was clear and budget remains: sleep and poll again.
    KeepWaiting { polls_done: u64 },
    /// The flag was clear and the budget is spent: abandon the worker.
    GiveUp,
}

/// The decision after a poll: collect on a set flag; otherwise keep waiting
/// until the budget of [`POLL_BUDGET`] polls is spent, then give up.
pub open spec fn spec_poll_step(polls_done: u64, flag_set: bool) -> PollStep {
    if flag_set {
        PollStep::CollectResult
    } else if polls_done + 1 >= POLL_BUDGET {
        PollStep::GiveUp
    } else {
        PollStep::KeepWaiting { polls_done: (polls_done + 1) as u64 }
    }
}

/// Decide what follows one poll: `polls_done` polls were already made and
/// found the flag clear, and the poll just made read `flag_set`.
pub fn poll_step(polls_done: u64, flag_set: bool) -> (next: PollStep)
    requires
        polls_done < POLL_BUDGET,
    ensures
        next == spec_poll_step(polls_done, flag_set),
{
    if flag_set {
        PollStep::CollectResult
    } else if polls_done + 1 >= POLL_BUDGET {
        PollStep::GiveUp
    } else {
        PollStep::KeepWaiting { polls_done: polls_done + 1 }
    }
}

/// How a run of the polling loop ended.
#[derive(Clone, Copy, PartialEq, Eq, Structural, Debug)]
pub enum PollOutcome {
    /// The flag was seen set at the poll numbered `polls_used`, counting from
    /// one; the worker's result is collected.
    Collected { polls_used: usize },
    /// The flag was never seen set: the budget was spent in full and the
    /// worker is abandoned.
    TimedOut { polls_used: usize },
}

/// Whether `r` describes the run of the polling loop over the flag values
/// `obs`, where `obs[i]` is what the poll numbered `i + 1` would read.
pub open spec fn poll_outcome_matches(obs: Seq<bool>, r: PollOutcome) -> bool {
    match r {
        PollOutcome::Collected { polls_used } => {
            &&& 1 <= polls_used <= POLL_BUDGET
            &&& obs[polls_used - 1]
            &&& forall|j: int| 0 <= j < polls_used - 1 ==> !obs[j]
        },
        PollOutcome::TimedOut { polls_used } => {
            &&& polls_used == POLL_BUDGET
            &&& forall|j: int| 0 <= j < POLL_BUDGET ==> !obs[j]
        },
    }
}

/// Run the polling loop against a recorded sequence of flag values, driving
/// it by [`poll_step`]: the result is collected at the first poll that sees
/// the flag set, and the wait is abandoned after [`POLL_BUDGET`] polls
/// otherwise.
pub fn poll_outcome(observations: &Vec<bool>) -> (r: PollOutcome)
    requires
        observations@.len() >= POLL_BUDGET,
    ensures
        poll_outcome_matches(observations@, r),
{
    let mut i: usize = 0;
    while i < 60
        invariant
            i <= 60,
            observations@.len() >= 60,
            forall|j: int| 0 <= j < i ==> !observations@[j],
        decreases 60 - i,
    {
        let flag = observations[i];
        match poll_step(i as u64, flag) {
            PollStep::CollectResult => {
                return PollOutcome::Collected { polls_used: i + 1 };
            },
            PollStep::GiveUp => {
                return PollOutcome::TimedOut { polls_used: 60 };
            },
            PollStep::KeepWaiting { .. } => {
                i = i + 1;
            },
        }
    }
    PollOutcome::TimedOut { polls_used: 60 }
}

/// If the completion flag is first set at the poll numbered `k + 1`, the
/// loop collects the worker's result at that very poll — one polling
/// interval after the flag appeared, never later.
pub proof fn lemma_prompt_collection(obs: Seq<bool>, r: PollOutcome, k: int)
    requires
        0 <= k < POLL_BUDGET,
        obs[k],
        forall|j: int| 0 <= j < k ==> !obs[j],
        poll_outcome_matches(obs, r),
    ensures
        r == (PollOutcome::Collected { polls_used: (k + 1) as usize }),
{
    match r {
        PollOutcome::Collected { polls_used } => {
            assert(polls_used - 1 == k) by {
                if polls_used - 1 < k {
                    assert(!obs[polls_used - 1]);
                } else if polls_used - 1 > k {
                    assert(!obs[k]);
                }
            };
        },
        PollOutcome::TimedOut { .. } => {
            assert(!obs[k]);
        },
    }
}

/// If the completion flag is never set, the loop abandons the wait only
/// after spending the whole budget of [`POLL_BUDGET`] polls.
pub proof fn lemma_timeout_after_full_budget(obs: Seq<bool>, r: PollOutcome)
    requires
        forall|j: int| 0 <= j < POLL_BUDGET ==> !obs[j],
        poll_outcome_matches(obs, r),
    ensures
        r == (PollOutcome::TimedOut { polls_used: POLL_BUDGET as usize }),
{
    match r {
        PollOutcome::Collected { polls_used } => {
            assert(!obs[polls_used - 1]);
        },
        PollOutcome::TimedOut { .. } => {
        },
    }
}

} // verus!
