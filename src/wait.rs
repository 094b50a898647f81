use vstd::prelude::*;

verus! {

/// What the wait-for-appearance loop does next.
#[derive(Clone, Copy, Debug, PartialEq, Eq, Structural)]
pub enum WaitStep {
    /// A match is there: stop waiting and act on it.
    Found,
    /// No match, and no budget or the budget is spent: stop without a match.
    GiveUp,
    /// No match yet: sleep one interval, roundtrip once more, and check again.
    Retry,
}

/// Milliseconds slept between two checks.
pub const POLL_INTERVAL_MS: u64 = 500;

pub open spec fn wait_decision(found: bool, budget_secs: Option<u64>, elapsed_ms: int) -> WaitStep {
    if found {
        WaitStep::Found
    } else {
        match budget_secs {
            None => WaitStep::GiveUp,
            Some(w) => if elapsed_ms > w * 1000 {
                WaitStep::GiveUp
            } else {
                WaitStep::Retry
            },
        }
    }
}

/// Decides the next step of the wait loop from whether a match was seen, the
/// wait budget in seconds (if any) and the milliseconds elapsed since the loop began.
pub fn next_wait_step(found: bool, budget_secs: Option<u64>, elapsed_ms: u64) -> (r: WaitStep)
    ensures
        r == wait_decision(found, budget_secs, elapsed_ms as int),
{
    if found {
        return WaitStep::Found;
    }
    match budget_secs {
        None => WaitStep::GiveUp,
        Some(w) => {
            if (elapsed_ms as u128) > (w as u128) * 1000 {
                WaitStep::GiveUp
            } else {
                WaitStep::Retry
            }
        },
    }
}

/// Milliseconds up to the first instant at which a budget of `w` seconds is spent.
pub open spec fn budget_left(w: u64, elapsed: nat) -> nat {
    if elapsed > w * 1000 {
        0
    } else {
        (w * 1000 + 1 - elapsed) as nat
    }
}

/// The wait loop run against a compositor on which a match becomes visible
/// `appear` milliseconds after the loop began, each retry taking `step`
/// milliseconds, from `elapsed` milliseconds on. Gives whether a match was
/// found, the milliseconds elapsed when the loop stopped, and the number of retries.
pub open spec fn poll_run(appear: nat, budget_secs: Option<u64>, step: nat, elapsed: nat) -> (bool, nat, nat)
    decreases
            (match budget_secs {
                Some(w) => budget_left(w, elapsed),
                None => 0,
            }),
{
    match wait_decision(elapsed >= appear, budget_secs, elapsed as int) {
        WaitStep::Found => (true, elapsed, 0),
        WaitStep::GiveUp => (false, elapsed, 0),
        WaitStep::Retry => if step == 0 {
            (false, elapsed, 0)
        } else {
            let r = poll_run(appear, budget_secs, step, elapsed + step);
            (r.0, r.1, r.2 + 1)
        },
    }
}

/// A match that appears before the budget is spent is found, and never
/// before it appeared.
pub proof fn lemma_wait_finds_late_match(appear: nat, budget_secs: u64, step: nat, elapsed: nat)
    requires
        appear < budget_secs * 1000,
        step > 0,
    ensures
        poll_run(appear, Some(budget_secs), step, elapsed).0,
        poll_run(appear, Some(budget_secs), step, elapsed).1 >= appear,
    decreases budget_left(budget_secs, elapsed),
{
    if elapsed < appear {
        lemma_wait_finds_late_match(appear, budget_secs, step, elapsed + step);
    }
}

/// Without a budget the loop never retries.
pub proof fn lemma_no_budget_no_retry(appear: nat, step: nat, elapsed: nat)
    ensures
        poll_run(appear, None, step, elapsed).2 == 0,
        poll_run(appear, None, step, elapsed).1 == elapsed,
{
}

} // verus!
