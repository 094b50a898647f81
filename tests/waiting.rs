use cos_cli::wait::{next_wait_step, WaitStep, POLL_INTERVAL_MS};

#[test]
fn found_stops_at_once() {
    assert_eq!(next_wait_step(true, None, 0), WaitStep::Found);
    assert_eq!(next_wait_step(true, Some(0), 99_999), WaitStep::Found);
}

#[test]
fn no_budget_gives_up_without_retry() {
    assert_eq!(next_wait_step(false, None, 0), WaitStep::GiveUp);
}

#[test]
fn budget_retries_until_spent() {
    assert_eq!(next_wait_step(false, Some(5), 0), WaitStep::Retry);
    assert_eq!(next_wait_step(false, Some(5), 5000), WaitStep::Retry);
    assert_eq!(next_wait_step(false, Some(5), 5001), WaitStep::GiveUp);
    assert_eq!(next_wait_step(false, Some(u64::MAX), u64::MAX), WaitStep::Retry);
}

/// A simulated run: the match shows up after `appear` ms; each retry costs one interval.
fn simulate(appear: u64, budget: Option<u64>) -> (bool, u64, u32) {
    let mut elapsed: u64 = 0;
    let mut retries: u32 = 0;
    loop {
        match next_wait_step(elapsed >= appear, budget, elapsed) {
            WaitStep::Found => return (true, elapsed, retries),
            WaitStep::GiveUp => return (false, elapsed, retries),
            WaitStep::Retry => {
                elapsed += POLL_INTERVAL_MS;
                retries += 1;
            }
        }
    }
}

#[test]
fn late_match_within_budget_is_found() {
    let (found, elapsed, retries) = simulate(1_700, Some(5));
    assert!(found);
    assert!(elapsed >= 1_700);
    assert_eq!(elapsed, 2_000);
    assert_eq!(retries, 4);
}

#[test]
fn match_after_budget_is_missed() {
    let (found, elapsed, _) = simulate(9_000, Some(2));
    assert!(!found);
    assert_eq!(elapsed, 2_500);
}

#[test]
fn no_budget_makes_zero_retries() {
    assert_eq!(simulate(1, None), (false, 0, 0));
    assert_eq!(simulate(0, None), (true, 0, 0));
}
