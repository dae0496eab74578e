use tonlabs_cli::poll::{poll_outcome, poll_step, PollOutcome, PollStep, POLL_BUDGET, POLL_INTERVAL_MS};

#[test]
fn budget_constants() {
    assert_eq!(POLL_BUDGET, 60);
    assert_eq!(POLL_INTERVAL_MS, 500);
}

#[test]
fn step_collects_on_set_flag() {
    assert_eq!(poll_step(0, true), PollStep::CollectResult);
    assert_eq!(poll_step(59, true), PollStep::CollectResult);
}

#[test]
fn step_keeps_waiting_while_budget_remains() {
    assert_eq!(poll_step(0, false), PollStep::KeepWaiting { polls_done: 1 });
    assert_eq!(poll_step(58, false), PollStep::KeepWaiting { polls_done: 59 });
}

#[test]
fn step_gives_up_when_budget_is_spent() {
    assert_eq!(poll_step(59, false), PollStep::GiveUp);
}

#[test]
fn flag_set_early_is_collected_at_the_next_poll() {
    let mut obs = vec![false; 60];
    obs[10] = true;
    assert_eq!(poll_outcome(&obs), PollOutcome::Collected { polls_used: 11 });
}

#[test]
fn flag_set_before_first_poll_is_collected_at_once() {
    let obs = vec![true; 60];
    assert_eq!(poll_outcome(&obs), PollOutcome::Collected { polls_used: 1 });
}

#[test]
fn flag_set_at_the_last_poll_is_still_collected() {
    let mut obs = vec![false; 60];
    obs[59] = true;
    assert_eq!(poll_outcome(&obs), PollOutcome::Collected { polls_used: 60 });
}

#[test]
fn flag_never_set_times_out_after_sixty_polls() {
    let obs = vec![false; 60];
    assert_eq!(poll_outcome(&obs), PollOutcome::TimedOut { polls_used: 60 });
}

#[test]
fn flag_set_only_after_the_budget_is_ignored() {
    let mut obs = vec![false; 61];
    obs[60] = true;
    assert_eq!(poll_outcome(&obs), PollOutcome::TimedOut { polls_used: 60 });
}
