use agent::budget::{BudgetState, BudgetSummary, Period, RenewableBudget};
use agent::time::{Duration, Instant};

/// The moment `secs` seconds after the origin of the clock.
fn at(secs: u64) -> Instant {
    Instant::at(Duration::from_secs(secs))
}

fn every_ten_seconds() -> RenewableBudget {
    RenewableBudget { period: Period::Every(Duration::from_secs(10)), max_tokens: 100 }
}

fn daily_hundred() -> RenewableBudget {
    RenewableBudget { period: Period::Daily, max_tokens: 100 }
}

#[test]
fn weekly_period_is_seven_days() {
    assert_eq!(Period::Weekly.duration(), Duration::from_secs(7 * 24 * 60 * 60));
}

#[test]
fn window_calculation_from_zero() {
    let budget = every_ten_seconds();
    let state = BudgetState::new(at(0));
    assert_eq!(state.window(at(0), budget.period.duration()), 0);
    assert_eq!(state.window(at(10), budget.period.duration()), 1);
    assert_eq!(state.window(at(25), budget.period.duration()), 2);
}

#[test]
fn refresh_rolls_window_and_resets_used() {
    let budget = every_ten_seconds();
    let mut state = BudgetState::new(at(0));

    state.charge(at(0), &budget, 50);
    assert_eq!(state.used(), 50);
    assert_eq!(state.current_window(), 0);

    let rolled = state.refresh(at(10), &budget);
    assert!(rolled);
    assert_eq!(state.current_window(), 1);
    assert_eq!(state.used(), 0);
}

#[test]
fn charge_saturates_on_overflow() {
    let budget = daily_hundred();
    let mut state = BudgetState::new(at(0));
    state.set_used_for_test(u64::MAX - 10);
    state.charge(at(0), &budget, 50);
    assert_eq!(state.used(), u64::MAX);
}

#[test]
fn remaining_saturates_at_zero() {
    let budget = daily_hundred();
    let mut state = BudgetState::new(at(0));

    state.set_used_for_test(100);
    assert_eq!(state.remaining(at(0), &budget), 0);

    state.set_used_for_test(150);
    assert_eq!(state.remaining(at(0), &budget), 0);
}

#[test]
fn exhausted_when_used_gte_max() {
    let budget = daily_hundred();
    let mut state = BudgetState::new(at(0));

    state.set_used_for_test(99);
    assert!(!state.exhausted(at(0), &budget));

    state.set_used_for_test(100);
    assert!(state.exhausted(at(0), &budget));

    state.set_used_for_test(101);
    assert!(state.exhausted(at(0), &budget));
}

#[test]
fn next_reset_is_start_plus_next_window_boundary() {
    let budget = every_ten_seconds();
    let state = BudgetState::new(at(0));

    // At t=0 (window 0), next reset is at t=10.
    assert_eq!(state.next_reset(at(0), &budget), at(10));

    // At t=5 (still window 0), next reset is still at t=10.
    assert_eq!(state.next_reset(at(5), &budget), at(10));

    // At t=10 (window 1), next reset is at t=20.
    assert_eq!(state.next_reset(at(10), &budget), at(20));
}

#[test]
fn next_reset_does_not_truncate_large_window_index() {
    // With a 1ms period the window index passes u32::MAX after ~49 days.
    let budget =
        RenewableBudget { period: Period::Every(Duration::from_millis(1)), max_tokens: 100 };
    let mut state = BudgetState::new(at(0));

    let now = Instant::at(Duration::from_millis(u32::MAX as u64 + 5));
    state.refresh(now, &budget);

    let reset = state.next_reset(now, &budget);
    assert!(
        reset.since_origin().as_nanos() > now.since_origin().as_nanos(),
        "next_reset must stay in the future past u32::MAX windows, not truncate to the past"
    );
}

#[test]
fn charge_straddles_window_boundary() {
    let budget = every_ten_seconds();
    let mut state = BudgetState::new(at(0));

    state.charge(at(0), &budget, 30);
    assert_eq!(state.used(), 30);

    // Window 0's 30 tokens are forgotten.
    state.charge(at(10), &budget, 20);
    assert_eq!(state.current_window(), 1);
    assert_eq!(state.used(), 20);
}

#[test]
fn a_second_refresh_at_the_same_instant_changes_nothing() {
    let budget = every_ten_seconds();
    let mut state = BudgetState::new(at(0));
    state.charge(at(3), &budget, 7);
    assert!(state.refresh(at(31), &budget));
    let once = state;
    assert!(!state.refresh(at(31), &budget));
    assert_eq!(state, once);
    assert_eq!(state.current_window(), 3);
}

#[test]
fn charges_within_one_window_add_up() {
    let budget = every_ten_seconds();
    let mut state = BudgetState::new(at(0));
    state.charge(at(1), &budget, 30);
    state.charge(at(2), &budget, 12);
    assert_eq!(state.used(), 42);
    assert_eq!(state.remaining(at(3), &budget), 58);
}

#[test]
fn windows_count_from_the_start_of_the_state() {
    let state = BudgetState::new(at(1000));
    let span = Duration::from_secs(10);
    assert_eq!(state.window(at(1000), span), 0);
    assert_eq!(state.window(at(1009), span), 0);
    assert_eq!(state.window(at(1010), span), 1);
    // An instant before the start belongs to window 0.
    assert_eq!(state.window(at(5), span), 0);
}

#[test]
fn an_empty_period_has_one_window() {
    let budget = RenewableBudget { period: Period::Every(Duration::from_secs(0)), max_tokens: 5 };
    let mut state = BudgetState::new(at(0));
    state.charge(at(0), &budget, 5);
    assert!(!state.refresh(at(1_000_000), &budget));
    assert!(state.exhausted(at(1_000_000), &budget));
    assert_eq!(state.next_reset(at(1_000_000), &budget), at(0));
}

#[test]
fn the_reset_opens_a_fresh_window() {
    let budget = every_ten_seconds();
    let mut state = BudgetState::new(at(0));
    state.charge(at(4), &budget, 100);
    assert!(state.exhausted(at(4), &budget));
    let reset = state.next_reset(at(4), &budget);
    assert_eq!(reset, at(10));
    assert!(!state.exhausted(reset, &budget));
    assert_eq!(state.remaining(reset, &budget), 100);
}

#[test]
fn an_exhausted_window_has_nothing_remaining() {
    let budget = every_ten_seconds();
    let mut state = BudgetState::new(at(0));
    state.charge(at(0), &budget, 99);
    assert_eq!(state.remaining(at(0), &budget), 1);
    assert!(!state.exhausted(at(0), &budget));
    state.charge(at(0), &budget, 1);
    assert_eq!(state.remaining(at(0), &budget), 0);
    assert!(state.exhausted(at(0), &budget));
}

#[test]
fn a_reset_beyond_the_range_is_capped() {
    let budget = RenewableBudget {
        period: Period::Every(Duration::from_secs(u64::MAX / 1_000_000_000 + 1)),
        max_tokens: 5,
    };
    let state = BudgetState::new(at(0));
    assert_eq!(state.next_reset(at(0), &budget), Instant::at(Duration::from_nanos(u64::MAX)));
}

#[test]
fn the_default_budget_is_daily() {
    let budget = RenewableBudget::default();
    assert_eq!(budget.period, Period::Daily);
    assert_eq!(budget.max_tokens, 100_000);
    assert_eq!(Period::Daily.duration(), Duration::from_secs(86_400));
}

#[test]
fn a_summary_reports_what_remains_and_the_next_reset() {
    let budget = every_ten_seconds();
    let mut state = BudgetState::new(at(0));
    state.charge(at(12), &budget, 40);
    let summary = BudgetSummary::from_state(&state, at(13), &budget);
    assert_eq!(summary.tokens_remaining, 60);
    assert_eq!(summary.next_reset, at(20));
}
