//! Renewable token budgets over recurring windows.

use vstd::prelude::*;

use crate::time::{Duration, Instant};

verus! {

/// A recurring window period for the renewable budget.
#[derive(Debug, Clone, Copy, PartialEq, Eq, Structural)]
pub enum Period {
    /// 24 hours.
    Daily,
    /// 7 days.
    Weekly,
    /// Custom period.
    Every(Duration),
}

impl Period {
    /// The length of one window, in nanoseconds.
    pub open spec fn nanos(self) -> nat {
        match self {
            Period::Daily => 86_400_000_000_000,
            Period::Weekly => 604_800_000_000_000,
            Period::Every(span) => span@,
        }
    }

    /// The duration of one window. Used for window calculation and reset timing.
    pub fn duration(&self) -> (span: Duration)
        ensures
            span@ == self.nanos(),
    {
        match self {
            Period::Daily => Duration::from_secs(24 * 60 * 60),
            Period::Weekly => Duration::from_secs(7 * 24 * 60 * 60),
            Period::Every(span) => *span,
        }
    }
}

/// A renewable token budget: `max_tokens` per `period`.
#[derive(Debug, Clone, Copy, PartialEq, Eq, Structural)]
pub struct RenewableBudget {
    pub period: Period,
    pub max_tokens: u64,
}

impl Default for RenewableBudget {
    fn default() -> (budget: Self)
        ensures
            budget.period == Period::Daily,
            budget.max_tokens == 100_000,
    {
        RenewableBudget { period: Period::Daily, max_tokens: 100_000 }
    }
}

/// The number of the window that `now` falls into: the time since `start` in
/// whole periods, as a 64-bit number. An empty period has window 0 only.
pub open spec fn window_index(start: nat, now: nat, period: nat) -> nat {
    if period == 0 || now < start {
        0
    } else {
        ((now - start) as nat / period) % 0x1_0000_0000_0000_0000
    }
}

/// What a budget state holds: when window 0 began, the window of the last
/// refresh and the tokens used in it.
pub struct BudgetView {
    pub start: nat,
    pub window: nat,
    pub used: nat,
}

impl BudgetView {
    /// The window that `now` falls into.
    pub open spec fn window_at(self, now: nat, budget: RenewableBudget) -> nat {
        window_index(self.start, now, budget.period.nanos())
    }

    /// The state at `now`: a later window starts with nothing used.
    pub open spec fn refreshed(self, now: nat, budget: RenewableBudget) -> BudgetView {
        if self.window_at(now, budget) > self.window {
            BudgetView { start: self.start, window: self.window_at(now, budget), used: 0 }
        } else {
            self
        }
    }

    /// The state after a call that cost `tokens` completed at `now`.
    pub open spec fn charged(self, now: nat, budget: RenewableBudget, tokens: nat) -> BudgetView {
        let fresh = self.refreshed(now, budget);
        let sum = fresh.used + tokens;
        BudgetView {
            used: if sum <= u64::MAX {
                sum
            } else {
                u64::MAX as nat
            },
            ..fresh
        }
    }

    /// The tokens that the window of `now` still has.
    pub open spec fn remaining(self, now: nat, budget: RenewableBudget) -> nat {
        let used = self.refreshed(now, budget).used;
        if used <= budget.max_tokens {
            (budget.max_tokens - used) as nat
        } else {
            0
        }
    }

    /// Whether the quota of the window of `now` is used up.
    pub open spec fn exhausted(self, now: nat, budget: RenewableBudget) -> bool {
        self.refreshed(now, budget).used >= budget.max_tokens
    }

    /// When the window of `now` ends, at most `u64::MAX` nanoseconds after the start.
    pub open spec fn next_reset(self, now: nat, budget: RenewableBudget) -> nat {
        let span = budget.period.nanos() * (self.window_at(now, budget) + 1);
        self.start + if span <= u64::MAX {
            span
        } else {
            u64::MAX as nat
        }
    }
}

/// The consumption state for a renewable budget. Tracks which window we're in
/// and how many tokens have been used in the current window.
#[derive(Debug, Clone, Copy, PartialEq, Eq, Structural)]
pub struct BudgetState {
    start: Instant,
    window: u64,
    used: u64,
}

impl View for BudgetState {
    type V = BudgetView;

    closed spec fn view(&self) -> BudgetView {
        BudgetView { start: self.start@, window: self.window as nat, used: self.used as nat }
    }
}

impl BudgetState {
    /// Every reset of the budget is an instant that can be represented.
    #[verifier::type_invariant]
    spec fn wf(self) -> bool {
        self.start@ + u64::MAX <= Instant::max_nanos()
    }

    /// Create a new budget state starting at `now`, which must leave room for the
    /// latest reset.
    pub fn new(now: Instant) -> (state: Self)
        requires
            now@ + u64::MAX <= Instant::max_nanos(),
        ensures
            state@ == (BudgetView { start: now@, window: 0, used: 0 }),
    {
        BudgetState { start: now, window: 0, used: 0 }
    }

    /// Calculate which window `now` falls into. Window N = [start + N·period, start + (N+1)·period).
    /// Uses integer division of nanoseconds (exact, no float rounding).
    pub fn window(&self, now: Instant, period_duration: Duration) -> (index: u64)
        ensures
            index == window_index(self@.start, now@, period_duration@),
    {
        let elapsed_nanos: u128 = now.saturating_duration_since(self.start).as_nanos();
        let period_nanos: u128 = period_duration.as_nanos();
        if period_nanos == 0 {
            return 0;
        }
        let windows: u128 = elapsed_nanos / period_nanos;
        proof {
            assert(#[verifier::truncate] (windows as u64) as u128 == windows
                % 0x1_0000_0000_0000_0000u128) by (bit_vector);
            if now@ < self@.start {
                assert(0u128 / period_nanos == 0) by (nonlinear_arith)
                    requires
                        period_nanos > 0,
                ;
            }
        }
        #[verifier::truncate]
        let index: u64 = windows as u64;
        index
    }

    /// Refresh: if we've crossed into a new window since the last check, reset consumption.
    /// Returns true if the window rolled.
    pub fn refresh(&mut self, now: Instant, budget: &RenewableBudget) -> (rolled: bool)
        ensures
            final(self)@ == old(self)@.refreshed(now@, *budget),
            rolled == (old(self)@.window_at(now@, *budget) > old(self)@.window),
    {
        proof {
            use_type_invariant(&*self);
        }
        let current_window: u64 = self.window(now, budget.period.duration());
        if current_window > self.window {
            self.window = current_window;
            self.used = 0;
            true
        } else {
            false
        }
    }

    /// The current window index (0-based), as of the last `refresh`/`charge`.
    pub fn current_window(&self) -> (window: u64)
        ensures
            window == self@.window,
    {
        self.window
    }

    /// The tokens used in the current window, as of the last `refresh`/`charge`.
    pub fn used(&self) -> (used: u64)
        ensures
            used == self@.used,
    {
        self.used
    }

    /// Charge `tokens` to the current window (after refreshing). Saturating add to prevent overflow.
    pub fn charge(&mut self, now: Instant, budget: &RenewableBudget, tokens: u64)
        ensures
            final(self)@ == old(self)@.charged(now@, *budget, tokens as nat),
    {
        self.refresh(now, budget);
        proof {
            use_type_invariant(&*self);
        }
        self.used = self.used.saturating_add(tokens);
    }

    /// Tokens remaining in the current window. Saturating subtraction.
    pub fn remaining(&self, now: Instant, budget: &RenewableBudget) -> (tokens: u64)
        ensures
            tokens == self@.remaining(now@, *budget),
    {
        let mut state: BudgetState = *self;
        state.refresh(now, budget);
        budget.max_tokens.saturating_sub(state.used)
    }

    /// Is the current window exhausted? (used >= max_tokens)
    pub fn exhausted(&self, now: Instant, budget: &RenewableBudget) -> (yes: bool)
        ensures
            yes == self@.exhausted(now@, *budget),
    {
        let mut state: BudgetState = *self;
        state.refresh(now, budget);
        state.used >= budget.max_tokens
    }

    /// When does the current window reset? start + (window + 1) * period.
    pub fn next_reset(&self, now: Instant, budget: &RenewableBudget) -> (reset: Instant)
        ensures
            reset@ == self@.next_reset(now@, *budget),
    {
        proof {
            use_type_invariant(self);
        }
        let period: Duration = budget.period.duration();
        let current_window: u64 = self.window(now, period);
        let period_nanos: u128 = period.as_nanos();
        let count: u128 = current_window as u128 + 1;
        let limit: u128 = u64::MAX as u128;
        let product: Option<u128> = period_nanos.checked_mul(count);
        let reset_nanos: u64 = match product {
            Some(nanos) => {
                if nanos <= limit {
                    nanos as u64
                } else {
                    u64::MAX
                }
            },
            None => u64::MAX,
        };
        self.start.plus(Duration::from_nanos(reset_nanos))
    }

    /// Set the used token count of the current window.
    pub fn set_used_for_test(&mut self, used: u64)
        ensures
            final(self)@ == (BudgetView { used: used as nat, ..old(self)@ }),
    {
        proof {
            use_type_invariant(&*self);
        }
        self.used = used;
    }
}

/// Summary of budget state for external observers.
#[derive(Debug, Clone, Copy, PartialEq, Eq, Structural)]
pub struct BudgetSummary {
    pub tokens_remaining: u64,
    pub next_reset: Instant,
}

impl BudgetSummary {
    pub fn from_state(state: &BudgetState, now: Instant, budget: &RenewableBudget) -> (summary: Self)
        ensures
            summary.tokens_remaining == state@.remaining(now@, *budget),
            summary.next_reset@ == state@.next_reset(now@, *budget),
    {
        BudgetSummary {
            tokens_remaining: state.remaining(now, budget),
            next_reset: state.next_reset(now, budget),
        }
    }
}

/// Window N is `[start + N·period, start + (N+1)·period)`: the window of an instant
/// contains it, as long as its number fits 64 bits.
pub proof fn law_window_contains_its_instants(start: nat, now: nat, period: nat)
    requires
        period > 0,
        start <= now,
        (now - start) as nat / period <= u64::MAX,
    ensures
        start + window_index(start, now, period) * period <= now,
        now < start + (window_index(start, now, period) + 1) * period,
{
    let elapsed = (now - start) as nat;
    let index = elapsed / period;
    assert(index == window_index(start, now, period));
    assert(index * period <= elapsed < (index + 1) * period) by (nonlinear_arith)
        requires
            index == elapsed / period,
            period > 0,
    ;
}

/// Time only moves to later windows, as long as their numbers fit 64 bits.
pub proof fn law_windows_follow_time(start: nat, earlier: nat, later: nat, period: nat)
    requires
        earlier <= later,
        start <= later && period > 0 ==> (later - start) as nat / period <= u64::MAX,
    ensures
        window_index(start, earlier, period) <= window_index(start, later, period),
{
    if period > 0 && start <= earlier {
        let a = (earlier - start) as nat;
        let b = (later - start) as nat;
        assert(a / period <= b / period) by (nonlinear_arith)
            requires
                a <= b,
                period > 0,
        ;
    }
}

/// A second refresh at the same instant changes nothing.
pub proof fn law_refresh_is_idempotent(state: BudgetView, now: nat, budget: RenewableBudget)
    ensures
        state.refreshed(now, budget).refreshed(now, budget) == state.refreshed(now, budget),
{
}

/// A call that completes in a later window counts against that window alone: what
/// was used before is forgotten.
pub proof fn law_charge_counts_in_the_window_of_completion(
    state: BudgetView,
    now: nat,
    budget: RenewableBudget,
    tokens: u64,
)
    requires
        state.window_at(now, budget) > state.window,
    ensures
        state.charged(now, budget, tokens as nat).used == tokens,
        state.charged(now, budget, tokens as nat).window == state.window_at(now, budget),
{
}

/// Charges at one instant add up (to at most `u64::MAX`).
pub proof fn law_charges_add_up(
    state: BudgetView,
    now: nat,
    budget: RenewableBudget,
    first: nat,
    second: nat,
)
    ensures
        state.charged(now, budget, first).charged(now, budget, second) == state.charged(
            now,
            budget,
            first + second,
        ),
{
}

/// The quota is used up exactly when no token remains.
pub proof fn law_exhausted_when_nothing_remains(
    state: BudgetView,
    now: nat,
    budget: RenewableBudget,
)
    ensures
        state.exhausted(now, budget) <==> state.remaining(now, budget) == 0,
{
}

/// The reset lies in the future and opens the next window, which begins with
/// nothing used: at the reset the budget is exhausted only where it grants no
/// token at all. Until then the window stays the same.
pub proof fn law_reset_opens_the_next_window(state: BudgetView, now: nat, budget: RenewableBudget)
    requires
        budget.period.nanos() > 0,
        state.start <= now,
        budget.period.nanos() * (((now - state.start) as nat / budget.period.nanos()) + 1)
            <= u64::MAX,
        state.window <= state.window_at(now, budget),
    ensures
        state.next_reset(now, budget) > now,
        state.window_at(state.next_reset(now, budget), budget) == state.window_at(now, budget) + 1,
        state.refreshed(state.next_reset(now, budget), budget).used == 0,
        state.exhausted(state.next_reset(now, budget), budget) <==> budget.max_tokens == 0,
        forall|t: nat|
            now <= t < state.next_reset(now, budget) ==> #[trigger] state.window_at(t, budget)
                == state.window_at(now, budget),
{
    let period = budget.period.nanos();
    let elapsed = (now - state.start) as nat;
    let index = elapsed / period;
    assert(index < u64::MAX) by (nonlinear_arith)
        requires
            period > 0,
            period * (index + 1) <= u64::MAX,
    ;
    assert(index == state.window_at(now, budget));
    law_window_contains_its_instants(state.start, now, period);
    let span = period * (index + 1);
    assert((index + 1) * period == span) by (nonlinear_arith)
        requires
            span == period * (index + 1),
    ;
    assert(span / period == index + 1) by (nonlinear_arith)
        requires
            span == period * (index + 1),
            period > 0,
    ;
    let reset = state.next_reset(now, budget);
    assert(reset == state.start + span);
    assert forall|t: nat| now <= t < reset implies #[trigger] state.window_at(t, budget)
        == state.window_at(now, budget) by {
        let e = (t - state.start) as nat;
        assert(e / period == index) by (nonlinear_arith)
            requires
                elapsed <= e < span,
                span == period * (index + 1),
                index == elapsed / period,
                period > 0,
        ;
    }
}

/// How long windows are: a day, a week, or what was asked for.
pub proof fn law_periods(span: Duration)
    ensures
        Period::Daily.nanos() == 24 * 60 * 60 * 1_000_000_000,
        Period::Weekly.nanos() == 7 * Period::Daily.nanos(),
        Period::Every(span).nanos() == span@,
{
}

/// What is used and what remains make up the quota, and more than the quota leaves
/// nothing. Within a window a charge is used in full, however large it is, as far as
/// it can be counted; a new window starts with its quota untouched.
pub proof fn law_quotas_are_used_up_token_by_token(
    state: BudgetView,
    now: nat,
    budget: RenewableBudget,
    tokens: nat,
)
    ensures
        state.window_at(now, budget) <= state.window && state.used + tokens <= u64::MAX ==> {
            &&& state.charged(now, budget, tokens).used == state.used + tokens
            &&& state.charged(now, budget, tokens).window == state.window
        },
        state.window_at(now, budget) <= state.window && state.used + tokens <= budget.max_tokens
            ==> state.charged(now, budget, tokens).remaining(now, budget) + state.used + tokens
            == budget.max_tokens,
        state.window_at(now, budget) <= state.window && state.used >= budget.max_tokens
            ==> state.remaining(now, budget) == 0 && state.exhausted(now, budget),
        state.window_at(now, budget) <= state.window && state.used < budget.max_tokens
            ==> !state.exhausted(now, budget),
        state.window_at(now, budget) > state.window ==> state.remaining(now, budget)
            == budget.max_tokens,
        state.charged(now, budget, tokens).start == state.start,
        state.refreshed(now, budget).start == state.start,
{
}

/// Before its start, and with an empty period, a budget is in its first window. A
/// refresh within a window changes nothing, and one in a later window starts that
/// window with nothing used.
pub proof fn law_refreshes_follow_the_windows(state: BudgetView, now: nat, budget: RenewableBudget)
    ensures
        now < state.start || budget.period.nanos() == 0 ==> state.window_at(now, budget) == 0,
        state.window_at(now, budget) <= state.window ==> state.refreshed(now, budget) == state,
        state.window_at(now, budget) > state.window ==> {
            &&& state.refreshed(now, budget).window == state.window_at(now, budget)
            &&& state.refreshed(now, budget).used == 0
        },
{
}

/// A reset too far off to be counted comes as late as can be counted.
pub proof fn law_far_resets_are_capped(state: BudgetView, now: nat, budget: RenewableBudget)
    ensures
        state.next_reset(now, budget) <= state.start + u64::MAX,
        budget.period.nanos() > u64::MAX ==> state.next_reset(now, budget) == state.start
            + u64::MAX,
{
    let period = budget.period.nanos();
    let count = state.window_at(now, budget) + 1;
    if period > u64::MAX {
        assert(period * count > u64::MAX) by (nonlinear_arith)
            requires
                period > u64::MAX,
                count >= 1,
        ;
    }
}

} // verus!
