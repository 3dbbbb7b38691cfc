//! FakeMind for testing the brainstem (scripted decisions).

use std::collections::VecDeque;

use vstd::prelude::*;

use crate::budget::BudgetSummary;
use crate::mind::{Decision, DecisionView, Perception};
use crate::queue::queue_of;
use crate::time::{Duration, Instant};

verus! {

/// What a sequence of decisions says.
pub open spec fn decision_views(decisions: Seq<Decision>) -> Seq<DecisionView> {
    decisions.map_values(|decision: Decision| decision@)
}

/// What a [`FakeMind`] holds: the rest of its script, or nothing that it will ever
/// decide.
pub struct FakeMindView {
    pub script: Seq<DecisionView>,
    pub pending: bool,
    pub tokens_remaining: nat,
    pub next_reset: nat,
}

/// A fake mind that returns scripted decisions. For brainstem tests.
#[derive(Debug, PartialEq, Eq)]
pub struct FakeMind {
    script: VecDeque<Decision>,
    pending: bool,
    budget_summary: BudgetSummary,
}

impl View for FakeMind {
    type V = FakeMindView;

    closed spec fn view(&self) -> FakeMindView {
        FakeMindView {
            script: decision_views(self.script@),
            pending: self.pending,
            tokens_remaining: self.budget_summary.tokens_remaining as nat,
            next_reset: self.budget_summary.next_reset@,
        }
    }
}

impl FakeMind {
    /// Create a new FakeMind with a script of decisions.
    pub fn new(script: Vec<Decision>, budget_summary: BudgetSummary) -> (mind: Self)
        ensures
            mind@ == (FakeMindView {
                script: decision_views(script@),
                pending: false,
                tokens_remaining: budget_summary.tokens_remaining as nat,
                next_reset: budget_summary.next_reset@,
            }),
    {
        FakeMind { script: queue_of(script), pending: false, budget_summary }
    }

    /// Create a FakeMind with default budget summary (for simple tests): 100000
    /// tokens for the day that starts at `now`.
    pub fn with_script(script: Vec<Decision>, now: Instant) -> (mind: Self)
        requires
            now@ + 86_400_000_000_000 <= Instant::max_nanos(),
        ensures
            mind@ == (FakeMindView {
                script: decision_views(script@),
                pending: false,
                tokens_remaining: 100_000,
                next_reset: now@ + 86_400_000_000_000,
            }),
    {
        let next_reset: Instant = now.plus(Duration::from_secs(86400));
        FakeMind::new(script, BudgetSummary { tokens_remaining: 100_000, next_reset })
    }

    /// Create a FakeMind with default budget summary (for simple tests).
    pub fn with_script_only(script: Vec<Decision>, now: Instant) -> (mind: Self)
        requires
            now@ + 86_400_000_000_000 <= Instant::max_nanos(),
        ensures
            mind@ == (FakeMindView {
                script: decision_views(script@),
                pending: false,
                tokens_remaining: 100_000,
                next_reset: now@ + 86_400_000_000_000,
            }),
    {
        FakeMind::with_script(script, now)
    }

    /// Create a FakeMind that never completes decide (for cancellation tests).
    pub fn pending(now: Instant) -> (mind: Self)
        requires
            now@ + 86_400_000_000_000 <= Instant::max_nanos(),
        ensures
            mind@ == (FakeMindView {
                script: seq![],
                pending: true,
                tokens_remaining: 100_000,
                next_reset: now@ + 86_400_000_000_000,
            }),
    {
        let mut mind = FakeMind::with_script(Vec::new(), now);
        mind.pending = true;
        assert(mind@.script =~= seq![]);
        mind
    }

    /// The next decision of the script, which must not be over. `None`: the decision
    /// never comes.
    pub fn decide(&mut self, _perception: &Perception) -> (decision: Option<Decision>)
        requires
            old(self)@.pending || old(self)@.script.len() > 0,
        ensures
            old(self)@.pending ==> decision is None && final(self)@ == old(self)@,
            !old(self)@.pending ==> decision is Some && decision->0@ == old(self)@.script[0]
                && final(self)@ == (FakeMindView {
                script: old(self)@.script.drop_first(),
                ..old(self)@
            }),
    {
        if self.pending {
            return None;
        }
        let decision = self.script.pop_front();
        assert(self@.script =~= old(self)@.script.drop_first());
        decision
    }

    /// Whether `decide` has an answer left, or never will have one.
    pub fn can_decide(&self) -> (yes: bool)
        ensures
            yes == (self@.pending || self@.script.len() > 0),
    {
        self.pending || self.script.len() > 0
    }

    /// The budget summary that was set.
    pub fn budget_summary(&self) -> (summary: BudgetSummary)
        ensures
            summary.tokens_remaining == self@.tokens_remaining,
            summary.next_reset@ == self@.next_reset,
    {
        self.budget_summary
    }
}

/// The view of a script keeps every decision at its place.
pub proof fn law_decision_views(decisions: Seq<Decision>)
    ensures
        decision_views(decisions).len() == decisions.len(),
        forall|i: int|
            0 <= i < decisions.len() ==> #[trigger] decision_views(decisions)[i] == decisions[i]@,
{
}

} // verus!
