//! Structured run events for the actor service. A consumer that receives the full
//! `RunEvent` stream can reconstruct exactly what happened.

use vstd::prelude::*;

use crate::error::{ProviderError, ProviderErrorView};
use crate::mind::{TaskFault, TaskFaultView};
use crate::observation::{Outcome, OutcomeView, RecoverableError, RecoverableErrorView};
use crate::time::{Duration, Instant};

verus! {

/// One observable moment in a run, emitted in order.
#[derive(Debug, PartialEq, Eq)]
pub enum RunEvent {
    /// A new task was received from the inbox.
    TaskReceived { goal: String },
    /// The mind decided to issue a command.
    Command { call_id: String, name: String },
    /// A command was actuated and produced a result.
    CommandResult { call_id: String, ok: bool },
    /// A recoverable error was observed.
    RecoverableObservation { error: RecoverableError },
    /// A transient provider error triggered a retry.
    RetryScheduled { attempt: usize, delay: Duration, error: ProviderError },
    /// A task completed successfully.
    TaskCompleted { outcome: Outcome },
    /// A task failed (task-scoped, service continues).
    TaskFailed { reason: TaskFault },
    /// The token budget window rolled to a new window.
    WindowReset { window: u64 },
    /// The brainstem is sleeping until the budget resets.
    ThrottleSleep { wake: Instant },
    /// The run terminated.
    Terminated { reason: Termination },
}

/// What a [`RunEvent`] says. Spans and instants count nanoseconds.
pub enum EventView {
    TaskReceived { goal: Seq<char> },
    Command { call_id: Seq<char>, name: Seq<char> },
    CommandResult { call_id: Seq<char>, ok: bool },
    RecoverableObservation { error: RecoverableErrorView },
    RetryScheduled { attempt: nat, delay: nat, error: ProviderErrorView },
    TaskCompleted { outcome: OutcomeView },
    TaskFailed { reason: TaskFaultView },
    WindowReset { window: nat },
    ThrottleSleep { wake: nat },
    Terminated { reason: TerminationView },
}

impl View for RunEvent {
    type V = EventView;

    open spec fn view(&self) -> EventView {
        match self {
            RunEvent::TaskReceived { goal } => EventView::TaskReceived { goal: goal@ },
            RunEvent::Command { call_id, name } => EventView::Command {
                call_id: call_id@,
                name: name@,
            },
            RunEvent::CommandResult { call_id, ok } => EventView::CommandResult {
                call_id: call_id@,
                ok: *ok,
            },
            RunEvent::RecoverableObservation { error } => EventView::RecoverableObservation {
                error: error@,
            },
            RunEvent::RetryScheduled { attempt, delay, error } => EventView::RetryScheduled {
                attempt: *attempt as nat,
                delay: delay@,
                error: error@,
            },
            RunEvent::TaskCompleted { outcome } => EventView::TaskCompleted { outcome: outcome@ },
            RunEvent::TaskFailed { reason } => EventView::TaskFailed { reason: reason@ },
            RunEvent::WindowReset { window } => EventView::WindowReset { window: *window as nat },
            RunEvent::ThrottleSleep { wake } => EventView::ThrottleSleep { wake: wake@ },
            RunEvent::Terminated { reason } => EventView::Terminated { reason: reason@ },
        }
    }
}

impl Clone for RunEvent {
    fn clone(&self) -> (copy: Self)
        ensures
            copy@ == self@,
    {
        match self {
            RunEvent::TaskReceived { goal } => RunEvent::TaskReceived { goal: goal.clone() },
            RunEvent::Command { call_id, name } => RunEvent::Command {
                call_id: call_id.clone(),
                name: name.clone(),
            },
            RunEvent::CommandResult { call_id, ok } => RunEvent::CommandResult {
                call_id: call_id.clone(),
                ok: *ok,
            },
            RunEvent::RecoverableObservation { error } => RunEvent::RecoverableObservation {
                error: error.clone(),
            },
            RunEvent::RetryScheduled { attempt, delay, error } => RunEvent::RetryScheduled {
                attempt: *attempt,
                delay: *delay,
                error: error.clone(),
            },
            RunEvent::TaskCompleted { outcome } => RunEvent::TaskCompleted {
                outcome: outcome.clone(),
            },
            RunEvent::TaskFailed { reason } => RunEvent::TaskFailed { reason: reason.clone() },
            RunEvent::WindowReset { window } => RunEvent::WindowReset { window: *window },
            RunEvent::ThrottleSleep { wake } => RunEvent::ThrottleSleep { wake: *wake },
            RunEvent::Terminated { reason } => RunEvent::Terminated { reason: reason.clone() },
        }
    }
}

/// What a sequence of events says.
pub open spec fn event_views(events: Seq<RunEvent>) -> Seq<EventView> {
    events.map_values(|event: RunEvent| event@)
}

/// Why the brainstem run terminated.
#[derive(Debug, PartialEq, Eq)]
pub enum Termination {
    /// Cancellation token was triggered.
    Cancelled,
    /// A service-fatal error occurred.
    Fatal(String),
    /// The inbox closed (all senders dropped).
    Stopped,
}

/// What a [`Termination`] says.
pub enum TerminationView {
    Cancelled,
    Fatal(Seq<char>),
    Stopped,
}

impl View for Termination {
    type V = TerminationView;

    open spec fn view(&self) -> TerminationView {
        match self {
            Termination::Cancelled => TerminationView::Cancelled,
            Termination::Fatal(why) => TerminationView::Fatal(why@),
            Termination::Stopped => TerminationView::Stopped,
        }
    }
}

impl Clone for Termination {
    fn clone(&self) -> (copy: Self)
        ensures
            copy@ == self@,
    {
        match self {
            Termination::Cancelled => Termination::Cancelled,
            Termination::Fatal(why) => Termination::Fatal(why.clone()),
            Termination::Stopped => Termination::Stopped,
        }
    }
}

/// The views of events keep everything that the events hold.
pub proof fn law_event_views(event: RunEvent, events: Seq<RunEvent>, reason: Termination)
    ensures
        event matches RunEvent::TaskReceived { goal } ==> event@ == (EventView::TaskReceived {
            goal: goal@,
        }),
        event matches RunEvent::Command { call_id, name } ==> event@ == (EventView::Command {
            call_id: call_id@,
            name: name@,
        }),
        event matches RunEvent::CommandResult { call_id, ok } ==> event@ == (
        EventView::CommandResult { call_id: call_id@, ok }),
        event matches RunEvent::RecoverableObservation { error } ==> event@ == (
        EventView::RecoverableObservation { error: error@ }),
        event matches RunEvent::RetryScheduled { attempt, delay, error } ==> event@ == (
        EventView::RetryScheduled { attempt: attempt as nat, delay: delay@, error: error@ }),
        event matches RunEvent::TaskCompleted { outcome } ==> event@ == (EventView::TaskCompleted {
            outcome: outcome@,
        }),
        event matches RunEvent::TaskFailed { reason: fault } ==> event@ == (EventView::TaskFailed {
            reason: fault@,
        }),
        event matches RunEvent::WindowReset { window } ==> event@ == (EventView::WindowReset {
            window: window as nat,
        }),
        event matches RunEvent::ThrottleSleep { wake } ==> event@ == (EventView::ThrottleSleep {
            wake: wake@,
        }),
        event matches RunEvent::Terminated { reason: why } ==> event@ == (EventView::Terminated {
            reason: why@,
        }),
        event_views(events).len() == events.len(),
        forall|i: int| 0 <= i < events.len() ==> #[trigger] event_views(events)[i] == events[i]@,
        reason matches Termination::Cancelled ==> reason@ == TerminationView::Cancelled,
        reason matches Termination::Fatal(why) ==> reason@ == TerminationView::Fatal(why@),
        reason matches Termination::Stopped ==> reason@ == TerminationView::Stopped,
{
}

} // verus!
