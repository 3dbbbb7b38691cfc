//! Brainstem: the runtime of the actor agent as a state machine. It takes tasks,
//! asks the mind, has commands actuated, waits out throttles and reports what
//! happened. It never waits itself: it says what to do next, and is told what came
//! of it.

use vstd::prelude::*;

use crate::budget::BudgetSummary;
use crate::error::{ToolError, ToolErrorView};
use crate::event::{event_views, EventView, RunEvent, Termination, TerminationView};
use crate::json::Json;
use crate::mind::{
    Command, CommandView, Decision, DecisionView, Perception, PerceptionView, Reason, ReasonView,
    TaskFault, TaskFaultView,
};
use crate::observation::{
    Observation, ObservationView, OutcomeView, RecoverableError, RecoverableErrorView, TaskOutcome,
    TaskOutcomeView,
};
use crate::text::optional_text;
use crate::time::Instant;
use crate::tool::{Tool, ToolRegistry};

pub mod laws;

verus! {

broadcast use vstd::string::group_string_axioms;

/// A task submitted to the brainstem's inbox.
#[derive(Debug, PartialEq, Eq)]
pub struct Task {
    pub goal: String,
}

/// The brainstem's lifecycle state.
#[derive(Debug, Clone, Copy, PartialEq, Eq, Structural)]
pub enum Lifecycle {
    Idle,
    Working,
    Throttling,
    Cancelled,
    Fatal,
    Stopped,
}

/// A snapshot of the brainstem's state (for Status queries).
#[derive(Debug, PartialEq, Eq)]
pub struct Snapshot {
    pub lifecycle: Lifecycle,
    pub current_task: Option<String>,
    pub tokens_remaining: u64,
    pub next_reset: Instant,
    pub queue_depth: usize,
    pub steps_used: usize,
}

/// What a [`Snapshot`] says. Instants count nanoseconds.
pub struct SnapshotView {
    pub lifecycle: Lifecycle,
    pub current_task: Option<Seq<char>>,
    pub tokens_remaining: nat,
    pub next_reset: nat,
    pub queue_depth: nat,
    pub steps_used: nat,
}

impl View for Snapshot {
    type V = SnapshotView;

    open spec fn view(&self) -> SnapshotView {
        SnapshotView {
            lifecycle: self.lifecycle,
            current_task: optional_text(self.current_task),
            tokens_remaining: self.tokens_remaining as nat,
            next_reset: self.next_reset@,
            queue_depth: self.queue_depth as nat,
            steps_used: self.steps_used as nat,
        }
    }
}

impl Clone for Snapshot {
    fn clone(&self) -> (copy: Self)
        ensures
            copy@ == self@,
    {
        Snapshot {
            lifecycle: self.lifecycle,
            current_task: self.current_task.clone(),
            tokens_remaining: self.tokens_remaining,
            next_reset: self.next_reset,
            queue_depth: self.queue_depth,
            steps_used: self.steps_used,
        }
    }
}

/// What the brainstem wants done next.
#[derive(Debug, PartialEq, Eq)]
pub enum Next {
    /// Run this command and tell what was observed.
    Actuate(Command),
    /// Sleep until this instant and then wake the brainstem.
    Sleep(Instant),
    /// Hand this outcome to whoever submitted the task and wait for the next one.
    Report(TaskOutcome),
    /// End the run.
    Terminate(Termination),
}

/// What a [`Next`] says.
pub enum NextView {
    Actuate(CommandView),
    Sleep(nat),
    Report(TaskOutcomeView),
    Terminate(TerminationView),
}

impl View for Next {
    type V = NextView;

    open spec fn view(&self) -> NextView {
        match self {
            Next::Actuate(command) => NextView::Actuate(command@),
            Next::Sleep(wake) => NextView::Sleep(wake@),
            Next::Report(outcome) => NextView::Report(outcome@),
            Next::Terminate(reason) => NextView::Terminate(reason@),
        }
    }
}

/// What a [`Brainstem`] holds. Instants count nanoseconds.
pub struct BrainstemView {
    pub max_steps: nat,
    pub lifecycle: Lifecycle,
    pub current_task: Option<Seq<char>>,
    pub tokens_remaining: nat,
    pub next_reset: nat,
    pub steps_used: nat,
    pub wake: Option<nat>,
}

impl BrainstemView {
    /// The state with a newer budget summary.
    pub open spec fn informed(self, summary: BudgetSummary) -> BrainstemView {
        BrainstemView {
            tokens_remaining: summary.tokens_remaining as nat,
            next_reset: summary.next_reset@,
            ..self
        }
    }

    /// What a status query is told. While throttling, the reset that is waited for
    /// is the instant of waking.
    pub open spec fn snapshot(self, queue_depth: nat) -> SnapshotView {
        SnapshotView {
            lifecycle: self.lifecycle,
            current_task: self.current_task,
            tokens_remaining: self.tokens_remaining,
            next_reset: if self.lifecycle == Lifecycle::Throttling && self.wake is Some {
                self.wake->0
            } else {
                self.next_reset
            },
            queue_depth,
            steps_used: self.steps_used,
        }
    }

    /// The state after a task was taken from the inbox.
    pub open spec fn with_task(self, goal: Seq<char>) -> BrainstemView {
        BrainstemView {
            lifecycle: Lifecycle::Working,
            current_task: Some(goal),
            steps_used: 0,
            ..self
        }
    }

    /// The state after the task ended: ready for the next one.
    pub open spec fn without_task(self) -> BrainstemView {
        BrainstemView {
            lifecycle: Lifecycle::Idle,
            current_task: None,
            steps_used: 0,
            ..self
        }
    }

    /// The state after the mind decided.
    pub open spec fn after_decision(self, decision: DecisionView) -> BrainstemView {
        match decision {
            DecisionView::Act(_) => if self.steps_used >= self.max_steps {
                self.without_task()
            } else {
                BrainstemView { steps_used: self.steps_used + 1, ..self }
            },
            DecisionView::Done(_) => self.without_task(),
            DecisionView::Failed(ReasonView::Task(_)) => self.without_task(),
            DecisionView::Failed(ReasonView::Service(_)) => BrainstemView {
                lifecycle: Lifecycle::Fatal,
                ..self
            },
            DecisionView::Throttle(wake) => BrainstemView {
                lifecycle: Lifecycle::Throttling,
                wake: Some(wake),
                ..self
            },
        }
    }

    /// What is to be done after the mind decided.
    pub open spec fn next(self, decision: DecisionView) -> NextView {
        match decision {
            DecisionView::Act(command) => if self.steps_used >= self.max_steps {
                NextView::Report(TaskOutcomeView::Failed(TaskFaultView::NoProgress))
            } else {
                NextView::Actuate(command)
            },
            DecisionView::Done(outcome) => NextView::Report(TaskOutcomeView::Completed(outcome)),
            DecisionView::Failed(ReasonView::Task(fault)) => NextView::Report(
                TaskOutcomeView::Failed(fault),
            ),
            DecisionView::Failed(ReasonView::Service(error)) => NextView::Terminate(
                TerminationView::Fatal(error.text()),
            ),
            DecisionView::Throttle(wake) => NextView::Sleep(wake),
        }
    }

    /// The state after the brainstem woke from a throttle.
    pub open spec fn woken(self) -> BrainstemView {
        BrainstemView { lifecycle: Lifecycle::Working, wake: None, ..self }
    }
}

/// The event that announces what is to be done next.
pub open spec fn announcement(next: NextView) -> EventView {
    match next {
        NextView::Actuate(CommandView::CallTool { call_id, name, .. }) => EventView::Command {
            call_id,
            name,
        },
        NextView::Sleep(wake) => EventView::ThrottleSleep { wake },
        NextView::Report(TaskOutcomeView::Completed(outcome)) => EventView::TaskCompleted {
            outcome,
        },
        NextView::Report(TaskOutcomeView::Failed(reason)) => EventView::TaskFailed { reason },
        NextView::Terminate(reason) => EventView::Terminated { reason },
    }
}

/// The events of an observation: the result of the command, and the error where
/// there was one.
pub open spec fn observation_events(observation: ObservationView) -> Seq<EventView> {
    match observation {
        ObservationView::ToolResult { call_id, .. } => seq![
            EventView::CommandResult { call_id, ok: true },
        ],
        ObservationView::Recoverable { call_id, error } => seq![
            EventView::CommandResult {
                call_id: match call_id {
                    Some(id) => id,
                    None => ""@,
                },
                ok: false,
            },
            EventView::RecoverableObservation { error },
        ],
    }
}

/// The brainstem: drives the perpetual actor loop.
#[derive(Debug, PartialEq, Eq)]
pub struct Brainstem {
    max_steps: usize,
    lifecycle: Lifecycle,
    current_task: Option<String>,
    budget_summary: BudgetSummary,
    steps_used: usize,
    /// Set while throttling: the instant the brainstem will wake. The reset that
    /// the agent is actually waiting on.
    throttle_wake: Option<Instant>,
}

impl View for Brainstem {
    type V = BrainstemView;

    closed spec fn view(&self) -> BrainstemView {
        BrainstemView {
            max_steps: self.max_steps as nat,
            lifecycle: self.lifecycle,
            current_task: optional_text(self.current_task),
            tokens_remaining: self.budget_summary.tokens_remaining as nat,
            next_reset: self.budget_summary.next_reset@,
            steps_used: self.steps_used as nat,
            wake: match self.throttle_wake {
                Some(wake) => Some(wake@),
                None => None,
            },
        }
    }
}

impl Brainstem {
    /// No task takes more steps than it may.
    #[verifier::type_invariant]
    spec fn wf(self) -> bool {
        self.steps_used <= self.max_steps
    }

    /// A brainstem that waits for its first task, each of which may take
    /// `max_steps` commands.
    pub fn new(max_steps: usize, budget_summary: BudgetSummary) -> (brainstem: Self)
        ensures
            brainstem@ == (BrainstemView {
                max_steps: max_steps as nat,
                lifecycle: Lifecycle::Idle,
                current_task: None,
                tokens_remaining: budget_summary.tokens_remaining as nat,
                next_reset: budget_summary.next_reset@,
                steps_used: 0,
                wake: None,
            }),
    {
        Brainstem {
            max_steps,
            lifecycle: Lifecycle::Idle,
            current_task: None,
            budget_summary,
            steps_used: 0,
            throttle_wake: None,
        }
    }

    /// The answer to a status query, with `queue_depth` tasks in the inbox.
    pub fn build_snapshot(&self, queue_depth: usize) -> (snapshot: Snapshot)
        ensures
            snapshot@ == self@.snapshot(queue_depth as nat),
            snapshot@.steps_used <= self@.max_steps,
    {
        proof {
            use_type_invariant(self);
        }
        let next_reset = match (self.lifecycle, self.throttle_wake) {
            (Lifecycle::Throttling, Some(wake)) => wake,
            _ => self.budget_summary.next_reset,
        };
        Snapshot {
            lifecycle: self.lifecycle,
            current_task: self.current_task.clone(),
            tokens_remaining: self.budget_summary.tokens_remaining,
            next_reset,
            queue_depth,
            steps_used: self.steps_used,
        }
    }

    /// Take the budget summary that the mind reports.
    pub fn refresh_budget(&mut self, summary: BudgetSummary)
        ensures
            final(self)@ == old(self)@.informed(summary),
    {
        proof {
            use_type_invariant(&*self);
        }
        self.budget_summary = summary;
    }

    /// Take a task from the inbox: announce it and put its goal to the mind.
    pub fn on_task(&mut self, task: &Task) -> (started: (RunEvent, Perception))
        ensures
            final(self)@ == old(self)@.with_task(task.goal@),
            started.0@ == (EventView::TaskReceived { goal: task.goal@ }),
            started.1@ == (PerceptionView::NewTask { goal: task.goal@ }),
    {
        proof {
            use_type_invariant(&*self);
        }
        self.lifecycle = Lifecycle::Working;
        self.current_task = Some(task.goal.clone());
        self.steps_used = 0;
        (
            RunEvent::TaskReceived { goal: task.goal.clone() },
            Perception::NewTask { goal: task.goal.clone() },
        )
    }

    /// Take the mind's decision, and the budget as it is after it.
    pub fn on_decision(&mut self, decision: Decision, summary: BudgetSummary) -> (decided: (
        RunEvent,
        Next,
    ))
        ensures
            final(self)@ == old(self)@.informed(summary).after_decision(decision@),
            decided.1@ == old(self)@.next(decision@),
            decided.0@ == announcement(old(self)@.next(decision@)),
    {
        proof {
            use_type_invariant(&*self);
        }
        self.budget_summary = summary;
        match decision {
            Decision::Act(command) => {
                if self.steps_used >= self.max_steps {
                    return self.fail_task(TaskFault::NoProgress);
                }
                self.steps_used = self.steps_used + 1;
                let Command::CallTool { call_id, name, input } = command;
                let event = RunEvent::Command { call_id: call_id.clone(), name: name.clone() };
                (event, Next::Actuate(Command::CallTool { call_id, name, input }))
            },
            Decision::Done(outcome) => {
                self.end_task();
                let event = RunEvent::TaskCompleted { outcome: outcome.clone() };
                (event, Next::Report(TaskOutcome::Completed(outcome)))
            },
            Decision::Failed(Reason::Task(fault)) => self.fail_task(fault),
            Decision::Failed(Reason::Service(error)) => {
                self.lifecycle = Lifecycle::Fatal;
                let why: String = error.to_string();
                let event = RunEvent::Terminated { reason: Termination::Fatal(why.clone()) };
                (event, Next::Terminate(Termination::Fatal(why)))
            },
            Decision::Throttle(wake) => {
                self.lifecycle = Lifecycle::Throttling;
                self.throttle_wake = Some(wake);
                (RunEvent::ThrottleSleep { wake }, Next::Sleep(wake))
            },
        }
    }

    fn end_task(&mut self)
        ensures
            final(self)@ == old(self)@.without_task(),
    {
        proof {
            use_type_invariant(&*self);
        }
        self.current_task = None;
        self.steps_used = 0;
        self.lifecycle = Lifecycle::Idle;
    }

    fn fail_task(&mut self, fault: TaskFault) -> (decided: (RunEvent, Next))
        ensures
            final(self)@ == old(self)@.without_task(),
            decided.0@ == (EventView::TaskFailed { reason: fault@ }),
            decided.1@ == NextView::Report(TaskOutcomeView::Failed(fault@)),
    {
        proof {
            use_type_invariant(&*self);
        }
        self.end_task();
        let event = RunEvent::TaskFailed { reason: fault.clone() };
        (event, Next::Report(TaskOutcome::Failed(fault)))
    }

    /// Take what was observed of a command: announce it and put it to the mind.
    pub fn on_observation(&self, observation: Observation) -> (observed: (Vec<RunEvent>, Perception))
        ensures
            event_views(observed.0@) == observation_events(observation@),
            observed.1@ == PerceptionView::Observation(observation@),
    {
        let mut events: Vec<RunEvent> = Vec::new();
        match &observation {
            Observation::ToolResult { call_id, .. } => {
                events.push(RunEvent::CommandResult { call_id: call_id.clone(), ok: true });
            },
            Observation::Recoverable { call_id, error } => {
                let id: String = match call_id {
                    Some(id) => id.clone(),
                    None => "".to_owned(),
                };
                events.push(RunEvent::CommandResult { call_id: id, ok: false });
                events.push(RunEvent::RecoverableObservation { error: error.clone() });
            },
        }
        assert(event_views(events@) =~= observation_events(observation@));
        (events, Perception::Observation(observation))
    }

    /// The throttle is over: go on with the task.
    pub fn on_wake(&mut self) -> (perception: Perception)
        ensures
            final(self)@ == old(self)@.woken(),
            perception@ == PerceptionView::Resume,
    {
        proof {
            use_type_invariant(&*self);
        }
        self.lifecycle = Lifecycle::Working;
        self.throttle_wake = None;
        Perception::Resume
    }

    /// The run was cancelled.
    pub fn on_cancel(&mut self) -> (ended: (RunEvent, Termination))
        ensures
            final(self)@ == (BrainstemView { lifecycle: Lifecycle::Cancelled, ..old(self)@ }),
            ended.0@ == (EventView::Terminated { reason: TerminationView::Cancelled }),
            ended.1@ == TerminationView::Cancelled,
    {
        proof {
            use_type_invariant(&*self);
        }
        self.lifecycle = Lifecycle::Cancelled;
        (RunEvent::Terminated { reason: Termination::Cancelled }, Termination::Cancelled)
    }

    /// The inbox closed: no task will come any more.
    pub fn on_inbox_closed(&mut self) -> (ended: (RunEvent, Termination))
        ensures
            final(self)@ == (BrainstemView { lifecycle: Lifecycle::Stopped, ..old(self)@ }),
            ended.0@ == (EventView::Terminated { reason: TerminationView::Stopped }),
            ended.1@ == TerminationView::Stopped,
    {
        proof {
            use_type_invariant(&*self);
        }
        self.lifecycle = Lifecycle::Stopped;
        (RunEvent::Terminated { reason: Termination::Stopped }, Termination::Stopped)
    }
}

// --- actuation ---

/// What is observed of a call to the tool `name` that came back with `result`.
pub open spec fn observed(
    call_id: Seq<char>,
    name: Seq<char>,
    result: Result<Seq<char>, ToolErrorView>,
) -> ObservationView {
    match result {
        Ok(output) => ObservationView::ToolResult { call_id, output },
        Err(error) => ObservationView::Recoverable {
            call_id: Some(call_id),
            error: RecoverableErrorView::ToolFailed { name, error: error.text() },
        },
    }
}

/// What a tool's result says.
pub open spec fn result_view(result: Result<Json, ToolError>) -> Result<Seq<char>, ToolErrorView> {
    match result {
        Ok(output) => Ok(output@),
        Err(error) => Err(error@),
    }
}

/// What is observed of a call to the tool `name` that came back with `result`.
pub fn observe(call_id: &str, name: &str, result: Result<Json, ToolError>) -> (observation:
    Observation)
    ensures
        observation@ == observed(call_id@, name@, result_view(result)),
{
    match result {
        Ok(output) => Observation::ToolResult { call_id: call_id.to_owned(), output },
        Err(error) => Observation::Recoverable {
            call_id: Some(call_id.to_owned()),
            error: RecoverableError::ToolFailed {
                name: name.to_owned(),
                error: error.to_string(),
            },
        },
    }
}

/// What came of running a command.
pub enum Actuation<Output> {
    /// The tool is unknown or failed: this is observed.
    Observed(Observation),
    /// The tool ran and gave `output` back.
    Ran { call_id: String, name: String, output: Output },
}

/// Run a command: look its tool up and run it. An unknown tool and a failing tool
/// are observations like any other.
pub fn actuate<T: Tool>(registry: &ToolRegistry<T>, command: &Command) -> (actuation: Actuation<
    T::Output,
>)
    ensures
        ({
            let Command::CallTool { call_id, name, input } = *command;
            if registry@.contains_key(name@) {
                exists|result: Result<T::Output, ToolError>| #[trigger]
                    call_ensures(T::execute, (&registry@[name@], &input), result) && match result {
                        Ok(output) => actuation matches Actuation::Ran {
                            call_id: ran_id,
                            name: ran_name,
                            output: ran_output,
                        } && ran_id@ == call_id@ && ran_name@ == name@ && ran_output == output,
                        Err(error) => actuation matches Actuation::Observed(observation)
                            && observation@ == observed(call_id@, name@, Err(error@)),
                    }
            } else {
                actuation matches Actuation::Observed(observation) && observation@ == (
                ObservationView::Recoverable {
                    call_id: Some(call_id@),
                    error: RecoverableErrorView::UnknownTool(name@),
                })
            }
        }),
{
    let Command::CallTool { call_id, name, input } = command;
    match registry.get(name.as_str()) {
        None => Actuation::Observed(
            Observation::Recoverable {
                call_id: Some(call_id.clone()),
                error: RecoverableError::UnknownTool(name.clone()),
            },
        ),
        Some(tool) => {
            let result = tool.execute(input);
            assert(call_ensures(T::execute, (tool, input), result));
            match result {
                Ok(output) => Actuation::Ran { call_id: call_id.clone(), name: name.clone(), output },
                Err(error) => Actuation::Observed(
                    observe(call_id.as_str(), name.as_str(), Err(error)),
                ),
            }
        },
    }
}

/// What is observed of a command whose tool panicked.
pub fn panicked(command: &Command) -> (observation: Observation)
    ensures
        observation@ == ({
            let CommandView::CallTool { call_id, name, .. } = command@;
            ObservationView::Recoverable {
                call_id: Some(call_id),
                error: RecoverableErrorView::ToolFailed { name, error: "tool panicked"@ },
            }
        }),
{
    let Command::CallTool { call_id, name, .. } = command;
    Observation::Recoverable {
        call_id: Some(call_id.clone()),
        error: RecoverableError::ToolFailed {
            name: name.clone(),
            error: "tool panicked".to_owned(),
        },
    }
}

} // verus!
