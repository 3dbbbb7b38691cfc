//! Cognitive types: what the mind perceives and decides.

use vstd::prelude::*;

use crate::error::{AgentError, AgentErrorView};
use crate::json::Json;
use crate::observation::{Observation, ObservationView, Outcome, OutcomeView};
use crate::time::Instant;

pub mod backoff;
pub mod fake;
pub mod laws;
pub mod model;

verus! {

/// A perception passed to the mind: either a new task, an observation from the
/// previous command, or a resume signal after throttling.
#[derive(Debug, PartialEq, Eq)]
pub enum Perception {
    /// Start a new task (resets working memory).
    NewTask { goal: String },
    /// Observation from the previous command.
    Observation(Observation),
    /// Resume after throttling (no new stimulus, working memory unchanged).
    Resume,
}

/// What a [`Perception`] says.
pub enum PerceptionView {
    NewTask { goal: Seq<char> },
    Observation(ObservationView),
    Resume,
}

impl View for Perception {
    type V = PerceptionView;

    open spec fn view(&self) -> PerceptionView {
        match self {
            Perception::NewTask { goal } => PerceptionView::NewTask { goal: goal@ },
            Perception::Observation(observation) => PerceptionView::Observation(observation@),
            Perception::Resume => PerceptionView::Resume,
        }
    }
}

impl Clone for Perception {
    fn clone(&self) -> (copy: Self)
        ensures
            copy@ == self@,
    {
        match self {
            Perception::NewTask { goal } => Perception::NewTask { goal: goal.clone() },
            Perception::Observation(observation) => Perception::Observation(observation.clone()),
            Perception::Resume => Perception::Resume,
        }
    }
}

/// A command the mind wants the brainstem to actuate.
#[derive(Debug, PartialEq, Eq)]
pub enum Command {
    CallTool { call_id: String, name: String, input: Json },
}

/// What a [`Command`] says.
pub enum CommandView {
    CallTool { call_id: Seq<char>, name: Seq<char>, input: Seq<char> },
}

impl View for Command {
    type V = CommandView;

    open spec fn view(&self) -> CommandView {
        match self {
            Command::CallTool { call_id, name, input } => CommandView::CallTool {
                call_id: call_id@,
                name: name@,
                input: input@,
            },
        }
    }
}

impl Clone for Command {
    fn clone(&self) -> (copy: Self)
        ensures
            copy@ == self@,
    {
        match self {
            Command::CallTool { call_id, name, input } => Command::CallTool {
                call_id: call_id.clone(),
                name: name.clone(),
                input: input.clone(),
            },
        }
    }
}

/// A decision from the mind.
#[derive(Debug, PartialEq, Eq)]
pub enum Decision {
    /// Actuate this command.
    Act(Command),
    /// Task completed successfully.
    Done(Outcome),
    /// Task or service failed.
    Failed(Reason),
    /// Token budget exhausted; throttle until this instant.
    Throttle(Instant),
}

/// What a [`Decision`] says. Instants count nanoseconds.
pub enum DecisionView {
    Act(CommandView),
    Done(OutcomeView),
    Failed(ReasonView),
    Throttle(nat),
}

impl View for Decision {
    type V = DecisionView;

    open spec fn view(&self) -> DecisionView {
        match self {
            Decision::Act(command) => DecisionView::Act(command@),
            Decision::Done(outcome) => DecisionView::Done(outcome@),
            Decision::Failed(reason) => DecisionView::Failed(reason@),
            Decision::Throttle(wake) => DecisionView::Throttle(wake@),
        }
    }
}

impl Clone for Decision {
    fn clone(&self) -> (copy: Self)
        ensures
            copy@ == self@,
    {
        match self {
            Decision::Act(command) => Decision::Act(command.clone()),
            Decision::Done(outcome) => Decision::Done(outcome.clone()),
            Decision::Failed(reason) => Decision::Failed(reason.clone()),
            Decision::Throttle(wake) => Decision::Throttle(*wake),
        }
    }
}

/// Why a decision failed: task-scoped or service-scoped.
#[derive(Debug, PartialEq, Eq)]
pub enum Reason {
    /// Task-scoped failure (task ends, service continues).
    Task(TaskFault),
    /// Service-fatal failure (run terminates).
    Service(AgentError),
}

/// What a [`Reason`] says.
pub enum ReasonView {
    Task(TaskFaultView),
    Service(AgentErrorView),
}

impl View for Reason {
    type V = ReasonView;

    open spec fn view(&self) -> ReasonView {
        match self {
            Reason::Task(fault) => ReasonView::Task(fault@),
            Reason::Service(error) => ReasonView::Service(error@),
        }
    }
}

impl Clone for Reason {
    fn clone(&self) -> (copy: Self)
        ensures
            copy@ == self@,
    {
        match self {
            Reason::Task(fault) => Reason::Task(fault.clone()),
            Reason::Service(error) => Reason::Service(error.clone()),
        }
    }
}

/// Task-scoped failure reasons.
#[derive(Debug, PartialEq, Eq)]
pub enum TaskFault {
    /// Step-liveness budget exceeded (non-convergence).
    NoProgress,
    /// The budget window is too small to fund even one decision.
    BudgetTooSmall,
    /// The provider rejected the request (any task-fatal status).
    BadRequest(String),
    /// Malformed model output (unparseable, unusable).
    Malformed(String),
}

/// What a [`TaskFault`] says.
pub enum TaskFaultView {
    NoProgress,
    BudgetTooSmall,
    BadRequest(Seq<char>),
    Malformed(Seq<char>),
}

impl View for TaskFault {
    type V = TaskFaultView;

    open spec fn view(&self) -> TaskFaultView {
        match self {
            TaskFault::NoProgress => TaskFaultView::NoProgress,
            TaskFault::BudgetTooSmall => TaskFaultView::BudgetTooSmall,
            TaskFault::BadRequest(why) => TaskFaultView::BadRequest(why@),
            TaskFault::Malformed(why) => TaskFaultView::Malformed(why@),
        }
    }
}

impl Clone for TaskFault {
    fn clone(&self) -> (copy: Self)
        ensures
            copy@ == self@,
    {
        match self {
            TaskFault::NoProgress => TaskFault::NoProgress,
            TaskFault::BudgetTooSmall => TaskFault::BudgetTooSmall,
            TaskFault::BadRequest(why) => TaskFault::BadRequest(why.clone()),
            TaskFault::Malformed(why) => TaskFault::Malformed(why.clone()),
        }
    }
}

/// The views of perceptions, commands, decisions and their reasons keep everything
/// that they hold.
pub proof fn law_mind_views(
    perception: Perception,
    command: Command,
    decision: Decision,
    reason: Reason,
    fault: TaskFault,
)
    ensures
        perception matches Perception::NewTask { goal } ==> perception@ == (
        PerceptionView::NewTask { goal: goal@ }),
        perception matches Perception::Observation(observation) ==> perception@
            == PerceptionView::Observation(observation@),
        perception matches Perception::Resume ==> perception@ == PerceptionView::Resume,
        command matches Command::CallTool { call_id, name, input } ==> command@ == (
        CommandView::CallTool { call_id: call_id@, name: name@, input: input@ }),
        decision matches Decision::Act(act) ==> decision@ == DecisionView::Act(act@),
        decision matches Decision::Done(outcome) ==> decision@ == DecisionView::Done(outcome@),
        decision matches Decision::Failed(why) ==> decision@ == DecisionView::Failed(why@),
        decision matches Decision::Throttle(wake) ==> decision@ == DecisionView::Throttle(wake@),
        reason matches Reason::Task(inner) ==> reason@ == ReasonView::Task(inner@),
        reason matches Reason::Service(error) ==> reason@ == ReasonView::Service(error@),
        fault matches TaskFault::NoProgress ==> fault@ == TaskFaultView::NoProgress,
        fault matches TaskFault::BudgetTooSmall ==> fault@ == TaskFaultView::BudgetTooSmall,
        fault matches TaskFault::BadRequest(why) ==> fault@ == TaskFaultView::BadRequest(why@),
        fault matches TaskFault::Malformed(why) ==> fault@ == TaskFaultView::Malformed(why@),
{
}

} // verus!
