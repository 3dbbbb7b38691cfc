//! Observations and outcomes.
//!
//! A bad action or a failed tool becomes a [`RecoverableError`] — recorded and fed
//! back to the model — not a terminal state.

use vstd::prelude::*;
use vstd::string::StringExecFns;

use crate::json::Json;
use crate::mind::{TaskFault, TaskFaultView};
use crate::text::optional_text;

verus! {

broadcast use vstd::string::group_string_axioms;

/// A failure that the loop **recovers** from: it is observed into memory and the
/// model gets another turn. Never terminates the run.
#[derive(Debug, PartialEq, Eq)]
pub enum RecoverableError {
    /// The model called a tool that is not registered.
    UnknownTool(String),
    /// A registered tool rejected its input or failed.
    ToolFailed { name: String, error: String },
}

/// What a [`RecoverableError`] says.
pub enum RecoverableErrorView {
    UnknownTool(Seq<char>),
    ToolFailed { name: Seq<char>, error: Seq<char> },
}

impl RecoverableErrorView {
    /// The rendering that is fed back to the model.
    pub open spec fn message(self) -> Seq<char> {
        match self {
            RecoverableErrorView::UnknownTool(name) => "error: no tool named '"@ + name
                + "' is available"@,
            RecoverableErrorView::ToolFailed { name, error } => "error: tool '"@ + name
                + "' failed: "@ + error,
        }
    }
}

impl View for RecoverableError {
    type V = RecoverableErrorView;

    open spec fn view(&self) -> RecoverableErrorView {
        match self {
            RecoverableError::UnknownTool(name) => RecoverableErrorView::UnknownTool(name@),
            RecoverableError::ToolFailed { name, error } => RecoverableErrorView::ToolFailed {
                name: name@,
                error: error@,
            },
        }
    }
}

impl Clone for RecoverableError {
    fn clone(&self) -> (copy: Self)
        ensures
            copy@ == self@,
    {
        match self {
            RecoverableError::UnknownTool(name) => RecoverableError::UnknownTool(name.clone()),
            RecoverableError::ToolFailed { name, error } => RecoverableError::ToolFailed {
                name: name.clone(),
                error: error.clone(),
            },
        }
    }
}

impl RecoverableError {
    /// A short, model-facing rendering used when feeding the error back as an
    /// observation.
    pub fn message(&self) -> (text: String)
        ensures
            text@ == self@.message(),
    {
        match self {
            RecoverableError::UnknownTool(name) => "error: no tool named '".to_owned().concat(
                name.as_str(),
            ).concat("' is available"),
            RecoverableError::ToolFailed { name, error } => "error: tool '".to_owned().concat(
                name.as_str(),
            ).concat("' failed: ").concat(error.as_str()),
        }
    }

    /// The error as shown to people: the same as its message.
    pub fn to_string(&self) -> (text: String)
        ensures
            text@ == self@.message(),
    {
        self.message()
    }
}

/// The result of actuating a command: a tool result or a recoverable error.
#[derive(Debug, PartialEq, Eq)]
pub enum Observation {
    /// A tool call succeeded and returned this output.
    ToolResult { call_id: String, output: Json },
    /// A recoverable error occurred (tool failed, unknown tool, etc.).
    Recoverable { call_id: Option<String>, error: RecoverableError },
}

/// What an [`Observation`] says.
pub enum ObservationView {
    ToolResult { call_id: Seq<char>, output: Seq<char> },
    Recoverable { call_id: Option<Seq<char>>, error: RecoverableErrorView },
}

impl View for Observation {
    type V = ObservationView;

    open spec fn view(&self) -> ObservationView {
        match self {
            Observation::ToolResult { call_id, output } => ObservationView::ToolResult {
                call_id: call_id@,
                output: output@,
            },
            Observation::Recoverable { call_id, error } => ObservationView::Recoverable {
                call_id: optional_text(*call_id),
                error: error@,
            },
        }
    }
}

impl Clone for Observation {
    fn clone(&self) -> (copy: Self)
        ensures
            copy@ == self@,
    {
        match self {
            Observation::ToolResult { call_id, output } => Observation::ToolResult {
                call_id: call_id.clone(),
                output: output.clone(),
            },
            Observation::Recoverable { call_id, error } => Observation::Recoverable {
                call_id: call_id.clone(),
                error: error.clone(),
            },
        }
    }
}

/// A successful task result (the final answer).
#[derive(Debug, PartialEq, Eq)]
pub struct Outcome {
    pub message: String,
}

/// What an [`Outcome`] says.
pub struct OutcomeView {
    pub message: Seq<char>,
}

impl View for Outcome {
    type V = OutcomeView;

    open spec fn view(&self) -> OutcomeView {
        OutcomeView { message: self.message@ }
    }
}

impl Clone for Outcome {
    fn clone(&self) -> (copy: Self)
        ensures
            copy@ == self@,
    {
        Outcome { message: self.message.clone() }
    }
}

/// The result of a task: completed or failed.
#[derive(Debug, PartialEq, Eq)]
pub enum TaskOutcome {
    Completed(Outcome),
    Failed(TaskFault),
}

/// What a [`TaskOutcome`] says.
pub enum TaskOutcomeView {
    Completed(OutcomeView),
    Failed(TaskFaultView),
}

impl View for TaskOutcome {
    type V = TaskOutcomeView;

    open spec fn view(&self) -> TaskOutcomeView {
        match self {
            TaskOutcome::Completed(outcome) => TaskOutcomeView::Completed(outcome@),
            TaskOutcome::Failed(fault) => TaskOutcomeView::Failed(fault@),
        }
    }
}

impl Clone for TaskOutcome {
    fn clone(&self) -> (copy: Self)
        ensures
            copy@ == self@,
    {
        match self {
            TaskOutcome::Completed(outcome) => TaskOutcome::Completed(outcome.clone()),
            TaskOutcome::Failed(fault) => TaskOutcome::Failed(fault.clone()),
        }
    }
}

/// What the model is told of an error: which tool it was, and all of the cause.
pub proof fn law_recoverable_messages(name: Seq<char>, error: Seq<char>)
    ensures
        RecoverableErrorView::UnknownTool(name).message() == "error: no tool named '"@ + name
            + "' is available"@,
        (RecoverableErrorView::ToolFailed { name, error }).message() == "error: tool '"@ + name
            + "' failed: "@ + error,
{
}

/// The views of observations and outcomes keep everything that they hold.
pub proof fn law_observation_views(
    error: RecoverableError,
    observation: Observation,
    outcome: Outcome,
    task: TaskOutcome,
)
    ensures
        error matches RecoverableError::UnknownTool(name) ==> error@
            == RecoverableErrorView::UnknownTool(name@),
        error matches RecoverableError::ToolFailed { name, error: why } ==> error@ == (
        RecoverableErrorView::ToolFailed { name: name@, error: why@ }),
        observation matches Observation::ToolResult { call_id, output } ==> observation@ == (
        ObservationView::ToolResult { call_id: call_id@, output: output@ }),
        observation matches Observation::Recoverable { call_id: Some(id), error: why }
            ==> observation@ == (ObservationView::Recoverable {
            call_id: Some(id@),
            error: why@,
        }),
        observation matches Observation::Recoverable { call_id: None, error: why } ==> observation@
            == (ObservationView::Recoverable { call_id: None, error: why@ }),
        outcome@.message == outcome.message@,
        task matches TaskOutcome::Completed(answer) ==> task@ == TaskOutcomeView::Completed(
            answer@,
        ),
        task matches TaskOutcome::Failed(fault) ==> task@ == TaskOutcomeView::Failed(fault@),
{
}

} // verus!
