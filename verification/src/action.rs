//! Actions, what comes of them, and recoverable errors: failures the loop observes
//! and feeds back to the model rather than treating as terminal.

use vstd::prelude::*;
use vstd::string::StringExecFns;

use crate::json::Json;
use crate::text::optional_text;

verus! {

broadcast use vstd::string::group_string_axioms;

/// A failure that the loop **recovers** from: it is observed into memory and the
/// model gets another turn. Never terminates the run.
#[derive(Debug, PartialEq, Eq)]
pub enum RecoverableError {
    /// The model called a tool that is not registered.
    UnknownTool(String),
    /// A registered tool rejected its input or failed.
    ToolFailed { name: String, error: String },
    /// The model produced an action that failed validation.
    MalformedPlan(String),
}

/// What a [`RecoverableError`] says.
pub enum RecoverableErrorView {
    UnknownTool(Seq<char>),
    ToolFailed { name: Seq<char>, error: Seq<char> },
    MalformedPlan(Seq<char>),
}

impl RecoverableErrorView {
    /// The rendering that is fed back to the model.
    pub open spec fn message(self) -> Seq<char> {
        match self {
            RecoverableErrorView::UnknownTool(name) => "error: no tool named '"@ + name
                + "' is available"@,
            RecoverableErrorView::ToolFailed { name, error } => "error: tool '"@ + name
                + "' failed: "@ + error,
            RecoverableErrorView::MalformedPlan(why) => "error: malformed action: "@ + why,
        }
    }
}

impl View for RecoverableError {
    type V = RecoverableErrorView;

    open spec fn view(&self) -> RecoverableErrorView {
        match self {
            RecoverableError::UnknownTool(name) => RecoverableErrorView::UnknownTool(name@),
            RecoverableError::ToolFailed { name, error } => RecoverableErrorView::ToolFailed {
                name: name@,
                error: error@,
            },
            RecoverableError::MalformedPlan(why) => RecoverableErrorView::MalformedPlan(why@),
        }
    }
}

impl Clone for RecoverableError {
    fn clone(&self) -> (copy: Self)
        ensures
            copy@ == self@,
    {
        match self {
            RecoverableError::UnknownTool(name) => RecoverableError::UnknownTool(name.clone()),
            RecoverableError::ToolFailed { name, error } => RecoverableError::ToolFailed {
                name: name.clone(),
                error: error.clone(),
            },
            RecoverableError::MalformedPlan(why) => RecoverableError::MalformedPlan(why.clone()),
        }
    }
}

impl RecoverableError {
    /// A short, model-facing rendering used when feeding the error back as an
    /// observation.
    pub fn message(&self) -> (text: String)
        ensures
            text@ == self@.message(),
    {
        match self {
            RecoverableError::UnknownTool(name) => "error: no tool named '".to_owned().concat(
                name.as_str(),
            ).concat("' is available"),
            RecoverableError::ToolFailed { name, error } => "error: tool '".to_owned().concat(
                name.as_str(),
            ).concat("' failed: ").concat(error.as_str()),
            RecoverableError::MalformedPlan(why) => "error: malformed action: ".to_owned().concat(
                why.as_str(),
            ),
        }
    }
}

/// One step that a planner chose.
#[derive(Debug, PartialEq, Eq)]
pub enum Action {
    /// Call the tool `name`.
    CallTool { call_id: String, name: String, input: Json },
    /// End the run with this answer.
    Finish { message: String },
}

/// What an [`Action`] says.
pub enum ActionView {
    CallTool { call_id: Seq<char>, name: Seq<char>, input: Seq<char> },
    Finish { message: Seq<char> },
}

impl View for Action {
    type V = ActionView;

    open spec fn view(&self) -> ActionView {
        match self {
            Action::CallTool { call_id, name, input } => ActionView::CallTool {
                call_id: call_id@,
                name: name@,
                input: input@,
            },
            Action::Finish { message } => ActionView::Finish { message: message@ },
        }
    }
}

impl Clone for Action {
    fn clone(&self) -> (copy: Self)
        ensures
            copy@ == self@,
    {
        match self {
            Action::CallTool { call_id, name, input } => Action::CallTool {
                call_id: call_id.clone(),
                name: name.clone(),
                input: input.clone(),
            },
            Action::Finish { message } => Action::Finish { message: message.clone() },
        }
    }
}

/// What a sequence of actions says.
pub open spec fn action_views(actions: Seq<Action>) -> Seq<ActionView> {
    actions.map_values(|action: Action| action@)
}

/// A copy of `actions`.
pub fn clone_actions(actions: &Vec<Action>) -> (copy: Vec<Action>)
    ensures
        action_views(copy@) == action_views(actions@),
{
    let copy = actions.clone();
    assert(action_views(copy@) =~= action_views(actions@));
    copy
}

/// What came of an action.
#[derive(Debug, PartialEq, Eq)]
pub enum ActionOutcome {
    /// The tool returned this output.
    ToolResult { call_id: String, name: String, output: Json },
    /// The action failed in a way that the model is told of.
    Recoverable { call_id: Option<String>, error: RecoverableError },
    /// The run is over.
    Finished { message: String },
}

/// What an [`ActionOutcome`] says.
pub enum ActionOutcomeView {
    ToolResult { call_id: Seq<char>, name: Seq<char>, output: Seq<char> },
    Recoverable { call_id: Option<Seq<char>>, error: RecoverableErrorView },
    Finished { message: Seq<char> },
}

impl View for ActionOutcome {
    type V = ActionOutcomeView;

    open spec fn view(&self) -> ActionOutcomeView {
        match self {
            ActionOutcome::ToolResult { call_id, name, output } => ActionOutcomeView::ToolResult {
                call_id: call_id@,
                name: name@,
                output: output@,
            },
            ActionOutcome::Recoverable { call_id, error } => ActionOutcomeView::Recoverable {
                call_id: optional_text(*call_id),
                error: error@,
            },
            ActionOutcome::Finished { message } => ActionOutcomeView::Finished {
                message: message@,
            },
        }
    }
}

impl Clone for ActionOutcome {
    fn clone(&self) -> (copy: Self)
        ensures
            copy@ == self@,
    {
        match self {
            ActionOutcome::ToolResult { call_id, name, output } => ActionOutcome::ToolResult {
                call_id: call_id.clone(),
                name: name.clone(),
                output: output.clone(),
            },
            ActionOutcome::Recoverable { call_id, error } => ActionOutcome::Recoverable {
                call_id: call_id.clone(),
                error: error.clone(),
            },
            ActionOutcome::Finished { message } => ActionOutcome::Finished {
                message: message.clone(),
            },
        }
    }
}

/// What the model is told of an error: which tool it was, and all of the cause.
pub proof fn law_recoverable_messages(name: Seq<char>, error: Seq<char>)
    ensures
        RecoverableErrorView::UnknownTool(name).message() == "error: no tool named '"@ + name
            + "' is available"@,
        (RecoverableErrorView::ToolFailed { name, error }).message() == "error: tool '"@ + name
            + "' failed: "@ + error,
        RecoverableErrorView::MalformedPlan(error).message() == "error: malformed action: "@
            + error,
{
}

/// The views of actions and their outcomes keep everything that they hold.
pub proof fn law_action_views(
    error: RecoverableError,
    action: Action,
    outcome: ActionOutcome,
    actions: Seq<Action>,
)
    ensures
        error matches RecoverableError::UnknownTool(name) ==> error@
            == RecoverableErrorView::UnknownTool(name@),
        error matches RecoverableError::ToolFailed { name, error: why } ==> error@ == (
        RecoverableErrorView::ToolFailed { name: name@, error: why@ }),
        error matches RecoverableError::MalformedPlan(why) ==> error@
            == RecoverableErrorView::MalformedPlan(why@),
        action matches Action::CallTool { call_id, name, input } ==> action@ == (
        ActionView::CallTool { call_id: call_id@, name: name@, input: input@ }),
        action matches Action::Finish { message } ==> action@ == (ActionView::Finish {
            message: message@,
        }),
        outcome matches ActionOutcome::ToolResult { call_id, name, output } ==> outcome@ == (
        ActionOutcomeView::ToolResult { call_id: call_id@, name: name@, output: output@ }),
        outcome matches ActionOutcome::Recoverable { call_id: Some(id), error: why } ==> outcome@
            == (ActionOutcomeView::Recoverable { call_id: Some(id@), error: why@ }),
        outcome matches ActionOutcome::Recoverable { call_id: None, error: why } ==> outcome@ == (
        ActionOutcomeView::Recoverable { call_id: None, error: why@ }),
        outcome matches ActionOutcome::Finished { message } ==> outcome@ == (
        ActionOutcomeView::Finished { message: message@ }),
        action_views(actions).len() == actions.len(),
        forall|i: int| 0 <= i < actions.len() ==> #[trigger] action_views(actions)[i] == actions[i]@,
{
}

} // verus!
