//! Explicit error types. Every failure is a typed enum so the loop can classify
//! it (fatal vs recoverable). Recoverable *domain* values live in
//! [`crate::observation`]; this module holds the `Result` error types returned by
//! providers, tools and planners.

use vstd::prelude::*;
use vstd::string::StringExecFns;

use crate::text::{decimal, decimal_text};

verus! {

broadcast use vstd::string::group_string_axioms;

/// How a [`ProviderError`] should be handled by the mind.
/// Classification is **total**: every `ProviderError` maps to exactly one class.
#[derive(Debug, Clone, Copy, PartialEq, Eq, Structural)]
pub enum ErrorClass {
    /// Retry with backoff, unbounded (network blip, timeout, 429, 5xx, decode).
    Transient,
    /// Credentials, endpoint or model misconfigured (401, 403, 404). Terminates the run.
    ServiceFatal,
    /// Request shaped by the content of a task (400, 422, any other rejected
    /// status). Fails the task; the service keeps serving.
    TaskFatal,
}

/// A failure talking to the model provider.
#[derive(Debug, PartialEq, Eq)]
pub enum ProviderError {
    /// Network / connection failure reaching the provider.
    Transport(String),
    /// The provider returned a non-success HTTP status. Carries the status code
    /// (drives classification) and the response body.
    Api { status: u16, body: String },
    /// The response body could not be decoded into the expected shape.
    Decode(String),
}

/// What a [`ProviderError`] says.
pub enum ProviderErrorView {
    Transport(Seq<char>),
    Api { status: u16, body: Seq<char> },
    Decode(Seq<char>),
}

impl ProviderErrorView {
    /// The class of the error: failures to reach the provider or to read its
    /// answer, 429 and every 5xx are transient; 401, 403 and 404 are fatal to the
    /// service; every other status is fatal to the task.
    pub open spec fn class(self) -> ErrorClass {
        match self {
            ProviderErrorView::Transport(_) => ErrorClass::Transient,
            ProviderErrorView::Decode(_) => ErrorClass::Transient,
            ProviderErrorView::Api { status, .. } => if status == 429 || 500 <= status <= 599 {
                ErrorClass::Transient
            } else if status == 401 || status == 403 || status == 404 {
                ErrorClass::ServiceFatal
            } else {
                ErrorClass::TaskFatal
            },
        }
    }

    /// The error as shown to people.
    pub open spec fn text(self) -> Seq<char> {
        match self {
            ProviderErrorView::Transport(why) => "transport error: "@ + why,
            ProviderErrorView::Api { status, body } => "provider api error: "@ + decimal(
                status as nat,
            ) + ": "@ + body,
            ProviderErrorView::Decode(why) => "could not decode provider response: "@ + why,
        }
    }
}

impl View for ProviderError {
    type V = ProviderErrorView;

    open spec fn view(&self) -> ProviderErrorView {
        match self {
            ProviderError::Transport(why) => ProviderErrorView::Transport(why@),
            ProviderError::Api { status, body } => ProviderErrorView::Api {
                status: *status,
                body: body@,
            },
            ProviderError::Decode(why) => ProviderErrorView::Decode(why@),
        }
    }
}

impl Clone for ProviderError {
    fn clone(&self) -> (copy: Self)
        ensures
            copy@ == self@,
    {
        match self {
            ProviderError::Transport(why) => ProviderError::Transport(why.clone()),
            ProviderError::Api { status, body } => ProviderError::Api {
                status: *status,
                body: body.clone(),
            },
            ProviderError::Decode(why) => ProviderError::Decode(why.clone()),
        }
    }
}

impl ProviderError {
    /// Classify this error for the mind's resilience layer.
    ///
    /// Total by construction: an unlisted 5xx is transient (server-side, may
    /// self-heal); every other unlisted status (4xx, 1xx, 3xx) is task-fatal (the
    /// server actively rejected this request, so it is not blindly retried).
    pub fn class(&self) -> (class: ErrorClass)
        ensures
            class == self@.class(),
    {
        match self {
            ProviderError::Transport(_) => ErrorClass::Transient,
            ProviderError::Decode(_) => ErrorClass::Transient,
            ProviderError::Api { status, .. } => {
                let status: u16 = *status;
                if status == 429 || (500 <= status && status <= 599) {
                    ErrorClass::Transient
                } else if status == 401 || status == 403 || status == 404 {
                    ErrorClass::ServiceFatal
                } else {
                    ErrorClass::TaskFatal
                }
            },
        }
    }

    /// The error as shown to people.
    pub fn to_string(&self) -> (text: String)
        ensures
            text@ == self@.text(),
    {
        match self {
            ProviderError::Transport(why) => "transport error: ".to_owned().concat(why.as_str()),
            ProviderError::Api { status, body } => "provider api error: ".to_owned().concat(
                decimal_text(*status as u64).as_str(),
            ).concat(": ").concat(body.as_str()),
            ProviderError::Decode(why) => "could not decode provider response: ".to_owned().concat(
                why.as_str(),
            ),
        }
    }
}

/// A tool rejected its input or failed during execution. Both are **recoverable**
/// at the loop level — surfaced back to the model, never fatal.
#[derive(Debug, PartialEq, Eq)]
pub enum ToolError {
    InvalidInput(String),
    ExecutionFailed(String),
}

/// What a [`ToolError`] says.
pub enum ToolErrorView {
    InvalidInput(Seq<char>),
    ExecutionFailed(Seq<char>),
}

impl ToolErrorView {
    /// The error as shown to the model.
    pub open spec fn text(self) -> Seq<char> {
        match self {
            ToolErrorView::InvalidInput(why) => "invalid input: "@ + why,
            ToolErrorView::ExecutionFailed(why) => "execution failed: "@ + why,
        }
    }
}

impl View for ToolError {
    type V = ToolErrorView;

    open spec fn view(&self) -> ToolErrorView {
        match self {
            ToolError::InvalidInput(why) => ToolErrorView::InvalidInput(why@),
            ToolError::ExecutionFailed(why) => ToolErrorView::ExecutionFailed(why@),
        }
    }
}

impl Clone for ToolError {
    fn clone(&self) -> (copy: Self)
        ensures
            copy@ == self@,
    {
        match self {
            ToolError::InvalidInput(why) => ToolError::InvalidInput(why.clone()),
            ToolError::ExecutionFailed(why) => ToolError::ExecutionFailed(why.clone()),
        }
    }
}

impl ToolError {
    /// The error as shown to the model.
    pub fn to_string(&self) -> (text: String)
        ensures
            text@ == self@.text(),
    {
        match self {
            ToolError::InvalidInput(why) => "invalid input: ".to_owned().concat(why.as_str()),
            ToolError::ExecutionFailed(why) => "execution failed: ".to_owned().concat(why.as_str()),
        }
    }
}

/// A fatal, run-terminating error.
#[derive(Debug, PartialEq, Eq)]
pub enum AgentError {
    Provider(ProviderError),
}

/// What an [`AgentError`] says.
pub enum AgentErrorView {
    Provider(ProviderErrorView),
}

impl AgentErrorView {
    /// The error as shown to people.
    pub open spec fn text(self) -> Seq<char> {
        match self {
            AgentErrorView::Provider(cause) => "fatal provider error: "@ + cause.text(),
        }
    }
}

impl View for AgentError {
    type V = AgentErrorView;

    open spec fn view(&self) -> AgentErrorView {
        match self {
            AgentError::Provider(cause) => AgentErrorView::Provider(cause@),
        }
    }
}

impl Clone for AgentError {
    fn clone(&self) -> (copy: Self)
        ensures
            copy@ == self@,
    {
        match self {
            AgentError::Provider(cause) => AgentError::Provider(cause.clone()),
        }
    }
}

impl AgentError {
    /// The error as shown to people.
    pub fn to_string(&self) -> (text: String)
        ensures
            text@ == self@.text(),
    {
        match self {
            AgentError::Provider(cause) => "fatal provider error: ".to_owned().concat(
                cause.to_string().as_str(),
            ),
        }
    }
}

impl From<ProviderError> for AgentError {
    fn from(cause: ProviderError) -> (error: AgentError) {
        AgentError::Provider(cause)
    }
}

impl vstd::std_specs::convert::FromSpecImpl<ProviderError> for AgentError {
    open spec fn obeys_from_spec() -> bool {
        true
    }

    open spec fn from_spec(cause: ProviderError) -> AgentError {
        AgentError::Provider(cause)
    }
}

/// Why a planner could not produce a plan.
#[derive(Debug, PartialEq, Eq)]
pub enum PlannerError {
    /// The provider failed; fatal to the run.
    Provider(ProviderError),
    /// The model's answer was no plan; recoverable.
    Malformed(String),
}

/// What a [`PlannerError`] says.
pub enum PlannerErrorView {
    Provider(ProviderErrorView),
    Malformed(Seq<char>),
}

impl View for PlannerError {
    type V = PlannerErrorView;

    open spec fn view(&self) -> PlannerErrorView {
        match self {
            PlannerError::Provider(cause) => PlannerErrorView::Provider(cause@),
            PlannerError::Malformed(why) => PlannerErrorView::Malformed(why@),
        }
    }
}

/// Which statuses mean what: 429 and everything from 500 to 599 passes by itself; 401,
/// 403 and 404 end the service; every other status fails the task. A provider that
/// cannot be reached or understood may be reached or understood the next time.
pub proof fn law_error_classes(status: u16, body: Seq<char>, why: Seq<char>)
    ensures
        (ProviderErrorView::Api { status, body }).class() == ErrorClass::Transient <==> (status == 429
            || 500 <= status <= 599),
        (ProviderErrorView::Api { status, body }).class() == ErrorClass::ServiceFatal <==> (status
            == 401 || status == 403 || status == 404),
        (ProviderErrorView::Api { status, body }).class() == ErrorClass::TaskFatal <==> !(status
            == 429 || 500 <= status <= 599 || status == 401 || status == 403 || status == 404),
        ProviderErrorView::Transport(why).class() == ErrorClass::Transient,
        ProviderErrorView::Decode(why).class() == ErrorClass::Transient,
{
}

/// Errors name their kind and carry their cause in full, and a failing status its
/// number.
pub proof fn law_error_texts(status: u16, body: Seq<char>, why: Seq<char>, error: ProviderErrorView)
    ensures
        ProviderErrorView::Transport(why).text() == "transport error: "@ + why,
        ProviderErrorView::Decode(why).text() == "could not decode provider response: "@ + why,
        (ProviderErrorView::Api { status, body }).text() == "provider api error: "@ + decimal(
            status as nat,
        ) + ": "@ + body,
        AgentErrorView::Provider(error).text() == "fatal provider error: "@ + error.text(),
        ToolErrorView::InvalidInput(why).text() == "invalid input: "@ + why,
        ToolErrorView::ExecutionFailed(why).text() == "execution failed: "@ + why,
{
}

/// The views of errors keep everything that the errors hold.
pub proof fn law_error_views(
    provider: ProviderError,
    tool: ToolError,
    agent: AgentError,
    planner: PlannerError,
)
    ensures
        provider matches ProviderError::Transport(why) ==> provider@
            == ProviderErrorView::Transport(why@),
        provider matches ProviderError::Api { status, body } ==> provider@ == (
        ProviderErrorView::Api { status, body: body@ }),
        provider matches ProviderError::Decode(why) ==> provider@ == ProviderErrorView::Decode(
            why@,
        ),
        tool matches ToolError::InvalidInput(why) ==> tool@ == ToolErrorView::InvalidInput(why@),
        tool matches ToolError::ExecutionFailed(why) ==> tool@ == ToolErrorView::ExecutionFailed(
            why@,
        ),
        agent matches AgentError::Provider(cause) ==> agent@ == AgentErrorView::Provider(cause@),
        planner matches PlannerError::Provider(cause) ==> planner@ == PlannerErrorView::Provider(
            cause@,
        ),
        planner matches PlannerError::Malformed(why) ==> planner@ == PlannerErrorView::Malformed(
            why@,
        ),
{
}

} // verus!
