//! A production-shaped LLM agent: `Mind + Brainstem` — cognition and runtime are
//! split. The [`Brainstem`] drives a perpetual task loop; the [`ModelMind`] decides,
//! and owns the token budget and the resilience logic.
//!
//! Both are state machines over plain values: they are told what happened and when,
//! and say what to do next. Every operation is proved against a contract over the
//! mathematical view of its state; what follows for whole episodes is stated and
//! proved in [`mind::laws`] and [`brainstem::laws`].

pub mod action;
pub mod brainstem;
pub mod budget;
pub mod error;
pub mod event;
pub mod json;
pub mod memory;
pub mod mind;
pub mod observation;
pub mod planner;
pub mod provider;
pub mod queue;
pub mod text;
pub mod time;
pub mod tool;

pub use brainstem::{Brainstem, Lifecycle, Snapshot, Task};
pub use budget::{BudgetState, BudgetSummary, Period, RenewableBudget};
pub use error::{AgentError, ErrorClass, ProviderError, ToolError};
pub use event::{RunEvent, Termination};
pub use json::Json;
pub use mind::fake::FakeMind;
pub use mind::model::ModelMind;
pub use mind::{Command, Decision, Perception, Reason, TaskFault};
pub use observation::{Observation, Outcome, RecoverableError, TaskOutcome};
pub use provider::fake::FakeProvider;
pub use provider::openai::OpenAiProvider;
pub use provider::{Message, ModelRequest, ModelResponse, ToolCall, Usage};
pub use time::{Duration, Instant};
pub use tool::builtins::default_registry;
pub use tool::{Tool, ToolRegistry, ToolSchema};
