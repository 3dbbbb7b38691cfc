//! Planning: turn the current run state into the next batch of actions — a
//! deterministic [`rule::RulePlanner`] for offline runs, or a
//! [`model::ModelPlanner`] backed by a real provider.

use vstd::prelude::*;

use crate::action::{action_views, clone_actions, Action, ActionView};
use crate::error::{PlannerError, PlannerErrorView};
use crate::memory::{Memory, MemoryView};
use crate::provider::Usage;
use crate::text::optional_text;
use crate::tool::{schema_views, ToolSchema, ToolSchemaView};

pub mod model;
pub mod rule;

verus! {

broadcast use vstd::string::group_string_axioms;

/// Everything a planner needs to decide the next step.
pub struct PlanContext<'a> {
    pub step: usize,
    pub max_steps: usize,
    pub memory: &'a Memory,
    pub tools: &'a [ToolSchema],
}

/// What a [`PlanContext`] says.
pub struct PlanContextView {
    pub step: nat,
    pub max_steps: nat,
    pub memory: MemoryView,
    pub tools: Seq<ToolSchemaView>,
}

impl<'a> View for PlanContext<'a> {
    type V = PlanContextView;

    open spec fn view(&self) -> PlanContextView {
        PlanContextView {
            step: self.step as nat,
            max_steps: self.max_steps as nat,
            memory: self.memory@,
            tools: schema_views(self.tools@),
        }
    }
}

/// A planner's decision: optional reasoning, the actions to execute, and the
/// token usage incurred producing it (zero for non-model planners).
#[derive(Debug, PartialEq, Eq)]
pub struct PlanOutput {
    pub thought: Option<String>,
    pub actions: Vec<Action>,
    pub usage: Usage,
}

/// What a [`PlanOutput`] says.
pub struct PlanOutputView {
    pub thought: Option<Seq<char>>,
    pub actions: Seq<ActionView>,
    pub usage: Usage,
}

impl View for PlanOutput {
    type V = PlanOutputView;

    open spec fn view(&self) -> PlanOutputView {
        PlanOutputView {
            thought: optional_text(self.thought),
            actions: action_views(self.actions@),
            usage: self.usage,
        }
    }
}

impl Clone for PlanOutput {
    fn clone(&self) -> (copy: Self)
        ensures
            copy@ == self@,
    {
        PlanOutput {
            thought: self.thought.clone(),
            actions: clone_actions(&self.actions),
            usage: self.usage,
        }
    }
}

/// What the result of planning says.
pub open spec fn plan_view(plan: Result<PlanOutput, PlannerError>) -> Result<
    PlanOutputView,
    PlannerErrorView,
> {
    match plan {
        Ok(output) => Ok(output@),
        Err(error) => Err(error@),
    }
}

/// The views of contexts and plans keep everything that they hold.
pub proof fn law_plan_views<'a>(
    ctx: PlanContext<'a>,
    output: PlanOutput,
    plan: Result<PlanOutput, PlannerError>,
)
    ensures
        ctx@.step == ctx.step,
        ctx@.max_steps == ctx.max_steps,
        ctx@.memory == ctx.memory@,
        ctx@.tools == schema_views(ctx.tools@),
        output@.thought == optional_text(output.thought),
        output@.actions == action_views(output.actions@),
        output@.usage == output.usage,
        plan matches Ok(inner) ==> plan_view(plan) == Ok::<PlanOutputView, PlannerErrorView>(
            inner@,
        ),
        plan matches Err(error) ==> plan_view(plan) == Err::<PlanOutputView, PlannerErrorView>(
            error@,
        ),
{
}

} // verus!
