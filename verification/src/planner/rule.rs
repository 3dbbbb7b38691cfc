//! A deterministic, offline planner. It runs without a model so that a demo works
//! with no API key. It is a stand-in, not intelligent: it treats
//! the goal as an arithmetic expression to evaluate, then finishes with the
//! result.

use vstd::prelude::*;
use vstd::string::StringExecFns;

use super::{plan_view, PlanContext, PlanContextView, PlanOutput, PlanOutputView};
use crate::action::{action_views, Action, ActionOutcome, ActionOutcomeView, ActionView};
use crate::error::{PlannerError, PlannerErrorView};
use crate::json::{json_single_field, json_string_field, Json};
use crate::memory::{Record, RecordView};
use crate::provider::Usage;
use crate::text::same_text;
use crate::tool::{schema_views, ToolSchema, ToolSchemaView};

verus! {

broadcast use vstd::string::group_string_axioms;

/// Evaluates the goal once via the `calculator` tool, then finishes.
#[derive(Debug, Clone, Copy, PartialEq, Eq, Structural)]
pub struct RulePlanner;

/// A plan that ends the run with `message`.
pub open spec fn finishing(message: Seq<char>) -> PlanOutputView {
    PlanOutputView {
        thought: None,
        actions: seq![ActionView::Finish { message }],
        usage: Usage { input_tokens: 0, output_tokens: 0 },
    }
}

/// Whether one of the tools is the calculator.
pub open spec fn has_calculator(tools: Seq<ToolSchemaView>) -> bool {
    exists|i: int| 0 <= i < tools.len() && (#[trigger] tools[i]).name == "calculator"@
}

/// The plan for a goal that nothing was done for yet.
pub open spec fn opening(goal: Seq<char>, tools: Seq<ToolSchemaView>) -> PlanOutputView {
    if has_calculator(tools) {
        PlanOutputView {
            thought: Some("treat the goal as an expression to evaluate"@),
            actions: seq![
                ActionView::CallTool {
                    call_id: "rule-1"@,
                    name: "calculator"@,
                    input: json_single_field("expression"@, goal),
                },
            ],
            usage: Usage { input_tokens: 0, output_tokens: 0 },
        }
    } else {
        finishing("No tools available; goal was: "@ + goal)
    }
}

/// The rule: evaluate the goal first, then report what the last record says of it.
pub open spec fn rule(ctx: PlanContextView) -> PlanOutputView {
    if ctx.memory.records.len() == 0 {
        opening(ctx.memory.goal, ctx.tools)
    } else {
        match ctx.memory.records.last() {
            RecordView::Outcome { outcome: ActionOutcomeView::ToolResult { output, .. }, .. } => {
                finishing("Result: "@ + output)
            },
            RecordView::Outcome { outcome: ActionOutcomeView::Recoverable { error, .. }, .. } => {
                finishing("Could not complete the goal: "@ + error.message())
            },
            _ => finishing("Nothing to do."@),
        }
    }
}

fn offers_calculator(tools: &[ToolSchema]) -> (yes: bool)
    ensures
        yes == has_calculator(schema_views(tools@)),
{
    let mut i: usize = 0;
    while i < tools.len()
        invariant
            i <= tools@.len(),
            forall|k: int| 0 <= k < i ==> (#[trigger] tools@[k]).name@ != "calculator"@,
        decreases tools@.len() - i,
    {
        if same_text(tools[i].name.as_str(), "calculator") {
            assert(schema_views(tools@)[i as int].name == "calculator"@);
            return true;
        }
        i = i + 1;
    }
    proof {
        let all = schema_views(tools@);
        assert forall|k: int| 0 <= k < all.len() implies (#[trigger] all[k]).name
            != "calculator"@ by {
            assert(tools@[k].name@ != "calculator"@);
        }
    }
    false
}

impl RulePlanner {
    /// A plan that ends the run with `message`.
    pub fn finish(message: String) -> (plan: PlanOutput)
        ensures
            plan@ == finishing(message@),
    {
        let mut actions: Vec<Action> = Vec::new();
        actions.push(Action::Finish { message });
        assert(action_views(actions@) =~= seq![ActionView::Finish { message: message@ }]);
        PlanOutput { thought: None, actions, usage: Usage::default() }
    }

    /// The next plan. The calculator is given the goal as its expression.
    pub fn plan_next(&self, ctx: &PlanContext) -> (plan: Result<PlanOutput, PlannerError>)
        ensures
            plan_view(plan) == Ok::<PlanOutputView, PlannerErrorView>(rule(ctx@)),
            ctx@.memory.records.len() == 0 && has_calculator(ctx@.tools) ==> json_string_field(
                rule(ctx@).actions[0]->input,
                "expression"@,
            ) == Some(ctx@.memory.goal),
    {
        let records: &[Record] = ctx.memory.records();
        if records.len() == 0 {
            return Ok(Self::open(ctx));
        }
        let last: &Record = &records[records.len() - 1];
        assert(last@ == ctx@.memory.records.last());
        let plan = match last {
            Record::Outcome { outcome: ActionOutcome::ToolResult { output, .. }, .. } => {
                Self::finish("Result: ".to_owned().concat(output.text()))
            },
            Record::Outcome { outcome: ActionOutcome::Recoverable { error, .. }, .. } => {
                Self::finish(
                    "Could not complete the goal: ".to_owned().concat(error.message().as_str()),
                )
            },
            _ => Self::finish("Nothing to do.".to_owned()),
        };
        Ok(plan)
    }

    fn open(ctx: &PlanContext) -> (plan: PlanOutput)
        ensures
            plan@ == opening(ctx@.memory.goal, ctx@.tools),
            has_calculator(ctx@.tools) ==> json_string_field(
                plan@.actions[0]->input,
                "expression"@,
            ) == Some(ctx@.memory.goal),
    {
        let goal: &str = ctx.memory.goal();
        if !offers_calculator(ctx.tools) {
            return Self::finish("No tools available; goal was: ".to_owned().concat(goal));
        }
        let action = Action::CallTool {
            call_id: "rule-1".to_owned(),
            name: "calculator".to_owned(),
            input: Json::single_field("expression", goal),
        };
        let mut actions: Vec<Action> = Vec::new();
        actions.push(action);
        assert(action_views(actions@) =~= seq![action@]);
        PlanOutput {
            thought: Some("treat the goal as an expression to evaluate".to_owned()),
            actions,
            usage: Usage::default(),
        }
    }
}

/// The planner acts once at most: on anything that was recorded, it finishes.
pub proof fn law_a_second_plan_finishes(ctx: PlanContextView)
    requires
        ctx.memory.records.len() > 0,
    ensures
        rule(ctx).actions.len() == 1,
        rule(ctx).actions[0] is Finish,
{
}

/// With nothing done yet, the goal is given to the calculator where one of the tools
/// is the calculator, wherever it stands among them; without it the run ends and the
/// goal is told.
pub proof fn law_the_first_plan(ctx: PlanContextView, i: int)
    requires
        ctx.memory.records.len() == 0,
    ensures
        0 <= i < ctx.tools.len() && ctx.tools[i].name == "calculator"@ ==> {
            &&& rule(ctx).thought == Some("treat the goal as an expression to evaluate"@)
            &&& rule(ctx).actions == seq![
                ActionView::CallTool {
                    call_id: "rule-1"@,
                    name: "calculator"@,
                    input: json_single_field("expression"@, ctx.memory.goal),
                },
            ]
        },
        (forall|k: int| 0 <= k < ctx.tools.len() ==> (#[trigger] ctx.tools[k]).name
            != "calculator"@) ==> {
            &&& rule(ctx).thought is None
            &&& rule(ctx).actions == seq![
                ActionView::Finish {
                    message: "No tools available; goal was: "@ + ctx.memory.goal,
                },
            ]
        },
        rule(ctx).usage.input_tokens == 0 && rule(ctx).usage.output_tokens == 0,
{
}

/// With something done, the run ends with what the last record says: the output of
/// the tool, the message of the failure, or that there is nothing to do.
pub proof fn law_the_last_record_is_reported(ctx: PlanContextView)
    requires
        ctx.memory.records.len() > 0,
    ensures
        rule(ctx).thought is None,
        rule(ctx).usage.input_tokens == 0 && rule(ctx).usage.output_tokens == 0,
        rule(ctx).actions == seq![
            ActionView::Finish {
                message: match ctx.memory.records.last() {
                    RecordView::Outcome { outcome, .. } => match outcome {
                        ActionOutcomeView::ToolResult { output, .. } => "Result: "@ + output,
                        ActionOutcomeView::Recoverable { error, .. } =>
                            "Could not complete the goal: "@ + error.message(),
                        ActionOutcomeView::Finished { .. } => "Nothing to do."@,
                    },
                    RecordView::Plan { .. } => "Nothing to do."@,
                },
            },
        ],
{
}

} // verus!
