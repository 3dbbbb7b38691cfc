//! A planner backed by a real model. It rebuilds the chat transcript from memory
//! each turn, and maps the model's native `tool_calls` into [`Action`]s. No
//! hand-rolled JSON-from-prose parsing — the provider already returns structured
//! tool calls.

use vstd::prelude::*;

use super::{plan_view, PlanContext, PlanContextView, PlanOutput, PlanOutputView};
use crate::action::{
    action_views, Action, ActionOutcome, ActionOutcomeView, ActionView,
};
use crate::error::{PlannerError, PlannerErrorView, ProviderError, ProviderErrorView};
use crate::memory::{record_views, Record, RecordView};
use crate::provider::{
    call_views, completion_view, message_views, Message, MessageView, ModelRequest, ModelResponse,
    RequestView, ResponseView, ToolCall, ToolCallView,
};
use crate::tool::clone_schemas;

verus! {

broadcast use vstd::string::group_string_axioms;

/// The system prompt of a planner that was given none.
pub open spec fn default_system() -> Seq<char> {
    "You are an autonomous agent. Use the available tools to accomplish the \
user's goal. Call a tool when you need one; when the goal is complete, reply with a final answer and \
no tool call. If a tool returns an error, read it and correct your next call."@
}

/// Plans by asking a model.
#[derive(Debug, PartialEq, Eq)]
pub struct ModelPlanner {
    system: String,
}

impl View for ModelPlanner {
    type V = Seq<char>;

    /// The system prompt.
    closed spec fn view(&self) -> Seq<char> {
        self.system@
    }
}

impl ModelPlanner {
    /// A planner with the default system prompt.
    pub fn new() -> (planner: Self)
        ensures
            planner@ == default_system(),
    {
        ModelPlanner {
            system: "You are an autonomous agent. Use the available tools to accomplish the \
user's goal. Call a tool when you need one; when the goal is complete, reply with a final answer and \
no tool call. If a tool returns an error, read it and correct your next call.".to_owned(),
        }
    }

    /// A planner with a system prompt of its own.
    pub fn with_system(system: &str) -> (planner: Self)
        ensures
            planner@ == system@,
    {
        ModelPlanner { system: system.to_owned() }
    }

    /// The request to send for the next plan.
    pub fn request(&self, ctx: &PlanContext) -> (request: ModelRequest)
        ensures
            request@ == planning_request(self@, ctx@),
    {
        build_request(self.system.as_str(), ctx)
    }

    /// The next plan, from what came back for the request. A provider error is fatal
    /// to the planner.
    pub fn plan_next(&self, result: Result<ModelResponse, ProviderError>) -> (plan: Result<
        PlanOutput,
        PlannerError,
    >)
        ensures
            plan_view(plan) == planned(completion_view(result)),
    {
        match result {
            Ok(response) => map_response(response),
            Err(error) => Err(PlannerError::Provider(error)),
        }
    }
}

/// The tool calls among some actions, in order.
pub open spec fn calls_among(actions: Seq<ActionView>) -> Seq<ToolCallView>
    decreases actions.len(),
{
    if actions.len() == 0 {
        seq![]
    } else {
        let before = calls_among(actions.drop_last());
        match actions.last() {
            ActionView::CallTool { call_id, name, input } => before.push(
                ToolCallView { id: call_id, name, arguments: input, readable: true },
            ),
            ActionView::Finish { .. } => before,
        }
    }
}

/// The message that a record becomes, if any: a plan is an assistant turn, and a
/// tool's result or error answers its call. A failure that is not tied to a call is
/// a plain note.
pub open spec fn record_message(record: RecordView) -> Option<MessageView> {
    match record {
        RecordView::Plan { thought, actions, .. } => if thought is Some || calls_among(
            actions,
        ).len() > 0 {
            Some(MessageView::Assistant { content: thought, tool_calls: calls_among(actions) })
        } else {
            None
        },
        RecordView::Outcome { outcome, .. } => match outcome {
            ActionOutcomeView::ToolResult { call_id, output, .. } => Some(
                MessageView::Tool { call_id, content: output },
            ),
            ActionOutcomeView::Recoverable { call_id: Some(id), error } => Some(
                MessageView::Tool { call_id: id, content: error.message() },
            ),
            ActionOutcomeView::Recoverable { call_id: None, error } => Some(
                MessageView::User { content: error.message() },
            ),
            ActionOutcomeView::Finished { .. } => None,
        },
    }
}

/// The messages of a transcript, in order.
pub open spec fn transcript(records: Seq<RecordView>) -> Seq<MessageView>
    decreases records.len(),
{
    if records.len() == 0 {
        seq![]
    } else {
        let before = transcript(records.drop_last());
        match record_message(records.last()) {
            Some(message) => before.push(message),
            None => before,
        }
    }
}

/// The request for the next plan: the goal, then the transcript, with all tools.
pub open spec fn planning_request(system: Seq<char>, ctx: PlanContextView) -> RequestView {
    RequestView {
        system,
        messages: seq![MessageView::User { content: ctx.memory.goal }] + transcript(
            ctx.memory.records,
        ),
        tools: ctx.tools,
    }
}

/// The actions of some tool calls, in order.
pub open spec fn call_actions(calls: Seq<ToolCallView>) -> Seq<ActionView> {
    calls.map_values(
        |call: ToolCallView|
            ActionView::CallTool { call_id: call.id, name: call.name, input: call.arguments },
    )
}

/// The plan of what came back from the provider.
pub open spec fn planned(result: Result<ResponseView, ProviderErrorView>) -> Result<
    PlanOutputView,
    PlannerErrorView,
> {
    match result {
        Err(error) => Err(PlannerErrorView::Provider(error)),
        Ok(response) => if response.tool_calls.len() > 0 {
            Ok(
                PlanOutputView {
                    thought: response.text,
                    actions: call_actions(response.tool_calls),
                    usage: response.usage,
                },
            )
        } else {
            match response.text {
                Some(text) => Ok(
                    PlanOutputView {
                        thought: None,
                        actions: seq![ActionView::Finish { message: text }],
                        usage: response.usage,
                    },
                ),
                None => Err(
                    PlannerErrorView::Malformed("model returned neither text nor tool calls"@),
                ),
            }
        },
    }
}

fn take_calls(actions: &Vec<Action>) -> (calls: Vec<ToolCall>)
    ensures
        call_views(calls@) == calls_among(action_views(actions@)),
{
    let ghost all = action_views(actions@);
    let mut calls: Vec<ToolCall> = Vec::new();
    let mut i: usize = 0;
    assert(all.take(0) =~= seq![]);
    assert(call_views(calls@) =~= seq![]);
    while i < actions.len()
        invariant
            i <= actions@.len(),
            all == action_views(actions@),
            call_views(calls@) == calls_among(all.take(i as int)),
        decreases actions@.len() - i,
    {
        proof {
            assert(all.take(i + 1).drop_last() =~= all.take(i as int));
            assert(all.take(i + 1).last() == actions@[i as int]@);
        }
        let ghost before = call_views(calls@);
        match &actions[i] {
            Action::CallTool { call_id, name, input } => {
                calls.push(
                    ToolCall {
                        id: call_id.clone(),
                        name: name.clone(),
                        arguments: input.clone(),
                        readable: true,
                    },
                );
                assert(call_views(calls@) =~= before.push(
                    ToolCallView { id: call_id@, name: name@, arguments: input@, readable: true },
                ));
            },
            Action::Finish { .. } => {},
        }
        i = i + 1;
    }
    assert(all.take(i as int) =~= all);
    calls
}

fn take_record(record: &Record) -> (message: Option<Message>)
    ensures
        message is Some <==> record_message(record@) is Some,
        message is Some ==> message->0@ == record_message(record@)->0,
{
    match record {
        Record::Plan { thought, actions, .. } => {
            let tool_calls = take_calls(actions);
            if thought.is_some() || tool_calls.len() > 0 {
                Some(Message::Assistant { content: thought.clone(), tool_calls })
            } else {
                None
            }
        },
        Record::Outcome { outcome, .. } => match outcome {
            ActionOutcome::ToolResult { call_id, output, .. } => Some(
                Message::Tool { call_id: call_id.clone(), content: output.text().to_owned() },
            ),
            ActionOutcome::Recoverable { call_id, error } => match call_id {
                // A failed tool call is replayed as that call's (error) result.
                Some(id) => Some(Message::Tool { call_id: id.clone(), content: error.message() }),
                // A failure not tied to a call goes back as a plain nudge.
                None => Some(Message::User { content: error.message() }),
            },
            ActionOutcome::Finished { .. } => None,
        },
    }
}

/// Rebuild the full, stateless request from run memory.
pub fn build_request(system: &str, ctx: &PlanContext) -> (request: ModelRequest)
    ensures
        request@ == planning_request(system@, ctx@),
{
    let ghost goal = MessageView::User { content: ctx@.memory.goal };
    let ghost all = ctx@.memory.records;
    let mut messages: Vec<Message> = Vec::new();
    messages.push(Message::User { content: ctx.memory.goal().to_owned() });
    let records: &[Record] = ctx.memory.records();
    let mut i: usize = 0;
    assert(all.take(0) =~= seq![]);
    assert(message_views(messages@) =~= seq![goal] + seq![]);
    while i < records.len()
        invariant
            i <= records@.len(),
            record_views(records@) == all,
            message_views(messages@) == seq![goal] + transcript(all.take(i as int)),
        decreases records@.len() - i,
    {
        proof {
            assert(all.take(i + 1).drop_last() =~= all.take(i as int));
            assert(all.take(i + 1).last() == records@[i as int]@);
        }
        let ghost before = message_views(messages@);
        match take_record(&records[i]) {
            Some(message) => {
                messages.push(message);
                assert(message_views(messages@) =~= before.push(message@));
                assert(before.push(message@) =~= seq![goal] + transcript(all.take(i as int)).push(
                    message@,
                ));
            },
            None => {},
        }
        i = i + 1;
    }
    assert(all.take(i as int) =~= all);
    ModelRequest { system: system.to_owned(), messages, tools: clone_schemas(ctx.tools) }
}

/// Map a model response into a plan. Tool calls become `CallTool`; a text-only
/// response is a `Finish`; an empty response is a recoverable malformed plan.
pub fn map_response(response: ModelResponse) -> (plan: Result<PlanOutput, PlannerError>)
    ensures
        plan_view(plan) == planned(Ok(response@)),
{
    let usage = response.usage;
    if response.tool_calls.len() > 0 {
        let calls = &response.tool_calls;
        let mut actions: Vec<Action> = Vec::new();
        let mut i: usize = 0;
        while i < calls.len()
            invariant
                i <= calls@.len(),
                actions@.len() == i,
                forall|k: int|
                    0 <= k < i ==> (#[trigger] actions@[k])@ == (ActionView::CallTool {
                        call_id: calls@[k].id@,
                        name: calls@[k].name@,
                        input: calls@[k].arguments@,
                    }),
            decreases calls@.len() - i,
        {
            let call = &calls[i];
            actions.push(
                Action::CallTool {
                    call_id: call.id.clone(),
                    name: call.name.clone(),
                    input: call.arguments.clone(),
                },
            );
            i = i + 1;
        }
        assert(action_views(actions@) =~= call_actions(response@.tool_calls));
        Ok(PlanOutput { thought: response.text, actions, usage })
    } else {
        match response.text {
            Some(text) => {
                let mut actions: Vec<Action> = Vec::new();
                actions.push(Action::Finish { message: text });
                assert(action_views(actions@) =~= seq![ActionView::Finish { message: text@ }]);
                Ok(PlanOutput { thought: None, actions, usage })
            },
            None => Err(
                PlannerError::Malformed("model returned neither text nor tool calls".to_owned()),
            ),
        }
    }
}

/// A plan of readable tool calls that is recorded comes back in the next request as
/// the assistant turn that it was: with the same text and the same calls.
pub proof fn law_plans_are_replayed_as_they_came(response: ResponseView, step: nat)
    requires
        response.tool_calls.len() > 0,
        forall|i: int|
            0 <= i < response.tool_calls.len() ==> (#[trigger] response.tool_calls[i]).readable,
    ensures
        planned(Ok(response)) matches Ok(plan) && record_message(
            RecordView::Plan { step, thought: plan.thought, actions: plan.actions },
        ) == Some(
            MessageView::Assistant { content: response.text, tool_calls: response.tool_calls },
        ),
{
    lemma_calls_of_call_actions(response.tool_calls);
}

proof fn lemma_calls_of_call_actions(calls: Seq<ToolCallView>)
    requires
        forall|i: int| 0 <= i < calls.len() ==> (#[trigger] calls[i]).readable,
    ensures
        calls_among(call_actions(calls)) == calls,
    decreases calls.len(),
{
    if calls.len() == 0 {
        assert(call_actions(calls) =~= seq![]);
        assert(calls =~= seq![]);
    } else {
        let actions = call_actions(calls);
        lemma_calls_of_call_actions(calls.drop_last());
        assert(actions.drop_last() =~= call_actions(calls.drop_last()));
        assert(calls.drop_last().push(calls.last()) =~= calls);
    }
}

/// The transcript of a longer memory begins with the transcript of the shorter one:
/// nothing that the model was told is taken back.
pub proof fn law_requests_only_grow(records: Seq<RecordView>, record: RecordView)
    ensures
        transcript(records).is_prefix_of(transcript(records.push(record))),
{
    assert(records.push(record).drop_last() =~= records);
}

/// The default prompt tells the model to use its tools.
pub proof fn law_the_default_prompt()
    ensures
        default_system() == "You are an autonomous agent. Use the available tools to accomplish the \
user's goal. Call a tool when you need one; when the goal is complete, reply with a final answer and \
no tool call. If a tool returns an error, read it and correct your next call."@,
{
}

/// A request for a plan starts with the goal, goes on with the transcript, and
/// carries the system prompt and every tool.
pub proof fn law_requests_start_with_the_goal(system: Seq<char>, ctx: PlanContextView)
    ensures
        ({
            let request = planning_request(system, ctx);
            &&& request.system == system
            &&& request.tools == ctx.tools
            &&& request.messages.len() >= 1
            &&& request.messages[0] == (MessageView::User { content: ctx.memory.goal })
            &&& request.messages.drop_first() == transcript(ctx.memory.records)
        }),
{
    assert(planning_request(system, ctx).messages.drop_first() =~= transcript(ctx.memory.records));
}

/// What each outcome adds to a transcript: a result its output and a failure its
/// message, under the call that it belongs to where there is one. The end of the run
/// adds nothing.
pub proof fn law_outcomes_are_told(
    records: Seq<RecordView>,
    step: nat,
    outcome: ActionOutcomeView,
)
    ensures
        transcript(seq![]) == Seq::<MessageView>::empty(),
        ({
            let before = transcript(records);
            let after = transcript(records.push(RecordView::Outcome { step, outcome }));
            match outcome {
                ActionOutcomeView::ToolResult { call_id, output, .. } => after == before.push(
                    MessageView::Tool { call_id, content: output },
                ),
                ActionOutcomeView::Recoverable { call_id: Some(id), error } => after
                    == before.push(MessageView::Tool { call_id: id, content: error.message() }),
                ActionOutcomeView::Recoverable { call_id: None, error } => after == before.push(
                    MessageView::User { content: error.message() },
                ),
                ActionOutcomeView::Finished { .. } => after == before,
            }
        }),
{
    let all = records.push(RecordView::Outcome { step, outcome });
    assert(all.drop_last() =~= records);
}

/// What a plan adds to a transcript: one assistant turn with its thought and its
/// calls, unless it has neither.
pub proof fn law_plans_are_told(
    records: Seq<RecordView>,
    step: nat,
    thought: Option<Seq<char>>,
    actions: Seq<ActionView>,
)
    ensures
        ({
            let before = transcript(records);
            let after = transcript(records.push(RecordView::Plan { step, thought, actions }));
            let calls = calls_among(actions);
            if thought is Some || calls.len() > 0 {
                after == before.push(
                    MessageView::Assistant { content: thought, tool_calls: calls },
                )
            } else {
                after == before
            }
        }),
{
    let all = records.push(RecordView::Plan { step, thought, actions });
    assert(all.drop_last() =~= records);
}

/// The calls among actions are those of the parts, in order: a call to a tool counts,
/// with its own id, name and input, and a finish does not.
pub proof fn law_calls_among_actions(
    first: Seq<ActionView>,
    second: Seq<ActionView>,
    call_id: Seq<char>,
    name: Seq<char>,
    input: Seq<char>,
    message: Seq<char>,
)
    ensures
        calls_among(first + second) == calls_among(first) + calls_among(second),
        calls_among(seq![ActionView::CallTool { call_id, name, input }]) == seq![
            ToolCallView { id: call_id, name, arguments: input, readable: true },
        ],
        calls_among(seq![ActionView::Finish { message }]) == Seq::<ToolCallView>::empty(),
        calls_among(seq![]) == Seq::<ToolCallView>::empty(),
    decreases second.len(),
{
    reveal_with_fuel(calls_among, 2);
    if second.len() == 0 {
        assert(first + second =~= first);
        assert(calls_among(first) + calls_among(second) =~= calls_among(first));
    } else {
        let front = second.drop_last();
        law_calls_among_actions(first, front, call_id, name, input, message);
        assert((first + second).drop_last() =~= first + front);
        assert(calls_among(first + second) =~= calls_among(first) + calls_among(second));
    }
    let call = seq![ActionView::CallTool { call_id, name, input }];
    let finish = seq![ActionView::Finish { message }];
    assert(call.drop_last() =~= seq![]);
    assert(finish.drop_last() =~= seq![]);
    assert(calls_among(call) =~= seq![
        ToolCallView { id: call_id, name, arguments: input, readable: true },
    ]);
}

/// What a response plans: one call for each tool call, in order and with its own id,
/// name and arguments, with the text as the thought; without calls, to finish with
/// the text, whatever it is.
pub proof fn law_responses_become_plans(response: ResponseView, i: int)
    ensures
        response.tool_calls.len() > 0 ==> (planned(Ok(response)) matches Ok(plan) && {
            &&& plan.thought == response.text
            &&& plan.usage == response.usage
            &&& plan.actions.len() == response.tool_calls.len()
            &&& 0 <= i < response.tool_calls.len() ==> plan.actions[i] == (ActionView::CallTool {
                call_id: response.tool_calls[i].id,
                name: response.tool_calls[i].name,
                input: response.tool_calls[i].arguments,
            })
        }),
        response.tool_calls.len() == 0 && response.text is Some ==> (planned(Ok(response))
            matches Ok(plan) && {
            &&& plan.thought is None
            &&& plan.usage == response.usage
            &&& plan.actions == seq![ActionView::Finish { message: response.text->0 }]
        }),
{
}

/// Only a provider error, or a response with neither text nor calls, is no plan.
pub proof fn law_only_empty_responses_are_no_plan(
    response: ResponseView,
    error: ProviderErrorView,
)
    ensures
        planned(Ok(response)) is Err <==> response.tool_calls.len() == 0 && response.text is None,
        planned(Ok(response)) is Err ==> planned(Ok(response)) == Err::<
            PlanOutputView,
            PlannerErrorView,
        >(PlannerErrorView::Malformed("model returned neither text nor tool calls"@)),
        planned(Err(error)) == Err::<PlanOutputView, PlannerErrorView>(
            PlannerErrorView::Provider(error),
        ),
{
}

} // verus!
