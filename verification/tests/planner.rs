use agent::action::{Action, ActionOutcome, RecoverableError};
use agent::error::PlannerError;
use agent::memory::Memory;
use agent::planner::model::{build_request, map_response, ModelPlanner};
use agent::planner::rule::RulePlanner;
use agent::planner::PlanContext;
use agent::{FakeProvider, Json, Message, ModelResponse, ProviderError, ToolCall, ToolSchema, Usage};

fn json(text: &str) -> Json {
    Json::parse(text).expect("valid JSON")
}

fn ctx<'a>(memory: &'a Memory, tools: &'a [ToolSchema]) -> PlanContext<'a> {
    PlanContext { step: 1, max_steps: 3, memory, tools }
}

fn context<'a>(memory: &'a Memory) -> PlanContext<'a> {
    ctx(memory, &[])
}

fn calc_schema() -> ToolSchema {
    ToolSchema {
        name: "calculator".into(),
        description: "math".into(),
        parameters: json("{\"type\": \"object\"}"),
    }
}

fn call(id: &str, name: &str, arguments: &str) -> ToolCall {
    ToolCall { id: id.into(), name: name.into(), arguments: json(arguments), readable: true }
}

fn call_action(call_id: &str, expression: &str) -> Action {
    Action::CallTool {
        call_id: call_id.into(),
        name: "calculator".into(),
        input: Json::single_field("expression", expression),
    }
}

#[test]
fn build_request_starts_with_goal_and_renders_outcomes() {
    let mut memory = Memory::new("add 2 and 2");
    memory.record_plan(1, None, vec![call_action("c1", "2+2")]);
    memory.record_outcome(
        1,
        ActionOutcome::Recoverable {
            call_id: Some("c1".into()),
            error: RecoverableError::ToolFailed {
                name: "calculator".into(),
                error: "boom".into(),
            },
        },
    );

    let req = build_request("sys", &context(&memory));
    assert_eq!(req.messages[0], Message::User { content: "add 2 and 2".into() });
    assert!(matches!(req.messages[1], Message::Assistant { .. }));
    // The failed call is replayed as a tool result keyed by call_id.
    match &req.messages[2] {
        Message::Tool { call_id, content } => {
            assert_eq!(call_id, "c1");
            assert!(content.contains("boom"));
        }
        other => panic!("expected Tool message, got {other:?}"),
    }
}

#[test]
fn map_response_tool_calls_become_actions() {
    let r = ModelResponse::tool_call("c1", "calculator", json("{\"expression\": \"1+1\"}"))
        .with_usage(5, 2);
    let out = map_response(r).unwrap();
    assert_eq!(out.usage.total(), 7);
    assert!(matches!(out.actions[0], Action::CallTool { .. }));
}

#[test]
fn map_response_text_becomes_finish() {
    let out = map_response(ModelResponse::text("all done")).unwrap();
    assert_eq!(out.actions, vec![Action::Finish { message: "all done".into() }]);
}

#[test]
fn map_response_empty_is_malformed() {
    let empty = ModelResponse { text: None, tool_calls: vec![], usage: Default::default() };
    assert!(matches!(map_response(empty), Err(PlannerError::Malformed(_))));
}

#[test]
fn plan_next_drives_the_provider() {
    let mut provider = FakeProvider::new(vec![Ok(ModelResponse::tool_call(
        "c1",
        "calculator",
        json("{\"expression\": \"2+2\"}"),
    ))]);
    let planner = ModelPlanner::new();
    let memory = Memory::new("compute 2+2");
    let request = planner.request(&context(&memory));
    let out = planner.plan_next(provider.complete(&request)).unwrap();
    assert!(matches!(out.actions[0], Action::CallTool { .. }));
}

#[test]
fn provider_error_is_fatal_planner_error() {
    let mut provider =
        FakeProvider::new(vec![Err(ProviderError::Transport("offline".into()))]);
    let planner = ModelPlanner::new();
    let memory = Memory::new("g");
    let request = planner.request(&context(&memory));
    assert!(matches!(
        planner.plan_next(provider.complete(&request)),
        Err(PlannerError::Provider(_))
    ));
}

#[test]
fn first_step_calls_calculator_with_goal() {
    let memory = Memory::new("2 + 3");
    let tools = [calc_schema()];
    let out = RulePlanner.plan_next(&ctx(&memory, &tools)).unwrap();
    match &out.actions[0] {
        Action::CallTool { name, input, .. } => {
            assert_eq!(name, "calculator");
            assert_eq!(input.string_field("expression").as_deref(), Some("2 + 3"));
        }
        other => panic!("expected CallTool, got {other:?}"),
    }
}

#[test]
fn finishes_with_result_after_tool() {
    let mut memory = Memory::new("2 + 3");
    memory.record_outcome(
        1,
        ActionOutcome::ToolResult {
            call_id: "rule-1".into(),
            name: "calculator".into(),
            output: json("{\"result\": 5.0}"),
        },
    );
    let tools = [calc_schema()];
    let out = RulePlanner.plan_next(&ctx(&memory, &tools)).unwrap();
    match &out.actions[0] {
        Action::Finish { message } => assert!(message.contains("result")),
        other => panic!("expected Finish, got {other:?}"),
    }
    assert_eq!(
        out.actions,
        vec![Action::Finish { message: "Result: {\"result\":5.0}".into() }]
    );
}

#[test]
fn finishes_when_no_tools() {
    let memory = Memory::new("hello");
    let out = RulePlanner.plan_next(&ctx(&memory, &[])).unwrap();
    assert!(matches!(out.actions[0], Action::Finish { .. }));
    assert_eq!(
        out.actions,
        vec![Action::Finish { message: "No tools available; goal was: hello".into() }]
    );
}

#[test]
fn the_rule_reports_failures_and_has_nothing_to_add_to_a_plan() {
    let mut memory = Memory::new("2 +");
    memory.record_plan(1, None, vec![call_action("rule-1", "2 +")]);
    let tools = [calc_schema()];
    let out = RulePlanner.plan_next(&ctx(&memory, &tools)).unwrap();
    assert_eq!(out.actions, vec![Action::Finish { message: "Nothing to do.".into() }]);

    memory.record_outcome(
        1,
        ActionOutcome::Recoverable {
            call_id: None,
            error: RecoverableError::UnknownTool("calculator".into()),
        },
    );
    let out = RulePlanner.plan_next(&ctx(&memory, &tools)).unwrap();
    assert_eq!(
        out.actions,
        vec![Action::Finish {
            message: "Could not complete the goal: error: no tool named 'calculator' is available"
                .into()
        }]
    );
}

#[test]
fn plans_come_back_as_the_turn_that_they_were() {
    let response = ModelResponse {
        text: Some("let me see".into()),
        tool_calls: vec![
            call("a", "x", "{}"),
            call("b", "y", "[1]"),
        ],
        usage: Usage::default(),
    };
    let plan = map_response(response).unwrap();
    let mut memory = Memory::new("goal");
    memory.record_plan(1, plan.thought, plan.actions);
    let request = build_request("sys", &context(&memory));
    assert_eq!(
        request.messages[1],
        Message::Assistant {
            content: Some("let me see".into()),
            tool_calls: vec![
                call("a", "x", "{}"),
                call("b", "y", "[1]"),
            ],
        }
    );
}

#[test]
fn requests_leave_out_what_says_nothing() {
    let mut memory = Memory::new("goal");
    // A plan without a thought or a call, and the end of the run.
    memory.record_plan(1, None, vec![Action::Finish { message: "done".into() }]);
    memory.record_outcome(1, ActionOutcome::Finished { message: "done".into() });
    // A failure that is not tied to a call.
    memory.record_outcome(
        2,
        ActionOutcome::Recoverable {
            call_id: None,
            error: RecoverableError::MalformedPlan("empty".into()),
        },
    );
    let tools = [calc_schema()];
    let request = ModelPlanner::with_system("be brief").request(&ctx(&memory, &tools));
    assert_eq!(request.system, "be brief");
    assert_eq!(request.tools.len(), 1);
    assert_eq!(
        request.messages,
        vec![
            Message::User { content: "goal".into() },
            Message::User { content: "error: malformed action: empty".into() },
        ]
    );
    assert!(ModelPlanner::new()
        .request(&ctx(&memory, &tools))
        .system
        .starts_with("You are an autonomous agent. Use the available tools"));
}
