use agent::brainstem::{actuate, observe, panicked, Actuation, Next};
use agent::mind::model::{Attempt, Failure};
use agent::tool::arithmetic::{Op, Program};
use agent::tool::builtins::CalculatorTool;
use agent::{
    default_registry, Brainstem, BudgetSummary, Command, Decision, Duration, FakeMind,
    FakeProvider, Instant, Json, Lifecycle, Message, ModelMind, ModelRequest, ModelResponse,
    Observation, Outcome, Perception, Period, ProviderError, RecoverableError, RenewableBudget,
    RunEvent, Task, TaskFault, TaskOutcome, Termination, ToolError, ToolRegistry, Usage,
};

fn json(text: &str) -> Json {
    Json::parse(text).expect("valid JSON")
}

/// Runs a program on floating-point numbers.
fn evaluate(program: &Program) -> Result<Json, ToolError> {
    let mut stack: Vec<f64> = Vec::new();
    for op in &program.ops {
        if let Op::Push(text) = op {
            stack.push(text.parse().expect("the text of a number"));
            continue;
        }
        let upper = stack.pop().expect("an operand");
        if let Op::Neg = op {
            stack.push(-upper);
            continue;
        }
        let lower = stack.pop().expect("a second operand");
        match op {
            Op::Add => stack.push(lower + upper),
            Op::Sub => stack.push(lower - upper),
            Op::Mul => stack.push(lower * upper),
            _ => {
                if upper == 0.0 {
                    return program.conclude(None);
                }
                stack.push(lower / upper);
            }
        }
    }
    let top = match stack.last() {
        Some(value) => json(&serde_json::Value::from(*value).to_string()),
        None => Json::null(),
    };
    program.conclude(Some(&top))
}

fn at(secs: u64) -> Instant {
    Instant::at(Duration::from_secs(secs))
}

/// The cognition of a service: a model-backed mind with a scripted provider, or a
/// scripted mind.
enum Cognition {
    Model(ModelMind, FakeProvider),
    Fake(FakeMind),
}

/// Where a service stands when it has nothing more to do by itself.
#[derive(Debug, PartialEq)]
enum Stop {
    Reported(TaskOutcome),
    Terminated(Termination),
    /// Asleep until this instant.
    Asleep(Instant),
    /// Waiting for a decision that never comes.
    Waiting,
}

/// A service on a clock that only waiting moves.
struct Service {
    brainstem: Brainstem,
    cognition: Cognition,
    registry: ToolRegistry<CalculatorTool>,
    now: Instant,
    events: Vec<RunEvent>,
}

impl Service {
    fn new(cognition: Cognition, max_steps: usize) -> Self {
        let registry = default_registry();
        let now = at(0);
        let cognition = match cognition {
            Cognition::Model(mut mind, provider) => {
                mind.set_tools(registry.schemas());
                Cognition::Model(mind, provider)
            }
            fake => fake,
        };
        let summary = match &cognition {
            Cognition::Model(mind, _) => mind.budget_summary(now),
            Cognition::Fake(mind) => mind.budget_summary(),
        };
        Service {
            brainstem: Brainstem::new(max_steps, summary),
            cognition,
            registry,
            now,
            events: Vec::new(),
        }
    }

    fn summary(&self) -> BudgetSummary {
        match &self.cognition {
            Cognition::Model(mind, _) => mind.budget_summary(self.now),
            Cognition::Fake(mind) => mind.budget_summary(),
        }
    }

    fn wait(&mut self, span: Duration) {
        let nanos = self.now.since_origin().as_nanos() + span.as_nanos();
        self.now = Instant::at(Duration::from_nanos(nanos as u64));
    }

    fn decide(&mut self, perception: Perception) -> Option<Decision> {
        if let Cognition::Fake(mind) = &mut self.cognition {
            assert!(mind.can_decide(), "the script is over");
            return mind.decide(&perception);
        }
        if let Cognition::Model(mind, _) = &mut self.cognition {
            mind.fold(&perception);
        }
        loop {
            let now = self.now;
            let Cognition::Model(mind, _) = &mut self.cognition else { unreachable!() };
            let (event, attempt) = mind.begin(now);
            self.events.extend(event);
            let request = match attempt {
                Attempt::Decide(decision) => return Some(decision),
                Attempt::Call(request) => request,
            };
            loop {
                let now = self.now;
                let Cognition::Model(mind, provider) = &mut self.cognition else { unreachable!() };
                let error = match provider.complete(&request) {
                    Ok(response) => {
                        let (event, decision) = mind.receive(now, response);
                        self.events.extend(event);
                        match decision {
                            Some(decision) => return Some(decision),
                            None => break,
                        }
                    }
                    Err(error) => error,
                };
                let (event, failure) = mind.fail(error);
                self.events.extend(event);
                match failure {
                    Failure::Decide(decision) => return Some(decision),
                    Failure::Retry { delay, .. } => self.wait(delay),
                }
            }
        }
    }

    fn actuate(&self, command: &Command) -> Observation {
        match actuate(&self.registry, command) {
            Actuation::Observed(observation) => observation,
            Actuation::Ran { call_id, name, output } => {
                observe(&call_id, &name, evaluate(&output))
            }
        }
    }

    fn go_on(&mut self, perception: Perception) -> Stop {
        let mut perception = perception;
        loop {
            self.brainstem.refresh_budget(self.summary());
            let Some(decision) = self.decide(perception) else { return Stop::Waiting };
            let summary = self.summary();
            let (event, next) = self.brainstem.on_decision(decision, summary);
            self.events.push(event);
            match next {
                Next::Actuate(command) => {
                    let observation = self.actuate(&command);
                    let (events, next) = self.brainstem.on_observation(observation);
                    self.events.extend(events);
                    perception = next;
                }
                Next::Sleep(wake) => return Stop::Asleep(wake),
                Next::Report(outcome) => return Stop::Reported(outcome),
                Next::Terminate(reason) => return Stop::Terminated(reason),
            }
        }
    }

    /// Submits a task and lets the service work until it reports, ends or sleeps.
    fn start(&mut self, goal: &str) -> Stop {
        let (event, perception) = self.brainstem.on_task(&Task { goal: goal.into() });
        self.events.push(event);
        self.go_on(perception)
    }

    /// Submits a task and sleeps through every throttle.
    fn run(&mut self, goal: &str) -> Stop {
        let mut stop = self.start(goal);
        while let Stop::Asleep(wake) = stop {
            self.now = wake;
            let perception = self.brainstem.on_wake();
            stop = self.go_on(perception);
        }
        stop
    }

    fn cancel(&mut self) -> Termination {
        let (event, reason) = self.brainstem.on_cancel();
        self.events.push(event);
        reason
    }

    fn count(&self, pred: fn(&RunEvent) -> bool) -> usize {
        self.events.iter().filter(|event| pred(event)).count()
    }

    fn requests(&self) -> Vec<ModelRequest> {
        match &self.cognition {
            Cognition::Model(_, provider) => provider.requests(),
            Cognition::Fake(_) => Vec::new(),
        }
    }
}

fn ample_budget() -> RenewableBudget {
    RenewableBudget {
        period: Period::Every(Duration::from_secs(3600)),
        max_tokens: 1_000_000,
    }
}

fn model(
    script: Vec<Result<ModelResponse, ProviderError>>,
    budget: RenewableBudget,
) -> Cognition {
    let mind = ModelMind::new(budget, Duration::from_secs(30), at(0));
    Cognition::Model(mind, FakeProvider::new(script))
}

fn fake(script: Vec<Decision>) -> Cognition {
    Cognition::Fake(FakeMind::with_script(script, at(0)))
}

fn is_retry(event: &RunEvent) -> bool {
    matches!(event, RunEvent::RetryScheduled { .. })
}

fn is_end(event: &RunEvent) -> bool {
    matches!(event, RunEvent::Terminated { .. })
}

fn completed(message: &str) -> Stop {
    Stop::Reported(TaskOutcome::Completed(Outcome { message: message.into() }))
}

fn act_tool(call_id: &str, name: &str, input: &str) -> Decision {
    Decision::Act(Command::CallTool {
        call_id: call_id.into(),
        name: name.into(),
        input: json(input),
    })
}

fn done(message: &str) -> Decision {
    Decision::Done(Outcome { message: message.into() })
}

fn api(status: u16, body: &str) -> Result<ModelResponse, ProviderError> {
    Err(ProviderError::Api { status, body: body.into() })
}

#[test]
fn sc1_transient_503_retries_with_backoff_then_proceeds() {
    let mut service = Service::new(
        model(
            vec![
                api(503, "unavailable"),
                api(503, "unavailable"),
                Ok(ModelResponse::text("recovered")),
            ],
            ample_budget(),
        ),
        8,
    );
    assert_eq!(service.run("retry me"), completed("recovered"));
    assert_eq!(service.count(is_retry), 2, "one RetryScheduled per transient attempt");
    assert_eq!(service.count(is_end), 0, "service must not terminate on a transient error");
    assert_eq!(service.cancel(), Termination::Cancelled);
}

#[test]
fn sc1_decode_error_is_transient_blind_reissue() {
    let mut service = Service::new(
        model(
            vec![
                Err(ProviderError::Decode("truncated body".into())),
                Ok(ModelResponse::text("decoded fine now")),
            ],
            ample_budget(),
        ),
        8,
    );
    assert_eq!(
        service.run("decode then ok"),
        completed("decoded fine now"),
        "Decode must be retried (transient), not fail the task"
    );
    assert!(service.count(is_retry) > 0, "Decode must emit a retry (blind re-issue)");
    assert_eq!(service.count(|e| matches!(e, RunEvent::TaskFailed { .. })), 0);
}

#[test]
fn sc2_service_fatal_401_terminates_fatal() {
    let mut service = Service::new(model(vec![api(401, "unauthorized")], ample_budget()), 8);
    let stop = service.run("auth fails");
    assert!(
        matches!(stop, Stop::Terminated(Termination::Fatal(_))),
        "401 must be service-fatal"
    );
    assert_eq!(
        stop,
        Stop::Terminated(Termination::Fatal(
            "fatal provider error: provider api error: 401: unauthorized".into()
        ))
    );
    assert_eq!(service.count(is_retry), 0, "service-fatal must not retry");
    assert_eq!(
        service.count(|e| matches!(e, RunEvent::Terminated { reason: Termination::Fatal(_) })),
        1
    );
    assert_eq!(service.brainstem.build_snapshot(0).lifecycle, Lifecycle::Fatal);
}

#[test]
fn sc3_task_fatal_400_fails_task_service_continues() {
    let mut service = Service::new(
        model(
            vec![api(400, "bad request"), Ok(ModelResponse::text("second task ok"))],
            ample_budget(),
        ),
        8,
    );
    assert!(matches!(service.run("bad"), Stop::Reported(TaskOutcome::Failed(_))));
    assert_eq!(
        service.run("good"),
        completed("second task ok"),
        "service must keep serving after a task-fatal error"
    );
    assert_eq!(service.cancel(), Termination::Cancelled);
}

#[test]
fn sc3_step_liveness_trip_is_task_fatal() {
    let loops = vec![act_tool("c", "calculator", "{\"expression\": \"1+1\"}"); 10];
    let mut service = Service::new(fake(loops), 3);
    assert_eq!(
        service.run("spin forever"),
        Stop::Reported(TaskOutcome::Failed(TaskFault::NoProgress))
    );
    assert_eq!(
        service.count(|e| matches!(e, RunEvent::TaskFailed { reason: TaskFault::NoProgress })),
        1
    );
    assert_eq!(service.count(|e| matches!(e, RunEvent::Command { .. })), 3);
    assert_eq!(service.count(is_end), 0);
    assert_eq!(service.cancel(), Termination::Cancelled);
}

#[test]
fn sc4_two_malformed_recovered_third_is_task_fatal() {
    let malformed = || {
        Ok(ModelResponse { text: None, tool_calls: Vec::new(), usage: Usage::default() })
    };

    // Two malformed then a recovery -> the episode proceeds (task done).
    let mut service = Service::new(
        model(
            vec![malformed(), malformed(), Ok(ModelResponse::text("recovered after 2"))],
            ample_budget(),
        ),
        8,
    );
    assert_eq!(
        service.run("two malformed"),
        completed("recovered after 2"),
        "two consecutive malformed responses must be recovered"
    );

    // Three malformed -> task-fatal Malformed, service continues.
    let mut service =
        Service::new(model(vec![malformed(), malformed(), malformed()], ample_budget()), 8);
    match service.run("three malformed") {
        Stop::Reported(TaskOutcome::Failed(TaskFault::Malformed(_))) => {}
        other => panic!("third malformed must be task-fatal Malformed, got {other:?}"),
    }
    assert_eq!(service.count(is_end), 0);
    assert_eq!(service.cancel(), Termination::Cancelled);
}

#[test]
fn sc5_token_exhaustion_throttles_then_resumes_after_reset() {
    let budget =
        RenewableBudget { period: Period::Every(Duration::from_secs(60)), max_tokens: 10 };
    let mut service = Service::new(
        model(
            vec![
                Ok(ModelResponse::tool_call(
                    "c1",
                    "calculator",
                    json("{\"expression\": \"1+1\"}"),
                )
                .with_usage(50, 0)),
                Ok(ModelResponse::text("done after reset").with_usage(1, 0)),
            ],
            budget,
        ),
        8,
    );
    assert_eq!(service.run("exhaust then resume"), completed("done after reset"));
    assert_eq!(
        service.count(|e| matches!(e, RunEvent::ThrottleSleep { .. })),
        1,
        "exhaustion must throttle-sleep"
    );
    assert_eq!(
        service.count(|e| matches!(e, RunEvent::WindowReset { .. })),
        1,
        "crossing the window boundary must emit WindowReset"
    );
    let snap = service.brainstem.build_snapshot(0);
    assert!(snap.tokens_remaining > 0, "window reset must zero consumption");
    assert_eq!(snap.tokens_remaining, 9);
    assert_eq!(service.cancel(), Termination::Cancelled);
}

#[test]
fn sc6_cancel_mid_sleep_wins_over_timer() {
    let reset_at = at(3600);
    let mut service = Service::new(fake(vec![Decision::Throttle(reset_at)]), 8);
    assert_eq!(service.start("will throttle"), Stop::Asleep(reset_at));
    assert_eq!(service.count(|e| matches!(e, RunEvent::ThrottleSleep { .. })), 1);
    assert_eq!(service.cancel(), Termination::Cancelled);
    assert_eq!(service.brainstem.build_snapshot(0).lifecycle, Lifecycle::Cancelled);
}

#[test]
fn sc12_cancel_mid_decide_terminates_cancelled() {
    let mut service = Service::new(Cognition::Fake(FakeMind::pending(at(0))), 8);
    assert_eq!(service.start("hangs in decide"), Stop::Waiting);
    let snap = service.brainstem.build_snapshot(0);
    assert_eq!(snap.lifecycle, Lifecycle::Working);
    assert_eq!(service.cancel(), Termination::Cancelled);
    assert_eq!(
        service.events.last(),
        Some(&RunEvent::Terminated { reason: Termination::Cancelled })
    );
}

#[test]
fn sc7_two_tasks_in_sequence_each_emits_outcome() {
    let mut service = Service::new(fake(vec![done("first"), done("second")]), 8);
    assert_eq!(service.run("one"), completed("first"));
    assert_eq!(service.run("two"), completed("second"));
    assert_eq!(
        service.count(|e| matches!(e, RunEvent::TaskCompleted { .. })),
        2,
        "one TaskCompleted per task"
    );
    assert_eq!(service.cancel(), Termination::Cancelled);
}

#[test]
fn sc8_inbox_closed_terminates_stopped() {
    let mut service = Service::new(fake(vec![]), 8);
    let (event, reason) = service.brainstem.on_inbox_closed();
    assert_eq!(reason, Termination::Stopped);
    assert_eq!(event, RunEvent::Terminated { reason: Termination::Stopped });
    assert_eq!(service.brainstem.build_snapshot(0).lifecycle, Lifecycle::Stopped);
}

#[test]
fn sc9_status_while_working_reports_lifecycle_and_steps() {
    let mut service = Service::new(
        fake(vec![act_tool("c", "calculator", "{\"expression\": \"2+2\"}"), done("answered")]),
        8,
    );
    let task = Task { goal: "status me".into() };
    let (_, perception) = service.brainstem.on_task(&task);
    let snap = service.brainstem.build_snapshot(3);
    assert_eq!(snap.lifecycle, Lifecycle::Working);
    assert_eq!(snap.current_task.as_deref(), Some("status me"));
    assert_eq!(snap.queue_depth, 3);
    assert_eq!(snap.steps_used, 0);

    let decision = service.decide(perception).expect("a decision");
    let summary = service.summary();
    assert!(matches!(
        service.brainstem.on_decision(decision, summary),
        (RunEvent::Command { .. }, Next::Actuate(_))
    ));
    assert_eq!(service.brainstem.build_snapshot(0).steps_used, 1);
    assert_eq!(service.go_on(Perception::Resume), completed("answered"));
    let snap = service.brainstem.build_snapshot(0);
    assert_eq!(snap.lifecycle, Lifecycle::Idle);
    assert_eq!(snap.current_task, None);
    assert_eq!(snap.steps_used, 0);
}

#[test]
fn sc9_status_during_throttle_reports_throttling() {
    let reset_at = at(3600);
    let mut service = Service::new(fake(vec![Decision::Throttle(reset_at), done("up")]), 8);
    assert_eq!(service.start("throttle me"), Stop::Asleep(reset_at));
    let snap = service.brainstem.build_snapshot(0);
    assert_eq!(snap.lifecycle, Lifecycle::Throttling);
    assert_eq!(snap.next_reset, reset_at);

    assert_eq!(service.brainstem.on_wake(), Perception::Resume);
    let snap = service.brainstem.build_snapshot(0);
    assert_eq!(snap.lifecycle, Lifecycle::Working);
    assert_eq!(snap.next_reset, at(86_400));
    assert_eq!(snap.current_task.as_deref(), Some("throttle me"));
}

#[test]
fn sc10_unknown_tool_is_recoverable_observation() {
    let mut service = Service::new(
        fake(vec![
            act_tool("c", "frobnicate", "{}"),
            done("continued after unknown tool"),
        ]),
        8,
    );
    assert_eq!(service.run("call unknown"), completed("continued after unknown tool"));
    assert_eq!(
        service.count(|e| matches!(
            e,
            RunEvent::RecoverableObservation { error: RecoverableError::UnknownTool(_) }
        )),
        1,
        "unknown tool must surface a recoverable observation"
    );
}

#[test]
fn sc11_event_set_is_emitted_on_its_paths() {
    let mut service = Service::new(
        fake(vec![
            act_tool("c1", "calculator", "{\"expression\": \"1+1\"}"),
            act_tool("c2", "frobnicate", "{}"),
            done("all paths"),
        ]),
        8,
    );
    service.run("event coverage");
    assert_eq!(service.cancel(), Termination::Cancelled);
    assert_eq!(
        service.events,
        vec![
            RunEvent::TaskReceived { goal: "event coverage".into() },
            RunEvent::Command { call_id: "c1".into(), name: "calculator".into() },
            RunEvent::CommandResult { call_id: "c1".into(), ok: true },
            RunEvent::Command { call_id: "c2".into(), name: "frobnicate".into() },
            RunEvent::CommandResult { call_id: "c2".into(), ok: false },
            RunEvent::RecoverableObservation {
                error: RecoverableError::UnknownTool("frobnicate".into()),
            },
            RunEvent::TaskCompleted { outcome: Outcome { message: "all paths".into() } },
            RunEvent::Terminated { reason: Termination::Cancelled },
        ]
    );
}

#[test]
fn sc13_zero_quota_through_brainstem_throttles_then_fails_and_continues() {
    let budget =
        RenewableBudget { period: Period::Every(Duration::from_secs(60)), max_tokens: 0 };
    let mut service =
        Service::new(model(vec![Ok(ModelResponse::text("never reached"))], budget), 8);
    assert_eq!(
        service.run("zero quota e2e"),
        Stop::Reported(TaskOutcome::Failed(TaskFault::BudgetTooSmall))
    );
    assert_eq!(
        service.count(|e| matches!(e, RunEvent::ThrottleSleep { .. })),
        1,
        "zero-quota must throttle first"
    );
    assert_eq!(service.count(is_retry), 0);
    assert_eq!(service.count(is_end), 0);
    assert!(service.requests().is_empty());
    assert_eq!(service.cancel(), Termination::Cancelled);
}

/// Proves the whole loop: the schemas of the registry are advertised to the
/// provider, a tool call is actuated, and its result comes back to the model.
#[test]
fn sc4_tool_schemas_advertised_and_tool_call_loop_works() {
    let mut service = Service::new(
        model(
            vec![
                Ok(ModelResponse::tool_call(
                    "c1",
                    "calculator",
                    json("{\"expression\": \"1+1\"}"),
                )),
                Ok(ModelResponse::text("the answer is 2")),
            ],
            ample_budget(),
        ),
        8,
    );
    assert_eq!(service.run("calculate 1+1"), completed("the answer is 2"));

    let requests = service.requests();
    assert_eq!(requests.len(), 2, "expected 2 requests (tool call + done)");
    let first = &requests[0];
    assert_eq!(first.tools.len(), 1, "first request must advertise exactly 1 tool");
    assert_eq!(first.tools[0].name, "calculator");
    assert_eq!(
        first.tools[0].description,
        "Evaluate a basic arithmetic expression (supports + - * /, parentheses)."
    );
    let parameters: serde_json::Value =
        serde_json::from_str(first.tools[0].parameters.text()).expect("valid JSON");
    assert!(
        parameters.get("properties").and_then(|p| p.get("expression")).is_some(),
        "calculator schema must define the 'expression' parameter"
    );
    let has_tool_result = requests[1].messages.iter().any(|m| match m {
        Message::Tool { call_id, content } => {
            call_id == "c1" && content.contains("\"result\":2")
        }
        _ => false,
    });
    assert!(has_tool_result, "second request must include the tool result observation");
    assert_eq!(service.cancel(), Termination::Cancelled);
}

/// The model makes a failing tool call, the error is fed back, the model corrects,
/// and the task finishes successfully.
#[test]
fn recovers_from_a_failed_tool_call_then_finishes() {
    let mut service = Service::new(
        model(
            vec![
                Ok(ModelResponse::tool_call(
                    "c1",
                    "calculator",
                    json("{\"wrong_field\": \"2 + 2\"}"),
                )),
                Ok(ModelResponse::tool_call(
                    "c2",
                    "calculator",
                    json("{\"expression\": \"2 + 2\"}"),
                )),
                Ok(ModelResponse::text("The answer is 4.")),
            ],
            ample_budget(),
        ),
        8,
    );
    assert_eq!(service.run("what is 2 + 2?"), completed("The answer is 4."));
    assert!(
        service.count(|e| matches!(
            e,
            RunEvent::RecoverableObservation { error: RecoverableError::ToolFailed { .. } }
        )) > 0,
        "expected a recovered tool failure"
    );
    assert!(service.count(|e| matches!(e, RunEvent::CommandResult { ok: true, .. })) > 0);
    let requests = service.requests();
    assert_eq!(requests.len(), 3, "exactly three model turns");
    assert_eq!(
        requests[1].messages.last(),
        Some(&Message::Tool {
            call_id: "c1".into(),
            content: "error: tool 'calculator' failed: invalid input: expected string field 'expression'".into(),
        })
    );
}

#[test]
fn an_idle_service_reports_its_full_quota() {
    let service = Service::new(model(vec![], ample_budget()), 8);
    let snap = service.brainstem.build_snapshot(0);
    assert_eq!(snap.lifecycle, Lifecycle::Idle, "no task yet -> Idle");
    assert_eq!(snap.current_task, None);
    assert_eq!(
        snap.tokens_remaining, 1_000_000,
        "the full window quota is intact before any model call"
    );
}

#[test]
fn throttles_take_no_steps() {
    let mut service = Service::new(
        fake(vec![
            act_tool("c", "calculator", "{\"expression\": \"1\"}"),
            Decision::Throttle(at(10)),
            Decision::Throttle(at(20)),
            act_tool("c", "calculator", "{\"expression\": \"2\"}"),
            done("in time"),
        ]),
        2,
    );
    assert_eq!(service.run("steps"), completed("in time"));
}

#[test]
fn a_limit_of_no_steps_forbids_every_command() {
    let act = || act_tool("c", "calculator", "{\"expression\": \"1\"}");
    let mut service = Service::new(fake(vec![act(), done("free")]), 0);
    assert_eq!(
        service.run("one"),
        Stop::Reported(TaskOutcome::Failed(TaskFault::NoProgress))
    );
    assert_eq!(service.run("two"), completed("free"));
}

#[test]
fn steps_are_fresh_for_each_task() {
    let act = || act_tool("c", "calculator", "{\"expression\": \"1\"}");
    let mut service =
        Service::new(fake(vec![act(), act(), done("a"), act(), act(), done("b")]), 2);
    assert_eq!(service.run("one"), completed("a"));
    assert_eq!(service.run("two"), completed("b"));
}

#[test]
fn failing_tools_are_observed() {
    let service = Service::new(fake(vec![]), 1);
    let command = |input: &str| Command::CallTool {
        call_id: "c".into(),
        name: "calculator".into(),
        input: json(input),
    };
    assert_eq!(
        service.actuate(&command("{\"expression\": \"6 / 4\"}")),
        Observation::ToolResult { call_id: "c".into(), output: json("{\"result\": 1.5}") }
    );
    let failed = |error: &str| Observation::Recoverable {
        call_id: Some("c".into()),
        error: RecoverableError::ToolFailed { name: "calculator".into(), error: error.into() },
    };
    assert_eq!(
        service.actuate(&command("{}")),
        failed("invalid input: expected string field 'expression'")
    );
    assert_eq!(
        service.actuate(&command("{\"expression\": \"1/0\"}")),
        failed("execution failed: division by zero")
    );
    assert_eq!(panicked(&command("{}")), failed("tool panicked"));
}

#[test]
fn an_observation_without_a_call_is_announced_without_one() {
    let service = Service::new(fake(vec![]), 1);
    let error = RecoverableError::UnknownTool("x".into());
    let observation = Observation::Recoverable { call_id: None, error: error.clone() };
    let (events, perception) = service.brainstem.on_observation(observation.clone());
    assert_eq!(
        events,
        vec![
            RunEvent::CommandResult { call_id: "".into(), ok: false },
            RunEvent::RecoverableObservation { error },
        ]
    );
    assert_eq!(perception, Perception::Observation(observation));
}

#[test]
fn the_budget_is_reported_as_of_the_last_decision() {
    let mut service = Service::new(
        model(vec![Ok(ModelResponse::text("hi").with_usage(300, 45))], ample_budget()),
        8,
    );
    assert_eq!(service.run("g"), completed("hi"));
    assert_eq!(service.brainstem.build_snapshot(0).tokens_remaining, 999_655);
    assert_eq!(service.brainstem.build_snapshot(0).next_reset, at(3600));
}
