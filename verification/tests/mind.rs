use agent::mind::backoff::{exponential_backoff, xorshift_range};
use agent::mind::model::{Attempt, Failure, ModelMind};
use agent::{
    default_registry, Command, Decision, Duration, FakeMind, FakeProvider, Instant, Json, Message,
    ModelRequest, ModelResponse, Observation, Outcome, Perception, Period, ProviderError, Reason,
    RecoverableError, RenewableBudget, RunEvent, TaskFault, ToolCall, Usage,
};

fn json(text: &str) -> Json {
    Json::parse(text).expect("valid JSON")
}

fn at_millis(millis: u64) -> Instant {
    Instant::at(Duration::from_millis(millis))
}

fn new_task(goal: &str) -> Perception {
    Perception::NewTask { goal: goal.into() }
}

fn down() -> Result<ModelResponse, ProviderError> {
    Err(ProviderError::Api { status: 503, body: "down".into() })
}

fn blank() -> Result<ModelResponse, ProviderError> {
    Ok(ModelResponse { text: None, tool_calls: Vec::new(), usage: Usage::default() })
}

/// A tool call whose arguments could not be read.
fn unreadable() -> Result<ModelResponse, ProviderError> {
    Ok(ModelResponse {
        text: Some("calling".into()),
        tool_calls: vec![ToolCall {
            id: "c".into(),
            name: "calculator".into(),
            arguments: Json::null(),
            readable: false,
        }],
        usage: Usage::default(),
    })
}

fn daily() -> RenewableBudget {
    RenewableBudget { period: Period::Daily, max_tokens: 100_000 }
}

fn mind_with(budget: RenewableBudget) -> ModelMind {
    ModelMind::new(budget, Duration::from_secs(10), at_millis(0))
}

/// A mind with a scripted provider, and a clock that only waiting moves.
struct Bench {
    mind: ModelMind,
    provider: FakeProvider,
    millis: u64,
    /// How long each call takes.
    latencies: Vec<u64>,
    events: Vec<RunEvent>,
}

impl Bench {
    fn new(mind: ModelMind, script: Vec<Result<ModelResponse, ProviderError>>) -> Self {
        Bench {
            mind,
            provider: FakeProvider::new(script),
            millis: 0,
            latencies: Vec::new(),
            events: Vec::new(),
        }
    }

    fn call(&mut self, request: &ModelRequest) -> Option<Result<ModelResponse, ProviderError>> {
        let limit = self.mind.per_call_timeout().as_nanos() / 1_000_000;
        let latency = if self.latencies.is_empty() { 0 } else { self.latencies.remove(0) };
        if latency as u128 > limit {
            self.millis += limit as u64;
            return None;
        }
        self.millis += latency;
        Some(self.provider.complete(request))
    }

    fn decide(&mut self, perception: Perception) -> Decision {
        self.mind.fold(&perception);
        loop {
            let (event, attempt) = self.mind.begin(at_millis(self.millis));
            self.events.extend(event);
            let request = match attempt {
                Attempt::Decide(decision) => return decision,
                Attempt::Call(request) => request,
            };
            loop {
                let (event, failure) = match self.call(&request) {
                    Some(Ok(response)) => {
                        let (event, decision) =
                            self.mind.receive(at_millis(self.millis), response);
                        self.events.extend(event);
                        match decision {
                            Some(decision) => return decision,
                            None => break,
                        }
                    }
                    Some(Err(error)) => self.mind.fail(error),
                    None => self.mind.time_out(),
                };
                self.events.extend(event);
                match failure {
                    Failure::Decide(decision) => return decision,
                    Failure::Retry { delay, .. } => {
                        self.millis += (delay.as_nanos() / 1_000_000) as u64;
                    }
                }
            }
        }
    }

    fn retries(&self) -> usize {
        self.events.iter().filter(|e| matches!(e, RunEvent::RetryScheduled { .. })).count()
    }
}

#[test]
fn transient_error_retries_with_backoff() {
    let mut bench =
        Bench::new(mind_with(daily()), vec![down(), down(), Ok(ModelResponse::text("ok"))]);
    let decision = bench.decide(new_task("test"));
    assert!(matches!(decision, Decision::Done(_)));
    assert_eq!(bench.retries(), 2);
}

#[test]
fn service_fatal_error_returns_failed() {
    let mut bench = Bench::new(
        mind_with(RenewableBudget::default()),
        vec![Err(ProviderError::Api { status: 401, body: "unauthorized".into() })],
    );
    let decision = bench.decide(new_task("test"));
    assert!(matches!(decision, Decision::Failed(Reason::Service(_))));
    assert_eq!(bench.retries(), 0);
}

#[test]
fn budget_exhaustion_throttles() {
    let mut bench = Bench::new(
        mind_with(RenewableBudget {
            period: Period::Every(Duration::from_secs(10)),
            max_tokens: 10,
        }),
        vec![Ok(ModelResponse::text("response"))],
    );
    bench.mind.set_used_for_test(10);
    let decision = bench.decide(new_task("test"));
    assert!(matches!(decision, Decision::Throttle(_)));
    assert_eq!(decision, Decision::Throttle(at_millis(10_000)));
    assert!(bench.provider.requests().is_empty());
}

/// A timed-out provider call is transient and is retried.
#[test]
fn per_call_timeout_is_retried_as_transient() {
    let mut bench = Bench::new(mind_with(daily()), vec![Ok(ModelResponse::text("recovered"))]);
    bench.latencies = vec![30_000]; // outlives the 10s per-call timeout
    let decision = bench.decide(new_task("test"));
    assert!(
        matches!(decision, Decision::Done(_)),
        "a timed-out call must be retried to success"
    );
    assert!(bench.retries() >= 1, "the timed-out call must schedule a retry");
    assert!(bench.events.iter().any(|e| matches!(
        e,
        RunEvent::RetryScheduled { attempt: 1, error: ProviderError::Transport(why), .. }
            if why == "call timeout"
    )));
}

/// A response carrying BOTH text and a tool call must `Act` on the tool, not return
/// `Done` on the text (which would strand the action).
#[test]
fn tool_call_takes_priority_over_text() {
    let response = ModelResponse {
        text: Some("Let me calculate that.".to_string()),
        tool_calls: vec![ToolCall {
            id: "c1".to_string(),
            name: "calculator".to_string(),
            arguments: json("{\"expression\": \"1+1\"}"),
            readable: true,
        }],
        usage: Usage::default(),
    };
    let mut bench = Bench::new(mind_with(RenewableBudget::default()), vec![Ok(response)]);
    match bench.decide(new_task("compute")) {
        Decision::Act(Command::CallTool { name, .. }) => assert_eq!(name, "calculator"),
        _ => panic!("a response with text and a tool call must return Act(CallTool)"),
    }
}

/// A body-`Decode` failure is transient and retried as a **blind re-issue** — the
/// retry must send the identical request.
#[test]
fn decode_retry_reissues_identical_request() {
    let mut bench = Bench::new(
        mind_with(RenewableBudget::default()),
        vec![
            Err(ProviderError::Decode("bad json".into())),
            Ok(ModelResponse::text("ok")),
        ],
    );
    let decision = bench.decide(new_task("g"));
    assert!(matches!(decision, Decision::Done(_)));

    let reqs = bench.provider.requests();
    assert_eq!(reqs.len(), 2, "Decode must trigger exactly one retry");
    assert_eq!(
        reqs[0], reqs[1],
        "Decode retry must be a blind re-issue of the identical request"
    );
}

/// `set_tools` schemas reach the provider request.
#[test]
fn set_tools_schemas_reach_the_provider_request() {
    let mut bench = Bench::new(
        mind_with(RenewableBudget::default()),
        vec![Ok(ModelResponse::text("computed"))],
    );
    bench.mind.set_tools(default_registry().schemas());
    let decision = bench.decide(new_task("test"));
    assert!(matches!(decision, Decision::Done(_)));

    let reqs = bench.provider.requests();
    assert_eq!(reqs.len(), 1);
    assert!(!reqs[0].tools.is_empty(), "request.tools must be non-empty after set_tools");
    assert!(
        reqs[0].tools.iter().any(|s| s.name == "calculator"),
        "request.tools must contain the calculator schema"
    );
}

/// Without `set_tools`, a request advertises no tools.
#[test]
fn without_set_tools_request_advertises_no_tools() {
    let mut bench = Bench::new(
        mind_with(RenewableBudget::default()),
        vec![Ok(ModelResponse::text("done"))],
    );
    let decision = bench.decide(new_task("test"));
    assert!(matches!(decision, Decision::Done(_)));

    let reqs = bench.provider.requests();
    assert_eq!(reqs.len(), 1);
    assert!(
        reqs[0].tools.is_empty(),
        "request.tools must be empty when set_tools was never called"
    );
}

#[test]
fn sc1_backoff_is_exponential() {
    let mut mind = mind_with(RenewableBudget {
        period: Period::Every(Duration::from_secs(3600)),
        max_tokens: 1_000_000,
    })
    .with_jitter_seed(0);
    mind.fold(&new_task("g"));
    assert!(matches!(mind.begin(at_millis(0)), (None, Attempt::Call(_))));

    let failure = || ProviderError::Api { status: 503, body: "x".into() };
    let (event, first) = mind.fail(failure());
    assert_eq!(first, Failure::Retry { attempt: 1, delay: Duration::from_secs(1) });
    assert_eq!(
        event,
        Some(RunEvent::RetryScheduled {
            attempt: 1,
            delay: Duration::from_secs(1),
            error: failure(),
        })
    );
    let (_, second) = mind.fail(failure());
    assert_eq!(
        second,
        Failure::Retry { attempt: 2, delay: Duration::from_secs(2) },
        "delay must double (exponential)"
    );
    let taken = mind.receive(at_millis(3_000), ModelResponse::text("ok"));
    assert!(matches!(taken, (None, Some(Decision::Done(_)))));
}

#[test]
fn sc13_zero_quota_mind_throttles_then_budget_too_small() {
    let mut bench = Bench::new(
        mind_with(RenewableBudget {
            period: Period::Every(Duration::from_secs(60)),
            max_tokens: 0,
        }),
        vec![Ok(ModelResponse::text("never reached"))],
    );
    let reset = match bench.decide(new_task("zero quota")) {
        Decision::Throttle(t) => t,
        other => panic!("first decide must Throttle, got {other:?}"),
    };
    assert_eq!(reset, at_millis(60_000));
    bench.millis = 61_000;
    match bench.decide(Perception::Resume) {
        Decision::Failed(Reason::Task(TaskFault::BudgetTooSmall)) => {}
        other => panic!("resume against a zero-quota window must fail the task, got {other:?}"),
    }
    assert!(bench.provider.requests().is_empty(), "no provider call may be made");
}

#[test]
fn backoff_doubles_up_to_the_cap() {
    let base = Duration::from_secs(1);
    let cap = Duration::from_secs(60);
    let expected = [(0, 1), (1, 1), (2, 2), (3, 4), (6, 32), (7, 60), (64, 60), (65, 60), (1000, 60)];
    for (attempt, secs) in expected {
        assert_eq!(exponential_backoff(attempt, base, cap, 0), Duration::from_secs(secs));
    }
    assert_eq!(exponential_backoff(usize::MAX, base, cap, 0), cap);
    // Parts of a second count.
    assert_eq!(
        exponential_backoff(3, Duration::from_millis(2_500), cap, 0),
        Duration::from_secs(10)
    );
    assert_eq!(
        exponential_backoff(3, Duration::from_millis(500), cap, 0),
        Duration::from_secs(2)
    );
    assert_eq!(
        exponential_backoff(100, Duration::from_millis(500), cap, 0),
        Duration::from_secs(60)
    );
    assert_eq!(
        exponential_backoff(9, base, Duration::from_millis(1_500), 0),
        Duration::from_millis(1_500)
    );
    assert_eq!(
        exponential_backoff(usize::MAX, Duration::from_secs(0), cap, 0),
        Duration::from_secs(0)
    );
    // A cap that is never reached does not keep jitter from working.
    assert!(exponential_backoff(2, base, Duration::from_secs(u64::MAX), 7).as_secs() <= 2);
    assert_eq!(
        exponential_backoff(64, Duration::from_secs(3), Duration::from_secs(u64::MAX), 0),
        Duration::from_secs(u64::MAX)
    );
}

#[test]
fn jitter_stays_within_the_target() {
    let base = Duration::from_secs(1);
    let cap = Duration::from_secs(60);
    let mut distinct = Vec::new();
    for attempt in 1..50 {
        let target = exponential_backoff(attempt, base, cap, 0).as_secs();
        let delay = exponential_backoff(attempt, base, cap, 12345);
        assert!(delay.as_secs() <= target);
        assert_eq!(delay, exponential_backoff(attempt, base, cap, 12345));
        if !distinct.contains(&delay.as_secs()) {
            distinct.push(delay.as_secs());
        }
    }
    assert!(distinct.len() > 10, "jitter must spread the delays");
}

#[test]
fn xorshift_draws_known_numbers() {
    assert_eq!(xorshift_range(1, 0), 0);
    // One round on 1: 1 ^ 1<<13 = 8193; ^ >>7 = 8257; ^ <<17 = 1082269761.
    assert_eq!(xorshift_range(1, u64::MAX - 1), 1_082_269_761);
    assert_eq!(xorshift_range(1, 9), 1);
    assert_eq!(xorshift_range(0, 9), 0);
}

#[test]
fn every_class_of_error_has_its_decision() {
    let fail = |status: u16| {
        let mut bench = Bench::new(
            mind_with(daily()),
            vec![Err(ProviderError::Api { status, body: "no".into() })],
        );
        bench.decide(new_task("g"))
    };
    assert_eq!(
        fail(400),
        Decision::Failed(Reason::Task(TaskFault::BadRequest("provider api error: 400: no".into())))
    );
    for status in [401, 403, 404] {
        assert!(matches!(fail(status), Decision::Failed(Reason::Service(_))));
    }
    for status in [422, 418, 301] {
        assert!(matches!(
            fail(status),
            Decision::Failed(Reason::Task(TaskFault::BadRequest(_)))
        ));
    }
}

#[test]
fn malformed_responses_are_named_to_the_model() {
    let mut bench = Bench::new(
        mind_with(daily()),
        vec![
            blank(),
            unreadable(),
            Ok(ModelResponse::text("fine")),
        ],
    );
    let decision = bench.decide(new_task("g"));
    assert_eq!(decision, Decision::Done(Outcome { message: "fine".into() }));
    let requests = bench.provider.requests();
    assert_eq!(requests.len(), 3);
    assert_eq!(
        requests[2].messages,
        vec![
            Message::User { content: "g".into() },
            Message::User {
                content: "Your response contained no text and no tool calls. Please provide either a final answer or call a tool. (Attempt 1/2)".into()
            },
            Message::User {
                content: "The arguments of your tool call were not valid JSON. Please provide either a final answer or call a tool. (Attempt 2/2)".into()
            },
        ]
    );
}

#[test]
fn the_third_malformed_response_fails_the_task() {
    let white = || Ok(ModelResponse::text(" \n\t\u{a0}"));
    let mut bench = Bench::new(mind_with(daily()), vec![blank(), white(), white()]);
    assert_eq!(
        bench.decide(new_task("g")),
        Decision::Failed(Reason::Task(TaskFault::Malformed(
            "model produced no usable output after 3 attempts".into()
        )))
    );
    assert_eq!(bench.retries(), 0);
}

#[test]
fn an_act_ends_a_run_of_malformed_responses() {
    let act = || Ok(ModelResponse::tool_call("c", "t", json("{}")));
    let mut bench = Bench::new(
        mind_with(daily()),
        vec![blank(), blank(), act(), blank(), blank(), act()],
    );
    assert!(matches!(bench.decide(new_task("g")), Decision::Act(_)));
    let seen = Observation::ToolResult { call_id: "c".into(), output: json("{}") };
    assert!(matches!(bench.decide(Perception::Observation(seen)), Decision::Act(_)));
}

#[test]
fn perceptions_build_the_working_memory() {
    let reply = || Ok(ModelResponse::tool_call("c1", "t", json("{}")));
    let mut bench = Bench::new(
        mind_with(daily()),
        vec![reply(), reply(), reply(), reply(), Ok(ModelResponse::text("new"))],
    );
    bench.decide(new_task("goal"));
    bench.decide(Perception::Observation(Observation::ToolResult {
        call_id: "c1".into(),
        output: json("{ \"result\": 2.0 }"),
    }));
    bench.decide(Perception::Resume);
    bench.decide(Perception::Observation(Observation::Recoverable {
        call_id: None,
        error: RecoverableError::UnknownTool("x".into()),
    }));
    bench.decide(new_task("other goal"));
    let requests = bench.provider.requests();
    assert_eq!(requests[1], requests[2], "resuming adds nothing");
    assert_eq!(requests[0].system, "You are a helpful assistant.");
    assert_eq!(
        requests[3].messages,
        vec![
            Message::User { content: "goal".into() },
            Message::Tool { call_id: "c1".into(), content: "{\"result\":2.0}".into() },
            Message::User { content: "error: no tool named 'x' is available".into() },
        ]
    );
    assert_eq!(
        requests[4].messages,
        vec![Message::User { content: "other goal".into() }],
        "a new task forgets the one before"
    );
}

#[test]
fn a_throttle_ends_at_its_reset() {
    let budget =
        RenewableBudget { period: Period::Every(Duration::from_secs(60)), max_tokens: 10 };
    let mut bench = Bench::new(
        mind_with(budget),
        vec![
            Ok(ModelResponse::tool_call("c", "t", json("{}")).with_usage(7, 5)),
            Ok(ModelResponse::text("late").with_usage(1, 0)),
        ],
    );
    assert!(matches!(bench.decide(new_task("g")), Decision::Act(_)));
    let seen = Observation::ToolResult { call_id: "c".into(), output: json("{}") };
    let wake = match bench.decide(Perception::Observation(seen)) {
        Decision::Throttle(wake) => wake,
        other => panic!("expected Throttle, got {other:?}"),
    };
    assert_eq!(wake, at_millis(60_000));
    assert_eq!(bench.mind.budget_summary(at_millis(0)).tokens_remaining, 0);
    bench.millis = 60_000;
    assert_eq!(
        bench.decide(Perception::Resume),
        Decision::Done(Outcome { message: "late".into() })
    );
    assert_eq!(bench.events, vec![RunEvent::WindowReset { window: 1 }]);
    let summary = bench.mind.budget_summary(at_millis(60_000));
    assert_eq!(summary.tokens_remaining, 9);
    assert_eq!(summary.next_reset, at_millis(120_000));
}

#[test]
fn a_reprompt_that_the_window_cannot_fund_throttles_once() {
    let budget =
        RenewableBudget { period: Period::Every(Duration::from_secs(60)), max_tokens: 1 };
    let dear = || {
        Ok(ModelResponse {
            text: None,
            tool_calls: Vec::new(),
            usage: Usage { input_tokens: 5, output_tokens: 0 },
        })
    };
    let mut bench = Bench::new(mind_with(budget), vec![dear(), dear(), dear()]);
    assert_eq!(bench.decide(new_task("g")), Decision::Throttle(at_millis(60_000)));
    bench.millis = 60_000;
    assert_eq!(
        bench.decide(Perception::Resume),
        Decision::Failed(Reason::Task(TaskFault::BudgetTooSmall))
    );
    assert_eq!(bench.provider.requests().len(), 2);
}

#[test]
fn a_call_that_straddles_a_reset_counts_against_the_later_window() {
    let budget =
        RenewableBudget { period: Period::Every(Duration::from_secs(60)), max_tokens: 100 };
    let mut bench = Bench::new(
        mind_with(budget),
        vec![
            Ok(ModelResponse::tool_call("c", "t", json("{}")).with_usage(40, 0)),
            Ok(ModelResponse::text("done").with_usage(30, 0)),
        ],
    );
    bench.millis = 55_000;
    bench.decide(new_task("g"));
    assert_eq!(bench.mind.budget_summary(at_millis(55_000)).tokens_remaining, 60);
    bench.latencies = vec![6_000];
    bench.decide(Perception::Resume);
    assert_eq!(bench.mind.budget_summary(at_millis(61_000)).tokens_remaining, 70);
    assert_eq!(bench.events, vec![RunEvent::WindowReset { window: 1 }]);
}

#[test]
fn a_window_crossed_during_a_call_is_announced_once() {
    let budget =
        RenewableBudget { period: Period::Every(Duration::from_secs(5)), max_tokens: 100 };
    let mut bench = Bench::new(
        mind_with(budget).with_jitter_seed(0),
        vec![
            down(),
            down(),
            down(),
            Ok(ModelResponse::text("ok").with_usage(1, 0)),
            Ok(ModelResponse::text("next")),
        ],
    );
    assert_eq!(
        bench.decide(new_task("g")),
        Decision::Done(Outcome { message: "ok".into() })
    );
    assert_eq!(bench.millis, 7_000);
    assert_eq!(bench.mind.budget_summary(at_millis(7_000)).tokens_remaining, 99);
    bench.decide(new_task("next"));
    let resets: Vec<&RunEvent> =
        bench.events.iter().filter(|e| matches!(e, RunEvent::WindowReset { .. })).collect();
    assert_eq!(resets, vec![&RunEvent::WindowReset { window: 1 }]);
}

#[test]
fn a_call_with_null_arguments_acts() {
    let mut bench = Bench::new(
        mind_with(daily()),
        vec![Ok(ModelResponse::tool_call("c", "t", Json::null()))],
    );
    assert_eq!(
        bench.decide(new_task("g")),
        Decision::Act(Command::CallTool {
            call_id: "c".into(),
            name: "t".into(),
            input: Json::null(),
        })
    );
}

#[test]
fn a_new_task_after_a_throttle_throttles_first() {
    let mut bench = Bench::new(
        mind_with(RenewableBudget {
            period: Period::Every(Duration::from_secs(60)),
            max_tokens: 0,
        }),
        vec![],
    );
    assert_eq!(bench.decide(new_task("one")), Decision::Throttle(at_millis(60_000)));
    assert_eq!(bench.decide(new_task("two")), Decision::Throttle(at_millis(60_000)));
}

#[test]
fn a_resumed_decision_does_not_throttle_after_a_reprompt() {
    let budget =
        RenewableBudget { period: Period::Every(Duration::from_secs(60)), max_tokens: 1 };
    let dear = || {
        Ok(ModelResponse {
            text: None,
            tool_calls: Vec::new(),
            usage: Usage { input_tokens: 5, output_tokens: 0 },
        })
    };
    let mut bench = Bench::new(mind_with(budget), vec![down(), dear()]);
    bench.mind.set_used_for_test(1);
    assert_eq!(bench.decide(new_task("g")), Decision::Throttle(at_millis(60_000)));
    bench.millis = 60_000;
    assert_eq!(
        bench.decide(Perception::Resume),
        Decision::Failed(Reason::Task(TaskFault::BudgetTooSmall))
    );
}

#[test]
fn memory_keeps_observations_and_reprompts_in_order() {
    let act = || Ok(ModelResponse::tool_call("c", "t", json("{}")));
    let mut bench =
        Bench::new(mind_with(daily()), vec![blank(), act(), blank(), blank(), act()]);
    bench.decide(new_task("g"));
    let seen = Observation::ToolResult { call_id: "c".into(), output: json("{}") };
    bench.decide(Perception::Observation(seen));
    let prompt = |n: usize| Message::User {
        content: format!(
            "Your response contained no text and no tool calls. Please provide either a final answer or call a tool. (Attempt {n}/2)"
        ),
    };
    assert_eq!(
        bench.provider.requests()[4].messages,
        vec![
            Message::User { content: "g".into() },
            prompt(1),
            Message::Tool { call_id: "c".into(), content: "{}".into() },
            prompt(1),
            prompt(2),
        ]
    );
}

#[test]
fn a_fake_mind_replays_its_script() {
    let mut mind = FakeMind::with_script(
        vec![
            Decision::Done(Outcome { message: "one".into() }),
            Decision::Throttle(at_millis(5)),
        ],
        at_millis(1_000),
    );
    assert_eq!(mind.budget_summary().tokens_remaining, 100_000);
    assert_eq!(mind.budget_summary().next_reset, at_millis(86_401_000));
    assert_eq!(
        mind.decide(&Perception::Resume),
        Some(Decision::Done(Outcome { message: "one".into() }))
    );
    assert_eq!(mind.decide(&new_task("g")), Some(Decision::Throttle(at_millis(5))));
    assert!(!mind.can_decide());
    let mut pending = FakeMind::pending(at_millis(0));
    assert!(pending.can_decide());
    assert_eq!(pending.decide(&Perception::Resume), None);
    assert_eq!(pending.decide(&Perception::Resume), None);
}
