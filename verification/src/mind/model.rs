//! ModelMind: the model-backed mind as a state machine. It owns the working
//! memory, the token budget and the rules for retries and re-prompts. It never
//! waits and never calls: it says which request to send, is told what came back
//! and when, and says what follows from it.

use vstd::prelude::*;
use vstd::string::StringExecFns;

use crate::budget::{BudgetState, BudgetSummary, BudgetView, RenewableBudget};
use crate::error::{AgentError, AgentErrorView, ErrorClass, ProviderError, ProviderErrorView};
use crate::event::{EventView, RunEvent};
use crate::mind::backoff::{backoff_nanos, exponential_backoff};
use crate::mind::{
    Command, CommandView, Decision, DecisionView, Perception, PerceptionView, Reason, ReasonView,
    TaskFault, TaskFaultView,
};
use crate::observation::{Observation, ObservationView, Outcome, OutcomeView};
use crate::provider::{
    clone_messages, message_views, Message, MessageView, ModelRequest, ModelResponse, RequestView,
    ResponseView,
};
use crate::text::{decimal, decimal_text, is_blank, is_blank_text};
use crate::time::{Duration, Instant};
use crate::tool::{clone_schemas, schema_views, ToolSchema, ToolSchemaView};

verus! {

broadcast use vstd::string::group_string_axioms;

/// The message that an observation becomes in working memory: a tool result or
/// error keyed to its call, or a plain note where no call is known.
pub open spec fn observation_message(observation: ObservationView) -> MessageView {
    match observation {
        ObservationView::ToolResult { call_id, output } => MessageView::Tool {
            call_id,
            content: output,
        },
        ObservationView::Recoverable { call_id: Some(id), error } => MessageView::Tool {
            call_id: id,
            content: error.message(),
        },
        ObservationView::Recoverable { call_id: None, error } => MessageView::User {
            content: error.message(),
        },
    }
}

/// What a response amounts to.
pub enum VerdictView {
    /// The model calls a tool.
    Act(CommandView),
    /// The model gives its final answer.
    Done(OutcomeView),
    /// Nothing usable, with the complaint to tell the model.
    Malformed(Seq<char>),
}

/// What `response` amounts to. Tool calls take priority over text: a model that
/// wants to act often explains itself alongside, and to answer with the text would
/// strand the action. Only the first call counts. A call whose arguments could not
/// be read is not usable, and neither is blank text.
pub open spec fn verdict(response: ResponseView) -> VerdictView {
    if response.tool_calls.len() > 0 {
        let call = response.tool_calls[0];
        if !call.readable {
            VerdictView::Malformed("The arguments of your tool call were not valid JSON."@)
        } else {
            VerdictView::Act(
                CommandView::CallTool {
                    call_id: call.id,
                    name: call.name,
                    input: call.arguments,
                },
            )
        }
    } else if response.text is Some && !is_blank_text(response.text->0) {
        VerdictView::Done(OutcomeView { message: response.text->0 })
    } else {
        VerdictView::Malformed("Your response contained no text and no tool calls."@)
    }
}

/// The prompt that follows the `count`-th malformed response.
pub open spec fn reprompt(complaint: Seq<char>, count: nat) -> MessageView {
    MessageView::User {
        content: complaint
            + " Please provide either a final answer or call a tool. (Attempt "@ + decimal(count)
            + "/2)"@,
    }
}

/// What follows from the start of an attempt.
pub enum AttemptView {
    /// Send this request to the provider.
    Call(RequestView),
    /// The decision is made without a call.
    Decide(DecisionView),
}

/// What follows from a failed call.
pub enum FailureView {
    /// Send the same request again after `delay` nanoseconds.
    Retry { attempt: nat, delay: nat },
    /// The decision is made.
    Decide(DecisionView),
}

/// What a [`ModelMind`] holds.
pub struct MindView {
    pub budget: RenewableBudget,
    pub spent: BudgetView,
    /// How long a single provider call may take, in nanoseconds.
    pub timeout: nat,
    pub memory: Seq<MessageView>,
    pub resuming: bool,
    pub malformed: nat,
    pub attempt: nat,
    pub seed: u64,
    pub tools: Seq<ToolSchemaView>,
}

impl MindView {
    /// The state after a perception: a new task resets working memory to its goal,
    /// an observation appends one message, and a resume changes nothing.
    pub open spec fn folded(self, perception: PerceptionView) -> MindView {
        match perception {
            PerceptionView::NewTask { goal } => MindView {
                memory: seq![MessageView::User { content: goal }],
                resuming: false,
                malformed: 0,
                ..self
            },
            PerceptionView::Observation(observation) => MindView {
                memory: self.memory.push(observation_message(observation)),
                malformed: 0,
                ..self
            },
            PerceptionView::Resume => self,
        }
    }

    /// The request that the state calls for: all of working memory and all tools.
    pub open spec fn request(self) -> RequestView {
        RequestView {
            system: "You are a helpful assistant."@,
            messages: self.memory,
            tools: self.tools,
        }
    }

    /// What an attempt that starts at `now` does: it calls the provider where the
    /// window has tokens left. Otherwise the mind throttles until the next reset,
    /// but only once: where the window after a throttle has none either, the task
    /// does not fit the budget.
    pub open spec fn attempted(self, now: nat) -> AttemptView {
        if !self.spent.exhausted(now, self.budget) {
            AttemptView::Call(self.request())
        } else if self.resuming {
            AttemptView::Decide(DecisionView::Failed(ReasonView::Task(TaskFaultView::BudgetTooSmall)))
        } else {
            AttemptView::Decide(DecisionView::Throttle(self.spent.next_reset(now, self.budget)))
        }
    }

    /// The state after an attempt that starts at `now`.
    pub open spec fn after_attempt(self, now: nat) -> MindView {
        MindView {
            spent: self.spent.refreshed(now, self.budget),
            resuming: if self.spent.exhausted(now, self.budget) {
                !self.resuming
            } else {
                self.resuming
            },
            attempt: 0,
            ..self
        }
    }

    /// The event of the budget being looked at `now`, when an attempt starts or a
    /// response comes in: one where the window rolled.
    pub open spec fn attempt_event(self, now: nat) -> Option<EventView> {
        if self.spent.window_at(now, self.budget) > self.spent.window {
            Some(EventView::WindowReset { window: self.spent.window_at(now, self.budget) })
        } else {
            None
        }
    }

    /// The number of consecutive malformed responses after one more.
    pub open spec fn more_malformed(self) -> nat {
        if self.malformed < usize::MAX {
            self.malformed + 1
        } else {
            self.malformed
        }
    }

    /// What `response` decides. `None`: the model is to be asked again.
    pub open spec fn answered(self, response: ResponseView) -> Option<DecisionView> {
        match verdict(response) {
            VerdictView::Act(command) => Some(DecisionView::Act(command)),
            VerdictView::Done(outcome) => Some(DecisionView::Done(outcome)),
            VerdictView::Malformed(_) => if self.more_malformed() > 2 {
                Some(
                    DecisionView::Failed(
                        ReasonView::Task(
                            TaskFaultView::Malformed(
                                "model produced no usable output after 3 attempts"@,
                            ),
                        ),
                    ),
                )
            } else {
                None
            },
        }
    }

    /// The state after `response` came in at `now`: its tokens are charged to the
    /// window of `now`, and the re-prompt after a malformed response is remembered.
    pub open spec fn after_answer(self, now: nat, response: ResponseView) -> MindView {
        let charged = MindView {
            spent: self.spent.charged(now, self.budget, response.usage.sum()),
            ..self
        };
        match verdict(response) {
            VerdictView::Act(_) => MindView { resuming: false, malformed: 0, ..charged },
            VerdictView::Done(_) => MindView { resuming: false, ..charged },
            VerdictView::Malformed(complaint) => if self.more_malformed() > 2 {
                MindView { resuming: false, malformed: self.more_malformed(), ..charged }
            } else {
                MindView {
                    memory: self.memory.push(reprompt(complaint, self.more_malformed())),
                    malformed: self.more_malformed(),
                    ..charged
                }
            },
        }
    }

    /// The number of the next retry of the current call.
    pub open spec fn next_attempt(self) -> nat {
        if self.attempt < usize::MAX {
            self.attempt + 1
        } else {
            self.attempt
        }
    }

    /// What follows from a call that failed with `error`: a transient error is
    /// retried without end, and any other error decides.
    pub open spec fn failed(self, error: ProviderErrorView) -> FailureView {
        match error.class() {
            ErrorClass::Transient => FailureView::Retry {
                attempt: self.next_attempt(),
                delay: backoff_nanos(
                    self.next_attempt() as usize,
                    1_000_000_000,
                    60_000_000_000,
                    self.seed,
                ),
            },
            ErrorClass::ServiceFatal => FailureView::Decide(
                DecisionView::Failed(ReasonView::Service(AgentErrorView::Provider(error))),
            ),
            ErrorClass::TaskFatal => FailureView::Decide(
                DecisionView::Failed(ReasonView::Task(TaskFaultView::BadRequest(error.text()))),
            ),
        }
    }

    /// The state after a call that failed with `error`.
    pub open spec fn after_failure(self, error: ProviderErrorView) -> MindView {
        match error.class() {
            ErrorClass::Transient => MindView { attempt: self.next_attempt(), ..self },
            _ => MindView { resuming: false, ..self },
        }
    }
}

/// What the mind says at the start of an attempt.
#[derive(Debug, PartialEq, Eq)]
pub enum Attempt {
    /// Send this request to the provider, within the per-call timeout.
    Call(ModelRequest),
    /// The decision is made without a call.
    Decide(Decision),
}

impl View for Attempt {
    type V = AttemptView;

    open spec fn view(&self) -> AttemptView {
        match self {
            Attempt::Call(request) => AttemptView::Call(request@),
            Attempt::Decide(decision) => AttemptView::Decide(decision@),
        }
    }
}

/// What the mind says to a failed call.
#[derive(Debug, PartialEq, Eq)]
pub enum Failure {
    /// Wait for `delay`, then send the same request again.
    Retry { attempt: usize, delay: Duration },
    /// The decision is made.
    Decide(Decision),
}

impl View for Failure {
    type V = FailureView;

    open spec fn view(&self) -> FailureView {
        match self {
            Failure::Retry { attempt, delay } => FailureView::Retry {
                attempt: *attempt as nat,
                delay: delay@,
            },
            Failure::Decide(decision) => FailureView::Decide(decision@),
        }
    }
}

/// A model-backed mind that owns the budget, working memory, and retry logic.
#[derive(Debug, PartialEq, Eq)]
pub struct ModelMind {
    budget: RenewableBudget,
    budget_state: BudgetState,
    per_call_timeout: Duration,
    working_memory: Vec<Message>,
    resuming: bool,
    malformed_count: usize,
    attempt: usize,
    backoff_seed: u64,
    tools: Vec<ToolSchema>,
}

impl View for ModelMind {
    type V = MindView;

    closed spec fn view(&self) -> MindView {
        MindView {
            budget: self.budget,
            spent: self.budget_state@,
            timeout: self.per_call_timeout@,
            memory: message_views(self.working_memory@),
            resuming: self.resuming,
            malformed: self.malformed_count as nat,
            attempt: self.attempt as nat,
            seed: self.backoff_seed,
            tools: schema_views(self.tools@),
        }
    }
}

impl ModelMind {
    /// A mind whose first budget window starts at `now`, which must leave room for
    /// the latest reset.
    pub fn new(budget: RenewableBudget, per_call_timeout: Duration, now: Instant) -> (mind: Self)
        requires
            now@ + u64::MAX <= Instant::max_nanos(),
        ensures
            mind@ == (MindView {
                budget,
                spent: BudgetView { start: now@, window: 0, used: 0 },
                timeout: per_call_timeout@,
                memory: seq![],
                resuming: false,
                malformed: 0,
                attempt: 0,
                seed: 12345,
                tools: seq![],
            }),
    {
        let mind = ModelMind {
            budget,
            budget_state: BudgetState::new(now),
            per_call_timeout,
            working_memory: Vec::new(),
            resuming: false,
            malformed_count: 0,
            attempt: 0,
            backoff_seed: 12345,
            tools: Vec::new(),
        };
        assert(mind@.memory =~= seq![]);
        assert(mind@.tools =~= seq![]);
        mind
    }

    /// Override the backoff jitter seed. A seed of `0` disables jitter (exact
    /// exponential delays).
    pub fn with_jitter_seed(self, seed: u64) -> (mind: Self)
        ensures
            mind@ == (MindView { seed, ..self@ }),
    {
        let mut mind = self;
        mind.backoff_seed = seed;
        mind
    }

    /// The tools that every request advertises from now on.
    pub fn set_tools(&mut self, tools: Vec<ToolSchema>)
        ensures
            final(self)@ == (MindView { tools: schema_views(tools@), ..old(self)@ }),
    {
        self.tools = tools;
    }

    /// How long a single provider call may take.
    pub fn per_call_timeout(&self) -> (span: Duration)
        ensures
            span@ == self@.timeout,
    {
        self.per_call_timeout
    }

    /// The budget as of `now`.
    pub fn budget_summary(&self, now: Instant) -> (summary: BudgetSummary)
        ensures
            summary.tokens_remaining == self@.spent.remaining(now@, self@.budget),
            summary.next_reset@ == self@.spent.next_reset(now@, self@.budget),
    {
        BudgetSummary::from_state(&self.budget_state, now, &self.budget)
    }

    /// Set the used token count of the current window.
    pub fn set_used_for_test(&mut self, used: u64)
        ensures
            final(self)@ == (MindView {
                spent: BudgetView { used: used as nat, ..old(self)@.spent },
                ..old(self)@
            }),
    {
        let mut budget_state: BudgetState = self.budget_state;
        budget_state.set_used_for_test(used);
        self.budget_state = budget_state;
    }

    /// Fold a perception into working memory.
    pub fn fold(&mut self, perception: &Perception)
        ensures
            final(self)@ == old(self)@.folded(perception@),
    {
        match perception {
            Perception::NewTask { goal } => {
                self.working_memory = Vec::new();
                self.remember(Message::User { content: goal.clone() });
                self.resuming = false;
                self.malformed_count = 0;
                assert(self@.memory =~= seq![MessageView::User { content: goal@ }]);
            },
            Perception::Observation(observation) => {
                let message = match observation {
                    Observation::ToolResult { call_id, output } => Message::Tool {
                        call_id: call_id.clone(),
                        content: output.text().to_owned(),
                    },
                    Observation::Recoverable { call_id, error } => match call_id {
                        Some(id) => Message::Tool { call_id: id.clone(), content: error.message() },
                        None => Message::User { content: error.message() },
                    },
                };
                self.remember(message);
                self.malformed_count = 0;
            },
            Perception::Resume => {},
        }
    }

    fn remember(&mut self, message: Message)
        ensures
            final(self)@ == (MindView { memory: old(self)@.memory.push(message@), ..old(self)@ }),
    {
        self.working_memory.push(message);
        assert(self@.memory =~= old(self)@.memory.push(message@));
    }

    /// Start an attempt at `now`: roll the budget window where it ended, which is
    /// an event, and say whether to call the provider.
    pub fn begin(&mut self, now: Instant) -> (begun: (Option<RunEvent>, Attempt))
        ensures
            final(self)@ == old(self)@.after_attempt(now@),
            begun.0 is Some <==> old(self)@.attempt_event(now@) is Some,
            begun.0 is Some ==> begun.0->0@ == old(self)@.attempt_event(now@)->0,
            begun.1@ == old(self)@.attempted(now@),
    {
        let event = self.roll(now);
        self.attempt = 0;
        if !self.budget_state.exhausted(now, &self.budget) {
            return (event, Attempt::Call(self.request()));
        }
        if self.resuming {
            self.resuming = false;
            (event, Attempt::Decide(Decision::Failed(Reason::Task(TaskFault::BudgetTooSmall))))
        } else {
            self.resuming = true;
            (event, Attempt::Decide(Decision::Throttle(self.budget_state.next_reset(now, &self.budget))))
        }
    }

    fn request(&self) -> (request: ModelRequest)
        ensures
            request@ == self@.request(),
    {
        ModelRequest {
            system: "You are a helpful assistant.".to_owned(),
            messages: clone_messages(&self.working_memory),
            tools: clone_schemas(self.tools.as_slice()),
        }
    }

    /// Take the response of a call that completed at `now`: charge its tokens, which
    /// is an event where the window rolled while the call was in flight, and say what
    /// it decides. `None`: start another attempt, which asks the model again. The
    /// tokens of the response must fit 64 bits.
    pub fn receive(&mut self, now: Instant, response: ModelResponse) -> (taken: (
        Option<RunEvent>,
        Option<Decision>,
    ))
        requires
            response@.usage.sum() <= u64::MAX,
        ensures
            final(self)@ == old(self)@.after_answer(now@, response@),
            taken.0 is Some <==> old(self)@.attempt_event(now@) is Some,
            taken.0 is Some ==> taken.0->0@ == old(self)@.attempt_event(now@)->0,
            taken.1 is Some <==> old(self)@.answered(response@) is Some,
            taken.1 is Some ==> taken.1->0@ == old(self)@.answered(response@)->0,
            response.tool_calls@.len() == 0 && response.text is Some && !is_blank_text(
                response.text->0@,
            ) ==> taken.1 is Some && taken.1->0@ == DecisionView::Done(
                OutcomeView { message: response.text->0@ },
            ),
            response.tool_calls@.len() > 0 && response.tool_calls@[0].readable ==> taken.1 is Some
                && taken.1->0@ == DecisionView::Act(
                CommandView::CallTool {
                    call_id: response.tool_calls@[0].id@,
                    name: response.tool_calls@[0].name@,
                    input: response.tool_calls@[0].arguments@,
                },
            ),
    {
        let event = self.roll(now);
        (event, self.take(now, response))
    }

    /// Roll the budget window where it ended by `now`, which is an event.
    fn roll(&mut self, now: Instant) -> (event: Option<RunEvent>)
        ensures
            final(self)@ == (MindView {
                spent: old(self)@.spent.refreshed(now@, old(self)@.budget),
                ..old(self)@
            }),
            event is Some <==> old(self)@.attempt_event(now@) is Some,
            event is Some ==> event->0@ == old(self)@.attempt_event(now@)->0,
    {
        let mut budget_state: BudgetState = self.budget_state;
        let rolled = budget_state.refresh(now, &self.budget);
        self.budget_state = budget_state;
        if rolled {
            Some(RunEvent::WindowReset { window: self.budget_state.current_window() })
        } else {
            None
        }
    }

    /// Charge the tokens of a response and say what it decides.
    fn take(&mut self, now: Instant, response: ModelResponse) -> (decision: Option<Decision>)
        requires
            response@.usage.sum() <= u64::MAX,
        ensures
            final(self)@ == old(self)@.after_answer(now@, response@),
            decision is Some <==> old(self)@.answered(response@) is Some,
            decision is Some ==> decision->0@ == old(self)@.answered(response@)->0,
    {
        let mut budget_state: BudgetState = self.budget_state;
        budget_state.charge(now, &self.budget, response.usage.total());
        self.budget_state = budget_state;
        let complaint = if response.tool_calls.len() > 0 {
            let call = &response.tool_calls[0];
            assert(response@.tool_calls[0] == call@);
            if call.readable {
                self.malformed_count = 0;
                self.resuming = false;
                return Some(
                    Decision::Act(
                        Command::CallTool {
                            call_id: call.id.clone(),
                            name: call.name.clone(),
                            input: call.arguments.clone(),
                        },
                    ),
                );
            }
            "The arguments of your tool call were not valid JSON."
        } else {
            if let Some(text) = &response.text {
                if !is_blank(text.as_str()) {
                    self.resuming = false;
                    return Some(Decision::Done(Outcome { message: text.clone() }));
                }
            }
            "Your response contained no text and no tool calls."
        };
        self.malformed_count = self.malformed_count.saturating_add(1);
        if self.malformed_count > 2 {
            self.resuming = false;
            return Some(
                Decision::Failed(
                    Reason::Task(
                        TaskFault::Malformed(
                            "model produced no usable output after 3 attempts".to_owned(),
                        ),
                    ),
                ),
            );
        }
        let prompt = complaint.to_owned().concat(
            " Please provide either a final answer or call a tool. (Attempt ",
        ).concat(decimal_text(self.malformed_count as u64).as_str()).concat("/2)");
        self.remember(Message::User { content: prompt });
        None
    }

    /// Take the failure of a call. A retry comes with the event that announces it.
    pub fn fail(&mut self, error: ProviderError) -> (failed: (Option<RunEvent>, Failure))
        ensures
            final(self)@ == old(self)@.after_failure(error@),
            failed.1@ == old(self)@.failed(error@),
            match old(self)@.failed(error@) {
                FailureView::Retry { attempt, delay } => failed.0 is Some && failed.0->0@
                    == (EventView::RetryScheduled { attempt, delay, error: error@ }),
                FailureView::Decide(_) => failed.0 is None,
            },
    {
        match error.class() {
            ErrorClass::Transient => {
                self.attempt = self.attempt.saturating_add(1);
                let attempt: usize = self.attempt;
                let delay = exponential_backoff(
                    attempt,
                    Duration::from_secs(1),
                    Duration::from_secs(60),
                    self.backoff_seed,
                );
                (
                    Some(RunEvent::RetryScheduled { attempt, delay, error }),
                    Failure::Retry { attempt, delay },
                )
            },
            ErrorClass::ServiceFatal => {
                self.resuming = false;
                (None, Failure::Decide(Decision::Failed(Reason::Service(AgentError::Provider(error)))))
            },
            ErrorClass::TaskFatal => {
                self.resuming = false;
                (
                    None,
                    Failure::Decide(
                        Decision::Failed(Reason::Task(TaskFault::BadRequest(error.to_string()))),
                    ),
                )
            },
        }
    }

    /// Take a call that did not complete within the per-call timeout: a transient
    /// failure like any other.
    pub fn time_out(&mut self) -> (failed: (Option<RunEvent>, Failure))
        ensures
            final(self)@ == old(self)@.after_failure(
                ProviderErrorView::Transport("call timeout"@),
            ),
            failed.1@ == old(self)@.failed(ProviderErrorView::Transport("call timeout"@)),
            failed.1@ matches FailureView::Retry { attempt, delay } && failed.0 is Some
                && failed.0->0@ == (EventView::RetryScheduled {
                attempt,
                delay,
                error: ProviderErrorView::Transport("call timeout"@),
            }),
    {
        self.fail(ProviderError::Transport("call timeout".to_owned()))
    }
}

} // verus!
