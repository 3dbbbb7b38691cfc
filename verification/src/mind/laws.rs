//! What holds of every decision of a [`ModelMind`](crate::mind::model::ModelMind),
//! whatever the provider answers and whenever it does.

use vstd::prelude::*;

use crate::budget::{law_exhausted_when_nothing_remains, law_reset_opens_the_next_window};
use crate::error::{AgentErrorView, ErrorClass, ProviderErrorView};
use crate::event::EventView;
use crate::json::json_compact;
use crate::mind::backoff::{backoff_nanos, backoff_target, law_backoff_never_exceeds_the_cap};
use crate::mind::model::{
    observation_message, reprompt, verdict, Attempt, AttemptView, Failure, FailureView, MindView, VerdictView,
};
use crate::mind::{CommandView, DecisionView, PerceptionView, ReasonView, TaskFaultView};
use crate::observation::{ObservationView, OutcomeView, RecoverableErrorView};
use crate::provider::openai::{read_response, ChatResponse};
use crate::provider::{MessageView, ResponseView};
use crate::text::{decimal, is_blank_text, is_white_space};

verus! {

// --- working memory ---

/// One thing that happens to a mind.
pub enum StepView {
    Perceived(PerceptionView),
    /// An attempt started.
    Attempted { now: nat },
    /// A response came in.
    Answered { now: nat, response: ResponseView },
    /// A call failed.
    Failed(ProviderErrorView),
}

/// The state after one step.
pub open spec fn after_step(mind: MindView, step: StepView) -> MindView {
    match step {
        StepView::Perceived(perception) => mind.folded(perception),
        StepView::Attempted { now } => mind.after_attempt(now),
        StepView::Answered { now, response } => mind.after_answer(now, response),
        StepView::Failed(error) => mind.after_failure(error),
    }
}

/// The state after several steps.
pub open spec fn after_steps(mind: MindView, steps: Seq<StepView>) -> MindView
    decreases steps.len(),
{
    if steps.len() == 0 {
        mind
    } else {
        after_step(after_steps(mind, steps.drop_last()), steps.last())
    }
}

/// How many malformed responses came in since the last observation or tool call.
pub open spec fn malformed_run(steps: Seq<StepView>) -> nat
    decreases steps.len(),
{
    if steps.len() == 0 {
        0
    } else {
        let before = malformed_run(steps.drop_last());
        match steps.last() {
            StepView::Perceived(PerceptionView::Observation(_)) => 0,
            StepView::Answered { response, .. } => match verdict(response) {
                VerdictView::Act(_) => 0,
                VerdictView::Done(_) => before,
                VerdictView::Malformed(_) => before + 1,
            },
            _ => before,
        }
    }
}

/// The messages that some steps of a task leave behind, in order: one for each
/// observation, and a re-prompt for each malformed response up to the second in a
/// row.
pub open spec fn messages_left(steps: Seq<StepView>) -> Seq<MessageView>
    decreases steps.len(),
{
    if steps.len() == 0 {
        seq![]
    } else {
        let before = messages_left(steps.drop_last());
        match steps.last() {
            StepView::Perceived(PerceptionView::Observation(observation)) => before.push(
                observation_message(observation),
            ),
            StepView::Answered { response, .. } => match verdict(response) {
                VerdictView::Malformed(complaint) if malformed_run(steps) <= 2 => before.push(
                    reprompt(complaint, malformed_run(steps)),
                ),
                _ => before,
            },
            _ => before,
        }
    }
}

/// A task starts from its goal alone: nothing that the mind held before it can be
/// told from the working memory.
pub proof fn law_new_task_forgets(one: MindView, other: MindView, goal: Seq<char>)
    ensures
        one.folded(PerceptionView::NewTask { goal }).memory == seq![
            MessageView::User { content: goal },
        ],
        one.folded(PerceptionView::NewTask { goal }).memory == other.folded(
            PerceptionView::NewTask { goal },
        ).memory,
        !one.folded(PerceptionView::NewTask { goal }).resuming,
        one.folded(PerceptionView::NewTask { goal }).malformed == 0,
{
}

/// Working memory holds the goal and then the observations and the re-prompts, in
/// order, and nothing else. Resuming after a throttle, retrying and usable responses
/// add nothing, so no observation is remembered twice.
pub proof fn law_memory_is_the_goal_observations_and_reprompts(
    mind: MindView,
    goal: Seq<char>,
    steps: Seq<StepView>,
)
    requires
        steps.len() < usize::MAX,
        forall|i: int|
            0 <= i < steps.len() ==> !((#[trigger] steps[i]) matches StepView::Perceived(
                PerceptionView::NewTask { .. },
            )),
    ensures
        ({
            let state = after_steps(mind.folded(PerceptionView::NewTask { goal }), steps);
            &&& state.memory == seq![MessageView::User { content: goal }] + messages_left(steps)
            &&& state.malformed == malformed_run(steps)
        }),
    decreases steps.len(),
{
    let first = seq![MessageView::User { content: goal }];
    if steps.len() == 0 {
        assert(first + seq![] =~= first);
    } else {
        let before = messages_left(steps.drop_last());
        law_memory_is_the_goal_observations_and_reprompts(mind, goal, steps.drop_last());
        lemma_malformed_run_is_bounded(steps.drop_last());
        let all = messages_left(steps);
        if all.len() > before.len() {
            assert(first + before.push(all.last()) =~= (first + before).push(all.last()));
        }
    }
}

proof fn lemma_malformed_run_is_bounded(steps: Seq<StepView>)
    ensures
        malformed_run(steps) <= steps.len(),
    decreases steps.len(),
{
    if steps.len() > 0 {
        lemma_malformed_run_is_bounded(steps.drop_last());
    }
}

// --- requests ---

/// Every request carries the whole working memory and every tool that was set.
pub proof fn law_requests_carry_memory_and_tools(mind: MindView, now: nat)
    ensures
        mind.attempted(now) matches AttemptView::Call(request) ==> request.messages == mind.memory
            && request.tools == mind.tools,
{
}

/// Nothing that the mind perceives or is told changes its tools, its budget, its
/// timeout or its seed.
pub proof fn law_tools_stay_set(
    mind: MindView,
    perception: PerceptionView,
    now: nat,
    response: ResponseView,
    error: ProviderErrorView,
)
    ensures
        mind.folded(perception).tools == mind.tools,
        mind.after_attempt(now).tools == mind.tools,
        mind.after_answer(now, response).tools == mind.tools,
        mind.after_failure(error).tools == mind.tools,
        mind.folded(perception).budget == mind.budget,
        mind.after_attempt(now).budget == mind.budget,
        mind.after_answer(now, response).budget == mind.budget,
        mind.after_failure(error).budget == mind.budget,
        mind.folded(perception).timeout == mind.timeout,
        mind.after_attempt(now).timeout == mind.timeout,
        mind.after_answer(now, response).timeout == mind.timeout,
        mind.after_failure(error).timeout == mind.timeout,
        mind.folded(perception).seed == mind.seed,
        mind.after_attempt(now).seed == mind.seed,
        mind.after_answer(now, response).seed == mind.seed,
        mind.after_failure(error).seed == mind.seed,
{
}

// --- retries ---

/// A transient error is answered with a retry of the identical request, costs no
/// tokens and leaves no trace in working memory. Any other error decides at once.
pub proof fn law_retries_reissue_the_request(mind: MindView, error: ProviderErrorView)
    ensures
        error.class() == ErrorClass::Transient <==> mind.failed(error) is Retry,
        error.class() == ErrorClass::Transient ==> mind.after_failure(error).request()
            == mind.request(),
        mind.after_failure(error).spent == mind.spent,
        mind.after_failure(error).memory == mind.memory,
{
}

/// The state after the calls of one attempt failed with these errors.
pub open spec fn after_failures(mind: MindView, errors: Seq<ProviderErrorView>) -> MindView
    decreases errors.len(),
{
    if errors.len() == 0 {
        mind
    } else {
        after_failures(mind, errors.drop_last()).after_failure(errors.last())
    }
}

/// Retries have no end: after any number of transient errors the next one is
/// retried too, the request is still the same, and the retries were counted.
pub proof fn law_retries_are_unbounded(
    mind: MindView,
    errors: Seq<ProviderErrorView>,
    error: ProviderErrorView,
)
    requires
        mind.attempt == 0,
        errors.len() < usize::MAX,
        forall|i: int|
            0 <= i < errors.len() ==> (#[trigger] errors[i]).class() == ErrorClass::Transient,
        error.class() == ErrorClass::Transient,
    ensures
        after_failures(mind, errors) == (MindView { attempt: errors.len(), ..mind }),
        after_failures(mind, errors).request() == mind.request(),
        after_failures(mind, errors).failed(error) matches FailureView::Retry { attempt, .. }
            && attempt == errors.len() + 1,
    decreases errors.len(),
{
    if errors.len() > 0 {
        law_retries_are_unbounded(mind, errors.drop_last(), errors.last());
    }
}

/// Retries back off: without jitter the delays are one second, two, four and so on,
/// up to a minute; with jitter they are never longer.
pub proof fn law_retries_back_off(mind: MindView, error: ProviderErrorView)
    requires
        mind.attempt <= usize::MAX,
    ensures
        mind.failed(error) matches FailureView::Retry { attempt, delay } ==> {
            &&& delay <= backoff_target(attempt, 1_000_000_000, 60_000_000_000) <= 60_000_000_000
            &&& mind.seed == 0 ==> delay == backoff_target(
                attempt,
                1_000_000_000,
                60_000_000_000,
            )
            &&& attempt <= usize::MAX && delay == backoff_nanos(
                attempt as usize,
                1_000_000_000,
                60_000_000_000,
                mind.seed,
            )
        },
{
    law_backoff_never_exceeds_the_cap(
        mind.next_attempt() as usize,
        1_000_000_000,
        60_000_000_000,
        mind.seed,
    );
}

/// An error that is fatal to the service, and no other error, fails the service.
pub proof fn law_only_service_fatal_errors_fail_the_service(
    mind: MindView,
    error: ProviderErrorView,
    now: nat,
    response: ResponseView,
)
    ensures
        error.class() == ErrorClass::ServiceFatal <==> (mind.failed(error)
            matches FailureView::Decide(DecisionView::Failed(ReasonView::Service(_)))),
        !(mind.attempted(now) matches AttemptView::Decide(
            DecisionView::Failed(ReasonView::Service(_)),
        )),
        !(mind.answered(response) matches Some(DecisionView::Failed(ReasonView::Service(_)))),
{
}

// --- responses ---

/// A response that calls a tool with readable arguments acts on the first call,
/// whatever text comes with it.
pub proof fn law_tool_calls_win_over_text(mind: MindView, response: ResponseView)
    requires
        response.tool_calls.len() > 0,
        response.tool_calls[0].readable,
    ensures
        mind.answered(response) == Some(
            DecisionView::Act(
                CommandView::CallTool {
                    call_id: response.tool_calls[0].id,
                    name: response.tool_calls[0].name,
                    input: response.tool_calls[0].arguments,
                },
            ),
        ),
{
}

/// Two consecutive malformed responses are answered with a re-prompt each, which
/// only appends to working memory. The third fails the task.
pub proof fn law_two_malformed_responses_are_recovered(
    mind: MindView,
    first: ResponseView,
    second: ResponseView,
    third: ResponseView,
    one: nat,
    two: nat,
)
    requires
        mind.malformed == 0,
        verdict(first) is Malformed,
        verdict(second) is Malformed,
        verdict(third) is Malformed,
    ensures
        mind.answered(first) is None,
        mind.after_answer(one, first).answered(second) is None,
        mind.after_answer(one, first).after_answer(two, second).answered(third) matches Some(
            DecisionView::Failed(ReasonView::Task(TaskFaultView::Malformed(_))),
        ),
        mind.after_answer(one, first).after_answer(two, second).memory.len() == mind.memory.len()
            + 2,
        mind.memory.is_prefix_of(mind.after_answer(one, first).after_answer(two, second).memory),
{
}

/// A usable response decides, however many malformed ones came before it.
pub proof fn law_usable_responses_decide(mind: MindView, response: ResponseView)
    requires
        !(verdict(response) is Malformed),
    ensures
        match verdict(response) {
            VerdictView::Act(command) => mind.answered(response) == Some(
                DecisionView::Act(command),
            ),
            VerdictView::Done(outcome) => mind.answered(response) == Some(
                DecisionView::Done(outcome),
            ),
            VerdictView::Malformed(_) => false,
        },
{
}

/// No failure is disguised as a success: the mind is done only when the model gave a
/// final text and called no tool, and the outcome is that text.
pub proof fn law_only_a_final_text_is_done(
    mind: MindView,
    now: nat,
    response: ResponseView,
    error: ProviderErrorView,
)
    ensures
        !(mind.attempted(now) matches AttemptView::Decide(DecisionView::Done(_))),
        !(mind.failed(error) matches FailureView::Decide(DecisionView::Done(_))),
        mind.answered(response) matches Some(DecisionView::Done(outcome)) ==> {
            &&& response.tool_calls.len() == 0
            &&& response.text == Some(outcome.message)
            &&& !is_blank_text(outcome.message)
        },
{
}

/// A tool call that comes in with arguments that are no JSON is malformed, whatever
/// text comes with it. Any JSON is readable, `null` too.
pub proof fn law_unreadable_arguments_are_malformed(parsed: ChatResponse)
    requires
        parsed.choices@.len() > 0,
        parsed.choices@[0].message.tool_calls@.len() > 0,
    ensures
        read_response(Ok(parsed)) matches Ok(response) && (verdict(response) is Malformed <==>
            json_compact(
            parsed.choices@[0].message.tool_calls@[0].function.arguments@,
        ) is None),
{
}

/// An observation ends a run of malformed responses.
pub proof fn law_observations_reset_the_malformed_count(
    mind: MindView,
    observation: ObservationView,
)
    ensures
        mind.folded(PerceptionView::Observation(observation)).malformed == 0,
{
}

// --- budget ---

/// Whenever the mind makes a decision other than to throttle, it is not resuming
/// any more.
pub proof fn law_decisions_end_resuming(
    mind: MindView,
    now: nat,
    response: ResponseView,
    error: ProviderErrorView,
)
    ensures
        mind.attempted(now) matches AttemptView::Decide(decision) && !(decision is Throttle)
            ==> !mind.after_attempt(now).resuming,
        mind.answered(response) is Some ==> !mind.after_answer(now, response).resuming,
        mind.failed(error) is Decide ==> !mind.after_failure(error).resuming,
{
}

/// The mind resumes only after a throttle: nothing else that happens to it makes it
/// resume, and only a mind that resumes finds the budget too small.
pub proof fn law_only_throttled_tasks_are_too_dear(
    mind: MindView,
    perception: PerceptionView,
    now: nat,
    response: ResponseView,
    error: ProviderErrorView,
)
    ensures
        mind.after_attempt(now).resuming && !mind.resuming ==> mind.attempted(now)
            == AttemptView::Decide(
            DecisionView::Throttle(mind.spent.next_reset(now, mind.budget)),
        ),
        mind.folded(perception).resuming ==> mind.resuming,
        mind.after_answer(now, response).resuming ==> mind.resuming,
        mind.after_failure(error).resuming ==> mind.resuming,
        mind.attempted(now) == AttemptView::Decide(
            DecisionView::Failed(ReasonView::Task(TaskFaultView::BudgetTooSmall)),
        ) ==> mind.resuming && mind.spent.exhausted(now, mind.budget),
{
}

/// A window that grants no token at all is waited out once, without a call; after
/// that the task fails.
pub proof fn law_an_empty_quota_throttles_then_fails(mind: MindView, now: nat, later: nat)
    requires
        mind.budget.max_tokens == 0,
        !mind.resuming,
    ensures
        mind.attempted(now) == AttemptView::Decide(
            DecisionView::Throttle(mind.spent.next_reset(now, mind.budget)),
        ),
        mind.after_attempt(now).folded(PerceptionView::Resume).attempted(later)
            == AttemptView::Decide(
            DecisionView::Failed(ReasonView::Task(TaskFaultView::BudgetTooSmall)),
        ),
{
}

/// A throttle ends at its reset: there the next window opens with nothing used, and
/// a quota of at least one token funds a call with the same request.
pub proof fn law_a_throttle_ends_at_its_reset(mind: MindView, now: nat)
    requires
        mind.budget.max_tokens > 0,
        mind.attempted(now) matches AttemptView::Decide(DecisionView::Throttle(_)),
        mind.budget.period.nanos() > 0,
        mind.spent.start <= now,
        mind.budget.period.nanos() * (((now - mind.spent.start) as nat
            / mind.budget.period.nanos()) + 1) <= u64::MAX,
        mind.spent.window <= mind.spent.window_at(now, mind.budget),
    ensures
        ({
            let reset = mind.spent.next_reset(now, mind.budget);
            let resumed = mind.after_attempt(now).folded(PerceptionView::Resume);
            &&& now < reset
            &&& resumed.attempted(reset) == AttemptView::Call(mind.request())
            &&& resumed.after_attempt(reset).spent.used == 0
        }),
{
    law_reset_opens_the_next_window(mind.spent, now, mind.budget);
}

/// Only completed calls cost tokens: each is charged in full to the window in which
/// it completes.
pub proof fn law_only_responses_are_charged(
    mind: MindView,
    perception: PerceptionView,
    now: nat,
    response: ResponseView,
    error: ProviderErrorView,
)
    ensures
        mind.folded(perception).spent == mind.spent,
        mind.after_failure(error).spent == mind.spent,
        mind.after_attempt(now).spent == mind.spent.refreshed(now, mind.budget),
        mind.after_answer(now, response).spent == mind.spent.charged(
            now,
            mind.budget,
            response.usage.sum(),
        ),
{
}

/// Every crossing into a later window is announced once: the window that the budget
/// counts rises when an attempt starts or a response comes in, and just then there is
/// the event, with the new window. Nothing else moves the window, and a second look
/// at the same instant finds no crossing any more.
pub proof fn law_window_crossings_are_announced(
    mind: MindView,
    perception: PerceptionView,
    now: nat,
    response: ResponseView,
    error: ProviderErrorView,
)
    ensures
        mind.attempt_event(now) is Some <==> mind.after_attempt(now).spent.window
            > mind.spent.window,
        mind.attempt_event(now) is Some <==> mind.after_answer(now, response).spent.window
            > mind.spent.window,
        mind.attempt_event(now) is Some ==> mind.attempt_event(now) == Some(
            EventView::WindowReset { window: mind.after_attempt(now).spent.window },
        ),
        mind.after_answer(now, response).spent.window == mind.after_attempt(now).spent.window,
        mind.attempt_event(now) is None ==> mind.after_attempt(now).spent.window
            == mind.spent.window,
        mind.folded(perception).spent.window == mind.spent.window,
        mind.after_failure(error).spent.window == mind.spent.window,
        mind.after_attempt(now).attempt_event(now) is None,
        mind.after_answer(now, response).attempt_event(now) is None,
{
}

// --- whole decisions ---

/// What came back from one provider call.
pub enum ReplyView {
    /// A response that came in at `now`; the next attempt, if there is one, starts at
    /// `again`.
    Answer { now: nat, response: ResponseView, again: nat },
    Error(ProviderErrorView),
}

/// The decision of a mind that waits for a provider call, where the provider gives
/// these replies in order. `None`: the mind still waits for a reply.
pub open spec fn decision_while_calling(mind: MindView, replies: Seq<ReplyView>) -> Option<
    DecisionView,
>
    decreases replies.len(),
{
    if replies.len() == 0 {
        None
    } else {
        match replies[0] {
            ReplyView::Error(error) => match mind.failed(error) {
                FailureView::Retry { .. } => decision_while_calling(
                    mind.after_failure(error),
                    replies.drop_first(),
                ),
                FailureView::Decide(decision) => Some(decision),
            },
            ReplyView::Answer { now, response, again } => match mind.answered(response) {
                Some(decision) => Some(decision),
                None => {
                    let asked = mind.after_answer(now, response);
                    match asked.attempted(again) {
                        AttemptView::Call(_) => decision_while_calling(
                            asked.after_attempt(again),
                            replies.drop_first(),
                        ),
                        AttemptView::Decide(decision) => Some(decision),
                    }
                },
            },
        }
    }
}

/// The decision of a mind whose first attempt starts at `now`, where the provider
/// gives these replies in order.
pub open spec fn decision(mind: MindView, now: nat, replies: Seq<ReplyView>) -> Option<
    DecisionView,
> {
    match mind.attempted(now) {
        AttemptView::Call(_) => decision_while_calling(mind.after_attempt(now), replies),
        AttemptView::Decide(decision) => Some(decision),
    }
}

/// A mind that is not resuming never finds the budget too small, however its calls
/// come out: where the window is exhausted, it throttles first.
pub proof fn law_first_exhaustion_throttles(mind: MindView, now: nat, replies: Seq<ReplyView>)
    requires
        !mind.resuming,
    ensures
        decision(mind, now, replies) != Some(
            DecisionView::Failed(ReasonView::Task(TaskFaultView::BudgetTooSmall)),
        ),
        decision_while_calling(mind, replies) != Some(
            DecisionView::Failed(ReasonView::Task(TaskFaultView::BudgetTooSmall)),
        ),
{
    lemma_not_resuming_while_calling(mind, replies);
    if mind.attempted(now) is Call {
        lemma_not_resuming_while_calling(mind.after_attempt(now), replies);
    }
}

proof fn lemma_not_resuming_while_calling(mind: MindView, replies: Seq<ReplyView>)
    requires
        !mind.resuming,
    ensures
        decision_while_calling(mind, replies) != Some(
            DecisionView::Failed(ReasonView::Task(TaskFaultView::BudgetTooSmall)),
        ),
    decreases replies.len(),
{
    if replies.len() > 0 {
        let rest = replies.drop_first();
        match replies[0] {
            ReplyView::Error(error) => {
                lemma_not_resuming_while_calling(mind.after_failure(error), rest);
            },
            ReplyView::Answer { now, response, again } => {
                let asked = mind.after_answer(now, response);
                if asked.attempted(again) is Call {
                    lemma_not_resuming_while_calling(asked.after_attempt(again), rest);
                }
            },
        }
    }
}

/// A new task has nothing of the tasks before it, whatever they left behind, a
/// throttle too: its first request holds its goal alone, and its first decision is
/// never that the budget is too small.
pub proof fn law_new_tasks_start_afresh(
    mind: MindView,
    goal: Seq<char>,
    now: nat,
    replies: Seq<ReplyView>,
)
    ensures
        ({
            let asked = mind.folded(PerceptionView::NewTask { goal });
            &&& asked.attempted(now) matches AttemptView::Call(request) ==> request.messages
                == seq![MessageView::User { content: goal }]
            &&& decision(asked, now, replies) != Some(
                DecisionView::Failed(ReasonView::Task(TaskFaultView::BudgetTooSmall)),
            )
        }),
{
    law_first_exhaustion_throttles(mind.folded(PerceptionView::NewTask { goal }), now, replies);
}

/// A mind that is resuming never throttles, however its calls come out and however
/// often the model is asked again: where the window is exhausted again, the task does
/// not fit the budget.
pub proof fn law_a_resuming_mind_never_throttles(
    mind: MindView,
    now: nat,
    replies: Seq<ReplyView>,
)
    requires
        mind.resuming,
    ensures
        !(decision(mind, now, replies) matches Some(DecisionView::Throttle(_))),
        !(decision_while_calling(mind, replies) matches Some(DecisionView::Throttle(_))),
{
    lemma_resuming_while_calling(mind, replies);
    if mind.attempted(now) is Call {
        lemma_resuming_while_calling(mind.after_attempt(now), replies);
    }
}

proof fn lemma_resuming_while_calling(mind: MindView, replies: Seq<ReplyView>)
    requires
        mind.resuming,
    ensures
        !(decision_while_calling(mind, replies) matches Some(DecisionView::Throttle(_))),
    decreases replies.len(),
{
    if replies.len() > 0 {
        let rest = replies.drop_first();
        match replies[0] {
            ReplyView::Error(error) => {
                if mind.failed(error) is Retry {
                    lemma_resuming_while_calling(mind.after_failure(error), rest);
                }
            },
            ReplyView::Answer { now, response, again } => {
                let asked = mind.after_answer(now, response);
                if mind.answered(response) is None && asked.attempted(again) is Call {
                    lemma_resuming_while_calling(asked.after_attempt(again), rest);
                }
            },
        }
    }
}

/// The mind does not throttle twice in a row: whatever it is asked when it throttles,
/// in its first attempt or after a re-prompt, the whole decision after waking is never
/// to throttle again.
pub proof fn law_throttling_is_not_repeated(
    mind: MindView,
    now: nat,
    later: nat,
    replies: Seq<ReplyView>,
)
    requires
        mind.attempted(now) matches AttemptView::Decide(DecisionView::Throttle(_)),
    ensures
        ({
            let resumed = mind.after_attempt(now).folded(PerceptionView::Resume);
            &&& resumed.resuming
            &&& resumed.request() == mind.request()
            &&& !(decision(resumed, later, replies) matches Some(DecisionView::Throttle(_)))
        }),
{
    law_a_resuming_mind_never_throttles(
        mind.after_attempt(now).folded(PerceptionView::Resume),
        later,
        replies,
    );
}

/// How often a call was retried makes no difference to the decision.
proof fn lemma_retries_do_not_decide(mind: MindView, attempt: nat, replies: Seq<ReplyView>)
    ensures
        decision_while_calling(MindView { attempt, ..mind }, replies) == decision_while_calling(
            mind,
            replies,
        ),
    decreases replies.len(),
{
    let other = MindView { attempt, ..mind };
    if replies.len() > 0 {
        let rest = replies.drop_first();
        match replies[0] {
            ReplyView::Error(error) => {
                if error.class() == ErrorClass::Transient {
                    lemma_retries_do_not_decide(
                        mind,
                        other.after_failure(error).attempt,
                        rest,
                    );
                    lemma_retries_do_not_decide(mind, mind.after_failure(error).attempt, rest);
                }
            },
            ReplyView::Answer { now, response, again } => {
                let asked = mind.after_answer(now, response).after_attempt(again);
                assert(other.after_answer(now, response).after_attempt(again) == asked);
            },
        }
    }
}

/// Transient errors never change what is decided: with any number of them in front
/// of the replies, the decision is the same as without them.
pub proof fn law_transient_errors_never_decide(
    mind: MindView,
    errors: Seq<ProviderErrorView>,
    replies: Seq<ReplyView>,
)
    requires
        forall|i: int|
            0 <= i < errors.len() ==> (#[trigger] errors[i]).class() == ErrorClass::Transient,
    ensures
        decision_while_calling(
            mind,
            errors.map_values(|error: ProviderErrorView| ReplyView::Error(error)) + replies,
        ) == decision_while_calling(mind, replies),
    decreases errors.len(),
{
    let wrap = |error: ProviderErrorView| ReplyView::Error(error);
    let all = errors.map_values(wrap) + replies;
    if errors.len() == 0 {
        assert(all =~= replies);
    } else {
        let error = errors[0];
        assert(all[0] == ReplyView::Error(error));
        assert(all.drop_first() =~= errors.drop_first().map_values(wrap) + replies);
        law_transient_errors_never_decide(mind.after_failure(error), errors.drop_first(), replies);
        lemma_retries_do_not_decide(mind, mind.after_failure(error).attempt, replies);
    }
}

/// A decision takes at most three responses: with three answers in hand and no
/// malformed response before them, the mind has decided.
pub proof fn law_three_responses_decide(mind: MindView, replies: Seq<ReplyView>)
    requires
        mind.malformed == 0,
        replies.len() == 3,
        forall|i: int| 0 <= i < 3 ==> (#[trigger] replies[i]) is Answer,
    ensures
        decision_while_calling(mind, replies) is Some,
{
    let second = replies.drop_first();
    let third = second.drop_first();
    assert(replies[0] is Answer && second[0] == replies[1] && third[0] == replies[2]);
    assert(replies[1] is Answer && replies[2] is Answer);
    reveal_with_fuel(decision_while_calling, 4);
}

// --- what each response, error and instant leads to ---

/// A response without tool calls is done where it has a text that is not blank,
/// whatever its length, and the outcome is that text. Where it has none, it is
/// malformed.
pub proof fn law_final_texts_are_done(mind: MindView, response: ResponseView)
    requires
        response.tool_calls.len() == 0,
    ensures
        response.text is Some && (exists|i: int|
            0 <= i < response.text->0.len() && !is_white_space(#[trigger] response.text->0[i]))
            ==> mind.answered(response) == Some(
            DecisionView::Done(OutcomeView { message: response.text->0 }),
        ),
        response.text is Some && !is_blank_text(response.text->0) ==> mind.answered(response)
            == Some(DecisionView::Done(OutcomeView { message: response.text->0 })),
        response.text is None || is_blank_text(response.text->0) ==> !(mind.answered(response)
            matches Some(DecisionView::Done(_))) && !(mind.answered(response) matches Some(
            DecisionView::Act(_),
        )),
{
}

/// A response whose first tool call cannot be read neither acts nor is done, whatever
/// else it holds.
pub proof fn law_unreadable_calls_decide_nothing(mind: MindView, response: ResponseView)
    requires
        response.tool_calls.len() > 0,
        !response.tool_calls[0].readable,
    ensures
        mind.malformed < 2 ==> mind.answered(response) is None,
        mind.malformed >= 2 ==> mind.answered(response) == Some(
            DecisionView::Failed(
                ReasonView::Task(
                    TaskFaultView::Malformed("model produced no usable output after 3 attempts"@),
                ),
            ),
        ),
{
}

/// What becomes of an unusable response: the first two in a row are answered with a
/// prompt that says what was wrong and which attempt it was; after that the task
/// fails, and nothing is added to working memory.
pub proof fn law_unusable_responses(mind: MindView, response: ResponseView, now: nat)
    requires
        if response.tool_calls.len() > 0 {
            !response.tool_calls[0].readable
        } else {
            response.text is None || is_blank_text(response.text->0)
        },
        mind.malformed < usize::MAX,
    ensures
        ({
            let after = mind.after_answer(now, response);
            let why = if response.tool_calls.len() > 0 {
                "The arguments of your tool call were not valid JSON."@
            } else {
                "Your response contained no text and no tool calls."@
            };
            &&& after.malformed == mind.malformed + 1
            &&& mind.malformed < 2 ==> {
                &&& mind.answered(response) is None
                &&& after.memory == mind.memory.push(
                    MessageView::User {
                        content: why
                            + " Please provide either a final answer or call a tool. (Attempt "@
                            + decimal(mind.malformed + 1) + "/2)"@,
                    },
                )
                &&& after.resuming == mind.resuming
            }
            &&& mind.malformed >= 2 ==> {
                &&& mind.answered(response) == Some(
                    DecisionView::Failed(
                        ReasonView::Task(
                            TaskFaultView::Malformed(
                                "model produced no usable output after 3 attempts"@,
                            ),
                        ),
                    ),
                )
                &&& after.memory == mind.memory
            }
        }),
{
}

/// A usable response adds nothing to working memory, and a call to a tool starts the
/// count of unusable ones anew.
pub proof fn law_usable_responses_leave_memory_alone(
    mind: MindView,
    response: ResponseView,
    now: nat,
)
    requires
        if response.tool_calls.len() > 0 {
            response.tool_calls[0].readable
        } else {
            response.text is Some && !is_blank_text(response.text->0)
        },
    ensures
        mind.after_answer(now, response).memory == mind.memory,
        response.tool_calls.len() > 0 ==> mind.after_answer(now, response).malformed == 0,
        mind.answered(response) is Some,
{
}

/// How observations are remembered: under the call that they belong to where there is
/// one, with the output of the tool or the message of the error.
pub proof fn law_observations_are_remembered(
    mind: MindView,
    call_id: Seq<char>,
    output: Seq<char>,
    error: RecoverableErrorView,
)
    ensures
        mind.folded(
            PerceptionView::Observation(ObservationView::ToolResult { call_id, output }),
        ).memory == mind.memory.push(MessageView::Tool { call_id, content: output }),
        mind.folded(
            PerceptionView::Observation(
                ObservationView::Recoverable { call_id: Some(call_id), error },
            ),
        ).memory == mind.memory.push(MessageView::Tool { call_id, content: error.message() }),
        mind.folded(
            PerceptionView::Observation(ObservationView::Recoverable { call_id: None, error }),
        ).memory == mind.memory.push(MessageView::User { content: error.message() }),
        mind.folded(PerceptionView::Resume) == mind,
        mind.folded(
            PerceptionView::Observation(ObservationView::ToolResult { call_id, output }),
        ).resuming == mind.resuming,
{
}

/// A window with tokens left is spent on a call, with the same short prompt, all of
/// working memory and all tools. An exhausted one is never spent: the mind throttles
/// until the window ends, or gives the task up where it has throttled already.
pub proof fn law_windows_with_tokens_are_spent(mind: MindView, now: nat)
    ensures
        mind.spent.remaining(now, mind.budget) > 0 ==> (mind.attempted(now)
            matches AttemptView::Call(request) && {
            &&& request.system == "You are a helpful assistant."@
            &&& request.messages == mind.memory
            &&& request.tools == mind.tools
        }),
        mind.spent.remaining(now, mind.budget) == 0 && !mind.resuming ==> mind.attempted(now)
            == AttemptView::Decide(
            DecisionView::Throttle(mind.spent.next_reset(now, mind.budget)),
        ),
        mind.spent.remaining(now, mind.budget) == 0 && mind.resuming ==> mind.attempted(now)
            == AttemptView::Decide(
            DecisionView::Failed(ReasonView::Task(TaskFaultView::BudgetTooSmall)),
        ),
        mind.after_attempt(now).memory == mind.memory,
        mind.after_attempt(now).malformed == mind.malformed,
        mind.after_attempt(now).attempt == 0,
        mind.attempted(now) is Call ==> mind.after_attempt(now).resuming == mind.resuming,
        mind.attempted(now) is Decide ==> mind.after_attempt(now).resuming == !mind.resuming,
{
    law_exhausted_when_nothing_remains(mind.spent, now, mind.budget);
}

/// What each failing call leads to, by what went wrong: 429, every status from 500 to
/// 599, and a provider that cannot be reached or understood are tried again, as the
/// next retry; 401, 403 and 404 fail the service with the error itself; every other
/// status fails the task with the text of the error.
pub proof fn law_failures_lead_where_they_should(
    mind: MindView,
    status: u16,
    body: Seq<char>,
    why: Seq<char>,
)
    requires
        mind.attempt < usize::MAX,
    ensures
        mind.failed(ProviderErrorView::Transport(why)) matches FailureView::Retry { attempt, .. }
            && attempt == mind.attempt + 1,
        mind.failed(ProviderErrorView::Decode(why)) matches FailureView::Retry { attempt, .. }
            && attempt == mind.attempt + 1,
        ({
            let error = ProviderErrorView::Api { status, body };
            if status == 429 || 500 <= status <= 599 {
                mind.failed(error) matches FailureView::Retry { attempt, .. } && attempt
                    == mind.attempt + 1
            } else if status == 401 || status == 403 || status == 404 {
                mind.failed(error) == FailureView::Decide(
                    DecisionView::Failed(ReasonView::Service(AgentErrorView::Provider(error))),
                )
            } else {
                mind.failed(error) == FailureView::Decide(
                    DecisionView::Failed(
                        ReasonView::Task(
                            TaskFaultView::BadRequest(
                                "provider api error: "@ + decimal(status as nat) + ": "@ + body,
                            ),
                        ),
                    ),
                )
            }
        }),
{
}

/// The views of what the mind says keep everything that it holds.
pub proof fn law_model_views(attempt: Attempt, failure: Failure)
    ensures
        attempt matches Attempt::Call(request) ==> attempt@ == AttemptView::Call(request@),
        attempt matches Attempt::Decide(made) ==> attempt@ == AttemptView::Decide(made@),
        failure matches Failure::Retry { attempt: number, delay } ==> failure@ == (
        FailureView::Retry { attempt: number as nat, delay: delay@ }),
        failure matches Failure::Decide(made) ==> failure@ == FailureView::Decide(made@),
{
}

} // verus!
