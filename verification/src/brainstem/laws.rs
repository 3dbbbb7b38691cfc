//! What holds of every run of a [`Brainstem`](crate::brainstem::Brainstem), whatever
//! the mind decides.

use vstd::prelude::*;

use crate::brainstem::{
    announcement, observation_events, observed, result_view, BrainstemView, Lifecycle, Next,
    NextView, Snapshot,
};
use crate::budget::BudgetSummary;
use crate::error::{AgentErrorView, ErrorClass, ProviderErrorView, ToolError, ToolErrorView};
use crate::event::{EventView, TerminationView};
use crate::json::Json;
use crate::mind::model::{observation_message, AttemptView, FailureView, MindView};
use crate::mind::{
    CommandView, DecisionView, PerceptionView, ReasonView, TaskFaultView,
};
use crate::observation::{
    ObservationView, OutcomeView, RecoverableErrorView, TaskOutcomeView,
};
use crate::provider::MessageView;

verus! {

/// One turn of an episode: the budget before the mind is asked, what it decides, and
/// the budget after that.
pub struct TurnView {
    pub before: BudgetSummary,
    pub decision: DecisionView,
    pub after: BudgetSummary,
}

/// The state after a turn, and after the waking from it where the decision was to
/// throttle.
pub open spec fn after_turn(brainstem: BrainstemView, turn: TurnView) -> BrainstemView {
    let decided = brainstem.informed(turn.before).informed(turn.after).after_decision(
        turn.decision,
    );
    if turn.decision is Throttle {
        decided.woken()
    } else {
        decided
    }
}

/// The state after several turns.
pub open spec fn after_turns(brainstem: BrainstemView, turns: Seq<TurnView>) -> BrainstemView
    decreases turns.len(),
{
    if turns.len() == 0 {
        brainstem
    } else {
        after_turn(after_turns(brainstem, turns.drop_last()), turns.last())
    }
}

/// In how many of these turns the mind decides to act.
pub open spec fn acts(turns: Seq<TurnView>) -> nat
    decreases turns.len(),
{
    if turns.len() == 0 {
        0
    } else {
        acts(turns.drop_last()) + if turns.last().decision is Act {
            1nat
        } else {
            0nat
        }
    }
}

/// A task is at work for as long as the mind acts at most `max_steps` times; every
/// act counts one step, and a throttle none. One act more, and the task fails for
/// want of progress.
pub proof fn law_steps_bound_an_episode(
    brainstem: BrainstemView,
    goal: Seq<char>,
    turns: Seq<TurnView>,
    command: CommandView,
)
    requires
        forall|i: int|
            0 <= i < turns.len() ==> (#[trigger] turns[i]).decision is Act || turns[i].decision
                is Throttle,
        acts(turns) <= brainstem.max_steps,
    ensures
        ({
            let state = after_turns(brainstem.with_task(goal), turns);
            &&& state.lifecycle == Lifecycle::Working
            &&& state.current_task == Some(goal)
            &&& state.steps_used == acts(turns)
            &&& state.max_steps == brainstem.max_steps
            &&& acts(turns) < brainstem.max_steps ==> state.next(DecisionView::Act(command))
                == NextView::Actuate(command)
            &&& acts(turns) == brainstem.max_steps ==> state.next(DecisionView::Act(command))
                == NextView::Report(TaskOutcomeView::Failed(TaskFaultView::NoProgress))
        }),
    decreases turns.len(),
{
    if turns.len() > 0 {
        law_steps_bound_an_episode(brainstem, goal, turns.drop_last(), command);
    }
}

/// No episode takes more commands than `max_steps`, whatever the mind decides.
pub proof fn law_steps_never_exceed_the_limit(
    brainstem: BrainstemView,
    goal: Seq<char>,
    turns: Seq<TurnView>,
)
    ensures
        after_turns(brainstem.with_task(goal), turns).steps_used <= brainstem.max_steps,
        after_turns(brainstem.with_task(goal), turns).max_steps == brainstem.max_steps,
    decreases turns.len(),
{
    if turns.len() > 0 {
        law_steps_never_exceed_the_limit(brainstem, goal, turns.drop_last());
    }
}

/// The only decision that ends the run is a failure of the service. When a task
/// completes or fails, the service goes on.
pub proof fn law_only_service_failures_terminate(brainstem: BrainstemView, decision: DecisionView)
    ensures
        brainstem.next(decision) is Terminate <==> decision matches DecisionView::Failed(
            ReasonView::Service(_),
        ),
        brainstem.next(decision) is Terminate <==> announcement(brainstem.next(decision))
            is Terminated,
        brainstem.next(decision) is Terminate ==> brainstem.after_decision(decision).lifecycle
            == Lifecycle::Fatal,
{
}

/// After a task was reported the brainstem is idle, and the next task starts afresh,
/// as the first one did.
pub proof fn law_tasks_do_not_affect_each_other(
    brainstem: BrainstemView,
    decision: DecisionView,
    goal: Seq<char>,
)
    requires
        brainstem.next(decision) is Report,
    ensures
        brainstem.after_decision(decision).lifecycle == Lifecycle::Idle,
        brainstem.after_decision(decision).current_task is None,
        brainstem.after_decision(decision).steps_used == 0,
        brainstem.after_decision(decision).with_task(goal) == brainstem.with_task(goal),
{
}

/// Each episode is reported once, as it ends: a completed task with its outcome and
/// a failed one with its reason. A task is completed only by the mind being done.
pub proof fn law_outcomes_are_announced(brainstem: BrainstemView, decision: DecisionView)
    ensures
        brainstem.next(decision) matches NextView::Report(outcome) ==> match outcome {
            TaskOutcomeView::Completed(answer) => announcement(brainstem.next(decision))
                == (EventView::TaskCompleted { outcome: answer }),
            TaskOutcomeView::Failed(reason) => announcement(brainstem.next(decision)) == (
            EventView::TaskFailed { reason }),
        },
        decision matches DecisionView::Done(outcome) ==> brainstem.next(decision)
            == NextView::Report(TaskOutcomeView::Completed(outcome)),
        brainstem.next(decision) matches NextView::Report(TaskOutcomeView::Completed(outcome))
            ==> decision == DecisionView::Done(outcome),
{
}

/// A status query during a throttle is told that the brainstem throttles and when it
/// will wake, and about the task as it was before. After waking it is at work again.
pub proof fn law_status_during_a_throttle(
    brainstem: BrainstemView,
    summary: BudgetSummary,
    wake: nat,
    queue_depth: nat,
)
    ensures
        ({
            let asleep = brainstem.informed(summary).after_decision(DecisionView::Throttle(wake));
            let told = asleep.snapshot(queue_depth);
            &&& told.lifecycle == Lifecycle::Throttling
            &&& told.next_reset == wake
            &&& told.tokens_remaining == summary.tokens_remaining
            &&& told.current_task == brainstem.current_task
            &&& told.steps_used == brainstem.steps_used
            &&& told.queue_depth == queue_depth
            &&& asleep.woken().snapshot(queue_depth).lifecycle == Lifecycle::Working
            &&& asleep.woken().snapshot(queue_depth).next_reset == summary.next_reset@
        }),
{
}

/// A status query is told the budget as of the last decision.
pub proof fn law_status_reports_the_last_decision(
    brainstem: BrainstemView,
    summary: BudgetSummary,
    decision: DecisionView,
    queue_depth: nat,
)
    ensures
        brainstem.informed(summary).after_decision(decision).snapshot(queue_depth).tokens_remaining
            == summary.tokens_remaining,
        !(decision is Throttle) && brainstem.lifecycle != Lifecycle::Throttling
            ==> brainstem.informed(summary).after_decision(decision).snapshot(queue_depth).next_reset
            == summary.next_reset@,
{
}

/// A recoverable error never ends anything: it is announced, and the mind gets it as
/// the last message of its working memory.
pub proof fn law_recoverable_errors_reach_the_model(
    mind: MindView,
    call_id: Seq<char>,
    error: RecoverableErrorView,
    now: nat,
)
    ensures
        ({
            let observation = ObservationView::Recoverable { call_id: Some(call_id), error };
            let told = mind.folded(PerceptionView::Observation(observation));
            &&& observation_events(observation).last() == (EventView::RecoverableObservation {
                error,
            })
            &&& told.memory.last() == (MessageView::Tool { call_id, content: error.message() })
            &&& told.attempted(now) matches AttemptView::Call(request) ==> request.messages.last()
                == observation_message(observation)
        }),
{
}

/// A provider error that is fatal to the service ends the run with its text; one
/// that is fatal to the task fails the task, and the service goes on.
pub proof fn law_provider_errors_escalate_by_class(
    brainstem: BrainstemView,
    mind: MindView,
    error: ProviderErrorView,
)
    ensures
        error.class() == ErrorClass::ServiceFatal ==> (mind.failed(error) matches FailureView::Decide(
            decision,
        ) && brainstem.next(decision) == NextView::Terminate(
            TerminationView::Fatal(AgentErrorView::Provider(error).text()),
        )),
        error.class() == ErrorClass::TaskFatal ==> (mind.failed(error) matches FailureView::Decide(
            decision,
        ) && brainstem.next(decision) == NextView::Report(
            TaskOutcomeView::Failed(TaskFaultView::BadRequest(error.text())),
        ) && brainstem.after_decision(decision).lifecycle == Lifecycle::Idle),
{
}

/// With an empty quota a task sleeps once, until the reset, and is then reported as
/// not fitting the budget; the service goes on.
pub proof fn law_an_empty_quota_fails_the_task_only(
    brainstem: BrainstemView,
    mind: MindView,
    goal: Seq<char>,
    now: nat,
    later: nat,
    summary: BudgetSummary,
)
    requires
        mind.budget.max_tokens == 0,
    ensures
        ({
            let asked = mind.folded(PerceptionView::NewTask { goal });
            let reset = mind.spent.next_reset(now, mind.budget);
            let resumed = asked.after_attempt(now).folded(PerceptionView::Resume);
            let working = brainstem.with_task(goal);
            &&& asked.attempted(now) matches AttemptView::Decide(first) && {
                &&& working.next(first) == NextView::Sleep(reset)
                &&& resumed.attempted(later) matches AttemptView::Decide(second) && {
                    let woken = working.informed(summary).after_decision(first).woken();
                    &&& woken.next(second) == NextView::Report(
                        TaskOutcomeView::Failed(TaskFaultView::BudgetTooSmall),
                    )
                    &&& woken.after_decision(second).lifecycle == Lifecycle::Idle
                }
            }
        }),
{
}

/// What each decision leads to. A command within the limit is run as it is and costs
/// one step; beyond the limit the task fails. An answer and a fault are reported as
/// they are, a service error ends the run with its text, and a throttle is slept out
/// until its instant.
pub proof fn law_decisions_lead_where_they_should(
    brainstem: BrainstemView,
    command: CommandView,
    outcome: OutcomeView,
    fault: TaskFaultView,
    error: AgentErrorView,
    wake: nat,
)
    ensures
        brainstem.steps_used < brainstem.max_steps ==> {
            &&& brainstem.next(DecisionView::Act(command)) == NextView::Actuate(command)
            &&& brainstem.after_decision(DecisionView::Act(command)).steps_used
                == brainstem.steps_used + 1
            &&& brainstem.after_decision(DecisionView::Act(command)).current_task
                == brainstem.current_task
            &&& brainstem.after_decision(DecisionView::Act(command)).lifecycle
                == brainstem.lifecycle
        },
        brainstem.steps_used >= brainstem.max_steps ==> brainstem.next(DecisionView::Act(command))
            == NextView::Report(TaskOutcomeView::Failed(TaskFaultView::NoProgress)),
        brainstem.next(DecisionView::Done(outcome)) == NextView::Report(
            TaskOutcomeView::Completed(outcome),
        ),
        brainstem.next(DecisionView::Failed(ReasonView::Task(fault))) == NextView::Report(
            TaskOutcomeView::Failed(fault),
        ),
        brainstem.next(DecisionView::Failed(ReasonView::Service(error))) == NextView::Terminate(
            TerminationView::Fatal(error.text()),
        ),
        brainstem.next(DecisionView::Throttle(wake)) == NextView::Sleep(wake),
        brainstem.after_decision(DecisionView::Throttle(wake)).steps_used == brainstem.steps_used,
        brainstem.after_decision(DecisionView::Throttle(wake)).current_task
            == brainstem.current_task,
        brainstem.after_decision(DecisionView::Throttle(wake)).wake == Some(wake),
        brainstem.woken().wake is None,
        brainstem.woken().steps_used == brainstem.steps_used,
        brainstem.woken().current_task == brainstem.current_task,
{
}

/// Every step of the loop is announced as what it is: a command by its id and its
/// name, a sleep by when it ends, an end by its reason.
pub proof fn law_announcements(
    call_id: Seq<char>,
    name: Seq<char>,
    input: Seq<char>,
    wake: nat,
    outcome: OutcomeView,
    fault: TaskFaultView,
    reason: TerminationView,
)
    ensures
        announcement(NextView::Actuate(CommandView::CallTool { call_id, name, input })) == (
        EventView::Command { call_id, name }),
        announcement(NextView::Sleep(wake)) == (EventView::ThrottleSleep { wake }),
        announcement(NextView::Report(TaskOutcomeView::Completed(outcome))) == (
        EventView::TaskCompleted { outcome }),
        announcement(NextView::Report(TaskOutcomeView::Failed(fault))) == (EventView::TaskFailed {
            reason: fault,
        }),
        announcement(NextView::Terminate(reason)) == (EventView::Terminated { reason }),
{
}

/// How observations are announced: a result as a success of its call, an error as a
/// failure of its call and then as the error that it is.
pub proof fn law_observations_are_announced(
    call_id: Seq<char>,
    output: Seq<char>,
    error: RecoverableErrorView,
)
    ensures
        observation_events(ObservationView::ToolResult { call_id, output }) == seq![
            EventView::CommandResult { call_id, ok: true },
        ],
        observation_events(ObservationView::Recoverable { call_id: Some(call_id), error }) == seq![
            EventView::CommandResult { call_id, ok: false },
            EventView::RecoverableObservation { error },
        ],
        observation_events(ObservationView::Recoverable { call_id: None, error }) == seq![
            EventView::CommandResult { call_id: ""@, ok: false },
            EventView::RecoverableObservation { error },
        ],
{
}

/// What is observed of a tool that ran: its output under its call, or its failure
/// under its call and its name, with the text of the error.
pub proof fn law_results_are_observed(
    call_id: Seq<char>,
    name: Seq<char>,
    output: Seq<char>,
    error: ToolErrorView,
    result: Result<Json, ToolError>,
)
    ensures
        observed(call_id, name, Ok(output)) == (ObservationView::ToolResult { call_id, output }),
        observed(call_id, name, Err(error)) == (ObservationView::Recoverable {
            call_id: Some(call_id),
            error: RecoverableErrorView::ToolFailed { name, error: error.text() },
        }),
        result matches Ok(json) ==> result_view(result) == Ok::<Seq<char>, ToolErrorView>(json@),
        result matches Err(why) ==> result_view(result) == Err::<Seq<char>, ToolErrorView>(why@),
{
}

/// A status query is told what the brainstem holds, and how many tasks wait. Only
/// while it throttles does the time of waking stand for the reset.
pub proof fn law_status_tells_the_state(
    brainstem: BrainstemView,
    summary: BudgetSummary,
    queue_depth: nat,
)
    ensures
        ({
            let told = brainstem.snapshot(queue_depth);
            &&& told.lifecycle == brainstem.lifecycle
            &&& told.current_task == brainstem.current_task
            &&& told.tokens_remaining == brainstem.tokens_remaining
            &&& told.queue_depth == queue_depth
            &&& told.steps_used == brainstem.steps_used
            &&& brainstem.lifecycle != Lifecycle::Throttling ==> told.next_reset
                == brainstem.next_reset
            &&& brainstem.lifecycle == Lifecycle::Throttling && brainstem.wake is Some
                ==> told.next_reset == brainstem.wake->0
        }),
        brainstem.informed(summary).tokens_remaining == summary.tokens_remaining,
        brainstem.informed(summary).next_reset == summary.next_reset@,
        brainstem.informed(summary).lifecycle == brainstem.lifecycle,
        brainstem.informed(summary).current_task == brainstem.current_task,
        brainstem.informed(summary).steps_used == brainstem.steps_used,
        brainstem.informed(summary).wake == brainstem.wake,
        brainstem.informed(summary).max_steps == brainstem.max_steps,
{
}

/// Taking a task up changes nothing but the task, the steps and the lifecycle.
pub proof fn law_tasks_are_taken_up(brainstem: BrainstemView, goal: Seq<char>)
    ensures
        brainstem.with_task(goal).lifecycle == Lifecycle::Working,
        brainstem.with_task(goal).current_task == Some(goal),
        brainstem.with_task(goal).steps_used == 0,
        brainstem.with_task(goal).max_steps == brainstem.max_steps,
        brainstem.with_task(goal).tokens_remaining == brainstem.tokens_remaining,
        brainstem.with_task(goal).next_reset == brainstem.next_reset,
        brainstem.without_task().max_steps == brainstem.max_steps,
        brainstem.without_task().tokens_remaining == brainstem.tokens_remaining,
        brainstem.without_task().next_reset == brainstem.next_reset,
{
}

/// The views of snapshots and of what is to be done next keep everything that they
/// hold.
pub proof fn law_brainstem_views(snapshot: Snapshot, next: Next)
    ensures
        snapshot@.lifecycle == snapshot.lifecycle,
        snapshot@.current_task is Some <==> snapshot.current_task is Some,
        snapshot.current_task matches Some(goal) ==> snapshot@.current_task == Some(goal@),
        snapshot@.tokens_remaining == snapshot.tokens_remaining,
        snapshot@.next_reset == snapshot.next_reset@,
        snapshot@.queue_depth == snapshot.queue_depth,
        snapshot@.steps_used == snapshot.steps_used,
        next matches Next::Actuate(command) ==> next@ == NextView::Actuate(command@),
        next matches Next::Sleep(wake) ==> next@ == NextView::Sleep(wake@),
        next matches Next::Report(outcome) ==> next@ == NextView::Report(outcome@),
        next matches Next::Terminate(reason) ==> next@ == NextView::Terminate(reason@),
{
}

} // verus!
