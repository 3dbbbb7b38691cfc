//! Run memory: the goal plus a typed transcript of what the agent planned and
//! observed. It is the single source of truth a planner reads to rebuild the
//! next model request (the API is stateless — memory is the state).

use vstd::prelude::*;

use crate::action::{
    action_views, clone_actions, Action, ActionOutcome, ActionOutcomeView, ActionView,
};
use crate::text::optional_text;

verus! {

broadcast use vstd::string::group_string_axioms;

/// One entry in the transcript.
#[derive(Debug, PartialEq, Eq)]
pub enum Record {
    /// The planner's turn: its reasoning and the actions it chose.
    Plan { step: usize, thought: Option<String>, actions: Vec<Action> },
    /// The result of executing one action (tool result or a recovered error).
    /// `Finished` outcomes are not recorded — the run ends instead.
    Outcome { step: usize, outcome: ActionOutcome },
}

/// What a [`Record`] says.
pub enum RecordView {
    Plan { step: nat, thought: Option<Seq<char>>, actions: Seq<ActionView> },
    Outcome { step: nat, outcome: ActionOutcomeView },
}

impl View for Record {
    type V = RecordView;

    open spec fn view(&self) -> RecordView {
        match self {
            Record::Plan { step, thought, actions } => RecordView::Plan {
                step: *step as nat,
                thought: optional_text(*thought),
                actions: action_views(actions@),
            },
            Record::Outcome { step, outcome } => RecordView::Outcome {
                step: *step as nat,
                outcome: outcome@,
            },
        }
    }
}

impl Clone for Record {
    fn clone(&self) -> (copy: Self)
        ensures
            copy@ == self@,
    {
        match self {
            Record::Plan { step, thought, actions } => Record::Plan {
                step: *step,
                thought: thought.clone(),
                actions: clone_actions(actions),
            },
            Record::Outcome { step, outcome } => Record::Outcome {
                step: *step,
                outcome: outcome.clone(),
            },
        }
    }
}

/// What a sequence of records says.
pub open spec fn record_views(records: Seq<Record>) -> Seq<RecordView> {
    records.map_values(|record: Record| record@)
}

/// A copy of `records`.
fn clone_records(records: &Vec<Record>) -> (copy: Vec<Record>)
    ensures
        record_views(copy@) == record_views(records@),
{
    let copy = records.clone();
    assert(record_views(copy@) =~= record_views(records@));
    copy
}

/// Mutable run memory.
#[derive(Debug, PartialEq, Eq)]
pub struct Memory {
    goal: String,
    records: Vec<Record>,
}

/// What a [`Memory`] holds: the goal and the transcript, oldest entry first.
pub struct MemoryView {
    pub goal: Seq<char>,
    pub records: Seq<RecordView>,
}

impl MemoryView {
    /// What a snapshot of this memory says.
    pub open spec fn snapshot(self) -> MemorySnapshotView {
        MemorySnapshotView { schema: 1, goal: self.goal, records: self.records }
    }

    /// This memory with one more entry at the end of the transcript.
    pub open spec fn recorded(self, record: RecordView) -> MemoryView {
        MemoryView { records: self.records.push(record), ..self }
    }
}

impl View for Memory {
    type V = MemoryView;

    closed spec fn view(&self) -> MemoryView {
        MemoryView { goal: self.goal@, records: record_views(self.records@) }
    }
}

impl Clone for Memory {
    fn clone(&self) -> (copy: Self)
        ensures
            copy@ == self@,
    {
        Memory { goal: self.goal.clone(), records: clone_records(&self.records) }
    }
}

/// A point-in-time copy of [`Memory`] for replay/debugging.
#[derive(Debug, PartialEq, Eq)]
pub struct MemorySnapshot {
    pub schema: u32,
    pub goal: String,
    pub records: Vec<Record>,
}

/// What a [`MemorySnapshot`] says.
pub struct MemorySnapshotView {
    pub schema: u32,
    pub goal: Seq<char>,
    pub records: Seq<RecordView>,
}

impl View for MemorySnapshot {
    type V = MemorySnapshotView;

    open spec fn view(&self) -> MemorySnapshotView {
        MemorySnapshotView {
            schema: self.schema,
            goal: self.goal@,
            records: record_views(self.records@),
        }
    }
}

impl Clone for MemorySnapshot {
    fn clone(&self) -> (copy: Self)
        ensures
            copy@ == self@,
    {
        MemorySnapshot {
            schema: self.schema,
            goal: self.goal.clone(),
            records: clone_records(&self.records),
        }
    }
}

impl Memory {
    /// A memory that holds the goal and nothing else.
    pub fn new(goal: &str) -> (memory: Self)
        ensures
            memory@ == (MemoryView { goal: goal@, records: seq![] }),
    {
        let memory = Memory { goal: goal.to_owned(), records: Vec::new() };
        assert(memory@.records =~= seq![]);
        memory
    }

    /// The goal.
    pub fn goal(&self) -> (goal: &str)
        ensures
            goal@ == self@.goal,
    {
        self.goal.as_str()
    }

    /// The transcript, oldest entry first.
    pub fn records(&self) -> (records: &[Record])
        ensures
            record_views(records@) == self@.records,
    {
        self.records.as_slice()
    }

    /// Record a planner's turn.
    pub fn record_plan(&mut self, step: usize, thought: Option<String>, actions: Vec<Action>)
        ensures
            final(self)@ == old(self)@.recorded(
                RecordView::Plan {
                    step: step as nat,
                    thought: optional_text(thought),
                    actions: action_views(actions@),
                },
            ),
    {
        let record = Record::Plan { step, thought, actions };
        self.records.push(record);
        assert(self@.records =~= old(self)@.records.push(record@));
    }

    /// Record the result of one action.
    pub fn record_outcome(&mut self, step: usize, outcome: ActionOutcome)
        ensures
            final(self)@ == old(self)@.recorded(
                RecordView::Outcome { step: step as nat, outcome: outcome@ },
            ),
    {
        let record = Record::Outcome { step, outcome };
        self.records.push(record);
        assert(self@.records =~= old(self)@.records.push(record@));
    }

    /// A copy of this memory, marked with schema 1.
    pub fn snapshot(&self) -> (snapshot: MemorySnapshot)
        ensures
            snapshot@ == self@.snapshot(),
    {
        MemorySnapshot {
            schema: 1,
            goal: self.goal.clone(),
            records: clone_records(&self.records),
        }
    }
}

/// A snapshot holds all of a memory: memories with the same snapshot are the same,
/// and what is recorded later is what a later snapshot has more.
pub proof fn law_snapshots_hold_everything(one: MemoryView, other: MemoryView, record: RecordView)
    ensures
        one.snapshot().schema == 1,
        one.snapshot() == other.snapshot() <==> one == other,
        one.recorded(record).snapshot() == (MemorySnapshotView {
            records: one.snapshot().records.push(record),
            ..one.snapshot()
        }),
{
}

/// Recording adds one entry at the end and keeps the goal and every earlier entry
/// as they are.
pub proof fn law_recording_only_appends(memory: MemoryView, record: RecordView)
    ensures
        memory.recorded(record).goal == memory.goal,
        memory.recorded(record).records.len() == memory.records.len() + 1,
        memory.recorded(record).records.last() == record,
        memory.recorded(record).records.drop_last() == memory.records,
{
    assert(memory.recorded(record).records.drop_last() =~= memory.records);
}

/// The views of records and snapshots keep everything that they hold.
pub proof fn law_record_views(record: Record, records: Seq<Record>, snapshot: MemorySnapshot)
    ensures
        record matches Record::Plan { step, thought: Some(thought), actions } ==> record@ == (
        RecordView::Plan {
            step: step as nat,
            thought: Some(thought@),
            actions: action_views(actions@),
        }),
        record matches Record::Plan { step, thought: None, actions } ==> record@ == (
        RecordView::Plan { step: step as nat, thought: None, actions: action_views(actions@) }),
        record matches Record::Outcome { step, outcome } ==> record@ == (RecordView::Outcome {
            step: step as nat,
            outcome: outcome@,
        }),
        record_views(records).len() == records.len(),
        forall|i: int| 0 <= i < records.len() ==> #[trigger] record_views(records)[i] == records[i]@,
        snapshot@.schema == snapshot.schema,
        snapshot@.goal == snapshot.goal@,
        snapshot@.records == record_views(snapshot.records@),
{
}

} // verus!
