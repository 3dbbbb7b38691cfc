use agent::action::{Action, ActionOutcome, RecoverableError};
use agent::memory::{Memory, Record};
use agent::Json;

fn json(text: &str) -> Json {
    Json::parse(text).expect("valid JSON")
}

#[test]
fn records_plan_then_outcome_in_order() {
    let mut m = Memory::new("ship it");
    m.record_plan(
        1,
        Some("call the tool".into()),
        vec![Action::CallTool {
            call_id: "c1".into(),
            name: "calculator".into(),
            input: json("{\"expression\": \"1+1\"}"),
        }],
    );
    m.record_outcome(
        1,
        ActionOutcome::ToolResult {
            call_id: "c1".into(),
            name: "calculator".into(),
            output: json("{\"result\": 2.0}"),
        },
    );
    assert_eq!(m.goal(), "ship it");
    assert_eq!(m.records().len(), 2);
    assert!(matches!(m.records()[0], Record::Plan { step: 1, .. }));
    assert!(matches!(m.records()[1], Record::Outcome { step: 1, .. }));
}

#[test]
fn a_snapshot_is_a_copy_with_a_schema() {
    let mut m = Memory::new("g");
    m.record_outcome(
        2,
        ActionOutcome::Recoverable {
            call_id: None,
            error: RecoverableError::UnknownTool("nope".into()),
        },
    );
    let snap = m.snapshot();
    assert_eq!(snap.schema, 1);
    assert_eq!(snap.goal, "g");
    assert_eq!(snap.records.as_slice(), m.records());
    // What is recorded later does not show in it.
    m.record_plan(3, None, Vec::new());
    assert_eq!(snap.records.len(), 1);
    assert_eq!(m.records().len(), 2);
    assert_eq!(m.records()[0], snap.records[0]);
}

#[test]
fn recoverable_plan_errors_render_for_the_model() {
    assert_eq!(
        RecoverableError::MalformedPlan("no tool".into()).message(),
        "error: malformed action: no tool"
    );
    assert_eq!(
        RecoverableError::UnknownTool("nope".into()).message(),
        "error: no tool named 'nope' is available"
    );
    assert_eq!(
        RecoverableError::ToolFailed { name: "t".into(), error: "boom".into() }.message(),
        "error: tool 't' failed: boom"
    );
}
