use agent::RunEvent;

#[test]
fn events_compare_by_value() {
    let a = RunEvent::TaskReceived { goal: "test".into() };
    let b = RunEvent::TaskReceived { goal: "test".into() };
    assert_eq!(a, b);
    assert_ne!(a, RunEvent::TaskReceived { goal: "other".into() });
}
