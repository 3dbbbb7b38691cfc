use agent::error::{AgentError, ErrorClass, ProviderError, ToolError};

fn api(status: u16) -> ProviderError {
    ProviderError::Api { status, body: "err".into() }
}

#[test]
fn provider_error_into_agent_error() {
    let a = AgentError::from(api(401));
    assert_eq!(a.to_string(), "fatal provider error: provider api error: 401: err");
}

#[test]
fn transport_and_decode_are_transient() {
    assert_eq!(ProviderError::Transport("x".into()).class(), ErrorClass::Transient);
    assert_eq!(ProviderError::Decode("x".into()).class(), ErrorClass::Transient);
}

#[test]
fn rate_limit_and_5xx_are_transient() {
    assert_eq!(api(429).class(), ErrorClass::Transient);
    assert_eq!(api(500).class(), ErrorClass::Transient);
    assert_eq!(api(503).class(), ErrorClass::Transient);
    assert_eq!(api(599).class(), ErrorClass::Transient);
}

#[test]
fn auth_and_config_are_service_fatal() {
    assert_eq!(api(401).class(), ErrorClass::ServiceFatal);
    assert_eq!(api(403).class(), ErrorClass::ServiceFatal);
    assert_eq!(api(404).class(), ErrorClass::ServiceFatal);
}

#[test]
fn bad_request_is_task_fatal() {
    assert_eq!(api(400).class(), ErrorClass::TaskFatal);
    assert_eq!(api(422).class(), ErrorClass::TaskFatal);
}

/// Any unlisted status has a class. An unlisted 4xx is task-fatal; an unlisted 5xx
/// falls into the transient range; 1xx/3xx are task-fatal.
#[test]
fn unclassified_statuses_are_total() {
    assert_eq!(api(418).class(), ErrorClass::TaskFatal); // unlisted 4xx
    assert_eq!(api(451).class(), ErrorClass::TaskFatal); // unlisted 4xx
    assert_eq!(api(502).class(), ErrorClass::Transient); // unlisted 5xx
    assert_eq!(api(100).class(), ErrorClass::TaskFatal); // 1xx
    assert_eq!(api(301).class(), ErrorClass::TaskFatal); // 3xx
}

#[test]
fn statuses_at_the_edges_of_the_transient_range() {
    assert_eq!(api(499).class(), ErrorClass::TaskFatal);
    assert_eq!(api(600).class(), ErrorClass::TaskFatal);
    assert_eq!(api(0).class(), ErrorClass::TaskFatal);
    assert_eq!(api(u16::MAX).class(), ErrorClass::TaskFatal);
}

#[test]
fn errors_render_their_cause() {
    assert_eq!(
        ProviderError::Transport("offline".into()).to_string(),
        "transport error: offline"
    );
    assert_eq!(
        ProviderError::Decode("bad json".into()).to_string(),
        "could not decode provider response: bad json"
    );
    assert_eq!(api(0).to_string(), "provider api error: 0: err");
    assert_eq!(ToolError::InvalidInput("x".into()).to_string(), "invalid input: x");
    assert_eq!(ToolError::ExecutionFailed("y".into()).to_string(), "execution failed: y");
}
