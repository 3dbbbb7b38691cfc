use agent::observation::RecoverableError;

#[test]
fn recoverable_error_display_matches_message() {
    let error = RecoverableError::ToolFailed {
        name: "search".to_string(),
        error: "timeout".to_string(),
    };

    assert_eq!(error.to_string(), error.message());
}

#[test]
fn recoverable_errors_render_for_the_model() {
    let failed = RecoverableError::ToolFailed {
        name: "search".to_string(),
        error: "timeout".to_string(),
    };
    assert_eq!(failed.message(), "error: tool 'search' failed: timeout");
    let unknown = RecoverableError::UnknownTool("frobnicate".to_string());
    assert_eq!(unknown.message(), "error: no tool named 'frobnicate' is available");
}
