use agent::provider::openai::{
    accept, build_body, parse_response, ChatResponse, Choice, ChoiceMessage, FunctionIn,
    ToolCallIn, UsageIn,
};
use agent::{
    FakeProvider, Json, Message, ModelRequest, ModelResponse, OpenAiProvider, ProviderError,
    ToolCall, ToolSchema, Usage,
};
use serde_json::Value;

fn json(text: &str) -> Json {
    Json::parse(text).expect("valid JSON")
}

fn request(system: &str) -> ModelRequest {
    ModelRequest { system: system.into(), messages: Vec::new(), tools: Vec::new() }
}

fn text_of(value: &Value) -> String {
    value.as_str().expect("a string").to_string()
}

/// Reads the fields of a response body.
fn read(body: &str) -> Result<ChatResponse, String> {
    let value: Value = serde_json::from_str(body).map_err(|e| e.to_string())?;
    let mut choices = Vec::new();
    for choice in value["choices"].as_array().cloned().unwrap_or_default() {
        let message = &choice["message"];
        let mut tool_calls = Vec::new();
        for call in message["tool_calls"].as_array().cloned().unwrap_or_default() {
            tool_calls.push(ToolCallIn {
                id: text_of(&call["id"]),
                function: FunctionIn {
                    name: text_of(&call["function"]["name"]),
                    arguments: text_of(&call["function"]["arguments"]),
                },
            });
        }
        choices.push(Choice {
            message: ChoiceMessage {
                content: message["content"].as_str().map(|text| text.to_string()),
                tool_calls,
            },
        });
    }
    let usage = value["usage"].as_object().map(|usage| UsageIn {
        prompt_tokens: usage["prompt_tokens"].as_u64().unwrap_or(0),
        completion_tokens: usage["completion_tokens"].as_u64().unwrap_or(0),
    });
    Ok(ChatResponse { choices, usage })
}

#[test]
fn usage_total_sums_tokens() {
    let r = ModelResponse::text("hi").with_usage(10, 4);
    assert_eq!(r.usage.total(), 14);
}

#[test]
fn tool_call_builder_sets_one_call() {
    let r = ModelResponse::tool_call("c1", "calculator", json("{\"expression\": \"1+1\"}"));
    assert!(r.text.is_none());
    assert_eq!(r.tool_calls.len(), 1);
    assert_eq!(r.tool_calls[0].name, "calculator");
}

#[test]
fn replays_in_order_and_records_requests() {
    let mut provider = FakeProvider::new(vec![
        Ok(ModelResponse::text("first")),
        Ok(ModelResponse::text("second")),
    ]);
    let req = request("sys");

    assert_eq!(provider.complete(&req).unwrap().text.as_deref(), Some("first"));
    assert_eq!(provider.complete(&req).unwrap().text.as_deref(), Some("second"));
    assert_eq!(provider.requests().len(), 2);
}

#[test]
fn exhausted_script_errors() {
    let mut provider = FakeProvider::new(vec![]);
    let req = request("");
    assert!(provider.complete(&req).is_err());
    assert_eq!(
        provider.complete(&req),
        Err(ProviderError::Api { status: 500, body: "FakeProvider script exhausted".into() })
    );
}

#[test]
fn scripted_errors_are_replayed_too() {
    let mut provider = FakeProvider::new(vec![
        Err(ProviderError::Decode("bad".into())),
        Ok(ModelResponse::text("good")),
    ]);
    assert_eq!(provider.complete(&request("a")), Err(ProviderError::Decode("bad".into())));
    assert_eq!(provider.complete(&request("b")), Ok(ModelResponse::text("good")));
    assert_eq!(provider.requests(), vec![request("a"), request("b")]);
}

#[test]
fn from_vars_requires_all_three() {
    assert!(
        OpenAiProvider::from_vars(Some("u".into()), Some("k".into()), Some("m".into())).is_some()
    );
    assert!(OpenAiProvider::from_vars(None, Some("k".into()), Some("m".into())).is_none());
    assert!(OpenAiProvider::from_vars(Some("u".into()), None, Some("m".into())).is_none());
    assert!(OpenAiProvider::from_vars(Some("u".into()), Some("k".into()), None).is_none());
}

#[test]
fn the_endpoint_has_one_slash() {
    for base in ["https://api.example/v1", "https://api.example/v1/", "https://api.example/v1//"] {
        let provider = OpenAiProvider::new(base, "key", "gpt-test");
        assert_eq!(provider.endpoint(), "https://api.example/v1/chat/completions");
        assert_eq!(provider.api_key(), "key");
        assert_eq!(provider.body(&request("")).model, "gpt-test");
    }
}

#[test]
fn build_body_maps_roles_and_tool_calls() {
    let request = ModelRequest {
        system: "be precise".into(),
        messages: vec![
            Message::User { content: "add 1 and 2".into() },
            Message::Assistant {
                content: None,
                tool_calls: vec![ToolCall {
                    id: "c1".into(),
                    name: "calculator".into(),
                    arguments: json("{\"expression\": \"1+2\"}"),
                    readable: true,
                }],
            },
            Message::Tool { call_id: "c1".into(), content: "{\"result\":3.0}".into() },
        ],
        tools: vec![ToolSchema {
            name: "calculator".into(),
            description: "math".into(),
            parameters: json("{\"type\": \"object\"}"),
        }],
    };
    let body = build_body(&request, "gpt-test");

    assert_eq!(body.model, "gpt-test");
    assert_eq!(body.messages[0].role, "system");
    assert_eq!(body.messages[1].role, "user");
    assert_eq!(body.messages[2].role, "assistant");
    // arguments serialized as a JSON-encoded string
    assert_eq!(
        body.messages[2].tool_calls.as_ref().unwrap()[0].function.arguments,
        "{\"expression\":\"1+2\"}"
    );
    assert_eq!(body.messages[3].role, "tool");
    assert_eq!(body.messages[3].tool_call_id.as_deref(), Some("c1"));
    assert_eq!(body.tools[0].function.name, "calculator");
}

#[test]
fn build_body_leaves_out_what_is_empty() {
    let request = ModelRequest {
        system: String::new(),
        messages: vec![Message::Assistant { content: Some("hi".into()), tool_calls: Vec::new() }],
        tools: Vec::new(),
    };
    let body = build_body(&request, "m");
    assert_eq!(body.messages.len(), 1);
    assert_eq!(body.messages[0].role, "assistant");
    assert_eq!(body.messages[0].tool_calls, None);
    assert!(body.tools.is_empty());
}

#[test]
fn parse_response_reads_tool_call_and_usage() {
    let body = r#"{
        "choices": [{
            "message": {
                "content": null,
                "tool_calls": [{
                    "id": "call_abc",
                    "type": "function",
                    "function": { "name": "calculator", "arguments": "{\"expression\":\"2+2\"}" }
                }]
            }
        }],
        "usage": { "prompt_tokens": 31, "completion_tokens": 9 }
    }"#;
    let r = parse_response(read(body)).unwrap();
    assert_eq!(r.text, None);
    assert_eq!(r.tool_calls.len(), 1);
    assert_eq!(r.tool_calls[0].id, "call_abc");
    assert_eq!(r.tool_calls[0].arguments, json("{\"expression\": \"2+2\"}"));
    assert_eq!(r.usage, Usage { input_tokens: 31, output_tokens: 9 });
}

#[test]
fn parse_response_reads_plain_text() {
    let body = r#"{"choices":[{"message":{"content":"the answer is 4"}}]}"#;
    let r = parse_response(read(body)).unwrap();
    assert_eq!(r.text.as_deref(), Some("the answer is 4"));
    assert!(r.tool_calls.is_empty());
    assert_eq!(r.usage, Usage::default());
}

#[test]
fn parse_response_errors_on_no_choices() {
    let err = parse_response(read(r#"{"choices":[]}"#)).unwrap_err();
    assert!(matches!(err, ProviderError::Decode(_)));
    assert_eq!(err, ProviderError::Decode("response had no choices".into()));
}

#[test]
fn parse_response_errors_on_garbage() {
    assert!(matches!(parse_response(read("not json")), Err(ProviderError::Decode(_))));
}

#[test]
fn unreadable_arguments_are_marked() {
    let body = r#"{"choices":[{"message":{"tool_calls":[
        {"id":"a","function":{"name":"calculator","arguments":"{oops"}},
        {"id":"b","function":{"name":"calculator","arguments":" { \"x\" : 1 } "}},
        {"id":"c","function":{"name":"calculator","arguments":" null "}}
    ]}}]}"#;
    let r = parse_response(read(body)).unwrap();
    assert_eq!(r.tool_calls[0].arguments, Json::null());
    assert!(!r.tool_calls[0].readable);
    assert_eq!(r.tool_calls[1].arguments.text(), "{\"x\":1}");
    assert!(r.tool_calls[1].readable);
    assert_eq!(r.tool_calls[2].arguments, Json::null());
    assert!(r.tool_calls[2].readable);
}

#[test]
fn only_success_statuses_are_accepted() {
    for status in [200, 204, 299] {
        assert_eq!(accept(status, "body".into()), Ok("body".to_string()));
    }
    for status in [100, 199, 300, 404, 500] {
        assert_eq!(
            accept(status, "body".into()),
            Err(ProviderError::Api { status, body: "body".into() })
        );
    }
}
