use pomotention::chat::AppState;
use pomotention::chat::ChatInput;
use pomotention::chat::ChatMessage;
use pomotention::gateway::error_message;
use pomotention::gateway::extract_content;
use pomotention::gateway::handle_outcome;
use pomotention::gateway::prepare_call;
use pomotention::gateway::ChatError;
use pomotention::gateway::HttpOutcome;
use pomotention::json::JsonValue;

#[test]
fn success_response_extracts_content() {
    let outcome = HttpOutcome::Response {
        status: 200,
        body: "{\"choices\":[{\"message\":{\"content\":\"hi\"}}]}".to_string(),
    };
    match handle_outcome(outcome) {
        Ok(out) => assert_eq!(out.content, "hi"),
        Err(_) => panic!("expected success"),
    }
}

#[test]
fn empty_choices_yields_empty_content() {
    let outcome = HttpOutcome::Response { status: 200, body: "{\"choices\":[]}".to_string() };
    match handle_outcome(outcome) {
        Ok(out) => assert_eq!(out.content, ""),
        Err(_) => panic!("expected success"),
    }
}

#[test]
fn missing_choices_yields_empty_content() {
    let outcome = HttpOutcome::Response { status: 200, body: "{}".to_string() };
    match handle_outcome(outcome) {
        Ok(out) => assert_eq!(out.content, ""),
        Err(_) => panic!("expected success"),
    }
}

#[test]
fn non_string_content_yields_empty_content() {
    let outcome = HttpOutcome::Response {
        status: 200,
        body: "{\"choices\":[{\"message\":{\"content\":5}}]}".to_string(),
    };
    match handle_outcome(outcome) {
        Ok(out) => assert_eq!(out.content, ""),
        Err(_) => panic!("expected success"),
    }
}

#[test]
fn api_error_carries_status_and_body() {
    let outcome = HttpOutcome::Response { status: 401, body: "unauthorized".to_string() };
    match handle_outcome(outcome) {
        Err(e) => {
            match &e {
                ChatError::Api(status, body) => {
                    assert_eq!(*status, 401);
                    assert_eq!(body, "unauthorized");
                }
                _ => panic!("expected an API error"),
            }
            let msg = error_message(&e);
            assert_eq!(msg, "API error: 401 - unauthorized");
            assert!(msg.contains("401") && msg.contains("unauthorized"));
        }
        Ok(_) => panic!("expected an error"),
    }
}

#[test]
fn network_error_distinct_from_api_error() {
    let outcome = HttpOutcome::Failure("connection refused".to_string());
    match handle_outcome(outcome) {
        Err(e) => {
            assert!(matches!(&e, ChatError::Network(m) if m == "connection refused"));
            let msg = error_message(&e);
            assert_eq!(msg, "Network error: connection refused");
            assert!(!msg.starts_with("API error:"));
        }
        Ok(_) => panic!("expected an error"),
    }
}

#[test]
fn invalid_json_is_a_decode_error() {
    let outcome = HttpOutcome::Response { status: 200, body: "not json".to_string() };
    match handle_outcome(outcome) {
        Err(ChatError::Decode(m)) => assert!(!m.is_empty()),
        _ => panic!("expected a decode error"),
    }
}

#[test]
fn status_range_edges() {
    let ok = HttpOutcome::Response { status: 299, body: "{}".to_string() };
    assert!(handle_outcome(ok).is_ok());
    let err = HttpOutcome::Response { status: 300, body: "{}".to_string() };
    assert!(handle_outcome(err).is_err());
}

#[test]
fn extract_content_walks_the_path() {
    let message = JsonValue::Object(vec![(
        "message".to_string(),
        JsonValue::Object(vec![("content".to_string(), JsonValue::Str("answer".to_string()))]),
    )]);
    let doc = JsonValue::Object(vec![(
        "choices".to_string(),
        JsonValue::Array(vec![message]),
    )]);
    assert_eq!(extract_content(&doc), "answer");
    assert_eq!(extract_content(&JsonValue::Null), "");
    assert_eq!(extract_content(&JsonValue::Object(Vec::new())), "");
}

#[test]
fn prepare_call_composes_resolver_and_translator() {
    let state = AppState { api_key: "default-key".to_string() };
    let req = ChatInput {
        messages: vec![ChatMessage { role: "user".to_string(), content: "hello".to_string() }],
        model: None,
        temperature: None,
        stream: None,
        provider: Some("kimi".to_string()),
        endpoint: None,
        api_key: None,
        base_url: None,
    };
    let call = prepare_call(&state, &req);
    assert_eq!(call.endpoint, "https://api.moonshot.cn/v1/chat/completions");
    assert_eq!(call.api_key, "default-key");
    assert!(matches!(call.body, JsonValue::Object(_)));
}
