use pomotention::chat::ChatInput;
use pomotention::chat::ChatMessage;
use pomotention::json::JsonValue;
use pomotention::translator::translate;

fn input() -> ChatInput {
    ChatInput {
        messages: Vec::new(),
        model: None,
        temperature: None,
        stream: None,
        provider: None,
        endpoint: None,
        api_key: None,
        base_url: None,
    }
}

fn field<'a>(body: &'a JsonValue, key: &str) -> &'a JsonValue {
    match body {
        JsonValue::Object(fields) => {
            for (k, v) in fields.iter() {
                if k == key {
                    return v;
                }
            }
            panic!("field {key} missing");
        }
        _ => panic!("body is not an object"),
    }
}

fn as_str(v: &JsonValue) -> &str {
    match v {
        JsonValue::Str(s) => s.as_str(),
        _ => panic!("not a string"),
    }
}

#[test]
fn defaults_applied_when_fields_absent() {
    let body = translate(&input());
    match &body {
        JsonValue::Object(fields) => {
            let keys: Vec<&str> = fields.iter().map(|f| f.0.as_str()).collect();
            assert_eq!(keys, vec!["model", "messages", "temperature", "stream"]);
        }
        _ => panic!("body is not an object"),
    }
    assert_eq!(as_str(field(&body, "model")), "gpt-3.5-turbo");
    match field(&body, "messages") {
        JsonValue::Array(items) => assert!(items.is_empty()),
        _ => panic!("messages is not an array"),
    }
    match field(&body, "temperature") {
        JsonValue::Number(t) => assert_eq!(t, "0.7"),
        _ => panic!("temperature is not a number"),
    }
    match field(&body, "stream") {
        JsonValue::Bool(b) => assert!(!b),
        _ => panic!("stream is not a bool"),
    }
}

#[test]
fn explicit_values_forwarded() {
    let mut req = input();
    req.model = Some("moonshot-v1-8k".to_string());
    req.temperature = Some("0.2".to_string());
    req.stream = Some(true);
    let body = translate(&req);
    assert_eq!(as_str(field(&body, "model")), "moonshot-v1-8k");
    match field(&body, "temperature") {
        JsonValue::Number(t) => assert_eq!(t, "0.2"),
        _ => panic!("temperature is not a number"),
    }
    match field(&body, "stream") {
        JsonValue::Bool(b) => assert!(b),
        _ => panic!("stream is not a bool"),
    }
}

#[test]
fn messages_carried_over_in_order() {
    let mut req = input();
    req.messages = vec![
        ChatMessage { role: "system".to_string(), content: "be brief".to_string() },
        ChatMessage { role: "user".to_string(), content: "hello".to_string() },
        ChatMessage { role: "assistant".to_string(), content: "hi".to_string() },
    ];
    let body = translate(&req);
    match field(&body, "messages") {
        JsonValue::Array(items) => {
            assert_eq!(items.len(), 3);
            let expected = [("system", "be brief"), ("user", "hello"), ("assistant", "hi")];
            for (item, (role, content)) in items.iter().zip(expected.iter()) {
                assert_eq!(as_str(field(item, "role")), *role);
                assert_eq!(as_str(field(item, "content")), *content);
            }
        }
        _ => panic!("messages is not an array"),
    }
}
