//! The request translator: maps the caller's request into the JSON body an
//! OpenAI-compatible chat-completion endpoint expects.
//!
//! The body is an object with exactly four fields — `model`, `messages`,
//! `temperature` and `stream` — with the defaults applied exactly when the
//! corresponding input field is absent, and the message sequence carried
//! over unchanged and in order.  No other field is synthesized.

use vstd::prelude::*;

use crate::chat::ChatInput;
use crate::chat::ChatMessage;
use crate::chat::MessageView;
use crate::json::spec_lookup;
use crate::json::spec_member;
use crate::json::spec_obj_keys;
use crate::json::spec_str_field;
use crate::json::JsonValue;

verus! {

/// The model name the body carries: the request's, or the fixed default.
pub open spec fn spec_model(input: ChatInput) -> Seq<char> {
    match input.model {
        Some(m) => m@,
        None => "gpt-3.5-turbo"@,
    }
}

/// The temperature text the body carries: the request's, or `0.7`.
pub open spec fn spec_temperature(input: ChatInput) -> Seq<char> {
    match input.temperature {
        Some(t) => t@,
        None => "0.7"@,
    }
}

/// The streaming flag the body carries: the request's, or `false`.
pub open spec fn spec_stream(input: ChatInput) -> bool {
    match input.stream {
        Some(b) => b,
        None => false,
    }
}

/// One message as a JSON object with exactly the fields `role` and
/// `content`, in that order.
pub open spec fn spec_is_message_json(j: JsonValue, m: MessageView) -> bool {
    &&& spec_obj_keys(j) == Some(seq!["role"@, "content"@])
    &&& spec_str_field(j, "role"@) == Some(m.role)
    &&& spec_str_field(j, "content"@) == Some(m.content)
}

/// The translated body, as the module doc states it.
pub open spec fn spec_is_translation(body: JsonValue, input: ChatInput) -> bool {
    &&& spec_obj_keys(body) == Some(seq!["model"@, "messages"@, "temperature"@, "stream"@])
    &&& spec_str_field(body, "model"@) == Some(spec_model(input))
    &&& spec_member(body, "messages"@) matches Some(JsonValue::Array(items))
        && items@.len() == input.messages@.len() && (forall|i: int|
        0 <= i < items@.len() ==> spec_is_message_json(
            #[trigger] items@[i],
            input.messages@[i]@,
        ))
    &&& spec_member(body, "temperature"@) matches Some(JsonValue::Number(t)) && t@
        == spec_temperature(input)
    &&& spec_member(body, "stream"@) == Some(JsonValue::Bool(spec_stream(input)))
}

/// One message as a JSON object.
fn message_json(m: &ChatMessage) -> (r: JsonValue)
    ensures
        spec_is_message_json(r, m@),
{
    let pairs: Vec<(String, JsonValue)> = vec![
        (String::from_str("role"), JsonValue::Str(m.role.clone())),
        (String::from_str("content"), JsonValue::Str(m.content.clone())),
    ];
    let r = JsonValue::Object(pairs);
    proof {
        reveal_strlit("role");
        reveal_strlit("content");
        assert("role"@.len() == 4);
        assert("content"@.len() == 7);
        assert(pairs@.map_values(|f: (String, JsonValue)| f.0@) =~= seq!["role"@, "content"@]);
        assert(spec_lookup(pairs@, "role"@) == Some(pairs@[0].1));
        assert(pairs@.drop_first()[0] == pairs@[1]);
        assert(spec_lookup(pairs@, "content"@) == spec_lookup(pairs@.drop_first(), "content"@));
        assert(spec_lookup(pairs@.drop_first(), "content"@) == Some(pairs@[1].1));
    }
    r
}

/// Translates the caller's request into the outbound JSON body.
pub fn translate(input: &ChatInput) -> (r: JsonValue)
    ensures
        spec_is_translation(r, *input),
{
    let model: String = match &input.model {
        Some(m) => m.clone(),
        None => String::from_str("gpt-3.5-turbo"),
    };
    let temperature: String = match &input.temperature {
        Some(t) => t.clone(),
        None => String::from_str("0.7"),
    };
    let stream: bool = match &input.stream {
        Some(b) => *b,
        None => false,
    };
    let mut items: Vec<JsonValue> = Vec::new();
    let mut idx: usize = 0;
    while idx < input.messages.len()
        invariant
            idx <= input.messages@.len(),
            items@.len() == idx,
            forall|i: int|
                0 <= i < idx ==> spec_is_message_json(
                    #[trigger] items@[i],
                    input.messages@[i]@,
                ),
        decreases input.messages@.len() - idx,
    {
        let m = message_json(&input.messages[idx]);
        items.push(m);
        idx = idx + 1;
    }
    let fields: Vec<(String, JsonValue)> = vec![
        (String::from_str("model"), JsonValue::Str(model)),
        (String::from_str("messages"), JsonValue::Array(items)),
        (String::from_str("temperature"), JsonValue::Number(temperature)),
        (String::from_str("stream"), JsonValue::Bool(stream)),
    ];
    let r = JsonValue::Object(fields);
    proof {
        reveal_strlit("model");
        reveal_strlit("messages");
        reveal_strlit("temperature");
        reveal_strlit("stream");
        assert("model"@.len() == 5);
        assert("messages"@.len() == 8);
        assert("temperature"@.len() == 11);
        assert("stream"@.len() == 6);
        assert(fields@.map_values(|f: (String, JsonValue)| f.0@) =~= seq![
            "model"@,
            "messages"@,
            "temperature"@,
            "stream"@,
        ]);
        let rest1 = fields@.drop_first();
        let rest2 = rest1.drop_first();
        let rest3 = rest2.drop_first();
        assert(rest1[0] == fields@[1] && rest1[1] == fields@[2] && rest1[2] == fields@[3]);
        assert(rest2[0] == fields@[2] && rest2[1] == fields@[3]);
        assert(rest3[0] == fields@[3]);
        assert(spec_lookup(fields@, "model"@) == Some(fields@[0].1));
        assert(spec_lookup(fields@, "messages"@) == spec_lookup(rest1, "messages"@));
        assert(spec_lookup(rest1, "messages"@) == Some(fields@[1].1));
        assert(spec_lookup(fields@, "temperature"@) == spec_lookup(rest1, "temperature"@));
        assert(spec_lookup(rest1, "temperature"@) == spec_lookup(rest2, "temperature"@));
        assert(spec_lookup(rest2, "temperature"@) == Some(fields@[2].1));
        assert(spec_lookup(fields@, "stream"@) == spec_lookup(rest1, "stream"@));
        assert(spec_lookup(rest1, "stream"@) == spec_lookup(rest2, "stream"@));
        assert(spec_lookup(rest2, "stream"@) == spec_lookup(rest3, "stream"@));
        assert(spec_lookup(rest3, "stream"@) == Some(fields@[3].1));
    }
    r
}

} // verus!
