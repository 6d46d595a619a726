//! The gateway's outer layer: preparing the single outbound call, and
//! classifying the transport's outcome once it has run.
//!
//! The transport itself (one HTTP POST with bearer authentication) lives
//! outside the library; it reports back a plain [`HttpOutcome`], which is
//! interpreted here: transport failures become network errors, non-success
//! statuses become API errors carrying the status and the raw body, and a
//! success body is parsed and the assistant's reply extracted from
//! `choices[0].message.content`, the empty string standing in wherever that
//! path is missing or not a string.

use vstd::prelude::*;

use crate::chat::AppState;
use crate::chat::ChatInput;
use crate::chat::ChatOutput;
use crate::json::json_doc;
use crate::json::lookup;
use crate::json::parse_json;
use crate::json::spec_as_str;
use crate::json::spec_element;
use crate::json::spec_member;
use crate::json::JsonValue;
use crate::resolver::resolve_api_key;
use crate::resolver::resolve_endpoint;
use crate::resolver::spec_resolve_api_key;
use crate::resolver::spec_resolve_endpoint;
use crate::strutil::spec_dec;
use crate::strutil::u16_to_string;
use crate::translator::spec_is_translation;
use crate::translator::translate;

verus! {

/// What the transport reports for one attempted HTTP call: a transport-level
/// failure (DNS, connection, TLS, timeout) with its diagnostic text, or a
/// response with its status code and its body text (empty when the body
/// could not be read).
pub enum HttpOutcome {
    Failure(String),
    Response { status: u16, body: String },
}

/// The gateway's error taxonomy: the call could not be completed, the
/// provider answered with a non-success status (carried with the raw body),
/// or a success body was not valid JSON (carried with the parser's message).
pub enum ChatError {
    Network(String),
    Api(u16, String),
    Decode(String),
}

/// Everything the transport needs for one outbound call, computed once per
/// request and never retained: the endpoint, the bearer credential, and the
/// JSON body.
pub struct ResolvedCall {
    pub endpoint: String,
    pub api_key: String,
    pub body: JsonValue,
}

/// A status in the HTTP success range.
pub open spec fn spec_is_success(status: u16) -> bool {
    200 <= status < 300
}

/// The assistant's reply in a response document: `choices[0].message.content`
/// as a string, or the empty sequence when the path is missing or not a
/// string at any level.
pub open spec fn spec_content_of(j: JsonValue) -> Seq<char> {
    match spec_member(j, "choices"@) {
        Some(choices) => match spec_element(choices, 0) {
            Some(first) => match spec_member(first, "message"@) {
                Some(message) => match spec_member(message, "content"@) {
                    Some(content) => match spec_as_str(content) {
                        Some(text) => text,
                        None => Seq::<char>::empty(),
                    },
                    None => Seq::<char>::empty(),
                },
                None => Seq::<char>::empty(),
            },
            None => Seq::<char>::empty(),
        },
        None => Seq::<char>::empty(),
    }
}

/// The rendering of an error as the caller's error string.  An API error
/// names both the numeric status and the raw body; a network failure is
/// distinct from it in wording; a decode failure is the parser's message.
pub open spec fn spec_error_message(e: ChatError) -> Seq<char> {
    match e {
        ChatError::Network(m) => "Network error: "@ + m@,
        ChatError::Api(status, body) => "API error: "@ + spec_dec(status as int) + " - "@
            + body@,
        ChatError::Decode(m) => m@,
    }
}

/// Resolves and translates one request into the single outbound call.
pub fn prepare_call(state: &AppState, input: &ChatInput) -> (r: ResolvedCall)
    ensures
        r.endpoint@ == spec_resolve_endpoint(*input),
        r.api_key@ == spec_resolve_api_key(*state, *input),
        spec_is_translation(r.body, *input),
{
    ResolvedCall {
        endpoint: resolve_endpoint(input),
        api_key: resolve_api_key(state, input),
        body: translate(input),
    }
}

/// Extracts the assistant's reply text from a parsed response document.
pub fn extract_content(j: &JsonValue) -> (r: String)
    ensures
        r@ == spec_content_of(*j),
{
    if let JsonValue::Object(fields) = j {
        if let Some(choices) = lookup(fields, "choices") {
            if let JsonValue::Array(items) = choices {
                if items.len() > 0 {
                    if let JsonValue::Object(first_fields) = &items[0] {
                        if let Some(message) = lookup(first_fields, "message") {
                            if let JsonValue::Object(message_fields) = message {
                                if let Some(content) = lookup(message_fields, "content") {
                                    if let JsonValue::Str(text) = content {
                                        return text.clone();
                                    }
                                }
                            }
                        }
                    }
                }
            }
        }
    }
    String::new()
}

/// Classifies the transport's outcome for one call and extracts the reply.
pub fn handle_outcome(outcome: HttpOutcome) -> (r: Result<ChatOutput, ChatError>)
    ensures
        outcome matches HttpOutcome::Failure(m) ==> r == Err::<ChatOutput, ChatError>(
            ChatError::Network(m),
        ),
        outcome matches HttpOutcome::Response { status, body } ==> (!spec_is_success(status)
            ==> r == Err::<ChatOutput, ChatError>(ChatError::Api(status, body))),
        outcome matches HttpOutcome::Response { status, body } ==> (spec_is_success(status)
            ==> match json_doc(body@) {
            Ok(j) => r matches Ok(out) && out.content@ == spec_content_of(j),
            Err(m) => r matches Err(e) && e matches ChatError::Decode(d) && d@ == m,
        }),
{
    match outcome {
        HttpOutcome::Failure(m) => Err(ChatError::Network(m)),
        HttpOutcome::Response { status, body } => {
            if !(200 <= status && status < 300) {
                Err(ChatError::Api(status, body))
            } else {
                match parse_json(body.as_str()) {
                    Ok(j) => Ok(ChatOutput { content: extract_content(&j) }),
                    Err(e) => Err(ChatError::Decode(e)),
                }
            }
        },
    }
}

/// Renders an error as the caller's error string.
pub fn error_message(e: &ChatError) -> (r: String)
    ensures
        r@ == spec_error_message(*e),
{
    match e {
        ChatError::Network(m) => String::from_str("Network error: ").concat(m.as_str()),
        ChatError::Api(status, body) => {
            let status_text = u16_to_string(*status);
            String::from_str("API error: ").concat(status_text.as_str()).concat(
                " - ",
            ).concat(body.as_str())
        },
        ChatError::Decode(m) => m.clone(),
    }
}

} // verus!
