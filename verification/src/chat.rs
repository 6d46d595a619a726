//! The gateway's data model: the process-wide state, the caller's request,
//! and the successful result.

use vstd::prelude::*;

verus! {

/// Process-wide gateway configuration: the default credential, set once by
/// the host at startup (empty when unset) and overridable per request.
pub struct AppState {
    pub api_key: String,
}

/// One message of the conversation.  The role is an open string, not a
/// closed enum, so provider-specific roles pass through unchanged.
pub struct ChatMessage {
    pub role: String,
    pub content: String,
}

/// The view of a message: its role and content as character sequences.
pub struct MessageView {
    pub role: Seq<char>,
    pub content: Seq<char>,
}

impl View for ChatMessage {
    type V = MessageView;

    open spec fn view(&self) -> MessageView {
        MessageView { role: self.role@, content: self.content@ }
    }
}

/// The caller-supplied request: the ordered conversation plus generation
/// parameters and optional routing overrides.  No field is validated against
/// a fixed provider list; unknown providers fall back to a default.  The
/// temperature is carried as the decimal text of the number, exactly as it
/// stands in the JSON body.
pub struct ChatInput {
    pub messages: Vec<ChatMessage>,
    pub model: Option<String>,
    pub temperature: Option<String>,
    pub stream: Option<bool>,
    pub provider: Option<String>,
    pub endpoint: Option<String>,
    pub api_key: Option<String>,
    pub base_url: Option<String>,
}

/// The successful result of one call: the assistant's reply text (empty
/// when the provider response lacks the expected field).
pub struct ChatOutput {
    pub content: String,
}

} // verus!
