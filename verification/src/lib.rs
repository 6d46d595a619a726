//! A provider-resolution-and-forwarding gateway for chat-completion APIs.
//!
//! Given a loosely-specified chat request (optionally naming a provider, a
//! base URL, a full endpoint, and an override credential), the library
//! resolves the single outbound endpoint and credential, translates the
//! request into the JSON body an OpenAI-compatible endpoint expects, and
//! interprets the HTTP outcome, extracting the assistant's reply text from
//! the response envelope.  The HTTP transport itself lives outside the
//! library; it hands back a plain outcome value for interpretation.

pub mod chat;
pub mod gateway;
pub mod json;
pub mod resolver;
pub mod strutil;
pub mod translator;
