//! The configuration resolver: derives the single outbound endpoint URL and
//! the credential that one request uses.
//!
//! Endpoint priority: an explicit `endpoint` wins verbatim; otherwise the
//! base URL (explicit `base_url`, or the provider's default) is trimmed of
//! trailing slashes and the fixed chat-completions path is appended.
//! Credential: a per-request `api_key` overrides the process-wide default.

use vstd::prelude::*;

use crate::chat::AppState;
use crate::chat::ChatInput;
use crate::strutil::lemma_trim_slashes_shape;
use crate::strutil::spec_trim_slashes;
use crate::strutil::str_eq;
use crate::strutil::trim_trailing_slashes;

verus! {

/// The default base URL for a provider key: `openai`, `moonshot` and `kimi`
/// are recognized; any other key falls back to the `openai` default.
pub open spec fn spec_default_base_url(provider: Seq<char>) -> Seq<char> {
    if provider == "openai"@ {
        "https://api.openai.com/v1"@
    } else if provider == "moonshot"@ || provider == "kimi"@ {
        "https://api.moonshot.cn/v1"@
    } else {
        "https://api.openai.com/v1"@
    }
}

/// The provider key the resolver looks up: the request's provider, or
/// `openai` when absent.
pub open spec fn spec_provider_key(input: ChatInput) -> Seq<char> {
    match input.provider {
        Some(p) => p@,
        None => "openai"@,
    }
}

/// The base URL before the path is appended: the explicit `base_url`, or
/// the provider's default.
pub open spec fn spec_base_url(input: ChatInput) -> Seq<char> {
    match input.base_url {
        Some(b) => b@,
        None => spec_default_base_url(spec_provider_key(input)),
    }
}

/// The endpoint a request resolves to (see the module doc for the priority
/// order).
pub open spec fn spec_resolve_endpoint(input: ChatInput) -> Seq<char> {
    match input.endpoint {
        Some(ep) => ep@,
        None => spec_trim_slashes(spec_base_url(input)) + "/chat/completions"@,
    }
}

/// The credential a request resolves to: the per-request override when
/// present, else the process-wide default.  Neither is validated; an empty
/// credential is passed through.
pub open spec fn spec_resolve_api_key(state: AppState, input: ChatInput) -> Seq<char> {
    match input.api_key {
        Some(k) => k@,
        None => state.api_key@,
    }
}

/// The default base URL for a provider key.
pub fn default_base_url_for(provider: &str) -> (r: &'static str)
    ensures
        r@ == spec_default_base_url(provider@),
{
    if str_eq(provider, "openai") {
        "https://api.openai.com/v1"
    } else if str_eq(provider, "moonshot") || str_eq(provider, "kimi") {
        "https://api.moonshot.cn/v1"
    } else {
        "https://api.openai.com/v1"
    }
}

/// Resolves the full outbound endpoint URL for one request.
pub fn resolve_endpoint(input: &ChatInput) -> (r: String)
    ensures
        r@ == spec_resolve_endpoint(*input),
{
    match &input.endpoint {
        Some(ep) => ep.clone(),
        None => {
            let base: &str = match &input.base_url {
                Some(b) => b.as_str(),
                None => {
                    let provider: &str = match &input.provider {
                        Some(p) => p.as_str(),
                        None => "openai",
                    };
                    default_base_url_for(provider)
                },
            };
            let trimmed = trim_trailing_slashes(base);
            let url = String::from_str(trimmed);
            url.concat("/chat/completions")
        },
    }
}

/// Resolves the credential for one request.
pub fn resolve_api_key(state: &AppState, input: &ChatInput) -> (r: String)
    ensures
        r@ == spec_resolve_api_key(*state, *input),
{
    match &input.api_key {
        Some(k) => k.clone(),
        None => state.api_key.clone(),
    }
}

/// An explicit `endpoint` always wins: the resolved endpoint equals it
/// verbatim, whatever `provider` and `base_url` also hold.
pub proof fn lemma_endpoint_explicit(input: ChatInput, ep: String)
    requires
        input.endpoint == Some(ep),
    ensures
        spec_resolve_endpoint(input) == ep@,
{
}

/// Without an explicit endpoint, a given `base_url` decides: the resolved
/// endpoint is that URL with trailing slashes trimmed and the fixed path
/// appended, so the separator is never doubled and never missing.
pub proof fn lemma_endpoint_from_base(input: ChatInput, base: String)
    requires
        input.endpoint is None,
        input.base_url == Some(base),
    ensures
        spec_resolve_endpoint(input) == spec_trim_slashes(base@) + "/chat/completions"@,
        spec_resolve_endpoint(input)[spec_trim_slashes(base@).len() as int] == '/',
        spec_trim_slashes(base@).len() > 0 ==> spec_resolve_endpoint(input)[spec_trim_slashes(
            base@,
        ).len() - 1] != '/',
{
    lemma_trim_slashes_shape(base@);
    reveal_strlit("/chat/completions");
}

/// Provider `kimi`, with no explicit base URL or endpoint, resolves to the
/// Moonshot chat-completions endpoint.
pub proof fn lemma_endpoint_kimi(input: ChatInput, p: String)
    requires
        input.endpoint is None,
        input.base_url is None,
        input.provider == Some(p),
        p@ == "kimi"@,
    ensures
        spec_resolve_endpoint(input) == "https://api.moonshot.cn/v1/chat/completions"@,
{
    reveal_strlit("kimi");
    reveal_strlit("openai");
    reveal_strlit("moonshot");
    reveal_strlit("https://api.moonshot.cn/v1");
    reveal_strlit("/chat/completions");
    reveal_strlit("https://api.moonshot.cn/v1/chat/completions");
    assert("kimi"@.len() == 4);
    assert("openai"@.len() == 6);
    assert("kimi"@ != "openai"@);
    assert(spec_trim_slashes("https://api.moonshot.cn/v1"@) == "https://api.moonshot.cn/v1"@);
    assert("https://api.moonshot.cn/v1"@ + "/chat/completions"@
        =~= "https://api.moonshot.cn/v1/chat/completions"@);
}

/// An unrecognized or absent provider, with no explicit base URL or
/// endpoint, falls back to the `openai` default endpoint.
pub proof fn lemma_endpoint_default(input: ChatInput)
    requires
        input.endpoint is None,
        input.base_url is None,
        input.provider matches Some(p) ==> p@ != "moonshot"@ && p@ != "kimi"@,
    ensures
        spec_resolve_endpoint(input) == "https://api.openai.com/v1/chat/completions"@,
{
    reveal_strlit("https://api.openai.com/v1");
    reveal_strlit("/chat/completions");
    reveal_strlit("https://api.openai.com/v1/chat/completions");
    assert(spec_trim_slashes("https://api.openai.com/v1"@) == "https://api.openai.com/v1"@);
    assert("https://api.openai.com/v1"@ + "/chat/completions"@
        =~= "https://api.openai.com/v1/chat/completions"@);
}

/// Every request resolves to exactly one non-empty endpoint URL, as long as
/// an explicit `endpoint` override is itself non-empty: a derived endpoint
/// always carries at least the fixed path segment.
pub proof fn lemma_endpoint_nonempty(input: ChatInput)
    requires
        input.endpoint matches Some(ep) ==> ep@.len() > 0,
    ensures
        spec_resolve_endpoint(input).len() > 0,
{
    if input.endpoint is None {
        reveal_strlit("/chat/completions");
        assert("/chat/completions"@.len() == 17);
    }
}

/// A per-request `api_key` always overrides the process-wide default, even
/// an empty one.
pub proof fn lemma_credential_override(state: AppState, input: ChatInput, k: String)
    requires
        input.api_key == Some(k),
    ensures
        spec_resolve_api_key(state, input) == k@,
{
}

/// Without a per-request `api_key` the process-wide default is used, even
/// when that default is the empty string.
pub proof fn lemma_credential_default(state: AppState, input: ChatInput)
    requires
        input.api_key is None,
    ensures
        spec_resolve_api_key(state, input) == state.api_key@,
{
}

} // verus!
