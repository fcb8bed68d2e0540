//! LLM provider data types and request building.

use vstd::prelude::*;
use crate::text::{chars_of, owned, push_str, str_eq, string_of_chars};
use crate::error::{AppError, AppResult};

verus! {

/// One chat message as sent to an OpenAI-compatible API.
#[derive(Debug, Clone)]
pub struct ChatMessage {
    pub role: String,
    pub content: String,
    pub name: Option<String>,
    pub tool_call_id: Option<String>,
}

/// A field-by-field copy of an optional string.
pub fn copy_opt(o: &Option<String>) -> (r: Option<String>)
    ensures
        r == *o,
{
    match o {
        Some(s) => Some(s.clone()),
        None => None,
    }
}

impl ChatMessage {
    /// An identical copy of this message.
    pub fn copy(&self) -> (r: ChatMessage)
        ensures
            r == *self,
    {
        ChatMessage {
            role: self.role.clone(),
            content: self.content.clone(),
            name: copy_opt(&self.name),
            tool_call_id: copy_opt(&self.tool_call_id),
        }
    }

    /// A message with the given role and content, without name or tool call id.
    pub fn plain(role: &str, content: String) -> (r: ChatMessage)
        ensures
            r.role@ == role@,
            r.content == content,
            r.name is None,
            r.tool_call_id is None,
    {
        ChatMessage { role: owned(role), content, name: None, tool_call_id: None }
    }
}

/// The part of a model configuration that selects the endpoint and credentials.
#[derive(Debug, Clone)]
pub struct ProviderConfig {
    pub provider: String,
    pub model_id: String,
    pub api_key: Option<String>,
    pub base_url: Option<String>,
}

/// Default `max_tokens` of a model configuration.
pub fn default_max_tokens() -> (r: i64)
    ensures
        r == 4096,
{
    4096
}

/// Providers whose API supports function calling.
pub open spec fn tool_calling_provider(p: Seq<char>) -> bool {
    ||| p == "openai"@
    ||| p == "anthropic"@
    ||| p == "google"@
    ||| p == "deepseek"@
    ||| p == "moonshot"@
    ||| p == "zhipu"@
    ||| p == "qwen"@
    ||| p == "aliyun"@
    ||| p == "dashscope"@
}

/// Whether the provider supports tool (function) calling.
pub fn supports_tool_calling(provider: &str) -> (r: bool)
    ensures
        r == tool_calling_provider(provider@),
{
    str_eq(provider, "openai") || str_eq(provider, "anthropic") || str_eq(provider, "google")
        || str_eq(provider, "deepseek") || str_eq(provider, "moonshot") || str_eq(provider, "zhipu")
        || str_eq(provider, "qwen") || str_eq(provider, "aliyun") || str_eq(provider, "dashscope")
}

/// `s` without every trailing occurrence of `c`.
pub open spec fn trim_end_char(s: Seq<char>, c: char) -> Seq<char>
    decreases s.len(),
{
    if s.len() > 0 && s.last() == c {
        trim_end_char(s.drop_last(), c)
    } else {
        s
    }
}

/// `s.trim_end_matches(c)` for a single character.
pub fn trim_end_matches_char(s: &str, c: char) -> (r: String)
    ensures
        r@ == trim_end_char(s@, c),
{
    let v = chars_of(s);
    let mut j: usize = v.len();
    assert(s@.take(j as int) =~= s@);
    while j > 0 && v[j - 1] == c
        invariant
            0 <= j <= v.len(),
            v@ == s@,
            trim_end_char(s@, c) == trim_end_char(s@.take(j as int), c),
        decreases j,
    {
        assert(s@.take(j as int).drop_last() =~= s@.take(j - 1));
        j = j - 1;
    }
    assert(v@.subrange(0, j as int) =~= s@.take(j as int));
    proof {
        if j == v.len() {
            assert(s@.take(j as int) =~= s@);
        }
    }
    string_of_chars(&v.as_slice()[0..j])
}

/// The chat endpoint of a provider with base URL `base`.
pub open spec fn api_url(provider: Seq<char>, base: Seq<char>) -> Seq<char> {
    if provider == "anthropic"@ {
        trim_end_char(base, '/') + "/messages"@
    } else {
        trim_end_char(base, '/') + "/chat/completions"@
    }
}

/// URL of the chat endpoint: the base URL without trailing slashes, then
/// `/messages` for Anthropic and `/chat/completions` for every other provider.
pub fn get_api_url(config: &ProviderConfig) -> (r: AppResult<String>)
    ensures
        match config.base_url {
            None => r == Err::<String, AppError>(
                AppError::Config(r->Err_0->Config_0),
            ) && r->Err_0->Config_0@ == "Model base_url is not configured"@,
            Some(b) => r is Ok && r->Ok_0@ == api_url(config.provider@, b@),
        },
{
    match &config.base_url {
        None => Err(AppError::Config(owned("Model base_url is not configured"))),
        Some(base) => {
            let mut url = trim_end_matches_char(base.as_str(), '/');
            if str_eq(config.provider.as_str(), "anthropic") {
                push_str(&mut url, "/messages");
            } else {
                push_str(&mut url, "/chat/completions");
            }
            Ok(url)
        },
    }
}

/// The views of a list of header pairs.
pub open spec fn header_views(h: Seq<(String, String)>) -> Seq<(Seq<char>, Seq<char>)> {
    h.map_values(|p: (String, String)| (p.0@, p.1@))
}

/// Request headers for a provider, given its optional API key.
pub open spec fn request_headers(provider: Seq<char>, api_key: Option<Seq<char>>) -> Seq<
    (Seq<char>, Seq<char>),
> {
    let base = seq![("Content-Type"@, "application/json"@)];
    match api_key {
        None => base,
        Some(k) => if provider == "anthropic"@ {
            base + seq![
                ("x-api-key"@, k),
                ("anthropic-version"@, "2023-06-01"@),
                ("anthropic-beta"@, "tools-2024-05-16"@),
            ]
        } else {
            base + seq![("Authorization"@, "Bearer "@ + k)]
        },
    }
}

fn header(name: &str, value: String) -> (r: (String, String))
    ensures
        r.0@ == name@,
        r.1 == value,
{
    (owned(name), value)
}

/// HTTP headers for a chat request: JSON content type, then the provider's
/// credentials when an API key is configured.
pub fn build_headers(config: &ProviderConfig) -> (r: AppResult<Vec<(String, String)>>)
    ensures
        r is Ok,
        header_views(r->Ok_0@) == request_headers(
            config.provider@,
            match config.api_key {
                Some(k) => Some(k@),
                None => None,
            },
        ),
{
    let mut headers: Vec<(String, String)> = Vec::new();
    headers.push(header("Content-Type", owned("application/json")));
    match &config.api_key {
        Some(api_key) => {
            if str_eq(config.provider.as_str(), "anthropic") {
                headers.push(header("x-api-key", api_key.clone()));
                headers.push(header("anthropic-version", owned("2023-06-01")));
                headers.push(header("anthropic-beta", owned("tools-2024-05-16")));
            } else {
                let mut bearer = owned("Bearer ");
                push_str(&mut bearer, api_key.as_str());
                headers.push(header("Authorization", bearer));
            }
        },
        None => {},
    }
    assert(header_views(headers@) =~= request_headers(
        config.provider@,
        match config.api_key {
            Some(k) => Some(k@),
            None => None,
        },
    ));
    Ok(headers)
}

} // verus!

verus! {

/// Incremental content of one streamed choice.
#[derive(Debug, Clone)]
pub struct DeltaContent {
    pub content: Option<String>,
    pub reasoning_content: Option<String>,
    pub tool_calls: Option<Vec<ToolCallDelta>>,
}

/// Fragment of a streamed tool call; fragments with the same index build one call.
#[derive(Debug, Clone)]
pub struct ToolCallDelta {
    pub index: usize,
    pub id: Option<String>,
    pub call_type: Option<String>,
    pub function: Option<FunctionDelta>,
}

/// Fragment of the function of a streamed tool call.
#[derive(Debug, Clone)]
pub struct FunctionDelta {
    pub name: Option<String>,
    pub arguments: Option<String>,
}

/// A complete tool call as returned by the API.
#[derive(Debug, Clone)]
pub struct ToolCallResult {
    pub id: String,
    pub call_type: String,
    pub function: FunctionCall,
}

/// Name and JSON arguments of a called function.
#[derive(Debug, Clone)]
pub struct FunctionCall {
    pub name: String,
    pub arguments: String,
}

/// A non-streamed choice.
#[derive(Debug, Clone)]
pub struct ChatChoice {
    pub message: ChatMessage,
}

/// A non-streamed chat response.
#[derive(Debug, Clone)]
pub struct ChatResponse {
    pub choices: Vec<ChatChoice>,
}

/// One streamed choice.
#[derive(Debug, Clone)]
pub struct StreamChoice {
    pub delta: DeltaContent,
}

/// One streamed chunk of a chat response.
#[derive(Debug, Clone)]
pub struct StreamDelta {
    pub choices: Vec<StreamChoice>,
}

} // verus!
