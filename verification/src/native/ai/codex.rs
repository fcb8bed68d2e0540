//! The Codex command-line agent: its configuration, where its binary is
//! found, and the text of its streamed replies.

use vstd::prelude::*;
use crate::error::{AppError, AppResult};
use crate::text::{decimal, owned, push_str, push_u64};

verus! {

/// How the Codex agent is run.
#[derive(Debug, Clone)]
pub struct CodexAgentConfig {
    pub provider: String,
    pub model: String,
    pub api_key: String,
    pub base_url: Option<String>,
    pub cwd: String,
    pub codex_home: String,
}

/// The Codex agent: its configuration and the binary it runs, or a mock
/// that answers without any binary.
#[derive(Debug, Clone)]
pub struct CodexAgent {
    pub config: CodexAgentConfig,
    pub codex_path: String,
    pub mock: bool,
}

/// The message when no Codex binary is configured.
pub open spec fn codex_missing_text() -> Seq<char> {
    "Codex CLI not found. Please set CODEX_BINARY_PATH environment variable."@
}

/// The binary path recorded for an agent in mock mode.
pub open spec fn mock_path() -> Seq<char> {
    "mock"@
}

impl CodexAgent {
    /// The agent for a configuration. In mock mode (`CODEX_USE_MOCK` set to
    /// `true`) it needs no binary; otherwise it runs the binary named by
    /// `CODEX_BINARY_PATH` where that file exists, and fails where there is
    /// no such binary.
    pub fn new(config: CodexAgentConfig, use_mock: bool, binary_path: Option<String>, binary_exists: bool) -> (r: AppResult<CodexAgent>)
        ensures
            use_mock ==> (r matches Ok(a) && a.mock && a.codex_path@ == mock_path() && a.config == config),
            !use_mock && (binary_path is Some && binary_exists) ==> (r matches Ok(a) && !a.mock
                && a.codex_path == binary_path.unwrap() && a.config == config),
            !use_mock && !(binary_path is Some && binary_exists) ==> (r matches Err(AppError::Internal(m)) && m@ == codex_missing_text()),
    {
        if use_mock {
            return Ok(CodexAgent { config, codex_path: owned("mock"), mock: true });
        }
        match binary_path {
            Some(p) => {
                if binary_exists {
                    return Ok(CodexAgent { config, codex_path: p, mock: false });
                }
            },
            None => {},
        }
        Err(AppError::Internal(owned("Codex CLI not found. Please set CODEX_BINARY_PATH environment variable.")))
    }
}

/// What an agent in mock mode answers to a message.
pub open spec fn mock_reply_text(message: Seq<char>) -> Seq<char> {
    "[mock codex] "@ + message
}

/// The reply of an agent in mock mode: one chunk that echoes the message.
pub fn mock_reply(message: &str) -> (r: Vec<String>)
    ensures
        r.len() == 1,
        r@[0]@ == mock_reply_text(message@),
{
    let mut t = owned("[mock codex] ");
    push_str(&mut t, message);
    let mut r: Vec<String> = Vec::new();
    r.push(t);
    r
}

/// The id of a Codex conversation started at the given time in milliseconds.
pub fn codex_thread_id(millis: u64) -> (r: String)
    ensures
        r@ == "codex_cli_"@ + decimal(millis as nat),
{
    let mut r = owned("codex_cli_");
    push_u64(&mut r, millis);
    r
}

/// The text of a streamed Codex reply: its `content`, else its `delta`,
/// else its `text` field, where one is a string.
pub fn codex_reply_text(content: Option<String>, delta: Option<String>, text: Option<String>) -> (r: Option<String>)
    ensures
        r == match content {
            Some(c) => Some(c),
            None => match delta {
                Some(d) => Some(d),
                None => text,
            },
        },
{
    match content {
        Some(c) => Some(c),
        None => match delta {
            Some(d) => Some(d),
            None => text,
        },
    }
}

} // verus!
