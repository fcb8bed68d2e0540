//! MCP servers of the desktop application: the client's session state, the
//! endpoint announced over SSE, and the reading of JSON-RPC replies.

use vstd::prelude::*;
use crate::desktop::skills::{lines, text_lines};
use crate::error::{AppError, AppResult};
use crate::native::ai::provider::{trim_end_char, trim_end_matches_char};
use crate::text::{
    chars_of, has_prefix, owned, push_char, push_str, push_i64, push_u64, signed_decimal, starts_with, str_eq,
    string_of_chars, sub_chars, trim, trimmed,
};

verus! {

/// A tool an MCP server offers, as the desktop application lists it.
#[derive(Debug, Clone)]
pub struct McpResource {
    pub uri: String,
    pub name: String,
    pub description: String,
    pub mime_type: Option<String>,
}

/// Where an MCP server is reached.
#[derive(Debug, Clone)]
pub struct McpConfig {
    pub server_url: String,
    pub api_key: Option<String>,
}

impl McpConfig {
    /// The configuration of a server reached at `server_url`, without key.
    pub fn new(server_url: String) -> (r: Self)
        ensures
            r.server_url == server_url,
            r.api_key is None,
    {
        McpConfig { server_url, api_key: None }
    }
}

/// How the desktop client speaks to an MCP server.
#[derive(Debug, Clone, Copy, PartialEq, Eq, Structural)]
pub enum McpTransport {
    StreamableHttp,
    Sse,
}

/// State of a session with an MCP server: the id of the next request and,
/// over SSE, the endpoint the server announced.
pub struct McpSession {
    pub server_url: String,
    pub transport: McpTransport,
    pub sse_endpoint: Option<String>,
    /// The id the next request will carry.
    pub next_id: u64,
}

impl McpSession {
    /// A new session; requests are numbered from 1.
    pub fn new(server_url: String, transport: McpTransport) -> (r: Self)
        ensures
            r.server_url == server_url,
            r.transport == transport,
            r.sse_endpoint is None,
            r.next_id == 1,
    {
        McpSession { server_url, transport, sse_endpoint: None, next_id: 1 }
    }

    /// The id of a new request; each request gets the next number.
    pub fn next_request_id(&mut self) -> (r: u64)
        requires
            old(self).next_id < u64::MAX,
        ensures
            r == old(self).next_id,
            final(self).next_id == old(self).next_id + 1,
            final(self).server_url == old(self).server_url,
            final(self).transport == old(self).transport,
            final(self).sse_endpoint == old(self).sse_endpoint,
    {
        let id = self.next_id;
        self.next_id = self.next_id + 1;
        id
    }

    /// The server URL without trailing slashes.
    pub fn base_url(&self) -> (r: String)
        ensures
            r@ == trim_end_char(self.server_url@, '/'),
    {
        trim_end_matches_char(self.server_url.as_str(), '/')
    }

    /// Where requests are posted: the announced endpoint over SSE, else the
    /// server URL without trailing slashes. Over SSE without an endpoint,
    /// requests fail.
    pub fn request_url(&self) -> (r: AppResult<String>)
        ensures
            self.transport == McpTransport::StreamableHttp ==> (r matches Ok(u) && u@ == trim_end_char(self.server_url@, '/')),
            self.transport == McpTransport::Sse ==> match self.sse_endpoint {
                Some(e) => r == Ok::<String, AppError>(e),
                None => r matches Err(AppError::Internal(m)) && m@ == "SSE session not established. Call initialize() first."@,
            },
    {
        match self.transport {
            McpTransport::StreamableHttp => Ok(self.base_url()),
            McpTransport::Sse => match &self.sse_endpoint {
                Some(e) => Ok(e.clone()),
                None => Err(AppError::Internal(owned("SSE session not established. Call initialize() first."))),
            },
        }
    }

    /// Where notifications are posted: the announced endpoint where there is
    /// one over SSE, else the server URL without trailing slashes.
    pub fn notification_url(&self) -> (r: String)
        ensures
            (self.transport == McpTransport::Sse && self.sse_endpoint is Some) ==> r == self.sse_endpoint.unwrap(),
            !(self.transport == McpTransport::Sse && self.sse_endpoint is Some) ==> r@ == trim_end_char(self.server_url@, '/'),
    {
        match (&self.transport, &self.sse_endpoint) {
            (McpTransport::Sse, Some(e)) => e.clone(),
            _ => self.base_url(),
        }
    }
}

/// What `url::Url::parse(base)` and `join(data)` give, as text.
pub uninterp spec fn url_joined(base: Seq<char>, data: Seq<char>) -> Option<Seq<char>>;

/// `url::Url::parse(base)` and then `Url::join(data)`, as text; `None`
/// where either fails.
#[verifier::external_body]
fn join_url(base: &str, data: &str) -> (r: Option<String>)
    ensures
        match r {
            Some(s) => url_joined(base@, data@) == Some(s@),
            None => url_joined(base@, data@) is None,
        },
{
    match url::Url::parse(base) {
        Ok(b) => match b.join(data) {
            Ok(j) => Some(j.to_string()),
            Err(_) => None,
        },
        Err(_) => None,
    }
}

/// The endpoint a server announced: an absolute address as it is, else the
/// address resolved against the server URL, else the server URL without
/// trailing slashes followed by the path (with a leading `/`).
pub open spec fn resolved_endpoint(data: Seq<char>, base: Seq<char>) -> Option<Seq<char>> {
    if data.len() == 0 {
        None
    } else if has_prefix(data, "http://"@) || has_prefix(data, "https://"@) {
        Some(data)
    } else if url_joined(base, data) is Some {
        url_joined(base, data)
    } else {
        Some(trim_end_char(base, '/') + if has_prefix(data, "/"@) { data } else { "/"@ + data })
    }
}

/// Resolves the endpoint a server announced.
pub fn resolve_endpoint(data: &str, base_url: &str) -> (r: Option<String>)
    ensures
        match resolved_endpoint(data@, base_url@) {
            Some(e) => r matches Some(s) && s@ == e,
            None => r is None,
        },
{
    if chars_of(data).len() == 0 {
        return None;
    }
    if starts_with(data, "http://") || starts_with(data, "https://") {
        return Some(owned(data));
    }
    match join_url(base_url, data) {
        Some(j) => Some(j),
        None => {
            let mut r = trim_end_matches_char(base_url, '/');
            if starts_with(data, "/") {
                push_str(&mut r, data);
            } else {
                push_str(&mut r, "/");
                push_str(&mut r, data);
            }
            Some(r)
        },
    }
}

/// The payload of an SSE line: the trimmed line must start with `data:`;
/// the rest, trimmed.
pub open spec fn sse_data(line: Seq<char>) -> Option<Seq<char>> {
    let t = trimmed(line);
    if has_prefix(t, "data:"@) {
        Some(trimmed(t.skip(5)))
    } else {
        None
    }
}

/// The payload of an SSE line.
pub fn sse_data_of(line: &str) -> (r: Option<String>)
    ensures
        match sse_data(line@) {
            Some(d) => r matches Some(s) && s@ == d,
            None => r is None,
        },
{
    proof {
        reveal_strlit("data:");
    }
    let t = trim(line);
    if !starts_with(t.as_str(), "data:") {
        return None;
    }
    let v = chars_of(t.as_str());
    let rest = sub_chars(v.as_slice(), 5, v.len());
    assert(rest@ =~= t@.skip(5));
    let s = string_of_chars(rest.as_slice());
    Some(trim(s.as_str()))
}

/// The endpoint announced by a line of the SSE stream, if it announces one.
pub fn endpoint_from_line(line: &str, base_url: &str) -> (r: Option<String>)
    ensures
        match sse_data(line@) {
            Some(d) => match resolved_endpoint(d, base_url@) {
                Some(e) => r matches Some(s) && s@ == e,
                None => r is None,
            },
            None => r is None,
        },
{
    match sse_data_of(line) {
        Some(d) => resolve_endpoint(d.as_str(), base_url),
        None => None,
    }
}

/// The JSON payloads of an SSE response body: the data of its lines, without
/// empty ones and the `[DONE]` marker.
pub open spec fn sse_payloads(lines: Seq<Seq<char>>) -> Seq<Seq<char>>
    decreases lines.len(),
{
    if lines.len() == 0 {
        Seq::empty()
    } else {
        let prev = sse_payloads(lines.drop_last());
        match sse_data(lines.last()) {
            Some(d) => if d.len() == 0 || d == "[DONE]"@ {
                prev
            } else {
                prev.push(d)
            },
            None => prev,
        }
    }
}

/// The JSON payloads of an SSE response body.
pub fn sse_payloads_of(body: &str) -> (r: Vec<String>)
    ensures
        r@.map_values(|s: String| s@) == sse_payloads(text_lines(body@)),
{
    let ls = lines(body);
    let ghost lv = ls@.map_values(|l: String| l@);
    let mut r: Vec<String> = Vec::new();
    let mut i: usize = 0;
    while i < ls.len()
        invariant
            0 <= i <= ls.len(),
            lv == ls@.map_values(|l: String| l@),
            lv == text_lines(body@),
            r@.map_values(|s: String| s@) == sse_payloads(lv.take(i as int)),
        decreases ls.len() - i,
    {
        assert(lv.take(i as int + 1).drop_last() =~= lv.take(i as int));
        assert(lv.take(i as int + 1).last() == ls@[i as int]@);
        match sse_data_of(ls[i].as_str()) {
            Some(d) => {
                if !(chars_of(d.as_str()).len() == 0 || str_eq(d.as_str(), "[DONE]")) {
                    let ghost r0 = r@;
                    let ghost dv = d@;
                    r.push(d);
                    assert(r@.map_values(|s: String| s@) =~= r0.map_values(|s: String| s@).push(dv));
                }
            },
            None => {},
        }
        i = i + 1;
    }
    assert(lv.take(ls.len() as int) =~= lv);
    r
}

/// A JSON-RPC reply, as far as the client reads it: its id, whether it
/// carries a result, and its error code and message.
pub struct RpcReply<T> {
    pub id: Option<u64>,
    pub result: Option<T>,
    pub error: Option<(i32, String)>,
}

/// The text of a JSON-RPC error.
pub open spec fn rpc_error_text(code: i32, message: Seq<char>) -> Seq<char> {
    "MCP error "@ + signed_decimal(code as int) + ": "@ + message
}

fn rpc_error(code: i32, message: &str) -> (r: AppError)
    ensures
        r matches AppError::Internal(m) && m@ == rpc_error_text(code, message@),
{
    let mut m = owned("MCP error ");
    push_i64(&mut m, code as i64);
    push_str(&mut m, ": ");
    push_str(&mut m, message);
    AppError::Internal(m)
}

/// The result of a plain JSON reply: its error where it has one, else its
/// result, else an error saying there is none.
pub fn json_reply_result<T>(reply: RpcReply<T>) -> (r: AppResult<T>)
    ensures
        match reply.error {
            Some((c, m)) => r matches Err(AppError::Internal(e)) && e@ == rpc_error_text(c, m@),
            None => match reply.result {
                Some(x) => r == Ok::<T, AppError>(x),
                None => r matches Err(AppError::Internal(e)) && e@ == "MCP response has no result"@,
            },
        },
{
    match reply.error {
        Some((c, m)) => Err(rpc_error(c, m.as_str())),
        None => match reply.result {
            Some(x) => Ok(x),
            None => Err(AppError::Internal(owned("MCP response has no result"))),
        },
    }
}

/// Whether a reply in an SSE stream answers the request: it does where no
/// id is expected or it carries none.
pub open spec fn answers<T>(reply: RpcReply<T>, expected: Option<u64>) -> bool {
    match (expected, reply.id) {
        (Some(e), Some(i)) => i == e,
        _ => true,
    }
}

/// The result of an SSE response, from its replies in order (`None` for a
/// payload that is no JSON-RPC reply): replies for other requests are
/// skipped; the first error among the others ends the reading; otherwise the
/// last result wins.
pub open spec fn sse_outcome<T>(replies: Seq<Option<RpcReply<T>>>, expected: Option<u64>) -> Result<Option<T>, (i32, Seq<char>)>
    decreases replies.len(),
{
    if replies.len() == 0 {
        Ok(None)
    } else {
        match sse_outcome(replies.drop_last(), expected) {
            Err(e) => Err(e),
            Ok(last) => match replies.last() {
                Some(rep) => if !answers(rep, expected) {
                    Ok(last)
                } else {
                    match rep.error {
                        Some((c, m)) => Err((c, m@)),
                        None => match rep.result {
                            Some(x) => Ok(Some(x)),
                            None => Ok(last),
                        },
                    }
                },
                None => Ok(last),
            },
        }
    }
}

/// Once the reading has ended with an error, later replies do not change it.
pub proof fn lemma_sse_error_sticks<T>(all: Seq<Option<RpcReply<T>>>, expected: Option<u64>, k: int)
    requires
        0 <= k <= all.len(),
        sse_outcome(all.take(k), expected) is Err,
    ensures
        sse_outcome(all, expected) == sse_outcome(all.take(k), expected),
    decreases all.len() - k,
{
    if k < all.len() {
        assert(all.take(k + 1).drop_last() =~= all.take(k));
        lemma_sse_error_sticks(all, expected, k + 1);
    } else {
        assert(all.take(k) =~= all);
    }
}

/// Reads the result of an SSE response.
pub fn sse_reply_result<T>(replies: Vec<Option<RpcReply<T>>>, expected: Option<u64>) -> (r: AppResult<T>)
    ensures
        match sse_outcome(replies@, expected) {
            Err((c, m)) => r matches Err(AppError::Internal(e)) && e@ == rpc_error_text(c, m),
            Ok(Some(x)) => r == Ok::<T, AppError>(x),
            Ok(None) => r matches Err(AppError::Internal(e)) && e@ == "No valid JSON-RPC result found in SSE stream"@,
        },
{
    let ghost all = replies@;
    let mut last: Option<T> = None;
    for rep in it: replies
        invariant
            it.seq() == all,
            sse_outcome(all.take(it.index() as int), expected) == Ok::<Option<T>, (i32, Seq<char>)>(last),
    {
        let ghost i = it.index() as int;
        proof {
            assert(all.take(i + 1).drop_last() =~= all.take(i));
            assert(all.take(i + 1).last() == rep);
        }
        match rep {
            Some(rp) => {
                let relevant = match (expected, rp.id) {
                    (Some(e), Some(id)) => id == e,
                    _ => true,
                };
                if relevant {
                    match rp.error {
                        Some((c, m)) => {
                            proof {
                                lemma_sse_error_sticks(all, expected, i + 1);
                            }
                            return Err(rpc_error(c, m.as_str()));
                        },
                        None => match rp.result {
                            Some(x) => {
                                last = Some(x);
                            },
                            None => {},
                        },
                    }
                }
            },
            None => {},
        }
    }
    proof {
        assert(all.take(all.len() as int) =~= all);
    }
    match last {
        Some(x) => Ok(x),
        None => Err(AppError::Internal(owned("No valid JSON-RPC result found in SSE stream"))),
    }
}

/// The output of a tool call: where the server flags an error, an error
/// with the first text of the content (or "Unknown MCP tool error");
/// otherwise the texts of the content joined by newlines, where there are
/// any; otherwise the reply as pretty-printed JSON.
pub open spec fn tool_output(is_error: bool, first_text: Option<Seq<char>>, texts: Seq<Seq<char>>, pretty: Seq<char>) -> Result<Seq<char>, Seq<char>> {
    if is_error {
        Err("MCP tool error: "@ + match first_text {
            Some(t) => t,
            None => "Unknown MCP tool error"@,
        })
    } else if texts.len() > 0 {
        Ok(joined_lines(texts))
    } else {
        Ok(pretty)
    }
}

/// Texts joined by newlines.
pub open spec fn joined_lines(texts: Seq<Seq<char>>) -> Seq<char>
    decreases texts.len(),
{
    if texts.len() == 0 {
        Seq::empty()
    } else if texts.len() == 1 {
        texts[0]
    } else {
        joined_lines(texts.drop_last()) + "\n"@ + texts.last()
    }
}

/// The output of a tool call from what the reply holds.
pub fn tool_call_output(is_error: bool, first_text: Option<String>, texts: &Vec<String>, pretty: String) -> (r: AppResult<String>)
    ensures
        match tool_output(
            is_error,
            match first_text {
                Some(t) => Some(t@),
                None => None,
            },
            texts@.map_values(|s: String| s@),
            pretty@,
        ) {
            Ok(o) => r matches Ok(s) && s@ == o,
            Err(m) => r matches Err(AppError::Internal(e)) && e@ == m,
        },
{
    if is_error {
        let mut m = owned("MCP tool error: ");
        match first_text {
            Some(t) => push_str(&mut m, t.as_str()),
            None => push_str(&mut m, "Unknown MCP tool error"),
        }
        return Err(AppError::Internal(m));
    }
    if texts.len() == 0 {
        return Ok(pretty);
    }
    let ghost tv = texts@.map_values(|s: String| s@);
    let mut out = String::new();
    let mut i: usize = 0;
    while i < texts.len()
        invariant
            0 <= i <= texts.len(),
            texts.len() > 0,
            tv == texts@.map_values(|s: String| s@),
            out@ == joined_lines(tv.take(i as int)),
        decreases texts.len() - i,
    {
        assert(tv.take(i as int + 1).drop_last() =~= tv.take(i as int));
        if i > 0 {
            push_str(&mut out, "\n");
        } else {
            assert(out@ =~= Seq::<char>::empty());
        }
        push_str(&mut out, texts[i].as_str());
        if i == 0 {
            assert(out@ =~= joined_lines(tv.take(1)));
        }
        i = i + 1;
    }
    assert(tv.take(texts.len() as int) =~= tv);
    Ok(out)
}

/// The error of a request the server answered with a failure status.
pub fn http_status_error(what: &str, status: &str, body: &str, url: &str) -> (r: AppError)
    ensures
        r matches AppError::Internal(m) && m@ == what@ + " returned error "@ + status@ + ": "@ + body@ + " (url: "@ + url@ + ")"@,
{
    let mut m = owned(what);
    push_str(&mut m, " returned error ");
    push_str(&mut m, status);
    push_str(&mut m, ": ");
    push_str(&mut m, body);
    push_str(&mut m, " (url: ");
    push_str(&mut m, url);
    push_str(&mut m, ")");
    AppError::Internal(m)
}

} // verus!
