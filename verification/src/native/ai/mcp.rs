//! MCP servers of the native module: their configuration, the transport a
//! server type selects, the headers of a request, and the routes from the
//! function names offered to the model to the servers' tools.

use vstd::prelude::*;
use crate::error::{AppError, AppResult};
use crate::keyed::{keyed_map, lemma_keyed_push, lemma_keyed_update};
use crate::text::{all_ascii, ascii_lower, lowercase_of, owned, push_str, replace, replace_all, str_eq, to_lowercase};

verus! {

/// A resource an MCP server offers.
#[derive(Debug, Clone)]
pub struct McpResource {
    pub uri: String,
    pub name: String,
    pub description: String,
    pub mime_type: Option<String>,
}

/// Where an MCP server is reached.
#[derive(Debug, Clone)]
pub struct McpConfig {
    pub server_url: String,
    pub api_key: Option<String>,
}

impl McpConfig {
    /// The configuration of a server reached at `server_url`, without key.
    pub fn new(server_url: String) -> (r: Self)
        ensures
            r.server_url == server_url,
            r.api_key is None,
    {
        McpConfig { server_url, api_key: None }
    }
}

/// How an MCP server is spoken to.
#[derive(Debug, Clone, Copy, PartialEq, Eq, Structural)]
pub enum McpTransport {
    StreamableHttp,
    Sse,
    Stdio,
}

/// The transport a server type selects, compared in lower case: `sse`,
/// `streamablehttp` or `http`, `stdio`; any other type is streamable HTTP.
pub open spec fn transport_of(server_type_lower: Seq<char>) -> McpTransport {
    if server_type_lower == "sse"@ {
        McpTransport::Sse
    } else if server_type_lower == "stdio"@ {
        McpTransport::Stdio
    } else {
        McpTransport::StreamableHttp
    }
}

/// The transport of a server type.
pub fn transport_for(server_type: &str) -> (r: McpTransport)
    ensures
        r == transport_of(lowercase_of(server_type@)),
        all_ascii(server_type@) ==> r == transport_of(server_type@.map_values(|c: char| ascii_lower(c))),
{
    let t = to_lowercase(server_type);
    proof {
        reveal_strlit("sse");
        reveal_strlit("stdio");
        reveal_strlit("http");
        reveal_strlit("streamablehttp");
        assert("sse"@.len() == 3 && "stdio"@.len() == 5 && "http"@.len() == 4 && "streamablehttp"@.len() == 14);
    }
    if str_eq(t.as_str(), "sse") {
        McpTransport::Sse
    } else if str_eq(t.as_str(), "streamablehttp") || str_eq(t.as_str(), "http") {
        McpTransport::StreamableHttp
    } else if str_eq(t.as_str(), "stdio") {
        McpTransport::Stdio
    } else {
        McpTransport::StreamableHttp
    }
}

/// A configured MCP server as the native module receives it.
#[derive(Debug, Clone)]
pub struct McpServerConfig {
    pub id: String,
    pub name: String,
    pub server_type: String,
    pub url: Option<String>,
    pub command: Option<String>,
    pub args: Option<Vec<String>>,
    pub env: Option<Vec<(String, String)>>,
    pub headers: Option<Vec<(String, String)>>,
    pub enabled: bool,
}

/// Header names by which a request already carries credentials.
pub open spec fn is_auth_header(name: Seq<char>) -> bool {
    name == "Authorization"@ || name == "X-API-Key"@ || name == "x-api-key"@
}

/// The headers of a request to an MCP server: the configured headers with
/// a text value, in order, then `Authorization: Bearer {key}` where a key is
/// configured — unless `respect_existing` is set and a credentials header is
/// configured (whatever its value).
pub open spec fn request_headers(
    headers: Seq<(Seq<char>, Option<Seq<char>>)>,
    api_key: Option<Seq<char>>,
    respect_existing: bool,
) -> Seq<(Seq<char>, Seq<char>)> {
    let texts = headers.filter(|h: (Seq<char>, Option<Seq<char>>)| h.1 is Some).map_values(
        |h: (Seq<char>, Option<Seq<char>>)| (h.0, h.1.unwrap()),
    );
    let has_auth = exists|i: int| 0 <= i < headers.len() && is_auth_header(headers[i].0);
    match api_key {
        Some(k) => if respect_existing && has_auth {
            texts
        } else {
            texts.push(("Authorization"@, "Bearer "@ + k))
        },
        None => texts,
    }
}

/// Views of configured headers.
pub open spec fn header_views(h: Seq<(String, Option<String>)>) -> Seq<(Seq<char>, Option<Seq<char>>)> {
    h.map_values(|e: (String, Option<String>)| (e.0@, match e.1 {
        Some(v) => Some(v@),
        None => None,
    }))
}

/// The headers of a request; a header value that is not text is given as `None`.
pub fn mcp_request_headers(headers: &Vec<(String, Option<String>)>, api_key: &Option<String>, respect_existing: bool) -> (r: Vec<(String, String)>)
    ensures
        r@.map_values(|e: (String, String)| (e.0@, e.1@)) == request_headers(
            header_views(headers@),
            match api_key {
                Some(k) => Some(k@),
                None => None,
            },
            respect_existing,
        ),
{
    let ghost hv = header_views(headers@);
    let ghost pred = |h: (Seq<char>, Option<Seq<char>>)| h.1 is Some;
    let ghost f = |h: (Seq<char>, Option<Seq<char>>)| (h.0, h.1.unwrap());
    let mut r: Vec<(String, String)> = Vec::new();
    let mut has_auth = false;
    let mut i: usize = 0;
    while i < headers.len()
        invariant
            0 <= i <= headers.len(),
            hv == header_views(headers@),
            pred == (|h: (Seq<char>, Option<Seq<char>>)| h.1 is Some),
            f == (|h: (Seq<char>, Option<Seq<char>>)| (h.0, h.1.unwrap())),
            r@.map_values(|e: (String, String)| (e.0@, e.1@)) == hv.take(i as int).filter(pred).map_values(f),
            has_auth == exists|j: int| 0 <= j < i && is_auth_header(hv[j].0),
        decreases headers.len() - i,
    {
        proof {
            assert(hv.take(i as int + 1) =~= hv.take(i as int).push(hv[i as int]));
            hv.take(i as int).lemma_filter_push(hv[i as int], pred);
        }
        let name = &headers[i].0;
        if str_eq(name.as_str(), "Authorization") || str_eq(name.as_str(), "X-API-Key") || str_eq(name.as_str(), "x-api-key") {
            has_auth = true;
        }
        match &headers[i].1 {
            Some(v) => {
                let ghost r0 = r@;
                r.push((name.clone(), v.clone()));
                assert(r@.map_values(|e: (String, String)| (e.0@, e.1@)) =~= r0.map_values(|e: (String, String)| (e.0@, e.1@)).push(f(hv[i as int])));
                assert(hv.take(i as int).filter(pred).push(hv[i as int]).map_values(f) =~= hv.take(i as int).filter(pred).map_values(f).push(f(hv[i as int])));
            },
            None => {},
        }
        i = i + 1;
    }
    assert(hv.take(headers.len() as int) =~= hv);
    match api_key {
        Some(k) => {
            if !(respect_existing && has_auth) {
                let mut v = owned("Bearer ");
                push_str(&mut v, k.as_str());
                let ghost r0 = r@;
                r.push((owned("Authorization"), v));
                assert(r@.map_values(|e: (String, String)| (e.0@, e.1@)) =~= r0.map_values(|e: (String, String)| (e.0@, e.1@)).push(("Authorization"@, "Bearer "@ + k@)));
            }
        },
        None => {},
    }
    r
}

/// The function name of a tool in the native module: `mcp_{server}_{tool}`
/// with `-` and spaces in the server name turned into `_`.
pub open spec fn route_name(server: Seq<char>, tool: Seq<char>) -> Seq<char> {
    "mcp_"@ + replace_all(replace_all(server, "-"@, "_"@), " "@, "_"@) + "_"@ + tool
}

/// Replacing one character by another changes each occurrence and keeps
/// every other character.
proof fn lemma_replace_char(s: Seq<char>, a: char, b: char)
    ensures
        replace_all(s, seq![a], seq![b]) == s.map_values(|c: char| if c == a { b } else { c }),
    decreases s.len(),
{
    if s.len() > 0 {
        lemma_replace_char(s.drop_first(), a, b);
        assert(s.skip(1) =~= s.drop_first());
        assert(s.take(1) =~= seq![s[0]]);
        let m = s.map_values(|c: char| if c == a { b } else { c });
        assert(m =~= seq![m[0]] + s.drop_first().map_values(|c: char| if c == a { b } else { c }));
        if s[0] == a {
            assert(seq![b] =~= seq![m[0]]);
        }
    } else {
        assert(s.map_values(|c: char| if c == a { b } else { c }) =~= s);
    }
}

/// The function name of an MCP tool is `mcp_`, then the server name with
/// every `-` and space turned into `_`, then `_` and the tool name: it holds
/// one character for each of the server name's, and no `-` or space among
/// them.
pub proof fn lemma_route_name_shape(server: Seq<char>, tool: Seq<char>)
    ensures
        route_name(server, tool).len() == server.len() + tool.len() + 5,
        route_name(server, tool).take(4) == "mcp_"@,
        forall|i: int|
            0 <= i < server.len() ==> #[trigger] route_name(server, tool)[4 + i] == (if server[i] == '-' || server[i]
                == ' ' {
                '_'
            } else {
                server[i]
            }),
        forall|i: int| 0 <= i < server.len() ==> #[trigger] route_name(server, tool)[4 + i] != ' ' && route_name(server, tool)[4 + i] != '-',
        route_name(server, tool)[4 + server.len() as int] == '_',
        route_name(server, tool).skip(server.len() + 5int) == tool,
{
    reveal_strlit("mcp_");
    reveal_strlit("-");
    reveal_strlit(" ");
    reveal_strlit("_");
    assert("-"@ =~= seq!['-']);
    assert(" "@ =~= seq![' ']);
    assert("_"@ =~= seq!['_']);
    lemma_replace_char(server, '-', '_');
    let s1 = server.map_values(|c: char| if c == '-' { '_' } else { c });
    lemma_replace_char(s1, ' ', '_');
    let s2 = s1.map_values(|c: char| if c == ' ' { '_' } else { c });
    let r = route_name(server, tool);
    assert(r =~= "mcp_"@ + s2 + "_"@ + tool);
    assert(r.take(4) =~= "mcp_"@);
    assert(r.skip(server.len() + 5int) =~= tool);
    assert forall|i: int| 0 <= i < server.len() implies #[trigger] r[4 + i] == (if server[i] == '-' || server[i] == ' ' {
        '_'
    } else {
        server[i]
    }) by {
        assert(r[4 + i] == s2[i]);
        assert(s2[i] == (if s1[i] == ' ' { '_' } else { s1[i] }));
    }
}

/// The function name of a tool of a server.
pub fn route_function_name(server: &str, tool: &str) -> (r: String)
    ensures
        r@ == route_name(server@, tool@),
{
    proof {
        reveal_strlit("-");
        reveal_strlit(" ");
    }
    let s1 = replace(server, "-", "_");
    let s2 = replace(s1.as_str(), " ", "_");
    let mut r = owned("mcp_");
    push_str(&mut r, s2.as_str());
    push_str(&mut r, "_");
    push_str(&mut r, tool);
    r
}

/// The description of a routed tool: `[{server}] {description}`.
pub fn route_description(server: &str, description: &str) -> (r: String)
    ensures
        r@ == "["@ + server@ + "] "@ + description@,
{
    let mut r = owned("[");
    push_str(&mut r, server);
    push_str(&mut r, "] ");
    push_str(&mut r, description);
    r
}

/// Where a function name leads: the server's id and name and the tool's
/// own name.
#[derive(Debug, Clone)]
pub struct McpRoute {
    pub server_id: String,
    pub server_name: String,
    pub original_tool_name: String,
}

/// Abstract route.
pub open spec fn route_view(r: McpRoute) -> (Seq<char>, Seq<char>, Seq<char>) {
    (r.server_id@, r.server_name@, r.original_tool_name@)
}

/// The routes of the function names offered to the model.
pub struct McpRoutes {
    names: Vec<String>,
    routes: Vec<McpRoute>,
}

impl McpRoutes {
    /// The route of each function name.
    pub closed spec fn view(&self) -> Map<Seq<char>, (Seq<char>, Seq<char>, Seq<char>)> {
        keyed_map(self.names@.map_values(|s: String| s@), self.routes@.map_values(|r: McpRoute| route_view(r)))
    }

    /// Each function name occurs once.
    pub closed spec fn wf(&self) -> bool {
        &&& self.names.len() == self.routes.len()
        &&& self.names@.map_values(|s: String| s@).no_duplicates()
    }

    /// No routes.
    pub fn new() -> (r: Self)
        ensures
            r.wf(),
            r.view() == Map::<Seq<char>, (Seq<char>, Seq<char>, Seq<char>)>::empty(),
    {
        let r = McpRoutes { names: Vec::new(), routes: Vec::new() };
        assert(r.view() =~= Map::<Seq<char>, (Seq<char>, Seq<char>, Seq<char>)>::empty());
        r
    }

    fn position(&self, name: &str) -> (r: Option<usize>)
        requires
            self.wf(),
        ensures
            match r {
                Some(p) => p < self.names.len() && self.names@[p as int]@ == name@,
                None => !self.names@.map_values(|s: String| s@).contains(name@),
            },
    {
        let mut p: usize = 0;
        while p < self.names.len()
            invariant
                0 <= p <= self.names.len(),
                forall|q: int| 0 <= q < p ==> self.names@[q]@ != name@,
            decreases self.names.len() - p,
        {
            if str_eq(self.names[p].as_str(), name) {
                return Some(p);
            }
            p = p + 1;
        }
        proof {
            let ks = self.names@.map_values(|s: String| s@);
            if ks.contains(name@) {
                let i = ks.index_of(name@);
                assert(self.names@[i]@ == name@);
            }
        }
        None
    }

    /// Routes a function name, replacing an earlier route of the same name.
    pub fn insert(&mut self, name: String, route: McpRoute)
        requires
            old(self).wf(),
        ensures
            final(self).wf(),
            final(self).view() == old(self).view().insert(name@, route_view(route)),
    {
        let ghost ks = self.names@.map_values(|s: String| s@);
        let ghost vs = self.routes@.map_values(|r: McpRoute| route_view(r));
        let ghost rv = route_view(route);
        match self.position(name.as_str()) {
            Some(p) => {
                proof {
                    assert(ks[p as int] == name@);
                    lemma_keyed_update(ks, vs, p as int, rv);
                }
                self.routes[p] = route;
                assert(self.routes@.map_values(|r: McpRoute| route_view(r)) =~= vs.update(p as int, rv));
            },
            None => {
                proof {
                    lemma_keyed_push(ks, vs, name@, rv);
                }
                let ghost nv = name@;
                self.names.push(name);
                self.routes.push(route);
                assert(self.names@.map_values(|s: String| s@) =~= ks.push(nv));
                assert(self.routes@.map_values(|r: McpRoute| route_view(r)) =~= vs.push(rv));
            },
        }
    }

    /// The route of a function name; unknown names are refused with
    /// "Unknown MCP tool: {name}".
    pub fn route(&self, name: &str) -> (r: AppResult<McpRoute>)
        requires
            self.wf(),
        ensures
            self.view().dom().contains(name@) ==> (r matches Ok(x) && route_view(x) == self.view()[name@]),
            !self.view().dom().contains(name@) ==> (r matches Err(AppError::Internal(m)) && m@ == "Unknown MCP tool: "@ + name@),
    {
        match self.position(name) {
            Some(p) => {
                proof {
                    let ks = self.names@.map_values(|s: String| s@);
                    assert(ks[p as int] == name@);
                    assert(ks.contains(name@));
                    let i = ks.index_of(name@);
                    assert(i == p);
                }
                let x = &self.routes[p];
                Ok(McpRoute {
                    server_id: x.server_id.clone(),
                    server_name: x.server_name.clone(),
                    original_tool_name: x.original_tool_name.clone(),
                })
            },
            None => {
                let mut m = owned("Unknown MCP tool: ");
                push_str(&mut m, name);
                Err(AppError::Internal(m))
            },
        }
    }

    /// Forgets every route.
    pub fn clear(&mut self)
        ensures
            final(self).wf(),
            final(self).view() == Map::<Seq<char>, (Seq<char>, Seq<char>, Seq<char>)>::empty(),
    {
        self.names = Vec::new();
        self.routes = Vec::new();
        assert(self.view() =~= Map::<Seq<char>, (Seq<char>, Seq<char>, Seq<char>)>::empty());
    }
}

/// A route answers for the name it was inserted under, and leaves the
/// routes of other names as they were.
pub proof fn lemma_route_after_insert(m: Map<Seq<char>, (Seq<char>, Seq<char>, Seq<char>)>, name: Seq<char>, v: (Seq<char>, Seq<char>, Seq<char>), other: Seq<char>)
    requires
        other != name,
    ensures
        m.insert(name, v).dom().contains(name),
        m.insert(name, v)[name] == v,
        m.insert(name, v).dom().contains(other) == m.dom().contains(other),
        m.dom().contains(other) ==> m.insert(name, v)[other] == m[other],
{
}

} // verus!
