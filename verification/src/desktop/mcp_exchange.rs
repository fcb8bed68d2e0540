//! Discovery of the tools of MCP servers: the exchange that opens a session
//! (`initialize`, the `initialized` notification, then `tools/list`), the
//! tool list read from the reply, and the function schemas under which the
//! tools are offered to the model.

use vstd::prelude::*;
use crate::desktop::mcp::{json_reply_result, rpc_error_text, RpcReply};
use crate::desktop::tools::{mcp_function_name, mcp_tool_description, mcp_tool_name};
use crate::error::{AppError, AppResult};
use crate::native::db::records::McpServer;
use crate::text::{owned, push_str};

verus! {

/// Id of the `initialize` request.
pub open spec fn initialize_id() -> u64 {
    1
}

/// Id of the `tools/list` request.
pub open spec fn list_tools_id() -> u64 {
    2
}

/// Where the exchange with a server stands.
#[derive(Debug, Clone, Copy, PartialEq, Eq, Structural)]
pub enum McpStage {
    /// Nothing sent yet.
    Idle,
    /// `initialize` sent; waiting for its reply.
    Initializing,
    /// `tools/list` sent; waiting for its reply.
    Listing,
    /// The tool list arrived.
    Ready,
    /// The exchange failed.
    Failed,
}

/// The state of an exchange.
#[derive(Debug, Clone, Copy, PartialEq, Eq, Structural)]
pub struct McpExchange {
    pub stage: McpStage,
}

/// What the transport reports to the exchange.
#[derive(Debug, Clone, PartialEq, Eq)]
pub enum McpEvent {
    /// The server is connected; the exchange may begin.
    Start,
    /// A JSON-RPC message arrived, with its id and, where it is an error,
    /// the text of the error.
    Reply { id: Option<u64>, error: Option<String> },
    /// A message arrived that is not JSON; the parser's message.
    Unreadable(String),
    /// No message arrived in time, or the server closed the stream.
    Silent,
}

/// What the transport does next.
#[derive(Debug, Clone, PartialEq, Eq)]
pub enum McpAction {
    /// Send the `initialize` request with this id.
    SendInitialize { id: u64 },
    /// Send the `notifications/initialized` notification, then the
    /// `tools/list` request with this id.
    SendInitializedThenListTools { id: u64 },
    /// The message answered no pending request: read the next one.
    Wait,
    /// The reply to `tools/list` arrived: read the tools from it.
    ToolsReady,
    /// Stop with this error.
    Fail(String),
    /// The event has no bearing on the exchange.
    Nothing,
}

/// The view of an event.
pub enum EventView {
    Start,
    Reply { id: Option<u64>, error: Option<Seq<char>> },
    Unreadable(Seq<char>),
    Silent,
}

/// The view of an action.
pub enum ActionView {
    SendInitialize { id: u64 },
    SendInitializedThenListTools { id: u64 },
    Wait,
    ToolsReady,
    Fail(Seq<char>),
    Nothing,
}

impl View for McpEvent {
    type V = EventView;

    open spec fn view(&self) -> EventView {
        match *self {
            McpEvent::Start => EventView::Start,
            McpEvent::Reply { id, error } => EventView::Reply {
                id,
                error: match error {
                    Some(e) => Some(e@),
                    None => None,
                },
            },
            McpEvent::Unreadable(m) => EventView::Unreadable(m@),
            McpEvent::Silent => EventView::Silent,
        }
    }
}

impl View for McpAction {
    type V = ActionView;

    open spec fn view(&self) -> ActionView {
        match *self {
            McpAction::SendInitialize { id } => ActionView::SendInitialize { id },
            McpAction::SendInitializedThenListTools { id } => ActionView::SendInitializedThenListTools { id },
            McpAction::Wait => ActionView::Wait,
            McpAction::ToolsReady => ActionView::ToolsReady,
            McpAction::Fail(m) => ActionView::Fail(m@),
            McpAction::Nothing => ActionView::Nothing,
        }
    }
}

/// One step of the exchange: `initialize` first; its reply (matched by id)
/// leads to the `initialized` notification and `tools/list`, whose reply
/// completes the exchange. A reply with another id is passed over; an error
/// reply to `initialize`, a message that is not JSON, or no message at all
/// ends the exchange with an error.
pub open spec fn exchange_step_spec(s: McpExchange, ev: EventView) -> (McpExchange, ActionView) {
    match (s.stage, ev) {
        (McpStage::Idle, EventView::Start) => (
            McpExchange { stage: McpStage::Initializing },
            ActionView::SendInitialize { id: initialize_id() },
        ),
        (McpStage::Initializing, EventView::Reply { id, error }) => {
            if id != Some(initialize_id()) {
                (s, ActionView::Wait)
            } else {
                match error {
                    Some(e) => (McpExchange { stage: McpStage::Failed }, ActionView::Fail("Initialize failed: "@ + e)),
                    None => (
                        McpExchange { stage: McpStage::Listing },
                        ActionView::SendInitializedThenListTools { id: list_tools_id() },
                    ),
                }
            }
        },
        (McpStage::Initializing, EventView::Unreadable(m)) => (
            McpExchange { stage: McpStage::Failed },
            ActionView::Fail("Invalid initialize response: "@ + m),
        ),
        (McpStage::Initializing, EventView::Silent) => (
            McpExchange { stage: McpStage::Failed },
            ActionView::Fail("Timeout waiting for initialize response"@),
        ),
        (McpStage::Listing, EventView::Reply { id, error }) => {
            if id != Some(list_tools_id()) {
                (s, ActionView::Wait)
            } else {
                (McpExchange { stage: McpStage::Ready }, ActionView::ToolsReady)
            }
        },
        (McpStage::Listing, EventView::Unreadable(m)) => (
            McpExchange { stage: McpStage::Failed },
            ActionView::Fail("Invalid tools response: "@ + m),
        ),
        (McpStage::Listing, EventView::Silent) => (
            McpExchange { stage: McpStage::Failed },
            ActionView::Fail("Timeout waiting for tools list"@),
        ),
        _ => (s, ActionView::Nothing),
    }
}

fn prefixed(prefix: &str, text: &str) -> (r: String)
    ensures
        r@ == prefix@ + text@,
{
    let mut r = owned(prefix);
    push_str(&mut r, text);
    r
}

impl McpExchange {
    /// An exchange that has not begun.
    pub fn new() -> (r: Self)
        ensures
            r.stage == McpStage::Idle,
    {
        McpExchange { stage: McpStage::Idle }
    }
}

/// Takes one step of the exchange.
pub fn mcp_exchange_step(s: McpExchange, ev: McpEvent) -> (r: (McpExchange, McpAction))
    ensures
        (r.0, r.1@) == exchange_step_spec(s, ev@),
{
    match (s.stage, ev) {
        (McpStage::Idle, McpEvent::Start) => (
            McpExchange { stage: McpStage::Initializing },
            McpAction::SendInitialize { id: 1 },
        ),
        (McpStage::Initializing, McpEvent::Reply { id, error }) => {
            if id != Some(1u64) {
                (s, McpAction::Wait)
            } else {
                match error {
                    Some(e) => (
                        McpExchange { stage: McpStage::Failed },
                        McpAction::Fail(prefixed("Initialize failed: ", e.as_str())),
                    ),
                    None => (McpExchange { stage: McpStage::Listing }, McpAction::SendInitializedThenListTools { id: 2 }),
                }
            }
        },
        (McpStage::Initializing, McpEvent::Unreadable(m)) => (
            McpExchange { stage: McpStage::Failed },
            McpAction::Fail(prefixed("Invalid initialize response: ", m.as_str())),
        ),
        (McpStage::Initializing, McpEvent::Silent) => (
            McpExchange { stage: McpStage::Failed },
            McpAction::Fail(owned("Timeout waiting for initialize response")),
        ),
        (McpStage::Listing, McpEvent::Reply { id, error: _ }) => {
            if id != Some(2u64) {
                (s, McpAction::Wait)
            } else {
                (McpExchange { stage: McpStage::Ready }, McpAction::ToolsReady)
            }
        },
        (McpStage::Listing, McpEvent::Unreadable(m)) => (
            McpExchange { stage: McpStage::Failed },
            McpAction::Fail(prefixed("Invalid tools response: ", m.as_str())),
        ),
        (McpStage::Listing, McpEvent::Silent) => (
            McpExchange { stage: McpStage::Failed },
            McpAction::Fail(owned("Timeout waiting for tools list")),
        ),
        _ => (s, McpAction::Nothing),
    }
}

/// The exchange that goes well asks `initialize` first and `tools/list`
/// second, and ends ready; a reply with another id changes nothing; and a
/// failed or completed exchange takes no further step.
pub proof fn lemma_exchange_order(other: Option<u64>, err: Option<Seq<char>>, ev: EventView)
    requires
        other != Some(initialize_id()),
        other != Some(list_tools_id()),
    ensures
        ({
            let (s1, a1) = exchange_step_spec(McpExchange { stage: McpStage::Idle }, EventView::Start);
            let (s2, a2) = exchange_step_spec(s1, EventView::Reply { id: Some(initialize_id()), error: None });
            let (s3, a3) = exchange_step_spec(s2, EventView::Reply { id: Some(list_tools_id()), error: err });
            &&& a1 == ActionView::SendInitialize { id: initialize_id() }
            &&& a2 == ActionView::SendInitializedThenListTools { id: list_tools_id() }
            &&& a3 == ActionView::ToolsReady
            &&& s3.stage == McpStage::Ready
            &&& exchange_step_spec(s1, EventView::Reply { id: other, error: err }) == (s1, ActionView::Wait)
            &&& exchange_step_spec(s2, EventView::Reply { id: other, error: err }) == (s2, ActionView::Wait)
        }),
        exchange_step_spec(McpExchange { stage: McpStage::Ready }, ev) == (
            McpExchange { stage: McpStage::Ready },
            ActionView::Nothing,
        ),
        exchange_step_spec(McpExchange { stage: McpStage::Failed }, ev) == (
            McpExchange { stage: McpStage::Failed },
            ActionView::Nothing,
        ),
{
}

/// A tool as the `tools/list` reply describes it: its name, description and
/// input schema (as JSON text), each where present.
#[derive(Debug, Clone)]
pub struct McpToolInfo {
    pub name: Option<String>,
    pub description: Option<String>,
    pub input_schema: Option<String>,
}

/// The tools of a `tools/list` reply: its error where it has one, else the
/// tools of its result, none where the result lists none.
pub fn tools_from_list_reply(reply: RpcReply<Vec<McpToolInfo>>) -> (r: AppResult<Vec<McpToolInfo>>)
    ensures
        match reply.error {
            Some((c, m)) => r matches Err(AppError::Internal(e)) && e@ == rpc_error_text(c, m@),
            None => match reply.result {
                Some(ts) => r == Ok::<Vec<McpToolInfo>, AppError>(ts),
                None => r matches Ok(ts) && ts@.len() == 0,
            },
        },
{
    match reply.error {
        Some(e) => json_reply_result(RpcReply { id: reply.id, result: reply.result, error: Some(e) }),
        None => match reply.result {
            Some(ts) => Ok(ts),
            None => Ok(Vec::new()),
        },
    }
}

/// A tool offered to the model: its function name and description, its
/// parameter schema as JSON text (`None` for one that takes any object),
/// and the server and tool name that a call goes to.
#[derive(Debug, Clone)]
pub struct ToolSchemaModel {
    pub function_name: String,
    pub description: String,
    pub parameters: Option<String>,
    pub server_name: String,
    pub tool_name: String,
}

/// The view of a tool offered to the model.
pub struct SchemaView {
    pub function_name: Seq<char>,
    pub description: Seq<char>,
    pub parameters: Option<Seq<char>>,
    pub server_name: Seq<char>,
    pub tool_name: Seq<char>,
}

impl View for ToolSchemaModel {
    type V = SchemaView;

    open spec fn view(&self) -> SchemaView {
        SchemaView {
            function_name: self.function_name@,
            description: self.description@,
            parameters: opt_view(self.parameters),
            server_name: self.server_name@,
            tool_name: self.tool_name@,
        }
    }
}

/// The view of an optional text.
pub open spec fn opt_view(o: Option<String>) -> Option<Seq<char>> {
    match o {
        Some(s) => Some(s@),
        None => None,
    }
}

/// How a tool of a server is offered: `mcp_{server}_{tool}`, its
/// description under `[MCP:{server}]`, its input schema.
pub open spec fn schema_of(server: Seq<char>, name: Seq<char>, t: McpToolInfo) -> SchemaView {
    SchemaView {
        function_name: mcp_function_name(server, name),
        description: "[MCP:"@ + server + "] "@ + match t.description {
            Some(d) => d@,
            None => Seq::empty(),
        },
        parameters: opt_view(t.input_schema),
        server_name: server,
        tool_name: name,
    }
}

/// The tools of one server as offered; a tool without a name is left out.
pub open spec fn tool_schemas(server: Seq<char>, tools: Seq<McpToolInfo>) -> Seq<SchemaView>
    decreases tools.len(),
{
    if tools.len() == 0 {
        Seq::empty()
    } else {
        let r = tool_schemas(server, tools.drop_last());
        match tools.last().name {
            Some(n) => r.push(schema_of(server, n@, tools.last())),
            None => r,
        }
    }
}

/// The tools of every server whose list arrived, in order; a list is used
/// only where it belongs to a server that is enabled and not disabled.
pub open spec fn schemas_of(servers: Seq<McpServer>, lists: Seq<(usize, Vec<McpToolInfo>)>) -> Seq<SchemaView>
    decreases lists.len(),
{
    if lists.len() == 0 {
        Seq::empty()
    } else {
        let r = schemas_of(servers, lists.drop_last());
        let (i, ts) = lists.last();
        if i < servers.len() && servers[i as int].enabled && !servers[i as int].disabled {
            r + tool_schemas(servers[i as int].name@, ts@)
        } else {
            r
        }
    }
}

/// The views of a list of offered tools.
pub open spec fn schema_views(v: Seq<ToolSchemaModel>) -> Seq<SchemaView> {
    v.map_values(|m: ToolSchemaModel| m@)
}

fn copy_opt_text(o: &Option<String>) -> (r: Option<String>)
    ensures
        r == *o,
{
    match o {
        Some(s) => Some(s.clone()),
        None => None,
    }
}

/// Appends the offered tools of one server.
fn push_tool_schemas(out: &mut Vec<ToolSchemaModel>, server: &str, tools: &Vec<McpToolInfo>)
    ensures
        schema_views(final(out)@) == schema_views(old(out)@) + tool_schemas(server@, tools@),
{
    let ghost base = schema_views(out@);
    let mut i: usize = 0;
    while i < tools.len()
        invariant
            0 <= i <= tools.len(),
            schema_views(out@) == base + tool_schemas(server@, tools@.take(i as int)),
        decreases tools.len() - i,
    {
        proof {
            assert(tools@.take(i + 1).drop_last() =~= tools@.take(i as int));
        }
        let t = &tools[i];
        match &t.name {
            Some(n) => {
                let description = match &t.description {
                    Some(d) => mcp_tool_description(server, d.as_str()),
                    None => mcp_tool_description(server, ""),
                };
                let m = ToolSchemaModel {
                    function_name: mcp_tool_name(server, n.as_str()),
                    description,
                    parameters: copy_opt_text(&t.input_schema),
                    server_name: owned(server),
                    tool_name: n.clone(),
                };
                let ghost before = out@;
                out.push(m);
                proof {
                    reveal_strlit("");
                    assert(schema_views(out@) =~= schema_views(before).push(m@));
                    assert(m@ == schema_of(server@, n@, tools@[i as int]));
                }
            },
            None => {},
        }
        i = i + 1;
    }
    assert(tools@.take(tools.len() as int) =~= tools@);
}

/// The tools of every server, as offered to the model, from the lists of
/// tools fetched for the servers (each with the position of its server).
pub fn mcp_tool_schemas(servers: &Vec<McpServer>, tools: &Vec<(usize, Vec<McpToolInfo>)>) -> (r: Vec<ToolSchemaModel>)
    ensures
        schema_views(r@) == schemas_of(servers@, tools@),
{
    let mut r: Vec<ToolSchemaModel> = Vec::new();
    let mut k: usize = 0;
    while k < tools.len()
        invariant
            0 <= k <= tools.len(),
            schema_views(r@) == schemas_of(servers@, tools@.take(k as int)),
        decreases tools.len() - k,
    {
        proof {
            assert(tools@.take(k + 1).drop_last() =~= tools@.take(k as int));
            assert(schema_views(Seq::<ToolSchemaModel>::empty()) =~= Seq::<SchemaView>::empty());
        }
        let i = tools[k].0;
        if i < servers.len() && servers[i].is_active() {
            push_tool_schemas(&mut r, servers[i].name.as_str(), &tools[k].1);
        }
        k = k + 1;
    }
    assert(tools@.take(tools.len() as int) =~= tools@);
    r
}

} // verus!
