use cosurf::desktop::mcp::RpcReply;
use cosurf::desktop::mcp_exchange::{
    mcp_exchange_step, mcp_tool_schemas, tools_from_list_reply, McpAction, McpEvent, McpExchange, McpStage, McpToolInfo,
};
use cosurf::error::AppError;
use cosurf::native::db::records::McpServer;

fn server(name: &str, enabled: bool) -> McpServer {
    McpServer::create(name.to_string(), name.to_string(), None, None, Some("npx".to_string()), None, None, None, None, None, Some(enabled), None, 0)
}

fn tool(name: Option<&str>, description: Option<&str>, schema: Option<&str>) -> McpToolInfo {
    McpToolInfo {
        name: name.map(|s| s.to_string()),
        description: description.map(|s| s.to_string()),
        input_schema: schema.map(|s| s.to_string()),
    }
}

#[test]
fn exchange_initializes_then_lists_tools() {
    let s = McpExchange::new();
    let (s, a) = mcp_exchange_step(s, McpEvent::Start);
    assert_eq!(a, McpAction::SendInitialize { id: 1 });
    let (s, a) = mcp_exchange_step(s, McpEvent::Reply { id: None, error: None });
    assert_eq!(a, McpAction::Wait);
    let (s, a) = mcp_exchange_step(s, McpEvent::Reply { id: Some(1), error: None });
    assert_eq!(a, McpAction::SendInitializedThenListTools { id: 2 });
    let (s, a) = mcp_exchange_step(s, McpEvent::Reply { id: Some(7), error: None });
    assert_eq!(a, McpAction::Wait);
    let (s, a) = mcp_exchange_step(s, McpEvent::Reply { id: Some(2), error: None });
    assert_eq!(a, McpAction::ToolsReady);
    assert_eq!(s.stage, McpStage::Ready);
    let (_, a) = mcp_exchange_step(s, McpEvent::Silent);
    assert_eq!(a, McpAction::Nothing);
}

#[test]
fn exchange_failures_are_reported() {
    let (s, _) = mcp_exchange_step(McpExchange::new(), McpEvent::Start);
    let (f, a) = mcp_exchange_step(s, McpEvent::Reply { id: Some(1), error: Some("{\"code\":-1}".to_string()) });
    assert_eq!(a, McpAction::Fail("Initialize failed: {\"code\":-1}".to_string()));
    assert_eq!(f.stage, McpStage::Failed);
    let (_, a) = mcp_exchange_step(s, McpEvent::Silent);
    assert_eq!(a, McpAction::Fail("Timeout waiting for initialize response".to_string()));
    let (_, a) = mcp_exchange_step(s, McpEvent::Unreadable("eof".to_string()));
    assert_eq!(a, McpAction::Fail("Invalid initialize response: eof".to_string()));
    let (l, _) = mcp_exchange_step(s, McpEvent::Reply { id: Some(1), error: None });
    let (_, a) = mcp_exchange_step(l, McpEvent::Silent);
    assert_eq!(a, McpAction::Fail("Timeout waiting for tools list".to_string()));
}

#[test]
fn tool_lists_are_read_from_replies() {
    let ok = tools_from_list_reply(RpcReply { id: Some(2), result: Some(vec![tool(Some("a"), None, None)]), error: None }).unwrap();
    assert_eq!(ok.len(), 1);
    let empty = tools_from_list_reply(RpcReply { id: Some(2), result: None, error: None }).unwrap();
    assert!(empty.is_empty());
    match tools_from_list_reply(RpcReply { id: Some(2), result: None, error: Some((-32601, "nope".to_string())) }) {
        Err(AppError::Internal(m)) => assert_eq!(m, "MCP error -32601: nope"),
        _ => panic!("expected an error"),
    }
}

#[test]
fn schemas_name_tools_after_their_servers() {
    let servers = vec![server("my-files", true), server("off", false)];
    let lists = vec![
        (0usize, vec![tool(Some("read-file"), Some("Reads"), Some("{\"type\":\"object\"}")), tool(None, Some("x"), None)]),
        (1usize, vec![tool(Some("t"), None, None)]),
        (5usize, vec![tool(Some("u"), None, None)]),
    ];
    let schemas = mcp_tool_schemas(&servers, &lists);
    assert_eq!(schemas.len(), 1);
    assert_eq!(schemas[0].function_name, "mcp_my_files_read_file");
    assert_eq!(schemas[0].description, "[MCP:my-files] Reads");
    assert_eq!(schemas[0].parameters.as_deref(), Some("{\"type\":\"object\"}"));
    assert_eq!(schemas[0].server_name, "my-files");
    assert_eq!(schemas[0].tool_name, "read-file");
}
