use cosurf::native::ai::context_manager::ContextManager;
use cosurf::native::ai::provider::ChatMessage;
use cosurf::native::ai::scheduler::{schedule_tools, ToolCategory};
use cosurf::native::ai::tools::{ToolCall, ToolResult};

fn empty_args() -> serde_json::Value {
    serde_json::Value::Object(serde_json::Map::new())
}

fn msg(role: &str, content: &str) -> ChatMessage {
    ChatMessage { role: role.to_string(), content: content.to_string(), name: None, tool_call_id: None }
}

fn call(id: &str, name: &str) -> ToolCall {
    ToolCall { id: id.to_string(), name: name.to_string(), arguments: empty_args() }
}

#[test]
fn test_context_manager_creation() {
    let messages = vec![msg("system", "You are a helpful assistant."), msg("user", "Hello!")];
    let mgr = ContextManager::new(messages);
    assert_eq!(mgr.frozen_messages.len(), 2);
    assert_eq!(mgr.compressible_messages.len(), 0);
}

#[test]
fn test_token_estimation() {
    let m = msg("user", "Hello world");
    let tokens = ContextManager::estimate_msg_tokens(&m);
    assert!(tokens > 0);
}

#[test]
fn test_tool_category() {
    assert_eq!(call("1", "summarize_page").category(), ToolCategory::Read);
    assert_eq!(call("2", "open_url").category(), ToolCategory::Browser);
    assert_eq!(call("3", "mcp_iqs_search").category(), ToolCategory::Network);
}

#[test]
fn test_schedule_tools() {
    let tools = vec![call("1", "summarize_page"), call("2", "open_url"), call("3", "export_markdown")];
    let scheduled = schedule_tools(tools);
    assert_eq!(scheduled.read_tools.len(), 1);
    assert_eq!(scheduled.browser_tools.len(), 1);
    assert_eq!(scheduled.write_tools.len(), 1);
    assert_eq!(scheduled.total_count(), 3);
}

#[test]
fn token_estimate_is_half_the_bytes() {
    let m = ChatMessage {
        role: "tool".to_string(),
        content: "abcdefghij".to_string(),
        name: Some("abcd".to_string()),
        tool_call_id: Some("x".to_string()),
    };
    assert_eq!(ContextManager::estimate_msg_tokens(&m), 5 + 2);
}

#[test]
fn tool_replies_and_user_replies_are_compressible() {
    let mut tool_reply = msg("user", "reply");
    tool_reply.tool_call_id = Some("t1".to_string());
    let mgr = ContextManager::new(vec![msg("system", "s"), tool_reply, msg("assistant", "a")]);
    assert_eq!(mgr.frozen_messages.len(), 1);
    assert_eq!(mgr.compressible_messages.len(), 2);
}

#[test]
fn adding_a_tool_result_counts_its_tokens() {
    let mut mgr = ContextManager::new(vec![msg("system", "")]);
    let before = mgr.estimate_tokens();
    let c = call("id1", "tool");
    let r = ToolResult { tool_call_id: "id1".to_string(), output: "12345678".to_string(), success: true };
    mgr.add_tool_result(&c, &r);
    assert_eq!(mgr.estimate_tokens(), before + 4 + 2);
    let last = mgr.compressible_messages.last().unwrap();
    assert_eq!(last.role, "tool");
    assert_eq!(last.tool_call_id.as_deref(), Some("id1"));
}

#[test]
fn compression_keeps_ten_tool_results_and_cuts_long_content() {
    let mut mgr = ContextManager::new(vec![msg("system", "sys")]);
    for i in 0..12 {
        let c = call(&format!("c{}", i), "t");
        let r = ToolResult { tool_call_id: format!("c{}", i), output: format!("out{}", i), success: true };
        mgr.add_tool_result(&c, &r);
    }
    mgr.add_assistant_message("x".repeat(2100));
    mgr.compress_if_needed(0);
    let tools: Vec<_> = mgr.compressible_messages.iter().filter(|m| m.role == "tool").collect();
    assert_eq!(tools.len(), 10);
    assert_eq!(tools[0].content, "out2");
    let last = mgr.compressible_messages.last().unwrap();
    assert!(last.content.starts_with("[内容已截断，原长度: 2100]\n"));
    assert_eq!(last.content.len(), "[内容已截断，原长度: 2100]\n".len() + 2000);
    assert_eq!(mgr.frozen_messages.len(), 1);
}

#[test]
fn mcp_results_are_frozen() {
    let mut mgr = ContextManager::new(vec![]);
    let c = call("m1", "mcp_server_tool");
    let r = ToolResult { tool_call_id: "m1".to_string(), output: "data".to_string(), success: true };
    mgr.add_tool_result(&c, &r);
    mgr.freeze_important_messages();
    assert_eq!(mgr.frozen_messages.len(), 1);
    assert_eq!(mgr.compressible_messages.len(), 0);
}

#[test]
fn only_the_first_question_is_frozen() {
    let msgs = vec![msg("system", "S"), msg("user", "Q1"), msg("assistant", "A1"), msg("user", "Q2")];
    let mgr = ContextManager::new(msgs);
    let contents: Vec<String> = mgr.messages().iter().map(|m| m.content.clone()).collect();
    assert_eq!(contents, vec!["S", "Q1", "A1", "Q2"]);
    assert_eq!(mgr.frozen_messages.len(), 2);
    assert_eq!(mgr.compressible_messages.len(), 2);
}

#[test]
fn compression_keeps_the_tokens_of_frozen_messages() {
    let mut mgr = ContextManager::new(vec![msg("system", "You are a helpful assistant.")]);
    assert_eq!(mgr.estimate_tokens(), 14);
    mgr.compress_if_needed(0);
    assert_eq!(mgr.estimate_tokens(), 14);
    assert_eq!(mgr.messages().len(), 1);
}

#[test]
fn freezing_twice_changes_nothing() {
    let mut mgr = ContextManager::new(vec![msg("system", "s")]);
    let c = call("m1", "mcp_x_y");
    let r = ToolResult { tool_call_id: "m1".to_string(), output: "data".to_string(), success: true };
    mgr.add_tool_result(&c, &r);
    mgr.add_assistant_message("a".to_string());
    let tokens = mgr.estimate_tokens();
    mgr.freeze_important_messages();
    assert_eq!(mgr.estimate_tokens(), tokens);
    assert_eq!(mgr.messages().len(), 3);
    let frozen = mgr.frozen_messages.len();
    mgr.freeze_important_messages();
    assert_eq!(mgr.frozen_messages.len(), frozen);
    assert_eq!(mgr.compressible_messages.len(), 1);
}

#[test]
fn the_estimate_counts_every_message_after_adds_and_freezing() {
    let mut mgr = ContextManager::new(vec![msg("system", "Be brief."), msg("user", "Find the weather"), msg("assistant", "Sure")]);
    mgr.add_user_message("and tomorrow?".to_string());
    let r = ToolResult { tool_call_id: "m1".to_string(), output: "sunny all week".to_string(), success: true };
    mgr.add_tool_result(&call("m1", "mcp_weather_get"), &r);
    mgr.add_assistant_message("It is sunny.".to_string());
    assert_eq!(mgr.estimate_tokens(), ContextManager::estimate_all_tokens(&mgr.messages()));
    mgr.freeze_important_messages();
    assert_eq!(mgr.estimate_tokens(), ContextManager::estimate_all_tokens(&mgr.messages()));
    let roles: Vec<String> = mgr.messages().iter().map(|m| m.role.clone()).collect();
    assert_eq!(roles, vec!["system", "user", "tool", "assistant", "user", "assistant"]);
}

#[test]
fn old_tool_results_go_first_and_other_messages_stay() {
    let mut mgr = ContextManager::new(vec![msg("system", "s")]);
    for i in 0..12 {
        let r = ToolResult { tool_call_id: format!("c{}", i), output: format!("out{}", i), success: true };
        mgr.add_tool_result(&call(&format!("c{}", i), "run_command"), &r);
        mgr.add_assistant_message(format!("note{}", i));
    }
    mgr.remove_old_tool_results();
    let tools: Vec<String> = mgr.compressible_messages.iter().filter(|m| m.role == "tool").map(|m| m.content.clone()).collect();
    assert_eq!(tools, (2..12).map(|i| format!("out{}", i)).collect::<Vec<_>>());
    let notes: Vec<String> = mgr.compressible_messages.iter().filter(|m| m.role != "tool").map(|m| m.content.clone()).collect();
    assert_eq!(notes, (0..12).map(|i| format!("note{}", i)).collect::<Vec<_>>());
}
