use cosurf::native::ai::accumulate::ToolCallAccumulator;
use cosurf::native::ai::context_manager::ContextManager;
use cosurf::native::ai::provider::{ChatMessage, FunctionDelta, ToolCallDelta};
use cosurf::native::ai::stream::{nudge_messages, prepare_context, should_roll_back, tool_signature, AgentLoop, LoopAction};
use cosurf::native::ai::tools::ToolCall;

fn sigs(v: &[&str]) -> Vec<String> {
    v.iter().map(|s| s.to_string()).collect()
}

#[test]
fn checkpoints_start_from_the_third_turn() {
    let mut l = AgentLoop::new();
    assert_eq!(l.begin_turn(), None);
    assert_eq!(l.on_tool_calls(sigs(&["a()"])), LoopAction::ExecuteTools);
    assert!(l.after_tools(false));
    assert_eq!(l.begin_turn(), None);
    assert_eq!(l.on_tool_calls(sigs(&["b()"])), LoopAction::ExecuteTools);
    assert!(l.after_tools(false));
    assert_eq!(l.begin_turn(), Some(2));
    assert_eq!(l.iteration(), 3);
}

#[test]
fn a_turn_without_tool_calls_finishes() {
    let mut l = AgentLoop::new();
    l.begin_turn();
    assert_eq!(l.on_tool_calls(vec![]), LoopAction::Finish);
    assert!(l.is_finished());
}

#[test]
fn the_third_identical_turn_is_nudged() {
    let mut l = AgentLoop::new();
    for expected in [LoopAction::ExecuteTools, LoopAction::ExecuteTools, LoopAction::NudgeAndRetry] {
        l.begin_turn();
        let a = l.on_tool_calls(sigs(&["search({\"q\":\"x\"})"]));
        assert_eq!(a, expected);
        if a == LoopAction::ExecuteTools {
            assert!(l.after_tools(false));
        }
    }
    // The same calls a fourth time stop the loop.
    l.begin_turn();
    assert_eq!(l.on_tool_calls(sigs(&["search({\"q\":\"x\"})"])), LoopAction::NudgeAndStop);
    assert!(l.is_finished());
}

#[test]
fn other_calls_after_a_nudge_run_again() {
    let mut l = AgentLoop::new();
    for _ in 0..3 {
        l.begin_turn();
        if l.on_tool_calls(sigs(&["t()"])) == LoopAction::ExecuteTools {
            l.after_tools(false);
        }
    }
    l.begin_turn();
    assert_eq!(l.on_tool_calls(sigs(&["u()"])), LoopAction::ExecuteTools);
    assert!(!l.is_finished());
}

#[test]
fn the_loop_stops_at_thirty_iterations_unless_rolled_back() {
    let mut l = AgentLoop::new();
    for i in 0..29 {
        l.begin_turn();
        assert_eq!(l.on_tool_calls(sigs(&[&format!("t{}()", i)])), LoopAction::ExecuteTools);
        assert!(l.after_tools(false));
    }
    l.begin_turn();
    assert_eq!(l.iteration(), 30);
    assert_eq!(l.on_tool_calls(sigs(&["last()"])), LoopAction::ExecuteTools);
    assert!(l.after_tools(true));
    l.begin_turn();
    assert_eq!(l.on_tool_calls(sigs(&["again()"])), LoopAction::ExecuteTools);
    assert!(!l.after_tools(false));
    assert!(l.is_finished());
}

#[test]
fn rollback_after_three_failures() {
    assert!(!should_roll_back(2));
    assert!(should_roll_back(3));
}

#[test]
fn signatures_name_the_call() {
    assert_eq!(tool_signature("search", "{\"q\":1}"), "search({\"q\":1})");
}

#[test]
fn nudges_name_each_repeated_call() {
    let calls = vec![ToolCall { id: "c1".to_string(), name: "open_url".to_string(), arguments: serde_json::Value::Null }];
    let m = nudge_messages(&calls);
    assert_eq!(m.len(), 2);
    assert_eq!(m[0].role, "tool");
    assert_eq!(m[0].content, "[系统提示] 工具 'open_url' 已在之前的迭代中成功执行过。请勿重复调用，直接根据已有结果回答。");
    assert_eq!(m[0].tool_call_id.as_deref(), Some("c1"));
    assert_eq!(m[1].role, "user");
    assert_eq!(m[1].content, "[系统] 你已拥有足够的工具执行结果，请直接回答用户的问题。");
}

#[test]
fn prepare_context_stops_over_budget_and_compresses_above_target() {
    let big = "x".repeat(200_002);
    let mut ctx = ContextManager::new(vec![ChatMessage { role: "system".to_string(), content: big, name: None, tool_call_id: None }]);
    assert_eq!(ctx.estimate_tokens(), 100_001);
    assert!(!prepare_context(&mut ctx));
    let mut small = ContextManager::new(vec![ChatMessage { role: "system".to_string(), content: "hi".to_string(), name: None, tool_call_id: None }]);
    assert!(prepare_context(&mut small));
    assert_eq!(small.estimate_tokens(), 1);
}

fn frag(index: usize, id: Option<&str>, name: Option<&str>, args: Option<&str>) -> ToolCallDelta {
    ToolCallDelta {
        index,
        id: id.map(|s| s.to_string()),
        call_type: Some("function".to_string()),
        function: Some(FunctionDelta { name: name.map(|s| s.to_string()), arguments: args.map(|s| s.to_string()) }),
    }
}

#[test]
fn streamed_fragments_assemble_tool_calls() {
    let mut acc = ToolCallAccumulator::new();
    acc.absorb_all(&vec![frag(0, Some("call_1"), Some("web_search"), Some("{\"q\":"))]);
    acc.absorb_all(&vec![frag(1, Some("call_2"), Some("open_url"), None), frag(0, Some(""), Some(""), Some("\"rust\"}"))]);
    acc.absorb_all(&vec![frag(1, None, None, Some("{\"url\":\"https://a.b\"}"))]);
    assert_eq!(acc.len(), 2);
    let d = acc.drafts();
    assert_eq!(d[0].arguments.as_deref(), Some("{\"q\":\"rust\"}"));
    assert_eq!(d[0].id.as_deref(), Some("call_1"));
    assert_eq!(d[0].name.as_deref(), Some("web_search"));
    let calls = acc.tool_calls();
    assert_eq!(calls.len(), 2);
    assert_eq!(calls[0].id, "call_1");
    assert_eq!(calls[0].arguments["q"], "rust");
    assert_eq!(calls[1].name, "open_url");
}

#[test]
fn incomplete_fragments_give_no_call_and_bad_json_stays_text() {
    let mut acc = ToolCallAccumulator::new();
    acc.absorb(&frag(3, Some("x"), Some("t"), None));
    assert_eq!(acc.tool_calls().len(), 0);
    acc.absorb(&frag(3, None, None, Some("not json")));
    let calls = acc.tool_calls();
    assert_eq!(calls.len(), 1);
    assert_eq!(calls[0].arguments, serde_json::Value::String("not json".to_string()));
}
