use cosurf::desktop::run_command::{
    command_result, command_timeout, is_cmd_wrapper, join_search_path, resolve_command, screen_command, spawn_failure_result,
    timeout_result, truncate_output, unix_path_candidates, windows_path_candidates,
};
use cosurf::tool_schema::{ParamDefault, ParamKind};
use cosurf::desktop::sandbox::{debug_strings, memory_matches, page_expired, search_memories, summary_document, Sandbox, SandboxConfig};
use cosurf::desktop::tools::{mcp_tool_description, mcp_tool_name, route_tool, skill_loaded_output, skill_tool_name, unknown_tool_error, BuiltInTool, ToolRoute};
use cosurf::error::AppError;
use cosurf::native::ai::tools::{
    bridge_payload, electron_bridge_output, route_builtin_tool, shell_output, shell_timeout, shell_timeout_error, tool_result_of, BuiltinRoute,
};

#[test]
fn url_file_names_keep_only_safe_characters() {
    let sb = Sandbox::new(SandboxConfig::new("/tmp/sb".to_string()));
    assert_eq!(sb.url_to_filename("https://a-b.c/d_e?x=1"), "https___a-b_c_d_e_x_1");
}

#[test]
fn only_allowed_commands_run() {
    let sb = Sandbox::new(SandboxConfig::new("/r".to_string()));
    assert!(sb.check_command("ls").is_ok());
    assert_eq!(
        sb.check_command("rm").unwrap_err(),
        AppError::Internal("Command 'rm' is not allowed. Allowed commands: [\"ls\", \"cat\", \"echo\", \"pwd\", \"find\"]".to_string())
    );
    let mut cfg = SandboxConfig::new("/r".to_string());
    cfg.allow_cli = false;
    assert_eq!(Sandbox::new(cfg).check_command("ls").unwrap_err(), AppError::Internal("CLI execution is disabled".to_string()));
    assert_eq!(debug_strings(&vec![]), "[]");
}

#[test]
fn memories_match_by_key_or_value() {
    assert!(memory_matches("lang", "rust", "us"));
    assert!(!memory_matches("a", "b", "z"));
    let found = search_memories(vec![("k1".to_string(), "apple".to_string()), ("k2".to_string(), "pear".to_string())], "ppl");
    assert_eq!(found, vec![("k1".to_string(), "apple".to_string())]);
    assert_eq!(summary_document("u", "t", "s"), "# Summary\n\n**URL:** u\n\n**Generated At:** t\n\n---\n\ns\n");
    assert!(page_expired(0, 86400 * 2, 1));
    assert!(!page_expired(86400, 86400 * 2, 1));
}

#[test]
fn dangerous_commands_are_blocked() {
    let r = screen_command("c1", "sudo RM -RF /home").unwrap();
    assert!(!r.success);
    assert_eq!(r.output, "⛔ 安全拦截：命令包含危险操作 'rm -rf /'\n被拦截的命令: sudo RM -RF /home");
    assert!(screen_command("c1", "ls -la").is_none());
    let f = screen_command("c2", ":(){ :|:& };:").unwrap();
    assert!(f.output.contains("':(){ :|:& };:'"));
}

#[test]
fn command_reports_list_outputs_and_exit_code() {
    let r = command_result("id", "out", "", 0);
    assert!(r.success);
    assert_eq!(r.output, "## stdout\nout\n\n## exit_code\n0");
    let r = command_result("id", "", "boom", -1);
    assert!(!r.success);
    assert_eq!(r.output, "## stderr\nboom\n\n## exit_code\n-1");
    assert_eq!(truncate_output("abcdef", 4), "abcd... (truncated, total 6 chars)");
    assert_eq!(truncate_output("ab", 4), "ab");
    assert_eq!(truncate_output("ééé", 3), "ééé");
    assert_eq!(truncate_output("éééé", 3), "ééé... (truncated, total 4 chars)");
    assert_eq!(command_timeout(None), 30);
    assert_eq!(command_timeout(Some(500)), 120);
    assert_eq!(command_timeout(Some(0)), 1);
    assert_eq!(command_timeout(Some(45)), 45);
    assert_eq!(timeout_result("i", 5, "sleep 9").output, "命令执行超时（5秒），已强制终止。\n命令: sleep 9");
    assert_eq!(spawn_failure_result("i", "nf", "x").output, "命令执行失败: nf\n命令: x");
}

#[test]
fn windows_runs_wrapped_commands_through_cmd() {
    let args = vec!["install".to_string()];
    assert_eq!(resolve_command("NPM", &args, true), ("cmd".to_string(), vec!["/c".to_string(), "NPM".to_string(), "install".to_string()]));
    assert_eq!(resolve_command("npm", &args, false), ("npm".to_string(), args.clone()));
    assert_eq!(resolve_command("git", &args, true), ("git".to_string(), args.clone()));
    assert!(is_cmd_wrapper("uvx"));
}

#[test]
fn tool_names_route_calls() {
    assert_eq!(route_tool("skill_pdf-reader"), ToolRoute::Skill("pdf-reader".to_string()));
    assert_eq!(route_tool("mcp_x_y"), ToolRoute::Mcp);
    assert_eq!(route_tool("run_command"), ToolRoute::Builtin(BuiltInTool::RunCommand));
    assert_eq!(route_tool("translate"), ToolRoute::Unknown);
    assert_eq!(unknown_tool_error("translate"), AppError::Internal("Unknown tool: translate".to_string()));
    assert_eq!(BuiltInTool::WebSearch.name(), "web_search");
    assert_eq!(BuiltInTool::WebSearch.description(), "搜索互联网获取最新信息");
    assert_eq!(skill_tool_name("notes"), "skill_notes");
    assert_eq!(mcp_tool_name("my server-1", "get-item"), "mcp_my_server_1_get_item");
    assert_eq!(mcp_tool_description("srv", "d"), "[MCP:srv] d");
    assert!(skill_loaded_output("s", "body").starts_with("# SKILL LOADED: s\n\nbody\n\n---\n"));
}

#[test]
fn native_routing_and_bridge() {
    assert_eq!(route_builtin_tool("run_command"), BuiltinRoute::Shell);
    assert_eq!(route_builtin_tool("open_url"), BuiltinRoute::ElectronBridge);
    assert_eq!(route_builtin_tool("skill_x"), BuiltinRoute::Skill("x".to_string()));
    assert_eq!(route_builtin_tool("mcp_a_b"), BuiltinRoute::Mcp);
    assert_eq!(route_builtin_tool("other"), BuiltinRoute::Unrecognized);
    let out = electron_bridge_output("{\"id\":1}");
    assert_eq!(bridge_payload(&out), Some("{\"id\":1}".to_string()));
    assert_eq!(bridge_payload("plain"), None);
    assert_eq!(cosurf::native::ai::tools::BuiltInTool::RunCommand.name(), "run_command");
}

#[test]
fn shell_output_and_timeouts() {
    assert_eq!(shell_output("o", "e", "0"), "o\n--- stderr ---\ne");
    assert_eq!(shell_output("", "e", "1"), "e");
    assert_eq!(shell_output("", "", "3"), "[exit code: 3]");
    assert_eq!(shell_timeout(None), 30);
    assert_eq!(shell_timeout(Some(500)), 120);
    assert_eq!(shell_timeout_error(7), AppError::Internal("Command timed out after 7s".to_string()));
    let ok = tool_result_of("i", Ok("fine".to_string()));
    assert!(ok.success && ok.output == "fine");
    let bad = tool_result_of("i", Err(AppError::Internal("x".to_string())));
    assert_eq!(bad.output, "工具执行失败: Internal error: x");
    assert!(!bad.success);
}

#[test]
fn run_command_schema_states_the_shell_limits() {
    let params = cosurf::native::ai::tools::BuiltInTool::RunCommand.parameters();
    let names: Vec<&str> = params.iter().map(|p| p.name).collect();
    assert_eq!(names, vec!["command", "working_dir", "timeout"]);
    assert!(params[0].required && !params[1].required && !params[2].required);
    assert_eq!(params[2].kind, ParamKind::Integer);
    assert_eq!(params[2].minimum, Some(1));
    assert_eq!(params[2].maximum, Some(120));
    assert!(matches!(params[2].default, Some(ParamDefault::Number(30))));
    assert_eq!(shell_timeout(None), 30);
    assert_eq!(shell_timeout(Some(121)), 120);
}

#[test]
fn web_search_schema_lists_engines_and_ranges() {
    let params = BuiltInTool::WebSearch.parameters();
    assert_eq!(params.len(), 4);
    assert_eq!(params[0].name, "query");
    assert!(params[0].required);
    assert_eq!(params[1].choices, vec!["Generic", "News", "Academic"]);
    assert!(matches!(params[1].default, Some(ParamDefault::Text("Generic"))));
    assert_eq!(params[2].choices, vec!["OneDay", "OneWeek", "OneMonth", "OneYear", "NoLimit"]);
    assert_eq!(params[3].maximum, Some(20));
    assert!(BuiltInTool::ExportMarkdown.parameters().is_empty());
    let agent = BuiltInTool::WebAgent.parameters();
    let required: Vec<&str> = agent.iter().filter(|p| p.required).map(|p| p.name).collect();
    assert_eq!(required, vec!["action", "selector"]);
}

#[test]
fn search_path_joins_runtime_directories() {
    let unix = unix_path_candidates("/home/u");
    assert_eq!(unix[0], "/home/u/.nvm/versions/node");
    assert_eq!(unix[4], "/opt/homebrew/bin");
    let win = windows_path_candidates("D:\\proj", "C:\\Users\\u", "C:\\A", "C:\\L", "C:\\PF");
    assert_eq!(win.len(), 12);
    assert_eq!(win[0], "D:\\proj\\.tools\\node-v20.18.0-win-x64");
    assert_eq!(win[3], "C:\\PF\\nodejs");
    let parts = vec!["/usr/bin".to_string(), "/bin".to_string(), "/opt/x".to_string()];
    assert_eq!(join_search_path(&parts, false), "/usr/bin:/bin:/opt/x");
    assert_eq!(join_search_path(&parts, true), "/usr/bin;/bin;/opt/x");
    assert_eq!(join_search_path(&Vec::new(), false), "");
}

#[test]
fn offered_tool_names_route_back() {
    assert_eq!(route_tool(&skill_tool_name("pdf-reader")), ToolRoute::Skill("pdf-reader".to_string()));
    assert_eq!(route_tool(&mcp_tool_name("my server", "read-file")), ToolRoute::Mcp);
    assert_eq!(route_tool(BuiltInTool::WebSearch.name()), ToolRoute::Builtin(BuiltInTool::WebSearch));
    assert_eq!(route_tool(BuiltInTool::RunCommand.name()), ToolRoute::Builtin(BuiltInTool::RunCommand));
    assert_eq!(route_tool(BuiltInTool::Translate.name()), ToolRoute::Unknown);
    assert_eq!(route_tool(BuiltInTool::ExportMarkdown.name()), ToolRoute::Unknown);
    let offered = cosurf::desktop::tools::builtin_tools();
    assert_eq!(offered.len(), 5);
    for t in offered {
        assert_eq!(route_tool(t.name()), ToolRoute::Builtin(t));
    }
    for t in cosurf::native::ai::tools::builtin_tools() {
        let route = route_builtin_tool(t.name());
        if t == cosurf::native::ai::tools::BuiltInTool::RunCommand {
            assert_eq!(route, BuiltinRoute::Shell);
        } else {
            assert_eq!(route, BuiltinRoute::ElectronBridge);
        }
    }
    assert_eq!(route_builtin_tool("skill_notes"), BuiltinRoute::Skill("notes".to_string()));
}
