use cosurf::desktop::agent::{ends_after, final_answer, memory_observation, page_loaded_observation, step_record, Observation, ReactBudget};
use cosurf::desktop::mcp::{endpoint_from_line, json_reply_result, resolve_endpoint, sse_payloads_of, sse_reply_result, tool_call_output, McpSession, McpTransport, RpcReply};
use cosurf::desktop::playwright::{api_outcome, launch_url, session_url};
use cosurf::desktop::skills::{is_valid_skill_id, lines, parse_markdown_sections, to_kebab_case, with_enabled_flag, SkillsManager};
use cosurf::desktop::web_tools::{check_open_url, extract_text_from_html, first_content, format_search_results, RecentUrls, SearchHit};
use cosurf::error::AppError;
use cosurf::native::ai::cancel::{is_cancelled, request_cancel, reset_cancel, CancelFlag};
use cosurf::native::ai::checkpoint::{backup_file_name, rollback_steps, FileChange, RestoreStep};
use cosurf::native::ai::codex::{codex_reply_text, codex_thread_id, mock_reply, CodexAgent, CodexAgentConfig};
use cosurf::native::ai::mcp::{mcp_request_headers, route_function_name, transport_for, McpRoute, McpRoutes, McpTransport as NativeTransport};
use cosurf::native::ai::skills::{front_matter_of, import_id, Skill, SkillsManager as NativeSkills};
use cosurf::native::ai::tool_registry::ToolResult as RegistryResult;
use cosurf::native::db::user_events::EventType;
use cosurf::native::screenshot::crop_region;

fn skill(id: &str, enabled: bool) -> Skill {
    Skill {
        id: id.to_string(),
        name: id.to_uppercase(),
        description: "d".to_string(),
        enabled,
        tags: vec![],
        dir_path: format!("/skills/{}", id),
        markdown_content: None,
    }
}

#[test]
fn markdown_sections_and_front_matter() {
    let md = "\n---\nname: A\n---\n\nBody text\n";
    assert_eq!(parse_markdown_sections(md).unwrap(), ("name: A".to_string(), "Body text".to_string()));
    assert_eq!(
        parse_markdown_sections("no front").unwrap_err(),
        AppError::Internal("SKILL.md must start with --- frontmatter delimiter".to_string())
    );
    assert_eq!(parse_markdown_sections("---\nname: A").unwrap_err(), AppError::Internal("Missing closing --- for frontmatter".to_string()));
    assert_eq!(front_matter_of("---\nname: A\n---\nx"), Some("name: A".to_string()));
    assert_eq!(front_matter_of("---\nname: B"), Some("name: B".to_string()));
    assert_eq!(front_matter_of("plain"), None);
}

#[test]
fn skill_ids() {
    assert_eq!(to_kebab_case("My  Cool Skill!"), "my-cool-skill");
    assert_eq!(to_kebab_case("--A--b--"), "a-b");
    assert!(is_valid_skill_id("pdf-tools2"));
    assert!(!is_valid_skill_id(""));
    assert!(!is_valid_skill_id("a b"));
    assert_eq!(import_id("Web Helper"), "web-helper");
}

#[test]
fn enabled_flag_is_rewritten_in_the_front_matter() {
    let md = "---\nname: A\nenabled: true\n---\nBody";
    assert_eq!(with_enabled_flag(md, false).unwrap(), "---\nname: A\nenabled: false\n---\n\nBody");
    let md2 = "---\nname: A\n---\nBody";
    assert_eq!(with_enabled_flag(md2, true).unwrap(), "---\nname: A\nenabled: true\n---\n\nBody");
    let toggled = with_enabled_flag("---\nname: X\ndescription: Y\nenabled: true\n---\n\nBody", false).unwrap();
    let (front, body) = parse_markdown_sections(&toggled).unwrap();
    assert!(front.contains("enabled: false"));
    assert_eq!(body, "Body");
    assert_eq!(with_enabled_flag(&toggled, true).unwrap(), "---\nname: X\ndescription: Y\nenabled: true\n---\n\nBody");
    assert_eq!(lines("a\r\nb\n\nc\n"), vec!["a".to_string(), "b".to_string(), String::new(), "c".to_string()]);
}

#[test]
fn skills_are_kept_by_id() {
    let mut m = SkillsManager::new("/skills".to_string());
    m.insert_skill(skill("a", true));
    m.insert_skill(skill("b", false));
    assert_eq!(m.get_enabled_skills().len(), 1);
    assert_eq!(m.get_all_skills().len(), 2);
    m.toggle_skill("b", true).unwrap();
    assert_eq!(m.get_enabled_skills().len(), 2);
    assert_eq!(m.delete_skill("a").unwrap(), "/skills/a");
    assert!(m.get_skill("a").is_none());
    assert_eq!(m.toggle_skill("zz", true).unwrap_err(), AppError::Internal("Skill not found: zz".to_string()));
    assert_eq!(m.get_skills_dir(), "/skills");
}

#[test]
fn native_skills_cache_content_and_toggle() {
    let mut m = NativeSkills::new("/s".to_string());
    m.insert_skill(skill("x", true));
    assert_eq!(m.cached_content("x").unwrap(), None);
    m.store_content("x", "# X".to_string()).unwrap();
    assert_eq!(m.cached_content("x").unwrap(), Some("# X".to_string()));
    assert_eq!(m.toggle_skill("x").unwrap(), false);
    assert_eq!(m.toggle_skill("x").unwrap(), true);
    assert_eq!(m.cached_content("nope").unwrap_err(), AppError::NotFound("Skill nope not found".to_string()));
}

#[test]
fn event_type_names_round_trip() {
    for t in [EventType::TabOpen, EventType::PageStay, EventType::WindowResize, EventType::PageLoad] {
        assert_eq!(EventType::parse(t.name()), Ok(t));
    }
    assert_eq!(EventType::parse("nope"), Err("Unknown event type: nope".to_string()));
}

#[test]
fn screenshots_are_cropped_to_the_screen() {
    assert_eq!(crop_region(-5, 10, 100, 100, 50, 60), (0, 10, 50, 50));
    assert_eq!(crop_region(40, 70, 100, 5, 50, 60), (40, 60, 10, 0));
}

#[test]
fn checkpoints_undo_changes() {
    let changes = vec![
        FileChange::Created { path: "/a".to_string(), backup_path: None },
        FileChange::Modified { path: "/b".to_string(), backup_path: "/b.bak".to_string() },
    ];
    let steps = rollback_steps(&changes);
    assert_eq!(steps[0], RestoreStep::DeleteIfPresent { path: "/a".to_string() });
    assert_eq!(steps[1], RestoreStep::CopyBack { backup_path: "/b.bak".to_string(), path: "/b".to_string() });
    assert_eq!(changes[1].get_path(), "/b");
    assert_eq!(changes[0].get_backup_path(), None);
    assert_eq!(backup_file_name("f.txt", 1700000000123), "f.txt_1700000000123.bak");
}

#[test]
fn mcp_transports_headers_and_routes() {
    assert_eq!(transport_for("SSE"), NativeTransport::Sse);
    assert_eq!(transport_for("http"), NativeTransport::StreamableHttp);
    assert_eq!(transport_for("Stdio"), NativeTransport::Stdio);
    assert_eq!(transport_for("other"), NativeTransport::StreamableHttp);
    let h = vec![("X-API-Key".to_string(), Some("k".to_string())), ("n".to_string(), None)];
    assert_eq!(mcp_request_headers(&h, &Some("s".to_string()), true), vec![("X-API-Key".to_string(), "k".to_string())]);
    assert_eq!(
        mcp_request_headers(&h, &Some("s".to_string()), false),
        vec![("X-API-Key".to_string(), "k".to_string()), ("Authorization".to_string(), "Bearer s".to_string())]
    );
    assert_eq!(route_function_name("my-srv", "get-x"), "mcp_my_srv_get-x");
    let mut routes = McpRoutes::new();
    routes.insert("mcp_a_t".to_string(), McpRoute { server_id: "1".to_string(), server_name: "a".to_string(), original_tool_name: "t".to_string() });
    assert_eq!(routes.route("mcp_a_t").unwrap().original_tool_name, "t");
    assert_eq!(routes.route("mcp_b").unwrap_err(), AppError::Internal("Unknown MCP tool: mcp_b".to_string()));
}

#[test]
fn mcp_sessions_and_replies() {
    let mut s = McpSession::new("https://m.io/mcp/".to_string(), McpTransport::StreamableHttp);
    assert_eq!(s.next_request_id(), 1);
    assert_eq!(s.next_request_id(), 2);
    assert_eq!(s.request_url().unwrap(), "https://m.io/mcp");
    let sse = McpSession::new("https://m.io".to_string(), McpTransport::Sse);
    assert!(sse.request_url().is_err());
    assert_eq!(resolve_endpoint("/messages?s=1", "https://m.io/sse"), Some("https://m.io/messages?s=1".to_string()));
    assert_eq!(resolve_endpoint("https://x/y", "https://m.io"), Some("https://x/y".to_string()));
    assert_eq!(endpoint_from_line("  data: /ep  ", "https://m.io/sse"), Some("https://m.io/ep".to_string()));
    assert_eq!(endpoint_from_line("event: endpoint", "https://m.io"), None);
    assert_eq!(sse_payloads_of("event: m\ndata: {\"a\":1}\ndata: [DONE]\ndata:\n"), vec!["{\"a\":1}".to_string()]);
    let replies = vec![
        Some(RpcReply { id: Some(9), result: Some(1), error: None }),
        None,
        Some(RpcReply { id: Some(3), result: Some(2), error: None }),
        Some(RpcReply { id: None, result: Some(4), error: None }),
    ];
    assert_eq!(sse_reply_result(replies, Some(3)), Ok(4));
    let err = vec![Some(RpcReply::<i32> { id: Some(1), result: None, error: Some((-32601, "no".to_string())) })];
    assert_eq!(sse_reply_result(err, Some(1)), Err(AppError::Internal("MCP error -32601: no".to_string())));
    assert_eq!(sse_reply_result::<i32>(vec![], None), Err(AppError::Internal("No valid JSON-RPC result found in SSE stream".to_string())));
    assert_eq!(json_reply_result(RpcReply::<i32> { id: None, result: None, error: None }), Err(AppError::Internal("MCP response has no result".to_string())));
    assert_eq!(tool_call_output(false, None, &vec!["a".to_string(), "b".to_string()], "{}".to_string()), Ok("a\nb".to_string()));
    assert_eq!(tool_call_output(true, None, &vec![], "{}".to_string()), Err(AppError::Internal("MCP tool error: Unknown MCP tool error".to_string())));
}

#[test]
fn html_text_and_search_reports() {
    assert_eq!(extract_text_from_html("<p>Hello\n  <b>world</b></p>\u{7}!"), "Hello world !");
    assert_eq!(extract_text_from_html("a < b"), "a < b");
    let hits = vec![
        SearchHit { title: Some("T1".to_string()), url: Some("u1".to_string()), summary: None },
        SearchHit { title: None, url: Some("u2".to_string()), summary: Some("s2".to_string()) },
    ];
    assert_eq!(format_search_results(&hits), "找到 2 个搜索结果:\n\n[1] T1\nURL: u1\n摘要: N/A\n\n[2] N/A\nURL: u2\n摘要: s2\n");
    assert_eq!(format_search_results(&vec![]), "未找到相关搜索结果。");
    assert_eq!(first_content(vec![None, Some(String::new()), Some("x".to_string())]), "x");
}

#[test]
fn urls_opened_twice_within_five_seconds_open_once() {
    assert!(check_open_url("ftp://x").is_err());
    assert!(check_open_url("https://x").is_ok());
    let mut recent = RecentUrls::new();
    assert_eq!(recent.check_and_record("https://a", 1000), None);
    assert_eq!(recent.check_and_record("https://a", 3500), Some(2500));
    assert_eq!(recent.check_and_record("https://a", 7000), None);
}

#[test]
fn agent_steps_and_services() {
    let o = Observation::new("done".to_string(), true);
    assert!(ends_after(&o));
    assert!(!ends_after(&Observation::new("need more data".to_string(), true)));
    assert_eq!(final_answer(None), "Maximum iterations reached. Could not complete the task.");
    assert_eq!(memory_observation("k", None).result, "Memory 'k' not found");
    assert_eq!(page_loaded_observation(12).result, "Loaded web page content (12 bytes)");
    assert_eq!(step_record("r", "t", "{}", "o"), "\nThought: r\nAction: t({})\nObservation: o");
    let mut b = ReactBudget::new(1);
    assert!(b.start_step());
    assert!(!b.start_step());
    assert_eq!(launch_url(), "http://127.0.0.1:3100/browser/launch");
    assert_eq!(session_url("s1", "close"), "http://127.0.0.1:3100/browser/s1/close");
    assert_eq!(api_outcome::<i32>(true, None, None, "No content in response", "x"), Err("No content in response".to_string()));
    assert_eq!(api_outcome::<i32>(false, None, None, "m", "Navigation failed"), Err("Navigation failed".to_string()));
    let cfg = CodexAgentConfig {
        provider: "openai".to_string(),
        model: "gpt-4o".to_string(),
        api_key: "sk-test".to_string(),
        base_url: None,
        cwd: "/tmp".to_string(),
        codex_home: "/tmp/codex".to_string(),
    };
    assert!(CodexAgent::new(cfg.clone(), false, None, false).is_err());
    assert_eq!(CodexAgent::new(cfg.clone(), false, Some("/bin/codex".to_string()), true).unwrap().codex_path, "/bin/codex");
    assert_eq!(codex_thread_id(42), "codex_cli_42");
    assert_eq!(codex_reply_text(None, Some("d".to_string()), Some("t".to_string())), Some("d".to_string()));
    let mut flag = CancelFlag::new();
    assert!(!is_cancelled(&flag));
    request_cancel(&mut flag);
    assert!(is_cancelled(&flag));
    reset_cancel(&mut flag);
    assert!(!is_cancelled(&flag));
    assert!(RegistryResult::success("ok".to_string()).success);
    assert_eq!(RegistryResult::error("bad".to_string()).error.as_deref(), Some("bad"));
}

#[test]
fn kebab_case_ids_pass_validation() {
    for name in ["My Cool Skill!", "--a__b--", "PDF Reader 2", "x"] {
        let id = to_kebab_case(name);
        assert!(is_valid_skill_id(&id), "{}", id);
    }
    assert_eq!(to_kebab_case("My Cool Skill!"), "my-cool-skill");
    assert_eq!(to_kebab_case("!!!"), "");
    assert!(!is_valid_skill_id(&to_kebab_case("!!!")));
}

#[test]
fn test_codex_agent_with_mock() {
    let config = CodexAgentConfig {
        provider: "mock".to_string(),
        model: "mock-model".to_string(),
        api_key: "mock-key".to_string(),
        base_url: None,
        cwd: "/tmp".to_string(),
        codex_home: "/tmp/codex".to_string(),
    };
    let agent = CodexAgent::new(config, true, None, false);
    assert!(agent.is_ok());
    let agent = agent.unwrap();
    assert!(agent.mock);
    let responses = mock_reply("Hello");
    assert!(!responses.is_empty());
    assert_eq!(responses[0], "[mock codex] Hello");
}

#[test]
fn test_codex_agent_without_mock_should_fail() {
    let config = CodexAgentConfig {
        provider: "openai".to_string(),
        model: "gpt-4o".to_string(),
        api_key: "sk-test".to_string(),
        base_url: None,
        cwd: "/tmp".to_string(),
        codex_home: "/tmp/codex".to_string(),
    };
    assert!(CodexAgent::new(config, false, None, false).is_err());
}

#[test]
fn a_rewritten_skill_file_reads_back() {
    let md = "  ---\nname: X\nenabled: true\n---\n\nBody with --- inside\n\n";
    let rewritten = with_enabled_flag(md, false).unwrap();
    let (front, body) = parse_markdown_sections(&rewritten).unwrap();
    assert_eq!(front, "name: X\nenabled: false");
    assert_eq!(body, "Body with --- inside");
    let empty_body = with_enabled_flag("---\nname: Y\n---", true).unwrap();
    assert_eq!(empty_body, "---\nname: Y\nenabled: true\n---\n\n");
    let (front, body) = parse_markdown_sections(&empty_body).unwrap();
    assert_eq!(front, "name: Y\nenabled: true");
    assert_eq!(body, "");
}

#[test]
fn kebab_case_twice_is_kebab_case_once() {
    for name in ["My Cool Skill!!", "--a__b--", "Web Search 2", "x"] {
        let id = to_kebab_case(name);
        assert_eq!(to_kebab_case(&id), id);
    }
    assert_eq!(to_kebab_case("My Cool Skill!!"), "my-cool-skill");
}
