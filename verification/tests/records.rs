use cosurf::native::db::records::{Conversation, McpServer, McpServerUpdate};

fn server() -> McpServer {
    McpServer::create(
        "s1".to_string(),
        "files".to_string(),
        None,
        None,
        Some("npx".to_string()),
        Some("[\"-y\"]".to_string()),
        None,
        None,
        Some(30),
        None,
        None,
        None,
        100,
    )
}

fn no_change() -> McpServerUpdate {
    McpServerUpdate {
        name: None,
        server_type: None,
        url: None,
        command: None,
        args: None,
        cwd: None,
        env: None,
        timeout: None,
        disabled: None,
        enabled: None,
        headers: None,
    }
}

#[test]
fn new_servers_default_to_stdio_and_enabled() {
    let s = server();
    assert_eq!(s.server_type, "stdio");
    assert!(!s.disabled);
    assert!(s.enabled);
    assert!(s.is_active());
    assert_eq!(s.created_at, 100);
    assert_eq!(s.updated_at, 100);
    let d = McpServer::create(
        "s2".to_string(), "web".to_string(), Some("http".to_string()), Some("http://h".to_string()),
        None, None, None, None, None, Some(true), None, None, 5,
    );
    assert_eq!(d.server_type, "http");
    assert!(d.disabled && !d.enabled && !d.is_active());
}

#[test]
fn updates_set_given_fields_and_keep_the_rest() {
    let s = server();
    let u = McpServerUpdate { name: Some("fs".to_string()), timeout: Some(Some(60)), enabled: Some(false), ..no_change() };
    let r = s.updated(u, 200);
    assert_eq!(r.name, "fs");
    assert_eq!(r.timeout, Some(60));
    assert!(!r.enabled);
    assert_eq!(r.command.as_deref(), Some("npx"));
    assert_eq!(r.created_at, 100);
    assert_eq!(r.updated_at, 200);
}

#[test]
fn an_update_cannot_clear_an_optional_field() {
    let s = server();
    let r = s.updated(McpServerUpdate { command: Some(None), ..no_change() }, 300);
    assert_eq!(r.command.as_deref(), Some("npx"));
    let r = s.updated(no_change(), 300);
    assert_eq!(r.name, "files");
    assert_eq!(r.args.as_deref(), Some("[\"-y\"]"));
    assert_eq!(r.updated_at, 300);
}

#[test]
fn conversation_updates_keep_what_is_not_given() {
    let c = Conversation {
        id: "c".to_string(),
        title: "Old".to_string(),
        is_pinned: false,
        model_id: Some("m1".to_string()),
        created_at: 1,
        updated_at: 1,
    };
    let r = c.updated(Some("New".to_string()), None, None, 9);
    assert_eq!(r.title, "New");
    assert!(!r.is_pinned);
    assert_eq!(r.model_id.as_deref(), Some("m1"));
    assert_eq!(r.updated_at, 9);
    let r = c.updated(None, Some(true), Some("m2".to_string()), 10);
    assert_eq!(r.title, "Old");
    assert!(r.is_pinned);
    assert_eq!(r.model_id.as_deref(), Some("m2"));
    let r = c.updated(None, None, None, 11);
    assert_eq!(r.updated_at, 1);
}

#[test]
fn new_conversations_have_a_default_title() {
    let c = Conversation::create("c1".to_string(), None, None, 42);
    assert_eq!(c.title, "新对话");
    assert!(!c.is_pinned);
    assert_eq!(c.created_at, 42);
    let c = Conversation::create("c2".to_string(), Some("Plans".to_string()), Some("gpt".to_string()), 7);
    assert_eq!(c.title, "Plans");
    assert_eq!(c.model_id.as_deref(), Some("gpt"));
}
