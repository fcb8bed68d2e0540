use cosurf::error::AppError;
use cosurf::native::ai::tool_registry::{ToolRegistry, ToolResult};

struct EchoTool;

impl EchoTool {
    fn schema(&self) -> String {
        "{\"type\":\"object\",\"properties\":{\"message\":{\"type\":\"string\"}},\"required\":[\"message\"]}".to_string()
    }

    fn execute(&self, message: &str) -> ToolResult {
        ToolResult::success(format!("Echo: {}", message))
    }
}

#[test]
fn test_tool_registry() {
    let mut registry: ToolRegistry<EchoTool> = ToolRegistry::new();
    registry.register("echo".to_string(), EchoTool);
    assert!(registry.has_tool("echo"));
    let schema = registry.get("echo").map(|t| t.schema());
    assert!(schema.is_some());
    let result = registry.lookup("echo").map(|t| t.execute("Hello"));
    assert!(result.is_ok());
    let result = result.unwrap();
    assert!(result.success);
    assert_eq!(result.output, "Echo: Hello");
}

#[test]
fn registering_a_name_again_replaces_the_tool() {
    let mut registry: ToolRegistry<u32> = ToolRegistry::default();
    registry.register("a".to_string(), 1);
    registry.register("b".to_string(), 2);
    registry.register("a".to_string(), 3);
    assert_eq!(registry.len(), 2);
    assert_eq!(registry.get("a"), Some(&3));
    assert_eq!(registry.get("b"), Some(&2));
    assert_eq!(registry.list_tools(), vec!["a".to_string(), "b".to_string()]);
    match registry.lookup("zzz") {
        Err(AppError::NotFound(m)) => assert_eq!(m, "Tool 'zzz' not found"),
        _ => panic!("expected a not-found error"),
    }
    registry.clear();
    assert!(!registry.has_tool("a"));
    assert_eq!(registry.len(), 0);
}

#[test]
fn results_record_their_duration() {
    let r = ToolResult::error("boom".to_string()).with_duration(12);
    assert!(!r.success);
    assert_eq!(r.output, "");
    assert_eq!(r.error.as_deref(), Some("boom"));
    assert_eq!(r.duration_ms, Some(12));
}
