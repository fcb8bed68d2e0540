use cosurf::native::ai::provider::{FunctionDelta, ToolCallDelta};
use cosurf::native::ai::turn::{turn_step, SinkAction, StreamEvent, TurnEnd, TurnState};

fn frag(index: usize, id: Option<&str>, name: Option<&str>, args: Option<&str>) -> ToolCallDelta {
    ToolCallDelta {
        index,
        id: id.map(|s| s.to_string()),
        call_type: Some("function".to_string()),
        function: Some(FunctionDelta { name: name.map(|s| s.to_string()), arguments: args.map(|s| s.to_string()) }),
    }
}

/// Each action as (kind, text, thinking, done).
fn shown(actions: Vec<SinkAction>) -> Vec<(&'static str, String, bool, bool)> {
    actions
        .into_iter()
        .map(|a| match a {
            SinkAction::Chunk { text, thinking, done } => ("chunk", text, thinking, done),
            SinkAction::Save { text, thinking } => ("save", text, thinking, false),
            SinkAction::Error(m) => ("error", m, false, false),
        })
        .collect()
}

fn turn() -> TurnState {
    TurnState::new("https://api.example.com/v1/chat/completions".to_string(), "gpt-4".to_string())
}

fn delta(tool_calls: Vec<ToolCallDelta>, reasoning: Option<&str>, content: Option<&str>) -> StreamEvent {
    StreamEvent::Delta {
        tool_calls,
        reasoning: reasoning.map(|s| s.to_string()),
        content: content.map(|s| s.to_string()),
    }
}

#[test]
fn reasoning_is_announced_once_then_shown_and_saved() {
    let mut t = turn();
    let (a, end) = turn_step(&mut t, delta(vec![], Some("think"), None));
    assert!(matches!(end, TurnEnd::Running));
    assert_eq!(
        shown(a),
        vec![
            ("chunk", String::new(), true, false),
            ("chunk", "think".to_string(), true, false),
            ("save", "think".to_string(), true, false),
        ]
    );
    let (a, _) = turn_step(&mut t, delta(vec![], Some("more"), Some("answer")));
    assert_eq!(
        shown(a),
        vec![
            ("chunk", "more".to_string(), true, false),
            ("save", "more".to_string(), true, false),
            ("chunk", "answer".to_string(), false, false),
            ("save", "answer".to_string(), false, false),
        ]
    );
    assert!(t.thinking_started);
}

#[test]
fn empty_texts_and_other_messages_do_nothing() {
    let mut t = turn();
    let (a, end) = turn_step(&mut t, delta(vec![], Some(""), Some("")));
    assert!(a.is_empty());
    assert!(matches!(end, TurnEnd::Running));
    assert!(!t.thinking_started);
    let (a, end) = turn_step(&mut t, StreamEvent::Ignored);
    assert!(a.is_empty());
    assert!(matches!(end, TurnEnd::Running));
    let (a, end) = turn_step(&mut t, StreamEvent::Opened);
    assert!(a.is_empty());
    assert!(matches!(end, TurnEnd::Running));
}

#[test]
fn done_without_calls_completes_the_answer() {
    let mut t = turn();
    let (a, end) = turn_step(&mut t, StreamEvent::Done);
    assert_eq!(shown(a), vec![("chunk", String::new(), false, true)]);
    match end {
        TurnEnd::Calls(c) => assert!(c.is_empty()),
        _ => panic!("expected the end of the turn"),
    }
}

#[test]
fn done_with_calls_pauses_and_returns_them() {
    let mut t = turn();
    let _ = turn_step(&mut t, delta(vec![frag(0, Some("c1"), Some("noop"), Some("{\"a\":"))], None, None));
    let _ = turn_step(&mut t, delta(vec![frag(0, None, None, Some("1}"))], None, None));
    let (a, end) = turn_step(&mut t, StreamEvent::Done);
    assert_eq!(shown(a), vec![("chunk", String::new(), false, false)]);
    match end {
        TurnEnd::Calls(c) => {
            assert_eq!(c.len(), 1);
            assert_eq!(c[0].id, "c1");
            assert_eq!(c[0].name, "noop");
            assert_eq!(c[0].arguments, serde_json::from_str::<serde_json::Value>("{\"a\":1}").unwrap());
        }
        _ => panic!("expected the calls"),
    }
}

#[test]
fn a_closed_stream_returns_the_calls_it_began() {
    let mut t = turn();
    let _ = turn_step(&mut t, delta(vec![frag(0, Some("c1"), Some("noop"), Some("{}"))], None, None));
    let (a, end) = turn_step(&mut t, StreamEvent::Closed);
    assert!(a.is_empty());
    match end {
        TurnEnd::Calls(c) => assert_eq!(c.len(), 1),
        _ => panic!("expected the calls"),
    }
    let mut t = turn();
    let (a, _) = turn_step(&mut t, StreamEvent::Closed);
    assert_eq!(shown(a), vec![("chunk", String::new(), false, true)]);
}

#[test]
fn a_cancel_completes_the_answer_and_closes() {
    let mut t = turn();
    let (a, end) = turn_step(&mut t, StreamEvent::Cancelled);
    assert_eq!(shown(a), vec![("chunk", String::new(), false, true), ("chunk", String::new(), false, true)]);
    assert!(matches!(end, TurnEnd::Calls(ref c) if c.is_empty()));
}

#[test]
fn a_timeout_fails_the_turn() {
    let mut t = turn();
    let (a, end) = turn_step(&mut t, StreamEvent::TimedOut);
    assert_eq!(shown(a), vec![("chunk", String::new(), false, true)]);
    match end {
        TurnEnd::Failed(m) => assert_eq!(m, "Response timeout (30s)"),
        _ => panic!("expected a failure"),
    }
}

#[test]
fn a_stream_error_is_reported_and_fails_the_turn() {
    let mut t = turn();
    let (a, end) = turn_step(&mut t, StreamEvent::Failed("connection reset".to_string()));
    assert_eq!(
        shown(a),
        vec![
            (
                "error",
                "AI 服务错误: connection reset\n\n请检查:\n1. 网络连接\n2. API Key\n3. Base URL: https://api.example.com/v1/chat/completions\n4. 模型: gpt-4".to_string(),
                false,
                false
            ),
            ("chunk", String::new(), false, true),
        ]
    );
    match end {
        TurnEnd::Failed(m) => assert_eq!(m, "Stream error: connection reset"),
        _ => panic!("expected a failure"),
    }
}
