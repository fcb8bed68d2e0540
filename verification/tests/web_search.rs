use cosurf::desktop::web_tools::{missing_query_error, search_reply_result, search_request_body, IqsEntry, IqsReply};
use cosurf::error::AppError;

fn entry(title: Option<&str>, link: Option<&str>, url: Option<&str>, summary: Option<&str>, snippet: Option<&str>) -> IqsEntry {
    let s = |o: Option<&str>| o.map(|x| x.to_string());
    IqsEntry { title: s(title), link: s(link), url: s(url), summary: s(summary), snippet: s(snippet) }
}

#[test]
fn items_are_reported_by_title_link_and_summary() {
    let reply = IqsReply {
        items: Some(vec![
            entry(Some("Rust"), Some("https://rust-lang.org"), Some("ignored"), Some("A language"), Some("ignored")),
            entry(None, None, None, None, None),
        ]),
        results: None,
    };
    let r = search_reply_result("call_1", &reply, "{}");
    assert_eq!(r.tool_call_id, "call_1");
    assert!(r.success);
    assert_eq!(
        r.output,
        "找到 2 个搜索结果:\n\n[1] Rust\nURL: https://rust-lang.org\n摘要: A language\n\n[2] N/A\nURL: N/A\n摘要: N/A\n"
    );
}

#[test]
fn legacy_results_take_url_or_link_and_snippet_or_summary() {
    let reply = IqsReply {
        items: None,
        results: Some(vec![
            entry(Some("A"), Some("l1"), Some("u1"), Some("s1"), Some("p1")),
            entry(Some("B"), Some("l2"), None, Some("s2"), None),
        ]),
    };
    let r = search_reply_result("c", &reply, "{}");
    assert!(r.success);
    assert_eq!(r.output, "找到 2 个搜索结果:\n\n[1] A\nURL: u1\n摘要: p1\n\n[2] B\nURL: l2\n摘要: s2\n");
}

#[test]
fn an_empty_list_finds_nothing() {
    let reply = IqsReply { items: Some(vec![]), results: None };
    let r = search_reply_result("c", &reply, "{\"items\":[]}");
    assert!(r.success);
    assert_eq!(r.output, "未找到相关搜索结果。");
    let legacy = IqsReply { items: None, results: Some(vec![]) };
    assert_eq!(search_reply_result("c", &legacy, "{}").output, "未找到相关搜索结果。");
}

#[test]
fn a_reply_without_either_list_fails_and_shows_itself() {
    let reply = IqsReply { items: None, results: None };
    let r = search_reply_result("c", &reply, "{\"code\":\"X\"}");
    assert!(!r.success);
    assert_eq!(r.output, "IQS API 返回格式异常，未找到 items 或 results 字段。完整响应: {\"code\":\"X\"}");
}

#[test]
fn the_request_body_carries_the_settings() {
    let body = search_request_body("rust \"verus\"", "Generic", "OneWeek", 5);
    assert_eq!(body, "{\"query\":\"rust \\\"verus\\\"\",\"engineType\":\"Generic\",\"timeRange\":\"OneWeek\",\"advancedParams\":{\"numResults\":5}}");
    let parsed: serde_json::Value = serde_json::from_str(&body).unwrap();
    assert_eq!(parsed["query"], "rust \"verus\"");
    assert_eq!(parsed["advancedParams"]["numResults"], 5);
}

#[test]
fn a_call_without_query_fails() {
    match missing_query_error() {
        AppError::Internal(m) => assert_eq!(m, "Missing query parameter"),
        _ => panic!("expected an internal error"),
    }
}
