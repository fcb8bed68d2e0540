use cosurf::desktop::browser_nav::{
    browser_close_tab, browser_get_state, browser_go_back, browser_go_forward, browser_navigate, click_script,
    extract_hostname, extract_title, host_as_title, input_script, scroll_script, title_or_hostname, TabState, TabStates,
};
use cosurf::desktop::page_cache::{
    cache_expired, chosen_data_dir, generate_cache_filename, get_user_data_dir, page_cache_record, to_hex,
};
use cosurf::desktop::page_context::{inject_page_context, page_context_of, summary_content, web_action_script};
use cosurf::error::AppError;

#[test]
fn back_and_forward_follow_the_history() {
    let mut tabs = TabStates::new();
    let s = browser_navigate(&mut tabs, "t1".to_string(), "https://a.com".to_string());
    assert!(s.can_go_back && !s.can_go_forward && s.is_loading);
    assert_eq!(s.title, "Loading...");
    browser_navigate(&mut tabs, "t1".to_string(), "https://b.com".to_string());
    let back = browser_go_back(&mut tabs, "t1".to_string()).unwrap();
    assert_eq!(back.url, "https://a.com");
    assert!(back.can_go_back && back.can_go_forward);
    let fwd = browser_go_forward(&mut tabs, "t1".to_string()).unwrap();
    assert_eq!(fwd.url, "https://b.com");
    assert!(!fwd.can_go_forward);
    let err = browser_go_forward(&mut tabs, "t1".to_string()).unwrap_err();
    assert_eq!(err, AppError::Internal("Cannot go forward".to_string()));
}

#[test]
fn navigating_after_going_back_drops_forward_history() {
    let mut tabs = TabStates::new();
    browser_navigate(&mut tabs, "t".to_string(), "u1".to_string());
    browser_navigate(&mut tabs, "t".to_string(), "u2".to_string());
    browser_go_back(&mut tabs, "t".to_string()).unwrap();
    let s = browser_navigate(&mut tabs, "t".to_string(), "u3".to_string());
    assert!(!s.can_go_forward);
    let b = browser_go_back(&mut tabs, "t".to_string()).unwrap();
    assert_eq!(b.url, "u1");
}

#[test]
fn state_of_unknown_and_closed_tabs() {
    let mut tabs = TabStates::new();
    let s = browser_get_state(&tabs, "x".to_string());
    assert_eq!(s.url, "about:blank");
    assert_eq!(s.title, "New Tab");
    assert!(!s.is_loading);
    browser_navigate(&mut tabs, "x".to_string(), "https://c.org".to_string());
    let s = browser_get_state(&tabs, "x".to_string());
    assert_eq!(s.url, "https://c.org");
    assert_eq!(s.title, "Page");
    assert!(s.can_go_back);
    browser_close_tab(&mut tabs, "x".to_string());
    assert_eq!(browser_get_state(&tabs, "x".to_string()).title, "New Tab");
    assert_eq!(browser_go_back(&mut tabs, "x".to_string()).unwrap_err(), AppError::Internal("Cannot go back".to_string()));
}

#[test]
fn going_back_keeps_the_current_url_of_the_tab() {
    let mut t = TabState::blank();
    t.navigate("https://a".to_string());
    assert_eq!(t.go_back().as_deref(), Some("about:blank"));
    assert_eq!(t.current_url, "https://a");
    assert_eq!(t.go_back(), None);
}

#[test]
fn scripts_escape_quotes() {
    let c = click_script("a[title='x']");
    assert!(c.contains("document.querySelector('a[title=\\'x\\']')"));
    let i = input_script("#q", "it's \"ok\"");
    assert!(i.contains("el.value = 'it\\'s \\\"ok\\\"';"));
    assert_eq!(scroll_script("up"), "window.scrollBy({ top: -300, behavior: 'smooth' });");
    assert_eq!(scroll_script("sideways"), "window.scrollBy({ top: 300, behavior: 'smooth' });");
}

#[test]
fn titles_come_from_the_title_element() {
    assert_eq!(extract_title("<html><head><title>  Hello World \n</title></head>"), "Hello World");
    assert_eq!(extract_title("<title>no end"), "");
    assert_eq!(extract_title("plain"), "");
}

#[test]
fn hostnames_stand_in_for_missing_titles() {
    assert_eq!(extract_hostname("https://www.example.com/path"), "Example.com");
    assert_eq!(extract_hostname("not a url"), "未知页面");
    assert_eq!(host_as_title(Some(None)), "");
    assert_eq!(title_or_hostname(Some("T".to_string()), "https://x.org"), "T");
    assert_eq!(title_or_hostname(Some(String::new()), "https://x.org"), "X.org");
}

#[test]
fn test_generate_cache_filename() {
    let url1 = "https://www.baidu.com";
    let url2 = "https://www.baidu.com";
    let url3 = "https://www.google.com";
    assert_eq!(generate_cache_filename(url1), generate_cache_filename(url2));
    assert_ne!(generate_cache_filename(url1), generate_cache_filename(url3));
}

#[test]
fn cache_file_names_are_hex_digests() {
    assert_eq!(
        generate_cache_filename("abc"),
        "ba7816bf8f01cfea414140de5dae2223b00361a396177a9cb410ff61f20015ad.json"
    );
    assert_eq!(to_hex(&[0, 15, 16, 255]), "000f10ff");
}

#[test]
fn cache_records_and_settings() {
    let r = page_cache_record("u", "t", "héllo", 7);
    assert_eq!(r.content_length, 6);
    assert_eq!(chosen_data_dir(Some("")), None);
    assert_eq!(chosen_data_dir(Some("/d")), Some("/d".to_string()));
    assert!(cache_expired(86401, None));
    assert!(!cache_expired(86400, None));
    assert!(cache_expired(11, Some(10)));
}

#[test]
fn page_context_describes_the_page() {
    let c = page_context_of(Some("https://docs.rs/x".to_string()), Some("Docs".to_string()), None);
    assert_eq!(c.domain, "docs.rs");
    assert!(c.is_secure);
    assert_eq!(c.content_summary, "当前页面: Docs (docs.rs)");
    let blank = page_context_of(None, None, None);
    assert_eq!(blank.url, "about:blank");
    assert_eq!(blank.title, "未知页面");
    assert_eq!(blank.content_summary, "新标签页，尚未导航到任何页面");
    let loading = page_context_of(Some("http://a".to_string()), None, Some(true));
    assert_eq!(loading.content_summary, "页面正在加载中...");
    assert!(!loading.is_secure);
    let p = inject_page_context(&c);
    assert!(p.contains("安全连接: 是"));
    assert!(p.starts_with("以下是用户当前正在浏览的页面信息"));
}

#[test]
fn summaries_are_cut_to_the_limit() {
    assert_eq!(summary_content(Some("abcdef".to_string()), Some(3)).unwrap(), "abc...");
    assert_eq!(summary_content(Some("abc".to_string()), Some(3)).unwrap(), "abc");
    assert!(summary_content(Some(String::new()), None).is_err());
    assert!(summary_content(None, None).is_err());
}

#[test]
fn web_actions_build_scripts() {
    let s = web_action_script("click", "#b", None).unwrap();
    assert!(s.contains("return '未找到元素: #b';"));
    let f = web_action_script("fill", "#i", Some("x'y".to_string())).unwrap();
    assert!(f.contains("el.value = 'x\\'y';"));
    assert!(web_action_script("dismiss", "", None).unwrap().contains("已发送ESC键"));
    assert_eq!(
        web_action_script("hover", "#a", None).unwrap_err(),
        AppError::Internal("不支持的操作类型: hover".to_string())
    );
}

#[test]
fn test_get_user_data_dir() {
    let dir = get_user_data_dir(None, "/tmp", false);
    assert!(std::path::Path::new(&dir).ends_with("cosurf/data/pages"));
}

#[test]
fn user_data_dir_prefers_the_chosen_path_and_joins_cleanly() {
    assert_eq!(get_user_data_dir(Some("/data/mine"), "/tmp", false), "/data/mine");
    assert_eq!(get_user_data_dir(Some(""), "/tmp", false), "/tmp/cosurf/data/pages");
    assert_eq!(get_user_data_dir(None, "/tmp/", false), "/tmp/cosurf/data/pages");
    assert_eq!(get_user_data_dir(None, "C:\\Temp\\", true), "C:\\Temp\\cosurf\\data\\pages");
    assert_eq!(get_user_data_dir(None, "C:\\Temp", true), "C:\\Temp\\cosurf\\data\\pages");
}

#[test]
fn cache_file_names_have_sixty_four_hex_digits() {
    let name = generate_cache_filename("https://www.baidu.com");
    assert_eq!(name.len(), 69);
    assert!(name.ends_with(".json"));
    assert!(name[..64].chars().all(|c| c.is_ascii_digit() || ('a'..='f').contains(&c)));
    assert_ne!(name, generate_cache_filename("https://www.google.com"));
}
