//! The page and web tools: the text taken from HTML, the summary request,
//! the search report, and the checks of `open_url`.

use vstd::prelude::*;
use crate::desktop::tools::ToolResult;
use crate::error::{AppError, AppResult};
use crate::text::{
    chars_of, decimal, has_prefix, is_white_space, is_white_space_char, owned, push_char, push_decimal, push_str,
    push_u64, starts_with, str_eq, string_of_chars, trim, trimmed,
};

verus! {

/// Position of the first `>` at or after `from`, if any.
pub open spec fn first_close(s: Seq<char>, from: int) -> Option<int>
    decreases s.len() - from,
{
    if from < 0 || from >= s.len() {
        None
    } else if s[from] == '>' {
        Some(from)
    } else {
        first_close(s, from + 1)
    }
}

/// The position found is a `>` at or after `from`, with none before it.
pub proof fn lemma_first_close(s: Seq<char>, from: int)
    requires
        0 <= from,
    ensures
        match first_close(s, from) {
            Some(j) => from <= j < s.len() && s[j] == '>' && forall|k: int| from <= k < j ==> s[k] != '>',
            None => forall|k: int| from <= k < s.len() ==> s[k] != '>',
        },
    decreases s.len() - from,
{
    if from < s.len() && s[from] != '>' {
        lemma_first_close(s, from + 1);
    }
}

/// The text with every tag — a `<`, then anything but `>`, then `>` — turned
/// into a space, matched from left to right without overlap; a `<` with no
/// `>` after it stays.
pub open spec fn tags_to_spaces(s: Seq<char>) -> Seq<char>
    decreases s.len(),
{
    if s.len() == 0 {
        Seq::empty()
    } else if s[0] == '<' && first_close(s, 1) is Some {
        let j = first_close(s, 1).unwrap();
        proof {
            lemma_first_close(s, 1);
        }
        seq![' '] + tags_to_spaces(s.skip(j + 1))
    } else {
        seq![s[0]] + tags_to_spaces(s.drop_first())
    }
}

/// `regex::Regex::replace_all` with the pattern `<[^>]*>` and a space as
/// replacement: each leftmost match, from a `<` to the first `>` after it,
/// becomes a space.
#[verifier::external_body]
fn replace_tags(html: &str) -> (r: String)
    ensures
        r@ == tags_to_spaces(html@),
{
    regex::Regex::new(r"<[^>]*>").expect("constant pattern").replace_all(html, " ").into_owned()
}

/// Control characters (general category Cc), which `char::is_control` reports.
pub open spec fn is_control(c: char) -> bool {
    (c as u32) <= 0x1F || (0x7F <= (c as u32) && (c as u32) <= 0x9F)
}

/// Joins the words of a text (the runs between white space) with single
/// spaces: what `split_whitespace` and `join(" ")` give. The second
/// component says whether white space is pending before the next word.
pub open spec fn space_join(s: Seq<char>) -> (Seq<char>, bool)
    decreases s.len(),
{
    if s.len() == 0 {
        (Seq::empty(), false)
    } else {
        let (o, pending) = space_join(s.drop_last());
        let c = s.last();
        if is_white_space(c) {
            (o, true)
        } else if pending && o.len() > 0 {
            (o.push(' ').push(c), false)
        } else {
            (o.push(c), false)
        }
    }
}

/// Longest text, in characters, taken from a page fetched over HTTP.
pub open spec fn max_page_text() -> nat {
    10000
}

/// The text of an HTML page: tags turned into spaces, words joined by single
/// spaces, control characters dropped, at most 10000 characters.
pub open spec fn page_text(html: Seq<char>) -> Seq<char> {
    let t = space_join(tags_to_spaces(html)).0.filter(|c: char| !is_control(c));
    if t.len() > max_page_text() {
        t.take(max_page_text() as int)
    } else {
        t
    }
}

/// Extracts the text of an HTML page.
pub fn extract_text_from_html(html: &str) -> (r: String)
    ensures
        r@ == page_text(html@),
{
    let replaced = replace_tags(html);
    let v = chars_of(replaced.as_str());
    let ghost s = replaced@;
    let mut joined: Vec<char> = Vec::new();
    let mut pending = false;
    let mut i: usize = 0;
    while i < v.len()
        invariant
            0 <= i <= v.len(),
            v@ == s,
            (joined@, pending) == space_join(s.take(i as int)),
        decreases v.len() - i,
    {
        let c = v[i];
        assert(s.take(i as int + 1).drop_last() =~= s.take(i as int));
        if is_white_space_char(c) {
            pending = true;
        } else {
            if pending && joined.len() > 0 {
                joined.push(' ');
            }
            joined.push(c);
            pending = false;
        }
        i = i + 1;
    }
    assert(s.take(v.len() as int) =~= s);
    let ghost pred = |c: char| !is_control(c);
    let ghost j = joined@;
    let mut out: Vec<char> = Vec::new();
    let mut k: usize = 0;
    while k < joined.len()
        invariant
            0 <= k <= joined.len(),
            j == joined@,
            pred == (|c: char| !is_control(c)),
            out@ == j.take(k as int).filter(pred),
        decreases joined.len() - k,
    {
        proof {
            assert(j.take(k as int + 1) =~= j.take(k as int).push(j[k as int]));
            j.take(k as int).lemma_filter_push(j[k as int], pred);
        }
        let c = joined[k];
        let code = c as u32;
        if !(code <= 0x1F || (0x7F <= code && code <= 0x9F)) {
            out.push(c);
        }
        k = k + 1;
    }
    assert(j.take(joined.len() as int) =~= j);
    if out.len() > 10000 {
        let r = string_of_chars(&out.as_slice()[0..10000]);
        assert(out@.subrange(0, 10000) =~= out@.take(10000));
        r
    } else {
        string_of_chars(out.as_slice())
    }
}

/// Pages with these schemes have no content to take.
pub fn is_internal_page(url: &str) -> (r: bool)
    ensures
        r == (has_prefix(url@, "about:"@) || has_prefix(url@, "chrome:"@)),
{
    starts_with(url, "about:") || starts_with(url, "chrome:")
}

/// A source gave content that is not empty.
pub open spec fn has_content(o: Option<String>) -> bool {
    match o {
        Some(c) => c@.len() > 0,
        None => false,
    }
}

/// Position of the first source with content.
pub open spec fn first_with_content(c: Seq<Option<String>>) -> Option<int> {
    if exists|i: int| 0 <= i < c.len() && has_content(c[i]) {
        Some(choose|i: int| 0 <= i < c.len() && has_content(c[i]) && forall|j: int| 0 <= j < i ==> !has_content(#[trigger] c[j]))
    } else {
        None
    }
}

/// The first content that is not empty, trying the sources in order; empty
/// where none gave any.
pub fn first_content(candidates: Vec<Option<String>>) -> (r: String)
    ensures
        match first_with_content(candidates@) {
            Some(i) => candidates@[i] == Some(r),
            None => r@.len() == 0,
        },
{
    let mut i: usize = 0;
    while i < candidates.len()
        invariant
            0 <= i <= candidates.len(),
            forall|j: int| 0 <= j < i ==> !has_content(#[trigger] candidates@[j]),
        decreases candidates.len() - i,
    {
        match &candidates[i] {
            Some(c) => {
                if chars_of(c.as_str()).len() > 0 {
                    proof {
                        let w = choose|x: int| 0 <= x < candidates.len() && has_content(candidates@[x])
                            && forall|j: int| 0 <= j < x ==> !has_content(#[trigger] candidates@[j]);
                        assert(has_content(candidates@[i as int]));
                        if w > i {
                            assert(!has_content(candidates@[i as int]));
                        }
                    }
                    return c.clone();
                }
            },
            None => {},
        }
        i = i + 1;
    }
    String::new()
}

/// The system prompt that asks for a summary of at most `max_length` characters.
pub open spec fn summary_prompt_text(max_length: nat) -> Seq<char> {
    "你是一个专业的页面内容总结器。请根据提供的网页内容，生成一个简洁、准确的总结（不超过 "@ + decimal(max_length)
        + " 字）。\n\n要求：\n- 只返回总结文本，不要包含任何解释或额外内容\n- 总结应该概括页面的核心主题和关键信息\n- 使用中文\n- 保持简洁明了"@
}

/// The system prompt of a summary request.
pub fn summary_system_prompt(max_length: usize) -> (r: String)
    ensures
        r@ == summary_prompt_text(max_length as nat),
{
    let mut r = owned("你是一个专业的页面内容总结器。请根据提供的网页内容，生成一个简洁、准确的总结（不超过 ");
    push_decimal(&mut r, max_length);
    push_str(&mut r, " 字）。\n\n要求：\n- 只返回总结文本，不要包含任何解释或额外内容\n- 总结应该概括页面的核心主题和关键信息\n- 使用中文\n- 保持简洁明了");
    r
}

/// The user message of a summary request.
pub fn summary_user_message(content: &str) -> (r: String)
    ensures
        r@ == "请总结以下网页内容：\n\n"@ + content@,
{
    let mut r = owned("请总结以下网页内容：\n\n");
    push_str(&mut r, content);
    r
}

/// The summary from the model's answer: the first choice's content,
/// trimmed, else "无法生成总结".
pub fn summary_from_answer(first_choice_content: Option<&str>) -> (r: String)
    ensures
        r@ == match first_choice_content {
            Some(c) => trimmed(c@),
            None => "无法生成总结"@,
        },
{
    match first_choice_content {
        Some(c) => trim(c),
        None => owned("无法生成总结"),
    }
}

/// The result when no content could be taken from the page.
pub open spec fn no_page_content_text() -> Seq<char> {
    "❌ 无法自动提取页面内容\n\n原因：该网站有严格的安全防护（CSP/X-Frame-Options/反爬虫），禁止第三方工具读取内容。\n\n解决方案：\n1. 点击'在系统浏览器中打开'按钮\n2. 在系统浏览器中选中并复制您想总结的内容\n3. 回到这里，粘贴内容并说'请总结以下内容'\n\n或者，您可以尝试使用 web_agent 工具进行自动化操作。"@
}

/// The failed result of `summarize_page` for a page without content.
pub fn no_page_content_result(tool_call_id: &str) -> (r: ToolResult)
    ensures
        r.tool_call_id@ == tool_call_id@,
        r.output@ == no_page_content_text(),
        !r.success,
{
    ToolResult::of(
        tool_call_id,
        owned("❌ 无法自动提取页面内容\n\n原因：该网站有严格的安全防护（CSP/X-Frame-Options/反爬虫），禁止第三方工具读取内容。\n\n解决方案：\n1. 点击'在系统浏览器中打开'按钮\n2. 在系统浏览器中选中并复制您想总结的内容\n3. 回到这里，粘贴内容并说'请总结以下内容'\n\n或者，您可以尝试使用 web_agent 工具进行自动化操作。"),
        false,
    )
}

/// One search result, as far as the search service gave it.
#[derive(Debug, Clone)]
pub struct SearchHit {
    pub title: Option<String>,
    pub url: Option<String>,
    pub summary: Option<String>,
}

/// A field of a result, or `N/A` where it is missing.
pub open spec fn or_na(o: Option<String>) -> Seq<char> {
    match o {
        Some(s) => s@,
        None => "N/A"@,
    }
}

/// One result in the report: its number, title, URL and summary.
pub open spec fn hit_text(n: nat, h: SearchHit) -> Seq<char> {
    "["@ + decimal(n) + "] "@ + or_na(h.title) + "\nURL: "@ + or_na(h.url) + "\n摘要: "@ + or_na(h.summary) + "\n"@
}

/// The results numbered from 1, separated by empty lines.
pub open spec fn hits_text(hits: Seq<SearchHit>) -> Seq<char>
    decreases hits.len(),
{
    if hits.len() == 0 {
        Seq::empty()
    } else if hits.len() == 1 {
        hit_text(1, hits[0])
    } else {
        hits_text(hits.drop_last()) + "\n"@ + hit_text(hits.len(), hits.last())
    }
}

/// The report of a search: a note where nothing was found, else the count
/// and the numbered results.
pub open spec fn search_report_text(hits: Seq<SearchHit>) -> Seq<char> {
    if hits.len() == 0 {
        "未找到相关搜索结果。"@
    } else {
        "找到 "@ + decimal(hits.len()) + " 个搜索结果:\n\n"@ + hits_text(hits)
    }
}

fn push_or_na(s: &mut String, o: &Option<String>)
    ensures
        final(s)@ == old(s)@ + or_na(*o),
{
    match o {
        Some(x) => push_str(s, x.as_str()),
        None => push_str(s, "N/A"),
    }
}

/// The report of the results of a search.
#[verifier::spinoff_prover]
pub fn format_search_results(hits: &Vec<SearchHit>) -> (r: String)
    ensures
        r@ == search_report_text(hits@),
{
    if hits.len() == 0 {
        return owned("未找到相关搜索结果。");
    }
    let mut body = String::new();
    let mut i: usize = 0;
    while i < hits.len()
        invariant
            0 <= i <= hits.len(),
            hits.len() > 0,
            body@ == hits_text(hits@.take(i as int)),
        decreases hits.len() - i,
    {
        assert(hits@.take(i as int + 1).drop_last() =~= hits@.take(i as int));
        if i > 0 {
            push_str(&mut body, "\n");
        } else {
            assert(body@ =~= Seq::<char>::empty());
        }
        let ghost before = body@;
        push_str(&mut body, "[");
        push_decimal(&mut body, i + 1);
        push_str(&mut body, "] ");
        push_or_na(&mut body, &hits[i].title);
        push_str(&mut body, "\nURL: ");
        push_or_na(&mut body, &hits[i].url);
        push_str(&mut body, "\n摘要: ");
        push_or_na(&mut body, &hits[i].summary);
        push_str(&mut body, "\n");
        assert(body@ =~= before + hit_text((i + 1) as nat, hits@[i as int]));
        i = i + 1;
    }
    assert(hits@.take(hits.len() as int) =~= hits@);
    let mut r = owned("找到 ");
    push_decimal(&mut r, hits.len());
    push_str(&mut r, " 个搜索结果:\n\n");
    push_str(&mut r, body.as_str());
    r
}

/// The settings of a search: engine, time range and number of results, with
/// their defaults `Generic`, `OneWeek` and 5.
pub fn search_settings(engine_type: Option<&str>, time_range: Option<&str>, max_results: Option<u64>) -> (r: (String, String, u64))
    ensures
        r.0@ == match engine_type {
            Some(e) => e@,
            None => "Generic"@,
        },
        r.1@ == match time_range {
            Some(t) => t@,
            None => "OneWeek"@,
        },
        r.2 == match max_results {
            Some(m) => m,
            None => 5,
        },
{
    (
        match engine_type {
            Some(e) => owned(e),
            None => owned("Generic"),
        },
        match time_range {
            Some(t) => owned(t),
            None => owned("OneWeek"),
        },
        match max_results {
            Some(m) => m,
            None => 5,
        },
    )
}

/// The failed result when no search key is configured.
pub fn missing_search_key_result(tool_call_id: &str) -> (r: ToolResult)
    ensures
        r.tool_call_id@ == tool_call_id@,
        r.output@ == "错误：未配置阿里云 IQS API Key。请在设置 → 工具中配置 ALIYUN_IQS_API_KEY。\n\n获取方式：访问 https://help.aliyun.com/zh/document_detail/3025781.html"@,
        !r.success,
{
    ToolResult::of(
        tool_call_id,
        owned("错误：未配置阿里云 IQS API Key。请在设置 → 工具中配置 ALIYUN_IQS_API_KEY。\n\n获取方式：访问 https://help.aliyun.com/zh/document_detail/3025781.html"),
        false,
    )
}

/// The failed result of a search request the service refused.
pub fn search_http_failure(tool_call_id: &str, status: &str, body: &str) -> (r: ToolResult)
    ensures
        r.tool_call_id@ == tool_call_id@,
        r.output@ == "IQS API 请求失败 ("@ + status@ + "): "@ + body@,
        !r.success,
{
    let mut m = owned("IQS API 请求失败 (");
    push_str(&mut m, status);
    push_str(&mut m, "): ");
    push_str(&mut m, body);
    ToolResult::of(tool_call_id, m, false)
}

/// One entry of a reply of the search service, as far as the tool reads
/// it: each field where the entry holds it as text.
#[derive(Debug, Clone)]
pub struct IqsEntry {
    pub title: Option<String>,
    pub link: Option<String>,
    pub url: Option<String>,
    pub summary: Option<String>,
    pub snippet: Option<String>,
}

/// A reply of the search service: its `items` array, or the `results`
/// array of the older format, where it holds one.
#[derive(Debug, Clone)]
pub struct IqsReply {
    pub items: Option<Vec<IqsEntry>>,
    pub results: Option<Vec<IqsEntry>>,
}

/// The first of two optional fields that is there.
pub open spec fn first_of(a: Option<String>, b: Option<String>) -> Option<String> {
    match a {
        Some(x) => Some(x),
        None => b,
    }
}

/// An entry of `items`: its title, `link` and `summary`.
pub open spec fn item_hit(e: IqsEntry) -> SearchHit {
    SearchHit { title: e.title, url: e.link, summary: e.summary }
}

/// An entry of the older `results`: its title, `url` or else `link`, and
/// `snippet` or else `summary`.
pub open spec fn legacy_hit(e: IqsEntry) -> SearchHit {
    SearchHit { title: e.title, url: first_of(e.url, e.link), summary: first_of(e.snippet, e.summary) }
}

pub open spec fn item_hits(v: Seq<IqsEntry>) -> Seq<SearchHit> {
    v.map_values(|e: IqsEntry| item_hit(e))
}

pub open spec fn legacy_hits(v: Seq<IqsEntry>) -> Seq<SearchHit> {
    v.map_values(|e: IqsEntry| legacy_hit(e))
}

fn copy_text(o: &Option<String>) -> (r: Option<String>)
    ensures
        r == *o,
{
    match o {
        Some(s) => Some(s.clone()),
        None => None,
    }
}

fn first_text(a: &Option<String>, b: &Option<String>) -> (r: Option<String>)
    ensures
        r == first_of(*a, *b),
{
    match a {
        Some(s) => Some(s.clone()),
        None => copy_text(b),
    }
}

/// The results of a reply, read in the current format or the older one.
fn hits_of(v: &Vec<IqsEntry>, legacy: bool) -> (r: Vec<SearchHit>)
    ensures
        !legacy ==> r@ == item_hits(v@),
        legacy ==> r@ == legacy_hits(v@),
{
    let mut r: Vec<SearchHit> = Vec::new();
    let mut i: usize = 0;
    while i < v.len()
        invariant
            0 <= i <= v.len(),
            !legacy ==> r@ == item_hits(v@.take(i as int)),
            legacy ==> r@ == legacy_hits(v@.take(i as int)),
        decreases v.len() - i,
    {
        let e = &v[i];
        let h = if legacy {
            SearchHit { title: copy_text(&e.title), url: first_text(&e.url, &e.link), summary: first_text(&e.snippet, &e.summary) }
        } else {
            SearchHit { title: copy_text(&e.title), url: copy_text(&e.link), summary: copy_text(&e.summary) }
        };
        r.push(h);
        proof {
            assert(v@.take(i as int + 1) =~= v@.take(i as int).push(v@[i as int]));
            assert(item_hits(v@.take(i as int + 1)) =~= item_hits(v@.take(i as int)).push(item_hit(v@[i as int])));
            assert(legacy_hits(v@.take(i as int + 1)) =~= legacy_hits(v@.take(i as int)).push(legacy_hit(v@[i as int])));
        }
        i = i + 1;
    }
    assert(v@.take(v.len() as int) =~= v@);
    r
}

/// The text of the failed result for a reply that holds neither array.
pub open spec fn malformed_reply_text(reply_json: Seq<char>) -> Seq<char> {
    "IQS API 返回格式异常，未找到 items 或 results 字段。完整响应: "@ + reply_json
}

/// The result of a search from the service's reply: the report of its
/// `items`, else of its older `results`, else a failure that shows the
/// whole reply (`reply_json`, its JSON text).
pub fn search_reply_result(tool_call_id: &str, reply: &IqsReply, reply_json: &str) -> (r: ToolResult)
    ensures
        r.tool_call_id@ == tool_call_id@,
        reply.items matches Some(v) ==> r.success && r.output@ == search_report_text(item_hits(v@)),
        reply.items is None ==> (reply.results matches Some(v) ==> r.success && r.output@ == search_report_text(
            legacy_hits(v@),
        )),
        reply.items is None && reply.results is None ==> !r.success && r.output@ == malformed_reply_text(reply_json@),
{
    match &reply.items {
        Some(v) => ToolResult::of(tool_call_id, format_search_results(&hits_of(v, false)), true),
        None => match &reply.results {
            Some(v) => ToolResult::of(tool_call_id, format_search_results(&hits_of(v, true)), true),
            None => {
                let mut m = owned("IQS API 返回格式异常，未找到 items 或 results 字段。完整响应: ");
                push_str(&mut m, reply_json);
                ToolResult::of(tool_call_id, m, false)
            },
        },
    }
}

/// The error of a search call without a query.
pub fn missing_query_error() -> (r: AppError)
    ensures
        r matches AppError::Internal(m) && m@ == "Missing query parameter"@,
{
    AppError::Internal(owned("Missing query parameter"))
}

/// What `serde_json` writes for a string: the string between double quotes,
/// with quotes, backslashes and control characters escaped.
pub uninterp spec fn json_quoted(s: Seq<char>) -> Seq<char>;

/// No character that JSON escapes: no double quote, no backslash and no
/// control character below U+0020.
pub open spec fn json_plain(s: Seq<char>) -> bool {
    forall|i: int| 0 <= i < s.len() ==> #[trigger] s[i] != '"' && s[i] != '\\' && (s[i] as u32) >= 0x20
}

/// `serde_json::to_string` of a string: the string quoted, with the
/// characters JSON requires escaped; other characters, non-ASCII ones
/// included, are written as they are.
#[verifier::external_body]
fn json_quote(s: &str) -> (r: String)
    ensures
        r@ == json_quoted(s@),
        json_plain(s@) ==> r@ == "\""@ + s@ + "\""@,
{
    match serde_json::to_string(s) {
        Ok(t) => t,
        Err(_) => String::new(),
    }
}

/// The JSON body of a search request: the query, the engine, the time range
/// and, under `advancedParams`, the number of results.
pub open spec fn search_body_text(query: Seq<char>, engine: Seq<char>, range: Seq<char>, n: nat) -> Seq<char> {
    "{\"query\":"@ + json_quoted(query) + ",\"engineType\":"@ + json_quoted(engine) + ",\"timeRange\":"@
        + json_quoted(range) + ",\"advancedParams\":{\"numResults\":"@ + decimal(n) + "}}"@
}

/// The body of a search request.
pub fn search_request_body(query: &str, engine: &str, range: &str, n: u64) -> (r: String)
    ensures
        r@ == search_body_text(query@, engine@, range@, n as nat),
{
    let mut r = owned("{\"query\":");
    push_str(&mut r, json_quote(query).as_str());
    push_str(&mut r, ",\"engineType\":");
    push_str(&mut r, json_quote(engine).as_str());
    push_str(&mut r, ",\"timeRange\":");
    push_str(&mut r, json_quote(range).as_str());
    push_str(&mut r, ",\"advancedParams\":{\"numResults\":");
    push_u64(&mut r, n);
    push_str(&mut r, "}}");
    r
}

/// The URL to open must be a web address.
pub fn check_open_url(url: &str) -> (r: AppResult<()>)
    ensures
        (has_prefix(url@, "http://"@) || has_prefix(url@, "https://"@)) ==> r is Ok,
        !(has_prefix(url@, "http://"@) || has_prefix(url@, "https://"@)) ==> (r matches Err(AppError::Internal(m))
            && m@ == "URL must start with http:// or https://"@),
{
    if !starts_with(url, "http://") && !starts_with(url, "https://") {
        return Err(AppError::Internal(owned("URL must start with http:// or https://")));
    }
    Ok(())
}

/// The result of opening a URL in a new tab.
pub fn opened_url_result(tool_call_id: &str, url: &str) -> (r: ToolResult)
    ensures
        r.tool_call_id@ == tool_call_id@,
        r.output@ == "成功打开网页: "@ + url@ + " (新标签页)"@,
        r.success,
{
    let mut m = owned("成功打开网页: ");
    push_str(&mut m, url);
    push_str(&mut m, " (新标签页)");
    ToolResult::of(tool_call_id, m, true)
}

/// Milliseconds during which opening the same URL again is skipped.
pub open spec fn reopen_window_ms() -> nat {
    5000
}

/// Milliseconds from `t` to `now`, or zero where `t` is later.
pub open spec fn elapsed_ms(now: u64, t: u64) -> nat {
    if now >= t {
        (now - t) as nat
    } else {
        0
    }
}

/// URLs opened recently, with the time they were opened in milliseconds.
pub struct RecentUrls {
    entries: Vec<(String, u64)>,
}

/// Views of the entries.
pub open spec fn entry_views(v: Seq<(String, u64)>) -> Seq<(Seq<char>, u64)> {
    v.map_values(|e: (String, u64)| (e.0@, e.1))
}

/// The entries opened less than 5 seconds before `now`.
pub open spec fn still_recent(entries: Seq<(Seq<char>, u64)>, now: u64) -> Seq<(Seq<char>, u64)> {
    entries.filter(|e: (Seq<char>, u64)| elapsed_ms(now, e.1) < reopen_window_ms())
}

/// Position of the first entry for `url`.
pub open spec fn first_entry(entries: Seq<(Seq<char>, u64)>, url: Seq<char>) -> Option<int> {
    if exists|i: int| 0 <= i < entries.len() && entries[i].0 == url {
        Some(choose|i: int| 0 <= i < entries.len() && entries[i].0 == url && forall|j: int| 0 <= j < i ==> #[trigger] entries[j].0 != url)
    } else {
        None
    }
}

proof fn lemma_first_entry(kv: Seq<(Seq<char>, u64)>, url: Seq<char>, j: int)
    requires
        0 <= j < kv.len(),
        kv[j].0 == url,
        forall|q: int| 0 <= q < j ==> #[trigger] kv[q].0 != url,
    ensures
        first_entry(kv, url) == Some(j),
{
    let w = choose|x: int| 0 <= x < kv.len() && kv[x].0 == url && forall|q: int| 0 <= q < x ==> #[trigger] kv[q].0 != url;
    if w < j {
        assert(kv[w].0 != url);
    } else if w > j {
        assert(kv[j].0 != url);
    }
}

impl RecentUrls {
    /// The recent URLs with the time each was opened, oldest entry first.
    pub closed spec fn view(&self) -> Seq<(Seq<char>, u64)> {
        entry_views(self.entries@)
    }

    /// No URL opened yet.
    pub fn new() -> (r: Self)
        ensures
            r.view().len() == 0,
    {
        RecentUrls { entries: Vec::new() }
    }

    /// Forgets the URLs opened 5 seconds or more before `now`; then, where
    /// `url` remains, returns the milliseconds since it was opened; else
    /// records it as opened at `now` and returns `None`.
    pub fn check_and_record(&mut self, url: &str, now: u64) -> (r: Option<u64>)
        ensures
            ({
                let kept = still_recent(old(self).view(), now);
                match first_entry(kept, url@) {
                    Some(i) => r == Some(elapsed_ms(now, kept[i].1) as u64) && final(self).view() == kept,
                    None => r is None && final(self).view() == kept.push((url@, now)),
                }
            }),
    {
        let ghost all = self.view();
        let ghost pred = |e: (Seq<char>, u64)| elapsed_ms(now, e.1) < reopen_window_ms();
        let mut kept: Vec<(String, u64)> = Vec::new();
        let mut i: usize = 0;
        while i < self.entries.len()
            invariant
                0 <= i <= self.entries.len(),
                all == entry_views(self.entries@),
                pred == (|e: (Seq<char>, u64)| elapsed_ms(now, e.1) < reopen_window_ms()),
                entry_views(kept@) == all.take(i as int).filter(pred),
            decreases self.entries.len() - i,
        {
            proof {
                assert(all.take(i as int + 1) =~= all.take(i as int).push(all[i as int]));
                all.take(i as int).lemma_filter_push(all[i as int], pred);
            }
            let t = self.entries[i].1;
            let elapsed: u64 = if now >= t { now - t } else { 0 };
            if elapsed < 5000 {
                let ghost k0 = kept@;
                kept.push((self.entries[i].0.clone(), t));
                assert(entry_views(kept@) =~= entry_views(k0).push(all[i as int]));
            }
            i = i + 1;
        }
        assert(all.take(self.entries.len() as int) =~= all);
        let ghost kv = entry_views(kept@);
        assert(kv == still_recent(old(self).view(), now));
        let mut j: usize = 0;
        while j < kept.len()
            invariant
                0 <= j <= kept.len(),
                kv == entry_views(kept@),
                kv == still_recent(old(self).view(), now),
                forall|q: int| 0 <= q < j ==> #[trigger] kv[q].0 != url@,
            decreases kept.len() - j,
        {
            if str_eq(kept[j].0.as_str(), url) {
                let t = kept[j].1;
                let elapsed: u64 = if now >= t { now - t } else { 0 };
                proof {
                    lemma_first_entry(kv, url@, j as int);
                }
                self.entries = kept;
                return Some(elapsed);
            }
            j = j + 1;
        }
        let ghost k0 = kept@;
        kept.push((owned(url), now));
        assert(entry_views(kept@) =~= kv.push((url@, now)));
        self.entries = kept;
        None
    }
}

/// A URL that was let through is refused when it is opened again within
/// five seconds, with the time since it was let through.
pub proof fn lemma_reopen_within_window_refused(entries: Seq<(Seq<char>, u64)>, url: Seq<char>, t: u64, later: u64)
    requires
        first_entry(still_recent(entries, t), url) is None,
        elapsed_ms(later, t) < reopen_window_ms(),
    ensures
        ({
            let after = still_recent(entries, t).push((url, t));
            let kept = still_recent(after, later);
            first_entry(kept, url) matches Some(i) && elapsed_ms(later, kept[i].1) == elapsed_ms(later, t)
        }),
{
    let pred = |e: (Seq<char>, u64)| elapsed_ms(later, e.1) < reopen_window_ms();
    let first = still_recent(entries, t);
    let after = first.push((url, t));
    first.lemma_filter_push((url, t), pred);
    let kept = still_recent(after, later);
    assert(kept == first.filter(pred).push((url, t)));
    let old_kept = first.filter(pred);
    first.filter_lemma(pred);
    assert forall|q: int| 0 <= q < old_kept.len() implies #[trigger] old_kept[q].0 != url by {
        assert(old_kept.contains(old_kept[q]));
        first.lemma_filter_contains_rev(pred, old_kept[q]);
        let w = first.index_of(old_kept[q]);
        if old_kept[q].0 == url {
            assert(first[w].0 == url);
        }
    }
    let j = old_kept.len() as int;
    assert(kept[j] == (url, t));
    assert forall|q: int| 0 <= q < j implies #[trigger] kept[q].0 != url by {
        assert(kept[q] == old_kept[q]);
    }
    lemma_first_entry(kept, url, j);
}

} // verus!
