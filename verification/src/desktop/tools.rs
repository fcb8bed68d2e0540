//! Tool calls of the desktop application: the built-in tools, the names
//! under which skills and MCP tools are offered, and the routing of a call.

use vstd::prelude::*;
use crate::error::AppError;
use crate::tool_schema::{
    params_view, plain, plain_param, with_bounds, with_choices, with_default, DefaultView, ParamDefault, ParamKind,
    ParamView, ToolParameter,
};
use crate::text::{has_prefix, owned, push_str, replace, replace_all, starts_with, str_eq};

verus! {

/// A tool call requested by the model.
#[derive(Debug)]
pub struct ToolCall {
    pub id: String,
    pub name: String,
    pub arguments: serde_json::Value,
}

/// The outcome of one tool call.
#[derive(Debug, Clone)]
pub struct ToolResult {
    pub tool_call_id: String,
    pub output: String,
    pub success: bool,
}

impl ToolResult {
    /// A result with the given id, output and success flag.
    pub fn of(tool_call_id: &str, output: String, success: bool) -> (r: ToolResult)
        ensures
            r.tool_call_id@ == tool_call_id@,
            r.output == output,
            r.success == success,
    {
        ToolResult { tool_call_id: owned(tool_call_id), output, success }
    }
}

/// The built-in tools.
#[derive(Debug, Clone, Copy, PartialEq, Eq, Structural)]
pub enum BuiltInTool {
    /// Summarises the current page.
    SummarizePage,
    /// Acts on the current page (clicks, forms).
    WebAgent,
    /// Opens a URL.
    OpenUrl,
    /// Translates the page.
    Translate,
    /// Exports the page as Markdown.
    ExportMarkdown,
    /// Searches the web.
    WebSearch,
    /// Runs a shell command.
    RunCommand,
}

/// The function name of a built-in tool.
pub open spec fn builtin_name(t: BuiltInTool) -> Seq<char> {
    match t {
        BuiltInTool::SummarizePage => "summarize_page"@,
        BuiltInTool::WebAgent => "web_agent"@,
        BuiltInTool::OpenUrl => "open_url"@,
        BuiltInTool::Translate => "translate"@,
        BuiltInTool::ExportMarkdown => "export_markdown"@,
        BuiltInTool::WebSearch => "web_search"@,
        BuiltInTool::RunCommand => "run_command"@,
    }
}

/// The description offered to the model for a built-in tool.
pub open spec fn builtin_description(t: BuiltInTool) -> Seq<char> {
    match t {
        BuiltInTool::SummarizePage => "总结当前页面的主要内容"@,
        BuiltInTool::WebAgent => "在当前网页执行自动化操作，如点击按钮、填写表单"@,
        BuiltInTool::OpenUrl => "打开新的网页URL"@,
        BuiltInTool::Translate => "翻译当前页面内容为指定语言"@,
        BuiltInTool::ExportMarkdown => "将当前页面内容导出为 Markdown 格式"@,
        BuiltInTool::WebSearch => "搜索互联网获取最新信息"@,
        BuiltInTool::RunCommand => "在系统终端执行 shell 命令（支持 Windows cmd / Linux/macOS sh），捕获 stdout/stderr 返回结果"@,
    }
}

/// The parameters of a built-in tool, in the order in which they are listed.
pub open spec fn builtin_parameters(t: BuiltInTool) -> Seq<ParamView> {
    match t {
        BuiltInTool::SummarizePage => seq![
            plain_param("max_length"@, ParamKind::Integer, "最大摘要长度（字符数），默认 500"@, false),
        ],
        BuiltInTool::WebAgent => seq![
            ParamView {
                choices: seq!["click"@, "fill"@, "select"@, "scroll"@, "wait"@],
                ..plain_param("action"@, ParamKind::String, "要执行的操作类型"@, true)
            },
            plain_param("selector"@, ParamKind::String, "CSS 选择器"@, true),
            plain_param("value"@, ParamKind::String, "填写的值（仅 fill 操作需要）"@, false),
        ],
        BuiltInTool::OpenUrl => seq![
            plain_param("url"@, ParamKind::String, "要打开的网页URL，必须以 http:// 或 https:// 开头"@, true),
        ],
        BuiltInTool::Translate => seq![
            plain_param("target_language"@, ParamKind::String, "目标语言，如 'zh', 'en', 'ja'"@, true),
        ],
        BuiltInTool::ExportMarkdown => Seq::empty(),
        BuiltInTool::WebSearch => seq![
            plain_param("query"@, ParamKind::String, "搜索查询词"@, true),
            ParamView {
                choices: seq!["Generic"@, "News"@, "Academic"@],
                default: Some(DefaultView::Text("Generic"@)),
                ..plain_param("engine_type"@, ParamKind::String, "搜索引擎类型，默认 Generic"@, false)
            },
            ParamView {
                choices: seq!["OneDay"@, "OneWeek"@, "OneMonth"@, "OneYear"@, "NoLimit"@],
                default: Some(DefaultView::Text("OneWeek"@)),
                ..plain_param("time_range"@, ParamKind::String, "时间范围，默认 OneWeek"@, false)
            },
            ParamView {
                minimum: Some(1),
                maximum: Some(20),
                default: Some(DefaultView::Number(5)),
                ..plain_param("max_results"@, ParamKind::Integer, "最大结果数（1-20），默认 5"@, false)
            },
        ],
        BuiltInTool::RunCommand => seq![
            plain_param(
                "command"@,
                ParamKind::String,
                "要执行的 shell 命令（Windows 上通过 cmd /C 执行，Linux/macOS 上通过 sh -c 执行）"@,
                true,
            ),
            plain_param("working_dir"@, ParamKind::String, "命令执行的工作目录（可选，默认使用系统默认目录）"@, false),
            ParamView {
                minimum: Some(1),
                maximum: Some(120),
                default: Some(DefaultView::Number(30)),
                ..plain_param("timeout"@, ParamKind::Integer, "命令超时时间（秒），默认 30 秒，最大 120 秒"@, false)
            },
        ],
    }
}

impl BuiltInTool {
    /// The function name of the tool.
    pub fn name(&self) -> (r: &'static str)
        ensures
            r@ == builtin_name(*self),
    {
        match self {
            BuiltInTool::SummarizePage => "summarize_page",
            BuiltInTool::WebAgent => "web_agent",
            BuiltInTool::OpenUrl => "open_url",
            BuiltInTool::Translate => "translate",
            BuiltInTool::ExportMarkdown => "export_markdown",
            BuiltInTool::WebSearch => "web_search",
            BuiltInTool::RunCommand => "run_command",
        }
    }

    /// The description of the tool.
    pub fn description(&self) -> (r: &'static str)
        ensures
            r@ == builtin_description(*self),
    {
        match self {
            BuiltInTool::SummarizePage => "总结当前页面的主要内容",
            BuiltInTool::WebAgent => "在当前网页执行自动化操作，如点击按钮、填写表单",
            BuiltInTool::OpenUrl => "打开新的网页URL",
            BuiltInTool::Translate => "翻译当前页面内容为指定语言",
            BuiltInTool::ExportMarkdown => "将当前页面内容导出为 Markdown 格式",
            BuiltInTool::WebSearch => "搜索互联网获取最新信息",
            BuiltInTool::RunCommand => "在系统终端执行 shell 命令（支持 Windows cmd / Linux/macOS sh），捕获 stdout/stderr 返回结果",
        }
    }

    /// The parameters of the tool, from which its JSON schema is written.
    pub fn parameters(&self) -> (r: Vec<ToolParameter>)
        ensures
            params_view(r@) == builtin_parameters(*self),
    {
        let r = match self {
            BuiltInTool::SummarizePage => vec![
                plain("max_length", ParamKind::Integer, "最大摘要长度（字符数），默认 500", false),
            ],
            BuiltInTool::WebAgent => {
                let choices = vec!["click", "fill", "select", "scroll", "wait"];
                assert(choices@.map_values(|c: &'static str| c@) =~= seq!["click"@, "fill"@, "select"@, "scroll"@, "wait"@]);
                vec![
                    with_choices(plain("action", ParamKind::String, "要执行的操作类型", true), choices),
                    plain("selector", ParamKind::String, "CSS 选择器", true),
                    plain("value", ParamKind::String, "填写的值（仅 fill 操作需要）", false),
                ]
            },
            BuiltInTool::OpenUrl => vec![
                plain("url", ParamKind::String, "要打开的网页URL，必须以 http:// 或 https:// 开头", true),
            ],
            BuiltInTool::Translate => vec![
                plain("target_language", ParamKind::String, "目标语言，如 'zh', 'en', 'ja'", true),
            ],
            BuiltInTool::ExportMarkdown => Vec::new(),
            BuiltInTool::WebSearch => {
                let engines = vec!["Generic", "News", "Academic"];
                assert(engines@.map_values(|c: &'static str| c@) =~= seq!["Generic"@, "News"@, "Academic"@]);
                let ranges = vec!["OneDay", "OneWeek", "OneMonth", "OneYear", "NoLimit"];
                assert(ranges@.map_values(|c: &'static str| c@) =~= seq!["OneDay"@, "OneWeek"@, "OneMonth"@, "OneYear"@, "NoLimit"@]);
                vec![
                    plain("query", ParamKind::String, "搜索查询词", true),
                    with_default(
                        with_choices(plain("engine_type", ParamKind::String, "搜索引擎类型，默认 Generic", false), engines),
                        ParamDefault::Text("Generic"),
                    ),
                    with_default(
                        with_choices(plain("time_range", ParamKind::String, "时间范围，默认 OneWeek", false), ranges),
                        ParamDefault::Text("OneWeek"),
                    ),
                    with_default(
                        with_bounds(plain("max_results", ParamKind::Integer, "最大结果数（1-20），默认 5", false), 1, 20),
                        ParamDefault::Number(5),
                    ),
                ]
            },
            BuiltInTool::RunCommand => vec![
                plain(
                    "command",
                    ParamKind::String,
                    "要执行的 shell 命令（Windows 上通过 cmd /C 执行，Linux/macOS 上通过 sh -c 执行）",
                    true,
                ),
                plain("working_dir", ParamKind::String, "命令执行的工作目录（可选，默认使用系统默认目录）", false),
                with_default(
                    with_bounds(
                        plain("timeout", ParamKind::Integer, "命令超时时间（秒），默认 30 秒，最大 120 秒", false),
                        1,
                        120,
                    ),
                    ParamDefault::Number(30),
                ),
            ],
        };
        assert(params_view(r@) =~= builtin_parameters(*self));
        r
    }
}

/// The built-in tools offered to the model, in order: those that the
/// dispatcher carries out (`translate` and `export_markdown` have no
/// implementation here, so they are not offered).
pub open spec fn builtin_order() -> Seq<BuiltInTool> {
    seq![
        BuiltInTool::SummarizePage,
        BuiltInTool::WebAgent,
        BuiltInTool::OpenUrl,
        BuiltInTool::WebSearch,
        BuiltInTool::RunCommand,
    ]
}

/// The built-in tools offered to the model, in order.
pub fn builtin_tools() -> (r: Vec<BuiltInTool>)
    ensures
        r@ == builtin_order(),
{
    let r = vec![
        BuiltInTool::SummarizePage,
        BuiltInTool::WebAgent,
        BuiltInTool::OpenUrl,
        BuiltInTool::WebSearch,
        BuiltInTool::RunCommand,
    ];
    assert(r@ =~= builtin_order());
    r
}

/// The built-in tools have distinct names.
pub proof fn lemma_builtin_names_distinct(a: BuiltInTool, b: BuiltInTool)
    requires
        a != b,
    ensures
        builtin_name(a) != builtin_name(b),
{
    reveal_strlit("summarize_page");
    reveal_strlit("web_agent");
    reveal_strlit("open_url");
    reveal_strlit("translate");
    reveal_strlit("export_markdown");
    reveal_strlit("web_search");
    reveal_strlit("run_command");
    assert(builtin_name(a) != builtin_name(b) || builtin_name(a)[0] != builtin_name(b)[0] || builtin_name(a).len() != builtin_name(b).len() || builtin_name(a)[4] != builtin_name(b)[4]);
}

/// The function name under which a skill is offered to the model.
pub open spec fn skill_function_name(skill_id: Seq<char>) -> Seq<char> {
    "skill_"@ + skill_id
}

/// The function name of a skill.
pub fn skill_tool_name(skill_id: &str) -> (r: String)
    ensures
        r@ == skill_function_name(skill_id@),
{
    let mut r = owned("skill_");
    push_str(&mut r, skill_id);
    r
}

/// A server name as it appears in function names: `-` and spaces become `_`.
pub open spec fn safe_server_name(name: Seq<char>) -> Seq<char> {
    replace_all(replace_all(name, "-"@, "_"@), " "@, "_"@)
}

/// The function name under which a tool of an MCP server is offered:
/// `mcp_{server}_{tool}`, with `-` in the tool name turned into `_`.
pub open spec fn mcp_function_name(server: Seq<char>, tool: Seq<char>) -> Seq<char> {
    "mcp_"@ + safe_server_name(server) + "_"@ + replace_all(tool, "-"@, "_"@)
}

/// The function name of an MCP tool.
pub fn mcp_tool_name(server: &str, tool: &str) -> (r: String)
    ensures
        r@ == mcp_function_name(server@, tool@),
{
    proof {
        reveal_strlit("-");
        reveal_strlit(" ");
    }
    let s1 = replace(server, "-", "_");
    let s2 = replace(s1.as_str(), " ", "_");
    let t = replace(tool, "-", "_");
    let mut r = owned("mcp_");
    push_str(&mut r, s2.as_str());
    push_str(&mut r, "_");
    push_str(&mut r, t.as_str());
    r
}

/// The description under which an MCP tool is offered.
pub fn mcp_tool_description(server: &str, description: &str) -> (r: String)
    ensures
        r@ == "[MCP:"@ + server@ + "] "@ + description@,
{
    let mut r = owned("[MCP:");
    push_str(&mut r, server);
    push_str(&mut r, "] ");
    push_str(&mut r, description);
    r
}

/// Which implementation a tool call goes to.
#[derive(Debug, Clone, PartialEq, Eq)]
pub enum ToolRoute {
    /// A skill, with its id.
    Skill(String),
    /// A tool of an MCP server.
    Mcp,
    /// A built-in tool.
    Builtin(BuiltInTool),
    /// No tool has this name.
    Unknown,
}

/// The routing of a tool name that does not start with `skill_`: `mcp_`
/// names go to MCP servers, and the names of the tools implemented here to them.
pub open spec fn route_of(name: Seq<char>) -> ToolRoute {
    if has_prefix(name, "mcp_"@) {
        ToolRoute::Mcp
    } else if name == "open_url"@ {
        ToolRoute::Builtin(BuiltInTool::OpenUrl)
    } else if name == "web_search"@ {
        ToolRoute::Builtin(BuiltInTool::WebSearch)
    } else if name == "summarize_page"@ {
        ToolRoute::Builtin(BuiltInTool::SummarizePage)
    } else if name == "web_agent"@ {
        ToolRoute::Builtin(BuiltInTool::WebAgent)
    } else if name == "run_command"@ {
        ToolRoute::Builtin(BuiltInTool::RunCommand)
    } else {
        ToolRoute::Unknown
    }
}

/// Decides where a tool call goes. A skill call carries the skill id, the
/// name without its `skill_` prefix.
pub fn route_tool(name: &str) -> (r: ToolRoute)
    ensures
        has_prefix(name@, "skill_"@) ==> (r matches ToolRoute::Skill(id) && id@ == name@.skip(6)),
        !has_prefix(name@, "skill_"@) ==> r == route_of(name@),
{
    proof {
        reveal_strlit("skill_");
    }
    if starts_with(name, "skill_") {
        let v = crate::text::chars_of(name);
        let id = crate::text::string_of_chars(&v.as_slice()[6..v.len()]);
        assert(v@.subrange(6, v.len() as int) =~= name@.skip(6));
        return ToolRoute::Skill(id);
    }
    if starts_with(name, "mcp_") {
        ToolRoute::Mcp
    } else if str_eq(name, "open_url") {
        ToolRoute::Builtin(BuiltInTool::OpenUrl)
    } else if str_eq(name, "web_search") {
        ToolRoute::Builtin(BuiltInTool::WebSearch)
    } else if str_eq(name, "summarize_page") {
        ToolRoute::Builtin(BuiltInTool::SummarizePage)
    } else if str_eq(name, "web_agent") {
        ToolRoute::Builtin(BuiltInTool::WebAgent)
    } else if str_eq(name, "run_command") {
        ToolRoute::Builtin(BuiltInTool::RunCommand)
    } else {
        ToolRoute::Unknown
    }
}

/// A skill offered to the model under its function name is routed back to
/// that skill, and a tool of an MCP server to the MCP servers.
pub proof fn lemma_offered_names_route_back(skill_id: Seq<char>, server: Seq<char>, tool: Seq<char>)
    ensures
        has_prefix(skill_function_name(skill_id), "skill_"@),
        skill_function_name(skill_id).skip(6) == skill_id,
        !has_prefix(mcp_function_name(server, tool), "skill_"@),
        route_of(mcp_function_name(server, tool)) == ToolRoute::Mcp,
{
    reveal_strlit("skill_");
    reveal_strlit("mcp_");
    assert(skill_function_name(skill_id).take(6) =~= "skill_"@);
    assert(skill_function_name(skill_id).skip(6) =~= skill_id);
    let m = mcp_function_name(server, tool);
    assert(m.take(4) =~= "mcp_"@);
    assert(m[0] == 'm');
}

/// Every built-in tool offered to the model is routed by its name to its
/// own implementation; `translate` and `export_markdown`, which are not
/// offered, have none.
pub proof fn lemma_builtin_names_route_back(t: BuiltInTool)
    ensures
        !has_prefix(builtin_name(t), "skill_"@),
        builtin_order().contains(t) ==> route_of(builtin_name(t)) == ToolRoute::Builtin(t),
        !builtin_order().contains(t) ==> route_of(builtin_name(t)) == ToolRoute::Unknown,
{
    reveal_strlit("skill_");
    reveal_strlit("mcp_");
    reveal_strlit("summarize_page");
    reveal_strlit("web_agent");
    reveal_strlit("open_url");
    reveal_strlit("translate");
    reveal_strlit("export_markdown");
    reveal_strlit("web_search");
    reveal_strlit("run_command");
    let n = builtin_name(t);
    assert(n.take(6) != "skill_"@ || n.len() < 6) by {
        if n.len() >= 6 {
            assert(n.take(6)[0] != 's' || n.take(6)[1] != 'k');
        }
    }
    assert(n.take(4) != "mcp_"@ || n.len() < 4) by {
        if n.len() >= 4 {
            assert(n.take(4)[0] != 'm');
        }
    }
    assert("web_agent"@ != "translate"@) by {
        assert("web_agent"@[0] != "translate"@[0]);
    }
    let o = builtin_order();
    assert(o[0] == BuiltInTool::SummarizePage && o[1] == BuiltInTool::WebAgent && o[2] == BuiltInTool::OpenUrl
        && o[3] == BuiltInTool::WebSearch && o[4] == BuiltInTool::RunCommand);
    if t == BuiltInTool::Translate || t == BuiltInTool::ExportMarkdown {
        assert(!o.contains(t)) by {
            if o.contains(t) {
                let k = o.index_of(t);
                assert(0 <= k < 5);
            }
        }
    } else {
        assert("open_url"@.len() == 8 && "web_search"@.len() == 10 && "summarize_page"@.len() == 14
            && "web_agent"@.len() == 9 && "run_command"@.len() == 11);
        match t {
            BuiltInTool::SummarizePage => {
                assert(n != "open_url"@ && n != "web_search"@);
            },
            BuiltInTool::WebAgent => {
                assert(n != "open_url"@ && n != "web_search"@ && n != "summarize_page"@);
            },
            BuiltInTool::WebSearch => {
                assert(n != "open_url"@);
            },
            BuiltInTool::RunCommand => {
                assert(n != "open_url"@ && n != "web_search"@ && n != "summarize_page"@ && n != "web_agent"@);
            },
            _ => {},
        }
    }
}

/// The error for a name that no tool has.
pub fn unknown_tool_error(name: &str) -> (r: AppError)
    ensures
        r matches AppError::Internal(m) && m@ == "Unknown tool: "@ + name@,
{
    let mut m = owned("Unknown tool: ");
    push_str(&mut m, name);
    AppError::Internal(m)
}

/// The tool result that hands the content of a loaded skill to the model.
pub open spec fn skill_loaded_text(skill_id: Seq<char>, content: Seq<char>) -> Seq<char> {
    "# SKILL LOADED: "@ + skill_id + "\n\n"@ + content
        + "\n\n---\nNow follow the instructions in this SKILL to complete the task. Use the available tools (web_search, open_url, web_agent, summarize_page, run_command, or MCP tools) as needed."@
}

/// The output returned for a loaded skill.
pub fn skill_loaded_output(skill_id: &str, content: &str) -> (r: String)
    ensures
        r@ == skill_loaded_text(skill_id@, content@),
{
    let mut r = owned("# SKILL LOADED: ");
    push_str(&mut r, skill_id);
    push_str(&mut r, "\n\n");
    push_str(&mut r, content);
    push_str(
        &mut r,
        "\n\n---\nNow follow the instructions in this SKILL to complete the task. Use the available tools (web_search, open_url, web_agent, summarize_page, run_command, or MCP tools) as needed.",
    );
    r
}

/// The result for an MCP function name that no connected server offers.
pub fn mcp_tool_not_found(tool_call_id: &str, name: &str) -> (r: ToolResult)
    ensures
        r.tool_call_id@ == tool_call_id@,
        r.output@ == "MCP tool '"@ + name@ + "' not found. The MCP server may be disconnected."@,
        !r.success,
{
    let mut m = owned("MCP tool '");
    push_str(&mut m, name);
    push_str(&mut m, "' not found. The MCP server may be disconnected.");
    ToolResult::of(tool_call_id, m, false)
}

} // verus!
