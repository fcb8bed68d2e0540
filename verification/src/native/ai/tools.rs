//! Tool calls, tool results and the built-in tool catalogue.

use vstd::prelude::*;
use crate::error::{error_text, AppError, AppResult};
use crate::tool_schema::{
    params_view, plain, plain_param, with_bounds, with_choices, with_default, DefaultView, ParamDefault, ParamKind,
    ParamView, ToolParameter,
};
use crate::text::{chars_of, decimal, has_prefix, owned, push_str, push_u64, starts_with, str_eq, string_of_chars};

verus! {

/// A JSON value, carried through unchanged.
#[verifier::external_type_specification]
#[verifier::external_body]
pub struct ExJsonValue(serde_json::Value);

/// Whether a text is a JSON document.
pub uninterp spec fn is_json_text(text: Seq<char>) -> bool;

/// The document that `serde_json::from_str` parses from a JSON text.
pub uninterp spec fn parsed_json(text: Seq<char>) -> serde_json::Value;

/// `serde_json::from_str::<serde_json::Value>`: the parsed document, or
/// `None` where the text is not JSON. What the parsed value holds is named,
/// not described.
#[verifier::external_body]
pub(crate) fn parse_json(text: &str) -> (r: Option<serde_json::Value>)
    ensures
        r is Some <==> is_json_text(text@),
        r matches Some(v) ==> v == parsed_json(text@),
{
    serde_json::from_str::<serde_json::Value>(text).ok()
}

/// The JSON string value that holds a text.
pub uninterp spec fn json_string_value(text: Seq<char>) -> serde_json::Value;

/// `serde_json::Value::String`: a JSON string value holding the text. What
/// the value holds is named, not described.
#[verifier::external_body]
pub(crate) fn json_string(text: &str) -> (r: serde_json::Value)
    ensures
        r == json_string_value(text@),
{
    serde_json::Value::String(text.to_string())
}

/// The arguments of a call as JSON: the text parsed where it is JSON, else
/// a JSON string holding it.
pub open spec fn arguments_value(text: Seq<char>) -> serde_json::Value {
    if is_json_text(text) {
        parsed_json(text)
    } else {
        json_string_value(text)
    }
}

/// A tool call requested by the model.
#[derive(Debug)]
pub struct ToolCall {
    pub id: String,
    pub name: String,
    pub arguments: serde_json::Value,
}

/// The outcome of one tool call.
#[derive(Debug, Clone)]
pub struct ToolResult {
    pub tool_call_id: String,
    pub output: String,
    pub success: bool,
}

/// The built-in tools of the native module.
#[derive(Debug, Clone, Copy, PartialEq, Eq, Structural)]
pub enum BuiltInTool {
    SummarizePage,
    WebAgent,
    OpenUrl,
    Translate,
    ExportMarkdown,
    RunCommand,
}

/// The function name of a built-in tool.
pub open spec fn builtin_name(t: BuiltInTool) -> Seq<char> {
    match t {
        BuiltInTool::SummarizePage => "summarize_page"@,
        BuiltInTool::WebAgent => "web_agent"@,
        BuiltInTool::OpenUrl => "open_url"@,
        BuiltInTool::Translate => "translate"@,
        BuiltInTool::ExportMarkdown => "export_markdown"@,
        BuiltInTool::RunCommand => "run_command"@,
    }
}

/// The description offered to the model for a built-in tool.
pub open spec fn builtin_description(t: BuiltInTool) -> Seq<char> {
    match t {
        BuiltInTool::SummarizePage => "总结当前页面的主要内容"@,
        BuiltInTool::WebAgent => "在当前网页执行自动化操作，如点击按钮、填写表单"@,
        BuiltInTool::OpenUrl => "打开新的网页URL"@,
        BuiltInTool::Translate => "翻译当前页面内容为指定语言"@,
        BuiltInTool::ExportMarkdown => "将当前页面内容导出为 Markdown 格式"@,
        BuiltInTool::RunCommand => "在系统终端执行 shell 命令（支持 Windows cmd / Linux/macOS sh），捕获 stdout/stderr 返回结果"@,
    }
}

/// The parameters of a built-in tool, in the order in which they are listed.
pub open spec fn builtin_parameters(t: BuiltInTool) -> Seq<ParamView> {
    match t {
        BuiltInTool::SummarizePage => seq![
            plain_param("max_length"@, ParamKind::Integer, "最大摘要长度（字符数），默认 500"@, false),
        ],
        BuiltInTool::WebAgent => seq![
            ParamView {
                choices: seq!["click"@, "fill"@, "select"@, "scroll"@, "wait"@],
                ..plain_param("action"@, ParamKind::String, "要执行的操作类型"@, true)
            },
            plain_param("selector"@, ParamKind::String, "CSS 选择器"@, true),
            plain_param("value"@, ParamKind::String, "填写的值（仅 fill 操作需要）"@, false),
        ],
        BuiltInTool::OpenUrl => seq![
            plain_param("url"@, ParamKind::String, "要打开的网页URL，必须以 http:// 或 https:// 开头"@, true),
        ],
        BuiltInTool::Translate => seq![
            plain_param("target_language"@, ParamKind::String, "目标语言，如 'zh', 'en', 'ja'"@, true),
        ],
        BuiltInTool::ExportMarkdown => Seq::empty(),
        BuiltInTool::RunCommand => seq![
            plain_param(
                "command"@,
                ParamKind::String,
                "要执行的 shell 命令（Windows 上通过 cmd /C 执行，Linux/macOS 上通过 sh -c 执行）"@,
                true,
            ),
            plain_param("working_dir"@, ParamKind::String, "命令执行的工作目录（可选，默认使用系统默认目录）"@, false),
            ParamView {
                minimum: Some(1),
                maximum: Some(120),
                default: Some(DefaultView::Number(30)),
                ..plain_param("timeout"@, ParamKind::Integer, "命令超时时间（秒），默认 30 秒，最大 120 秒"@, false)
            },
        ],
    }
}

impl BuiltInTool {
    /// The function name of the tool.
    pub fn name(&self) -> (r: &'static str)
        ensures
            r@ == builtin_name(*self),
    {
        match self {
            BuiltInTool::SummarizePage => "summarize_page",
            BuiltInTool::WebAgent => "web_agent",
            BuiltInTool::OpenUrl => "open_url",
            BuiltInTool::Translate => "translate",
            BuiltInTool::ExportMarkdown => "export_markdown",
            BuiltInTool::RunCommand => "run_command",
        }
    }

    /// The description of the tool.
    pub fn description(&self) -> (r: &'static str)
        ensures
            r@ == builtin_description(*self),
    {
        match self {
            BuiltInTool::SummarizePage => "总结当前页面的主要内容",
            BuiltInTool::WebAgent => "在当前网页执行自动化操作，如点击按钮、填写表单",
            BuiltInTool::OpenUrl => "打开新的网页URL",
            BuiltInTool::Translate => "翻译当前页面内容为指定语言",
            BuiltInTool::ExportMarkdown => "将当前页面内容导出为 Markdown 格式",
            BuiltInTool::RunCommand => "在系统终端执行 shell 命令（支持 Windows cmd / Linux/macOS sh），捕获 stdout/stderr 返回结果",
        }
    }

    /// The parameters of the tool, from which its JSON schema is written.
    pub fn parameters(&self) -> (r: Vec<ToolParameter>)
        ensures
            params_view(r@) == builtin_parameters(*self),
    {
        let r = match self {
            BuiltInTool::SummarizePage => vec![
                plain("max_length", ParamKind::Integer, "最大摘要长度（字符数），默认 500", false),
            ],
            BuiltInTool::WebAgent => {
                let choices = vec!["click", "fill", "select", "scroll", "wait"];
                assert(choices@.map_values(|c: &'static str| c@) =~= seq!["click"@, "fill"@, "select"@, "scroll"@, "wait"@]);
                vec![
                    with_choices(plain("action", ParamKind::String, "要执行的操作类型", true), choices),
                    plain("selector", ParamKind::String, "CSS 选择器", true),
                    plain("value", ParamKind::String, "填写的值（仅 fill 操作需要）", false),
                ]
            },
            BuiltInTool::OpenUrl => vec![
                plain("url", ParamKind::String, "要打开的网页URL，必须以 http:// 或 https:// 开头", true),
            ],
            BuiltInTool::Translate => vec![
                plain("target_language", ParamKind::String, "目标语言，如 'zh', 'en', 'ja'", true),
            ],
            BuiltInTool::ExportMarkdown => Vec::new(),
            BuiltInTool::RunCommand => vec![
                plain(
                    "command",
                    ParamKind::String,
                    "要执行的 shell 命令（Windows 上通过 cmd /C 执行，Linux/macOS 上通过 sh -c 执行）",
                    true,
                ),
                plain("working_dir", ParamKind::String, "命令执行的工作目录（可选，默认使用系统默认目录）", false),
                with_default(
                    with_bounds(
                        plain("timeout", ParamKind::Integer, "命令超时时间（秒），默认 30 秒，最大 120 秒", false),
                        1,
                        120,
                    ),
                    ParamDefault::Number(30),
                ),
            ],
        };
        assert(params_view(r@) =~= builtin_parameters(*self));
        r
    }
}

/// The built-in tools in the order in which they are offered to the model.
pub fn builtin_tools() -> (r: Vec<BuiltInTool>)
    ensures
        r@ == seq![
            BuiltInTool::SummarizePage,
            BuiltInTool::WebAgent,
            BuiltInTool::OpenUrl,
            BuiltInTool::Translate,
            BuiltInTool::ExportMarkdown,
            BuiltInTool::RunCommand,
        ],
{
    let r = vec![
        BuiltInTool::SummarizePage,
        BuiltInTool::WebAgent,
        BuiltInTool::OpenUrl,
        BuiltInTool::Translate,
        BuiltInTool::ExportMarkdown,
        BuiltInTool::RunCommand,
    ];
    assert(r@ =~= seq![
        BuiltInTool::SummarizePage,
        BuiltInTool::WebAgent,
        BuiltInTool::OpenUrl,
        BuiltInTool::Translate,
        BuiltInTool::ExportMarkdown,
        BuiltInTool::RunCommand,
    ]);
    r
}

/// Where the native module sends a tool call.
#[derive(Debug, Clone, PartialEq, Eq)]
pub enum BuiltinRoute {
    /// Run as a shell command.
    Shell,
    /// Handed to the Electron main process, which owns the browser.
    ElectronBridge,
    /// Load the skill with this id.
    Skill(String),
    /// Call a tool of an MCP server.
    Mcp,
    /// A tool the native module does not know.
    Unrecognized,
}

/// Tools that only the Electron main process can carry out.
pub open spec fn bridged_tool(name: Seq<char>) -> bool {
    name == "open_url"@ || name == "web_agent"@ || name == "summarize_page"@ || name == "translate"@
        || name == "export_markdown"@
}

/// The route of a tool name that does not start with `skill_`.
pub open spec fn native_route(name: Seq<char>) -> BuiltinRoute {
    if name == "run_command"@ {
        BuiltinRoute::Shell
    } else if bridged_tool(name) {
        BuiltinRoute::ElectronBridge
    } else if has_prefix(name, "mcp_"@) {
        BuiltinRoute::Mcp
    } else {
        BuiltinRoute::Unrecognized
    }
}

/// Decides where a tool call goes; a skill call carries the name without
/// its `skill_` prefix.
pub fn route_builtin_tool(name: &str) -> (r: BuiltinRoute)
    ensures
        !has_prefix(name@, "skill_"@) || name@ == "run_command"@ || bridged_tool(name@) ==> r == native_route(name@),
        has_prefix(name@, "skill_"@) && name@ != "run_command"@ && !bridged_tool(name@) ==> (r matches BuiltinRoute::Skill(id) && id@ == name@.skip(6)),
{
    proof {
        reveal_strlit("skill_");
    }
    if str_eq(name, "run_command") {
        BuiltinRoute::Shell
    } else if str_eq(name, "open_url") || str_eq(name, "web_agent") || str_eq(name, "summarize_page") || str_eq(name, "translate")
        || str_eq(name, "export_markdown") {
        BuiltinRoute::ElectronBridge
    } else if starts_with(name, "skill_") {
        let v = chars_of(name);
        let id = string_of_chars(&v.as_slice()[6..v.len()]);
        assert(v@.subrange(6, v.len() as int) =~= name@.skip(6));
        BuiltinRoute::Skill(id)
    } else if starts_with(name, "mcp_") {
        BuiltinRoute::Mcp
    } else {
        BuiltinRoute::Unrecognized
    }
}

/// Every built-in tool that the native module offers is carried out: the
/// shell tool by the shell, every other one by the Electron main process.
pub proof fn lemma_builtin_tools_are_routed(t: BuiltInTool)
    ensures
        t == BuiltInTool::RunCommand ==> native_route(builtin_name(t)) == BuiltinRoute::Shell,
        t != BuiltInTool::RunCommand ==> native_route(builtin_name(t)) == BuiltinRoute::ElectronBridge,
{
    reveal_strlit("summarize_page");
    reveal_strlit("web_agent");
    reveal_strlit("open_url");
    reveal_strlit("translate");
    reveal_strlit("export_markdown");
    reveal_strlit("run_command");
    assert("run_command"@.len() != "summarize_page"@.len());
}

/// A skill's tool, named `skill_` and its id, is routed to that skill.
pub proof fn lemma_skill_calls_route_to_skill(skill_id: Seq<char>)
    ensures
        has_prefix("skill_"@ + skill_id, "skill_"@),
        ("skill_"@ + skill_id).skip(6) == skill_id,
        "skill_"@ + skill_id != "run_command"@,
        !bridged_tool("skill_"@ + skill_id),
{
    reveal_strlit("skill_");
    reveal_strlit("summarize_page");
    reveal_strlit("web_agent");
    reveal_strlit("open_url");
    reveal_strlit("translate");
    reveal_strlit("export_markdown");
    reveal_strlit("run_command");
    let n = "skill_"@ + skill_id;
    assert(n.take(6) =~= "skill_"@);
    assert(n.skip(6) =~= skill_id);
    assert(n[0] == 's' && n[1] == 'k');
    assert(n != "summarize_page"@) by {
        assert("summarize_page"@[1] == 'u');
    }
}

/// Prefix of the output that asks the Electron main process to carry out a call.
pub open spec fn bridge_marker() -> Seq<char> {
    "__ELECTRON_BRIDGE_REQUIRED__:"@
}

/// The output that hands a call, serialised as JSON, to the Electron main process.
pub fn electron_bridge_output(tool_call_json: &str) -> (r: String)
    ensures
        r@ == bridge_marker() + tool_call_json@,
{
    let mut r = owned("__ELECTRON_BRIDGE_REQUIRED__:");
    push_str(&mut r, tool_call_json);
    r
}

/// The serialised call in an output that asks for the Electron main process.
pub fn bridge_payload(output: &str) -> (r: Option<String>)
    ensures
        has_prefix(output@, bridge_marker()) ==> (r matches Some(p) && p@ == output@.skip(bridge_marker().len() as int)),
        !has_prefix(output@, bridge_marker()) ==> r is None,
{
    proof {
        reveal_strlit("__ELECTRON_BRIDGE_REQUIRED__:");
    }
    if starts_with(output, "__ELECTRON_BRIDGE_REQUIRED__:") {
        let v = chars_of(output);
        let p = string_of_chars(&v.as_slice()[29..v.len()]);
        assert(v@.subrange(29, v.len() as int) =~= output@.skip(29));
        Some(p)
    } else {
        None
    }
}

/// The output for a tool that only the Electron main process knows.
pub fn unrecognized_tool_output(name: &str) -> (r: String)
    ensures
        r@ == "Tool '"@ + name@ + "' requires Electron main process bridge for execution"@,
{
    let mut r = owned("Tool '");
    push_str(&mut r, name);
    push_str(&mut r, "' requires Electron main process bridge for execution");
    r
}

/// The timeout, in seconds, that a shell command runs under.
pub open spec fn effective_shell_timeout(requested: Option<u64>) -> nat {
    match requested {
        Some(t) => if t <= 120 { t as nat } else { 120 },
        None => 30,
    }
}

/// The timeout of a shell command: the one requested (30 seconds where none
/// is), at most 120 seconds.
pub fn shell_timeout(requested: Option<u64>) -> (r: u64)
    ensures
        r == effective_shell_timeout(requested),
{
    let t = match requested {
        Some(t) => t,
        None => 30,
    };
    if t <= 120 {
        t
    } else {
        120
    }
}

/// What the schema of the shell tool's `timeout` parameter tells the model
/// is what the shell enforces: its default is the timeout used when none is
/// requested, no timeout used exceeds its maximum, and a request within its
/// bounds is honoured.
pub proof fn lemma_timeout_schema_matches_shell(requested: Option<u64>)
    ensures
        ({
            let p = builtin_parameters(BuiltInTool::RunCommand)[2];
            &&& p.name == "timeout"@
            &&& p.default == Some(DefaultView::Number(effective_shell_timeout(None) as i64))
            &&& p.maximum matches Some(max) && effective_shell_timeout(requested) <= max
            &&& p.minimum is Some
            &&& (requested matches Some(t) ==> (p.minimum->0 <= t <= p.maximum->0 ==> effective_shell_timeout(
                requested,
            ) == t))
        }),
{
}

/// The output of a finished shell command: its standard output, then, after
/// a separator where both are present, its error output; where both are
/// empty, the exit code.
pub open spec fn shell_output_text(stdout: Seq<char>, stderr: Seq<char>, exit_code: Seq<char>) -> Seq<char> {
    if stdout.len() == 0 && stderr.len() == 0 {
        "[exit code: "@ + exit_code + "]"@
    } else if stderr.len() == 0 {
        stdout
    } else if stdout.len() == 0 {
        stderr
    } else {
        stdout + "\n--- stderr ---\n"@ + stderr
    }
}

/// Combines the output of a finished shell command; `exit_code` is the
/// decimal code, as the caller writes it.
pub fn shell_output(stdout: &str, stderr: &str, exit_code: &str) -> (r: String)
    ensures
        r@ == shell_output_text(stdout@, stderr@, exit_code@),
{
    let mut r = String::new();
    let so = chars_of(stdout).len() > 0;
    let se = chars_of(stderr).len() > 0;
    if so {
        push_str(&mut r, stdout);
    }
    if se {
        if so {
            push_str(&mut r, "\n--- stderr ---\n");
        }
        push_str(&mut r, stderr);
    }
    if !so && !se {
        let mut e = owned("[exit code: ");
        push_str(&mut e, exit_code);
        push_str(&mut e, "]");
        return e;
    }
    r
}

/// The error of a shell command that timed out.
pub fn shell_timeout_error(timeout_secs: u64) -> (r: AppError)
    ensures
        r matches AppError::Internal(m) && m@ == "Command timed out after "@ + decimal(timeout_secs as nat) + "s"@,
{
    let mut m = owned("Command timed out after ");
    push_u64(&mut m, timeout_secs);
    push_str(&mut m, "s");
    AppError::Internal(m)
}

/// The output that hands the content of a loaded skill to the model.
pub open spec fn skill_loaded_text(skill_id: Seq<char>, content: Seq<char>) -> Seq<char> {
    "# SKILL LOADED: "@ + skill_id + "\n\n"@ + content
        + "\n\n---\nNow follow the instructions in this SKILL to complete the task. \nUse the available tools (MCP tools, built-in tools, or scripts) as specified in the SKILL."@
}

/// The output for a loaded skill.
pub fn skill_loaded_output(skill_id: &str, content: &str) -> (r: String)
    ensures
        r@ == skill_loaded_text(skill_id@, content@),
{
    let mut r = owned("# SKILL LOADED: ");
    push_str(&mut r, skill_id);
    push_str(&mut r, "\n\n");
    push_str(&mut r, content);
    push_str(
        &mut r,
        "\n\n---\nNow follow the instructions in this SKILL to complete the task. \nUse the available tools (MCP tools, built-in tools, or scripts) as specified in the SKILL.",
    );
    r
}

/// The output for a skill that could not be loaded.
pub fn skill_load_failed_output(skill_id: &str, error: &AppError) -> (r: String)
    ensures
        r@ == "Failed to load skill '"@ + skill_id@ + "': "@ + error_text(*error),
{
    let mut r = owned("Failed to load skill '");
    push_str(&mut r, skill_id);
    push_str(&mut r, "': ");
    let m = error.message();
    push_str(&mut r, m.as_str());
    r
}

/// The result of a tool call from its outcome: the output where it
/// succeeded, else the error under a failure note.
pub fn tool_result_of(tool_call_id: &str, outcome: AppResult<String>) -> (r: ToolResult)
    ensures
        r.tool_call_id@ == tool_call_id@,
        match outcome {
            Ok(o) => r.output == o && r.success,
            Err(e) => r.output@ == "工具执行失败: "@ + error_text(e) && !r.success,
        },
{
    match outcome {
        Ok(o) => ToolResult { tool_call_id: owned(tool_call_id), output: o, success: true },
        Err(e) => {
            let mut m = owned("工具执行失败: ");
            let t = e.message();
            push_str(&mut m, t.as_str());
            ToolResult { tool_call_id: owned(tool_call_id), output: m, success: false }
        },
    }
}

} // verus!
