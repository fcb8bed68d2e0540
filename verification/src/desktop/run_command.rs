//! The `run_command` tool: screening of dangerous commands, the report of a
//! finished command, and the resolution of commands that need the Windows
//! command interpreter.

use vstd::prelude::*;
use crate::desktop::tools::ToolResult;
use crate::error::AppError;
use crate::text::{
    chars_of, contains, decimal, has_substring, lowercase_of, owned, push_decimal, push_i64, push_str, push_u64,
    signed_decimal, str_eq, string_of_chars, to_lowercase,
};

verus! {

/// Longest output kept, in characters.
pub open spec fn max_output_len() -> nat {
    8000
}

/// Seconds a command may run when the call names no timeout.
pub open spec fn default_timeout_secs() -> nat {
    30
}

/// Fragments that mark a command as dangerous, matched against the command
/// in lower case.
pub open spec fn blocked_commands() -> Seq<Seq<char>> {
    seq![
        "rm -rf /"@,
        "rm -rf /*"@,
        "del /s /q c:\\"@,
        "format c:"@,
        "format d:"@,
        "mkfs"@,
        "dd if="@,
        ":(){ :|:& };:"@,
    ]
}

/// The first dangerous fragment found in the lower-case command, if any.
pub open spec fn first_blocked(lower: Seq<char>) -> Option<int> {
    if exists|k: int| 0 <= k < blocked_commands().len() && has_substring(lower, #[trigger] blocked_commands()[k]) {
        Some(choose|k: int| 0 <= k < blocked_commands().len() && has_substring(lower, blocked_commands()[k])
            && forall|j: int| 0 <= j < k ==> !has_substring(lower, #[trigger] blocked_commands()[j]))
    } else {
        None
    }
}

fn blocked_list() -> (r: Vec<&'static str>)
    ensures
        r@.map_values(|s: &str| s@) == blocked_commands(),
{
    let r = vec!["rm -rf /", "rm -rf /*", "del /s /q c:\\", "format c:", "format d:", "mkfs", "dd if=", ":(){ :|:& };:"];
    assert(r@.map_values(|s: &str| s@) =~= blocked_commands());
    r
}

/// The refusal of a dangerous command.
pub open spec fn blocked_text(fragment: Seq<char>, command: Seq<char>) -> Seq<char> {
    "⛔ 安全拦截：命令包含危险操作 '"@ + fragment + "'\n被拦截的命令: "@ + command
}

/// Screens a command: where its lower-case form contains a dangerous
/// fragment, the failed result that refuses it, naming the first such
/// fragment of the list.
pub fn screen_command(tool_call_id: &str, command: &str) -> (r: Option<ToolResult>)
    ensures
        match first_blocked(lowercase_of(command@)) {
            None => r is None,
            Some(k) => r matches Some(t) && t.tool_call_id@ == tool_call_id@ && !t.success
                && t.output@ == blocked_text(blocked_commands()[k], command@),
        },
{
    let lower = to_lowercase(command);
    let list = blocked_list();
    let ghost bl = blocked_commands();
    let mut k: usize = 0;
    while k < list.len()
        invariant
            0 <= k <= list.len(),
            list@.map_values(|s: &str| s@) == bl,
            bl == blocked_commands(),
            lower@ == lowercase_of(command@),
            forall|j: int| 0 <= j < k ==> !has_substring(lower@, #[trigger] bl[j]),
        decreases list.len() - k,
    {
        assert(list@[k as int]@ == bl[k as int]);
        if contains(lower.as_str(), list[k]) {
            proof {
                let w = choose|x: int| 0 <= x < bl.len() && has_substring(lower@, bl[x])
                    && forall|j: int| 0 <= j < x ==> !has_substring(lower@, #[trigger] bl[j]);
                assert(0 <= k < bl.len() && has_substring(lower@, bl[k as int]) && forall|j: int| 0 <= j < k ==> !has_substring(lower@, #[trigger] bl[j]));
                if w < k {
                } else if w > k {
                    assert(!has_substring(lower@, bl[k as int]));
                }
            }
            let mut m = owned("⛔ 安全拦截：命令包含危险操作 '");
            push_str(&mut m, list[k]);
            push_str(&mut m, "'\n被拦截的命令: ");
            push_str(&mut m, command);
            return Some(ToolResult::of(tool_call_id, m, false));
        }
        k = k + 1;
    }
    None
}

/// Output cut to its first `max` characters where it has more, with a note
/// of its length in characters.
pub open spec fn truncated_output(t: Seq<char>, max: nat) -> Seq<char> {
    if t.len() <= max {
        t
    } else {
        t.take(max as int) + "... (truncated, total "@ + decimal(t.len()) + " chars)"@
    }
}

/// Cuts long output.
pub fn truncate_output(text: &str, max_len: usize) -> (r: String)
    ensures
        r@ == truncated_output(text@, max_len as nat),
{
    let v = chars_of(text);
    let n = v.len();
    if n <= max_len {
        return owned(text);
    }
    let mut r = string_of_chars(&v.as_slice()[0..max_len]);
    assert(v@.subrange(0, max_len as int) =~= text@.take(max_len as int));
    push_str(&mut r, "... (truncated, total ");
    push_decimal(&mut r, n);
    push_str(&mut r, " chars)");
    r
}

/// The report of a finished command: its standard output (up to 8000
/// characters) and error output (up to 4000), each where not empty, then
/// its exit code.
pub open spec fn command_report_text(stdout: Seq<char>, stderr: Seq<char>, exit_code: int) -> Seq<char> {
    (if stdout.len() > 0 {
        "## stdout\n"@ + truncated_output(stdout, max_output_len()) + "\n\n"@
    } else {
        Seq::empty()
    }) + (if stderr.len() > 0 {
        "## stderr\n"@ + truncated_output(stderr, max_output_len() / 2) + "\n\n"@
    } else {
        Seq::empty()
    }) + "## exit_code\n"@ + signed_decimal(exit_code)
}

/// The result of a finished command; it succeeded where the exit code is 0.
pub fn command_result(tool_call_id: &str, stdout: &str, stderr: &str, exit_code: i32) -> (r: ToolResult)
    ensures
        r.tool_call_id@ == tool_call_id@,
        r.output@ == command_report_text(stdout@, stderr@, exit_code as int),
        r.success == (exit_code == 0),
{
    let mut out = String::new();
    if chars_of(stdout).len() > 0 {
        push_str(&mut out, "## stdout\n");
        let t = truncate_output(stdout, 8000);
        push_str(&mut out, t.as_str());
        push_str(&mut out, "\n\n");
    }
    let ghost after_out = out@;
    if chars_of(stderr).len() > 0 {
        push_str(&mut out, "## stderr\n");
        let t = truncate_output(stderr, 4000);
        push_str(&mut out, t.as_str());
        push_str(&mut out, "\n\n");
    }
    push_str(&mut out, "## exit_code\n");
    push_i64(&mut out, exit_code as i64);
    ToolResult::of(tool_call_id, out, exit_code == 0)
}

/// The result of a command that could not be started.
pub fn spawn_failure_result(tool_call_id: &str, error_text: &str, command: &str) -> (r: ToolResult)
    ensures
        r.tool_call_id@ == tool_call_id@,
        r.output@ == "命令执行失败: "@ + error_text@ + "\n命令: "@ + command@,
        !r.success,
{
    let mut m = owned("命令执行失败: ");
    push_str(&mut m, error_text);
    push_str(&mut m, "\n命令: ");
    push_str(&mut m, command);
    ToolResult::of(tool_call_id, m, false)
}

/// The result of a command stopped at its timeout.
pub fn timeout_result(tool_call_id: &str, timeout_secs: u64, command: &str) -> (r: ToolResult)
    ensures
        r.tool_call_id@ == tool_call_id@,
        r.output@ == "命令执行超时（"@ + decimal(timeout_secs as nat) + "秒），已强制终止。\n命令: "@ + command@,
        !r.success,
{
    let mut m = owned("命令执行超时（");
    push_u64(&mut m, timeout_secs);
    push_str(&mut m, "秒），已强制终止。\n命令: ");
    push_str(&mut m, command);
    ToolResult::of(tool_call_id, m, false)
}

/// The longest and shortest timeouts a call may ask for, in seconds.
pub open spec fn max_timeout_secs() -> nat {
    120
}

/// The timeout of a call: the one it names, else 30 seconds, kept between 1
/// and 120 seconds as the tool's schema states.
pub fn command_timeout(requested: Option<u64>) -> (r: u64)
    ensures
        r == match requested {
            Some(t) => if t < 1 { 1 } else if t > 120 { 120 } else { t as nat },
            None => default_timeout_secs(),
        },
        1 <= r <= max_timeout_secs(),
{
    match requested {
        Some(t) => if t < 1 {
            1
        } else if t > 120 {
            120
        } else {
            t
        },
        None => 30,
    }
}

/// The error for a call without a command.
pub fn missing_command_error() -> (r: AppError)
    ensures
        r matches AppError::Internal(m) && m@ == "Missing 'command' parameter"@,
{
    AppError::Internal(owned("Missing 'command' parameter"))
}

/// Commands that Windows runs through `cmd /c`: shell built-ins and the
/// script wrappers of common tools.
pub open spec fn cmd_wrappers() -> Seq<Seq<char>> {
    seq![
        "echo"@, "type"@, "dir"@, "copy"@, "move"@, "del"@, "ren"@, "set"@, "npx"@, "npm"@, "pnpm"@, "yarn"@,
        "node"@, "uvx"@, "pipx"@,
    ]
}

/// How a command is started: on Windows, a built-in or wrapped command (in
/// any case) goes through `cmd /c` with its arguments; otherwise it runs as
/// it is.
pub open spec fn resolved_command(cmd: Seq<char>, args: Seq<Seq<char>>, windows: bool) -> (Seq<char>, Seq<Seq<char>>) {
    if windows && cmd_wrappers().contains(lowercase_of(cmd)) {
        ("cmd"@, seq!["/c"@, cmd] + args)
    } else {
        (cmd, args)
    }
}

/// Views of a list of strings.
pub open spec fn string_views(v: Seq<String>) -> Seq<Seq<char>> {
    v.map_values(|s: String| s@)
}

/// Whether a lower-case command name is run through `cmd /c` on Windows.
pub fn is_cmd_wrapper(lower: &str) -> (r: bool)
    ensures
        r == cmd_wrappers().contains(lower@),
{
    let list = vec!["echo", "type", "dir", "copy", "move", "del", "ren", "set", "npx", "npm", "pnpm", "yarn", "node", "uvx", "pipx"];
    assert(list@.map_values(|s: &str| s@) =~= cmd_wrappers());
    let mut k: usize = 0;
    while k < list.len()
        invariant
            0 <= k <= list.len(),
            list@.map_values(|s: &str| s@) == cmd_wrappers(),
            forall|j: int| 0 <= j < k ==> list@[j]@ != lower@,
        decreases list.len() - k,
    {
        if str_eq(list[k], lower) {
            assert(cmd_wrappers()[k as int] == lower@);
            return true;
        }
        k = k + 1;
    }
    proof {
        if cmd_wrappers().contains(lower@) {
            let j = cmd_wrappers().index_of(lower@);
            assert(list@[j]@ == cmd_wrappers()[j]);
        }
    }
    false
}

/// Resolves how a command is started on the given platform.
pub fn resolve_command(cmd: &str, args: &[String], windows: bool) -> (r: (String, Vec<String>))
    ensures
        (r.0@, string_views(r.1@)) == resolved_command(cmd@, string_views(args@), windows),
{
    let wrapped = windows && is_cmd_wrapper(to_lowercase(cmd).as_str());
    let mut out_args: Vec<String> = Vec::new();
    if wrapped {
        out_args.push(owned("/c"));
        out_args.push(owned(cmd));
    }
    let ghost base = string_views(out_args@);
    let mut i: usize = 0;
    while i < args.len()
        invariant
            0 <= i <= args.len(),
            string_views(out_args@) == base + string_views(args@).take(i as int),
        decreases args.len() - i,
    {
        let a = args[i].clone();
        assert(a@ == args@[i as int]@);
        let ghost prev = out_args@;
        out_args.push(a);
        assert(string_views(out_args@) =~= string_views(prev).push(args@[i as int]@));
        assert(string_views(args@).take(i as int + 1) =~= string_views(args@).take(i as int).push(args@[i as int]@));
        assert(string_views(out_args@) =~= base + string_views(args@).take(i as int + 1));
        i = i + 1;
    }
    assert(string_views(args@).take(args.len() as int) =~= string_views(args@));
    if wrapped {
        assert(base =~= seq!["/c"@, cmd@]);
        (owned("cmd"), out_args)
    } else {
        assert(base =~= Seq::<Seq<char>>::empty());
        assert(base + string_views(args@) =~= string_views(args@));
        (owned(cmd), out_args)
    }
}

/// Texts joined with a separator between each two.
pub open spec fn joined(parts: Seq<Seq<char>>, sep: Seq<char>) -> Seq<char>
    decreases parts.len(),
{
    if parts.len() == 0 {
        Seq::empty()
    } else if parts.len() == 1 {
        parts[0]
    } else {
        joined(parts.drop_last(), sep) + sep + parts.last()
    }
}

/// The separator between the directories of a search path.
pub open spec fn path_separator(windows: bool) -> Seq<char> {
    if windows {
        ";"@
    } else {
        ":"@
    }
}

/// Directories where runtimes are commonly installed on macOS and Linux,
/// for a home directory.
pub open spec fn unix_runtime_dirs(home: Seq<char>) -> Seq<Seq<char>> {
    seq![
        home + "/.nvm/versions/node"@,
        home + "/.volta/bin"@,
        home + "/.fnm/node-versions"@,
        "/usr/local/bin"@,
        "/opt/homebrew/bin"@,
    ]
}

/// Directories where runtimes are commonly installed on Windows: the
/// project's own Node.js under `tools_root`, then the places that version
/// managers, global installs, npm and Python use.
pub open spec fn windows_runtime_dirs(
    tools_root: Seq<char>,
    home: Seq<char>,
    appdata: Seq<char>,
    local_appdata: Seq<char>,
    program_files: Seq<char>,
) -> Seq<Seq<char>> {
    seq![
        tools_root + "\\.tools\\node-v20.18.0-win-x64"@,
        appdata + "\\nvm\\current"@,
        home + "\\AppData\\Roaming\\nvm\\current"@,
        program_files + "\\nodejs"@,
        appdata + "\\npm"@,
        local_appdata + "\\fnm_multishells"@,
        local_appdata + "\\volta\\bin"@,
        appdata + "\\nvm"@,
        local_appdata + "\\pnpm"@,
        local_appdata + "\\Python"@,
        local_appdata + "\\Python311"@,
        local_appdata + "\\Python312"@,
    ]
}

/// A text followed by another.
fn concat(a: &str, b: &str) -> (r: String)
    ensures
        r@ == a@ + b@,
{
    let mut r = owned(a);
    push_str(&mut r, b);
    r
}

/// The runtime directories to look for on macOS and Linux.
pub fn unix_path_candidates(home: &str) -> (r: Vec<String>)
    ensures
        string_views(r@) == unix_runtime_dirs(home@),
{
    let r = vec![
        concat(home, "/.nvm/versions/node"),
        concat(home, "/.volta/bin"),
        concat(home, "/.fnm/node-versions"),
        owned("/usr/local/bin"),
        owned("/opt/homebrew/bin"),
    ];
    assert(string_views(r@) =~= unix_runtime_dirs(home@));
    r
}

/// The runtime directories to look for on Windows.
pub fn windows_path_candidates(
    tools_root: &str,
    home: &str,
    appdata: &str,
    local_appdata: &str,
    program_files: &str,
) -> (r: Vec<String>)
    ensures
        string_views(r@) == windows_runtime_dirs(tools_root@, home@, appdata@, local_appdata@, program_files@),
{
    let r = vec![
        concat(tools_root, "\\.tools\\node-v20.18.0-win-x64"),
        concat(appdata, "\\nvm\\current"),
        concat(home, "\\AppData\\Roaming\\nvm\\current"),
        concat(program_files, "\\nodejs"),
        concat(appdata, "\\npm"),
        concat(local_appdata, "\\fnm_multishells"),
        concat(local_appdata, "\\volta\\bin"),
        concat(appdata, "\\nvm"),
        concat(local_appdata, "\\pnpm"),
        concat(local_appdata, "\\Python"),
        concat(local_appdata, "\\Python311"),
        concat(local_appdata, "\\Python312"),
    ];
    assert(string_views(r@) =~= windows_runtime_dirs(tools_root@, home@, appdata@, local_appdata@, program_files@));
    r
}

/// A search path made of directories, in order, with the platform's
/// separator between each two.
pub fn join_search_path(parts: &Vec<String>, windows: bool) -> (r: String)
    ensures
        r@ == joined(string_views(parts@), path_separator(windows)),
{
    let sep = if windows { ";" } else { ":" };
    let mut r = String::new();
    let mut i: usize = 0;
    while i < parts.len()
        invariant
            0 <= i <= parts.len(),
            sep@ == path_separator(windows),
            r@ == joined(string_views(parts@).take(i as int), sep@),
        decreases parts.len() - i,
    {
        let ghost before = string_views(parts@).take(i as int);
        let ghost after = string_views(parts@).take(i as int + 1);
        assert(after.drop_last() =~= before);
        assert(after.last() == parts@[i as int]@);
        if i > 0 {
            push_str(&mut r, sep);
        } else {
            assert(before =~= Seq::<Seq<char>>::empty());
        }
        push_str(&mut r, parts[i].as_str());
        assert(r@ =~= joined(after, sep@));
        i = i + 1;
    }
    assert(string_views(parts@).take(parts.len() as int) =~= string_views(parts@));
    r
}

} // verus!
