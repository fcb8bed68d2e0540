//! The sandbox: where pages, summaries and memories are kept, and which
//! commands may run.

use vstd::prelude::*;
use crate::error::{AppError, AppResult};
use crate::text::{alphanumeric, chars_of, contains, debug_quoted, debug_text, has_substring, is_alphanumeric, owned, push_char, push_str, str_eq};

verus! {

/// Commands the sandbox allows by default.
pub open spec fn default_allowed_commands() -> Seq<Seq<char>> {
    seq!["ls"@, "cat"@, "echo"@, "pwd"@, "find"@]
}

/// Configuration of the sandbox.
#[derive(Debug, Clone)]
pub struct SandboxConfig {
    /// Root directory of the sandbox.
    pub root_dir: String,
    /// Whether commands may run.
    pub allow_cli: bool,
    /// Commands that may run.
    pub allowed_commands: Vec<String>,
}

/// Views of a list of strings.
pub open spec fn views(v: Seq<String>) -> Seq<Seq<char>> {
    v.map_values(|s: String| s@)
}

impl SandboxConfig {
    /// The default configuration for a sandbox rooted at `root_dir`: commands
    /// allowed, limited to `ls`, `cat`, `echo`, `pwd` and `find`.
    pub fn new(root_dir: String) -> (r: Self)
        ensures
            r.root_dir == root_dir,
            r.allow_cli,
            views(r.allowed_commands@) == default_allowed_commands(),
    {
        let mut allowed: Vec<String> = Vec::new();
        allowed.push(owned("ls"));
        allowed.push(owned("cat"));
        allowed.push(owned("echo"));
        allowed.push(owned("pwd"));
        allowed.push(owned("find"));
        let r = SandboxConfig { root_dir, allow_cli: true, allowed_commands: allowed };
        assert(views(r.allowed_commands@) =~= default_allowed_commands());
        r
    }
}

/// A character kept in file names: alphanumeric, `-` or `_`.
pub open spec fn file_name_char(c: char) -> bool {
    alphanumeric(c) || c == '-' || c == '_'
}

/// A URL turned into a file name: every other character becomes `_`.
pub open spec fn safe_file_name(url: Seq<char>) -> Seq<char> {
    url.map_values(|c: char| if file_name_char(c) { c } else { '_' })
}

/// `[a, b, ...]` with each item as `{:?}` writes it.
pub open spec fn debug_list(items: Seq<Seq<char>>) -> Seq<char>
    decreases items.len(),
{
    if items.len() == 0 {
        "[]"@
    } else {
        debug_list_items(items) 
    }
}

/// The items of a list as `{:?}` writes them, within brackets.
pub open spec fn debug_list_items(items: Seq<Seq<char>>) -> Seq<char>
    decreases items.len(),
{
    "["@ + joined_debug(items) + "]"@
}

/// The items as `{:?}` writes them, separated by `, `.
pub open spec fn joined_debug(items: Seq<Seq<char>>) -> Seq<char>
    decreases items.len(),
{
    if items.len() == 0 {
        Seq::empty()
    } else if items.len() == 1 {
        debug_quoted(items[0])
    } else {
        joined_debug(items.drop_last()) + ", "@ + debug_quoted(items.last())
    }
}

/// The sandbox.
pub struct Sandbox {
    pub config: SandboxConfig,
}

/// Why a command may not run, if it may not.
pub open spec fn command_refusal(config: SandboxConfig, command: Seq<char>) -> Option<Seq<char>> {
    if !config.allow_cli {
        Some("CLI execution is disabled"@)
    } else if !views(config.allowed_commands@).contains(command) {
        Some("Command '"@ + command + "' is not allowed. Allowed commands: "@ + debug_list(views(config.allowed_commands@)))
    } else {
        None
    }
}

impl Sandbox {
    /// A sandbox with the given configuration.
    pub fn new(config: SandboxConfig) -> (r: Self)
        ensures
            r.config == config,
    {
        Sandbox { config }
    }

    /// The file name under which content for `url` is kept.
    pub fn url_to_filename(&self, url: &str) -> (r: String)
        ensures
            r@ == safe_file_name(url@),
    {
        let v = chars_of(url);
        let mut r = String::new();
        let mut i: usize = 0;
        while i < v.len()
            invariant
                0 <= i <= v.len(),
                v@ == url@,
                r@ == safe_file_name(url@.take(i as int)),
            decreases v.len() - i,
        {
            let c = v[i];
            if is_alphanumeric(c) || c == '-' || c == '_' {
                push_char(&mut r, c);
            } else {
                push_char(&mut r, '_');
            }
            assert(safe_file_name(url@.take(i as int + 1)) =~= safe_file_name(url@.take(i as int)).push(
                if file_name_char(c) { c } else { '_' },
            ));
            i = i + 1;
        }
        assert(url@.take(v.len() as int) =~= url@);
        r
    }

    /// Checks that `command` may run: commands must be enabled, and the
    /// command must be on the list of allowed ones.
    pub fn check_command(&self, command: &str) -> (r: AppResult<()>)
        ensures
            match command_refusal(self.config, command@) {
                None => r is Ok,
                Some(m) => r matches Err(AppError::Internal(e)) && e@ == m,
            },
    {
        if !self.config.allow_cli {
            return Err(AppError::Internal(owned("CLI execution is disabled")));
        }
        let mut i: usize = 0;
        while i < self.config.allowed_commands.len()
            invariant
                0 <= i <= self.config.allowed_commands.len(),
                self.config.allow_cli,
                forall|j: int| 0 <= j < i ==> self.config.allowed_commands@[j]@ != command@,
            decreases self.config.allowed_commands.len() - i,
        {
            if str_eq(self.config.allowed_commands[i].as_str(), command) {
                assert(views(self.config.allowed_commands@)[i as int] == command@);
                assert(views(self.config.allowed_commands@).contains(command@));
                return Ok(());
            }
            i = i + 1;
        }
        assert(!views(self.config.allowed_commands@).contains(command@)) by {
            if views(self.config.allowed_commands@).contains(command@) {
                let j = views(self.config.allowed_commands@).index_of(command@);
                assert(self.config.allowed_commands@[j]@ == command@);
            }
        }
        let mut m = owned("Command '");
        push_str(&mut m, command);
        push_str(&mut m, "' is not allowed. Allowed commands: ");
        let list = debug_strings(&self.config.allowed_commands);
        push_str(&mut m, list.as_str());
        Err(AppError::Internal(m))
    }
}

/// A list of strings as `{:?}` writes it.
pub fn debug_strings(items: &Vec<String>) -> (r: String)
    ensures
        r@ == debug_list(views(items@)),
{
    let ghost vs = views(items@);
    if items.len() == 0 {
        return owned("[]");
    }
    let mut body = String::new();
    let mut i: usize = 0;
    while i < items.len()
        invariant
            0 <= i <= items.len(),
            vs == views(items@),
            items.len() > 0,
            body@ == joined_debug(vs.take(i as int)),
        decreases items.len() - i,
    {
        let d = debug_text(items[i].as_str());
        proof {
            assert(vs.take(i as int + 1).drop_last() =~= vs.take(i as int));
            assert(vs.take(i as int + 1).last() == items@[i as int]@);
        }
        if i > 0 {
            push_str(&mut body, ", ");
        } else {
            assert(body@ =~= Seq::<char>::empty());
        }
        push_str(&mut body, d.as_str());
        if i == 0 {
            assert(body@ =~= joined_debug(vs.take(1)));
        }
        i = i + 1;
    }
    assert(vs.take(items.len() as int) =~= vs);
    let mut r = owned("[");
    push_str(&mut r, body.as_str());
    push_str(&mut r, "]");
    r
}

/// Whether a memory matches a search: its key or its value contains the query.
pub fn memory_matches(key: &str, value: &str, query: &str) -> (r: bool)
    ensures
        r == (has_substring(key@, query@) || has_substring(value@, query@)),
{
    contains(key, query) || contains(value, query)
}

/// The memories whose key or value contains the query, in the given order.
pub fn search_memories(entries: Vec<(String, String)>, query: &str) -> (r: Vec<(String, String)>)
    ensures
        r@ == entries@.filter(|e: (String, String)| has_substring(e.0@, query@) || has_substring(e.1@, query@)),
{
    let ghost pred = |e: (String, String)| has_substring(e.0@, query@) || has_substring(e.1@, query@);
    let mut r: Vec<(String, String)> = Vec::new();
    let mut i: usize = 0;
    let n = entries.len();
    let mut rest = entries;
    let ghost all = rest@;
    while i < n
        invariant
            0 <= i <= n,
            n == all.len(),
            rest@ == all,
            pred == (|e: (String, String)| has_substring(e.0@, query@) || has_substring(e.1@, query@)),
            r@ == all.take(i as int).filter(pred),
        decreases n - i,
    {
        proof {
            assert(all.take(i as int + 1) =~= all.take(i as int).push(all[i as int]));
            all.take(i as int).lemma_filter_push(all[i as int], pred);
        }
        if memory_matches(rest[i].0.as_str(), rest[i].1.as_str(), query) {
            r.push((rest[i].0.clone(), rest[i].1.clone()));
        }
        i = i + 1;
    }
    assert(all.take(n as int) =~= all);
    r
}

/// File, under `web_pages/`, that keeps the page of a URL.
pub fn web_page_file(sandbox: &Sandbox, url: &str) -> (r: String)
    ensures
        r@ == safe_file_name(url@) + ".json"@,
{
    let mut r = sandbox.url_to_filename(url);
    push_str(&mut r, ".json");
    r
}

/// File, under `summaries/`, that keeps the summary of a URL.
pub fn summary_file(sandbox: &Sandbox, url: &str) -> (r: String)
    ensures
        r@ == safe_file_name(url@) + ".md"@,
{
    let mut r = sandbox.url_to_filename(url);
    push_str(&mut r, ".md");
    r
}

/// File, under `memories/`, that keeps the memory stored under a key.
pub fn memory_file(key: &str) -> (r: String)
    ensures
        r@ == key@ + ".json"@,
{
    let mut r = owned(key);
    push_str(&mut r, ".json");
    r
}

/// The Markdown document that keeps a summary.
pub open spec fn summary_document_text(url: Seq<char>, generated_at: Seq<char>, summary: Seq<char>) -> Seq<char> {
    "# Summary\n\n**URL:** "@ + url + "\n\n**Generated At:** "@ + generated_at + "\n\n---\n\n"@ + summary + "\n"@
}

/// The Markdown document that keeps the summary of a URL.
pub fn summary_document(url: &str, generated_at: &str, summary: &str) -> (r: String)
    ensures
        r@ == summary_document_text(url@, generated_at@, summary@),
{
    let mut r = owned("# Summary\n\n**URL:** ");
    push_str(&mut r, url);
    push_str(&mut r, "\n\n**Generated At:** ");
    push_str(&mut r, generated_at);
    push_str(&mut r, "\n\n---\n\n");
    push_str(&mut r, summary);
    push_str(&mut r, "\n");
    r
}

/// Whether a page saved at `timestamp` is older than `days` days at `now`
/// (both in seconds).
pub fn page_expired(timestamp: i64, now: i64, days: i64) -> (r: bool)
    requires
        i64::MIN <= days * 86400 <= i64::MAX,
        i64::MIN <= now - days * 86400 <= i64::MAX,
    ensures
        r == (timestamp < now - days * 86400),
{
    let cutoff = now - days * 24 * 3600;
    timestamp < cutoff
}

} // verus!
