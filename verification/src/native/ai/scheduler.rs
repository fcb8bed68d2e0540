//! Tool scheduling: tool calls are grouped by category, so that read and
//! network tools can run in parallel while write and browser tools run one
//! after another.

use vstd::prelude::*;
use vstd::std_specs::iter::IteratorSpec;
use crate::native::ai::checkpoint::writes_files_name;
use crate::native::ai::mcp::{lemma_route_name_shape, route_name};
use crate::native::ai::tools::ToolCall;
use crate::text::{has_prefix, starts_with, str_eq};

verus! {

/// Tool category.
#[derive(Debug, Clone, Copy, PartialEq, Eq, Structural)]
pub enum ToolCategory {
    /// Read-only: safe to run in parallel.
    Read,
    /// Writes files: run one at a time.
    Write,
    /// Network requests: safe to run in parallel.
    Network,
    /// Drives the browser: run one at a time.
    Browser,
}

/// The category of a tool, by its name.
pub open spec fn category_of(name: Seq<char>) -> ToolCategory {
    if name == "summarize_page"@ || name == "translate"@ {
        ToolCategory::Read
    } else if name == "export_markdown"@ || name == "run_command"@ {
        ToolCategory::Write
    } else if name == "web_search"@ {
        ToolCategory::Network
    } else if name == "open_url"@ || name == "web_agent"@ {
        ToolCategory::Browser
    } else if has_prefix(name, "mcp_"@) {
        ToolCategory::Network
    } else {
        ToolCategory::Read
    }
}

impl ToolCall {
    /// The category of this tool call: MCP tools are network requests, and
    /// skills and unknown tools count as reads.
    pub fn category(&self) -> (r: ToolCategory)
        ensures
            r == category_of(self.name@),
    {
        let name = self.name.as_str();
        if str_eq(name, "summarize_page") || str_eq(name, "translate") {
            ToolCategory::Read
        } else if str_eq(name, "export_markdown") || str_eq(name, "run_command") {
            ToolCategory::Write
        } else if str_eq(name, "web_search") {
            ToolCategory::Network
        } else if str_eq(name, "open_url") || str_eq(name, "web_agent") {
            ToolCategory::Browser
        } else if starts_with(name, "mcp_") {
            ToolCategory::Network
        } else if starts_with(name, "skill_") {
            ToolCategory::Read
        } else {
            ToolCategory::Read
        }
    }
}

/// Tool calls grouped by category.
pub struct ScheduledTools {
    pub read_tools: Vec<ToolCall>,
    pub write_tools: Vec<ToolCall>,
    pub network_tools: Vec<ToolCall>,
    pub browser_tools: Vec<ToolCall>,
}

/// The calls of `s` that fall in category `c`, in their order.
pub open spec fn of_category(s: Seq<ToolCall>, c: ToolCategory) -> Seq<ToolCall> {
    s.filter(|t: ToolCall| category_of(t.name@) == c)
}

impl ScheduledTools {
    /// Whether no tool call was scheduled.
    pub fn is_empty(&self) -> (r: bool)
        ensures
            r == (self.read_tools@.len() == 0 && self.write_tools@.len() == 0
                && self.network_tools@.len() == 0 && self.browser_tools@.len() == 0),
    {
        self.read_tools.len() == 0 && self.write_tools.len() == 0 && self.network_tools.len() == 0
            && self.browser_tools.len() == 0
    }

    /// Number of scheduled tool calls.
    pub fn total_count(&self) -> (r: usize)
        requires
            self.read_tools@.len() + self.write_tools@.len() + self.network_tools@.len()
                + self.browser_tools@.len() <= usize::MAX,
        ensures
            r == self.read_tools@.len() + self.write_tools@.len() + self.network_tools@.len()
                + self.browser_tools@.len(),
    {
        self.read_tools.len() + self.write_tools.len() + self.network_tools.len()
            + self.browser_tools.len()
    }
}

/// Groups tool calls by category, keeping their order within each group.
pub fn schedule_tools(tool_calls: Vec<ToolCall>) -> (r: ScheduledTools)
    ensures
        r.read_tools@ == of_category(tool_calls@, ToolCategory::Read),
        r.write_tools@ == of_category(tool_calls@, ToolCategory::Write),
        r.network_tools@ == of_category(tool_calls@, ToolCategory::Network),
        r.browser_tools@ == of_category(tool_calls@, ToolCategory::Browser),
{
    let ghost all = tool_calls@;
    let mut scheduled = ScheduledTools {
        read_tools: Vec::new(),
        write_tools: Vec::new(),
        network_tools: Vec::new(),
        browser_tools: Vec::new(),
    };
    for tc in it: tool_calls
        invariant
            it.seq() == all,
            scheduled.read_tools@ == of_category(all.take(it.index() as int), ToolCategory::Read),
            scheduled.write_tools@ == of_category(all.take(it.index() as int), ToolCategory::Write),
            scheduled.network_tools@ == of_category(all.take(it.index() as int), ToolCategory::Network),
            scheduled.browser_tools@ == of_category(all.take(it.index() as int), ToolCategory::Browser),
    {
        proof {
            let i = it.index() as int;
            assert(all.take(i + 1).drop_last() =~= all.take(i));
            reveal_with_fuel(Seq::filter, 1);
        }
        match tc.category() {
            ToolCategory::Read => scheduled.read_tools.push(tc),
            ToolCategory::Write => scheduled.write_tools.push(tc),
            ToolCategory::Network => scheduled.network_tools.push(tc),
            ToolCategory::Browser => scheduled.browser_tools.push(tc),
        }
    }
    proof {
        assert(all.take(all.len() as int) =~= all);
    }
    scheduled
}

} // verus!

verus! {

/// Scheduling loses no call and adds none: the four groups together hold
/// as many calls as were scheduled.
pub proof fn lemma_schedule_keeps_every_call(s: Seq<ToolCall>)
    ensures
        of_category(s, ToolCategory::Read).len() + of_category(s, ToolCategory::Write).len()
            + of_category(s, ToolCategory::Network).len() + of_category(s, ToolCategory::Browser).len() == s.len(),
    decreases s.len(),
{
    if s.len() > 0 {
        lemma_schedule_keeps_every_call(s.drop_last());
        reveal_with_fuel(Seq::filter, 1);
    }
}

/// The write category, whose calls run one at a time, holds exactly the
/// tools that write files.
pub proof fn lemma_writers_are_write_tools(name: Seq<char>)
    ensures
        category_of(name) == ToolCategory::Write <==> writes_files_name(name),
{
    reveal_strlit("summarize_page");
    reveal_strlit("translate");
    reveal_strlit("export_markdown");
    reveal_strlit("run_command");
    reveal_strlit("web_search");
    reveal_strlit("open_url");
    reveal_strlit("web_agent");
    if name == "run_command"@ {
        assert(name.len() == 11);
        assert(name != "summarize_page"@ && name != "translate"@);
    }
    if name == "export_markdown"@ {
        assert(name.len() == 15);
        assert(name != "summarize_page"@ && name != "translate"@);
    }
}

proof fn lemma_of_category_member(s: Seq<ToolCall>, c: ToolCategory, x: ToolCall)
    requires
        of_category(s, c).contains(x),
    ensures
        category_of(x.name@) == c,
{
    let f = of_category(s, c);
    let j = choose|j: int| 0 <= j < f.len() && f[j] == x;
    s.lemma_filter_pred(|t: ToolCall| category_of(t.name@) == c, j);
}

/// A scheduled call lands in the write group, run one at a time, exactly
/// when its tool writes files, and such a call is in no group that runs in
/// parallel.
pub proof fn lemma_file_writers_run_serially(calls: Seq<ToolCall>, i: int)
    requires
        0 <= i < calls.len(),
    ensures
        writes_files_name(calls[i].name@) ==> of_category(calls, ToolCategory::Write).contains(calls[i])
            && !of_category(calls, ToolCategory::Read).contains(calls[i])
            && !of_category(calls, ToolCategory::Network).contains(calls[i]),
        !writes_files_name(calls[i].name@) ==> !of_category(calls, ToolCategory::Write).contains(calls[i]),
{
    lemma_writers_are_write_tools(calls[i].name@);
    if writes_files_name(calls[i].name@) {
        calls.lemma_filter_contains(|t: ToolCall| category_of(t.name@) == ToolCategory::Write, i);
        if of_category(calls, ToolCategory::Read).contains(calls[i]) {
            lemma_of_category_member(calls, ToolCategory::Read, calls[i]);
        }
        if of_category(calls, ToolCategory::Network).contains(calls[i]) {
            lemma_of_category_member(calls, ToolCategory::Network, calls[i]);
        }
    } else if of_category(calls, ToolCategory::Write).contains(calls[i]) {
        lemma_of_category_member(calls, ToolCategory::Write, calls[i]);
    }
}

/// Every tool of an MCP server, under the function name it is offered by,
/// is a network request, which runs in parallel with the others.
pub proof fn lemma_mcp_tools_are_network(server: Seq<char>, tool: Seq<char>)
    ensures
        category_of(route_name(server, tool)) == ToolCategory::Network,
{
    lemma_route_name_shape(server, tool);
    reveal_strlit("mcp_");
    reveal_strlit("summarize_page");
    reveal_strlit("translate");
    reveal_strlit("export_markdown");
    reveal_strlit("run_command");
    reveal_strlit("web_search");
    reveal_strlit("open_url");
    reveal_strlit("web_agent");
    let n = route_name(server, tool);
    assert(n[0] == 'm' && n[1] == 'c' && n[2] == 'p' && n[3] == '_') by {
        assert(n.take(4)[0] == n[0] && n.take(4)[1] == n[1] && n.take(4)[2] == n[2] && n.take(4)[3] == n[3]);
    }
    assert(has_prefix(n, "mcp_"@));
}

} // verus!
