//! Context manager: keeps the key messages of a conversation (the system
//! prompt and the user's original question) frozen, and compresses the rest
//! to stay within a token budget.

use vstd::prelude::*;
use crate::native::ai::provider::{copy_opt, ChatMessage};
use crate::native::ai::tools::{ToolCall, ToolResult};
use crate::text::{
    byte_len, char_byte_width, char_width, chars_of, has_prefix, lemma_utf8_len_take_succ,
    owned, push_decimal, push_str, starts_with, str_eq, string_of_chars, utf8_len, decimal,
};

verus! {

/// A question of the user: a user message that is not a tool reply.
pub open spec fn is_question(m: ChatMessage) -> bool {
    m.role@ == "user"@ && m.tool_call_id is None
}

/// Whether a message is frozen, given whether a question was already
/// frozen: the system prompt, and the user's first question.
pub open spec fn freezes(m: ChatMessage, question_frozen: bool) -> bool {
    m.role@ == "system"@ || (is_question(m) && !question_frozen)
}

/// Whether a list of messages holds a question of the user.
pub open spec fn has_question(s: Seq<ChatMessage>) -> bool
    decreases s.len(),
{
    if s.len() == 0 {
        false
    } else {
        has_question(s.drop_last()) || is_question(s.last())
    }
}

/// The frozen and the compressible messages of a conversation, each in the
/// order of the conversation.
pub open spec fn split_messages(s: Seq<ChatMessage>) -> (Seq<ChatMessage>, Seq<ChatMessage>)
    decreases s.len(),
{
    if s.len() == 0 {
        (Seq::empty(), Seq::empty())
    } else {
        let (f, c) = split_messages(s.drop_last());
        if freezes(s.last(), has_question(s.drop_last())) {
            (f.push(s.last()), c)
        } else {
            (f, c.push(s.last()))
        }
    }
}

/// The token estimate counts every message, frozen or compressible.
pub open spec fn tokens_ok(c: ContextManager) -> bool {
    c.current_tokens == tokens_sum(c.frozen_messages@) + tokens_sum(c.compressible_messages@)
}

/// Estimated tokens of one message: half the bytes of its content plus half
/// the bytes of its name.
pub open spec fn msg_tokens(m: ChatMessage) -> nat {
    utf8_len(m.content@) / 2 + match m.name {
        Some(n) => utf8_len(n@) / 2,
        None => 0,
    }
}

/// Estimated tokens of a list of messages.
pub open spec fn tokens_sum(s: Seq<ChatMessage>) -> nat
    decreases s.len(),
{
    if s.len() == 0 {
        0
    } else {
        tokens_sum(s.drop_last()) + msg_tokens(s.last())
    }
}

/// A tool reply.
pub open spec fn is_tool_msg(m: ChatMessage) -> bool {
    m.role@ == "tool"@
}

/// A tool reply of an MCP tool, whose function name starts with `mcp_`.
pub open spec fn is_important(m: ChatMessage) -> bool {
    is_tool_msg(m) && match m.name {
        Some(n) => has_prefix(n@, "mcp_"@),
        None => false,
    }
}

/// Number of tool replies in `s`.
pub open spec fn tool_count(s: Seq<ChatMessage>) -> nat
    decreases s.len(),
{
    if s.len() == 0 {
        0
    } else {
        tool_count(s.drop_last()) + if is_tool_msg(s.last()) {
            1nat
        } else {
            0nat
        }
    }
}

/// `s` without its first `k` tool replies.
pub open spec fn drop_first_tools(s: Seq<ChatMessage>, k: nat) -> Seq<ChatMessage>
    decreases s.len(),
{
    if s.len() == 0 {
        s
    } else if is_tool_msg(s.last()) && tool_count(s.drop_last()) < k {
        drop_first_tools(s.drop_last(), k)
    } else {
        drop_first_tools(s.drop_last(), k).push(s.last())
    }
}

/// Number of tool replies that compression keeps.
pub open spec fn keep_tool_results() -> nat {
    10
}

/// `s` with only its last ten tool replies; other messages stay in order.
pub open spec fn without_old_tool_results(s: Seq<ChatMessage>) -> Seq<ChatMessage> {
    if tool_count(s) > keep_tool_results() {
        drop_first_tools(s, (tool_count(s) - keep_tool_results()) as nat)
    } else {
        s
    }
}

/// Longest content, in bytes, that compression leaves untouched.
pub open spec fn max_content_bytes() -> nat {
    2000
}

/// Some prefix of `c` has exactly `b` bytes.
pub open spec fn has_boundary(c: Seq<char>, b: nat) -> bool {
    exists|n: int| 0 <= n <= c.len() && #[trigger] utf8_len(c.take(n)) == b
}

/// The number of characters of the prefix of `c` that has `b` bytes.
pub open spec fn boundary_chars(c: Seq<char>, b: nat) -> int {
    choose|n: int| 0 <= n <= c.len() && #[trigger] utf8_len(c.take(n)) == b
}

/// A content cut to its first 2000 bytes, headed by a note with its former
/// length in bytes.
pub open spec fn truncated_content(c: Seq<char>) -> Seq<char> {
    if utf8_len(c) > max_content_bytes() {
        "[内容已截断，原长度: "@ + decimal(utf8_len(c)) + "]\n"@ + c.take(
            boundary_chars(c, max_content_bytes()),
        )
    } else {
        c
    }
}

/// Truncation can cut the content of `m` without splitting a character.
pub open spec fn truncatable(m: ChatMessage) -> bool {
    utf8_len(m.content@) > max_content_bytes() ==> has_boundary(m.content@, max_content_bytes())
}

/// `n` is `m` with its content truncated.
pub open spec fn truncated_msg(m: ChatMessage, n: ChatMessage) -> bool {
    &&& n.role == m.role
    &&& n.name == m.name
    &&& n.tool_call_id == m.tool_call_id
    &&& n.content@ == truncated_content(m.content@)
}

/// `t` is `s` with every message truncated.
pub open spec fn truncated_all(s: Seq<ChatMessage>, t: Seq<ChatMessage>) -> bool {
    s.len() == t.len() && forall|i: int| 0 <= i < s.len() ==> truncated_msg(s[i], t[i])
}

/// Tokens of a message once truncated.
pub open spec fn truncated_tokens(m: ChatMessage) -> nat {
    utf8_len(truncated_content(m.content@)) / 2 + match m.name {
        Some(n) => utf8_len(n@) / 2,
        None => 0,
    }
}

/// Tokens of a list of messages once truncated.
pub open spec fn truncated_tokens_sum(s: Seq<ChatMessage>) -> nat
    decreases s.len(),
{
    if s.len() == 0 {
        0
    } else {
        truncated_tokens_sum(s.drop_last()) + truncated_tokens(s.last())
    }
}

/// Compression of `s` is possible without panicking or overflowing.
pub open spec fn compressible_ok(s: Seq<ChatMessage>) -> bool {
    let kept = without_old_tool_results(s);
    &&& forall|i: int| 0 <= i < kept.len() ==> truncatable(#[trigger] kept[i])
    &&& truncated_tokens_sum(kept) <= usize::MAX
}

/// Compression is possible, and the frozen tokens together with the tokens
/// left after it fit in a `usize`.
pub open spec fn compression_ok(frozen: Seq<ChatMessage>, s: Seq<ChatMessage>) -> bool {
    &&& compressible_ok(s)
    &&& tokens_sum(frozen) + truncated_tokens_sum(without_old_tool_results(s)) <= usize::MAX
}

pub proof fn lemma_tokens_sum_take(s: Seq<ChatMessage>, i: int)
    requires
        0 <= i < s.len(),
    ensures
        tokens_sum(s.take(i + 1)) == tokens_sum(s.take(i)) + msg_tokens(s[i]),
{
    assert(s.take(i + 1).drop_last() =~= s.take(i));
}

pub proof fn lemma_tokens_sum_mono(s: Seq<ChatMessage>, i: int)
    requires
        0 <= i <= s.len(),
    ensures
        tokens_sum(s.take(i)) <= tokens_sum(s),
    decreases s.len() - i,
{
    if i < s.len() {
        lemma_tokens_sum_take(s, i);
        lemma_tokens_sum_mono(s, i + 1);
    } else {
        assert(s.take(i) =~= s);
    }
}

/// The frozen and the compressible parts together hold all the tokens.
pub proof fn lemma_split_tokens(s: Seq<ChatMessage>)
    ensures
        tokens_sum(split_messages(s).0) + tokens_sum(split_messages(s).1) == tokens_sum(s),
    decreases s.len(),
{
    if s.len() > 0 {
        lemma_split_tokens(s.drop_last());
        let (f, c) = split_messages(s.drop_last());
        assert(f.push(s.last()).drop_last() =~= f);
        assert(c.push(s.last()).drop_last() =~= c);
    }
}

/// Splitting keeps every message once: the two parts together are the
/// conversation, reordered.
pub proof fn lemma_split_keeps_every_message(s: Seq<ChatMessage>)
    ensures
        (split_messages(s).0 + split_messages(s).1).to_multiset() == s.to_multiset(),
    decreases s.len(),
{
    broadcast use vstd::seq_lib::group_to_multiset_ensures, vstd::seq_lib::lemma_multiset_commutative;
    if s.len() > 0 {
        lemma_split_keeps_every_message(s.drop_last());
        let (f, c) = split_messages(s.drop_last());
        assert(s =~= s.drop_last().push(s.last()));
        assert((f + c).to_multiset() == f.to_multiset().add(c.to_multiset()));
        if freezes(s.last(), has_question(s.drop_last())) {
            assert((f.push(s.last()) + c).to_multiset() == f.push(s.last()).to_multiset().add(c.to_multiset()));
        } else {
            assert((f + c.push(s.last())).to_multiset() == f.to_multiset().add(c.push(s.last()).to_multiset()));
        }
    }
}

/// Tokens of two lists one after the other.
pub proof fn lemma_tokens_sum_concat(a: Seq<ChatMessage>, b: Seq<ChatMessage>)
    ensures
        tokens_sum(a + b) == tokens_sum(a) + tokens_sum(b),
    decreases b.len(),
{
    if b.len() == 0 {
        assert(a + b =~= a);
    } else {
        lemma_tokens_sum_concat(a, b.drop_last());
        assert((a + b).drop_last() =~= a + b.drop_last());
    }
}

/// Reversing a list keeps its tokens.
pub proof fn lemma_tokens_sum_reverse(a: Seq<ChatMessage>)
    ensures
        tokens_sum(a.reverse()) == tokens_sum(a),
    decreases a.len(),
{
    if a.len() > 0 {
        lemma_tokens_sum_reverse(a.drop_last());
        assert(a.reverse() =~= seq![a.last()] + a.drop_last().reverse());
        lemma_tokens_sum_concat(seq![a.last()], a.drop_last().reverse());
        assert(seq![a.last()].drop_last() =~= Seq::<ChatMessage>::empty());
        assert(tokens_sum(Seq::<ChatMessage>::empty()) == 0);
        assert(tokens_sum(seq![a.last()]) == msg_tokens(a.last()));
    }
}

/// A list split by a predicate holds the tokens and the messages of the list.
pub proof fn lemma_filter_partition(s: Seq<ChatMessage>, p: spec_fn(ChatMessage) -> bool)
    ensures
        tokens_sum(s.filter(p)) + tokens_sum(s.filter(|m: ChatMessage| !p(m))) == tokens_sum(s),
        s.filter(p).to_multiset().add(s.filter(|m: ChatMessage| !p(m)).to_multiset()) == s.to_multiset(),
    decreases s.len(),
{
    broadcast use vstd::seq_lib::group_to_multiset_ensures;
    reveal_with_fuel(Seq::filter, 1);
    let q = |m: ChatMessage| !p(m);
    if s.len() == 0 {
        assert(s.filter(p) =~= Seq::<ChatMessage>::empty());
        assert(s.filter(q) =~= Seq::<ChatMessage>::empty());
        assert(s.to_multiset() =~= vstd::multiset::Multiset::empty());
    } else {
        lemma_filter_partition(s.drop_last(), p);
        let fp = s.drop_last().filter(p);
        let fq = s.drop_last().filter(q);
        assert(fp.push(s.last()).drop_last() =~= fp);
        assert(fq.push(s.last()).drop_last() =~= fq);
        assert(s =~= s.drop_last().push(s.last()));
        if p(s.last()) {
            assert(s.filter(p) == fp.push(s.last()));
            assert(s.filter(q) == fq);
        } else {
            assert(s.filter(p) == fp);
            assert(s.filter(q) == fq.push(s.last()));
        }
        assert(s.filter(p).to_multiset().add(s.filter(q).to_multiset()) =~= s.to_multiset());
    }
}

/// Filtering twice by a predicate keeps what the first filter kept, and
/// filtering by its negation then leaves nothing.
pub proof fn lemma_filter_twice(s: Seq<ChatMessage>, p: spec_fn(ChatMessage) -> bool)
    ensures
        s.filter(p).filter(p) == s.filter(p),
        s.filter(p).filter(|m: ChatMessage| !p(m)) == Seq::<ChatMessage>::empty(),
    decreases s.len(),
{
    reveal_with_fuel(Seq::filter, 1);
    if s.len() == 0 {
        assert(s.filter(p) =~= Seq::<ChatMessage>::empty());
        assert(s.filter(p).filter(p) =~= Seq::<ChatMessage>::empty());
        assert(s.filter(p).filter(|m: ChatMessage| !p(m)) =~= Seq::<ChatMessage>::empty());
    } else {
        lemma_filter_twice(s.drop_last(), p);
        let f = s.drop_last().filter(p);
        if p(s.last()) {
            assert(s.filter(p) == f.push(s.last()));
            assert(f.push(s.last()).drop_last() =~= f);
        } else {
            assert(s.filter(p) == f);
        }
    }
}

pub proof fn lemma_tool_count_le(s: Seq<ChatMessage>)
    ensures
        tool_count(s) <= s.len(),
    decreases s.len(),
{
    if s.len() > 0 {
        lemma_tool_count_le(s.drop_last());
    }
}

/// Prefix byte lengths strictly grow with the prefix.
pub proof fn lemma_prefix_bytes_strict(s: Seq<char>, i: int, j: int)
    requires
        0 <= i < j <= s.len(),
    ensures
        utf8_len(s.take(i)) < utf8_len(s.take(j)),
    decreases j - i,
{
    lemma_utf8_len_take_succ(s, j - 1);
    if i < j - 1 {
        lemma_prefix_bytes_strict(s, i, j - 1);
    }
}

pub proof fn lemma_truncated_sum(s: Seq<ChatMessage>, t: Seq<ChatMessage>)
    requires
        truncated_all(s, t),
    ensures
        tokens_sum(t) == truncated_tokens_sum(s),
    decreases s.len(),
{
    if s.len() > 0 {
        assert(truncated_all(s.drop_last(), t.drop_last()));
        lemma_truncated_sum(s.drop_last(), t.drop_last());
    }
}

/// A copy of a list of messages.
pub fn copy_messages(v: &[ChatMessage]) -> (r: Vec<ChatMessage>)
    ensures
        r@ == v@,
{
    let mut r: Vec<ChatMessage> = Vec::new();
    let mut i: usize = 0;
    while i < v.len()
        invariant
            0 <= i <= v.len(),
            r@ == v@.take(i as int),
        decreases v.len() - i,
    {
        r.push(v[i].copy());
        assert(v@.take(i + 1) =~= v@.take(i as int).push(v@[i as int]));
        i = i + 1;
    }
    assert(v@.take(v.len() as int) =~= v@);
    r
}

fn is_tool(msg: &ChatMessage) -> (r: bool)
    ensures
        r == is_tool_msg(*msg),
{
    str_eq(msg.role.as_str(), "tool")
}

/// Number of tool replies among `v`.
fn count_tools(v: &[ChatMessage]) -> (r: usize)
    ensures
        r == tool_count(v@),
{
    let mut n: usize = 0;
    let mut i: usize = 0;
    while i < v.len()
        invariant
            0 <= i <= v.len(),
            n == tool_count(v@.take(i as int)),
        decreases v.len() - i,
    {
        proof {
            assert(v@.take(i + 1).drop_last() =~= v@.take(i as int));
            lemma_tool_count_le(v@.take(i as int));
        }
        if is_tool(&v[i]) {
            n = n + 1;
        }
        i = i + 1;
    }
    assert(v@.take(v.len() as int) =~= v@);
    n
}

/// The content with its first 2000 bytes kept, headed by the note on its length.
pub fn truncate_content(c: &String) -> (r: String)
    requires
        utf8_len(c@) > max_content_bytes() ==> has_boundary(c@, max_content_bytes()),
    ensures
        r@ == truncated_content(c@),
{
    let n = byte_len(c.as_str());
    if n <= 2000 {
        return c.clone();
    }
    let v = chars_of(c.as_str());
    let ghost n0 = boundary_chars(c@, max_content_bytes());
    let mut k: usize = 0;
    let mut bytes: usize = 0;
    while bytes < 2000
        invariant
            v@ == c@,
            0 <= n0 <= v@.len(),
            utf8_len(c@.take(n0)) == 2000,
            0 <= k <= n0,
            bytes == utf8_len(c@.take(k as int)),
            bytes <= 2000,
        decreases n0 - k,
    {
        proof {
            if k == n0 {
                assert(false);
            }
            assert(k < n0 && n0 <= v.len());
            lemma_utf8_len_take_succ(c@, k as int);
            if k + 1 < n0 {
                lemma_prefix_bytes_strict(c@, k + 1, n0);
            }
        }
        bytes = bytes + char_byte_width(v[k]);
        k = k + 1;
    }
    proof {
        if k < n0 {
            lemma_prefix_bytes_strict(c@, k as int, n0);
        }
    }
    let mut r = owned("[内容已截断，原长度: ");
    push_decimal(&mut r, n);
    push_str(&mut r, "]\n");
    let prefix = string_of_chars(&v.as_slice()[0..k]);
    push_str(&mut r, prefix.as_str());
    assert(v@.subrange(0, k as int) =~= c@.take(k as int));
    r
}

/// Context manager.
pub struct ContextManager {
    /// Messages that are never compressed.
    pub frozen_messages: Vec<ChatMessage>,
    /// Messages that compression may drop or cut.
    pub compressible_messages: Vec<ChatMessage>,
    /// Current token estimate.
    pub current_tokens: usize,
}

/// The state of a context manager as plain values: its frozen and its
/// compressible messages, and its token estimate.
pub struct ContextView {
    pub frozen: Seq<ChatMessage>,
    pub compressible: Seq<ChatMessage>,
    pub tokens: nat,
}

/// All messages of a state: the frozen ones, then the compressible ones.
pub open spec fn all_messages(v: ContextView) -> Seq<ChatMessage> {
    v.frozen + v.compressible
}

/// An operation on a context: a message added to the compressible part
/// (`add_tool_result`, `add_assistant_message`, `add_user_message`), or the
/// freezing of the MCP replies (`freeze_important_messages`).
pub enum ContextStep {
    Add(ChatMessage),
    Freeze,
}

/// The state after an operation.
pub open spec fn apply_step(v: ContextView, step: ContextStep) -> ContextView {
    match step {
        ContextStep::Add(m) => ContextView {
            frozen: v.frozen,
            compressible: v.compressible.push(m),
            tokens: v.tokens + msg_tokens(m),
        },
        ContextStep::Freeze => ContextView {
            frozen: v.frozen + v.compressible.filter(|m: ChatMessage| is_important(m)).reverse(),
            compressible: v.compressible.filter(|m: ChatMessage| !is_important(m)),
            tokens: v.tokens,
        },
    }
}

/// The state after a sequence of operations.
pub open spec fn run_steps(v: ContextView, steps: Seq<ContextStep>) -> ContextView
    decreases steps.len(),
{
    if steps.len() == 0 {
        v
    } else {
        apply_step(run_steps(v, steps.drop_last()), steps.last())
    }
}

/// The state in which a conversation is opened.
pub open spec fn opened(msgs: Seq<ChatMessage>) -> ContextView {
    ContextView { frozen: split_messages(msgs).0, compressible: split_messages(msgs).1, tokens: tokens_sum(msgs) }
}

impl ContextManager {
    pub open spec fn view(&self) -> ContextView {
        ContextView {
            frozen: self.frozen_messages@,
            compressible: self.compressible_messages@,
            tokens: self.current_tokens as nat,
        }
    }

    /// Sorts the messages into frozen ones (the system prompt and the user's
    /// first question) and compressible ones, keeping their order, and
    /// estimates the tokens of all of them.
    pub fn new(messages: Vec<ChatMessage>) -> (r: Self)
        requires
            tokens_sum(messages@) <= usize::MAX,
        ensures
            r.frozen_messages@ == split_messages(messages@).0,
            r.compressible_messages@ == split_messages(messages@).1,
            r.current_tokens == tokens_sum(messages@),
            tokens_ok(r),
            r.view() == opened(messages@),
    {
        let mut frozen: Vec<ChatMessage> = Vec::new();
        let mut compressible: Vec<ChatMessage> = Vec::new();
        let ghost all = messages@;
        let mut seen = false;
        let mut i: usize = 0;
        while i < messages.len()
            invariant
                0 <= i <= messages.len(),
                all == messages@,
                (frozen@, compressible@) == split_messages(all.take(i as int)),
                seen == has_question(all.take(i as int)),
            decreases messages.len() - i,
        {
            let msg = messages[i].copy();
            proof {
                assert(all.take(i + 1).drop_last() =~= all.take(i as int));
            }
            let question = Self::is_question_msg(&msg);
            if Self::should_freeze(&msg, seen) {
                frozen.push(msg);
            } else {
                compressible.push(msg);
            }
            seen = seen || question;
            i = i + 1;
        }
        proof {
            assert(all.take(all.len() as int) =~= all);
            lemma_split_tokens(all);
        }
        let current_tokens = Self::estimate_all_tokens(frozen.as_slice())
            + Self::estimate_all_tokens(compressible.as_slice());
        ContextManager { frozen_messages: frozen, compressible_messages: compressible, current_tokens }
    }

    fn is_question_msg(msg: &ChatMessage) -> (r: bool)
        ensures
            r == is_question(*msg),
    {
        str_eq(msg.role.as_str(), "user") && msg.tool_call_id.is_none()
    }

    /// Whether a message is frozen, given whether a question of the user was
    /// already frozen: the system prompt, and the user's first question.
    pub fn should_freeze(msg: &ChatMessage, question_frozen: bool) -> (r: bool)
        ensures
            r == freezes(*msg, question_frozen),
    {
        if str_eq(msg.role.as_str(), "system") {
            return true;
        }
        Self::is_question_msg(msg) && !question_frozen
    }

    /// All messages: the frozen ones, then the compressible ones.
    pub fn messages(&self) -> (r: Vec<ChatMessage>)
        ensures
            r@ == self.frozen_messages@ + self.compressible_messages@,
    {
        let mut all = copy_messages(self.frozen_messages.as_slice());
        let mut rest = copy_messages(self.compressible_messages.as_slice());
        all.append(&mut rest);
        all
    }

    fn push_compressible(&mut self, msg: ChatMessage)
        requires
            old(self).current_tokens + msg_tokens(msg) <= usize::MAX,
        ensures
            final(self).frozen_messages == old(self).frozen_messages,
            final(self).compressible_messages@ == old(self).compressible_messages@.push(msg),
            final(self).current_tokens == old(self).current_tokens + msg_tokens(msg),
            tokens_ok(*old(self)) ==> tokens_ok(*final(self)),
    {
        assert(old(self).compressible_messages@.push(msg).drop_last() =~= old(self).compressible_messages@);
        let tokens = Self::estimate_msg_tokens(&msg);
        self.current_tokens = self.current_tokens + tokens;
        self.compressible_messages.push(msg);
    }

    /// Adds the reply of a tool call as a compressible `tool` message.
    pub fn add_tool_result(&mut self, tool_call: &ToolCall, result: &ToolResult)
        requires
            old(self).current_tokens + utf8_len(result.output@) / 2 + utf8_len(tool_call.name@) / 2
                <= usize::MAX,
        ensures
            final(self).frozen_messages == old(self).frozen_messages,
            final(self).compressible_messages@.len() == old(self).compressible_messages@.len() + 1,
            final(self).compressible_messages@.drop_last() == old(self).compressible_messages@,
            final(self).compressible_messages@.last().role@ == "tool"@,
            final(self).compressible_messages@.last().content == result.output,
            final(self).compressible_messages@.last().name == Some(tool_call.name),
            final(self).compressible_messages@.last().tool_call_id == Some(tool_call.id),
            final(self).current_tokens == old(self).current_tokens + utf8_len(result.output@) / 2
                + utf8_len(tool_call.name@) / 2,
            tokens_ok(*old(self)) ==> tokens_ok(*final(self)),
            final(self).view() == apply_step(old(self).view(), ContextStep::Add(final(self).compressible_messages@.last())),
    {
        let msg = ChatMessage {
            role: owned("tool"),
            content: result.output.clone(),
            name: Some(tool_call.name.clone()),
            tool_call_id: Some(tool_call.id.clone()),
        };
        self.push_compressible(msg);
        assert(self.compressible_messages@.drop_last() =~= old(self).compressible_messages@);
        assert(self.compressible_messages@ =~= old(self).compressible_messages@.push(self.compressible_messages@.last()));
    }

    /// Adds an assistant reply as a compressible message.
    pub fn add_assistant_message(&mut self, content: String)
        requires
            old(self).current_tokens + utf8_len(content@) / 2 <= usize::MAX,
        ensures
            final(self).frozen_messages == old(self).frozen_messages,
            final(self).compressible_messages@.len() == old(self).compressible_messages@.len() + 1,
            final(self).compressible_messages@.drop_last() == old(self).compressible_messages@,
            final(self).compressible_messages@.last().role@ == "assistant"@,
            final(self).compressible_messages@.last().content == content,
            final(self).compressible_messages@.last().name is None,
            final(self).compressible_messages@.last().tool_call_id is None,
            final(self).current_tokens == old(self).current_tokens + utf8_len(content@) / 2,
            tokens_ok(*old(self)) ==> tokens_ok(*final(self)),
            final(self).view() == apply_step(old(self).view(), ContextStep::Add(final(self).compressible_messages@.last())),
    {
        let msg = ChatMessage::plain("assistant", content);
        self.push_compressible(msg);
        assert(self.compressible_messages@.drop_last() =~= old(self).compressible_messages@);
        assert(self.compressible_messages@ =~= old(self).compressible_messages@.push(self.compressible_messages@.last()));
    }

    /// Adds a user message as a compressible message.
    pub fn add_user_message(&mut self, content: String)
        requires
            old(self).current_tokens + utf8_len(content@) / 2 <= usize::MAX,
        ensures
            final(self).frozen_messages == old(self).frozen_messages,
            final(self).compressible_messages@.len() == old(self).compressible_messages@.len() + 1,
            final(self).compressible_messages@.drop_last() == old(self).compressible_messages@,
            final(self).compressible_messages@.last().role@ == "user"@,
            final(self).compressible_messages@.last().content == content,
            final(self).compressible_messages@.last().name is None,
            final(self).compressible_messages@.last().tool_call_id is None,
            final(self).current_tokens == old(self).current_tokens + utf8_len(content@) / 2,
            tokens_ok(*old(self)) ==> tokens_ok(*final(self)),
            final(self).view() == apply_step(old(self).view(), ContextStep::Add(final(self).compressible_messages@.last())),
    {
        let msg = ChatMessage::plain("user", content);
        self.push_compressible(msg);
        assert(self.compressible_messages@.drop_last() =~= old(self).compressible_messages@);
        assert(self.compressible_messages@ =~= old(self).compressible_messages@.push(self.compressible_messages@.last()));
    }

    /// Current token estimate.
    pub fn estimate_tokens(&self) -> (r: usize)
        ensures
            r == self.current_tokens,
            tokens_ok(*self) ==> r == tokens_sum(self.frozen_messages@ + self.compressible_messages@),
    {
        proof {
            lemma_tokens_sum_concat(self.frozen_messages@, self.compressible_messages@);
        }
        self.current_tokens
    }

    /// Compresses when the estimate exceeds `target_tokens`: keeps only the
    /// last ten tool replies, cuts long contents, and re-estimates the tokens
    /// of all messages; the frozen messages stay as they are.
    pub fn compress_if_needed(&mut self, target_tokens: usize)
        requires
            old(self).current_tokens > target_tokens ==> compression_ok(
                old(self).frozen_messages@,
                old(self).compressible_messages@,
            ),
        ensures
            old(self).current_tokens <= target_tokens ==> *final(self) == *old(self),
            old(self).current_tokens > target_tokens ==> {
                &&& final(self).frozen_messages == old(self).frozen_messages
                &&& truncated_all(
                    without_old_tool_results(old(self).compressible_messages@),
                    final(self).compressible_messages@,
                )
                &&& final(self).current_tokens == tokens_sum(final(self).frozen_messages@) + tokens_sum(
                    final(self).compressible_messages@,
                )
            },
            tokens_ok(*old(self)) ==> tokens_ok(*final(self)),
            old(self).current_tokens > target_tokens ==> tokens_ok(*final(self)),
    {
        if self.current_tokens <= target_tokens {
            return;
        }
        self.remove_old_tool_results();
        self.truncate_long_messages();
        proof {
            lemma_truncated_sum(
                without_old_tool_results(old(self).compressible_messages@),
                self.compressible_messages@,
            );
        }
        self.current_tokens = Self::estimate_all_tokens(self.frozen_messages.as_slice())
            + Self::estimate_all_tokens(self.compressible_messages.as_slice());
    }

    /// Keeps only the ten most recent tool replies among the compressible messages.
    pub fn remove_old_tool_results(&mut self)
        ensures
            final(self).frozen_messages == old(self).frozen_messages,
            final(self).current_tokens == old(self).current_tokens,
            final(self).compressible_messages@ == without_old_tool_results(
                old(self).compressible_messages@,
            ),
    {
        let total = count_tools(self.compressible_messages.as_slice());
        if total <= 10 {
            return;
        }
        let k = total - 10;
        let ghost s = self.compressible_messages@;
        let mut kept: Vec<ChatMessage> = Vec::new();
        let mut seen: usize = 0;
        let mut i: usize = 0;
        while i < self.compressible_messages.len()
            invariant
                0 <= i <= s.len(),
                s == self.compressible_messages@,
                k == tool_count(s) - 10,
                seen == tool_count(s.take(i as int)),
                kept@ == drop_first_tools(s.take(i as int), k as nat),
            decreases s.len() - i,
        {
            proof {
                assert(s.take(i + 1).drop_last() =~= s.take(i as int));
                lemma_tool_count_le(s.take(i as int));
            }
            let msg = &self.compressible_messages[i];
            if is_tool(msg) {
                if seen >= k {
                    kept.push(msg.copy());
                }
                seen = seen + 1;
            } else {
                kept.push(msg.copy());
            }
            i = i + 1;
        }
        assert(s.take(s.len() as int) =~= s);
        self.compressible_messages = kept;
    }

    /// Cuts every compressible message longer than 2000 bytes.
    pub fn truncate_long_messages(&mut self)
        requires
            forall|i: int|
                0 <= i < old(self).compressible_messages@.len() ==> truncatable(
                    #[trigger] old(self).compressible_messages@[i],
                ),
        ensures
            final(self).frozen_messages == old(self).frozen_messages,
            final(self).current_tokens == old(self).current_tokens,
            truncated_all(old(self).compressible_messages@, final(self).compressible_messages@),
    {
        let ghost s = self.compressible_messages@;
        let mut out: Vec<ChatMessage> = Vec::new();
        let mut i: usize = 0;
        while i < self.compressible_messages.len()
            invariant
                0 <= i <= s.len(),
                s == self.compressible_messages@,
                forall|j: int| 0 <= j < s.len() ==> truncatable(#[trigger] s[j]),
                truncated_all(s.take(i as int), out@),
            decreases s.len() - i,
        {
            let msg = &self.compressible_messages[i];
            assert(truncatable(s[i as int]));
            let content = truncate_content(&msg.content);
            out.push(
                ChatMessage {
                    role: msg.role.clone(),
                    content,
                    name: copy_opt(&msg.name),
                    tool_call_id: copy_opt(&msg.tool_call_id),
                },
            );
            assert(truncated_all(s.take(i + 1), out@)) by {
                assert forall|j: int| 0 <= j < i + 1 implies truncated_msg(
                    s.take(i + 1)[j],
                    out@[j],
                ) by {
                    if j < i {
                        assert(s.take(i + 1)[j] == s.take(i as int)[j]);
                    }
                }
            }
            i = i + 1;
        }
        assert(s.take(s.len() as int) =~= s);
        self.compressible_messages = out;
    }

    /// Moves the MCP tool replies from the compressible messages to the frozen
    /// ones; they are appended to the frozen messages last-first.
    pub fn freeze_important_messages(&mut self)
        ensures
            final(self).current_tokens == old(self).current_tokens,
            final(self).compressible_messages@ == old(self).compressible_messages@.filter(
                |m: ChatMessage| !is_important(m),
            ),
            final(self).frozen_messages@ == old(self).frozen_messages@
                + old(self).compressible_messages@.filter(|m: ChatMessage| is_important(m)).reverse(),
            tokens_ok(*old(self)) ==> tokens_ok(*final(self)),
            final(self).view() == apply_step(old(self).view(), ContextStep::Freeze),
    {
        let ghost s = self.compressible_messages@;
        let mut kept: Vec<ChatMessage> = Vec::new();
        let mut important: Vec<ChatMessage> = Vec::new();
        let mut i: usize = 0;
        while i < self.compressible_messages.len()
            invariant
                0 <= i <= s.len(),
                s == self.compressible_messages@,
                kept@ == s.take(i as int).filter(|m: ChatMessage| !is_important(m)),
                important@ == s.take(i as int).filter(|m: ChatMessage| is_important(m)),
            decreases s.len() - i,
        {
            proof {
                assert(s.take(i + 1).drop_last() =~= s.take(i as int));
                reveal_with_fuel(Seq::filter, 1);
            }
            let msg = &self.compressible_messages[i];
            if Self::is_important_msg(msg) {
                important.push(msg.copy());
            } else {
                kept.push(msg.copy());
            }
            i = i + 1;
        }
        assert(s.take(s.len() as int) =~= s);
        let ghost frozen0 = self.frozen_messages@;
        let ghost imp = important@;
        let mut j: usize = important.len();
        while j > 0
            invariant
                0 <= j <= imp.len(),
                important@ == imp,
                self.current_tokens == old(self).current_tokens,
                self.frozen_messages@ == frozen0 + imp.skip(j as int).reverse(),
            decreases j,
        {
            j = j - 1;
            self.frozen_messages.push(important[j].copy());
            assert(imp.skip(j as int).reverse() =~= imp.skip(j + 1).reverse().push(imp[j as int]));
        }
        assert(imp.skip(0) =~= imp);
        self.compressible_messages = kept;
        proof {
            lemma_freeze_parts(frozen0, s);
        }
    }

    /// Whether a message is an MCP tool reply.
    pub fn is_important_msg(msg: &ChatMessage) -> (r: bool)
        ensures
            r == is_important(*msg),
    {
        if !is_tool(msg) {
            return false;
        }
        match &msg.name {
            Some(n) => starts_with(n.as_str(), "mcp_"),
            None => false,
        }
    }

    /// Estimated tokens of one message.
    pub fn estimate_msg_tokens(msg: &ChatMessage) -> (r: usize)
        ensures
            r == msg_tokens(*msg),
    {
        let content_tokens = byte_len(msg.content.as_str()) / 2;
        let name_tokens = match &msg.name {
            Some(n) => byte_len(n.as_str()) / 2,
            None => 0,
        };
        content_tokens + name_tokens
    }

    /// Estimated tokens of a list of messages.
    pub fn estimate_all_tokens(messages: &[ChatMessage]) -> (r: usize)
        requires
            tokens_sum(messages@) <= usize::MAX,
        ensures
            r == tokens_sum(messages@),
    {
        let mut total: usize = 0;
        let mut i: usize = 0;
        while i < messages.len()
            invariant
                0 <= i <= messages.len(),
                tokens_sum(messages@) <= usize::MAX,
                total == tokens_sum(messages@.take(i as int)),
            decreases messages.len() - i,
        {
            proof {
                lemma_tokens_sum_take(messages@, i as int);
                lemma_tokens_sum_mono(messages@, i + 1);
            }
            total = total + Self::estimate_msg_tokens(&messages[i]);
            i = i + 1;
        }
        assert(messages@.take(messages.len() as int) =~= messages@);
        total
    }
}

} // verus!

verus! {

/// Dropping the first `k` tool replies leaves the others.
proof fn lemma_drop_first_tools_count(s: Seq<ChatMessage>, k: nat)
    requires
        k <= tool_count(s),
    ensures
        tool_count(drop_first_tools(s, k)) == tool_count(s) - k,
    decreases s.len(),
{
    if s.len() > 0 {
        let p = s.drop_last();
        if is_tool_msg(s.last()) && tool_count(p) < k {
            lemma_drop_first_tools_count(p, tool_count(p));
            lemma_drop_all_tools(p, k);
        } else {
            lemma_drop_first_tools_count(p, k);
            let d = drop_first_tools(p, k);
            assert(d.push(s.last()).drop_last() =~= d);
        }
    }
}

/// Dropping at least as many tool replies as there are leaves none.
proof fn lemma_drop_all_tools(s: Seq<ChatMessage>, k: nat)
    requires
        tool_count(s) <= k,
    ensures
        tool_count(drop_first_tools(s, k)) == 0,
    decreases s.len(),
{
    if s.len() > 0 {
        let p = s.drop_last();
        lemma_drop_all_tools(p, k);
        if !(is_tool_msg(s.last()) && tool_count(p) < k) {
            let d = drop_first_tools(p, k);
            assert(d.push(s.last()).drop_last() =~= d);
        }
    }
}

/// Compression keeps the ten most recent tool replies: afterwards there are
/// as many as before, but never more than ten.
pub proof fn lemma_compression_keeps_ten_tool_results(s: Seq<ChatMessage>)
    ensures
        tool_count(without_old_tool_results(s)) == if tool_count(s) > keep_tool_results() {
            keep_tool_results()
        } else {
            tool_count(s)
        },
{
    if tool_count(s) > keep_tool_results() {
        lemma_drop_first_tools_count(s, (tool_count(s) - keep_tool_results()) as nat);
    }
}

/// Freezing the MCP replies of `s` behind `frozen` moves messages without
/// losing or adding any and keeps the token count; no MCP reply stays in
/// the compressible part.
proof fn lemma_freeze_parts(frozen: Seq<ChatMessage>, s: Seq<ChatMessage>)
    ensures
        ({
            let f2 = frozen + s.filter(|m: ChatMessage| is_important(m)).reverse();
            let c2 = s.filter(|m: ChatMessage| !is_important(m));
            &&& (f2 + c2).to_multiset() == (frozen + s).to_multiset()
            &&& tokens_sum(f2) + tokens_sum(c2) == tokens_sum(frozen) + tokens_sum(s)
            &&& c2.filter(|m: ChatMessage| is_important(m)) == Seq::<ChatMessage>::empty()
            &&& c2.filter(|m: ChatMessage| !is_important(m)) == c2
        }),
{
    broadcast use vstd::seq_lib::lemma_multiset_commutative;
    let p = |m: ChatMessage| is_important(m);
    let q = |m: ChatMessage| !is_important(m);
    assert((|m: ChatMessage| !p(m)) =~= q);
    lemma_filter_partition(s, p);
    lemma_filter_twice(s, q);
    assert((|m: ChatMessage| !q(m)) =~= p);
    let fi = s.filter(p);
    let c2 = s.filter(q);
    s.filter(p).lemma_reverse_to_multiset();
    lemma_tokens_sum_reverse(fi);
    lemma_tokens_sum_concat(frozen, fi.reverse());
    lemma_tokens_sum_concat(frozen, s);
    let f2 = frozen + fi.reverse();
    assert((f2 + c2).to_multiset() == f2.to_multiset().add(c2.to_multiset()));
    assert(f2.to_multiset() == frozen.to_multiset().add(fi.reverse().to_multiset()));
    assert((frozen + s).to_multiset() == frozen.to_multiset().add(s.to_multiset()));
    assert((f2 + c2).to_multiset() =~= (frozen + s).to_multiset());
}

/// The token estimate counts every message: in a conversation opened and
/// then changed by any sequence of additions and freezings, the estimate is
/// the sum of the tokens of all its messages.
pub proof fn lemma_token_total(msgs: Seq<ChatMessage>, steps: Seq<ContextStep>)
    ensures
        run_steps(opened(msgs), steps).tokens == tokens_sum(all_messages(run_steps(opened(msgs), steps))),
    decreases steps.len(),
{
    if steps.len() == 0 {
        lemma_split_tokens(msgs);
        lemma_tokens_sum_concat(split_messages(msgs).0, split_messages(msgs).1);
    } else {
        lemma_token_total(msgs, steps.drop_last());
        let v = run_steps(opened(msgs), steps.drop_last());
        lemma_tokens_sum_concat(v.frozen, v.compressible);
        match steps.last() {
            ContextStep::Add(m) => {
                assert(v.compressible.push(m).drop_last() =~= v.compressible);
                lemma_tokens_sum_concat(v.frozen, v.compressible.push(m));
            },
            ContextStep::Freeze => {
                lemma_freeze_parts(v.frozen, v.compressible);
                let w = apply_step(v, ContextStep::Freeze);
                lemma_tokens_sum_concat(w.frozen, w.compressible);
            },
        }
    }
}

/// A conversation opened and then extended by additions only: its messages
/// are its frozen messages, then its other messages, each in their order,
/// then what was added, in order; none is lost or repeated.
pub proof fn lemma_messages_after_adds(msgs: Seq<ChatMessage>, added: Seq<ChatMessage>)
    ensures
        ({
            let w = run_steps(opened(msgs), added.map_values(|m: ChatMessage| ContextStep::Add(m)));
            let all = all_messages(w);
            &&& w.frozen == split_messages(msgs).0
            &&& w.compressible == split_messages(msgs).1 + added
            &&& all == split_messages(msgs).0 + split_messages(msgs).1 + added
            &&& all.len() == msgs.len() + added.len()
            &&& all.to_multiset() == (msgs + added).to_multiset()
        }),
    decreases added.len(),
{
    broadcast use vstd::seq_lib::lemma_multiset_commutative, vstd::seq_lib::group_to_multiset_ensures;
    let steps = added.map_values(|m: ChatMessage| ContextStep::Add(m));
    let (f, c) = split_messages(msgs);
    if added.len() > 0 {
        let p = added.drop_last();
        lemma_messages_after_adds(msgs, p);
        assert(steps.drop_last() =~= p.map_values(|m: ChatMessage| ContextStep::Add(m)));
        let v = run_steps(opened(msgs), steps.drop_last());
        assert(v.compressible == c + p);
        assert(steps.last() == ContextStep::Add(added.last()));
    } else {
        assert(run_steps(opened(msgs), steps) == opened(msgs));
    }
    let all = all_messages(run_steps(opened(msgs), steps));
    assert(run_steps(opened(msgs), steps).frozen == f);
    assert(run_steps(opened(msgs), steps).compressible =~= c + added) by {
        if added.len() > 0 {
            assert((c + added.drop_last()).push(added.last()) =~= c + added);
        }
    }
    assert(all =~= f + c + added);
    lemma_split_keeps_every_message(msgs);
    assert(all.to_multiset() == (f + c).to_multiset().add(added.to_multiset()));
    assert((msgs + added).to_multiset() == msgs.to_multiset().add(added.to_multiset()));
    assert(all.to_multiset().len() == (msgs + added).to_multiset().len());
}

/// Freezing the MCP replies moves messages between the parts without
/// losing or adding any and keeps the estimate; afterwards no compressible
/// message is an MCP reply, the others keep their part and order, and
/// freezing again changes nothing.
pub proof fn lemma_freezing_keeps_every_message(v: ContextView)
    ensures
        ({
            let w = apply_step(v, ContextStep::Freeze);
            &&& all_messages(w).to_multiset() == all_messages(v).to_multiset()
            &&& tokens_sum(all_messages(w)) == tokens_sum(all_messages(v))
            &&& w.tokens == v.tokens
            &&& w.frozen.take(v.frozen.len() as int) == v.frozen
            &&& forall|i: int| 0 <= i < w.compressible.len() ==> !is_important(#[trigger] w.compressible[i])
            &&& w.compressible == v.compressible.filter(|m: ChatMessage| !is_important(m))
            &&& apply_step(w, ContextStep::Freeze) == w
        }),
{
    lemma_freeze_parts(v.frozen, v.compressible);
    let w = apply_step(v, ContextStep::Freeze);
    lemma_tokens_sum_concat(w.frozen, w.compressible);
    lemma_tokens_sum_concat(v.frozen, v.compressible);
    assert(w.frozen.take(v.frozen.len() as int) =~= v.frozen);
    let q = |m: ChatMessage| !is_important(m);
    assert forall|i: int| 0 <= i < w.compressible.len() implies !is_important(#[trigger] w.compressible[i]) by {
        v.compressible.filter_lemma(q);
    }
    let x = apply_step(w, ContextStep::Freeze);
    assert(w.compressible.filter(|m: ChatMessage| is_important(m)).reverse() =~= Seq::<ChatMessage>::empty());
    assert(x.frozen =~= w.frozen);
    assert(x.compressible =~= w.compressible);
}

/// The tool replies of a list, in order.
pub open spec fn tool_replies(s: Seq<ChatMessage>) -> Seq<ChatMessage> {
    s.filter(|m: ChatMessage| is_tool_msg(m))
}

/// The messages of a list that are no tool replies, in order.
pub open spec fn other_messages(s: Seq<ChatMessage>) -> Seq<ChatMessage> {
    s.filter(|m: ChatMessage| !is_tool_msg(m))
}

proof fn lemma_tool_count_is_len(s: Seq<ChatMessage>)
    ensures
        tool_count(s) == tool_replies(s).len(),
    decreases s.len(),
{
    reveal_with_fuel(Seq::filter, 1);
    if s.len() > 0 {
        lemma_tool_count_is_len(s.drop_last());
    }
}

proof fn lemma_drop_first_tools_parts(s: Seq<ChatMessage>, k: nat)
    ensures
        other_messages(drop_first_tools(s, k)) == other_messages(s),
        tool_replies(drop_first_tools(s, k)) == tool_replies(s).skip(
            if k < tool_count(s) { k as int } else { tool_count(s) as int },
        ),
    decreases s.len(),
{
    reveal_with_fuel(Seq::filter, 1);
    lemma_tool_count_is_len(s);
    if s.len() == 0 {
        assert(tool_replies(s).skip(0) =~= tool_replies(s));
    } else {
        let p = s.drop_last();
        let x = s.last();
        lemma_drop_first_tools_parts(p, k);
        lemma_tool_count_is_len(p);
        let d = drop_first_tools(p, k);
        if is_tool_msg(x) && tool_count(p) < k {
            assert(tool_replies(p).skip(tool_count(p) as int) =~= Seq::<ChatMessage>::empty());
            assert(tool_replies(s).skip(tool_count(s) as int) =~= Seq::<ChatMessage>::empty());
        } else {
            assert(d.push(x).drop_last() =~= d);
            if is_tool_msg(x) {
                assert(tool_replies(p).skip(k as int).push(x) =~= tool_replies(p).push(x).skip(k as int));
            }
        }
    }
}

/// Which tool replies compression keeps: of the `k` tool replies of the
/// compressible part, the last `min(k, 10)`, in order; every other message
/// stays, in order.
pub proof fn lemma_old_tool_results_dropped(s: Seq<ChatMessage>)
    ensures
        other_messages(without_old_tool_results(s)) == other_messages(s),
        tool_replies(without_old_tool_results(s)) == tool_replies(s).skip(
            if tool_replies(s).len() > keep_tool_results() {
                tool_replies(s).len() - keep_tool_results()
            } else {
                0
            },
        ),
{
    lemma_tool_count_is_len(s);
    if tool_count(s) > keep_tool_results() {
        lemma_drop_first_tools_parts(s, (tool_count(s) - keep_tool_results()) as nat);
    } else {
        assert(tool_replies(s).skip(0) =~= tool_replies(s));
    }
}

/// Freezing moves only MCP replies: a compressible message that is a tool
/// reply whose tool name starts with `mcp_` goes to the frozen part and
/// leaves the compressible one; every other message, such as the reply of
/// `web_search` or `run_command`, stays compressible.
pub proof fn lemma_only_mcp_replies_are_frozen(v: ContextView, m: ChatMessage)
    requires
        v.compressible.contains(m),
    ensures
        (m.role@ == "tool"@ && m.name is Some && has_prefix(m.name.unwrap()@, "mcp_"@)) ==> apply_step(
            v,
            ContextStep::Freeze,
        ).frozen.contains(m) && !apply_step(v, ContextStep::Freeze).compressible.contains(m),
        !(m.role@ == "tool"@ && m.name is Some && has_prefix(m.name.unwrap()@, "mcp_"@)) ==> apply_step(
            v,
            ContextStep::Freeze,
        ).compressible.contains(m),
{
    let p = |x: ChatMessage| is_important(x);
    let q = |x: ChatMessage| !is_important(x);
    let w = apply_step(v, ContextStep::Freeze);
    let k = choose|k: int| 0 <= k < v.compressible.len() && v.compressible[k] == m;
    if is_important(m) {
        v.compressible.lemma_filter_contains(p, k);
        let f = v.compressible.filter(p);
        let j = choose|j: int| 0 <= j < f.len() && f[j] == m;
        assert(f.reverse()[f.len() - 1 - j] == m);
        assert(w.frozen[v.frozen.len() + (f.len() - 1 - j)] == m);
        if w.compressible.contains(m) {
            let g = v.compressible.filter(q);
            let t = choose|t: int| 0 <= t < g.len() && g[t] == m;
            v.compressible.lemma_filter_pred(q, t);
        }
    } else {
        v.compressible.lemma_filter_contains(q, k);
    }
}

} // verus!
