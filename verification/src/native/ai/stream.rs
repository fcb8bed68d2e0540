//! Decisions of the agent loop: repeated-call detection, the iteration limit,
//! the nudge messages, and the accumulation of streamed tool-call fragments.

use vstd::prelude::*;
use crate::native::ai::provider::ChatMessage;
use crate::native::ai::tools::ToolCall;
use crate::native::ai::context_manager::{compression_ok, tokens_ok, tokens_sum, truncated_all, without_old_tool_results, ContextManager};
use crate::text::{owned, push_str, str_eq};

verus! {

/// Upper limit on agent-loop iterations.
pub open spec fn max_iterations() -> nat {
    30
}

/// What the agent loop does with the tool calls of a model turn.
#[derive(Debug, Clone, Copy, PartialEq, Eq, Structural)]
pub enum LoopAction {
    /// No tool call: the loop is done.
    Finish,
    /// Execute the tool calls.
    ExecuteTools,
    /// The same calls came again: add the nudge messages and start another turn.
    NudgeAndRetry,
    /// The same calls came again too often: add the nudge messages and stop.
    NudgeAndStop,
}

/// Abstract state of the agent loop.
pub struct LoopView {
    pub iteration: nat,
    pub repeat_count: nat,
    pub last_signatures: Seq<Seq<char>>,
    pub finished: bool,
}

/// The state before the first turn.
pub open spec fn loop_init() -> LoopView {
    LoopView { iteration: 0, repeat_count: 0, last_signatures: Seq::empty(), finished: false }
}

/// A turn begins: the iteration count grows.
pub open spec fn begin_step(s: LoopView) -> LoopView {
    LoopView { iteration: s.iteration + 1, ..s }
}

/// The iteration whose state is saved before a turn, from the third turn on.
pub open spec fn checkpoint_step(s: LoopView) -> Option<nat> {
    if s.iteration >= 3 {
        Some((s.iteration - 1) as nat)
    } else {
        None
    }
}

/// The model answered with tool calls of the given signatures (none if it
/// called no tool).
pub open spec fn decide_step(s: LoopView, sigs: Seq<Seq<char>>) -> (LoopView, LoopAction) {
    if sigs.len() == 0 {
        (LoopView { finished: true, ..s }, LoopAction::Finish)
    } else if sigs == s.last_signatures {
        let rc = s.repeat_count + 1;
        if rc >= 3 {
            (LoopView { repeat_count: rc, finished: true, ..s }, LoopAction::NudgeAndStop)
        } else if rc >= 2 {
            (LoopView { repeat_count: rc, ..s }, LoopAction::NudgeAndRetry)
        } else {
            (LoopView { repeat_count: rc, ..s }, LoopAction::ExecuteTools)
        }
    } else {
        (LoopView { repeat_count: 0, last_signatures: sigs, ..s }, LoopAction::ExecuteTools)
    }
}

/// The tools were executed; a rollback skips the iteration limit for this turn.
pub open spec fn after_tools_step(s: LoopView, rolled_back: bool) -> LoopView {
    if !rolled_back && s.iteration >= max_iterations() {
        LoopView { finished: true, ..s }
    } else {
        s
    }
}

/// A whole turn: begin, decide, and, where the calls are executed, the check after them.
pub open spec fn turn(s: LoopView, sigs: Seq<Seq<char>>, rolled_back: bool) -> (LoopView, LoopAction) {
    let (d, a) = decide_step(begin_step(s), sigs);
    if a == LoopAction::ExecuteTools {
        (after_tools_step(d, rolled_back), a)
    } else {
        (d, a)
    }
}

/// The repeat counter never passes two while the loop runs.
pub open spec fn loop_wf(s: LoopView) -> bool {
    !s.finished ==> s.repeat_count <= 2
}

/// States the loop reaches when no turn rolls back: between turns it is below
/// the iteration limit, or exactly at it right after a nudge.
pub open spec fn within_limit(s: LoopView) -> bool {
    &&& s.iteration <= max_iterations() + 1
    &&& !s.finished ==> (s.iteration < max_iterations() || (s.iteration == max_iterations()
        && s.repeat_count == 2))
}

/// Without rollbacks the loop never runs more than one turn past the
/// iteration limit: the initial state is within the limit, and every turn
/// from a running state within the limit stays within it.
pub proof fn lemma_turns_stay_within_limit(s: LoopView, sigs: Seq<Seq<char>>)
    requires
        within_limit(s),
        loop_wf(s),
        !s.finished,
    ensures
        within_limit(loop_init()),
        within_limit(turn(s, sigs, false).0),
        loop_wf(turn(s, sigs, false).0),
        turn(s, sigs, false).0.iteration <= max_iterations() + 1,
{
}

/// A turn in which the model calls no tool ends the loop.
pub proof fn lemma_no_tool_call_finishes(s: LoopView, rolled_back: bool)
    ensures
        turn(s, Seq::empty(), rolled_back) == (LoopView { iteration: s.iteration + 1, finished: true, ..s }, LoopAction::Finish),
{
}

/// The same non-empty list of calls is never executed in three consecutive
/// turns: the third time the model is nudged instead, and if it asks for the
/// same calls a fourth time the loop stops.
pub proof fn lemma_repeated_turns_are_nudged_then_stopped(
    s: LoopView,
    sigs: Seq<Seq<char>>,
    rb1: bool,
    rb2: bool,
    rb3: bool,
    rb4: bool,
)
    requires
        loop_wf(s),
        !s.finished,
        sigs.len() > 0,
        turn(s, sigs, rb1).1 == LoopAction::ExecuteTools,
        !turn(s, sigs, rb1).0.finished,
        turn(turn(s, sigs, rb1).0, sigs, rb2).1 == LoopAction::ExecuteTools,
        !turn(turn(s, sigs, rb1).0, sigs, rb2).0.finished,
    ensures
        turn(turn(turn(s, sigs, rb1).0, sigs, rb2).0, sigs, rb3).1 == LoopAction::NudgeAndRetry,
        !turn(turn(turn(s, sigs, rb1).0, sigs, rb2).0, sigs, rb3).0.finished,
        turn(turn(turn(turn(s, sigs, rb1).0, sigs, rb2).0, sigs, rb3).0, sigs, rb4).1 == LoopAction::NudgeAndStop,
        turn(turn(turn(turn(s, sigs, rb1).0, sigs, rb2).0, sigs, rb3).0, sigs, rb4).0.finished,
{
}

/// Views of a list of strings.
pub open spec fn string_views(v: Seq<String>) -> Seq<Seq<char>> {
    v.map_values(|s: String| s@)
}

/// Repeated-call detection and iteration limit of the agent loop.
pub struct AgentLoop {
    iteration: u32,
    repeat_count: u32,
    last_signatures: Vec<String>,
    finished: bool,
}

impl AgentLoop {
    /// The abstract state.
    pub closed spec fn view(&self) -> LoopView {
        LoopView {
            iteration: self.iteration as nat,
            repeat_count: self.repeat_count as nat,
            last_signatures: string_views(self.last_signatures@),
            finished: self.finished,
        }
    }

    /// A loop before its first turn.
    pub fn new() -> (r: Self)
        ensures
            r.view() == loop_init(),
    {
        let r = AgentLoop { iteration: 0, repeat_count: 0, last_signatures: Vec::new(), finished: false };
        assert(string_views(Seq::<String>::empty()) =~= Seq::<Seq<char>>::empty());
        r
    }

    /// Whether the loop has stopped.
    pub fn is_finished(&self) -> (r: bool)
        ensures
            r == self.view().finished,
    {
        self.finished
    }

    /// Iterations begun so far.
    pub fn iteration(&self) -> (r: u32)
        ensures
            r == self.view().iteration,
    {
        self.iteration
    }

    fn same_signatures(last: &Vec<String>, sigs: &Vec<String>) -> (r: bool)
        ensures
            r == (string_views(last@) == string_views(sigs@)),
    {
        if last.len() != sigs.len() {
            proof {
                assert(string_views(last@).len() != string_views(sigs@).len());
            }
            return false;
        }
        let mut i: usize = 0;
        while i < last.len()
            invariant
                0 <= i <= last.len(),
                last.len() == sigs.len(),
                forall|j: int| 0 <= j < i ==> last@[j]@ == sigs@[j]@,
            decreases last.len() - i,
        {
            if !str_eq(last[i].as_str(), sigs[i].as_str()) {
                proof {
                    assert(string_views(last@)[i as int] != string_views(sigs@)[i as int]);
                }
                return false;
            }
            i = i + 1;
        }
        assert(string_views(last@) =~= string_views(sigs@));
        true
    }

    /// Begins a turn; returns the iteration whose state is to be saved as a
    /// checkpoint before the model is asked, if any.
    pub fn begin_turn(&mut self) -> (r: Option<u32>)
        requires
            !old(self).view().finished,
            old(self).view().iteration < u32::MAX,
        ensures
            final(self).view() == begin_step(old(self).view()),
            match r {
                Some(i) => checkpoint_step(final(self).view()) == Some(i as nat),
                None => checkpoint_step(final(self).view()) is None,
            },
    {
        self.iteration = self.iteration + 1;
        if self.iteration >= 3 {
            Some(self.iteration - 1)
        } else {
            None
        }
    }

    /// Decides what to do with the tool calls of the turn, given their
    /// signatures (empty when the model called no tool).
    pub fn on_tool_calls(&mut self, signatures: Vec<String>) -> (r: LoopAction)
        requires
            !old(self).view().finished,
            loop_wf(old(self).view()),
        ensures
            (final(self).view(), r) == decide_step(old(self).view(), string_views(signatures@)),
            loop_wf(final(self).view()),
    {
        if signatures.len() == 0 {
            self.finished = true;
            return LoopAction::Finish;
        }
        if Self::same_signatures(&self.last_signatures, &signatures) {
            self.repeat_count = self.repeat_count + 1;
            if self.repeat_count >= 3 {
                self.finished = true;
                LoopAction::NudgeAndStop
            } else if self.repeat_count >= 2 {
                LoopAction::NudgeAndRetry
            } else {
                LoopAction::ExecuteTools
            }
        } else {
            self.repeat_count = 0;
            self.last_signatures = signatures;
            LoopAction::ExecuteTools
        }
    }

    /// After the tools of the turn ran; returns whether the loop goes on.
    pub fn after_tools(&mut self, rolled_back: bool) -> (r: bool)
        requires
            loop_wf(old(self).view()),
        ensures
            final(self).view() == after_tools_step(old(self).view(), rolled_back),
            r == !final(self).view().finished,
            loop_wf(final(self).view()),
    {
        if !rolled_back && self.iteration >= 30 {
            self.finished = true;
        }
        !self.finished
    }
}

/// Text of the message that answers a repeated call in place of its result.
pub open spec fn nudge_text(name: Seq<char>) -> Seq<char> {
    "[系统提示] 工具 '"@ + name + "' 已在之前的迭代中成功执行过。请勿重复调用，直接根据已有结果回答。"@
}

/// Text of the user message that closes a nudge.
pub open spec fn closing_nudge_text() -> Seq<char> {
    "[系统] 你已拥有足够的工具执行结果，请直接回答用户的问题。"@
}

/// The messages added when the model repeats its calls: one tool message per
/// call, then a user message asking for the answer.
pub fn nudge_messages(calls: &Vec<ToolCall>) -> (r: Vec<ChatMessage>)
    ensures
        r.len() == calls.len() + 1,
        forall|i: int|
            0 <= i < calls.len() ==> {
                &&& (#[trigger] r@[i]).role@ == "tool"@
                &&& r@[i].content@ == nudge_text(calls@[i].name@)
                &&& r@[i].name == Some(calls@[i].name)
                &&& r@[i].tool_call_id == Some(calls@[i].id)
            },
        r@[calls.len() as int].role@ == "user"@,
        r@[calls.len() as int].content@ == closing_nudge_text(),
        r@[calls.len() as int].name is None,
        r@[calls.len() as int].tool_call_id is None,
{
    let mut r: Vec<ChatMessage> = Vec::new();
    let mut i: usize = 0;
    while i < calls.len()
        invariant
            0 <= i <= calls.len(),
            r.len() == i,
            forall|j: int|
                0 <= j < i ==> {
                    &&& (#[trigger] r@[j]).role@ == "tool"@
                    &&& r@[j].content@ == nudge_text(calls@[j].name@)
                    &&& r@[j].name == Some(calls@[j].name)
                    &&& r@[j].tool_call_id == Some(calls@[j].id)
                },
        decreases calls.len() - i,
    {
        let mut content = owned("[系统提示] 工具 '");
        push_str(&mut content, calls[i].name.as_str());
        push_str(&mut content, "' 已在之前的迭代中成功执行过。请勿重复调用，直接根据已有结果回答。");
        let msg = ChatMessage {
            role: owned("tool"),
            content,
            name: Some(calls[i].name.clone()),
            tool_call_id: Some(calls[i].id.clone()),
        };
        r.push(msg);
        i = i + 1;
    }
    r.push(ChatMessage::plain("user", owned("[系统] 你已拥有足够的工具执行结果，请直接回答用户的问题。")));
    r
}

/// Token budget of the loop that manages its context.
pub open spec fn token_budget() -> nat {
    100000
}

/// Tokens to which the context is compressed: 80% of the budget.
pub open spec fn compression_target() -> nat {
    80000
}

/// Before a turn of the loop that manages its context: stops (returns
/// `false`, context unchanged) when the estimate exceeds the budget;
/// otherwise compresses the context to the target where it exceeds it and
/// returns `true`.
pub fn prepare_context(ctx: &mut ContextManager) -> (r: bool)
    requires
        old(ctx).current_tokens > compression_target() ==> compression_ok(
            old(ctx).frozen_messages@,
            old(ctx).compressible_messages@,
        ),
    ensures
        r == (old(ctx).current_tokens <= token_budget()),
        (!r || old(ctx).current_tokens <= compression_target()) ==> *final(ctx) == *old(ctx),
        r && old(ctx).current_tokens > compression_target() ==> {
            &&& final(ctx).frozen_messages == old(ctx).frozen_messages
            &&& truncated_all(
                without_old_tool_results(old(ctx).compressible_messages@),
                final(ctx).compressible_messages@,
            )
            &&& final(ctx).current_tokens == tokens_sum(final(ctx).frozen_messages@) + tokens_sum(
                final(ctx).compressible_messages@,
            )
        },
        tokens_ok(*old(ctx)) ==> tokens_ok(*final(ctx)),
{
    if ctx.estimate_tokens() > 100000 {
        return false;
    }
    ctx.compress_if_needed(80000);
    true
}

/// The system prompt of a title request of the native module.
pub open spec fn title_prompt_text() -> Seq<char> {
    "你是一个标题生成器。根据用户的消息，生成一个简短的对话标题（不超过20个字）。只返回标题文本，不要加引号或其他格式。"@
}

/// The messages that ask the model for the title of a conversation that
/// starts with `content`.
pub fn title_messages(content: &str) -> (r: Vec<ChatMessage>)
    ensures
        r.len() == 2,
        r@[0].role@ == "system"@ && r@[0].content@ == title_prompt_text(),
        r@[1].role@ == "user"@ && r@[1].content@ == content@,
{
    let mut r: Vec<ChatMessage> = Vec::new();
    r.push(ChatMessage::plain("system", owned("你是一个标题生成器。根据用户的消息，生成一个简短的对话标题（不超过20个字）。只返回标题文本，不要加引号或其他格式。")));
    r.push(ChatMessage::plain("user", owned(content)));
    r
}

/// Number of failed tool calls in one turn from which the loop rolls back to
/// the last checkpoint.
pub fn should_roll_back(failed_tools: usize) -> (r: bool)
    ensures
        r == (failed_tools >= 3),
{
    failed_tools >= 3
}

/// The signature of a tool call, `name(arguments)`, by which repeated calls are detected.
pub fn tool_signature(name: &str, arguments_json: &str) -> (r: String)
    ensures
        r@ == name@ + "("@ + arguments_json@ + ")"@,
{
    let mut r = owned(name);
    push_str(&mut r, "(");
    push_str(&mut r, arguments_json);
    push_str(&mut r, ")");
    r
}

/// The message shown when the model's stream fails: the error, then what to
/// check.
pub open spec fn provider_error_text(error: Seq<char>, api_url: Seq<char>, model: Seq<char>) -> Seq<char> {
    "AI 服务错误: "@ + error + "\n\n请检查:\n1. 网络连接\n2. API Key\n3. Base URL: "@ + api_url + "\n4. 模型: "@ + model
}

/// Writes the message shown when the model's stream fails.
pub fn provider_error_message(error: &str, api_url: &str, model: &str) -> (r: String)
    ensures
        r@ == provider_error_text(error@, api_url@, model@),
{
    let mut r = owned("AI 服务错误: ");
    push_str(&mut r, error);
    push_str(&mut r, "\n\n请检查:\n1. 网络连接\n2. API Key\n3. Base URL: ");
    push_str(&mut r, api_url);
    push_str(&mut r, "\n4. 模型: ");
    push_str(&mut r, model);
    r
}

} // verus!
