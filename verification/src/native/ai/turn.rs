//! One streamed turn of the model, event by event: what each event of the
//! stream shows the user, what it stores, and when the turn is over.
//!
//! The driver reads the stream and hands each event to `turn_step`; it
//! performs the actions that come back, in order, until the turn ends.

use vstd::prelude::*;
use crate::native::ai::accumulate::{absorb_seq, calls_of, DraftView, ToolCallAccumulator};
use crate::native::ai::provider::ToolCallDelta;
use crate::native::ai::stream::{provider_error_message, provider_error_text};
use crate::native::ai::tools::ToolCall;
use crate::text::{is_empty_text, owned, push_str};

verus! {

/// What the stream of a turn brings next, as the driver sees it.
pub enum StreamEvent {
    /// The user cancelled the turn.
    Cancelled,
    /// No event came for 30 seconds.
    TimedOut,
    /// The connection opened.
    Opened,
    /// The `[DONE]` message.
    Done,
    /// The first choice of a delta message: its tool-call fragments, its
    /// reasoning and its content.
    Delta { tool_calls: Vec<ToolCallDelta>, reasoning: Option<String>, content: Option<String> },
    /// A message that is no delta, or holds no choice.
    Ignored,
    /// The stream failed, with this error text.
    Failed(String),
    /// The stream closed without `[DONE]`.
    Closed,
}

/// A stream event over plain values.
pub enum EventView {
    Cancelled,
    TimedOut,
    Opened,
    Done,
    Delta { tool_calls: Seq<ToolCallDelta>, reasoning: Option<Seq<char>>, content: Option<Seq<char>> },
    Ignored,
    Failed(Seq<char>),
    Closed,
}

pub open spec fn opt_text(o: Option<String>) -> Option<Seq<char>> {
    match o {
        Some(t) => Some(t@),
        None => None,
    }
}

impl StreamEvent {
    pub open spec fn view(&self) -> EventView {
        match self {
            StreamEvent::Cancelled => EventView::Cancelled,
            StreamEvent::TimedOut => EventView::TimedOut,
            StreamEvent::Opened => EventView::Opened,
            StreamEvent::Done => EventView::Done,
            StreamEvent::Delta { tool_calls, reasoning, content } => EventView::Delta {
                tool_calls: tool_calls@,
                reasoning: opt_text(*reasoning),
                content: opt_text(*content),
            },
            StreamEvent::Ignored => EventView::Ignored,
            StreamEvent::Failed(e) => EventView::Failed(e@),
            StreamEvent::Closed => EventView::Closed,
        }
    }
}

/// What the driver does for an event.
pub enum SinkAction {
    /// Shows a chunk: its text, whether it is reasoning, and whether the
    /// answer is complete.
    Chunk { text: String, thinking: bool, done: bool },
    /// Appends text to the stored message: to its reasoning or its content.
    Save { text: String, thinking: bool },
    /// Shows an error message.
    Error(String),
}

/// An action over plain values.
pub enum ActionView {
    Chunk { text: Seq<char>, thinking: bool, done: bool },
    Save { text: Seq<char>, thinking: bool },
    Error(Seq<char>),
}

impl SinkAction {
    pub open spec fn view(&self) -> ActionView {
        match self {
            SinkAction::Chunk { text, thinking, done } => ActionView::Chunk {
                text: text@,
                thinking: *thinking,
                done: *done,
            },
            SinkAction::Save { text, thinking } => ActionView::Save { text: text@, thinking: *thinking },
            SinkAction::Error(m) => ActionView::Error(m@),
        }
    }
}

pub open spec fn actions_view(v: Seq<SinkAction>) -> Seq<ActionView> {
    v.map_values(|a: SinkAction| a.view())
}

/// How a turn stands after an event.
pub enum TurnEnd {
    /// The turn goes on.
    Running,
    /// The turn is over and asked for these calls.
    Calls(Vec<ToolCall>),
    /// The turn failed with this provider error.
    Failed(String),
}

/// What a turn has received so far.
pub struct TurnState {
    /// The tool calls assembled from the fragments.
    pub calls: ToolCallAccumulator,
    /// Whether a reasoning chunk was shown.
    pub thinking_started: bool,
    /// The endpoint, for error messages.
    pub api_url: String,
    /// The model, for error messages.
    pub model_id: String,
}

impl TurnState {
    pub open spec fn wf(&self) -> bool {
        self.calls.wf()
    }

    /// A turn that has received nothing.
    pub fn new(api_url: String, model_id: String) -> (r: Self)
        ensures
            r.wf(),
            r.calls.view() == Seq::<(usize, DraftView)>::empty(),
            !r.thinking_started,
            r.api_url == api_url,
            r.model_id == model_id,
    {
        TurnState { calls: ToolCallAccumulator::new(), thinking_started: false, api_url, model_id }
    }
}

pub open spec fn chunk(text: Seq<char>, thinking: bool, done: bool) -> ActionView {
    ActionView::Chunk { text, thinking, done }
}

/// The chunk that tells the user the answer is complete.
pub open spec fn done_chunk() -> ActionView {
    chunk(Seq::empty(), false, true)
}

/// At the end of a stream that brought no `[DONE]`: the closing chunk,
/// unless a call was begun.
pub open spec fn close_actions(no_calls: bool) -> Seq<ActionView> {
    if no_calls {
        seq![done_chunk()]
    } else {
        Seq::empty()
    }
}

/// Reasoning text: an empty reasoning chunk first where none was shown yet,
/// then the text shown and stored as reasoning.
pub open spec fn reasoning_actions(started: bool, t: Seq<char>) -> Seq<ActionView> {
    if t.len() == 0 {
        Seq::empty()
    } else {
        (if started {
            Seq::empty()
        } else {
            seq![chunk(Seq::empty(), true, false)]
        }) + seq![chunk(t, true, false), ActionView::Save { text: t, thinking: true }]
    }
}

/// Content text: shown and stored as content.
pub open spec fn content_actions(c: Seq<char>) -> Seq<ActionView> {
    if c.len() == 0 {
        Seq::empty()
    } else {
        seq![chunk(c, false, false), ActionView::Save { text: c, thinking: false }]
    }
}

pub open spec fn text_or_empty(o: Option<Seq<char>>) -> Seq<char> {
    match o {
        Some(t) => t,
        None => Seq::empty(),
    }
}

/// Whether an event shows reasoning text.
pub open spec fn shows_reasoning(ev: EventView) -> bool {
    match ev {
        EventView::Delta { reasoning, .. } => text_or_empty(reasoning).len() > 0,
        _ => false,
    }
}

/// The actions for an event, given whether reasoning was shown, whether no
/// call was begun, and the endpoint and model.
pub open spec fn step_actions(
    started: bool,
    no_calls: bool,
    api_url: Seq<char>,
    model: Seq<char>,
    ev: EventView,
) -> Seq<ActionView> {
    match ev {
        EventView::Cancelled => seq![done_chunk()] + close_actions(no_calls),
        EventView::TimedOut => seq![done_chunk()],
        EventView::Opened => Seq::empty(),
        EventView::Done => seq![chunk(Seq::empty(), false, no_calls)],
        EventView::Delta { tool_calls, reasoning, content } => reasoning_actions(
            started,
            text_or_empty(reasoning),
        ) + content_actions(text_or_empty(content)),
        EventView::Ignored => Seq::empty(),
        EventView::Failed(e) => seq![ActionView::Error(provider_error_text(e, api_url, model)), done_chunk()],
        EventView::Closed => close_actions(no_calls),
    }
}

/// The calls after an event.
pub open spec fn step_calls(ds: Seq<(usize, DraftView)>, ev: EventView) -> Seq<(usize, DraftView)> {
    match ev {
        EventView::Delta { tool_calls, .. } => absorb_seq(ds, tool_calls),
        _ => ds,
    }
}

/// How the turn stands after an event: it goes on after the opening, a
/// delta or an ignored message; it ends with the complete calls on
/// `[DONE]`, a cancel or a close; it fails on a timeout or a stream error.
pub open spec fn end_ok(r: TurnEnd, ds: Seq<(usize, DraftView)>, ev: EventView) -> bool {
    match ev {
        EventView::Opened | EventView::Delta { .. } | EventView::Ignored => r is Running,
        EventView::Cancelled | EventView::Done | EventView::Closed => match r {
            TurnEnd::Calls(v) => calls_of(v@, ds),
            _ => false,
        },
        EventView::TimedOut => match r {
            TurnEnd::Failed(m) => m@ == "Response timeout (30s)"@,
            _ => false,
        },
        EventView::Failed(e) => match r {
            TurnEnd::Failed(m) => m@ == "Stream error: "@ + e,
            _ => false,
        },
    }
}

fn empty_text() -> (r: String)
    ensures
        r@ == Seq::<char>::empty(),
{
    String::new()
}

/// Handles one event of a turn's stream: updates the turn, and returns the
/// actions for the driver, in order, and how the turn stands.
pub fn turn_step(s: &mut TurnState, ev: StreamEvent) -> (r: (Vec<SinkAction>, TurnEnd))
    requires
        old(s).wf(),
    ensures
        final(s).wf(),
        final(s).api_url == old(s).api_url,
        final(s).model_id == old(s).model_id,
        final(s).calls.view() == step_calls(old(s).calls.view(), ev.view()),
        final(s).thinking_started == (old(s).thinking_started || shows_reasoning(ev.view())),
        actions_view(r.0@) == step_actions(
            old(s).thinking_started,
            old(s).calls.view().len() == 0,
            old(s).api_url@,
            old(s).model_id@,
            ev.view(),
        ),
        end_ok(r.1, old(s).calls.view(), ev.view()),
{
    let ghost ev_view = ev.view();
    let mut acts: Vec<SinkAction> = Vec::new();
    let no_calls = s.calls.is_empty();
    match ev {
        StreamEvent::Cancelled => {
            acts.push(SinkAction::Chunk { text: empty_text(), thinking: false, done: true });
            if no_calls {
                acts.push(SinkAction::Chunk { text: empty_text(), thinking: false, done: true });
            }
            let calls = s.calls.tool_calls();
            assert(actions_view(acts@) =~= step_actions(
                s.thinking_started,
                no_calls,
                s.api_url@,
                s.model_id@,
                ev_view,
            ));
            (acts, TurnEnd::Calls(calls))
        },
        StreamEvent::TimedOut => {
            acts.push(SinkAction::Chunk { text: empty_text(), thinking: false, done: true });
            assert(actions_view(acts@) =~= seq![done_chunk()]);
            (acts, TurnEnd::Failed(owned("Response timeout (30s)")))
        },
        StreamEvent::Opened => {
            assert(actions_view(acts@) =~= Seq::<ActionView>::empty());
            (acts, TurnEnd::Running)
        },
        StreamEvent::Ignored => {
            assert(actions_view(acts@) =~= Seq::<ActionView>::empty());
            (acts, TurnEnd::Running)
        },
        StreamEvent::Done => {
            acts.push(SinkAction::Chunk { text: empty_text(), thinking: false, done: no_calls });
            assert(actions_view(acts@) =~= seq![chunk(Seq::empty(), false, no_calls)]);
            (acts, TurnEnd::Calls(s.calls.tool_calls()))
        },
        StreamEvent::Closed => {
            if no_calls {
                acts.push(SinkAction::Chunk { text: empty_text(), thinking: false, done: true });
            }
            assert(actions_view(acts@) =~= close_actions(no_calls));
            (acts, TurnEnd::Calls(s.calls.tool_calls()))
        },
        StreamEvent::Failed(e) => {
            let message = provider_error_message(e.as_str(), s.api_url.as_str(), s.model_id.as_str());
            acts.push(SinkAction::Error(message));
            acts.push(SinkAction::Chunk { text: empty_text(), thinking: false, done: true });
            assert(actions_view(acts@) =~= step_actions(
                s.thinking_started,
                no_calls,
                s.api_url@,
                s.model_id@,
                ev_view,
            ));
            let mut m = owned("Stream error: ");
            push_str(&mut m, e.as_str());
            (acts, TurnEnd::Failed(m))
        },
        StreamEvent::Delta { tool_calls, reasoning, content } => {
            let ghost rv = opt_text(reasoning);
            let ghost cv = opt_text(content);
            s.calls.absorb_all(&tool_calls);
            let ghost started = s.thinking_started;
            match reasoning {
                Some(t) => {
                    if !is_empty_text(t.as_str()) {
                        if !s.thinking_started {
                            s.thinking_started = true;
                            acts.push(SinkAction::Chunk { text: empty_text(), thinking: true, done: false });
                        }
                        let shown = owned(t.as_str());
                        acts.push(SinkAction::Chunk { text: shown, thinking: true, done: false });
                        acts.push(SinkAction::Save { text: t, thinking: true });
                    }
                },
                None => {},
            }
            let ghost after_reasoning = acts@;
            assert(actions_view(after_reasoning) =~= reasoning_actions(
                started,
                text_or_empty(rv),
            ));
            match content {
                Some(c) => {
                    if !is_empty_text(c.as_str()) {
                        let shown = owned(c.as_str());
                        acts.push(SinkAction::Chunk { text: shown, thinking: false, done: false });
                        acts.push(SinkAction::Save { text: c, thinking: false });
                    }
                },
                None => {},
            }
            assert(actions_view(acts@) =~= actions_view(after_reasoning) + content_actions(
                text_or_empty(cv),
            ));
            (acts, TurnEnd::Running)
        },
    }
}

} // verus!
