//! Assembly of tool calls from the fragments of a streamed response.
//!
//! Fragments carry the index of the call they belong to; fragments of one
//! index are merged in the order in which they arrive.

use vstd::prelude::*;
use crate::native::ai::provider::{copy_opt, FunctionDelta, ToolCallDelta};
use crate::native::ai::tools::{arguments_value, json_string, parse_json, ToolCall};
use crate::text::{is_empty_text, push_str};

verus! {

/// What has been received of one tool call.
pub struct DraftView {
    pub id: Option<Seq<char>>,
    pub call_type: Option<Seq<char>>,
    pub has_function: bool,
    pub name: Option<Seq<char>>,
    pub arguments: Option<Seq<char>>,
}

/// A call of which nothing has been received yet.
pub open spec fn empty_draft() -> DraftView {
    DraftView { id: None, call_type: None, has_function: false, name: None, arguments: None }
}

/// The view of an optional string.
pub open spec fn opt_view(o: Option<String>) -> Option<Seq<char>> {
    match o {
        Some(s) => Some(s@),
        None => None,
    }
}

/// A fragment's text replaces the current one only where it is not empty.
pub open spec fn keep_unless_nonempty(cur: Option<Seq<char>>, new: Option<String>) -> Option<Seq<char>> {
    match new {
        Some(s) => if s@.len() > 0 {
            Some(s@)
        } else {
            cur
        },
        None => cur,
    }
}

/// The argument text a fragment adds to its call, if any.
pub open spec fn argument_fragment(t: ToolCallDelta) -> Option<Seq<char>> {
    match t.function {
        Some(f) => opt_view(f.arguments),
        None => None,
    }
}

/// Merges one fragment into the call it belongs to: a non-empty id or name
/// replaces the earlier one, a type replaces the earlier one, and argument
/// text is appended.
pub open spec fn apply_fragment(d: DraftView, t: ToolCallDelta) -> DraftView {
    DraftView {
        id: keep_unless_nonempty(d.id, t.id),
        call_type: match t.call_type {
            Some(c) => Some(c@),
            None => d.call_type,
        },
        has_function: d.has_function || t.function is Some,
        name: match t.function {
            Some(f) => keep_unless_nonempty(d.name, f.name),
            None => d.name,
        },
        arguments: match argument_fragment(t) {
            Some(a) => Some(
                match d.arguments {
                    Some(e) => e,
                    None => Seq::empty(),
                } + a,
            ),
            None => d.arguments,
        },
    }
}

/// Whether a call with the given index has been started.
pub open spec fn has_index(ds: Seq<(usize, DraftView)>, k: usize) -> bool {
    exists|p: int| 0 <= p < ds.len() && ds[p].0 == k
}

/// Position of the call with the given index.
pub open spec fn position_of(ds: Seq<(usize, DraftView)>, k: usize) -> int {
    choose|p: int| 0 <= p < ds.len() && ds[p].0 == k
}

/// The call with the given index, if it has been started.
pub open spec fn draft_at(ds: Seq<(usize, DraftView)>, k: usize) -> Option<DraftView> {
    if has_index(ds, k) {
        Some(ds[position_of(ds, k)].1)
    } else {
        None
    }
}

/// No index occurs twice.
pub open spec fn distinct_indices(ds: Seq<(usize, DraftView)>) -> bool {
    forall|i: int, j: int| 0 <= i < j < ds.len() ==> ds[i].0 != ds[j].0
}

/// Merges one fragment: into the call with its index where there is one,
/// else into a new call placed last.
pub open spec fn absorb_one(ds: Seq<(usize, DraftView)>, t: ToolCallDelta) -> Seq<(usize, DraftView)> {
    if has_index(ds, t.index) {
        let p = position_of(ds, t.index);
        ds.update(p, (t.index, apply_fragment(ds[p].1, t)))
    } else {
        ds.push((t.index, apply_fragment(empty_draft(), t)))
    }
}

/// Merges fragments in order.
pub open spec fn absorb_seq(ds: Seq<(usize, DraftView)>, ts: Seq<ToolCallDelta>) -> Seq<(usize, DraftView)>
    decreases ts.len(),
{
    if ts.len() == 0 {
        ds
    } else {
        absorb_one(absorb_seq(ds, ts.drop_last()), ts.last())
    }
}

/// The argument texts sent for the call with index `k`, in order.
pub open spec fn argument_fragments(ts: Seq<ToolCallDelta>, k: usize) -> Seq<Seq<char>>
    decreases ts.len(),
{
    if ts.len() == 0 {
        Seq::empty()
    } else {
        let prev = argument_fragments(ts.drop_last(), k);
        if ts.last().index == k && argument_fragment(ts.last()) is Some {
            prev.push(argument_fragment(ts.last()).unwrap())
        } else {
            prev
        }
    }
}

/// Merging a fragment keeps indices distinct and touches only its own call.
pub proof fn lemma_absorb_one(ds: Seq<(usize, DraftView)>, t: ToolCallDelta, k: usize)
    requires
        distinct_indices(ds),
    ensures
        distinct_indices(absorb_one(ds, t)),
        draft_at(absorb_one(ds, t), k) == if k == t.index {
            Some(
                apply_fragment(
                    match draft_at(ds, k) {
                        Some(d) => d,
                        None => empty_draft(),
                    },
                    t,
                ),
            )
        } else {
            draft_at(ds, k)
        },
{
    let r = absorb_one(ds, t);
    if has_index(ds, t.index) {
        let p = position_of(ds, t.index);
        assert(0 <= p < ds.len() && ds[p].0 == t.index);
        assert forall|i: int, j: int| 0 <= i < j < r.len() implies r[i].0 != r[j].0 by {
            assert(r[i].0 == ds[i].0);
            assert(r[j].0 == ds[j].0);
        }
        if has_index(r, k) {
            let q = position_of(r, k);
            assert(r[q].0 == ds[q].0);
            assert(has_index(ds, k));
            let q0 = position_of(ds, k);
            assert(q == q0);
        } else {
            if has_index(ds, k) {
                let q0 = position_of(ds, k);
                assert(r[q0].0 == k);
            }
        }
    } else {
        assert forall|i: int, j: int| 0 <= i < j < r.len() implies r[i].0 != r[j].0 by {
            if j == ds.len() {
                assert(ds[i].0 != t.index);
            }
        }
        if k == t.index {
            let q = position_of(r, k);
            assert(r[ds.len() as int].0 == k);
            if q != ds.len() {
                assert(ds[q].0 == k);
            }
        } else {
            if has_index(r, k) {
                let q = position_of(r, k);
                assert(q != ds.len());
                assert(ds[q].0 == k);
                let q0 = position_of(ds, k);
                assert(q == q0);
            } else {
                if has_index(ds, k) {
                    let q0 = position_of(ds, k);
                    assert(r[q0].0 == k);
                }
            }
        }
    }
}

/// The arguments of each assembled call are the argument texts sent for its
/// index, concatenated in the order in which they arrived; a call for which
/// no argument text arrived has none.
pub proof fn lemma_arguments_are_concatenated(ts: Seq<ToolCallDelta>, k: usize)
    ensures
        distinct_indices(absorb_seq(Seq::empty(), ts)),
        (match draft_at(absorb_seq(Seq::empty(), ts), k) {
            Some(d) => d.arguments,
            None => None,
        }) == if argument_fragments(ts, k).len() > 0 {
            Some(argument_fragments(ts, k).flatten_alt())
        } else {
            None::<Seq<char>>
        },
    decreases ts.len(),
{
    if ts.len() == 0 {
        let e = Seq::<(usize, DraftView)>::empty();
        assert(!has_index(e, k));
    } else {
        let prev = absorb_seq(Seq::empty(), ts.drop_last());
        lemma_arguments_are_concatenated(ts.drop_last(), k);
        lemma_absorb_one(prev, ts.last(), k);
        let fr = argument_fragments(ts.drop_last(), k);
        if ts.last().index == k && argument_fragment(ts.last()) is Some {
            let nf = fr.push(argument_fragment(ts.last()).unwrap());
            assert(nf.drop_last() =~= fr);
            if fr.len() == 0 {
                assert(fr.flatten_alt() =~= Seq::<char>::empty());
                assert(Seq::<char>::empty() + argument_fragment(ts.last()).unwrap() =~= argument_fragment(ts.last()).unwrap());
            }
        }
    }
}

/// One tool call being assembled.
pub struct ToolCallDraft {
    pub index: usize,
    pub id: Option<String>,
    pub call_type: Option<String>,
    pub has_function: bool,
    pub name: Option<String>,
    pub arguments: Option<String>,
}

impl ToolCallDraft {
    /// What has been received of the call.
    pub open spec fn draft_view(&self) -> DraftView {
        DraftView {
            id: opt_view(self.id),
            call_type: opt_view(self.call_type),
            has_function: self.has_function,
            name: opt_view(self.name),
            arguments: opt_view(self.arguments),
        }
    }

    /// A call of which nothing has been received yet.
    pub fn empty(index: usize) -> (r: Self)
        ensures
            r.index == index,
            r.draft_view() == empty_draft(),
    {
        ToolCallDraft { index, id: None, call_type: None, has_function: false, name: None, arguments: None }
    }
}

fn replace_unless_empty(cur: &Option<String>, new: &Option<String>) -> (r: Option<String>)
    ensures
        opt_view(r) == keep_unless_nonempty(opt_view(*cur), *new),
{
    match new {
        Some(s) => {
            if !is_empty_text(s.as_str()) {
                Some(s.clone())
            } else {
                copy_opt(cur)
            }
        },
        None => copy_opt(cur),
    }
}

/// Merges one fragment into a call.
pub fn apply_fragment_to(d: &ToolCallDraft, t: &ToolCallDelta) -> (r: ToolCallDraft)
    ensures
        r.index == d.index,
        r.draft_view() == apply_fragment(d.draft_view(), *t),
{
    let id = replace_unless_empty(&d.id, &t.id);
    let call_type = match &t.call_type {
        Some(c) => Some(c.clone()),
        None => copy_opt(&d.call_type),
    };
    let has_function = d.has_function || t.function.is_some();
    let (name, arguments) = match &t.function {
        Some(f) => {
            let name = replace_unless_empty(&d.name, &f.name);
            let arguments = match &f.arguments {
                Some(a) => {
                    let mut s = match &d.arguments {
                        Some(e) => e.clone(),
                        None => String::new(),
                    };
                    push_str(&mut s, a.as_str());
                    Some(s)
                },
                None => copy_opt(&d.arguments),
            };
            (name, arguments)
        },
        None => (copy_opt(&d.name), copy_opt(&d.arguments)),
    };
    ToolCallDraft { index: d.index, id, call_type, has_function, name, arguments }
}

/// A call is complete once it has an id, a name and arguments; only complete
/// calls become tool calls.
pub open spec fn is_complete(d: DraftView) -> bool {
    d.id is Some && d.name is Some && d.arguments is Some
}

/// The complete calls, in order.
pub open spec fn complete_drafts(ds: Seq<(usize, DraftView)>) -> Seq<(usize, DraftView)> {
    ds.filter(|p: (usize, DraftView)| is_complete(p.1))
}

impl ToolCallDraft {
    /// The tool call this draft stands for: its id and name, and its
    /// arguments parsed as JSON (kept as a JSON string where they are not
    /// JSON); `None` while the call is incomplete.
    pub fn to_tool_call(&self) -> (r: Option<ToolCall>)
        ensures
            r is Some <==> is_complete(self.draft_view()),
            r is Some ==> r.unwrap().id@ == self.draft_view().id.unwrap()
                && r.unwrap().name@ == self.draft_view().name.unwrap()
                && r.unwrap().arguments == arguments_value(self.draft_view().arguments.unwrap()),
    {
        match (&self.id, &self.name, &self.arguments) {
            (Some(id), Some(name), Some(arguments)) => {
                let value = match parse_json(arguments.as_str()) {
                    Some(v) => v,
                    None => json_string(arguments.as_str()),
                };
                Some(ToolCall { id: id.clone(), name: name.clone(), arguments: value })
            },
            _ => None,
        }
    }
}

/// `r` holds the complete calls of `ds` as tool calls, in order: each with
/// its id and name, and its arguments parsed as JSON.
pub open spec fn calls_of(r: Seq<ToolCall>, ds: Seq<(usize, DraftView)>) -> bool {
    let c = complete_drafts(ds);
    &&& r.len() == c.len()
    &&& forall|j: int|
        0 <= j < r.len() ==> (#[trigger] r[j]).id@ == c[j].1.id.unwrap() && r[j].name@ == c[j].1.name.unwrap()
            && r[j].arguments == arguments_value(c[j].1.arguments.unwrap())
}

/// The views of a list of calls, with their indices.
pub open spec fn drafts_view(v: Seq<ToolCallDraft>) -> Seq<(usize, DraftView)> {
    v.map_values(|d: ToolCallDraft| (d.index, d.draft_view()))
}

/// Tool calls assembled from streamed fragments, in the order in which their
/// first fragment arrived.
pub struct ToolCallAccumulator {
    drafts: Vec<ToolCallDraft>,
}

impl ToolCallAccumulator {
    /// The calls, each with its index.
    pub closed spec fn view(&self) -> Seq<(usize, DraftView)> {
        drafts_view(self.drafts@)
    }

    /// No index occurs twice.
    pub closed spec fn wf(&self) -> bool {
        distinct_indices(self.view())
    }

    /// An accumulator that has received nothing.
    pub fn new() -> (r: Self)
        ensures
            r.view() == Seq::<(usize, DraftView)>::empty(),
            r.wf(),
    {
        let r = ToolCallAccumulator { drafts: Vec::new() };
        assert(r.view() =~= Seq::<(usize, DraftView)>::empty());
        r
    }

    /// Number of calls started.
    pub fn len(&self) -> (r: usize)
        ensures
            r == self.view().len(),
    {
        self.drafts.len()
    }

    /// Whether no call has been started.
    pub fn is_empty(&self) -> (r: bool)
        ensures
            r == (self.view().len() == 0),
    {
        self.drafts.len() == 0
    }

    /// The calls assembled so far.
    pub fn drafts(&self) -> (r: &Vec<ToolCallDraft>)
        ensures
            drafts_view(r@) == self.view(),
    {
        &self.drafts
    }

    fn position(drafts: &Vec<ToolCallDraft>, k: usize) -> (r: Option<usize>)
        ensures
            match r {
                Some(p) => p < drafts.len() && drafts@[p as int].index == k,
                None => forall|q: int| 0 <= q < drafts.len() ==> drafts@[q].index != k,
            },
    {
        let mut p: usize = 0;
        while p < drafts.len()
            invariant
                0 <= p <= drafts.len(),
                forall|q: int| 0 <= q < p ==> drafts@[q].index != k,
            decreases drafts.len() - p,
        {
            if drafts[p].index == k {
                return Some(p);
            }
            p = p + 1;
        }
        None
    }

    /// Merges one fragment.
    pub fn absorb(&mut self, t: &ToolCallDelta)
        requires
            old(self).wf(),
        ensures
            final(self).wf(),
            final(self).view() == absorb_one(old(self).view(), *t),
    {
        let ghost ds = self.view();
        match Self::position(&self.drafts, t.index) {
            Some(p) => {
                assert(ds[p as int].0 == t.index);
                assert(has_index(ds, t.index));
                proof {
                    let c = position_of(ds, t.index);
                    assert(ds[c].0 == t.index);
                    assert(c == p);
                }
                let nd = apply_fragment_to(&self.drafts[p], t);
                self.drafts[p] = nd;
                assert(self.view() =~= absorb_one(ds, *t));
            },
            None => {
                assert(!has_index(ds, t.index));
                let nd = apply_fragment_to(&ToolCallDraft::empty(t.index), t);
                self.drafts.push(nd);
                assert(self.view() =~= absorb_one(ds, *t));
            },
        }
        proof {
            lemma_absorb_one(ds, *t, t.index);
        }
    }

    /// The complete calls as tool calls, in the order of their first fragment.
    pub fn tool_calls(&self) -> (r: Vec<ToolCall>)
        ensures
            r.len() == complete_drafts(self.view()).len(),
            forall|j: int|
                0 <= j < r.len() ==> (#[trigger] r@[j]).id@ == complete_drafts(self.view())[j].1.id.unwrap()
                    && r@[j].name@ == complete_drafts(self.view())[j].1.name.unwrap()
                    && r@[j].arguments == arguments_value(complete_drafts(self.view())[j].1.arguments.unwrap()),
            calls_of(r@, self.view()),
    {
        let ghost all = self.view();
        let ghost pred = |p: (usize, DraftView)| is_complete(p.1);
        let mut r: Vec<ToolCall> = Vec::new();
        let mut i: usize = 0;
        while i < self.drafts.len()
            invariant
                0 <= i <= self.drafts.len(),
                all == drafts_view(self.drafts@),
                pred == (|p: (usize, DraftView)| is_complete(p.1)),
                r.len() == all.take(i as int).filter(pred).len(),
                forall|j: int|
                    0 <= j < r.len() ==> (#[trigger] r@[j]).id@ == all.take(i as int).filter(pred)[j].1.id.unwrap()
                        && r@[j].name@ == all.take(i as int).filter(pred)[j].1.name.unwrap()
                        && r@[j].arguments == arguments_value(all.take(i as int).filter(pred)[j].1.arguments.unwrap()),
            decreases self.drafts.len() - i,
        {
            proof {
                assert(all.take(i as int + 1) =~= all.take(i as int).push(all[i as int]));
                all.take(i as int).lemma_filter_push(all[i as int], pred);
            }
            match self.drafts[i].to_tool_call() {
                Some(c) => {
                    r.push(c);
                },
                None => {},
            }
            i = i + 1;
        }
        assert(all.take(self.drafts.len() as int) =~= all);
        r
    }

    /// Merges the fragments of one streamed chunk, in order.
    pub fn absorb_all(&mut self, ts: &Vec<ToolCallDelta>)
        requires
            old(self).wf(),
        ensures
            final(self).wf(),
            final(self).view() == absorb_seq(old(self).view(), ts@),
    {
        let ghost start = self.view();
        let mut i: usize = 0;
        while i < ts.len()
            invariant
                0 <= i <= ts.len(),
                self.wf(),
                self.view() == absorb_seq(start, ts@.take(i as int)),
            decreases ts.len() - i,
        {
            self.absorb(&ts[i]);
            proof {
                assert(ts@.take(i as int + 1).drop_last() =~= ts@.take(i as int));
            }
            i = i + 1;
        }
        assert(ts@.take(ts.len() as int) =~= ts@);
    }
}

} // verus!
