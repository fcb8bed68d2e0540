//! Navigation history of browser tabs and the scripts sent to the page.

use vstd::prelude::*;
use crate::error::{AppError, AppResult};
use crate::keyed::{keyed_map, lemma_keyed_push, lemma_keyed_remove, lemma_keyed_update};
use crate::text::{to_uppercase_string, uppercase_of, chars_of, find_from, occurs_at, owned, push_char, push_str, replace, replace_all, str_eq, string_of_chars, trim_chars, trimmed};

verus! {

/// Abstract navigation state of one tab.
pub struct TabView {
    pub current_url: Seq<char>,
    pub history: Seq<Seq<char>>,
    pub index: nat,
}

/// The history is never empty and its index points into it.
pub open spec fn tab_wf(t: TabView) -> bool {
    t.history.len() > 0 && t.index < t.history.len()
}

/// A new tab: the blank page, alone in its history.
pub open spec fn blank_tab() -> TabView {
    TabView { current_url: "about:blank"@, history: seq!["about:blank"@], index: 0 }
}

/// Navigating drops the entries after the current one, appends the URL and
/// makes it current.
pub open spec fn navigated(t: TabView, url: Seq<char>) -> TabView {
    let h = t.history.take(t.index as int + 1).push(url);
    TabView { current_url: url, history: h, index: (h.len() - 1) as nat }
}

/// There is an entry before the current one.
pub open spec fn can_back(t: TabView) -> bool {
    t.index > 0
}

/// There is an entry after the current one.
pub open spec fn can_forward(t: TabView) -> bool {
    t.index + 1 < t.history.len()
}

/// One step back in the history. The current URL is left as it was.
pub open spec fn stepped_back(t: TabView) -> TabView {
    TabView { index: (t.index - 1) as nat, ..t }
}

/// One step forward in the history. The current URL is left as it was.
pub open spec fn stepped_forward(t: TabView) -> TabView {
    TabView { index: t.index + 1, ..t }
}

/// Navigation state of one tab.
#[derive(Debug, Clone)]
pub struct TabState {
    pub current_url: String,
    pub navigation_history: Vec<String>,
    pub history_index: usize,
}

impl TabState {
    /// The abstract state.
    pub open spec fn tab_view(&self) -> TabView {
        TabView {
            current_url: self.current_url@,
            history: self.navigation_history@.map_values(|s: String| s@),
            index: self.history_index as nat,
        }
    }

    /// A new tab on the blank page.
    pub fn blank() -> (r: Self)
        ensures
            r.tab_view() == blank_tab(),
    {
        let mut h: Vec<String> = Vec::new();
        h.push(owned("about:blank"));
        let r = TabState { current_url: owned("about:blank"), navigation_history: h, history_index: 0 };
        assert(r.tab_view().history =~= blank_tab().history);
        r
    }

    /// Whether the tab can go back.
    pub fn can_go_back(&self) -> (r: bool)
        ensures
            r == can_back(self.tab_view()),
    {
        self.history_index > 0
    }

    /// Whether the tab can go forward.
    pub fn can_go_forward(&self) -> (r: bool)
        requires
            tab_wf(self.tab_view()),
        ensures
            r == can_forward(self.tab_view()),
    {
        self.history_index < self.navigation_history.len() - 1
    }

    /// Opens `url` in the tab.
    pub fn navigate(&mut self, url: String)
        requires
            tab_wf(old(self).tab_view()),
        ensures
            final(self).tab_view() == navigated(old(self).tab_view(), url@),
            tab_wf(final(self).tab_view()),
    {
        let ghost h0 = self.navigation_history@;
        if self.history_index < self.navigation_history.len() - 1 {
            self.navigation_history.truncate(self.history_index + 1);
        }
        assert(self.navigation_history@ =~= h0.take(self.history_index + 1));
        self.navigation_history.push(url.clone());
        self.history_index = self.navigation_history.len() - 1;
        self.current_url = url;
        assert(self.tab_view().history =~= navigated(old(self).tab_view(), url@).history);
    }

    /// Goes one entry back and returns its URL; `None` at the first entry.
    pub fn go_back(&mut self) -> (r: Option<String>)
        requires
            tab_wf(old(self).tab_view()),
        ensures
            tab_wf(final(self).tab_view()),
            can_back(old(self).tab_view()) ==> final(self).tab_view() == stepped_back(old(self).tab_view())
                && r is Some && r.unwrap()@ == old(self).tab_view().history[old(self).history_index as int - 1],
            !can_back(old(self).tab_view()) ==> *final(self) == *old(self) && r is None,
    {
        if self.history_index > 0 {
            self.history_index = self.history_index - 1;
            Some(self.navigation_history[self.history_index].clone())
        } else {
            None
        }
    }

    /// Goes one entry forward and returns its URL; `None` at the last entry.
    pub fn go_forward(&mut self) -> (r: Option<String>)
        requires
            tab_wf(old(self).tab_view()),
        ensures
            tab_wf(final(self).tab_view()),
            can_forward(old(self).tab_view()) ==> final(self).tab_view() == stepped_forward(old(self).tab_view())
                && r is Some && r.unwrap()@ == old(self).tab_view().history[old(self).history_index as int + 1],
            !can_forward(old(self).tab_view()) ==> *final(self) == *old(self) && r is None,
    {
        if self.history_index < self.navigation_history.len() - 1 {
            self.history_index = self.history_index + 1;
            Some(self.navigation_history[self.history_index].clone())
        } else {
            None
        }
    }
}

/// Going back right after navigating returns to the page that was current
/// before, and going forward from there returns to the new page.
pub proof fn lemma_back_after_navigate(t: TabView, url: Seq<char>)
    requires
        tab_wf(t),
    ensures
        tab_wf(navigated(t, url)),
        can_back(navigated(t, url)),
        !can_forward(navigated(t, url)),
        navigated(t, url).history[navigated(t, url).index as int - 1] == t.history[t.index as int],
        can_forward(stepped_back(navigated(t, url))),
        stepped_back(navigated(t, url)).history[stepped_back(navigated(t, url)).index as int + 1] == url,
{
}

/// Going back and then forward restores the history position.
pub proof fn lemma_forward_undoes_back(t: TabView)
    requires
        tab_wf(t),
        can_back(t),
    ensures
        tab_wf(stepped_back(t)),
        can_forward(stepped_back(t)),
        stepped_forward(stepped_back(t)) == t,
{
}

/// Navigating discards the entries after the current one: afterwards there
/// is nothing to go forward to, and the history keeps exactly the entries up
/// to the former current one.
pub proof fn lemma_navigate_discards_forward(t: TabView, url: Seq<char>)
    requires
        tab_wf(t),
    ensures
        !can_forward(navigated(t, url)),
        navigated(t, url).history.len() == t.index as int + 2,
        navigated(t, url).history.take(t.index as int + 1) == t.history.take(t.index as int + 1),
{
    assert(navigated(t, url).history.take(t.index as int + 1) =~= t.history.take(t.index as int + 1));
}

/// What the interface is told about a tab.
#[derive(Debug, Clone)]
pub struct NavigationState {
    pub tab_id: String,
    pub url: String,
    pub title: String,
    pub can_go_back: bool,
    pub can_go_forward: bool,
    pub is_loading: bool,
}

impl NavigationState {
    /// The state reported for a tab, with the given URL, title and loading flag.
    pub open spec fn reports(&self, tab_id: Seq<char>, url: Seq<char>, title: Seq<char>, t: TabView, loading: bool) -> bool {
        &&& self.tab_id@ == tab_id
        &&& self.url@ == url
        &&& self.title@ == title
        &&& self.can_go_back == can_back(t)
        &&& self.can_go_forward == can_forward(t)
        &&& self.is_loading == loading
    }
}

/// The navigation states of all open tabs, by tab id.
pub struct TabStates {
    ids: Vec<String>,
    tabs: Vec<TabState>,
}

impl TabStates {
    /// The state of each open tab, by its id.
    pub closed spec fn view(&self) -> Map<Seq<char>, TabView> {
        keyed_map(self.id_views(), self.tab_views())
    }

    closed spec fn id_views(&self) -> Seq<Seq<char>> {
        self.ids@.map_values(|s: String| s@)
    }

    closed spec fn tab_views(&self) -> Seq<TabView> {
        self.tabs@.map_values(|t: TabState| t.tab_view())
    }

    /// Ids are distinct and every tab's history is well formed.
    pub closed spec fn wf(&self) -> bool {
        &&& self.ids.len() == self.tabs.len()
        &&& self.id_views().no_duplicates()
        &&& forall|i: int| 0 <= i < self.tabs.len() ==> tab_wf(#[trigger] self.tabs@[i].tab_view())
    }

    /// Every tab in the view has a well-formed history.
    pub proof fn lemma_tabs_wf(&self, k: Seq<char>)
        requires
            self.wf(),
            self.view().dom().contains(k),
        ensures
            tab_wf(self.view()[k]),
    {
        let i = self.id_views().index_of(k);
        assert(self.tab_views()[i] == self.tabs@[i].tab_view());
    }

    /// No tab is open.
    pub fn new() -> (r: Self)
        ensures
            r.wf(),
            r.view() == Map::<Seq<char>, TabView>::empty(),
    {
        let r = TabStates { ids: Vec::new(), tabs: Vec::new() };
        assert(r.view() =~= Map::<Seq<char>, TabView>::empty());
        r
    }

    fn position(&self, tab_id: &str) -> (r: Option<usize>)
        requires
            self.wf(),
        ensures
            match r {
                Some(p) => p < self.ids.len() && self.ids@[p as int]@ == tab_id@,
                None => !self.id_views().contains(tab_id@),
            },
    {
        let mut p: usize = 0;
        while p < self.ids.len()
            invariant
                0 <= p <= self.ids.len(),
                forall|q: int| 0 <= q < p ==> self.ids@[q]@ != tab_id@,
            decreases self.ids.len() - p,
        {
            if str_eq(self.ids[p].as_str(), tab_id) {
                return Some(p);
            }
            p = p + 1;
        }
        proof {
            if self.id_views().contains(tab_id@) {
                let q = self.id_views().index_of(tab_id@);
                assert(self.ids@[q]@ == tab_id@);
            }
        }
        None
    }

    /// Replaces the state of the tab at position `p`.
    fn put(&mut self, p: usize, t: TabState)
        requires
            old(self).wf(),
            p < old(self).ids.len(),
            tab_wf(t.tab_view()),
        ensures
            final(self).wf(),
            final(self).view() == old(self).view().insert(old(self).ids@[p as int]@, t.tab_view()),
            final(self).ids == old(self).ids,
    {
        let ghost ks = self.id_views();
        let ghost vs = self.tab_views();
        proof {
            lemma_keyed_update(ks, vs, p as int, t.tab_view());
        }
        self.tabs[p] = t;
        assert(self.id_views() == ks);
        assert(self.tab_views() =~= vs.update(p as int, t.tab_view()));
        assert forall|i: int| 0 <= i < self.tabs.len() implies tab_wf(#[trigger] self.tabs@[i].tab_view()) by {
            if i != p {
                assert(self.tabs@[i] == old(self).tabs@[i]);
            }
        }
    }

    /// Takes the state of the tab at position `p`, leaving a blank one.
    fn take(&mut self, p: usize) -> (r: TabState)
        requires
            old(self).wf(),
            p < old(self).ids.len(),
        ensures
            final(self).wf(),
            r.tab_view() == old(self).view()[old(self).ids@[p as int]@],
            old(self).view().dom().contains(old(self).ids@[p as int]@),
            tab_wf(r.tab_view()),
            final(self).ids == old(self).ids,
            final(self).view() == old(self).view().insert(old(self).ids@[p as int]@, blank_tab()),
    {
        let ghost ks = self.id_views();
        let ghost vs = self.tab_views();
        proof {
            assert(ks[p as int] == self.ids@[p as int]@);
            assert(ks.contains(ks[p as int]));
            let i = ks.index_of(ks[p as int]);
            assert(i == p);
            lemma_keyed_update(ks, vs, p as int, blank_tab());
        }
        let mut t = TabState::blank();
        std::mem::swap(&mut t, &mut self.tabs[p]);
        assert(self.id_views() == ks);
        assert(self.tab_views() =~= vs.update(p as int, blank_tab()));
        assert forall|i: int| 0 <= i < self.tabs.len() implies tab_wf(#[trigger] self.tabs@[i].tab_view()) by {
            if i != p {
                assert(self.tabs@[i] == old(self).tabs@[i]);
            }
        }
        t
    }

    /// Opens a new tab.
    fn add(&mut self, id: String, t: TabState)
        requires
            old(self).wf(),
            !old(self).view().dom().contains(id@),
            tab_wf(t.tab_view()),
        ensures
            final(self).wf(),
            final(self).view() == old(self).view().insert(id@, t.tab_view()),
    {
        let ghost ks = self.id_views();
        let ghost vs = self.tab_views();
        proof {
            lemma_keyed_push(ks, vs, id@, t.tab_view());
        }
        self.ids.push(id);
        self.tabs.push(t);
        assert(self.id_views() =~= ks.push(id@));
        assert(self.tab_views() =~= vs.push(t.tab_view()));
    }

    /// Closes the tab at position `p`.
    fn remove_at(&mut self, p: usize)
        requires
            old(self).wf(),
            p < old(self).ids.len(),
        ensures
            final(self).wf(),
            final(self).view() == old(self).view().remove(old(self).ids@[p as int]@),
    {
        let ghost ks = self.id_views();
        let ghost vs = self.tab_views();
        proof {
            lemma_keyed_remove(ks, vs, p as int);
        }
        self.ids.remove(p);
        self.tabs.remove(p);
        assert(self.id_views() =~= ks.remove(p as int));
        assert(self.tab_views() =~= vs.remove(p as int));
        assert forall|i: int| 0 <= i < self.tabs.len() implies tab_wf(#[trigger] self.tabs@[i].tab_view()) by {
            let i0 = if i < p { i } else { i + 1 };
            assert(self.tabs@[i] == old(self).tabs@[i0]);
        }
    }
}

/// Opens `url` in the tab `tab_id`, creating the tab on the blank page first
/// where it is not open.
pub fn browser_navigate(states: &mut TabStates, tab_id: String, url: String) -> (r: NavigationState)
    requires
        old(states).wf(),
    ensures
        final(states).wf(),
        final(states).view() == old(states).view().insert(
            tab_id@,
            navigated(
                if old(states).view().dom().contains(tab_id@) {
                    old(states).view()[tab_id@]
                } else {
                    blank_tab()
                },
                url@,
            ),
        ),
        r.reports(tab_id@, url@, "Loading..."@, final(states).view()[tab_id@], true),
{
    let ghost old_view = states.view();
    match states.position(tab_id.as_str()) {
        Some(p) => {
            let mut t = states.take(p);
            t.navigate(url.clone());
            let can_go_back = t.can_go_back();
            let can_go_forward = t.can_go_forward();
            let ghost tv = t.tab_view();
            states.put(p, t);
            assert(states.view() =~= old_view.insert(tab_id@, tv));
            NavigationState { tab_id, url, title: owned("Loading..."), can_go_back, can_go_forward, is_loading: true }
        },
        None => {
            let mut t = TabState::blank();
            t.navigate(url.clone());
            let can_go_back = t.can_go_back();
            let can_go_forward = t.can_go_forward();
            states.add(tab_id.clone(), t);
            NavigationState { tab_id, url, title: owned("Loading..."), can_go_back, can_go_forward, is_loading: true }
        },
    }
}

/// Whether `r` is the internal error with the given message.
pub open spec fn is_internal_error<T>(r: AppResult<T>, msg: Seq<char>) -> bool {
    r matches Err(AppError::Internal(m)) && m@ == msg
}

/// Goes one entry back in the tab's history. Fails, changing nothing, where
/// the tab is not open or is at its first entry.
pub fn browser_go_back(states: &mut TabStates, tab_id: String) -> (r: AppResult<NavigationState>)
    requires
        old(states).wf(),
    ensures
        final(states).wf(),
        old(states).view().dom().contains(tab_id@) && can_back(old(states).view()[tab_id@]) ==> {
            let t = old(states).view()[tab_id@];
            &&& final(states).view() == old(states).view().insert(tab_id@, stepped_back(t))
            &&& r matches Ok(n) && n.reports(tab_id@, t.history[t.index as int - 1], "Loading..."@, stepped_back(t), true)
        },
        !(old(states).view().dom().contains(tab_id@) && can_back(old(states).view()[tab_id@])) ==> {
            &&& final(states).view() == old(states).view()
            &&& is_internal_error(r, "Cannot go back"@)
        },
{
    let ghost old_view = states.view();
    match states.position(tab_id.as_str()) {
        Some(p) => {
            let mut t = states.take(p);
            if t.can_go_back() {
                let ghost tv = t.tab_view();
                let url = match t.go_back() {
                    Some(u) => u,
                    None => owned(""),
                };
                let can_go_back = t.can_go_back();
                let can_go_forward = t.can_go_forward();
                let ghost nv = t.tab_view();
                states.put(p, t);
                assert(states.view() =~= old_view.insert(tab_id@, nv));
                return Ok(NavigationState { tab_id, url, title: owned("Loading..."), can_go_back, can_go_forward, is_loading: true });
            }
            let ghost tv = t.tab_view();
            states.put(p, t);
            assert(states.view() =~= old_view);
        },
        None => {},
    }
    Err(AppError::Internal(owned("Cannot go back")))
}

/// Goes one entry forward in the tab's history. Fails, changing nothing,
/// where the tab is not open or is at its last entry.
pub fn browser_go_forward(states: &mut TabStates, tab_id: String) -> (r: AppResult<NavigationState>)
    requires
        old(states).wf(),
    ensures
        final(states).wf(),
        old(states).view().dom().contains(tab_id@) && can_forward(old(states).view()[tab_id@]) ==> {
            let t = old(states).view()[tab_id@];
            &&& final(states).view() == old(states).view().insert(tab_id@, stepped_forward(t))
            &&& r matches Ok(n) && n.reports(tab_id@, t.history[t.index as int + 1], "Loading..."@, stepped_forward(t), true)
        },
        !(old(states).view().dom().contains(tab_id@) && can_forward(old(states).view()[tab_id@])) ==> {
            &&& final(states).view() == old(states).view()
            &&& is_internal_error(r, "Cannot go forward"@)
        },
{
    let ghost old_view = states.view();
    match states.position(tab_id.as_str()) {
        Some(p) => {
            let mut t = states.take(p);
            if t.can_go_forward() {
                let url = match t.go_forward() {
                    Some(u) => u,
                    None => owned(""),
                };
                let can_go_back = t.can_go_back();
                let can_go_forward = t.can_go_forward();
                let ghost nv = t.tab_view();
                states.put(p, t);
                assert(states.view() =~= old_view.insert(tab_id@, nv));
                return Ok(NavigationState { tab_id, url, title: owned("Loading..."), can_go_back, can_go_forward, is_loading: true });
            }
            states.put(p, t);
            assert(states.view() =~= old_view);
        },
        None => {},
    }
    Err(AppError::Internal(owned("Cannot go forward")))
}

/// The state of a tab: its current URL under the title "Page", or the blank
/// page under "New Tab" where the tab is not open.
pub fn browser_get_state(states: &TabStates, tab_id: String) -> (r: NavigationState)
    requires
        states.wf(),
    ensures
        states.view().dom().contains(tab_id@) ==> r.reports(
            tab_id@,
            states.view()[tab_id@].current_url,
            "Page"@,
            states.view()[tab_id@],
            false,
        ),
        !states.view().dom().contains(tab_id@) ==> r.reports(tab_id@, "about:blank"@, "New Tab"@, blank_tab(), false),
{
    match states.position(tab_id.as_str()) {
        Some(p) => {
            proof {
                let ks = states.id_views();
                assert(ks[p as int] == tab_id@);
                assert(ks.contains(tab_id@));
                let i = ks.index_of(tab_id@);
                assert(i == p);
                assert(states.tab_views()[p as int] == states.tabs@[p as int].tab_view());
                assert(tab_wf(states.tabs@[p as int].tab_view()));
            }
            let t = &states.tabs[p];
            NavigationState {
                tab_id,
                url: t.current_url.clone(),
                title: owned("Page"),
                can_go_back: t.can_go_back(),
                can_go_forward: t.can_go_forward(),
                is_loading: false,
            }
        },
        None => NavigationState {
            tab_id,
            url: owned("about:blank"),
            title: owned("New Tab"),
            can_go_back: false,
            can_go_forward: false,
            is_loading: false,
        },
    }
}

/// Closes a tab: its history is forgotten.
pub fn browser_close_tab(states: &mut TabStates, tab_id: String)
    requires
        old(states).wf(),
    ensures
        final(states).wf(),
        final(states).view() == old(states).view().remove(tab_id@),
{
    match states.position(tab_id.as_str()) {
        Some(p) => {
            states.remove_at(p);
        },
        None => {
            assert(states.view() =~= states.view().remove(tab_id@));
        },
    }
}

/// `s` with each single quote escaped by a backslash.
pub open spec fn escape_single_quotes(s: Seq<char>) -> Seq<char> {
    replace_all(s, "'"@, "\\'"@)
}

/// `s` with each single and double quote escaped by a backslash.
pub open spec fn escape_quotes(s: Seq<char>) -> Seq<char> {
    replace_all(replace_all(s, "'"@, "\\'"@), "\""@, "\\\""@)
}

/// The script that clicks the element matched by a selector.
pub open spec fn click_script_text(selector: Seq<char>) -> Seq<char> {
    "\n        (function() {\n            const el = document.querySelector('"@ + escape_single_quotes(selector) + "');\n            if (el) {\n                el.click();\n                return true;\n            }\n            return false;\n        })()\n        "@
}

/// The script that types text into the element matched by a selector.
pub open spec fn input_script_text(selector: Seq<char>, text: Seq<char>) -> Seq<char> {
    "\n        (function() {\n            const el = document.querySelector('"@ + escape_single_quotes(selector) + "');\n            if (el) {\n                el.value = '"@ + escape_quotes(text) + "';\n                el.dispatchEvent(new Event('input', { bubbles: true }));\n                el.dispatchEvent(new Event('change', { bubbles: true }));\n                return true;\n            }\n            return false;\n        })()\n        "@
}

/// The script that clicks the element matched by `selector`.
pub fn click_script(selector: &str) -> (r: String)
    ensures
        r@ == click_script_text(selector@),
{
    proof {
        reveal_strlit("'");
        reveal_strlit("\"");
    }
    let mut r = owned("\n        (function() {\n            const el = document.querySelector('");
    let escaped = replace(selector, "'", "\\'");
    push_str(&mut r, escaped.as_str());
    push_str(&mut r, "');\n            if (el) {\n                el.click();\n                return true;\n            }\n            return false;\n        })()\n        ");
    r
}

/// The script that types `text` into the element matched by `selector`.
pub fn input_script(selector: &str, text: &str) -> (r: String)
    ensures
        r@ == input_script_text(selector@, text@),
{
    proof {
        reveal_strlit("'");
        reveal_strlit("\"");
    }
    let mut r = owned("\n        (function() {\n            const el = document.querySelector('");
    let sel = replace(selector, "'", "\\'");
    push_str(&mut r, sel.as_str());
    push_str(&mut r, "');\n            if (el) {\n                el.value = '");
    let t1 = replace(text, "'", "\\'");
    let t2 = replace(t1.as_str(), "\"", "\\\"");
    push_str(&mut r, t2.as_str());
    push_str(&mut r, "';\n                el.dispatchEvent(new Event('input', { bubbles: true }));\n                el.dispatchEvent(new Event('change', { bubbles: true }));\n                return true;\n            }\n            return false;\n        })()\n        ");
    r
}

/// The script that scrolls the page by 300 pixels in a direction; any other
/// direction scrolls down.
pub open spec fn scroll_script_text(direction: Seq<char>) -> Seq<char> {
    if direction == "up"@ {
        "window.scrollBy({ top: -300, behavior: 'smooth' });"@
    } else if direction == "left"@ {
        "window.scrollBy({ left: -300, behavior: 'smooth' });"@
    } else if direction == "right"@ {
        "window.scrollBy({ left: 300, behavior: 'smooth' });"@
    } else {
        "window.scrollBy({ top: 300, behavior: 'smooth' });"@
    }
}

/// The script that scrolls the page in `direction`.
pub fn scroll_script(direction: &str) -> (r: &'static str)
    ensures
        r@ == scroll_script_text(direction@),
{
    proof {
        reveal_strlit("down");
        reveal_strlit("up");
        reveal_strlit("left");
        reveal_strlit("right");
        assert("down"@[0] != "left"@[0] && "down"@[0] != "right"@[0]);
    }
    if str_eq(direction, "up") {
        "window.scrollBy({ top: -300, behavior: 'smooth' });"
    } else if str_eq(direction, "down") {
        "window.scrollBy({ top: 300, behavior: 'smooth' });"
    } else if str_eq(direction, "left") {
        "window.scrollBy({ left: -300, behavior: 'smooth' });"
    } else if str_eq(direction, "right") {
        "window.scrollBy({ left: 300, behavior: 'smooth' });"
    } else {
        "window.scrollBy({ top: 300, behavior: 'smooth' });"
    }
}

/// `i` is the first position at or after `from` where `t` occurs in `s`.
pub open spec fn first_at(s: Seq<char>, t: Seq<char>, from: int, i: int) -> bool {
    from <= i && occurs_at(s, t, i) && forall|j: int| from <= j < i ==> !occurs_at(s, t, j)
}

/// The text between the first `<title>` and the first `</title>` after it,
/// without surrounding white space; empty where there is no such pair.
pub open spec fn page_title(html: Seq<char>) -> Seq<char> {
    if exists|a: int| first_at(html, "<title>"@, 0, a) {
        let a = choose|a: int| first_at(html, "<title>"@, 0, a);
        if exists|b: int| first_at(html, "</title>"@, a, b) {
            let b = choose|b: int| first_at(html, "</title>"@, a, b);
            trimmed(html.subrange(a + 7, b))
        } else {
            Seq::empty()
        }
    } else {
        Seq::empty()
    }
}

proof fn lemma_first_at_unique(s: Seq<char>, t: Seq<char>, from: int, i: int, j: int)
    requires
        first_at(s, t, from, i),
        first_at(s, t, from, j),
    ensures
        i == j,
{
}

/// The title of an HTML page, as the `<title>` element gives it.
pub fn extract_title(html: &str) -> (r: String)
    ensures
        r@ == page_title(html@),
{
    proof {
        reveal_strlit("<title>");
        reveal_strlit("</title>");
    }
    let v = chars_of(html);
    let open_tag = chars_of("<title>");
    let close_tag = chars_of("</title>");
    match find_from(v.as_slice(), open_tag.as_slice(), 0) {
        Some(a) => {
            assert(first_at(html@, "<title>"@, 0, a as int));
            proof {
                let a2 = choose|x: int| first_at(html@, "<title>"@, 0, x);
                lemma_first_at_unique(html@, "<title>"@, 0, a as int, a2);
            }
            match find_from(v.as_slice(), close_tag.as_slice(), a) {
                Some(b) => {
                    assert(first_at(html@, "</title>"@, a as int, b as int));
                    proof {
                        let b2 = choose|x: int| first_at(html@, "</title>"@, a as int, x);
                        lemma_first_at_unique(html@, "</title>"@, a as int, b as int, b2);
                        assert(v@.subrange(a as int, a + 7)[0] == '<');
                        assert(v@.subrange(a as int, a + 7)[1] == 't');
                        if b < a + 7 {
                            assert(v@.subrange(b as int, b + 8)[0] == '<');
                            assert(v@.subrange(b as int, b + 8)[1] == '/');
                            if b == a {
                                assert(v@[a + 1] == 't');
                            } else {
                                let k = b - a;
                                assert(v@[b as int] == v@.subrange(a as int, a + 7)[k]);
                            }
                        }
                    }
                    let inner = trim_chars(&v.as_slice()[a + 7..b]);
                    assert(v@.subrange(a + 7, b as int) =~= html@.subrange(a + 7, b as int));
                    string_of_chars(inner.as_slice())
                },
                None => {
                    assert(!exists|b: int| first_at(html@, "</title>"@, a as int, b));
                    String::new()
                },
            }
        },
        None => {
            assert(!exists|a: int| first_at(html@, "<title>"@, 0, a));
            String::new()
        },
    }
}

/// What `url::Url::parse` followed by `Url::host_str` gives for a text:
/// `None` where the text is no URL, else the host, if the URL has one.
pub uninterp spec fn parsed_host(url: Seq<char>) -> Option<Option<Seq<char>>>;

/// `url::Url::parse(url)` and, where it succeeds, `host_str` of the result.
#[verifier::external_body]
pub(crate) fn url_host(url: &str) -> (r: Option<Option<String>>)
    ensures
        match r {
            None => parsed_host(url@) is None,
            Some(None) => parsed_host(url@) == Some(None::<Seq<char>>),
            Some(Some(h)) => parsed_host(url@) == Some(Some(h@)),
        },
{
    match url::Url::parse(url) {
        Ok(parsed) => Some(parsed.host_str().map(|h| h.to_string())),
        Err(_) => None,
    }
}

/// A host name shown as a title: every `www.` removed and the first
/// character in upper case.
pub open spec fn host_title(host: Seq<char>) -> Seq<char> {
    let h = replace_all(host, "www."@, ""@);
    if h.len() == 0 {
        Seq::empty()
    } else {
        uppercase_of(h[0]) + h.drop_first()
    }
}

/// The name under which a page without a title is shown: its host name, or
/// "未知页面" (unknown page) where the text is no URL.
pub open spec fn hostname_title(url: Seq<char>) -> Seq<char> {
    match parsed_host(url) {
        None => "未知页面"@,
        Some(None) => Seq::empty(),
        Some(Some(h)) => host_title(h),
    }
}

/// The host of a URL as a title for the page, given what parsing it gave.
pub fn host_as_title(host: Option<Option<String>>) -> (r: String)
    ensures
        r@ == match host {
            None => "未知页面"@,
            Some(None) => Seq::<char>::empty(),
            Some(Some(h)) => host_title(h@),
        },
{
    proof {
        reveal_strlit("www.");
        reveal_strlit("");
    }
    match host {
        None => owned("未知页面"),
        Some(h) => {
            let hs = match h {
                Some(s) => s,
                None => String::new(),
            };
            let stripped = replace(hs.as_str(), "www.", "");
            let v = chars_of(stripped.as_str());
            if v.len() == 0 {
                String::new()
            } else {
                let mut r = to_uppercase_string(v[0]);
                let rest = string_of_chars(&v.as_slice()[1..v.len()]);
                assert(v@.subrange(1, v.len() as int) =~= v@.drop_first());
                push_str(&mut r, rest.as_str());
                r
            }
        },
    }
}

/// The host name of a URL as a title for the page.
pub fn extract_hostname(url: &str) -> (r: String)
    ensures
        r@ == hostname_title(url@),
{
    host_as_title(url_host(url))
}

/// The title shown for a page: the fetched title where one was found and
/// is not empty, else the host name.
pub fn title_or_hostname(fetched: Option<String>, url: &str) -> (r: String)
    ensures
        r@ == match fetched {
            Some(t) => if t@.len() > 0 {
                t@
            } else {
                hostname_title(url@)
            },
            None => hostname_title(url@),
        },
{
    match fetched {
        Some(t) => {
            if chars_of(t.as_str()).len() > 0 {
                t
            } else {
                extract_hostname(url)
            }
        },
        None => extract_hostname(url),
    }
}

} // verus!
