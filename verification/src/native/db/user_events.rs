//! User events: their types, the statistics kept on them, and how long
//! they are kept.

use vstd::prelude::*;
use crate::text::{owned, push_str, str_eq};

verus! {

/// Kinds of user events in the browser.
#[derive(Debug, Clone, Copy, PartialEq, Eq, Structural)]
pub enum EventType {
    TabOpen,
    TabClose,
    TabSwitch,
    PageClick,
    PageScroll,
    PageStay,
    UrlChange,
    FormInput,
    WindowResize,
    PageLoad,
}

/// The name under which an event type is stored.
pub open spec fn event_name(t: EventType) -> Seq<char> {
    match t {
        EventType::TabOpen => "tab_open"@,
        EventType::TabClose => "tab_close"@,
        EventType::TabSwitch => "tab_switch"@,
        EventType::PageClick => "page_click"@,
        EventType::PageScroll => "page_scroll"@,
        EventType::PageStay => "page_stay"@,
        EventType::UrlChange => "url_change"@,
        EventType::FormInput => "form_input"@,
        EventType::WindowResize => "window_resize"@,
        EventType::PageLoad => "page_load"@,
    }
}

/// The event type stored under a name.
pub open spec fn event_of_name(s: Seq<char>) -> Option<EventType> {
    if s == "tab_open"@ {
        Some(EventType::TabOpen)
    } else if s == "tab_close"@ {
        Some(EventType::TabClose)
    } else if s == "tab_switch"@ {
        Some(EventType::TabSwitch)
    } else if s == "page_click"@ {
        Some(EventType::PageClick)
    } else if s == "page_scroll"@ {
        Some(EventType::PageScroll)
    } else if s == "page_stay"@ {
        Some(EventType::PageStay)
    } else if s == "url_change"@ {
        Some(EventType::UrlChange)
    } else if s == "form_input"@ {
        Some(EventType::FormInput)
    } else if s == "window_resize"@ {
        Some(EventType::WindowResize)
    } else if s == "page_load"@ {
        Some(EventType::PageLoad)
    } else {
        None
    }
}


impl EventType {
    /// The name under which the event type is stored.
    pub fn name(&self) -> (r: &'static str)
        ensures
            r@ == event_name(*self),
    {
        match self {
            EventType::TabOpen => "tab_open",
            EventType::TabClose => "tab_close",
            EventType::TabSwitch => "tab_switch",
            EventType::PageClick => "page_click",
            EventType::PageScroll => "page_scroll",
            EventType::PageStay => "page_stay",
            EventType::UrlChange => "url_change",
            EventType::FormInput => "form_input",
            EventType::WindowResize => "window_resize",
            EventType::PageLoad => "page_load",
        }
    }

    /// The event type stored under a name; other names are refused with
    /// "Unknown event type: {name}".
    pub fn parse(s: &str) -> (r: Result<EventType, String>)
        ensures
            match event_of_name(s@) {
                Some(t) => r == Ok::<EventType, String>(t),
                None => r matches Err(m) && m@ == "Unknown event type: "@ + s@,
            },
    {
        proof {
            reveal_strlit("tab_open");
            reveal_strlit("tab_close");
            reveal_strlit("tab_switch");
            reveal_strlit("page_click");
            reveal_strlit("page_scroll");
            reveal_strlit("page_stay");
            reveal_strlit("url_change");
            reveal_strlit("form_input");
            reveal_strlit("window_resize");
            reveal_strlit("page_load");
            assert("tab_open"@[0] == 't' && "tab_open"@[5] == 'p' && "tab_open"@.len() == 8);
            assert("tab_close"@[0] == 't' && "tab_close"@[5] == 'l' && "tab_close"@.len() == 9);
            assert("tab_switch"@[0] == 't' && "tab_switch"@[5] == 'w' && "tab_switch"@.len() == 10);
            assert("page_click"@[0] == 'p' && "page_click"@[5] == 'c' && "page_click"@.len() == 10);
            assert("page_scroll"@[0] == 'p' && "page_scroll"@[5] == 's' && "page_scroll"@.len() == 11);
            assert("page_stay"@[0] == 'p' && "page_stay"@[5] == 's' && "page_stay"@.len() == 9);
            assert("url_change"@[0] == 'u' && "url_change"@[5] == 'h' && "url_change"@.len() == 10);
            assert("form_input"@[0] == 'f' && "form_input"@[5] == 'i' && "form_input"@.len() == 10);
            assert("window_resize"@[0] == 'w' && "window_resize"@[5] == 'w' && "window_resize"@.len() == 13);
            assert("page_load"@[0] == 'p' && "page_load"@[5] == 'l' && "page_load"@.len() == 9);
        }
        if str_eq(s, "tab_open") {
            Ok(EventType::TabOpen)
        } else if str_eq(s, "tab_close") {
            Ok(EventType::TabClose)
        } else if str_eq(s, "tab_switch") {
            Ok(EventType::TabSwitch)
        } else if str_eq(s, "page_click") {
            Ok(EventType::PageClick)
        } else if str_eq(s, "page_scroll") {
            Ok(EventType::PageScroll)
        } else if str_eq(s, "page_stay") {
            Ok(EventType::PageStay)
        } else if str_eq(s, "url_change") {
            Ok(EventType::UrlChange)
        } else if str_eq(s, "form_input") {
            Ok(EventType::FormInput)
        } else if str_eq(s, "window_resize") {
            Ok(EventType::WindowResize)
        } else if str_eq(s, "page_load") {
            Ok(EventType::PageLoad)
        } else {
            let mut m = owned("Unknown event type: ");
            push_str(&mut m, s);
            Err(m)
        }
    }
}

/// Reading back the name of an event type gives the type again, and a name
/// that is read as a type is that type's name.
pub proof fn lemma_event_name_round_trip(t: EventType, s: Seq<char>)
    ensures
        event_of_name(event_name(t)) == Some(t),
        (event_of_name(s) matches Some(u) ==> event_name(u) == s),
{
    lemma_names_read_back(s);
    reveal_strlit("tab_open");
    reveal_strlit("tab_close");
    reveal_strlit("tab_switch");
    reveal_strlit("page_click");
    reveal_strlit("page_scroll");
    reveal_strlit("page_stay");
    reveal_strlit("url_change");
    reveal_strlit("form_input");
    reveal_strlit("window_resize");
    reveal_strlit("page_load");
    assert("tab_open"@[0] == 't' && "tab_open"@[5] == 'p' && "tab_open"@.len() == 8);
    assert("tab_close"@[0] == 't' && "tab_close"@[5] == 'l' && "tab_close"@.len() == 9);
    assert("tab_switch"@[0] == 't' && "tab_switch"@[5] == 'w' && "tab_switch"@.len() == 10);
    assert("page_click"@[0] == 'p' && "page_click"@[5] == 'c' && "page_click"@.len() == 10);
    assert("page_scroll"@[0] == 'p' && "page_scroll"@[5] == 's' && "page_scroll"@.len() == 11);
    assert("page_stay"@[0] == 'p' && "page_stay"@[5] == 's' && "page_stay"@.len() == 9);
    assert("url_change"@[0] == 'u' && "url_change"@[5] == 'h' && "url_change"@.len() == 10);
    assert("form_input"@[0] == 'f' && "form_input"@[5] == 'i' && "form_input"@.len() == 10);
    assert("window_resize"@[0] == 'w' && "window_resize"@[5] == 'w' && "window_resize"@.len() == 13);
    assert("page_load"@[0] == 'p' && "page_load"@[5] == 'l' && "page_load"@.len() == 9);
    match t {
        EventType::TabOpen => {
            assert(event_of_name("tab_open"@) == Some(EventType::TabOpen));
        },
        EventType::TabClose => {
            assert("tab_close"@ != "tab_open"@);
            assert(event_of_name("tab_close"@) == Some(EventType::TabClose));
        },
        EventType::TabSwitch => {
            assert("tab_switch"@ != "tab_open"@);
            assert("tab_switch"@ != "tab_close"@);
            assert(event_of_name("tab_switch"@) == Some(EventType::TabSwitch));
        },
        EventType::PageClick => {
            assert("page_click"@ != "tab_open"@);
            assert("page_click"@ != "tab_close"@);
            assert("page_click"@ != "tab_switch"@);
            assert(event_of_name("page_click"@) == Some(EventType::PageClick));
        },
        EventType::PageScroll => {
            assert("page_scroll"@ != "tab_open"@);
            assert("page_scroll"@ != "tab_close"@);
            assert("page_scroll"@ != "tab_switch"@);
            assert("page_scroll"@ != "page_click"@);
            assert(event_of_name("page_scroll"@) == Some(EventType::PageScroll));
        },
        EventType::PageStay => {
            assert("page_stay"@ != "tab_open"@);
            assert("page_stay"@ != "tab_close"@);
            assert("page_stay"@ != "tab_switch"@);
            assert("page_stay"@ != "page_click"@);
            assert("page_stay"@ != "page_scroll"@);
            assert(event_of_name("page_stay"@) == Some(EventType::PageStay));
        },
        EventType::UrlChange => {
            assert("url_change"@ != "tab_open"@);
            assert("url_change"@ != "tab_close"@);
            assert("url_change"@ != "tab_switch"@);
            assert("url_change"@ != "page_click"@);
            assert("url_change"@ != "page_scroll"@);
            assert("url_change"@ != "page_stay"@);
            assert(event_of_name("url_change"@) == Some(EventType::UrlChange));
        },
        EventType::FormInput => {
            assert("form_input"@ != "tab_open"@);
            assert("form_input"@ != "tab_close"@);
            assert("form_input"@ != "tab_switch"@);
            assert("form_input"@ != "page_click"@);
            assert("form_input"@ != "page_scroll"@);
            assert("form_input"@ != "page_stay"@);
            assert("form_input"@ != "url_change"@);
            assert(event_of_name("form_input"@) == Some(EventType::FormInput));
        },
        EventType::WindowResize => {
            assert("window_resize"@ != "tab_open"@);
            assert("window_resize"@ != "tab_close"@);
            assert("window_resize"@ != "tab_switch"@);
            assert("window_resize"@ != "page_click"@);
            assert("window_resize"@ != "page_scroll"@);
            assert("window_resize"@ != "page_stay"@);
            assert("window_resize"@ != "url_change"@);
            assert("window_resize"@ != "form_input"@);
            assert(event_of_name("window_resize"@) == Some(EventType::WindowResize));
        },
        EventType::PageLoad => {
            assert("page_load"@ != "tab_open"@);
            assert("page_load"@ != "tab_close"@);
            assert("page_load"@ != "tab_switch"@);
            assert("page_load"@ != "page_click"@);
            assert("page_load"@ != "page_scroll"@);
            assert("page_load"@ != "page_stay"@);
            assert("page_load"@ != "url_change"@);
            assert("page_load"@ != "form_input"@);
            assert("page_load"@ != "window_resize"@);
            assert(event_of_name("page_load"@) == Some(EventType::PageLoad));
        },
    }
}

proof fn lemma_names_read_back(s: Seq<char>)
    ensures
        (event_of_name(s) matches Some(u) ==> event_name(u) == s),
{
}

/// Counts of one event type over a period.
#[derive(Debug, Clone, Copy, PartialEq, Eq)]
pub struct EventStats {
    pub count: i64,
    pub first_occurrence: i64,
    pub last_occurrence: i64,
}

/// Time spent on one page over a period.
#[derive(Debug, Clone, Copy, PartialEq, Eq)]
pub struct PageStayStats {
    pub visit_count: i64,
    pub total_duration: i64,
    pub avg_duration: i64,
    pub max_duration: i64,
}

impl Default for PageStayStats {
    fn default() -> (r: Self)
        ensures
            r.visit_count == 0 && r.total_duration == 0 && r.avg_duration == 0 && r.max_duration == 0,
    {
        PageStayStats { visit_count: 0, total_duration: 0, avg_duration: 0, max_duration: 0 }
    }
}

/// A tab with its number of recent events.
#[derive(Debug, Clone)]
pub struct ActiveTab {
    pub tab_id: String,
    pub url: String,
    pub event_count: i64,
    pub last_activity: i64,
}

/// The earliest time, in milliseconds, of the events kept `days` days back
/// from `now_millis`.
pub fn events_cutoff(now_millis: i64, days: i64) -> (r: i64)
    requires
        i64::MIN <= days * 86400000 <= i64::MAX,
        i64::MIN <= now_millis - days * 86400000 <= i64::MAX,
    ensures
        r == now_millis - days * 86400000,
{
    now_millis - days * 24 * 60 * 60 * 1000
}

} // verus!
