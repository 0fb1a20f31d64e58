//! Tracking of the system events shown by the debug panel.
use vstd::prelude::*;
use std::collections::VecDeque;
use crate::clock::current_time_ms;
use crate::fmt::{pad_right, push_char, push_padded_right, push_str, push_zero_padded, zero_padded};
use crate::text::{has_substring, lowercase, str_contains, to_lowercase};

verus! {

/// Maximum number of events kept in the buffer.
pub const MAX_EVENTS: usize = 1000;

/// Categories of events, for filtering.
#[derive(Debug, Clone, Copy, PartialEq, Eq, Structural, Hash)]
pub enum EventCategory {
    Render,
    Container,
    Logs,
    State,
    GUI,
    Selection,
    System,
    Error,
}

/// The label of a category.
pub open spec fn category_label(c: EventCategory) -> Seq<char> {
    match c {
        EventCategory::Render => "RENDER"@,
        EventCategory::Container => "CONTAINER"@,
        EventCategory::Logs => "LOGS"@,
        EventCategory::State => "STATE"@,
        EventCategory::GUI => "GUI"@,
        EventCategory::Selection => "SELECT"@,
        EventCategory::System => "SYSTEM"@,
        EventCategory::Error => "ERROR"@,
    }
}

/// The categories in the order the filter bar lists them.
pub open spec fn category_at(i: int) -> Option<EventCategory> {
    if i == 0 {
        Some(EventCategory::Render)
    } else if i == 1 {
        Some(EventCategory::Container)
    } else if i == 2 {
        Some(EventCategory::Logs)
    } else if i == 3 {
        Some(EventCategory::State)
    } else if i == 4 {
        Some(EventCategory::GUI)
    } else if i == 5 {
        Some(EventCategory::Selection)
    } else if i == 6 {
        Some(EventCategory::System)
    } else if i == 7 {
        Some(EventCategory::Error)
    } else {
        None
    }
}

/// The terminal colours in which the categories are shown.
#[derive(Debug, Clone, Copy, PartialEq, Eq, Structural, Hash)]
pub enum CategoryColor {
    Cyan,
    Blue,
    Green,
    Magenta,
    LightBlue,
    Yellow,
    Gray,
    Red,
}

/// The colour of a category.
pub open spec fn category_color(c: EventCategory) -> CategoryColor {
    match c {
        EventCategory::Render => CategoryColor::Cyan,
        EventCategory::Container => CategoryColor::Blue,
        EventCategory::Logs => CategoryColor::Green,
        EventCategory::State => CategoryColor::Magenta,
        EventCategory::GUI => CategoryColor::LightBlue,
        EventCategory::Selection => CategoryColor::Yellow,
        EventCategory::System => CategoryColor::Gray,
        EventCategory::Error => CategoryColor::Red,
    }
}

impl EventCategory {
    /// The colour the category is shown in (see `category_color`).
    pub fn color(&self) -> (c: CategoryColor)
        ensures
            c == category_color(*self),
    {
        match self {
            Self::Render => CategoryColor::Cyan,
            Self::Container => CategoryColor::Blue,
            Self::Logs => CategoryColor::Green,
            Self::State => CategoryColor::Magenta,
            Self::GUI => CategoryColor::LightBlue,
            Self::Selection => CategoryColor::Yellow,
            Self::System => CategoryColor::Gray,
            Self::Error => CategoryColor::Red,
        }
    }

    /// The label shown for the category.
    pub fn as_str(&self) -> (s: &'static str)
        ensures
            s@ == category_label(*self),
    {
        match self {
            Self::Render => "RENDER",
            Self::Container => "CONTAINER",
            Self::Logs => "LOGS",
            Self::State => "STATE",
            Self::GUI => "GUI",
            Self::Selection => "SELECT",
            Self::System => "SYSTEM",
            Self::Error => "ERROR",
        }
    }

    /// The category at position `i` of the filter bar, if any.
    pub fn at_index(i: usize) -> (c: Option<EventCategory>)
        ensures
            c == category_at(i as int),
    {
        if i == 0 {
            Some(Self::Render)
        } else if i == 1 {
            Some(Self::Container)
        } else if i == 2 {
            Some(Self::Logs)
        } else if i == 3 {
            Some(Self::State)
        } else if i == 4 {
            Some(Self::GUI)
        } else if i == 5 {
            Some(Self::Selection)
        } else if i == 6 {
            Some(Self::System)
        } else if i == 7 {
            Some(Self::Error)
        } else {
            None
        }
    }
}

/// A single debug event; `timestamp` is in milliseconds since the Unix epoch.
#[derive(Debug, Clone)]
pub struct DebugEvent {
    pub timestamp: u64,
    pub category: EventCategory,
    pub component: String,
    pub action: String,
    pub details: String,
    pub sequence_id: Option<u64>,
}

/// The line shown for an event that happened `elapsed` ms after the start:
/// `MM:SS.mmm CATEGORY COMPONENT ACTION DETAILS`, with the category, the
/// component and the action left-aligned in fields of 8, 12 and 10 chars.
pub open spec fn event_line(
    elapsed: nat,
    category: EventCategory,
    component: Seq<char>,
    action: Seq<char>,
    details: Seq<char>,
) -> Seq<char> {
    let seconds = elapsed / 1000;
    zero_padded(seconds / 60, 2) + seq![':'] + zero_padded(seconds % 60, 2) + seq!['.']
        + zero_padded(elapsed % 1000, 3) + seq![' '] + pad_right(category_label(category), 8)
        + seq![' '] + pad_right(component, 12) + seq![' '] + pad_right(action, 10) + seq![' ']
        + details
}

/// The line the debug log file gets for an event at `millis` ms since the
/// epoch: `[SSSSSS.mmm] CATEGORY | COMPONENT | ACTION | DETAILS`, with the
/// seconds taken modulo 100000 and the category, component and action
/// left-aligned in fields of 8, 12 and 10 chars.
pub open spec fn file_line(
    millis: nat,
    category: EventCategory,
    component: Seq<char>,
    action: Seq<char>,
    details: Seq<char>,
) -> Seq<char> {
    "["@ + zero_padded((millis / 1000) % 100000, 6) + "."@ + zero_padded(millis % 1000, 3) + "] "@
        + pad_right(category_label(category), 8) + " | "@ + pad_right(component, 12) + " | "@
        + pad_right(action, 10) + " | "@ + details + "\n"@
}

/// The line of the debug log file for an event (see `file_line`).
pub fn debug_file_line(millis: u64, category: EventCategory, component: &str, action: &str, details: &str) -> (s: String)
    ensures
        s@ == file_line(millis as nat, category, component@, action@, details@),
{
    let mut s = String::new();
    push_str(&mut s, "[");
    push_zero_padded(&mut s, (millis / 1000) % 100000, 6);
    push_str(&mut s, ".");
    push_zero_padded(&mut s, millis % 1000, 3);
    push_str(&mut s, "] ");
    push_padded_right(&mut s, category.as_str(), 8);
    push_str(&mut s, " | ");
    push_padded_right(&mut s, component, 12);
    push_str(&mut s, " | ");
    push_padded_right(&mut s, action, 10);
    push_str(&mut s, " | ");
    push_str(&mut s, details);
    push_str(&mut s, "\n");
    proof {
        assert(s@ =~= file_line(millis as nat, category, component@, action@, details@));
    }
    s
}

impl DebugEvent {
    /// A new event stamped with the current time, with no sequence id yet.
    pub fn new(category: EventCategory, component: String, action: String, details: String) -> (e:
        Self)
        ensures
            e.category == category,
            e.component == component,
            e.action == action,
            e.details == details,
            e.sequence_id is None,
    {
        Self::new_at(current_time_ms(), category, component, action, details)
    }

    /// A new event stamped with `timestamp`, with no sequence id yet.
    pub fn new_at(
        timestamp: u64,
        category: EventCategory,
        component: String,
        action: String,
        details: String,
    ) -> (e: Self)
        ensures
            e == (DebugEvent { timestamp, category, component, action, details, sequence_id: None }),
    {
        DebugEvent { timestamp, category, component, action, details, sequence_id: None }
    }

    /// A copy of the event.
    pub fn duplicate(&self) -> (e: Self)
        ensures
            e == *self,
    {
        DebugEvent {
            timestamp: self.timestamp,
            category: self.category,
            component: self.component.clone(),
            action: self.action.clone(),
            details: self.details.clone(),
            sequence_id: self.sequence_id,
        }
    }

    /// Format the event for display, relative to `start_time` (an event
    /// stamped before the start counts as at the start).
    pub fn format(&self, start_time: u64) -> (s: String)
        ensures
            s@ == event_line(
                if self.timestamp >= start_time {
                    (self.timestamp - start_time) as nat
                } else {
                    0
                },
                self.category,
                self.component@,
                self.action@,
                self.details@,
            ),
    {
        let elapsed = self.timestamp.saturating_sub(start_time);
        let seconds = elapsed / 1000;
        let ms = elapsed % 1000;
        let mut s = String::new();
        push_zero_padded(&mut s, seconds / 60, 2);
        push_char(&mut s, ':');
        push_zero_padded(&mut s, seconds % 60, 2);
        push_char(&mut s, '.');
        push_zero_padded(&mut s, ms, 3);
        push_char(&mut s, ' ');
        push_padded_right(&mut s, self.category.as_str(), 8);
        push_char(&mut s, ' ');
        push_padded_right(&mut s, self.component.as_str(), 12);
        push_char(&mut s, ' ');
        push_padded_right(&mut s, self.action.as_str(), 10);
        push_char(&mut s, ' ');
        push_str(&mut s, self.details.as_str());
        proof {
            assert(s@ =~= event_line(
                elapsed as nat,
                self.category,
                self.component@,
                self.action@,
                self.details@,
            ));
        }
        s
    }
}

/// Filter configuration for debug events.
#[derive(Debug, Clone)]
pub struct EventFilters {
    pub render: bool,
    pub container: bool,
    pub logs: bool,
    pub state: bool,
    pub gui: bool,
    pub selection: bool,
    pub system: bool,
    pub error: bool,
    pub text_filter: String,
}

impl EventFilters {
    /// Whether events of `category` are shown under these filters.
    pub open spec fn enabled(&self, category: EventCategory) -> bool {
        match category {
            EventCategory::Render => self.render,
            EventCategory::Container => self.container,
            EventCategory::Logs => self.logs,
            EventCategory::State => self.state,
            EventCategory::GUI => self.gui,
            EventCategory::Selection => self.selection,
            EventCategory::System => self.system,
            EventCategory::Error => self.error,
        }
    }

    /// These are the default filters: every category but System enabled, no text filter.
    pub open spec fn is_default(&self) -> bool {
        &&& self.render && self.container && self.logs && self.state && self.gui
        &&& self.selection && !self.system && self.error
        &&& self.text_filter@ == Seq::<char>::empty()
    }

    /// Whether an event passes these filters: its category is enabled and,
    /// when a text filter is set, the lowercased text occurs in the lowercased
    /// component, action or details.
    pub open spec fn admits(&self, e: DebugEvent) -> bool {
        &&& self.enabled(e.category)
        &&& self.text_filter@.len() == 0 || {
            let search = lowercase(self.text_filter@);
            ||| has_substring(lowercase(e.component@), search)
            ||| has_substring(lowercase(e.action@), search)
            ||| has_substring(lowercase(e.details@), search)
        }
    }

    /// The default filters: every category but System enabled, no text filter.
    pub fn new() -> (f: Self)
        ensures
            f.is_default(),
    {
        EventFilters {
            render: true,
            container: true,
            logs: true,
            state: true,
            gui: true,
            selection: true,
            system: false,
            error: true,
            text_filter: String::new(),
        }
    }

    /// Whether events of `category` are shown.
    pub fn is_enabled(&self, category: EventCategory) -> (b: bool)
        ensures
            b == self.enabled(category),
    {
        match category {
            EventCategory::Render => self.render,
            EventCategory::Container => self.container,
            EventCategory::Logs => self.logs,
            EventCategory::State => self.state,
            EventCategory::GUI => self.gui,
            EventCategory::Selection => self.selection,
            EventCategory::System => self.system,
            EventCategory::Error => self.error,
        }
    }

    /// Flip whether events of `category` are shown; nothing else changes.
    pub fn toggle(&mut self, category: EventCategory)
        ensures
            final(self).enabled(category) == !old(self).enabled(category),
            forall|c: EventCategory|
                c != category ==> #[trigger] final(self).enabled(c) == old(self).enabled(c),
            final(self).text_filter == old(self).text_filter,
    {
        match category {
            EventCategory::Render => self.render = !self.render,
            EventCategory::Container => self.container = !self.container,
            EventCategory::Logs => self.logs = !self.logs,
            EventCategory::State => self.state = !self.state,
            EventCategory::GUI => self.gui = !self.gui,
            EventCategory::Selection => self.selection = !self.selection,
            EventCategory::System => self.system = !self.system,
            EventCategory::Error => self.error = !self.error,
        }
    }

    /// Whether `e` passes these filters.
    pub fn admits_event(&self, e: &DebugEvent) -> (b: bool)
        ensures
            b == self.admits(*e),
    {
        if !self.is_enabled(e.category) {
            return false;
        }
        if self.text_filter.as_str().unicode_len() == 0 {
            return true;
        }
        let search = to_lowercase(self.text_filter.as_str());
        let component = to_lowercase(e.component.as_str());
        let action = to_lowercase(e.action.as_str());
        let details = to_lowercase(e.details.as_str());
        str_contains(component.as_str(), search.as_str()) || str_contains(
            action.as_str(),
            search.as_str(),
        ) || str_contains(details.as_str(), search.as_str())
    }
}

impl Default for EventFilters {
    fn default() -> (f: Self)
        ensures
            f.is_default(),
    {
        Self::new()
    }
}

/// Debug event tracker: a bounded buffer of the latest events, each given
/// the next sequence id, which can be paused and filtered.
#[derive(Debug)]
pub struct DebugTracker {
    events: VecDeque<DebugEvent>,
    filters: EventFilters,
    paused: bool,
    start_time: u64,
    sequence_counter: u64,
}

impl DebugTracker {
    /// The buffered events, oldest first.
    pub closed spec fn events(&self) -> Seq<DebugEvent> {
        self.events@
    }

    /// The current filters.
    pub closed spec fn current_filters(&self) -> EventFilters {
        self.filters
    }

    /// Whether logging is paused.
    pub closed spec fn paused_view(&self) -> bool {
        self.paused
    }

    /// The last sequence id handed out (0 when none since the last clear).
    pub closed spec fn counter(&self) -> u64 {
        self.sequence_counter
    }

    /// The start time used to format events.
    pub closed spec fn start_view(&self) -> u64 {
        self.start_time
    }

    /// The buffer never holds more than `MAX_EVENTS` events.
    pub closed spec fn wf(&self) -> bool {
        self.events@.len() <= MAX_EVENTS
    }

    /// A tracker started now, with no events, default filters, not paused.
    pub fn new() -> (t: Self)
        ensures
            t.wf(),
            t.events() == Seq::<DebugEvent>::empty(),
            !t.paused_view(),
            t.counter() == 0,
            t.current_filters().is_default(),
    {
        Self::new_at(current_time_ms())
    }

    /// A tracker started at `start_time`, with no events, default filters, not paused.
    pub fn new_at(start_time: u64) -> (t: Self)
        ensures
            t.wf(),
            t.events() == Seq::<DebugEvent>::empty(),
            !t.paused_view(),
            t.counter() == 0,
            t.start_view() == start_time,
            t.current_filters().is_default(),
    {
        DebugTracker {
            events: VecDeque::new(),
            filters: EventFilters::new(),
            paused: false,
            start_time,
            sequence_counter: 0,
        }
    }

    /// Log an event. While paused nothing changes. Otherwise the event gets the
    /// next sequence id and is appended; when the buffer is full the oldest
    /// event is dropped first.
    pub fn log_event(&mut self, event: DebugEvent)
        requires
            old(self).wf(),
            !old(self).paused_view() ==> old(self).counter() < u64::MAX,
        ensures
            final(self).wf(),
            final(self).current_filters() == old(self).current_filters(),
            final(self).paused_view() == old(self).paused_view(),
            final(self).start_view() == old(self).start_view(),
            old(self).paused_view() ==> final(self).events() == old(self).events()
                && final(self).counter() == old(self).counter(),
            !old(self).paused_view() ==> {
                let stamped = DebugEvent { sequence_id: Some((old(self).counter() + 1) as u64), ..event };
                &&& final(self).counter() == old(self).counter() + 1
                &&& final(self).events() == if old(self).events().len() >= MAX_EVENTS {
                    old(self).events().drop_first().push(stamped)
                } else {
                    old(self).events().push(stamped)
                }
            },
    {
        if self.paused {
            return;
        }
        self.sequence_counter = self.sequence_counter + 1;
        let mut event = event;
        event.sequence_id = Some(self.sequence_counter);
        if self.events.len() >= MAX_EVENTS {
            self.events.pop_front();
        }
        self.events.push_back(event);
    }

    /// Log an event built from its parts, stamped with the current time.
    pub fn log(&mut self, category: EventCategory, component: String, action: String, details: String)
        requires
            old(self).wf(),
            !old(self).paused_view() ==> old(self).counter() < u64::MAX,
        ensures
            final(self).wf(),
            final(self).current_filters() == old(self).current_filters(),
            final(self).paused_view() == old(self).paused_view(),
            old(self).paused_view() ==> final(self).events() == old(self).events(),
            !old(self).paused_view() ==> {
                let e = final(self).events().last();
                &&& final(self).counter() == old(self).counter() + 1
                &&& e.category == category && e.component == component && e.action == action
                    && e.details == details
                &&& e.sequence_id == Some(final(self).counter())
            },
    {
        self.log_event(DebugEvent::new(category, component, action, details));
    }

    /// The buffered events that pass the current filters, oldest first.
    pub fn get_filtered_events(&self) -> (v: Vec<DebugEvent>)
        ensures
            v@ == self.events().filter(|e: DebugEvent| self.current_filters().admits(e)),
    {
        let mut v: Vec<DebugEvent> = Vec::new();
        let n = self.events.len();
        let mut i: usize = 0;
        let ghost pred = |e: DebugEvent| self.filters.admits(e);
        while i < n
            invariant
                n == self.events@.len(),
                i <= n,
                v@ == self.events@.take(i as int).filter(pred),
                pred == (|e: DebugEvent| self.filters.admits(e)),
            decreases n - i,
        {
            let e = &self.events[i];
            let keep = self.filters.admits_event(e);
            if keep {
                v.push(e.duplicate());
            }
            proof {
                let t = self.events@.take(i + 1);
                reveal_with_fuel(Seq::<_>::filter, 1);
                assert(t.drop_last() =~= self.events@.take(i as int));
                assert(pred(t.last()) == keep);
                assert(t.filter(pred) == if pred(t.last()) {
                    t.drop_last().filter(pred).push(t.last())
                } else {
                    t.drop_last().filter(pred)
                });
            }
            i = i + 1;
        }
        proof {
            assert(self.events@.take(n as int) =~= self.events@);
        }
        v
    }

    /// Drop every event and restart the sequence ids.
    pub fn clear(&mut self)
        ensures
            final(self).wf(),
            final(self).events() == Seq::<DebugEvent>::empty(),
            final(self).counter() == 0,
            final(self).current_filters() == old(self).current_filters(),
            final(self).paused_view() == old(self).paused_view(),
            final(self).start_view() == old(self).start_view(),
    {
        self.events.clear();
        self.sequence_counter = 0;
    }

    /// Flip the pause state.
    pub fn toggle_pause(&mut self)
        ensures
            final(self).paused_view() == !old(self).paused_view(),
            final(self).events() == old(self).events(),
            final(self).counter() == old(self).counter(),
            final(self).current_filters() == old(self).current_filters(),
            final(self).wf() == old(self).wf(),
    {
        self.paused = !self.paused;
    }

    /// Whether logging is paused.
    pub fn is_paused(&self) -> (b: bool)
        ensures
            b == self.paused_view(),
    {
        self.paused
    }

    /// The current filters.
    pub fn filters(&self) -> (f: &EventFilters)
        ensures
            *f == self.current_filters(),
    {
        &self.filters
    }

    /// Replace the filters; nothing else changes.
    pub fn set_filters(&mut self, filters: EventFilters)
        ensures
            final(self).current_filters() == filters,
            final(self).events() == old(self).events(),
            final(self).counter() == old(self).counter(),
            final(self).paused_view() == old(self).paused_view(),
            final(self).wf() == old(self).wf(),
    {
        self.filters = filters;
    }

    /// The start time used to format events.
    pub fn start_time(&self) -> (t: u64)
        ensures
            t == self.start_view(),
    {
        self.start_time
    }
}

} // verus!
