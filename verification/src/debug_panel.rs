//! State of the debug panel: scroll position and the selected filter.
use vstd::prelude::*;
use crate::debug::{category_at, category_label, event_line, DebugEvent, EventCategory, EventFilters};
use crate::fmt::{decimal, push_decimal, push_str};

verus! {

/// Number of category filters in the filter bar.
pub const FILTER_COUNT: usize = 8;

/// The filter after filter `i`, wrapping from the last to the first.
pub open spec fn next_filter_index(i: nat) -> nat {
    (i + 1) % (FILTER_COUNT as nat)
}

/// The filter before filter `i`, wrapping from the first to the last.
pub open spec fn prev_filter_index(i: nat) -> nat {
    if i == 0 {
        (FILTER_COUNT - 1) as nat
    } else {
        (i - 1) as nat
    }
}

/// Debug panel component state.
pub struct DebugPanel {
    scroll_position: usize,
    selected_filter: usize,
}

impl DebugPanel {
    /// How many events the list is scrolled past.
    pub closed spec fn scroll(&self) -> nat {
        self.scroll_position as nat
    }

    /// The index of the selected category filter.
    pub closed spec fn selected(&self) -> nat {
        self.selected_filter as nat
    }

    /// The selected filter is one of the eight categories.
    pub closed spec fn wf(&self) -> bool {
        self.selected_filter < FILTER_COUNT
    }

    /// A panel scrolled to the top with the first filter selected.
    pub fn new() -> (p: Self)
        ensures
            p.wf(),
            p.scroll() == 0,
            p.selected() == 0,
    {
        DebugPanel { scroll_position: 0, selected_filter: 0 }
    }

    /// The scroll position.
    pub fn scroll_position(&self) -> (n: usize)
        ensures
            n == self.scroll(),
    {
        self.scroll_position
    }

    /// The index of the selected filter.
    pub fn selected_filter(&self) -> (n: usize)
        ensures
            n == self.selected(),
    {
        self.selected_filter
    }

    /// Scroll one event up, stopping at the top.
    pub fn handle_scroll_up(&mut self)
        ensures
            final(self).scroll() == if old(self).scroll() > 0 {
                (old(self).scroll() - 1) as nat
            } else {
                0
            },
            final(self).selected() == old(self).selected(),
            final(self).wf() == old(self).wf(),
    {
        self.scroll_position = self.scroll_position.saturating_sub(1);
    }

    /// Scroll one event down, stopping at the last of `max_events`.
    pub fn handle_scroll_down(&mut self, max_events: usize)
        ensures
            final(self).scroll() == if old(self).scroll() + 1 < max_events {
                old(self).scroll() + 1
            } else {
                old(self).scroll()
            },
            final(self).selected() == old(self).selected(),
            final(self).wf() == old(self).wf(),
    {
        if self.scroll_position < max_events.saturating_sub(1) {
            self.scroll_position = self.scroll_position + 1;
        }
    }

    /// Select the next filter, wrapping from the last to the first.
    pub fn handle_filter_next(&mut self)
        requires
            old(self).wf(),
        ensures
            final(self).wf(),
            final(self).selected() == next_filter_index(old(self).selected()),
            final(self).scroll() == old(self).scroll(),
    {
        self.selected_filter = (self.selected_filter + 1) % FILTER_COUNT;
    }

    /// Select the previous filter, wrapping from the first to the last.
    pub fn handle_filter_prev(&mut self)
        requires
            old(self).wf(),
        ensures
            final(self).wf(),
            final(self).selected() == prev_filter_index(old(self).selected()),
            final(self).scroll() == old(self).scroll(),
    {
        self.selected_filter = if self.selected_filter == 0 {
            FILTER_COUNT - 1
        } else {
            self.selected_filter - 1
        };
    }

    /// Toggle the category of the selected filter in `filters`.
    pub fn toggle_selected_filter(&self, filters: &mut EventFilters)
        requires
            self.wf(),
        ensures
            ({
                let c = category_at(self.selected() as int)->0;
                &&& final(filters).enabled(c) == !old(filters).enabled(c)
                &&& forall|d: EventCategory|
                    d != c ==> #[trigger] final(filters).enabled(d) == old(filters).enabled(d)
                &&& final(filters).text_filter == old(filters).text_filter
            }),
    {
        if let Some(c) = EventCategory::at_index(self.selected_filter) {
            filters.toggle(c);
        }
    }
}

/// The line of an event in the event list, its time counted from `start`.
pub open spec fn debug_line(e: DebugEvent, start: u64) -> Seq<char> {
    event_line(
        if e.timestamp >= start {
            (e.timestamp - start) as nat
        } else {
            0
        },
        e.category,
        e.component@,
        e.action@,
        e.details@,
    )
}

/// The recording state shown in the header.
pub open spec fn pause_text(is_paused: bool) -> Seq<char> {
    if is_paused {
        " ⏸ PAUSED "@
    } else {
        " ▶ RECORDING "@
    }
}

/// The entry of a category in the filter bar: its checkbox and label.
pub open spec fn filter_entry_text(c: EventCategory, enabled: bool) -> Seq<char> {
    (if enabled {
        "☑"@
    } else {
        "☐"@
    }) + " "@ + category_label(c) + " "@
}

/// How many events the list shows: those past the scroll position, at
/// most `height`.
pub open spec fn shown_count(n: nat, scroll: nat, height: nat) -> nat {
    let left = if n > scroll {
        (n - scroll) as nat
    } else {
        0
    };
    if left < height {
        left
    } else {
        height
    }
}

impl DebugPanel {
    /// The header's two parts: the recording state and the event count.
    pub fn header_parts(is_paused: bool, event_count: usize) -> (r: (String, String))
        requires
            event_count <= u64::MAX,
        ensures
            r.0@ == pause_text(is_paused),
            r.1@ == " Events: "@ + decimal(event_count as nat) + " "@,
    {
        let mut state = String::new();
        if is_paused {
            push_str(&mut state, " ⏸ PAUSED ");
        } else {
            push_str(&mut state, " ▶ RECORDING ");
        }
        let mut count = String::new();
        push_str(&mut count, " Events: ");
        push_decimal(&mut count, event_count as u64);
        push_str(&mut count, " ");
        (state, count)
    }

    /// The entries of the filter bar, one per category in order: its text,
    /// whether it is enabled, whether it is the selected filter, and whether
    /// a line break follows it (after the fourth).
    pub fn filter_entries(&self, filters: &EventFilters) -> (v: Vec<(String, bool, bool, bool)>)
        ensures
            v@.len() == FILTER_COUNT,
            forall|i: int|
                0 <= i < FILTER_COUNT ==> {
                    let c = category_at(i)->0;
                    &&& (#[trigger] v@[i]).0@ == filter_entry_text(c, filters.enabled(c))
                    &&& v@[i].1 == filters.enabled(c)
                    &&& v@[i].2 == (i == self.selected())
                    &&& v@[i].3 == (i == 3)
                },
    {
        let mut v: Vec<(String, bool, bool, bool)> = Vec::new();
        let mut i: usize = 0;
        while i < FILTER_COUNT
            invariant
                i <= FILTER_COUNT,
                v@.len() == i,
                forall|k: int|
                    0 <= k < i ==> {
                        let c = category_at(k)->0;
                        &&& (#[trigger] v@[k]).0@ == filter_entry_text(c, filters.enabled(c))
                        &&& v@[k].1 == filters.enabled(c)
                        &&& v@[k].2 == (k == self.selected())
                        &&& v@[k].3 == (k == 3)
                    },
            decreases FILTER_COUNT - i,
        {
            let c = match EventCategory::at_index(i) {
                Some(c) => c,
                None => EventCategory::Render,
            };
            let enabled = filters.is_enabled(c);
            let mut text = String::new();
            if enabled {
                push_str(&mut text, "☑");
            } else {
                push_str(&mut text, "☐");
            }
            push_str(&mut text, " ");
            push_str(&mut text, c.as_str());
            push_str(&mut text, " ");
            proof {
                assert(text@ =~= filter_entry_text(c, enabled));
            }
            v.push((text, enabled, i == self.selected_filter, i == 3));
            i = i + 1;
        }
        v
    }

    /// The lines of the event list: newest first, starting past the scroll
    /// position, at most `height` of them.
    pub fn event_lines(&self, events: &Vec<DebugEvent>, height: usize, start_time: u64) -> (v: Vec<String>)
        ensures
            v@.len() == shown_count(events@.len(), self.scroll(), height as nat),
            forall|k: int|
                0 <= k < v@.len() ==> (#[trigger] v@[k])@ == debug_line(
                    events@[events@.len() - 1 - self.scroll() - k],
                    start_time,
                ),
    {
        let n = events.len();
        let mut v: Vec<String> = Vec::new();
        if self.scroll_position >= n {
            return v;
        }
        let left = n - self.scroll_position;
        let mut k: usize = 0;
        while k < height && k < left
            invariant
                n == events@.len(),
                self.scroll() < n,
                left == n - self.scroll(),
                k <= left,
                k <= height,
                v@.len() == k,
                forall|j: int|
                    0 <= j < k ==> (#[trigger] v@[j])@ == debug_line(events@[n - 1 - self.scroll() - j], start_time),
            decreases left - k,
        {
            let idx = left - 1 - k;
            v.push(events[idx].format(start_time));
            k = k + 1;
        }
        v
    }
}

impl Default for DebugPanel {
    fn default() -> (p: Self)
        ensures
            p.wf(),
            p.scroll() == 0,
            p.selected() == 0,
    {
        Self::new()
    }
}

/// Moving to the next filter and then to the previous one (or the other way
/// round) selects the same filter again.
pub proof fn law_filter_next_prev_roundtrip(selected: nat)
    requires
        selected < FILTER_COUNT,
    ensures
        prev_filter_index(next_filter_index(selected)) == selected,
        next_filter_index(prev_filter_index(selected)) == selected,
{
}

} // verus!
