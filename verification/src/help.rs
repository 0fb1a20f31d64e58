//! The help overlay: the keys it lists, and where it and its sections go.
use vstd::prelude::*;
use crate::layout::{centered, centered_rect, split_area, Constraint, Direction, Rect};
use crate::panels::HelpPanel;
use crate::text::{lines_of, text_lines};

verus! {

/// A piece of help text, highlighted or not.
#[derive(Debug, Clone)]
pub struct HelpSpan {
    pub text: String,
    pub highlight: bool,
}

/// The plain values of a piece of help text.
pub open spec fn span_view(s: HelpSpan) -> (Seq<char>, bool) {
    (s.text@, s.highlight)
}

/// The plain values of a line of help text.
pub open spec fn line_view(l: Vec<HelpSpan>) -> Seq<(Seq<char>, bool)> {
    l@.map_values(|s: HelpSpan| span_view(s))
}

/// The plain values of lines of help text.
pub open spec fn lines_view(ls: Seq<Vec<HelpSpan>>) -> Seq<Seq<(Seq<char>, bool)>> {
    ls.map_values(|l: Vec<HelpSpan>| line_view(l))
}

/// A key shown as a button: ` ( key ) `, highlighted.
pub open spec fn button(key: Seq<char>) -> (Seq<char>, bool) {
    (" ( "@ + key + " ) "@, true)
}

/// Plain help text.
pub open spec fn plain(t: Seq<char>) -> (Seq<char>, bool) {
    (t, false)
}

/// The lines that list the keys.
pub open spec fn keymap_lines() -> Seq<Seq<(Seq<char>, bool)>> {
    let or = plain(" or "@);
    let sp = plain(" "@);
    seq![
        seq![sp, button("tab"@), or, button("shift+tab"@), plain("change panels"@)],
        seq![
            sp,
            button("↑ ↓"@),
            or,
            button("j k"@),
            or,
            button("PgUp PgDown"@),
            or,
            button("Home End"@),
            plain("scroll vertically"@),
        ],
        seq![sp, button("← →"@), plain("horizontal scroll across logs"@)],
        seq![sp, button("ctrl"@), plain("increase scroll speed, used in conjuction scroll keys"@)],
        seq![sp, button("enter"@), plain("send docker container command"@)],
        seq![sp, button("e"@), plain("exec into a container"@)],
        seq![sp, button("f"@), plain("force clear the screen & redraw the gui"@)],
        seq![sp, button("h"@), plain("toggle this help information - or click heading"@)],
        seq![sp, button("s"@), plain("save logs to file"@)],
        seq![
            sp,
            button("m"@),
            plain("toggle mouse capture - if disabled, text on screen can be selected & copied"@),
        ],
        seq![sp, button("F1"@), or, button("/"@), plain("enter filter mode"@)],
        seq![sp, button("0"@), plain("stop sort"@)],
        seq![sp, button("1 - 9"@), plain("sort by header - or click header"@)],
        seq![sp, button("- ="@), plain("change log section height"@)],
        seq![sp, button("\\"@), plain("toggle log section visibility"@)],
        seq![sp, button("esc"@), plain("close dialog"@)],
        seq![sp, button("q"@), plain("quit at any time"@)],
    ]
}

fn span(t: &str, highlight: bool) -> (s: HelpSpan)
    ensures
        span_view(s) == (t@, highlight),
{
    let mut text = String::new();
    crate::fmt::push_str(&mut text, t);
    HelpSpan { text, highlight }
}

fn empty_line() -> (l: Vec<HelpSpan>)
    ensures
        line_view(l) == Seq::<(Seq<char>, bool)>::empty(),
{
    let l: Vec<HelpSpan> = Vec::new();
    proof {
        assert(line_view(l) =~= Seq::<(Seq<char>, bool)>::empty());
    }
    l
}

fn one_span_line(t: &str, highlight: bool) -> (l: Vec<HelpSpan>)
    ensures
        line_view(l) == seq![(t@, highlight)],
{
    let l = vec![span(t, highlight)];
    proof {
        assert(line_view(l) =~= seq![(t@, highlight)]);
    }
    l
}

fn button_span(key: &str) -> (s: HelpSpan)
    ensures
        span_view(s) == button(key@),
{
    let mut text = String::new();
    crate::fmt::push_str(&mut text, " ( ");
    crate::fmt::push_str(&mut text, key);
    crate::fmt::push_str(&mut text, " ) ");
    HelpSpan { text, highlight: true }
}

fn key_line(key: &str, desc: &str) -> (l: Vec<HelpSpan>)
    ensures
        line_view(l) == seq![plain(" "@), button(key@), plain(desc@)],
{
    let l = vec![span(" ", false), button_span(key), span(desc, false)];
    proof {
        assert(line_view(l) =~= seq![plain(" "@), button(key@), plain(desc@)]);
    }
    l
}

fn two_key_line(a: &str, b: &str, desc: &str) -> (l: Vec<HelpSpan>)
    ensures
        line_view(l) == seq![plain(" "@), button(a@), plain(" or "@), button(b@), plain(desc@)],
{
    let l = vec![span(" ", false), button_span(a), span(" or ", false), button_span(b), span(desc, false)];
    proof {
        assert(line_view(l) =~= seq![plain(" "@), button(a@), plain(" or "@), button(b@), plain(desc@)]);
    }
    l
}

impl HelpPanel {
    /// The lines that list the keys (see `keymap_lines`).
    pub fn generate_keymap_section() -> (r: Vec<Vec<HelpSpan>>)
        ensures
            lines_view(r@) == keymap_lines(),
    {
        let scroll = vec![
            span(" ", false),
            button_span("↑ ↓"),
            span(" or ", false),
            button_span("j k"),
            span(" or ", false),
            button_span("PgUp PgDown"),
            span(" or ", false),
            button_span("Home End"),
            span("scroll vertically", false),
        ];
        proof {
            assert(line_view(scroll) =~= keymap_lines()[1]);
        }
        let r = vec![
            two_key_line("tab", "shift+tab", "change panels"),
            scroll,
            key_line("← →", "horizontal scroll across logs"),
            key_line("ctrl", "increase scroll speed, used in conjuction scroll keys"),
            key_line("enter", "send docker container command"),
            key_line("e", "exec into a container"),
            key_line("f", "force clear the screen & redraw the gui"),
            key_line("h", "toggle this help information - or click heading"),
            key_line("s", "save logs to file"),
            key_line("m", "toggle mouse capture - if disabled, text on screen can be selected & copied"),
            two_key_line("F1", "/", "enter filter mode"),
            key_line("0", "stop sort"),
            key_line("1 - 9", "sort by header - or click header"),
            key_line("- =", "change log section height"),
            key_line("\\", "toggle log section visibility"),
            key_line("esc", "close dialog"),
            key_line("q", "quit at any time"),
        ];
        proof {
            assert(lines_view(r@) =~= keymap_lines());
        }
        r
    }

    /// The line naming the time zone of the log timestamps ("Etc/UTC"
    /// without a named zone).
    pub fn generate_timezone_line(zone: Option<&str>) -> (l: Vec<HelpSpan>)
        ensures
            line_view(l) == seq![
                plain("logs timezone: "@),
                (match zone {
                    Some(z) => z@,
                    None => "Etc/UTC"@,
                }, true),
            ],
    {
        let z = match zone {
            Some(z) => z,
            None => "Etc/UTC",
        };
        let l = vec![span("logs timezone: ", false), span(z, true)];
        proof {
            assert(line_view(l) =~= seq![plain("logs timezone: "@), (z@, true)]);
        }
        l
    }

    /// The time zone section: the time zone line between two empty lines
    /// when log timestamps are shown, else nothing.
    pub fn generate_timezone_section(show_timestamp: bool, zone: Option<&str>) -> (r: Vec<Vec<HelpSpan>>)
        ensures
            show_timestamp ==> r@.len() == 3 && line_view(r@[0]).len() == 0 && line_view(r@[2]).len() == 0
                && line_view(r@[1]) == seq![
                plain("logs timezone: "@),
                (match zone {
                    Some(z) => z@,
                    None => "Etc/UTC"@,
                }, true),
            ],
            !show_timestamp ==> r@.len() == 0,
    {
        if show_timestamp {
            vec![empty_line(), Self::generate_timezone_line(zone), empty_line()]
        } else {
            Vec::new()
        }
    }

    /// The name section: an empty line, then each line of `name_text`,
    /// highlighted.
    pub fn generate_name_section(name_text: &str) -> (r: Vec<Vec<HelpSpan>>)
        ensures
            lines_view(r@) == seq![Seq::<(Seq<char>, bool)>::empty()] + text_lines(name_text@).map_values(
                |l: Seq<char>| seq![(l, true)],
            ),
    {
        let lines = lines_of(name_text);
        let ghost tl = text_lines(name_text@);
        let mut r: Vec<Vec<HelpSpan>> = Vec::new();
        let first = empty_line();
        r.push(first);
        let mut i: usize = 0;
        proof {
            assert(lines_view(r@) =~= seq![line_view(first)]);
            assert(lines_view(r@) =~= seq![Seq::<(Seq<char>, bool)>::empty()] + tl.take(0).map_values(
                |l: Seq<char>| seq![(l, true)],
            ));
        }
        while i < lines.len()
            invariant
                i <= lines@.len(),
                lines@.map_values(|l: String| l@) == tl,
                lines_view(r@) == seq![Seq::<(Seq<char>, bool)>::empty()] + tl.take(i as int).map_values(
                    |l: Seq<char>| seq![(l, true)],
                ),
            decreases lines@.len() - i,
        {
            let ghost before = lines_view(r@);
            let line = one_span_line(lines[i].as_str(), true);
            r.push(line);
            proof {
                assert(tl[i as int] == lines@[i as int]@);
                assert(line_view(line) =~= seq![(tl[i as int], true)]);
                assert(lines_view(r@) =~= before.push(line_view(line)));
                assert(tl.take(i + 1) =~= tl.take(i as int).push(tl[i as int]));
                assert(tl.take(i + 1).map_values(|l: Seq<char>| seq![(l, true)]) =~= tl.take(i as int).map_values(
                    |l: Seq<char>| seq![(l, true)],
                ).push(seq![(tl[i as int], true)]));
            }
            i = i + 1;
        }
        proof {
            assert(tl.take(lines@.len() as int) =~= tl);
        }
        r
    }

    /// The description section: an empty line, then the description.
    pub fn generate_description_section(description: &str) -> (r: Vec<Vec<HelpSpan>>)
        ensures
            lines_view(r@) == seq![Seq::<(Seq<char>, bool)>::empty(), seq![plain(description@)]],
    {
        let a = empty_line();
        let b = one_span_line(description, false);
        let r = vec![a, b];
        proof {
            assert(lines_view(r@) =~= seq![line_view(a), line_view(b)]);
            assert(lines_view(r@) =~= seq![Seq::<(Seq<char>, bool)>::empty(), seq![plain(description@)]]);
        }
        r
    }

    /// The information section: an empty line, a request for feedback, and
    /// the repository, highlighted.
    pub fn generate_info_section(repo: &str) -> (r: Vec<Vec<HelpSpan>>)
        ensures
            lines_view(r@) == seq![
                Seq::<(Seq<char>, bool)>::empty(),
                seq![plain("currently an early work in progress, all and any input appreciated"@)],
                seq![(repo@, true)],
            ],
    {
        let a = empty_line();
        let b = one_span_line("currently an early work in progress, all and any input appreciated", false);
        let c = one_span_line(repo, true);
        let r = vec![a, b, c];
        proof {
            assert(lines_view(r@) =~= seq![line_view(a), line_view(b), line_view(c)]);
            assert(lines_view(r@) =~= seq![
                Seq::<(Seq<char>, bool)>::empty(),
                seq![plain("currently an early work in progress, all and any input appreciated"@)],
                seq![(repo@, true)],
            ]);
        }
        r
    }
}

/// `n`, or `u16::MAX` when larger.
pub open spec fn cap_u16(n: nat) -> u16 {
    if n > u16::MAX {
        u16::MAX
    } else {
        n as u16
    }
}

/// A section's height as a constraint, or `fallback` when it does not fit.
pub open spec fn section_length(n: nat, fallback: u16) -> Constraint {
    Constraint::Length(
        if n <= u16::MAX {
            n as u16
        } else {
            fallback
        },
    )
}

/// The sections of the help, in order: name, description, time zone, keys,
/// information.
pub open spec fn help_sections(h: Seq<nat>) -> Seq<Constraint> {
    seq![
        section_length(h[0], 10),
        section_length(h[1], 10),
        section_length(h[2], 2),
        section_length(h[3], 20),
        section_length(h[4], 5),
    ]
}

/// Where the help and its sections go.
#[derive(Debug)]
pub struct HelpAreas {
    pub area: Rect,
    pub sections: Vec<Rect>,
}

impl HelpPanel {
    /// Place the help: as wide as its widest line (60 without lines) plus 4,
    /// as high as its lines plus 3, centred in `area`, split by ratatui into
    /// its five sections of `heights` lines (see `section_constraints`).
    /// `area` must end within the screen's coordinates, as every rectangle
    /// that `Rect::new` makes does (it clamps the size so); a `Rect` built
    /// field by field may not.
    pub fn layout(widest: Option<usize>, heights: [usize; 5], area: Rect) -> (a: HelpAreas)
        requires
            area.x + area.width <= u16::MAX,
            area.y + area.height <= u16::MAX,
        ensures
            ({
                let w = match widest {
                    Some(x) => x as nat,
                    None => 60,
                } + 4;
                let h = heights[0] + heights[1] + heights[2] + heights[3] + heights[4] + 3;
                let help = centered_rect(area, cap_u16(w), cap_u16(h as nat));
                &&& a.area == help
                &&& a.sections@.len() == 5
            }),
    {
        let w: usize = match widest {
            Some(x) => x,
            None => 60,
        };
        let width: u16 = if w > 65531 {
            65535
        } else {
            (w + 4) as u16
        };
        let total: u128 = 3 + heights[0] as u128 + heights[1] as u128 + heights[2] as u128 + heights[3] as u128
            + heights[4] as u128;
        let height: u16 = if total > 65535 {
            65535
        } else {
            total as u16
        };
        let help = centered(area, width, height);
        let cs = Self::section_constraints(heights);
        let sections = split_area(help, Direction::Vertical, 0, &cs);
        HelpAreas { area: help, sections }
    }

    /// The heights of the five sections for the split of the help: each
    /// section's number of lines (see `help_sections`).
    pub fn section_constraints(heights: [usize; 5]) -> (cs: Vec<Constraint>)
        ensures
            cs@ == help_sections(seq![heights[0] as nat, heights[1] as nat, heights[2] as nat, heights[3] as nat, heights[4] as nat]),
    {
        let c = |n: usize, fallback: u16| -> (k: Constraint)
            ensures
                k == section_length(n as nat, fallback),
            {
                Constraint::Length(
                    if n <= 65535 {
                        n as u16
                    } else {
                        fallback
                    },
                )
            };
        let cs = vec![c(heights[0], 10), c(heights[1], 10), c(heights[2], 2), c(heights[3], 20), c(heights[4], 5)];
        proof {
            assert(cs@ =~= help_sections(seq![heights[0] as nat, heights[1] as nat, heights[2] as nat, heights[3] as nat, heights[4] as nat]));
        }
        cs
    }
}

/// The width of a text in terminal cells, as ratatui measures it.
pub uninterp spec fn display_width(s: Seq<char>) -> nat;

/// `ratatui::text::Span::width` of a raw span of `s`. Trusted: ratatui 0.29
/// gives the Unicode display width of the text, which depends on the text
/// alone; its value is named, not stated.
#[verifier::external_body]
fn text_width(s: &str) -> (w: usize)
    ensures
        w as nat == display_width(s@),
{
    ratatui::text::Span::raw(s).width()
}

/// The width of a line of help text: the widths of its pieces added up.
pub open spec fn line_width(l: Seq<(Seq<char>, bool)>) -> nat
    decreases l.len(),
{
    if l.len() == 0 {
        0
    } else {
        line_width(l.drop_last()) + display_width(l.last().0)
    }
}

/// The widest of the lines, if any.
pub open spec fn widest_of(ls: Seq<Seq<(Seq<char>, bool)>>) -> Option<nat>
    decreases ls.len(),
{
    if ls.len() == 0 {
        None
    } else {
        let w = line_width(ls.last());
        match widest_of(ls.drop_last()) {
            Some(m) => Some(if w > m { w } else { m }),
            None => Some(w),
        }
    }
}

impl HelpPanel {
    /// The width of a line of help text, or `usize::MAX` when larger.
    pub fn line_width(l: &Vec<HelpSpan>) -> (w: usize)
        ensures
            w as nat == crate::text::sat_usize(line_width(line_view(*l))),
    {
        let mut w: usize = 0;
        let mut i: usize = 0;
        while i < l.len()
            invariant
                i <= l@.len(),
                w as nat == crate::text::sat_usize(line_width(line_view(*l).take(i as int))),
            decreases l@.len() - i,
        {
            let x = text_width(l[i].text.as_str());
            proof {
                assert(line_view(*l).take(i + 1).drop_last() =~= line_view(*l).take(i as int));
            }
            w = w.saturating_add(x);
            i = i + 1;
        }
        proof {
            assert(line_view(*l).take(l@.len() as int) =~= line_view(*l));
        }
        w
    }

    /// The widest of the lines of help text, or `None` without lines; a
    /// width beyond `usize::MAX` counts as `usize::MAX`.
    pub fn widest(ls: &Vec<Vec<HelpSpan>>) -> (r: Option<usize>)
        ensures
            match widest_of(lines_view(ls@)) {
                Some(m) => r == Some(crate::text::sat_usize(m) as usize),
                None => r is None,
            },
    {
        let mut r: Option<usize> = None;
        let mut i: usize = 0;
        while i < ls.len()
            invariant
                i <= ls@.len(),
                match widest_of(lines_view(ls@).take(i as int)) {
                    Some(m) => r == Some(crate::text::sat_usize(m) as usize),
                    None => r is None,
                },
            decreases ls@.len() - i,
        {
            let w = Self::line_width(&ls[i]);
            proof {
                assert(lines_view(ls@).take(i + 1).drop_last() =~= lines_view(ls@).take(i as int));
                assert(lines_view(ls@).take(i + 1).last() == line_view(ls@[i as int]));
            }
            r = match r {
                Some(m) => Some(if w > m { w } else { m }),
                None => Some(w),
            };
            i = i + 1;
        }
        proof {
            assert(lines_view(ls@).take(ls@.len() as int) =~= lines_view(ls@));
        }
        r
    }
}

} // verus!
