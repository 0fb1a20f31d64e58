//! Rectangles of the terminal and the placement of overlays in them.
use vstd::prelude::*;
use crate::clock::current_time_ms;
use ratatui::layout;

verus! {

/// An area of the terminal: its top-left corner and its size, in cells.
#[derive(Debug, Clone, Copy, PartialEq, Eq, Structural, Hash)]
pub struct Rect {
    pub x: u16,
    pub y: u16,
    pub width: u16,
    pub height: u16,
}

/// The rectangle that `ratatui::layout::Rect::new` makes: the size is cut so
/// that the right and bottom edges stay within `u16::MAX`.
pub open spec fn clamped_rect(x: u16, y: u16, width: u16, height: u16) -> Rect {
    Rect {
        x,
        y,
        width: if width > u16::MAX - x { (u16::MAX - x) as u16 } else { width },
        height: if height > u16::MAX - y { (u16::MAX - y) as u16 } else { height },
    }
}

/// The first column right of `r` (saturating at `u16::MAX`).
pub open spec fn right(r: Rect) -> int {
    if r.x + r.width > u16::MAX { u16::MAX as int } else { r.x + r.width }
}

/// The first row below `r` (saturating at `u16::MAX`).
pub open spec fn bottom(r: Rect) -> int {
    if r.y + r.height > u16::MAX { u16::MAX as int } else { r.y + r.height }
}

/// Whether two rectangles overlap.
pub open spec fn overlaps(a: Rect, b: Rect) -> bool {
    &&& a.x < right(b)
    &&& right(a) > b.x
    &&& a.y < bottom(b)
    &&& bottom(a) > b.y
}

/// `ratatui::layout::Rect::new`. Trusted: ratatui 0.29 keeps `x` and `y`
/// and cuts the width to `u16::MAX - x` and the height to `u16::MAX - y`.
#[verifier::external_body]
pub(crate) fn rect_new(x: u16, y: u16, width: u16, height: u16) -> (r: Rect)
    ensures
        r == clamped_rect(x, y, width, height),
{
    let r = layout::Rect::new(x, y, width, height);
    Rect { x: r.x, y: r.y, width: r.width, height: r.height }
}

/// `ratatui::layout::Rect::intersects`. Trusted: ratatui 0.29 compares the
/// edges, with the right and bottom edges saturating at `u16::MAX`.
#[verifier::external_body]
pub(crate) fn intersects(a: Rect, b: Rect) -> (r: bool)
    ensures
        r == overlaps(a, b),
{
    let ra = layout::Rect { x: a.x, y: a.y, width: a.width, height: a.height };
    let rb = layout::Rect { x: b.x, y: b.y, width: b.width, height: b.height };
    ra.intersects(rb)
}

/// The 1x1 rectangle of a clicked cell.
pub fn cell(x: u16, y: u16) -> (r: Rect)
    ensures
        r == clamped_rect(x, y, 1, 1),
{
    rect_new(x, y, 1, 1)
}

/// Position for modal overlays.
#[derive(Clone, Copy, Debug, PartialEq, Eq, Structural)]
pub enum Position {
    Center,
    Top,
    Bottom,
}

/// A modal overlay: a share of its parent's size and where it sits.
#[derive(Clone, Copy, Debug, PartialEq, Eq, Structural)]
pub struct ModalOverlay {
    pub width_percent: u16,
    pub height_percent: u16,
    pub position: Position,
}

/// The width of the overlay in `parent`: its share, at least one cell.
pub open spec fn overlay_width(m: ModalOverlay, parent: Rect) -> int {
    let w = parent.width * m.width_percent / 100;
    if w < 1 { 1 } else { w }
}

/// The height of the overlay in `parent`: its share, at least one cell.
pub open spec fn overlay_height(m: ModalOverlay, parent: Rect) -> int {
    let h = parent.height * m.height_percent / 100;
    if h < 1 { 1 } else { h }
}

/// The column of the overlay in `parent`, before any clamping.
pub open spec fn overlay_x(m: ModalOverlay, parent: Rect) -> int {
    let width = overlay_width(m, parent);
    parent.x + (if parent.width > width { parent.width - width } else { 0 }) / 2
}

/// The row of the overlay in `parent`, before any clamping: vertically
/// centred, two rows from the top, or two rows above the bottom.
pub open spec fn overlay_y(m: ModalOverlay, parent: Rect) -> int {
    let height = overlay_height(m, parent);
    match m.position {
        Position::Top => parent.y + 2,
        Position::Center => parent.y + (if parent.height > height { parent.height - height } else {
            0
        }) / 2,
        Position::Bottom => parent.y + (if parent.height > height + 2 {
            parent.height - (height + 2)
        } else {
            0
        }),
    }
}

/// Whether placing `m` in `parent` stays within `u16` arithmetic: the
/// shares, the column and the row of the overlay for its own position (and,
/// at the bottom, its height plus the two rows of margin) fit in a `u16`.
pub open spec fn overlay_fits(m: ModalOverlay, parent: Rect) -> bool {
    &&& parent.width * m.width_percent <= u16::MAX
    &&& parent.height * m.height_percent <= u16::MAX
    &&& overlay_x(m, parent) <= u16::MAX
    &&& overlay_y(m, parent) <= u16::MAX
    &&& (m.position == Position::Bottom ==> overlay_height(m, parent) + 2 <= u16::MAX)
}

/// The area of the overlay in `parent`: its share of the parent's size (at
/// least one cell each way), centred horizontally, and vertically centred, two
/// rows from the top, or two rows above the bottom.
pub open spec fn overlay_area(m: ModalOverlay, parent: Rect) -> Rect {
    clamped_rect(
        overlay_x(m, parent) as u16,
        overlay_y(m, parent) as u16,
        overlay_width(m, parent) as u16,
        overlay_height(m, parent) as u16,
    )
}

impl ModalOverlay {
    /// An overlay of half the parent's width and height, centred.
    pub fn new() -> (m: Self)
        ensures
            m == (ModalOverlay { width_percent: 50, height_percent: 50, position: Position::Center }),
    {
        ModalOverlay { width_percent: 50, height_percent: 50, position: Position::Center }
    }

    /// Set the share of the parent's width, at most 100 percent.
    pub fn width_percent(self, percent: u16) -> (m: Self)
        ensures
            m == (ModalOverlay {
                width_percent: if percent > 100 { 100 } else { percent },
                ..self
            }),
    {
        let mut m = self;
        m.width_percent = if percent > 100 { 100 } else { percent };
        m
    }

    /// Set the share of the parent's height, at most 100 percent.
    pub fn height_percent(self, percent: u16) -> (m: Self)
        ensures
            m == (ModalOverlay {
                height_percent: if percent > 100 { 100 } else { percent },
                ..self
            }),
    {
        let mut m = self;
        m.height_percent = if percent > 100 { 100 } else { percent };
        m
    }

    /// Set where the overlay sits.
    pub fn position(self, position: Position) -> (m: Self)
        ensures
            m == (ModalOverlay { position, ..self }),
    {
        let mut m = self;
        m.position = position;
        m
    }

    /// Calculate the modal area within the parent area.
    pub fn area(&self, parent: Rect) -> (r: Rect)
        requires
            overlay_fits(*self, parent),
        ensures
            r == overlay_area(*self, parent),
    {
        let w = parent.width * self.width_percent / 100;
        let width = if w < 1 { 1 } else { w };
        let h = parent.height * self.height_percent / 100;
        let height = if h < 1 { 1 } else { h };
        let x = parent.x + parent.width.saturating_sub(width) / 2;
        let y = match self.position {
            Position::Top => parent.y + 2,
            Position::Center => parent.y + parent.height.saturating_sub(height) / 2,
            Position::Bottom => parent.y + parent.height.saturating_sub(height + 2),
        };
        rect_new(x, y, width, height)
    }
}

impl Default for ModalOverlay {
    fn default() -> (m: Self)
        ensures
            m == (ModalOverlay { width_percent: 50, height_percent: 50, position: Position::Center }),
    {
        Self::new()
    }
}

/// A centred overlay whose share is at most the whole parent lies within the
/// parent, as long as the parent has some area and lies on the screen.
pub proof fn law_centered_overlay_inside(m: ModalOverlay, parent: Rect)
    requires
        overlay_fits(m, parent),
        parent.x + parent.width <= u16::MAX,
        parent.y + parent.height <= u16::MAX,
        m.width_percent <= 100,
        m.height_percent <= 100,
        m.position == Position::Center,
        parent.width >= 1,
        parent.height >= 1,
    ensures
        ({
            let r = overlay_area(m, parent);
            &&& parent.x <= r.x
            &&& r.x + r.width <= parent.x + parent.width
            &&& parent.y <= r.y
            &&& r.y + r.height <= parent.y + parent.height
        }),
{
    let w = parent.width * m.width_percent / 100;
    let h = parent.height * m.height_percent / 100;
    assert(w <= parent.width) by (nonlinear_arith)
        requires
            w == parent.width * m.width_percent / 100,
            m.width_percent <= 100,
            parent.width >= 0,
    ;
    assert(h <= parent.height) by (nonlinear_arith)
        requires
            h == parent.height * m.height_percent / 100,
            m.height_percent <= 100,
            parent.height >= 0,
    ;
}

/// The width of the info box.
pub const INFO_BOX_WIDTH: u16 = 30;

/// The height of the info box.
pub const INFO_BOX_HEIGHT: u16 = 3;

/// A toast notification that shows a temporary message for a while.
#[derive(Clone, Copy, Debug, PartialEq, Eq, Structural)]
pub struct InfoBox {
    /// How long the message shows, in milliseconds.
    pub show_duration: u64,
}

/// The area of the info box in `parent`: 30x3 cells, two columns from the
/// right edge and one row above the bottom.
pub open spec fn info_box_area(parent: Rect) -> Rect {
    clamped_rect(
        (parent.x + (if parent.width > 32 { parent.width - 32 } else { 0 })) as u16,
        (parent.y + (if parent.height > 4 { parent.height - 4 } else { 0 })) as u16,
        INFO_BOX_WIDTH,
        INFO_BOX_HEIGHT,
    )
}

impl InfoBox {
    /// An info box that shows its message for two seconds.
    pub fn new() -> (b: Self)
        ensures
            b.show_duration == 2000,
    {
        InfoBox { show_duration: 2000 }
    }

    /// Set how long the message shows, in milliseconds.
    pub fn duration(self, duration: u64) -> (b: Self)
        ensures
            b.show_duration == duration,
    {
        InfoBox { show_duration: duration }
    }

    /// Whether a message shown at `start_time` is still visible now.
    pub fn is_visible(&self, start_time: u64) -> (b: bool)
        ensures
            b ==> self.show_duration > 0,
    {
        self.is_visible_at(start_time, current_time_ms())
    }

    /// Whether a message shown at `start_time` is still visible at `now`
    /// (a start after `now` counts as just shown).
    pub fn is_visible_at(&self, start_time: u64, now: u64) -> (b: bool)
        ensures
            b == ((if now >= start_time { now - start_time } else { 0 }) < self.show_duration),
    {
        now.saturating_sub(start_time) < self.show_duration
    }

    /// The area of the info box in `parent`, whatever the message's length.
    /// `parent` must end within the screen's coordinates, as every rectangle
    /// that `Rect::new` makes does (it clamps the size so); a `Rect` built
    /// field by field may not.
    pub fn area(&self, parent: Rect, _message_len: usize) -> (r: Rect)
        requires
            parent.x + parent.width <= u16::MAX,
            parent.y + parent.height <= u16::MAX,
        ensures
            r == info_box_area(parent),
    {
        let x = parent.x + parent.width.saturating_sub(INFO_BOX_WIDTH + 2);
        let y = parent.y + parent.height.saturating_sub(INFO_BOX_HEIGHT + 1);
        rect_new(x, y, INFO_BOX_WIDTH, INFO_BOX_HEIGHT)
    }
}

impl Default for InfoBox {
    fn default() -> (b: Self)
        ensures
            b.show_duration == 2000,
    {
        Self::new()
    }
}

/// The rectangle of size `width` x `height` centred in `area` (moved to the
/// corner where it does not fit).
pub open spec fn centered_rect(area: Rect, width: u16, height: u16) -> Rect {
    clamped_rect(
        (area.x + (if area.width > width { area.width - width } else { 0 }) / 2) as u16,
        (area.y + (if area.height > height { area.height - height } else { 0 }) / 2) as u16,
        width,
        height,
    )
}

/// The rectangle of size `width` x `height` centred in `area`. `area`
/// must end within the screen's coordinates, as every rectangle that
/// `Rect::new` makes does (it clamps the size so); a `Rect` built field by
/// field may not.
pub fn centered(area: Rect, width: u16, height: u16) -> (r: Rect)
    requires
        area.x + area.width <= u16::MAX,
        area.y + area.height <= u16::MAX,
    ensures
        r == centered_rect(area, width, height),
{
    let x = area.x + area.width.saturating_sub(width) / 2;
    let y = area.y + area.height.saturating_sub(height) / 2;
    rect_new(x, y, width, height)
}

/// Direction in which a layout splits an area.
#[derive(Clone, Copy, Debug, PartialEq, Eq, Structural)]
pub enum Direction {
    Horizontal,
    Vertical,
}

/// A size constraint on one part of a layout.
#[derive(Clone, Copy, Debug, PartialEq, Eq, Structural)]
pub enum Constraint {
    Length(u16),
    Percentage(u16),
    Min(u16),
    Max(u16),
}

/// `ratatui::layout::Layout::split` with the default flex and spacing.
/// Trusted: ratatui 0.29 makes one part per constraint. Which parts it
/// picks is left unsaid: its documentation warns that some constraint sets
/// have no fixed answer, and its solver walks a hash map whose order is
/// seeded anew for each solve, so two calls on the same input may differ.
#[verifier::external_body]
pub(crate) fn split_area(area: Rect, direction: Direction, margin: u16, constraints: &Vec<Constraint>) -> (r: Vec<Rect>)
    ensures
        r@.len() == constraints@.len(),
{
    layout::Layout::default()
        .direction(match direction {
            Direction::Vertical => layout::Direction::Vertical,
            Direction::Horizontal => layout::Direction::Horizontal,
        })
        .margin(margin).constraints(constraints.iter().map(|c| match *c {
            Constraint::Length(n) => layout::Constraint::Length(n),
            Constraint::Percentage(n) => layout::Constraint::Percentage(n),
            Constraint::Min(n) => layout::Constraint::Min(n),
            Constraint::Max(n) => layout::Constraint::Max(n),
        }))
        .split(layout::Rect::new(area.x, area.y, area.width, area.height))
        .iter()
        .map(|p| Rect { x: p.x, y: p.y, width: p.width, height: p.height })
        .collect()
}

/// A layout that splits an area into parts by constraints.
#[derive(Debug)]
pub struct SplitLayout {
    pub direction: Direction,
    pub constraints: Vec<Constraint>,
    pub margin: u16,
}

impl SplitLayout {
    /// A layout in `direction` with no constraints and no margin.
    pub fn new(direction: Direction) -> (l: Self)
        ensures
            l.direction == direction,
            l.constraints@.len() == 0,
            l.margin == 0,
    {
        SplitLayout { direction, constraints: Vec::new(), margin: 0 }
    }

    /// The layout with these constraints.
    pub fn constraints(self, constraints: Vec<Constraint>) -> (l: Self)
        ensures
            l.direction == self.direction,
            l.constraints@ == constraints@,
            l.margin == self.margin,
    {
        SplitLayout { direction: self.direction, constraints, margin: self.margin }
    }

    /// The layout with this margin.
    pub fn margin(self, margin: u16) -> (l: Self)
        ensures
            l.direction == self.direction,
            l.constraints@ == self.constraints@,
            l.margin == margin,
    {
        SplitLayout { direction: self.direction, constraints: self.constraints, margin }
    }

    /// Split `area` into one part per constraint (which parts, ratatui's
    /// solver decides).
    pub fn split(&self, area: Rect) -> (r: Vec<Rect>)
        ensures
            r@.len() == self.constraints@.len(),
    {
        split_area(area, self.direction, self.margin, &self.constraints)
    }
}

} // verus!
