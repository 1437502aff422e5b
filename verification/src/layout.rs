use vstd::prelude::*;

verus! {

/// A rectangle on the character grid.
#[derive(Clone, Copy, Debug, PartialEq, Eq, Structural)]
pub struct Region {
    pub x: u16,
    pub y: u16,
    pub width: u16,
    pub height: u16,
}

impl Region {
    pub open spec fn spec_right(&self) -> int {
        if self.x + self.width <= u16::MAX {
            self.x + self.width
        } else {
            u16::MAX as int
        }
    }

    pub open spec fn spec_bottom(&self) -> int {
        if self.y + self.height <= u16::MAX {
            self.y + self.height
        } else {
            u16::MAX as int
        }
    }

    pub fn new(x: u16, y: u16, width: u16, height: u16) -> (r: Region)
        ensures
            r == (Region { x, y, width, height }),
    {
        Region { x, y, width, height }
    }

    pub fn zero() -> (r: Region)
        ensures
            r == (Region { x: 0u16, y: 0u16, width: 0u16, height: 0u16 }),
    {
        Region { x: 0, y: 0, width: 0, height: 0 }
    }

    /// The column one past the right edge.
    pub fn right(&self) -> (r: u16)
        ensures
            r == self.spec_right(),
    {
        self.x.saturating_add(self.width)
    }

    /// The row one past the bottom edge.
    pub fn bottom(&self) -> (r: u16)
        ensures
            r == self.spec_bottom(),
    {
        self.y.saturating_add(self.height)
    }

    pub open spec fn spec_left(&self) -> int {
        self.x as int
    }

    pub open spec fn spec_top(&self) -> int {
        self.y as int
    }

    /// The largest rectangle covered by both, as a value.
    pub open spec fn spec_intersection(a: Region, b: Region) -> Region {
        let x1 = if a.x >= b.x { a.x as int } else { b.x as int };
        let y1 = if a.y >= b.y { a.y as int } else { b.y as int };
        let x2 = if a.spec_right() <= b.spec_right() { a.spec_right() } else { b.spec_right() };
        let y2 = if a.spec_bottom() <= b.spec_bottom() { a.spec_bottom() } else { b.spec_bottom() };
        Region {
            x: x1 as u16,
            y: y1 as u16,
            width: (if x2 >= x1 { x2 - x1 } else { 0 }) as u16,
            height: (if y2 >= y1 { y2 - y1 } else { 0 }) as u16,
        }
    }

    /// The largest rectangle covered by both.
    pub fn intersection(&self, other: Region) -> (r: Region)
        ensures
            r == Region::spec_intersection(*self, other),
            r.x == if self.x >= other.x {
                self.x
            } else {
                other.x
            },
            r.y == if self.y >= other.y {
                self.y
            } else {
                other.y
            },
            r.x + r.width == if self.spec_right() <= other.spec_right() {
                if self.spec_right() >= r.x {
                    self.spec_right()
                } else {
                    r.x as int
                }
            } else {
                if other.spec_right() >= r.x {
                    other.spec_right()
                } else {
                    r.x as int
                }
            },
            r.y + r.height == if self.spec_bottom() <= other.spec_bottom() {
                if self.spec_bottom() >= r.y {
                    self.spec_bottom()
                } else {
                    r.y as int
                }
            } else {
                if other.spec_bottom() >= r.y {
                    other.spec_bottom()
                } else {
                    r.y as int
                }
            },
    {
        let x1 = if self.x >= other.x { self.x } else { other.x };
        let y1 = if self.y >= other.y { self.y } else { other.y };
        let sr = self.right();
        let or_ = other.right();
        let x2 = if sr <= or_ { sr } else { or_ };
        let sb = self.bottom();
        let ob = other.bottom();
        let y2 = if sb <= ob { sb } else { ob };
        Region { x: x1, y: y1, width: x2.saturating_sub(x1), height: y2.saturating_sub(y1) }
    }
}

/// A width or height demand handed to the layout solver.
#[derive(Clone, Copy, Debug, PartialEq, Eq, Structural)]
pub enum LayoutConstraint {
    /// At least this many cells.
    Min(u16),
    /// At most this many cells.
    Max(u16),
    /// Exactly this many cells, if possible.
    Length(u16),
    /// A percentage of the available space.
    Percentage(u16),
    /// A fraction of the available space.
    Ratio(u32, u32),
    /// A share of the leftover space, weighted against other fills.
    Fill(u16),
}

/// How the solver distributes space left over after all constraints
/// are satisfied.
#[derive(Clone, Copy, Debug, PartialEq, Eq, Structural)]
pub enum PackPolicy {
    /// Excess goes to the lowest-priority constraint.
    Legacy,
    /// Segments pack to the start.
    Start,
    /// Segments pack to the end.
    End,
    /// Segments pack to the center.
    Center,
    /// Excess is spread between the segments.
    SpaceBetween,
    /// Excess is spread evenly, edges included.
    SpaceEvenly,
    /// Excess is spread around each segment.
    SpaceAround,
}

} // verus!

verus! {

/// ratatui's constraint type, built from ours before a solver call.
#[verifier::external_type_specification]
#[verifier::external_body]
pub struct ExConstraint(ratatui::layout::Constraint);

/// ratatui's flex policy, built from ours before a solver call.
#[verifier::external_type_specification]
#[verifier::external_body]
pub struct ExFlex(ratatui::layout::Flex);

/// ratatui's rectangle, read back into ours after a solver call.
#[verifier::external_type_specification]
#[verifier::external_body]
pub struct ExRect(ratatui::layout::Rect);

/// Relies on ratatui's `Constraint`: carries each variant over one
/// for one.
#[verifier::external_body]
fn to_outside_constraint(c: &LayoutConstraint) -> ratatui::layout::Constraint {
    match *c {
        LayoutConstraint::Min(v) => ratatui::layout::Constraint::Min(v),
        LayoutConstraint::Max(v) => ratatui::layout::Constraint::Max(v),
        LayoutConstraint::Length(v) => ratatui::layout::Constraint::Length(v),
        LayoutConstraint::Percentage(v) => ratatui::layout::Constraint::Percentage(v),
        LayoutConstraint::Ratio(a, b) => ratatui::layout::Constraint::Ratio(a, b),
        LayoutConstraint::Fill(v) => ratatui::layout::Constraint::Fill(v),
    }
}

/// Relies on ratatui's `Flex`: carries each variant over one for one.
#[verifier::external_body]
fn to_outside_flex(f: PackPolicy) -> ratatui::layout::Flex {
    match f {
        PackPolicy::Legacy => ratatui::layout::Flex::Legacy,
        PackPolicy::Start => ratatui::layout::Flex::Start,
        PackPolicy::End => ratatui::layout::Flex::End,
        PackPolicy::Center => ratatui::layout::Flex::Center,
        PackPolicy::SpaceBetween => ratatui::layout::Flex::SpaceBetween,
        PackPolicy::SpaceEvenly => ratatui::layout::Flex::SpaceEvenly,
        PackPolicy::SpaceAround => ratatui::layout::Flex::SpaceAround,
    }
}

/// Relies on ratatui's `Rect`: reads its four plain fields.
#[verifier::external_body]
fn from_outside_rect(r: &ratatui::layout::Rect) -> Region {
    Region { x: r.x, y: r.y, width: r.width, height: r.height }
}

/// Relies on ratatui's `Layout::split_with_spacers`, the layout
/// solver: splits a row of the given width into one segment per
/// constraint plus one spacer around each segment, so it returns
/// exactly `widths.len()` segments and `widths.len() + 1` spacers.
/// The solver's required constraints keep every segment inside the
/// given row and hand them out left to right; how the row is divided
/// among them is the solver's decision.
#[verifier::external_body]
pub(crate) fn solve_columns(widths: &Vec<LayoutConstraint>, flex: PackPolicy, spacing: u16, width: u16) -> (r: (
    Vec<Region>,
    Vec<Region>,
))
    ensures
        r.0@.len() == widths@.len(),
        r.1@.len() == widths@.len() + 1,
        forall|i: int| 0 <= i < r.0@.len() ==> r.0@[i].spec_right() <= width,
        forall|i: int, j: int| 0 <= i < j < r.0@.len() ==> r.0@[i].x <= r.0@[j].x,
        forall|i: int| 0 <= i < r.1@.len() ==> r.1@[i].spec_right() <= width,
{
    let cs: Vec<ratatui::layout::Constraint> = widths.iter().map(to_outside_constraint).collect();
    let area = ratatui::layout::Rect::new(0, 0, width, 0);
    let (segments, spacers) = ratatui::layout::Layout::horizontal(cs)
        .flex(to_outside_flex(flex))
        .spacing(spacing)
        .split_with_spacers(area);
    (segments.iter().map(from_outside_rect).collect(), spacers.iter().map(from_outside_rect).collect())
}

/// Relies on ratatui's `Layout::split`, the layout solver: splits the
/// area vertically into exactly one region per constraint. The
/// solver's required constraints keep every region inside the area
/// and hand them out top to bottom.
#[verifier::external_body]
pub(crate) fn solve_vertical(heights: &Vec<LayoutConstraint>, area: Region) -> (r: Vec<Region>)
    ensures
        r@.len() == heights@.len(),
        forall|i: int|
            0 <= i < r@.len() ==> area.y <= r@[i].y && r@[i].spec_bottom()
                <= area.spec_bottom(),
        forall|i: int, j: int| 0 <= i < j < r@.len() ==> r@[i].y <= r@[j].y,
{
    let cs: Vec<ratatui::layout::Constraint> = heights.iter().map(to_outside_constraint).collect();
    let out = ratatui::layout::Layout::vertical(cs)
        .split(ratatui::layout::Rect::new(area.x, area.y, area.width, area.height));
    out.iter().map(from_outside_rect).collect()
}

} // verus!
