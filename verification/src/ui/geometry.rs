//! Rectangles of character cells.
use vstd::prelude::*;

verus! {

/// A rectangle of cells: its top left corner and its size.
#[derive(Clone, Copy, Debug, PartialEq, Eq, Structural)]
pub struct Rect {
    pub x: u16,
    pub y: u16,
    pub width: u16,
    pub height: u16,
}

/// Cells to leave free on each side of a rectangle.
#[derive(Clone, Copy, Debug, PartialEq, Eq, Structural)]
pub struct Margin {
    pub horizontal: u16,
    pub vertical: u16,
}

/// How much of an area one band of a layout asks for.
#[derive(Clone, Copy, Debug, PartialEq, Eq, Structural)]
pub enum Constraint {
    /// Exactly this many cells.
    Length(u16),
    /// A share of what the other bands leave, in proportion to the weight.
    Fill(u16),
}

/// `2 * n`, or `u16::MAX` where that does not fit.
pub open spec fn doubled(n: u16) -> int {
    if 2 * n > u16::MAX {
        u16::MAX as int
    } else {
        2 * n
    }
}

/// `a + b`, or `u16::MAX` where that does not fit.
pub open spec fn saturating_sum(a: u16, b: u16) -> int {
    if a + b > u16::MAX {
        u16::MAX as int
    } else {
        a + b
    }
}

impl Rect {
    /// The empty rectangle at the origin.
    pub open spec fn zero() -> Rect {
        Rect { x: 0, y: 0, width: 0, height: 0 }
    }

    /// The rectangle at `(x, y)` whose width and height are cut back so that
    /// its right and bottom edges stay within `u16`.
    pub open spec fn clamped(x: u16, y: u16, width: u16, height: u16) -> Rect {
        Rect {
            x,
            y,
            width: if width > u16::MAX - x {
                (u16::MAX - x) as u16
            } else {
                width
            },
            height: if height > u16::MAX - y {
                (u16::MAX - y) as u16
            } else {
                height
            },
        }
    }

    /// The rectangle that is left when `margin` is taken off on every side:
    /// empty at the origin where the margin does not fit twice.
    pub open spec fn inset(self, margin: Margin) -> Rect {
        if self.width < doubled(margin.horizontal) || self.height < doubled(margin.vertical) {
            Rect::zero()
        } else {
            Rect {
                x: saturating_sum(self.x, margin.horizontal) as u16,
                y: saturating_sum(self.y, margin.vertical) as u16,
                width: (self.width - doubled(margin.horizontal)) as u16,
                height: (self.height - doubled(margin.vertical)) as u16,
            }
        }
    }

    /// Whether `band` takes the columns of `self` and some of its rows: it
    /// starts in the same column, is as wide, and lies between the top of
    /// `self` and its bottom, the bottom taken within `u16`.
    pub open spec fn holds_band(self, band: Rect) -> bool {
        &&& band.x == self.x
        &&& band.width == self.width
        &&& self.y <= band.y
        &&& band.y + band.height <= saturating_sum(self.y, self.height)
    }

    /// Whether `bands` has one rectangle for each constraint, each of them a
    /// band of `self`.
    pub open spec fn stacks(self, constraints: Seq<Constraint>, bands: Seq<Rect>) -> bool {
        &&& bands.len() == constraints.len()
        &&& forall|i: int| 0 <= i < bands.len() ==> self.holds_band(#[trigger] bands[i])
    }
}

/// Calls `ratatui::layout::Rect::new`, which keeps the position and cuts the
/// width and the height back to what is left of `u16` after `x` and `y`.
#[verifier::external_body]
pub(crate) fn rect_new(x: u16, y: u16, width: u16, height: u16) -> (r: Rect)
    ensures
        r == Rect::clamped(x, y, width, height),
{
    let r = ratatui::layout::Rect::new(x, y, width, height);
    Rect { x: r.x, y: r.y, width: r.width, height: r.height }
}

/// Calls `ratatui::layout::Rect::inner`. Where twice the margin (saturating)
/// is more than the width or the height, it returns the empty rectangle at the
/// origin; else it moves the corner in by the margin (saturating) and takes
/// twice the margin off the width and the height.
#[verifier::external_body]
pub(crate) fn rect_inner(area: Rect, margin: Margin) -> (r: Rect)
    ensures
        r == area.inset(margin),
{
    let outer = ratatui::layout::Rect {
        x: area.x,
        y: area.y,
        width: area.width,
        height: area.height,
    };
    let r = outer.inner(ratatui::layout::Margin {
        horizontal: margin.horizontal,
        vertical: margin.vertical,
    });
    Rect { x: r.x, y: r.y, width: r.width, height: r.height }
}

/// Calls `ratatui::layout::Layout::split` on a vertical layout of the given
/// constraints, with no margin and no spacing. The bands come from a
/// constraint solver; what is stated here is what holds of every solution:
/// there is one band for each constraint, each band keeps the column and the
/// width of `area`, and both edges of each band are required to lie between
/// the top of `area` and its bottom, the top edge not below the bottom edge.
/// How the rows are shared out among the bands is the solver's answer to the
/// constraints and is not stated.
#[verifier::external_body]
pub(crate) fn split_vertical(area: Rect, constraints: &Vec<Constraint>) -> (bands: Vec<Rect>)
    ensures
        area.stacks(constraints@, bands@),
{
    let list = constraints.iter().map(|c| match c {
        Constraint::Length(n) => ratatui::layout::Constraint::Length(*n),
        Constraint::Fill(n) => ratatui::layout::Constraint::Fill(*n),
    });
    let outer = ratatui::layout::Rect {
        x: area.x,
        y: area.y,
        width: area.width,
        height: area.height,
    };
    let split = ratatui::layout::Layout::vertical(list).split(outer);
    split.iter().map(|r| Rect { x: r.x, y: r.y, width: r.width, height: r.height }).collect()
}

} // verus!
