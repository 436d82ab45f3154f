//! What a screen asks of the drawing surface.
//!
//! Rendering is split in two. A widget decides what is drawn where, as a list
//! of [`Draw`] operations; whoever owns the terminal carries them out, in
//! order. A widget therefore never touches the surface, and what it decides
//! is stated over [`DrawView`], the mathematical value of an operation.
use vstd::prelude::*;

use crate::ui::geometry::Rect;

verus! {

/// The sides of a box that get a border line.
#[derive(Clone, Copy, Debug, PartialEq, Eq, Structural)]
pub struct Borders {
    pub top: bool,
    pub right: bool,
    pub bottom: bool,
    pub left: bool,
}

impl Borders {
    /// A line above the box only.
    pub open spec fn spec_top() -> Borders {
        Borders { top: true, right: false, bottom: false, left: false }
    }

    /// A line above and a line below the box.
    pub open spec fn spec_top_bottom() -> Borders {
        Borders { top: true, right: false, bottom: true, left: false }
    }

    /// A line on all four sides.
    pub open spec fn spec_all() -> Borders {
        Borders { top: true, right: true, bottom: true, left: true }
    }

    /// A line above the box only.
    #[verifier::when_used_as_spec(spec_top)]
    pub fn top() -> (b: Borders)
        ensures
            b == Borders::spec_top(),
    {
        Borders { top: true, right: false, bottom: false, left: false }
    }

    /// A line above and a line below the box.
    #[verifier::when_used_as_spec(spec_top_bottom)]
    pub fn top_bottom() -> (b: Borders)
        ensures
            b == Borders::spec_top_bottom(),
    {
        Borders { top: true, right: false, bottom: true, left: false }
    }

    /// A line on all four sides.
    #[verifier::when_used_as_spec(spec_all)]
    pub fn all() -> (b: Borders)
        ensures
            b == Borders::spec_all(),
    {
        Borders { top: true, right: true, bottom: true, left: true }
    }
}

/// One drawing operation.
#[derive(Debug, PartialEq, Eq)]
pub enum Draw {
    /// A box with plain border lines on the given sides, and an optional title
    /// in its top and in its bottom line.
    Block { area: Rect, borders: Borders, title_top: Option<String>, title_bottom: Option<String> },
    /// Text, one row for each of its lines, clipped to the area.
    Text { area: Rect, text: String },
    /// A single line of text, clipped to the area.
    Line { area: Rect, text: String },
    /// A single line of text that starts at `(x, y)` and is cut after `width`
    /// cells.
    LineAt { x: u16, y: u16, text: String, width: u16 },
    /// Text wrapped on word boundaries into the area, leading space kept.
    Paragraph { area: Rect, text: String },
    /// The notes of a page as a list that scrolls to its selected item. The
    /// list asks for each visible item in turn; `items` is the number of
    /// notes and `selected` the cursor of the page.
    List { area: Rect, items: usize, selected: Option<usize> },
}

/// The value of a [`Draw`] operation.
pub enum DrawView {
    Block {
        area: Rect,
        borders: Borders,
        title_top: Option<Seq<char>>,
        title_bottom: Option<Seq<char>>,
    },
    Text { area: Rect, text: Seq<char> },
    Line { area: Rect, text: Seq<char> },
    LineAt { x: u16, y: u16, text: Seq<char>, width: u16 },
    Paragraph { area: Rect, text: Seq<char> },
    List { area: Rect, items: nat, selected: Option<nat> },
}

/// The characters of an optional string.
pub open spec fn opt_chars(s: Option<String>) -> Option<Seq<char>> {
    match s {
        Some(s) => Some(s@),
        None => None,
    }
}

/// An optional index as a natural number.
pub open spec fn opt_nat(i: Option<usize>) -> Option<nat> {
    match i {
        Some(i) => Some(i as nat),
        None => None,
    }
}

impl View for Draw {
    type V = DrawView;

    open spec fn view(&self) -> DrawView {
        match *self {
            Draw::Block { area, borders, title_top, title_bottom } => DrawView::Block {
                area,
                borders,
                title_top: opt_chars(title_top),
                title_bottom: opt_chars(title_bottom),
            },
            Draw::Text { area, text } => DrawView::Text { area, text: text@ },
            Draw::Line { area, text } => DrawView::Line { area, text: text@ },
            Draw::LineAt { x, y, text, width } => DrawView::LineAt { x, y, text: text@, width },
            Draw::Paragraph { area, text } => DrawView::Paragraph { area, text: text@ },
            Draw::List { area, items, selected } => DrawView::List {
                area,
                items: items as nat,
                selected: opt_nat(selected),
            },
        }
    }
}

/// The values of a list of operations, in order.
pub open spec fn draw_views(ops: Seq<Draw>) -> Seq<DrawView> {
    ops.map_values(|d: Draw| d@)
}

} // verus!
