//! The bar above the feed.
use vstd::prelude::*;
use vstd::string::StringExecFns;

use crate::ui::geometry::{rect_inner, Margin, Rect};
use crate::ui::surface::{draw_views, Borders, Draw, DrawView};
use crate::ui::text::{decimal, push_decimal};

verus! {

/// The least height at which the bar is drawn.
pub const MIN_BAR_HEIGHT: u16 = 4;

/// What the bar says where the area is too low for it.
pub const TOO_LOW: &'static str = "Bar must be at least 4 lines high.";

/// What follows the number of notifications in the status line.
pub const STATUS_SUFFIX: &'static str = " notifications";

/// The status line for a number of notifications.
pub open spec fn status_text(notification_count: nat) -> Seq<char> {
    decimal(notification_count) + STATUS_SUFFIX@
}

/// The bar on `area`: a box with the status line inside, or on an area that
/// is too low the complaint alone.
pub open spec fn bar_drawn(area: Rect, notification_count: nat) -> Seq<DrawView> {
    if area.height < MIN_BAR_HEIGHT {
        seq![DrawView::Line { area, text: TOO_LOW@ }]
    } else {
        seq![
            DrawView::Block {
                area,
                borders: Borders::spec_all(),
                title_top: None,
                title_bottom: None,
            },
            DrawView::Line {
                area: area.inset(Margin { horizontal: 1, vertical: 1 }),
                text: status_text(notification_count),
            },
        ]
    }
}

/// A horizontal bar with some information.
#[derive(Clone, Copy, Debug, PartialEq, Eq, Structural)]
pub struct FeedBar {}

impl FeedBar {
    /// The bar and its state, with no notifications.
    pub fn new_with_state() -> (pair: (FeedBar, FeedBarState))
        ensures
            pair.1@ == 0,
    {
        (FeedBar {}, FeedBarState { notification_count: 0 })
    }

    /// The drawing operations of the bar on `area`.
    pub fn render(&self, area: Rect, state: &FeedBarState) -> (ops: Vec<Draw>)
        ensures
            draw_views(ops@) == bar_drawn(area, state@),
    {
        let mut ops: Vec<Draw> = Vec::new();
        if area.height < MIN_BAR_HEIGHT {
            ops.push(Draw::Line { area, text: String::from_str(TOO_LOW) });
            assert(draw_views(ops@) =~= bar_drawn(area, state@));
            return ops;
        }
        ops.push(Draw::Block { area, borders: Borders::all(), title_top: None, title_bottom: None });
        ops.push(
            Draw::Line {
                area: rect_inner(area, Margin { horizontal: 1, vertical: 1 }),
                text: state.get_status_text(),
            },
        );
        assert(draw_views(ops@) =~= bar_drawn(area, state@));
        ops
    }
}

/// What the bar reports.
#[derive(Debug)]
pub struct FeedBarState {
    notification_count: usize,
}

impl View for FeedBarState {
    type V = nat;

    /// The number of notifications.
    closed spec fn view(&self) -> nat {
        self.notification_count as nat
    }
}

impl FeedBarState {
    /// The number of notifications.
    pub fn notification_count(&self) -> (count: usize)
        ensures
            count == self@,
    {
        self.notification_count
    }

    /// The status line: the number of notifications in decimal, and the word.
    pub fn get_status_text(&self) -> (text: String)
        ensures
            text@ == status_text(self@),
    {
        let mut text = String::new();
        push_decimal(&mut text, self.notification_count);
        text.append(STATUS_SUFFIX);
        text
    }
}

} // verus!
