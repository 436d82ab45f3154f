//! The header band of the feed.
use vstd::prelude::*;

use crate::ui::widgets::feed_bar::{FeedBar, FeedBarState};

verus! {

/// The bar, by the name of the band that it is drawn in.
pub type FeedHeader = FeedBar;

/// What the header reports.
pub type FeedHeaderState = FeedBarState;

} // verus!
