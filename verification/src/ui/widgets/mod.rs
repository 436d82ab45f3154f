//! The widgets of the feed view.
pub mod feed;
pub mod feed_bar;
pub mod notes;
