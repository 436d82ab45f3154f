//! Navigation and rendering composition for a terminal feed reader.
//!
//! The crate holds the state machines behind the feed view (pages of notes,
//! a cursor in each page and a cursor over the pages), the login form, the
//! key routing of each screen, and the layout that turns a screen's state into
//! drawing operations for a surface of character cells.
//!
//! Nothing here reads a key or writes to a terminal. Key events come in as
//! values of [`input::KeyEvent`], and what is to be drawn goes out as a list of
//! [`ui::surface::Draw`] operations.
pub mod input;
pub mod state;
pub mod ui;
