//! The feed view by its bands.
pub mod header;
