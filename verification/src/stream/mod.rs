//! Showing a page to viewers while it is used.
pub mod classify;
pub mod commands;
pub mod messages;
pub mod preview;
pub mod shutdown;
pub mod sink;
