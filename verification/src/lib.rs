//! Recording and live preview of a browser page.
//!
//! The library decides: which command goes to the browser next, which image goes to the
//! encoder, which message goes to which viewer. It never waits and never talks to anything.
//! Whoever runs it performs what it asks for and tells it what came of that.
pub mod cdp;
pub mod encoding;
pub mod json;
pub mod laws;
pub mod recording;
pub mod stream;
pub mod text;
