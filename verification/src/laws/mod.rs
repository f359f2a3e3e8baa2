//! What the operations of the library are for, said of all their inputs in terms of what goes in
//! and what comes out: which page a recording follows, which image goes where, who is told what.
pub mod attach;
pub mod capture;
pub mod commands;
pub mod control;
pub mod encoder;
pub mod frames;
pub mod messages;
pub mod preview;
pub mod screenshots;
pub mod settings;
pub mod sink;
pub mod state;
pub mod targets;
pub mod task;
pub mod text;
pub mod writer;
