//! Recording a page to a video file.
pub mod attach;
pub mod capture;
pub mod commands;
pub mod control;
pub mod ffmpeg;
pub mod frames;
pub mod screenshots;
pub mod settings;
pub mod state;
pub mod targets;
pub mod task;
pub mod writer;
