//! What the user can set about a recording. Each setting comes as the text of an environment
//! variable, or not at all.
use crate::text::{numeral, parse_u32, same_text, slice_of};
use vstd::prelude::*;

verus! {

/// Images per second in the video file.
pub const CAPTURE_FPS: u32 = 25;

/// Screenshots per second where screenshots are recorded, unless the user sets it.
pub const DEFAULT_SCREENSHOT_CAPTURE_FPS: u32 = 8;

/// The number that a variable sets: what its text says where that lies between `min` and
/// `max`, else the default.
pub open spec fn setting(variable: Option<Seq<char>>, min: u32, max: u32, default: u32) -> u32 {
    match variable {
        Some(text) => match numeral(text) {
            Some(number) => if min <= number <= max {
                number
            } else {
                default
            },
            None => default,
        },
        None => default,
    }
}

/// Reads a number that the user can set.
pub fn read_setting(variable: Option<&str>, min: u32, max: u32, default: u32) -> (number: u32)
    ensures
        number == setting(slice_of(variable), min, max, default),
{
    match variable {
        Some(text) => match parse_u32(text) {
            Some(number) => if min <= number && number <= max {
                number
            } else {
                default
            },
            None => default,
        },
        None => default,
    }
}

/// How the browser makes the images of a recorded screencast.
#[derive(PartialEq, Eq, Structural, Clone, Copy)]
pub struct ScreencastSettings {
    pub quality: u32,
    pub every_nth_frame: u32,
    pub max_width: u32,
    pub max_height: u32,
}

impl ScreencastSettings {
    /// Reads the settings from the variables for the quality, the frame step, the width and
    /// the height.
    pub fn from_variables(
        quality: Option<&str>,
        every_nth_frame: Option<&str>,
        max_width: Option<&str>,
        max_height: Option<&str>,
    ) -> (settings: Self)
        ensures
            settings == (ScreencastSettings {
                quality: setting(slice_of(quality), 1, 100, 70),
                every_nth_frame: setting(slice_of(every_nth_frame), 1, u32::MAX, 6),
                max_width: setting(slice_of(max_width), 1, u32::MAX, 1280),
                max_height: setting(slice_of(max_height), 1, u32::MAX, 720),
            }),
    {
        ScreencastSettings {
            quality: read_setting(quality, 1, 100, 70),
            every_nth_frame: read_setting(every_nth_frame, 1, u32::MAX, 6),
            max_width: read_setting(max_width, 1, u32::MAX, 1280),
            max_height: read_setting(max_height, 1, u32::MAX, 720),
        }
    }
}

/// The milliseconds between two screenshots: a second over the rate that the variable sets,
/// which is at most the rate of the video.
pub fn screenshot_interval_ms(fps: Option<&str>) -> (interval: u64)
    ensures
        interval == 1000u64 / (setting(
            slice_of(fps),
            1,
            CAPTURE_FPS,
            DEFAULT_SCREENSHOT_CAPTURE_FPS,
        ) as u64),
        40 <= interval <= 1000,
{
    let fps = read_setting(fps, 1, CAPTURE_FPS, DEFAULT_SCREENSHOT_CAPTURE_FPS) as u64;
    let interval: u64 = 1000u64 / fps;
    proof {
        lemma_interval_bounds(fps);
    }
    interval
}

proof fn lemma_interval_bounds(fps: u64)
    by (nonlinear_arith)
    requires
        1 <= fps <= 25,
    ensures
        40 <= 1000u64 / fps <= 1000,
{
}

/// The milliseconds between two images of the video.
pub fn video_interval_ms() -> (interval: u64)
    ensures
        interval == 1000u64 / (CAPTURE_FPS as u64),
        interval == 40,
{
    let fps: u64 = CAPTURE_FPS as u64;
    assert(1000u64 / fps == 40) by (nonlinear_arith)
        requires
            fps == 25,
    ;
    1000 / fps
}

/// How much longer than the recording the video lasts, in milliseconds: its last image stays for
/// that long.
pub fn end_padding_ms() -> (ms: u64)
    ensures
        ms == 1000,
{
    1000
}

/// Whether the screencast of the browser is recorded, which it is unless the variable names
/// another source.
pub fn records_screencast(source: Option<&str>) -> (screencast: bool)
    ensures
        screencast == (source is None || slice_of(source) == Some("screencast"@)),
{
    match source {
        Some(source) => same_text(source, "screencast"),
        None => true,
    }
}

} // verus!
