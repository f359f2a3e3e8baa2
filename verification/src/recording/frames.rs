//! The images of a recording, as the browser sends them.
use crate::cdp::CdpEvent;
use crate::encoding::{base64_bytes, read_base64};
use crate::json::{self, json_of, nearest_float, JsonView};
use crate::text::slice_of;
use vstd::prelude::*;

verus! {

/// What the browser says of an image. The offsets and the scale are JSON numbers.
pub struct FrameMetadata {
    pub offset_top: serde_json::Value,
    pub page_scale_factor: serde_json::Value,
    pub device_width: u32,
    pub device_height: u32,
    pub scroll_offset_x: serde_json::Value,
    pub scroll_offset_y: serde_json::Value,
    /// When the image was made, in milliseconds.
    pub timestamp: u64,
}

/// A point in time: seconds as a JSON number, and the same in whole milliseconds.
pub struct Stamp {
    pub secs: serde_json::Value,
    pub millis: u64,
}

/// An image of the page, with its text as the browser sent it.
pub struct ScreencastFrame {
    pub bytes: Vec<u8>,
    pub base64_data: String,
    pub metadata: FrameMetadata,
    pub timestamp_secs: serde_json::Value,
}

/// The model of what the browser says of an image.
pub struct FrameMetadataView {
    pub offset_top: JsonView,
    pub page_scale_factor: JsonView,
    pub device_width: u32,
    pub device_height: u32,
    pub scroll_offset_x: JsonView,
    pub scroll_offset_y: JsonView,
    pub timestamp: u64,
}

impl View for FrameMetadata {
    type V = FrameMetadataView;

    open spec fn view(&self) -> FrameMetadataView {
        FrameMetadataView {
            offset_top: json_of(self.offset_top),
            page_scale_factor: json_of(self.page_scale_factor),
            device_width: self.device_width,
            device_height: self.device_height,
            scroll_offset_x: json_of(self.scroll_offset_x),
            scroll_offset_y: json_of(self.scroll_offset_y),
            timestamp: self.timestamp,
        }
    }
}

/// A number of `meta` as a floating-point number, and `default` where there is none.
pub open spec fn float_or(meta: Option<JsonView>, key: Seq<char>, default: int) -> JsonView {
    let number = match meta {
        Some(meta) => match meta.member(key) {
            Some(value) => value.float(),
            None => None,
        },
        None => None,
    };
    match number {
        Some(number) => number,
        None => JsonView::Float(nearest_float(default)),
    }
}

/// Reads a number as a floating-point number.
pub fn read_float(meta: Option<&serde_json::Value>, key: &str, default: u64) -> (number:
    serde_json::Value)
    ensures
        json_of(number) == float_or(document_of(meta), key@, default as int),
{
    if let Some(meta) = meta {
        if let Some(value) = json::member(meta, key) {
            if let Some(number) = json::as_float(value) {
                return number;
            }
        }
    }
    match json::as_float(&json::from_u64(default)) {
        Some(number) => number,
        None => json::null(),
    }
}

/// What an optional value holds.
pub open spec fn document_of(value: Option<&serde_json::Value>) -> Option<JsonView> {
    match value {
        Some(value) => Some(json_of(*value)),
        None => None,
    }
}

/// A size of `meta` that a `u32` can hold, and `default` where there is none.
pub open spec fn size_or(meta: Option<JsonView>, key: Seq<char>, default: u32) -> u32 {
    match meta {
        Some(meta) => match meta.member(key) {
            Some(JsonView::Int(n)) => if 0 <= n <= u32::MAX {
                n as u32
            } else {
                default
            },
            _ => default,
        },
        None => default,
    }
}

fn read_size(meta: Option<&serde_json::Value>, key: &str, default: u32) -> (size: u32)
    ensures
        size == size_or(document_of(meta), key@, default),
{
    if let Some(meta) = meta {
        if let Some(value) = json::member(meta, key) {
            if let Some(size) = json::as_u64(value) {
                if size <= u32::MAX as u64 {
                    return size as u32;
                }
            }
        }
    }
    default
}

/// What an image says of itself, with a default for all that it leaves out.
pub open spec fn metadata_of(meta: Option<JsonView>, millis: u64) -> FrameMetadataView {
    FrameMetadataView {
        offset_top: float_or(meta, "offsetTop"@, 0),
        page_scale_factor: float_or(meta, "pageScaleFactor"@, 1),
        device_width: size_or(meta, "deviceWidth"@, 1280),
        device_height: size_or(meta, "deviceHeight"@, 720),
        scroll_offset_x: float_or(meta, "scrollOffsetX"@, 0),
        scroll_offset_y: float_or(meta, "scrollOffsetY"@, 0),
        timestamp: millis,
    }
}

impl FrameMetadata {
    /// Reads what an image says of itself.
    pub fn read(meta: Option<&serde_json::Value>, millis: u64) -> (metadata: Self)
        ensures
            metadata@ == metadata_of(document_of(meta), millis),
    {
        FrameMetadata {
            offset_top: read_float(meta, "offsetTop", 0),
            page_scale_factor: read_float(meta, "pageScaleFactor", 1),
            device_width: read_size(meta, "deviceWidth", 1280),
            device_height: read_size(meta, "deviceHeight", 720),
            scroll_offset_x: read_float(meta, "scrollOffsetX", 0),
            scroll_offset_y: read_float(meta, "scrollOffsetY", 0),
            timestamp: millis,
        }
    }

    /// The same, made at another time.
    pub fn restamped(&self, millis: u64) -> (metadata: Self)
        ensures
            metadata@ == (FrameMetadataView { timestamp: millis, ..self@ }),
    {
        FrameMetadata {
            offset_top: json::copy_of(&self.offset_top),
            page_scale_factor: json::copy_of(&self.page_scale_factor),
            device_width: self.device_width,
            device_height: self.device_height,
            scroll_offset_x: json::copy_of(&self.scroll_offset_x),
            scroll_offset_y: json::copy_of(&self.scroll_offset_y),
            timestamp: millis,
        }
    }
}

/// The time that the browser gives an image, in seconds, if it gives one.
pub open spec fn frame_time_of(params: JsonView) -> Option<JsonView> {
    match params.member("metadata"@) {
        Some(meta) => match meta.member("timestamp"@) {
            Some(value) => value.float(),
            None => None,
        },
        None => None,
    }
}

/// Reads the time that the browser gives an image, in seconds.
pub fn frame_time(event: &CdpEvent) -> (secs: Option<serde_json::Value>)
    ensures
        document_of(match secs {
            Some(secs) => Some(&secs),
            None => None,
        }) == frame_time_of(event.document()),
{
    match json::member(&event.params, "metadata") {
        Some(meta) => match json::member(meta, "timestamp") {
            Some(value) => json::as_float(value),
            None => None,
        },
        None => None,
    }
}

/// The image bytes that a document carries as base64 text under `data`, if it does.
pub open spec fn image_of(document: JsonView) -> Option<Seq<u8>> {
    match document.text_member("data"@) {
        Some(data) => base64_bytes(data),
        None => None,
    }
}

/// `frame` is the image that `document` carries, with `metadata` and the time `secs`; there is
/// none where `document` carries none.
pub open spec fn is_frame(
    frame: Option<ScreencastFrame>,
    document: JsonView,
    metadata: FrameMetadataView,
    secs: JsonView,
) -> bool {
    match image_of(document) {
        Some(bytes) => {
            &&& frame is Some
            &&& frame->0.bytes@ == bytes
            &&& document.text_member("data"@) == Some(frame->0.base64_data@)
            &&& frame->0.metadata@ == metadata
            &&& json_of(frame->0.timestamp_secs) == secs
        },
        None => frame is None,
    }
}

/// The text that a document carries under `data`, if it does.
fn image_text(document: &serde_json::Value) -> (text: Option<&str>)
    ensures
        slice_of(text) == json_of(*document).text_member("data"@),
{
    match json::member(document, "data") {
        Some(data) => json::as_text(data),
        None => None,
    }
}

/// Puts an image together from its text, the bytes that the text stands for, and what is known
/// of it. There is none without a text or without bytes.
pub fn assemble_frame(
    text: Option<&str>,
    bytes: Option<Vec<u8>>,
    metadata: FrameMetadata,
    timestamp_secs: serde_json::Value,
) -> (frame: Option<ScreencastFrame>)
    ensures
        frame is Some <==> text is Some && bytes is Some,
        frame matches Some(frame) ==> {
            &&& frame.bytes == bytes->0
            &&& Some(frame.base64_data@) == slice_of(text)
            &&& frame.metadata == metadata
            &&& frame.timestamp_secs == timestamp_secs
        },
{
    match (text, bytes) {
        (Some(text), Some(bytes)) => Some(
            ScreencastFrame { bytes, base64_data: text.to_owned(), metadata, timestamp_secs },
        ),
        _ => None,
    }
}

/// When an image of a screencast was made, in seconds: at the time that the browser gives it,
/// and now where it gives none.
pub open spec fn image_secs(params: JsonView, now: Stamp) -> JsonView {
    match frame_time_of(params) {
        Some(secs) => secs,
        None => json_of(now.secs),
    }
}

/// The same in milliseconds. `own_millis` are those of the time that the browser gives it.
pub open spec fn image_millis(params: JsonView, own_millis: u64, now: Stamp) -> u64 {
    if frame_time_of(params) is Some {
        own_millis
    } else {
        now.millis
    }
}

/// `frame` is the image of a screencast event with the parameters `params`, if it has one.
pub open spec fn is_screencast_frame(
    frame: Option<ScreencastFrame>,
    params: JsonView,
    own_millis: u64,
    now: Stamp,
) -> bool {
    is_frame(
        frame,
        params,
        metadata_of(params.member("metadata"@), image_millis(params, own_millis, now)),
        image_secs(params, now),
    )
}

/// `frame` is the image that the reply `document` to a screenshot carries, if it carries one.
pub open spec fn is_screenshot_frame(
    frame: Option<ScreencastFrame>,
    document: JsonView,
    now: Stamp,
) -> bool {
    is_frame(frame, document, metadata_of(None, now.millis), json_of(now.secs))
}

/// When an image of a screencast was made: at the time that the browser gives it, which
/// `own_millis` are the milliseconds of, and now where it gives none.
pub fn image_stamp(event: &CdpEvent, own_millis: u64, now: Stamp) -> (stamp: Stamp)
    ensures
        match frame_time_of(event.document()) {
            Some(secs) => json_of(stamp.secs) == secs && stamp.millis == own_millis,
            None => stamp == now,
        },
{
    match frame_time(event) {
        Some(secs) => Stamp { secs, millis: own_millis },
        None => now,
    }
}

/// The image of a screencast event that comes now. `own_millis` are the milliseconds of the time
/// that the browser gives it (see `frame_time`), where it gives one.
pub fn screencast_frame(event: &CdpEvent, own_millis: u64, now: Stamp) -> (frame: Option<
    ScreencastFrame,
>)
    ensures
        is_screencast_frame(frame, event.document(), own_millis, now),
{
    let stamp = image_stamp(event, own_millis, now);
    let text = image_text(&event.params);
    let bytes = match text {
        Some(text) => read_base64(text),
        None => None,
    };
    let meta = json::member(&event.params, "metadata");
    assemble_frame(text, bytes, FrameMetadata::read(meta, stamp.millis), stamp.secs)
}

/// The image that the reply to a screenshot carries, which comes now.
pub fn screenshot_frame(reply: &serde_json::Value, now: Stamp) -> (frame: Option<ScreencastFrame>)
    ensures
        is_screenshot_frame(frame, json_of(*reply), now),
{
    let text = image_text(reply);
    let bytes = match text {
        Some(text) => read_base64(text),
        None => None,
    };
    assemble_frame(text, bytes, FrameMetadata::read(None, now.millis), now.secs)
}

} // verus!
