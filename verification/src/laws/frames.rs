//! Which image a document of the browser carries, and what is known of it.
use crate::encoding::base64_bytes;
use crate::json::{json_of, nearest_float, JsonView};
use crate::recording::frames::{
    document_of, frame_time_of, image_of, is_screencast_frame, is_screenshot_frame, metadata_of,
    FrameMetadata, FrameMetadataView, ScreencastFrame, Stamp,
};
use vstd::prelude::*;

verus! {

/// A number that an image gives under `key`, as a floating-point number.
pub open spec fn given_number(meta: Option<JsonView>, key: Seq<char>) -> Option<JsonView> {
    match meta {
        Some(JsonView::Object(members)) => if members.contains_key(key) {
            match members[key] {
                JsonView::Int(n) => Some(JsonView::Float(nearest_float(n))),
                JsonView::Float(bits) => Some(JsonView::Float(bits)),
                _ => None,
            }
        } else {
            None
        },
        _ => None,
    }
}

/// `number` is what the image gives under `key`, and `default` where it gives none.
pub open spec fn is_number(
    number: JsonView,
    meta: Option<JsonView>,
    key: Seq<char>,
    default: int,
) -> bool {
    match given_number(meta, key) {
        Some(given) => number == given,
        None => number == JsonView::Float(nearest_float(default)),
    }
}

/// `size` is what the image gives under `key` where that fits, and `default` where it does not.
pub open spec fn is_size(size: u32, meta: Option<JsonView>, key: Seq<char>, default: u32) -> bool {
    let given = match meta {
        Some(JsonView::Object(members)) => if members.contains_key(key) {
            Some(members[key])
        } else {
            None
        },
        _ => None,
    };
    if given matches Some(JsonView::Int(n)) && 0 <= n <= 0xffff_ffff {
        given == Some(JsonView::Int(size as int))
    } else {
        size == default
    }
}

/// What is known of an image is what the image says of itself, number by number, each under its
/// own key, with the default of that number where the image leaves it out.
pub open spec fn tells(view: FrameMetadataView, meta: Option<JsonView>, millis: u64) -> bool {
    &&& is_number(view.offset_top, meta, "offsetTop"@, 0)
    &&& is_number(view.page_scale_factor, meta, "pageScaleFactor"@, 1)
    &&& is_size(view.device_width, meta, "deviceWidth"@, 1280)
    &&& is_size(view.device_height, meta, "deviceHeight"@, 720)
    &&& is_number(view.scroll_offset_x, meta, "scrollOffsetX"@, 0)
    &&& is_number(view.scroll_offset_y, meta, "scrollOffsetY"@, 0)
    &&& view.timestamp == millis
}

/// Every number that is known of an image is the one that the image gives under its own key.
pub proof fn law_metadata_is_the_images_own(meta: Option<JsonView>, millis: u64)
    ensures
        tells(metadata_of(meta, millis), meta, millis),
{
}

/// The member of a document under `key`, if it is a text.
pub open spec fn given_text(document: JsonView, key: Seq<char>) -> Option<Seq<char>> {
    match document {
        JsonView::Object(members) => if members.contains_key(key) {
            match members[key] {
                JsonView::Str(text) => Some(text),
                _ => None,
            }
        } else {
            None
        },
        _ => None,
    }
}

/// `frame` is the image whose bytes the text under `data` stands for, with that text, what `meta`
/// says of it, and the time; and there is none exactly where that text is missing or stands for no
/// bytes.
pub open spec fn is_image(
    frame: Option<ScreencastFrame>,
    document: JsonView,
    meta: Option<JsonView>,
    millis: u64,
    secs: JsonView,
) -> bool {
    let text = given_text(document, "data"@);
    if text is Some && base64_bytes(text->0) is Some {
        &&& frame is Some
        &&& frame->0.base64_data@ == text->0
        &&& frame->0.bytes@ == base64_bytes(text->0)->0
        &&& tells(frame->0.metadata@, meta, millis)
        &&& json_of(frame->0.timestamp_secs) == secs
    } else {
        frame is None
    }
}

/// The member of a document under `key`.
pub open spec fn given(document: JsonView, key: Seq<char>) -> Option<JsonView> {
    match document {
        JsonView::Object(members) => if members.contains_key(key) {
            Some(members[key])
        } else {
            None
        },
        _ => None,
    }
}

/// `frame` is the image of a screencast event: with the numbers that stand under `metadata`, and
/// with the time that stands there where there is one, else now.
pub open spec fn is_event_image(
    frame: Option<ScreencastFrame>,
    params: JsonView,
    own_millis: u64,
    now: Stamp,
) -> bool {
    let meta = given(params, "metadata"@);
    match given_number(meta, "timestamp"@) {
        Some(secs) => is_image(frame, params, meta, own_millis, secs),
        None => is_image(frame, params, meta, now.millis, json_of(now.secs)),
    }
}

/// The image of a screencast event is the one that the event carries, and that of a screenshot the
/// one that the reply carries; each is there exactly where there is one.
pub proof fn law_images_are_what_is_sent(
    frame: Option<ScreencastFrame>,
    document: JsonView,
    own_millis: u64,
    now: Stamp,
)
    ensures
        is_screencast_frame(frame, document, own_millis, now) ==> is_event_image(
            frame,
            document,
            own_millis,
            now,
        ),
        is_screenshot_frame(frame, document, now) ==> is_image(
            frame,
            document,
            None,
            now.millis,
            json_of(now.secs),
        ),
        image_of(document) == (match given_text(document, "data"@) {
            Some(text) => base64_bytes(text),
            None => None,
        }),
        frame_time_of(document) == given_number(given(document, "metadata"@), "timestamp"@),
{
    law_metadata_is_the_images_own(given(document, "metadata"@), own_millis);
    law_metadata_is_the_images_own(given(document, "metadata"@), now.millis);
    law_metadata_is_the_images_own(None, now.millis);
    assert(document.member("metadata"@) == given(document, "metadata"@));
    assert(document.text_member("data"@) == given_text(document, "data"@));
}

/// The model of what is known of an image is what is known: each number stands under its own name.
pub proof fn law_model_of_metadata_is_the_metadata(metadata: FrameMetadata)
    ensures
        metadata@.offset_top == json_of(metadata.offset_top),
        metadata@.page_scale_factor == json_of(metadata.page_scale_factor),
        metadata@.device_width == metadata.device_width,
        metadata@.device_height == metadata.device_height,
        metadata@.scroll_offset_x == json_of(metadata.scroll_offset_x),
        metadata@.scroll_offset_y == json_of(metadata.scroll_offset_y),
        metadata@.timestamp == metadata.timestamp,
{
}

/// What a value holds that may be missing is what it holds where it is there, and nothing where it
/// is not.
pub proof fn law_missing_value_holds_nothing(value: &serde_json::Value)
    ensures
        document_of(Some(value)) == Some(json_of(*value)),
        document_of(None) is None,
{
}

} // verus!
