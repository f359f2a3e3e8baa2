//! Telling the messages for viewers apart.
use crate::encoding::read_base64;
use crate::json::{self, compact_pair, is_word, json_document, spaced_pair};
use crate::recording::frames::image_of;
use crate::text::{contains_text, has_text};
use vstd::prelude::*;

verus! {

/// The message says of itself that its type is `kind`: it holds the pair, with or without a
/// space.
pub open spec fn says(message: Seq<char>, kind: Seq<char>) -> bool {
    contains_text(message, compact_pair("type"@, kind)) || contains_text(
        message,
        spaced_pair("type"@, kind),
    )
}

/// The message is about the state of the stream.
pub fn is_status_message(message: &str) -> (yes: bool)
    ensures
        yes == says(message@, "status"@),
{
    proof {
        lemma_status_patterns();
    }
    has_text(message, "\"type\":\"status\"") || has_text(message, "\"type\": \"status\"")
}

/// The message carries an image.
pub fn is_frame_message(message: &str) -> (yes: bool)
    ensures
        yes == says(message@, "frame"@),
{
    proof {
        lemma_frame_patterns();
    }
    has_text(message, "\"type\":\"frame\"") || has_text(message, "\"type\": \"frame\"")
}

pub proof fn lemma_status_patterns()
    ensures
        "\"type\":\"status\""@ == compact_pair("type"@, "status"@),
        "\"type\": \"status\""@ == spaced_pair("type"@, "status"@),
        is_word("type"@),
        is_word("status"@),
{
    reveal_strlit("type");
    reveal_strlit("status");
    reveal_strlit("\"type\":\"status\"");
    reveal_strlit("\"type\": \"status\"");
    assert("\"type\":\"status\""@ =~= compact_pair("type"@, "status"@));
    assert("\"type\": \"status\""@ =~= spaced_pair("type"@, "status"@));
}

pub proof fn lemma_frame_patterns()
    ensures
        "\"type\":\"frame\""@ == compact_pair("type"@, "frame"@),
        "\"type\": \"frame\""@ == spaced_pair("type"@, "frame"@),
        is_word("type"@),
        is_word("frame"@),
{
    reveal_strlit("type");
    reveal_strlit("frame");
    reveal_strlit("\"type\":\"frame\"");
    reveal_strlit("\"type\": \"frame\"");
    assert("\"type\":\"frame\""@ =~= compact_pair("type"@, "frame"@));
    assert("\"type\": \"frame\""@ =~= spaced_pair("type"@, "frame"@));
}

/// The image that a message carries, if it is a document that carries one.
pub open spec fn message_image(message: Seq<char>) -> Option<Seq<u8>> {
    match json_document(message) {
        Some(document) => image_of(document),
        None => None,
    }
}

/// The image that a document carries.
pub fn frame_bytes_from_document(document: &serde_json::Value) -> (bytes: Option<Vec<u8>>)
    ensures
        match bytes {
            Some(bytes) => image_of(json::json_of(*document)) == Some(bytes@),
            None => image_of(json::json_of(*document)) is None,
        },
{
    match json::member(document, "data") {
        Some(data) => match json::as_text(data) {
            Some(text) => read_base64(text),
            None => None,
        },
        None => None,
    }
}

/// The image that a message carries.
pub fn frame_bytes_from_message(message: &str) -> (bytes: Option<Vec<u8>>)
    ensures
        match bytes {
            Some(bytes) => message_image(message@) == Some(bytes@),
            None => message_image(message@) is None,
        },
{
    match json::parse(message) {
        Some(document) => frame_bytes_from_document(&document),
        None => None,
    }
}

/// The kinds of messages that are told apart.
#[derive(PartialEq, Eq, Structural, Clone, Copy)]
pub enum MessageKind {
    /// On the state of the stream.
    Status,
    /// With an image.
    Frame,
    Other,
}

/// The kind of a message. What says that it is on the state is not taken for an image.
pub open spec fn kind_of(message: Seq<char>) -> MessageKind {
    if says(message, "status"@) {
        MessageKind::Status
    } else if says(message, "frame"@) {
        MessageKind::Frame
    } else {
        MessageKind::Other
    }
}

/// Tells the kind of a message.
pub fn message_kind(message: &str) -> (kind: MessageKind)
    ensures
        kind == kind_of(message@),
{
    if is_status_message(message) {
        MessageKind::Status
    } else if is_frame_message(message) {
        MessageKind::Frame
    } else {
        MessageKind::Other
    }
}

/// Puts a message of a kind in the place of the latest of that kind. `image` is the image that
/// it carries; an image message without an image is dropped.
pub fn sort_message(
    kind: MessageKind,
    message: String,
    image: Option<Vec<u8>>,
    latest_status: &mut Option<String>,
    latest_frame: &mut Option<Vec<u8>>,
    latest_other: &mut Option<String>,
)
    ensures
        *final(latest_status) == (if kind == MessageKind::Status {
            Some(message)
        } else {
            *old(latest_status)
        }),
        *final(latest_frame) == (if kind == MessageKind::Frame && image is Some {
            image
        } else {
            *old(latest_frame)
        }),
        *final(latest_other) == (if kind == MessageKind::Other {
            Some(message)
        } else {
            *old(latest_other)
        }),
{
    match kind {
        MessageKind::Status => {
            *latest_status = Some(message);
        },
        MessageKind::Frame => {
            if image.is_some() {
                *latest_frame = image;
            }
        },
        MessageKind::Other => {
            *latest_other = Some(message);
        },
    }
}

/// Sorts a message into the latest of its kind. An image message without an image is dropped.
pub fn classify_message(
    message: String,
    latest_status: &mut Option<String>,
    latest_frame: &mut Option<Vec<u8>>,
    latest_other: &mut Option<String>,
)
    ensures
        *final(latest_status) == (if kind_of(message@) == MessageKind::Status {
            Some(message)
        } else {
            *old(latest_status)
        }),
        match message_image(message@) {
            Some(image) => if kind_of(message@) == MessageKind::Frame {
                *final(latest_frame) matches Some(bytes) && bytes@ == image
            } else {
                *final(latest_frame) == *old(latest_frame)
            },
            None => *final(latest_frame) == *old(latest_frame),
        },
        *final(latest_other) == (if kind_of(message@) == MessageKind::Other {
            Some(message)
        } else {
            *old(latest_other)
        }),
{
    let kind = message_kind(message.as_str());
    let image = if kind == MessageKind::Frame {
        frame_bytes_from_message(message.as_str())
    } else {
        None
    };
    sort_message(kind, message, image, latest_status, latest_frame, latest_other);
}

} // verus!
