//! The messages for viewers.
//!
//! Each function says which document its message is, and how `classify_message` takes that
//! message.
use crate::encoding::base64_bytes;
use crate::json::{self, documents_of, json_of, json_text, JsonView, READABLE_DEPTH};
use crate::recording::frames::{document_of, float_or, read_float};
use crate::stream::classify::{
    kind_of, lemma_frame_patterns, lemma_status_patterns, message_image, says, MessageKind,
};
use crate::text::ends_with_text;
use vstd::prelude::*;

verus! {

/// The state of the stream.
pub struct StreamStatus {
    pub connected: bool,
    pub screencasting: bool,
    pub width: u32,
    pub height: u32,
    pub recording: bool,
}

/// The document of a message on the state of the stream.
pub open spec fn status_document(status: StreamStatus, engine: Seq<char>) -> JsonView {
    JsonView::Object(
        map!["type"@ => JsonView::Str("status"@),
            "connected"@ => JsonView::Bool(status.connected),
            "screencasting"@ => JsonView::Bool(status.screencasting),
            "viewportWidth"@ => JsonView::Int(status.width as int),
            "viewportHeight"@ => JsonView::Int(status.height as int),
            "engine"@ => JsonView::Str(engine),
            "recording"@ => JsonView::Bool(status.recording)],
    )
}

/// The document of a message that the page has gone to another address.
pub open spec fn url_document(url: Seq<char>, millis: u64) -> JsonView {
    JsonView::Object(
        map!["type"@ => JsonView::Str("url"@),
            "url"@ => JsonView::Str(url),
            "timestamp"@ => JsonView::Int(millis as int)],
    )
}

/// The time that an image of the stream gives itself, where it is a whole number.
pub open spec fn whole_timestamp(meta: Option<JsonView>) -> int {
    match meta {
        Some(meta) => match meta.member("timestamp"@) {
            Some(JsonView::Int(n)) => if 0 <= n <= u64::MAX {
                n
            } else {
                0
            },
            _ => 0,
        },
        None => 0,
    }
}

/// What a message says of its image: its own numbers, and the size of the viewport.
pub open spec fn frame_metadata_document(
    meta: Option<JsonView>,
    width: u32,
    height: u32,
) -> JsonView {
    JsonView::Object(
        map!["offsetTop"@ => float_or(meta, "offsetTop"@, 0),
            "pageScaleFactor"@ => float_or(meta, "pageScaleFactor"@, 1),
            "deviceWidth"@ => JsonView::Int(width as int),
            "deviceHeight"@ => JsonView::Int(height as int),
            "scrollOffsetX"@ => float_or(meta, "scrollOffsetX"@, 0),
            "scrollOffsetY"@ => float_or(meta, "scrollOffsetY"@, 0),
            "timestamp"@ => JsonView::Int(whole_timestamp(meta))],
    )
}

/// The document of a message with an image.
pub open spec fn frame_document(
    data: Seq<char>,
    meta: Option<JsonView>,
    width: u32,
    height: u32,
) -> JsonView {
    JsonView::Object(
        map!["type"@ => JsonView::Str("frame"@),
            "data"@ => JsonView::Str(data),
            "metadata"@ => frame_metadata_document(meta, width, height)],
    )
}

/// The document of a message with what the page wrote to its console.
pub open spec fn console_document(
    level: Seq<char>,
    text: Seq<char>,
    args: Seq<JsonView>,
    millis: u64,
) -> JsonView {
    let members =
        map!["type"@ => JsonView::Str("console"@),
        "level"@ => JsonView::Str(level),
        "text"@ => JsonView::Str(text),
        "timestamp"@ => JsonView::Int(millis as int)];
    JsonView::Object(
        if args.len() == 0 {
            members
        } else {
            members.insert("args"@, JsonView::Array(args))
        },
    )
}

/// An optional integer as a document.
pub open spec fn optional_int(n: Option<i64>) -> JsonView {
    match n {
        Some(n) => JsonView::Int(n as int),
        None => JsonView::Null,
    }
}

/// The document of a message on an error of the page.
pub open spec fn page_error_document(
    text: Seq<char>,
    line: Option<i64>,
    column: Option<i64>,
    millis: u64,
) -> JsonView {
    JsonView::Object(
        map!["type"@ => JsonView::Str("page_error"@),
            "text"@ => JsonView::Str(text),
            "line"@ => optional_int(line),
            "column"@ => optional_int(column),
            "timestamp"@ => JsonView::Int(millis as int)],
    )
}

/// A message on the state of the stream.
pub fn status_message(status: &StreamStatus, engine: &str) -> (message: String)
    ensures
        message@ == json_text(status_document(*status, engine@)),
        kind_of(message@) == MessageKind::Status,
{
    let mut document = json::new_object();
    json::insert(&mut document, "type", json::from_text("status"));
    json::insert(&mut document, "connected", json::from_bool(status.connected));
    json::insert(&mut document, "screencasting", json::from_bool(status.screencasting));
    json::insert(&mut document, "viewportWidth", json::from_u64(status.width as u64));
    json::insert(&mut document, "viewportHeight", json::from_u64(status.height as u64));
    json::insert(&mut document, "engine", json::from_text(engine));
    json::insert(&mut document, "recording", json::from_bool(status.recording));
    let message = json::to_text(&document);
    proof {
        lemma_status_patterns();
        lemma_frame_patterns();
        lemma_kinds();
        lemma_keys();
        let members = json_of(document)->Object_0;
        lemma_type_pair(members, "status"@);
        lemma_type_pair(members, "frame"@);
    }
    message
}

/// The key neither is `type` nor ends in a quotation mark and `type`.
pub open spec fn is_other_key(key: Seq<char>) -> bool {
    key != "type"@ && !ends_with_text(key, seq!['"'] + "type"@)
}

/// A key whose last letter but one is no `p` is another one than `type`.
proof fn lemma_other_key(key: Seq<char>)
    requires
        key.len() >= 2,
        key[key.len() - 2] != 'p',
    ensures
        is_other_key(key),
{
    reveal_strlit("type");
    let suffix = seq!['"'] + "type"@;
    assert(suffix.len() == 5 && suffix[3] == 'p');
    if ends_with_text(key, suffix) {
        assert(key.subrange(key.len() - 5, key.len() as int)[3] == key[key.len() - 2]);
    }
    assert("type"@.len() == 4 && "type"@[2] == 'p');
}

/// No key of a message but `type` is taken for it.
proof fn lemma_keys()
    ensures
        is_other_key("connected"@),
        is_other_key("screencasting"@),
        is_other_key("viewportWidth"@),
        is_other_key("viewportHeight"@),
        is_other_key("engine"@),
        is_other_key("recording"@),
        is_other_key("url"@),
        is_other_key("timestamp"@),
        is_other_key("data"@),
        is_other_key("metadata"@),
        is_other_key("offsetTop"@),
        is_other_key("pageScaleFactor"@),
        is_other_key("deviceWidth"@),
        is_other_key("deviceHeight"@),
        is_other_key("scrollOffsetX"@),
        is_other_key("scrollOffsetY"@),
        is_other_key("level"@),
        is_other_key("text"@),
        is_other_key("args"@),
        is_other_key("line"@),
        is_other_key("column"@),
{
    reveal_strlit("connected");
    assert("connected"@.len() == 9 && "connected"@[7] == 'e');
    lemma_other_key("connected"@);
    reveal_strlit("screencasting");
    assert("screencasting"@.len() == 13 && "screencasting"@[11] == 'n');
    lemma_other_key("screencasting"@);
    reveal_strlit("viewportWidth");
    assert("viewportWidth"@.len() == 13 && "viewportWidth"@[11] == 't');
    lemma_other_key("viewportWidth"@);
    reveal_strlit("viewportHeight");
    assert("viewportHeight"@.len() == 14 && "viewportHeight"@[12] == 'h');
    lemma_other_key("viewportHeight"@);
    reveal_strlit("engine");
    assert("engine"@.len() == 6 && "engine"@[4] == 'n');
    lemma_other_key("engine"@);
    reveal_strlit("recording");
    assert("recording"@.len() == 9 && "recording"@[7] == 'n');
    lemma_other_key("recording"@);
    reveal_strlit("url");
    assert("url"@.len() == 3 && "url"@[1] == 'r');
    lemma_other_key("url"@);
    reveal_strlit("timestamp");
    assert("timestamp"@.len() == 9 && "timestamp"@[7] == 'm');
    lemma_other_key("timestamp"@);
    reveal_strlit("data");
    assert("data"@.len() == 4 && "data"@[2] == 't');
    lemma_other_key("data"@);
    reveal_strlit("metadata");
    assert("metadata"@.len() == 8 && "metadata"@[6] == 't');
    lemma_other_key("metadata"@);
    reveal_strlit("offsetTop");
    assert("offsetTop"@.len() == 9 && "offsetTop"@[7] == 'o');
    lemma_other_key("offsetTop"@);
    reveal_strlit("pageScaleFactor");
    assert("pageScaleFactor"@.len() == 15 && "pageScaleFactor"@[13] == 'o');
    lemma_other_key("pageScaleFactor"@);
    reveal_strlit("deviceWidth");
    assert("deviceWidth"@.len() == 11 && "deviceWidth"@[9] == 't');
    lemma_other_key("deviceWidth"@);
    reveal_strlit("deviceHeight");
    assert("deviceHeight"@.len() == 12 && "deviceHeight"@[10] == 'h');
    lemma_other_key("deviceHeight"@);
    reveal_strlit("scrollOffsetX");
    assert("scrollOffsetX"@.len() == 13 && "scrollOffsetX"@[11] == 't');
    lemma_other_key("scrollOffsetX"@);
    reveal_strlit("scrollOffsetY");
    assert("scrollOffsetY"@.len() == 13 && "scrollOffsetY"@[11] == 't');
    lemma_other_key("scrollOffsetY"@);
    reveal_strlit("level");
    assert("level"@.len() == 5 && "level"@[3] == 'e');
    lemma_other_key("level"@);
    reveal_strlit("text");
    assert("text"@.len() == 4 && "text"@[2] == 'x');
    lemma_other_key("text"@);
    reveal_strlit("args");
    assert("args"@.len() == 4 && "args"@[2] == 'g');
    lemma_other_key("args"@);
    reveal_strlit("line");
    assert("line"@.len() == 4 && "line"@[2] == 'n');
    lemma_other_key("line"@);
    reveal_strlit("column");
    assert("column"@.len() == 6 && "column"@[4] == 'm');
    lemma_other_key("column"@);
}

/// A document holds a pair under `type` if it holds it itself, and where it does not, only if
/// one of its members does.
proof fn lemma_type_pair(members: Map<Seq<char>, JsonView>, word: Seq<char>)
    requires
        members.contains_key("type"@),
        members["type"@] is Str,
        forall|key: Seq<char>| #[trigger]
            members.contains_key(key) && key != "type"@ ==> is_other_key(key)
                && !members[key].holds_pair("type"@, word),
    ensures
        JsonView::Object(members).holds_pair("type"@, word) <==> members["type"@] == JsonView::Str(
            word,
        ),
{
    reveal_with_fuel(JsonView::holds_pair, 2);
    if members["type"@] == JsonView::Str(word) {
        assert(members.contains_key("type"@));
    }
}

/// The names of the kinds of messages differ.
proof fn lemma_kinds()
    ensures
        "frame"@ != "status"@,
        "url"@ != "status"@,
        "url"@ != "frame"@,
        "console"@ != "status"@,
        "console"@ != "frame"@,
        "page_error"@ != "status"@,
        "page_error"@ != "frame"@,
{
    reveal_strlit("status");
    reveal_strlit("frame");
    reveal_strlit("url");
    reveal_strlit("console");
    reveal_strlit("page_error");
    assert("status"@.len() == 6);
    assert("frame"@.len() == 5);
    assert("url"@.len() == 3);
    assert("console"@.len() == 7);
    assert("page_error"@.len() == 10);
}

/// A message that the page has gone to another address.
pub fn url_message(url: &str, millis: u64) -> (message: String)
    ensures
        message@ == json_text(url_document(url@, millis)),
        kind_of(message@) == MessageKind::Other,
{
    let mut document = json::new_object();
    json::insert(&mut document, "type", json::from_text("url"));
    json::insert(&mut document, "url", json::from_text(url));
    json::insert(&mut document, "timestamp", json::from_u64(millis));
    let message = json::to_text(&document);
    proof {
        lemma_status_patterns();
        lemma_frame_patterns();
        lemma_kinds();
        lemma_keys();
        let members = json_of(document)->Object_0;
        lemma_type_pair(members, "status"@);
        lemma_type_pair(members, "frame"@);
    }
    message
}

/// What an image says of itself holds no strings.
proof fn lemma_metadata_has_no_pairs(
    meta: Option<JsonView>,
    width: u32,
    height: u32,
    word: Seq<char>,
)
    ensures
        !frame_metadata_document(meta, width, height).holds_pair("type"@, word),
{
    reveal_with_fuel(JsonView::holds_pair, 2);
}

fn read_timestamp(meta: Option<&serde_json::Value>) -> (timestamp: u64)
    ensures
        timestamp == whole_timestamp(document_of(meta)),
{
    if let Some(meta) = meta {
        if let Some(value) = json::member(meta, "timestamp") {
            if let Some(timestamp) = json::as_u64(value) {
                return timestamp;
            }
        }
    }
    0
}

/// A message with an image, as the browser sent it. Whoever reads the message gets the image
/// that the text stands for.
pub fn frame_message(
    data: &str,
    meta: Option<&serde_json::Value>,
    width: u32,
    height: u32,
) -> (message: String)
    ensures
        message@ == json_text(frame_document(data@, document_of(meta), width, height)),
        kind_of(message@) == MessageKind::Frame,
        message_image(message@) == base64_bytes(data@),
{
    let mut metadata = json::new_object();
    json::insert(&mut metadata, "offsetTop", read_float(meta, "offsetTop", 0));
    json::insert(&mut metadata, "pageScaleFactor", read_float(meta, "pageScaleFactor", 1));
    json::insert(&mut metadata, "deviceWidth", json::from_u64(width as u64));
    json::insert(&mut metadata, "deviceHeight", json::from_u64(height as u64));
    json::insert(&mut metadata, "scrollOffsetX", read_float(meta, "scrollOffsetX", 0));
    json::insert(&mut metadata, "scrollOffsetY", read_float(meta, "scrollOffsetY", 0));
    json::insert(&mut metadata, "timestamp", json::from_u64(read_timestamp(meta)));

    let mut document = json::new_object();
    json::insert(&mut document, "type", json::from_text("frame"));
    json::insert(&mut document, "data", json::from_text(data));
    json::insert(&mut document, "metadata", metadata);
    let message = json::to_text(&document);
    proof {
        lemma_status_patterns();
        lemma_frame_patterns();
        lemma_kinds();
        lemma_keys();
        lemma_metadata_has_no_pairs(document_of(meta), width, height, "status"@);
        lemma_metadata_has_no_pairs(document_of(meta), width, height, "frame"@);
        let members = json_of(document)->Object_0;
        lemma_type_pair(members, "status"@);
        lemma_type_pair(members, "frame"@);
        assert("data"@ != "metadata"@) by {
            reveal_strlit("data");
            reveal_strlit("metadata");
            assert("data"@.len() != "metadata"@.len());
        }
        assert(members.contains_key("data"@));
        assert(members["data"@] == JsonView::Str(data@));
        assert(json_of(document).nests_within(READABLE_DEPTH as nat)) by {
            reveal_with_fuel(JsonView::nests_within, 3);
        }
    }
    message
}

/// The value of an optional integer.
fn from_optional(n: Option<i64>) -> (value: serde_json::Value)
    ensures
        json_of(value) == optional_int(n),
{
    match n {
        Some(n) => json::from_i64(n),
        None => json::null(),
    }
}

/// A message on an error of the page.
pub fn page_error_message(
    text: &str,
    line: Option<i64>,
    column: Option<i64>,
    millis: u64,
) -> (message: String)
    ensures
        message@ == json_text(page_error_document(text@, line, column, millis)),
        kind_of(message@) == MessageKind::Other,
{
    let mut document = json::new_object();
    json::insert(&mut document, "type", json::from_text("page_error"));
    json::insert(&mut document, "text", json::from_text(text));
    json::insert(&mut document, "line", from_optional(line));
    json::insert(&mut document, "column", from_optional(column));
    json::insert(&mut document, "timestamp", json::from_u64(millis));
    let message = json::to_text(&document);
    proof {
        lemma_status_patterns();
        lemma_frame_patterns();
        lemma_kinds();
        lemma_keys();
        let members = json_of(document)->Object_0;
        lemma_type_pair(members, "status"@);
        lemma_type_pair(members, "frame"@);
    }
    message
}

/// A message with what the page wrote to its console. Where an argument holds the pair of
/// another kind, the message is taken for that kind.
pub fn console_message(
    level: &str,
    text: &str,
    args: Vec<serde_json::Value>,
    millis: u64,
) -> (message: String)
    ensures
        message@ == json_text(console_document(level@, text@, documents_of(args@), millis)),
        says(message@, "status"@) <==> JsonView::Array(documents_of(args@)).holds_pair(
            "type"@,
            "status"@,
        ),
        says(message@, "frame"@) <==> JsonView::Array(documents_of(args@)).holds_pair(
            "type"@,
            "frame"@,
        ),
{
    let ghost items = documents_of(args@);
    let mut document = json::new_object();
    json::insert(&mut document, "type", json::from_text("console"));
    json::insert(&mut document, "level", json::from_text(level));
    json::insert(&mut document, "text", json::from_text(text));
    json::insert(&mut document, "timestamp", json::from_u64(millis));
    if args.len() > 0 {
        json::insert(&mut document, "args", json::from_items(args));
    }
    let message = json::to_text(&document);
    proof {
        lemma_status_patterns();
        lemma_frame_patterns();
        lemma_kinds();
        lemma_keys();
        lemma_console_pair(level@, text@, items, millis, "status"@);
        lemma_console_pair(level@, text@, items, millis, "frame"@);
    }
    message
}

/// A console message holds a pair of another kind exactly where its arguments do.
proof fn lemma_console_pair(
    level: Seq<char>,
    text: Seq<char>,
    args: Seq<JsonView>,
    millis: u64,
    word: Seq<char>,
)
    requires
        word != "console"@,
    ensures
        console_document(level, text, args, millis).holds_pair("type"@, word) <==> JsonView::Array(
            args,
        ).holds_pair("type"@, word),
{
    lemma_keys();
    let document = console_document(level, text, args, millis);
    let members = document->Object_0;
    if args.len() == 0 {
        lemma_type_pair(members, word);
    } else {
        reveal_with_fuel(JsonView::holds_pair, 2);
        assert(members.contains_key("args"@));
        assert(members["args"@] == JsonView::Array(args));
        if document.holds_pair("type"@, word) {
            let key = choose|key: Seq<char>| #[trigger]
                members.contains_key(key) && ({
                    ||| members[key] == JsonView::Str(word) && (key == "type"@ || ends_with_text(
                        key,
                        seq!['"'] + "type"@,
                    ))
                    ||| members[key].holds_pair("type"@, word)
                });
            assert(key == "args"@);
        }
    }
}

} // verus!
