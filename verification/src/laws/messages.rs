//! What the messages for viewers say, and how they are told apart.
use crate::json::{json_text, JsonView};
use crate::laws::commands::{has_members, holds};
use crate::laws::frames::is_number;
use crate::stream::classify::{kind_of, lemma_frame_patterns, lemma_status_patterns, says, MessageKind};
use crate::stream::messages::{
    console_document, frame_document, frame_metadata_document, page_error_document, status_document,
    url_document, whole_timestamp, StreamStatus,
};
use crate::text::contains_text;
use vstd::prelude::*;

verus! {

/// The names in the messages differ.
pub proof fn lemma_names()
    ensures
        "type"@ != "connected"@ && "type"@ != "screencasting"@ && "type"@ != "viewportWidth"@
            && "type"@ != "viewportHeight"@ && "type"@ != "engine"@ && "type"@ != "recording"@,
        "connected"@ != "screencasting"@ && "connected"@ != "viewportWidth"@ && "connected"@
            != "viewportHeight"@ && "connected"@ != "engine"@ && "connected"@ != "recording"@,
        "screencasting"@ != "viewportWidth"@ && "screencasting"@ != "viewportHeight"@
            && "screencasting"@ != "engine"@ && "screencasting"@ != "recording"@,
        "viewportWidth"@ != "viewportHeight"@ && "viewportWidth"@ != "engine"@ && "viewportWidth"@
            != "recording"@,
        "viewportHeight"@ != "engine"@ && "viewportHeight"@ != "recording"@,
        "engine"@ != "recording"@,
        "type"@ != "url"@ && "type"@ != "timestamp"@ && "url"@ != "timestamp"@,
        "type"@ != "data"@ && "type"@ != "metadata"@ && "data"@ != "metadata"@,
        "type"@ != "level"@ && "type"@ != "text"@ && "type"@ != "args"@,
        "level"@ != "text"@ && "level"@ != "timestamp"@ && "level"@ != "args"@,
        "text"@ != "timestamp"@ && "text"@ != "args"@ && "timestamp"@ != "args"@,
        "type"@ != "line"@ && "type"@ != "column"@,
        "text"@ != "line"@ && "text"@ != "column"@,
        "line"@ != "column"@ && "line"@ != "timestamp"@ && "column"@ != "timestamp"@,
        "offsetTop"@ != "pageScaleFactor"@ && "offsetTop"@ != "deviceWidth"@ && "offsetTop"@
            != "deviceHeight"@ && "offsetTop"@ != "scrollOffsetX"@ && "offsetTop"@
            != "scrollOffsetY"@ && "offsetTop"@ != "timestamp"@,
        "pageScaleFactor"@ != "deviceWidth"@ && "pageScaleFactor"@ != "deviceHeight"@
            && "pageScaleFactor"@ != "scrollOffsetX"@ && "pageScaleFactor"@ != "scrollOffsetY"@
            && "pageScaleFactor"@ != "timestamp"@,
        "deviceWidth"@ != "deviceHeight"@ && "deviceWidth"@ != "scrollOffsetX"@ && "deviceWidth"@
            != "scrollOffsetY"@ && "deviceWidth"@ != "timestamp"@,
        "deviceHeight"@ != "scrollOffsetX"@ && "deviceHeight"@ != "scrollOffsetY"@
            && "deviceHeight"@ != "timestamp"@,
        "scrollOffsetX"@ != "scrollOffsetY"@ && "scrollOffsetX"@ != "timestamp"@,
        "scrollOffsetY"@ != "timestamp"@,
{
    reveal_strlit("type");
    reveal_strlit("connected");
    reveal_strlit("screencasting");
    reveal_strlit("viewportWidth");
    reveal_strlit("viewportHeight");
    reveal_strlit("engine");
    reveal_strlit("recording");
    reveal_strlit("url");
    reveal_strlit("timestamp");
    reveal_strlit("data");
    reveal_strlit("metadata");
    reveal_strlit("level");
    reveal_strlit("text");
    reveal_strlit("args");
    reveal_strlit("line");
    reveal_strlit("column");
    reveal_strlit("offsetTop");
    reveal_strlit("pageScaleFactor");
    reveal_strlit("deviceWidth");
    reveal_strlit("deviceHeight");
    reveal_strlit("scrollOffsetX");
    reveal_strlit("scrollOffsetY");
    assert("type"@.len() == 4 && "type"@[0] == 't' && "type"@[1] == 'y');
    assert("connected"@.len() == 9 && "connected"@[0] == 'c');
    assert("screencasting"@.len() == 13 && "screencasting"@[0] == 's' && "screencasting"@[1]
        == 'c');
    assert("viewportWidth"@.len() == 13 && "viewportWidth"@[0] == 'v');
    assert("viewportHeight"@.len() == 14);
    assert("engine"@.len() == 6 && "engine"@[0] == 'e');
    assert("recording"@.len() == 9 && "recording"@[0] == 'r');
    assert("url"@.len() == 3);
    assert("timestamp"@.len() == 9 && "timestamp"@[0] == 't');
    assert("data"@.len() == 4 && "data"@[0] == 'd');
    assert("metadata"@.len() == 8);
    assert("level"@.len() == 5);
    assert("text"@.len() == 4 && "text"@[0] == 't' && "text"@[1] == 'e');
    assert("args"@.len() == 4 && "args"@[0] == 'a');
    assert("line"@.len() == 4 && "line"@[0] == 'l');
    assert("column"@.len() == 6 && "column"@[0] == 'c');
    assert("offsetTop"@.len() == 9 && "offsetTop"@[0] == 'o');
    assert("pageScaleFactor"@.len() == 15);
    assert("deviceWidth"@.len() == 11);
    assert("deviceHeight"@.len() == 12);
    assert("scrollOffsetX"@.len() == 13 && "scrollOffsetX"@[12] == 'X');
    assert("scrollOffsetY"@.len() == 13 && "scrollOffsetY"@[12] == 'Y');
}

/// The document tells the state of the stream: each thing under its own name, and nothing else.
pub open spec fn tells_status(document: JsonView, status: StreamStatus, engine: Seq<char>) -> bool {
    &&& holds(document, "type"@, JsonView::Str("status"@))
    &&& holds(document, "connected"@, JsonView::Bool(status.connected))
    &&& holds(document, "screencasting"@, JsonView::Bool(status.screencasting))
    &&& holds(document, "viewportWidth"@, JsonView::Int(status.width as int))
    &&& holds(document, "viewportHeight"@, JsonView::Int(status.height as int))
    &&& holds(document, "engine"@, JsonView::Str(engine))
    &&& holds(document, "recording"@, JsonView::Bool(status.recording))
    &&& has_members(document, 7)
}

/// The document tells the address that the page has gone to, and when.
pub open spec fn tells_url(document: JsonView, url: Seq<char>, millis: u64) -> bool {
    &&& holds(document, "type"@, JsonView::Str("url"@))
    &&& holds(document, "url"@, JsonView::Str(url))
    &&& holds(document, "timestamp"@, JsonView::Int(millis as int))
    &&& has_members(document, 3)
}

/// `time` is the whole number that the image gives as its time, and zero where it gives none.
pub open spec fn is_whole_time(time: int, meta: Option<JsonView>) -> bool {
    match meta {
        Some(JsonView::Object(members)) => if members.contains_key("timestamp"@) {
            match members["timestamp"@] {
                JsonView::Int(n) => time == (if 0 <= n <= 0xffff_ffff_ffff_ffff {
                    n
                } else {
                    0
                }),
                _ => time == 0,
            }
        } else {
            time == 0
        },
        _ => time == 0,
    }
}

/// The document tells what is known of an image: its own numbers, and the width and the height of
/// the viewport.
pub open spec fn tells_metadata(
    document: JsonView,
    meta: Option<JsonView>,
    width: u32,
    height: u32,
) -> bool {
    &&& document is Object
    &&& ({
        let members = document->Object_0;
        &&& members.contains_key("offsetTop"@) && is_number(
            members["offsetTop"@],
            meta,
            "offsetTop"@,
            0,
        )
        &&& members.contains_key("pageScaleFactor"@) && is_number(
            members["pageScaleFactor"@],
            meta,
            "pageScaleFactor"@,
            1,
        )
        &&& members.contains_key("scrollOffsetX"@) && is_number(
            members["scrollOffsetX"@],
            meta,
            "scrollOffsetX"@,
            0,
        )
        &&& members.contains_key("scrollOffsetY"@) && is_number(
            members["scrollOffsetY"@],
            meta,
            "scrollOffsetY"@,
            0,
        )
        &&& members.contains_key("timestamp"@) && members["timestamp"@] is Int && is_whole_time(
            members["timestamp"@]->Int_0,
            meta,
        )
    })
    &&& holds(document, "deviceWidth"@, JsonView::Int(width as int))
    &&& holds(document, "deviceHeight"@, JsonView::Int(height as int))
    &&& has_members(document, 7)
}

/// The document tells an image: its text as the browser sent it, and what is known of it.
pub open spec fn tells_image(
    document: JsonView,
    data: Seq<char>,
    meta: Option<JsonView>,
    width: u32,
    height: u32,
) -> bool {
    &&& holds(document, "type"@, JsonView::Str("frame"@))
    &&& holds(document, "data"@, JsonView::Str(data))
    &&& document is Object && document->Object_0.contains_key("metadata"@)
    &&& tells_metadata(document->Object_0["metadata"@], meta, width, height)
    &&& has_members(document, 3)
}

/// The document tells what the page wrote to its console, with the arguments where there are any.
pub open spec fn tells_console(
    document: JsonView,
    level: Seq<char>,
    text: Seq<char>,
    args: Seq<JsonView>,
    millis: u64,
) -> bool {
    &&& holds(document, "type"@, JsonView::Str("console"@))
    &&& holds(document, "level"@, JsonView::Str(level))
    &&& holds(document, "text"@, JsonView::Str(text))
    &&& holds(document, "timestamp"@, JsonView::Int(millis as int))
    &&& args.len() > 0 ==> holds(document, "args"@, JsonView::Array(args)) && has_members(
        document,
        5,
    )
    &&& args.len() == 0 ==> has_members(document, 4)
}

/// The document tells an error of the page, with its place where that is known.
pub open spec fn tells_error(
    document: JsonView,
    text: Seq<char>,
    line: Option<i64>,
    column: Option<i64>,
    millis: u64,
) -> bool {
    &&& holds(document, "type"@, JsonView::Str("page_error"@))
    &&& holds(document, "text"@, JsonView::Str(text))
    &&& line is Some ==> holds(document, "line"@, JsonView::Int(line->0 as int))
    &&& line is None ==> holds(document, "line"@, JsonView::Null)
    &&& column is Some ==> holds(document, "column"@, JsonView::Int(column->0 as int))
    &&& column is None ==> holds(document, "column"@, JsonView::Null)
    &&& holds(document, "timestamp"@, JsonView::Int(millis as int))
    &&& has_members(document, 5)
}

/// The message is the text of a document that tells the state.
pub open spec fn says_status(message: Seq<char>, status: StreamStatus, engine: Seq<char>) -> bool {
    exists|document: JsonView|
        message == #[trigger] json_text(document) && tells_status(document, status, engine)
}

/// The message is the text of a document that tells the address.
pub open spec fn says_url(message: Seq<char>, url: Seq<char>, millis: u64) -> bool {
    exists|document: JsonView|
        message == #[trigger] json_text(document) && tells_url(document, url, millis)
}

/// The message is the text of a document that tells the image.
pub open spec fn says_image(
    message: Seq<char>,
    data: Seq<char>,
    meta: Option<JsonView>,
    width: u32,
    height: u32,
) -> bool {
    exists|document: JsonView|
        message == #[trigger] json_text(document) && tells_image(
            document,
            data,
            meta,
            width,
            height,
        )
}

/// The message is the text of a document that tells what was written to the console.
pub open spec fn says_console(
    message: Seq<char>,
    level: Seq<char>,
    text: Seq<char>,
    args: Seq<JsonView>,
    millis: u64,
) -> bool {
    exists|document: JsonView|
        message == #[trigger] json_text(document) && tells_console(
            document,
            level,
            text,
            args,
            millis,
        )
}

/// The message is the text of a document that tells the error.
pub open spec fn says_error(
    message: Seq<char>,
    text: Seq<char>,
    line: Option<i64>,
    column: Option<i64>,
    millis: u64,
) -> bool {
    exists|document: JsonView|
        message == #[trigger] json_text(document) && tells_error(
            document,
            text,
            line,
            column,
            millis,
        )
}

/// A message on the state says each thing of it under its own name.
pub proof fn law_status_says_the_state(status: StreamStatus, engine: Seq<char>)
    ensures
        tells_status(status_document(status, engine), status, engine),
{
    lemma_names();
    broadcast use vstd::set::group_set_axioms;

}

/// A message with an image says the image as it was sent, its own numbers, and the width and the
/// height that it is given, each under its own name.
pub proof fn law_frame_message_says_the_image(
    data: Seq<char>,
    meta: Option<JsonView>,
    width: u32,
    height: u32,
)
    ensures
        tells_metadata(frame_metadata_document(meta, width, height), meta, width, height),
        tells_image(frame_document(data, meta, width, height), data, meta, width, height),
        is_whole_time(whole_timestamp(meta), meta),
{
    lemma_names();
    broadcast use vstd::set::group_set_axioms;

    let document = frame_metadata_document(meta, width, height);
    let members = document->Object_0;
    assert(members["offsetTop"@] == crate::recording::frames::float_or(meta, "offsetTop"@, 0));
    assert(members["pageScaleFactor"@] == crate::recording::frames::float_or(
        meta,
        "pageScaleFactor"@,
        1,
    ));
    assert(members["scrollOffsetX"@] == crate::recording::frames::float_or(
        meta,
        "scrollOffsetX"@,
        0,
    ));
    assert(members["scrollOffsetY"@] == crate::recording::frames::float_or(
        meta,
        "scrollOffsetY"@,
        0,
    ));
    assert(members["timestamp"@] == JsonView::Int(whole_timestamp(meta)));
}

/// The messages on an address, on the console and on an error say what they are about, each thing
/// under its own name.
pub proof fn law_other_messages_say_what_they_are_about(
    url: Seq<char>,
    level: Seq<char>,
    text: Seq<char>,
    args: Seq<JsonView>,
    line: Option<i64>,
    column: Option<i64>,
    millis: u64,
)
    ensures
        tells_url(url_document(url, millis), url, millis),
        tells_console(console_document(level, text, args, millis), level, text, args, millis),
        tells_error(page_error_document(text, line, column, millis), text, line, column, millis),
{
    lemma_names();
    broadcast use vstd::set::group_set_axioms;

}

/// A message is on the state exactly where it holds the pair that says so, with or without a space
/// behind the colon; one with an image exactly where it holds that pair and is not on the state;
/// and any other exactly where it holds neither.
pub proof fn law_messages_are_told_apart_by_their_type(message: Seq<char>)
    ensures
        ({
            let status = contains_text(message, "\"type\":\"status\""@) || contains_text(
                message,
                "\"type\": \"status\""@,
            );
            let frame = contains_text(message, "\"type\":\"frame\""@) || contains_text(
                message,
                "\"type\": \"frame\""@,
            );
            &&& kind_of(message) == MessageKind::Status <==> status
            &&& kind_of(message) == MessageKind::Frame <==> frame && !status
            &&& kind_of(message) == MessageKind::Other <==> !frame && !status
            &&& says(message, "status"@) <==> status
            &&& says(message, "frame"@) <==> frame
        }),
{
    lemma_status_patterns();
    lemma_frame_patterns();
}

} // verus!
