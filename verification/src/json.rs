//! JSON documents: what a `serde_json::Value` holds, and the calls into `serde_json` that
//! read, build, write and parse one.
//!
//! `JsonView` is the mathematical model of a document. Every function here that calls
//! `serde_json` states what the call does to that model. All of it is meant of `serde_json` with
//! its default features: an object is kept sorted by its keys, a number is an integer or a
//! floating-point number, and the nesting that is read is limited.
use crate::text::{contains_text, ends_with_text};
use vstd::prelude::*;

verus! {

/// What a JSON document holds. A floating-point number is modelled by its bit pattern.
pub enum JsonView {
    Null,
    Bool(bool),
    Int(int),
    Float(u64),
    Str(Seq<char>),
    Array(Seq<JsonView>),
    Object(Map<Seq<char>, JsonView>),
}

impl JsonView {
    /// The member of an object under `key`.
    pub open spec fn member(self, key: Seq<char>) -> Option<JsonView> {
        match self {
            JsonView::Object(members) => if members.contains_key(key) {
                Some(members[key])
            } else {
                None
            },
            _ => None,
        }
    }

    /// The text of a string.
    pub open spec fn text(self) -> Option<Seq<char>> {
        match self {
            JsonView::Str(s) => Some(s),
            _ => None,
        }
    }

    /// The text of the string that an object holds under `key`.
    pub open spec fn text_member(self, key: Seq<char>) -> Option<Seq<char>> {
        match self.member(key) {
            Some(value) => value.text(),
            None => None,
        }
    }

    /// A number as a floating-point number.
    pub open spec fn float(self) -> Option<JsonView> {
        match self {
            JsonView::Int(n) => Some(JsonView::Float(nearest_float(n))),
            JsonView::Float(bits) => Some(JsonView::Float(bits)),
            _ => None,
        }
    }

    /// No value of the document stands in more than `depth` arrays and objects.
    pub open spec fn nests_within(self, depth: nat) -> bool
        decreases depth,
    {
        match self {
            JsonView::Array(items) => depth > 0 && forall|i: int|
                0 <= i < items.len() ==> #[trigger] items[i].nests_within((depth - 1) as nat),
            JsonView::Object(members) => depth > 0 && forall|key: Seq<char>| #[trigger]
                members.contains_key(key) ==> members[key].nests_within((depth - 1) as nat),
            _ => true,
        }
    }

    /// Somewhere in the document an object holds the string `value` under a key that is
    /// `key`, or that ends in a quotation mark and `key`.
    pub open spec fn holds_pair(self, key: Seq<char>, value: Seq<char>) -> bool
        decreases self,
    {
        match self {
            JsonView::Array(items) => exists|i: int|
                0 <= i < items.len() && #[trigger] items[i].holds_pair(key, value),
            JsonView::Object(members) => exists|k: Seq<char>| #[trigger]
                members.contains_key(k) && ({
                    ||| members[k] == JsonView::Str(value) && (k == key || ends_with_text(
                        k,
                        seq!['"'] + key,
                    ))
                    ||| members[k].holds_pair(key, value)
                }),
            _ => false,
        }
    }
}

/// What the documents in a list hold.
pub open spec fn documents_of(values: Seq<serde_json::Value>) -> Seq<JsonView> {
    values.map_values(|value: serde_json::Value| json_of(value))
}

/// One or more letters.
pub open spec fn is_word(text: Seq<char>) -> bool {
    text.len() > 0 && forall|i: int|
        0 <= i < text.len() ==> ('a' <= #[trigger] text[i] <= 'z' || 'A' <= text[i] <= 'Z')
}

/// `"key":"value"`, without white space.
pub open spec fn compact_pair(key: Seq<char>, value: Seq<char>) -> Seq<char> {
    seq!['"'] + key + seq!['"', ':', '"'] + value + seq!['"']
}

/// `"key": "value"`, with a space behind the colon.
pub open spec fn spaced_pair(key: Seq<char>, value: Seq<char>) -> Seq<char> {
    seq!['"'] + key + seq!['"', ':', ' ', '"'] + value + seq!['"']
}

/// How many arrays and objects `serde_json` reads within one another.
pub const READABLE_DEPTH: u8 = 127;

/// `read` has the members of `written`, and its strings are those of `written`.
pub open spec fn same_strings(
    written: Map<Seq<char>, JsonView>,
    read: Map<Seq<char>, JsonView>,
) -> bool {
    &&& read.dom() == written.dom()
    &&& forall|key: Seq<char>| #[trigger]
        written.contains_key(key) ==> read[key].text() == written[key].text()
}

#[verifier::external_type_specification]
#[verifier::external_body]
pub struct ExValue(serde_json::Value);

/// What a `serde_json::Value` holds.
pub uninterp spec fn json_of(value: serde_json::Value) -> JsonView;

/// The bit pattern of the floating-point number that `serde_json` gives for an integer.
pub uninterp spec fn nearest_float(n: int) -> u64;

/// The text that `serde_json` writes for a document.
pub uninterp spec fn json_text(document: JsonView) -> Seq<char>;

/// The document that `serde_json` reads from a text, if the text is one.
pub uninterp spec fn json_document(text: Seq<char>) -> Option<JsonView>;

/// Calls `Value::get` with a string: the member of an object under that key, and nothing for
/// a key that is not there or a value that is no object.
#[verifier::external_body]
pub(crate) fn member<'a>(value: &'a serde_json::Value, key: &str) -> (found: Option<
    &'a serde_json::Value,
>)
    ensures
        found is Some <==> json_of(*value).member(key@) is Some,
        found matches Some(m) ==> json_of(*value).member(key@) == Some(json_of(*m)),
{
    value.get(key)
}

/// Calls `Value::as_str`: the text of a string, and nothing for any other value.
#[verifier::external_body]
pub(crate) fn as_text<'a>(value: &'a serde_json::Value) -> (found: Option<&'a str>)
    ensures
        found is Some <==> json_of(*value).text() is Some,
        found matches Some(text) ==> json_of(*value).text() == Some(text@),
{
    value.as_str()
}

/// Calls `Value::as_i64`: an integer that an `i64` can hold, and nothing for any other value.
#[verifier::external_body]
pub(crate) fn as_i64(value: &serde_json::Value) -> (found: Option<i64>)
    ensures
        found == (match json_of(*value) {
            JsonView::Int(n) => if i64::MIN <= n <= i64::MAX {
                Some(n as i64)
            } else {
                None
            },
            _ => None,
        }),
{
    value.as_i64()
}

/// Calls `Value::as_u64`: an integer that a `u64` can hold, and nothing for any other value.
#[verifier::external_body]
pub(crate) fn as_u64(value: &serde_json::Value) -> (found: Option<u64>)
    ensures
        found == (match json_of(*value) {
            JsonView::Int(n) => if 0 <= n <= u64::MAX {
                Some(n as u64)
            } else {
                None
            },
            _ => None,
        }),
{
    value.as_u64()
}

/// Calls `Value::as_bool`: the truth value, and nothing for any other value.
#[verifier::external_body]
pub(crate) fn as_bool(value: &serde_json::Value) -> (found: Option<bool>)
    ensures
        found == (match json_of(*value) {
            JsonView::Bool(b) => Some(b),
            _ => None,
        }),
{
    value.as_bool()
}

/// Calls `Value::as_array`: the items of an array in their order, and nothing for any other
/// value.
#[verifier::external_body]
pub(crate) fn as_items<'a>(value: &'a serde_json::Value) -> (found: Option<
    &'a Vec<serde_json::Value>,
>)
    ensures
        found is Some <==> json_of(*value) is Array,
        found matches Some(items) ==> json_of(*value) == JsonView::Array(documents_of(items@)),
{
    value.as_array()
}

/// Calls `Value::as_f64` and turns the number back into a value: a number as a floating-point
/// number, and nothing for any other value.
#[verifier::external_body]
pub(crate) fn as_float(value: &serde_json::Value) -> (found: Option<serde_json::Value>)
    ensures
        match json_of(*value) {
            JsonView::Int(n) => found matches Some(number) && json_of(number) == JsonView::Float(
                nearest_float(n),
            ),
            JsonView::Float(bits) => found matches Some(number) && json_of(number)
                == JsonView::Float(bits),
            _ => found is None,
        },
{
    value.as_f64().map(serde_json::Value::from)
}

/// Calls `Value::clone`: the clone is equal to the value.
#[verifier::external_body]
pub(crate) fn copy_of(value: &serde_json::Value) -> (copy: serde_json::Value)
    ensures
        copy == *value,
{
    value.clone()
}

/// Makes the value `Value::Null`.
#[verifier::external_body]
pub(crate) fn null() -> (value: serde_json::Value)
    ensures
        json_of(value) == JsonView::Null,
{
    serde_json::Value::Null
}

/// Calls `Value::from` with a truth value.
#[verifier::external_body]
pub(crate) fn from_bool(b: bool) -> (value: serde_json::Value)
    ensures
        json_of(value) == JsonView::Bool(b),
{
    serde_json::Value::from(b)
}

/// Calls `Value::from` with an unsigned integer.
#[verifier::external_body]
pub(crate) fn from_u64(n: u64) -> (value: serde_json::Value)
    ensures
        json_of(value) == JsonView::Int(n as int),
{
    serde_json::Value::from(n)
}

/// Calls `Value::from` with a signed integer.
#[verifier::external_body]
pub(crate) fn from_i64(n: i64) -> (value: serde_json::Value)
    ensures
        json_of(value) == JsonView::Int(n as int),
{
    serde_json::Value::from(n)
}

/// Calls `Value::from` with a string slice.
#[verifier::external_body]
pub(crate) fn from_text(text: &str) -> (value: serde_json::Value)
    ensures
        json_of(value) == JsonView::Str(text@),
{
    serde_json::Value::from(text)
}

/// Calls `Value::from` with a vector: the array of its items in their order.
#[verifier::external_body]
pub(crate) fn from_items(items: Vec<serde_json::Value>) -> (value: serde_json::Value)
    ensures
        json_of(value) == JsonView::Array(documents_of(items@)),
{
    serde_json::Value::from(items)
}

/// Calls `serde_json::Map::new`: an object without members.
#[verifier::external_body]
pub(crate) fn new_object() -> (value: serde_json::Value)
    ensures
        json_of(value) == JsonView::Object(Map::<Seq<char>, JsonView>::empty()),
{
    serde_json::Value::Object(serde_json::Map::new())
}

/// Calls `serde_json::Map::insert` on an object: the member under `key` becomes `member`, and
/// the others stay. A value that is no object is left as it is.
#[verifier::external_body]
pub(crate) fn insert(object: &mut serde_json::Value, key: &str, member: serde_json::Value)
    ensures
        json_of(*final(object)) == (match json_of(*old(object)) {
            JsonView::Object(members) => JsonView::Object(members.insert(key@, json_of(member))),
            other => other,
        }),
{
    match object {
        serde_json::Value::Object(members) => {
            members.insert(key.to_string(), member);
        },
        _ => {},
    }
}

/// Calls `Value::to_string`, which writes a document without white space.
///
/// Four facts of that format are stated besides the text's name. The text can be read back as
/// long as the document does not nest too deep. Reading the text of an object back, where that
/// succeeds, gives the same members with the same strings. The characters
/// `"key":"value"`, for a key and a value made of letters, stand in the text exactly where an
/// object of the document holds that string under that key, or under a longer key that ends
/// the same way: every quotation mark within a string is written behind a backslash. And they
/// never stand there with a space behind the colon. What the text is otherwise is left to its
/// name.
#[verifier::external_body]
pub(crate) fn to_text(value: &serde_json::Value) -> (text: String)
    ensures
        text@ == json_text(json_of(*value)),
        json_of(*value).nests_within(READABLE_DEPTH as nat) ==> json_document(text@) is Some,
        json_of(*value) matches JsonView::Object(written) ==> (json_document(text@) matches Some(
            document,
        ) ==> (document matches JsonView::Object(read) && same_strings(written, read))),
        forall|key: Seq<char>, word: Seq<char>|
            is_word(key) && is_word(word) ==> (contains_text(
                text@,
                #[trigger] compact_pair(key, word),
            ) <==> json_of(*value).holds_pair(key, word)),
        forall|key: Seq<char>, word: Seq<char>|
            is_word(key) && is_word(word) ==> !contains_text(
                text@,
                #[trigger] spaced_pair(key, word),
            ),
{
    value.to_string()
}

/// Calls `serde_json::from_str`: the document that the text is, and nothing where it is none.
#[verifier::external_body]
pub(crate) fn parse(text: &str) -> (document: Option<serde_json::Value>)
    ensures
        document is Some <==> json_document(text@) is Some,
        document matches Some(value) ==> json_document(text@) == Some(json_of(value)),
{
    serde_json::from_str(text).ok()
}

} // verus!
