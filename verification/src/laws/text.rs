//! What it means that a text holds another.
use crate::json::{documents_of, json_of};
use crate::text::{contains_text, ends_with_text, occurs_at, slice_of, text_of, texts_of};
use vstd::prelude::*;

verus! {

/// A text holds a pattern exactly where it is made of something, the pattern, and something more.
pub proof fn law_held_pattern_is_a_part(
    text: Seq<char>,
    pattern: Seq<char>,
    before: Seq<char>,
    after: Seq<char>,
)
    ensures
        contains_text(before + pattern + after, pattern),
        contains_text(text, pattern) ==> exists|front: Seq<char>, back: Seq<char>|
            text == #[trigger] (front + pattern + back),
{
    let whole = before + pattern + after;
    assert(whole.subrange(before.len() as int, (before.len() + pattern.len()) as int) =~= pattern);
    assert(occurs_at(whole, pattern, before.len() as int));
    if contains_text(text, pattern) {
        let at = choose|at: int| occurs_at(text, pattern, at);
        let front = text.take(at);
        let back = text.skip(at + pattern.len());
        assert(text =~= front + pattern + back) by {
            assert(text.subrange(at, at + pattern.len()) == pattern);
            assert forall|i: int| at <= i < at + pattern.len() implies text[i] == pattern[i - at] by {
                assert(text.subrange(at, at + pattern.len())[i - at] == text[i]);
            }
        }
    }
}

/// A text ends with another exactly where it is made of something and that other text.
pub proof fn law_last_part_is_a_part(text: Seq<char>, suffix: Seq<char>, before: Seq<char>)
    ensures
        ends_with_text(before + suffix, suffix),
        ends_with_text(text, suffix) ==> exists|front: Seq<char>|
            text == #[trigger] (front + suffix),
{
    let whole = before + suffix;
    assert(whole.subrange(before.len() as int, (before.len() + suffix.len()) as int) =~= suffix);
    if ends_with_text(text, suffix) {
        let at = text.len() - suffix.len();
        let front = text.take(at);
        assert(text =~= front + suffix) by {
            assert(text.subrange(at, at + suffix.len()) == suffix);
            assert forall|i: int| at <= i < text.len() implies text[i] == suffix[i - at] by {
                assert(text.subrange(at, at + suffix.len())[i - at] == text[i]);
            }
        }
    }
}

/// The model of a text that may be missing is its characters where it is there, and nothing where
/// it is not; that of a list holds those of its texts, or of its documents, in their order.
pub proof fn law_model_of_a_text_is_its_characters(
    text: String,
    slice: &str,
    texts: Seq<String>,
    values: Seq<serde_json::Value>,
    i: int,
)
    ensures
        text_of(Some(text)) == Some(text@),
        text_of(None) is None,
        slice_of(Some(slice)) == Some(slice@),
        slice_of(None) is None,
        texts_of(texts).len() == texts.len(),
        0 <= i < texts.len() ==> texts_of(texts)[i] == texts[i]@,
        documents_of(values).len() == values.len(),
        0 <= i < values.len() ==> documents_of(values)[i] == json_of(values[i]),
{
}

} // verus!
