//! Bytes as text: base64 in the standard alphabet, with padding.
use vstd::prelude::*;

verus! {

/// The character for six bits.
pub open spec fn base64_digit(bits: int) -> char {
    if bits < 26 {
        ('A' as int + bits) as char
    } else if bits < 52 {
        ('a' as int + (bits - 26)) as char
    } else if bits < 62 {
        ('0' as int + (bits - 52)) as char
    } else if bits == 62 {
        '+'
    } else {
        '/'
    }
}

/// The text that stands for some bytes: four characters for each three bytes. Where one or two
/// bytes are left, the bits that are missing are zero and the last characters are filled up.
pub open spec fn base64_text(bytes: Seq<u8>) -> Seq<char>
    decreases bytes.len(),
{
    let a = bytes[0] as int;
    let b = bytes[1] as int;
    let c = bytes[2] as int;
    if bytes.len() == 0 {
        seq![]
    } else if bytes.len() == 1 {
        seq![base64_digit(a / 4), base64_digit(a % 4 * 16), '=', '=']
    } else if bytes.len() == 2 {
        seq![
            base64_digit(a / 4),
            base64_digit(a % 4 * 16 + b / 16),
            base64_digit(b % 16 * 4),
            '=',
        ]
    } else {
        seq![
            base64_digit(a / 4),
            base64_digit(a % 4 * 16 + b / 16),
            base64_digit(b % 16 * 4 + c / 64),
            base64_digit(c % 64),
        ] + base64_text(bytes.skip(3))
    }
}

/// The bytes that a text stands for, if it is the text of some bytes.
pub open spec fn base64_bytes(text: Seq<char>) -> Option<Seq<u8>> {
    if exists|bytes: Seq<u8>| #[trigger] base64_text(bytes) == text {
        Some(choose|bytes: Seq<u8>| #[trigger] base64_text(bytes) == text)
    } else {
        None
    }
}

/// Calls `decode` of the engine `base64::engine::general_purpose::STANDARD`: the bytes whose text
/// this is, and nothing where it is the text of no bytes. The engine takes no text without its
/// padding, none with other padding, and none in which the bits that are missing are not zero.
#[verifier::external_body]
fn decode_base64(text: &str) -> (bytes: Option<Vec<u8>>)
    ensures
        match bytes {
            Some(bytes) => base64_text(bytes@) == text@,
            None => forall|other: Seq<u8>| #[trigger] base64_text(other) != text@,
        },
{
    base64::Engine::decode(&base64::engine::general_purpose::STANDARD, text).ok()
}

/// The characters for different bits differ, and none of them fills up.
proof fn lemma_digits_differ(x: int, y: int)
    requires
        0 <= x < 64,
        0 <= y < 64,
    ensures
        base64_digit(x) == base64_digit(y) ==> x == y,
        base64_digit(x) != '=',
{
}

/// Different bytes have different texts.
pub proof fn law_base64_text_is_unambiguous(x: Seq<u8>, y: Seq<u8>)
    requires
        base64_text(x) == base64_text(y),
    ensures
        x == y,
    decreases x.len(),
{
    let s = base64_text(x);
    let t = base64_text(y);
    if x.len() == 0 || y.len() == 0 {
        assert(s.len() == 0 && t.len() == 0);
        assert(x =~= y);
    } else {
        let (a, b, c) = (x[0] as int, x[1] as int, x[2] as int);
        let (d, e, f) = (y[0] as int, y[1] as int, y[2] as int);
        assert(s[0] == t[0] && s[1] == t[1] && s[2] == t[2] && s[3] == t[3]);
        lemma_digits_differ(a / 4, d / 4);
        let second = |len: nat, a: int, b: int| if len == 1 {
            a % 4 * 16
        } else {
            a % 4 * 16 + b / 16
        };
        lemma_digits_differ(second(x.len(), a, b), second(y.len(), d, e));
        let third = |len: nat, b: int, c: int| if len == 2 {
            b % 16 * 4
        } else {
            b % 16 * 4 + c / 64
        };
        if x.len() >= 2 {
            lemma_digits_differ(third(x.len(), b, c), third(x.len(), b, c));
        }
        if y.len() >= 2 {
            lemma_digits_differ(third(y.len(), e, f), third(y.len(), e, f));
        }
        if x.len() >= 3 {
            lemma_digits_differ(c % 64, c % 64);
        }
        if y.len() >= 3 {
            lemma_digits_differ(f % 64, f % 64);
        }
        if x.len() == 1 {
            assert(y.len() == 1);
            assert(x =~= y);
        } else if x.len() == 2 {
            assert(y.len() == 2);
            lemma_digits_differ(third(2, b, c), third(2, e, f));
            assert(x =~= y);
        } else {
            assert(y.len() >= 3);
            lemma_digits_differ(third(3, b, c), third(3, e, f));
            lemma_digits_differ(c % 64, f % 64);
            assert(s.skip(4) =~= base64_text(x.skip(3)));
            assert(t.skip(4) =~= base64_text(y.skip(3)));
            law_base64_text_is_unambiguous(x.skip(3), y.skip(3));
            assert forall|i: int| 3 <= i < x.len() implies x[i] == y[i] by {
                assert(x.skip(3)[i - 3] == y.skip(3)[i - 3]);
            }
            assert(x.skip(3).len() == y.skip(3).len());
            assert(x =~= y);
        }
    }
}

/// What bytes are written as is read as those bytes.
pub proof fn law_base64_text_is_read_back(bytes: Seq<u8>)
    ensures
        base64_bytes(base64_text(bytes)) == Some(bytes),
{
    let text = base64_text(bytes);
    let read = choose|read: Seq<u8>| #[trigger] base64_text(read) == text;
    law_base64_text_is_unambiguous(bytes, read);
}

/// Reads the bytes that a text stands for.
pub fn read_base64(text: &str) -> (bytes: Option<Vec<u8>>)
    ensures
        match bytes {
            Some(bytes) => base64_bytes(text@) == Some(bytes@),
            None => base64_bytes(text@) is None,
        },
{
    let bytes = decode_base64(text);
    proof {
        if bytes is Some {
            law_base64_text_is_read_back(bytes->0@);
        }
    }
    bytes
}

} // verus!
