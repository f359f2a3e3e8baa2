//! What the settings of the user come to.
use crate::recording::settings::{setting, CAPTURE_FPS, DEFAULT_SCREENSHOT_CAPTURE_FPS};
use crate::text::{decimal_value, numeral};
use vstd::prelude::*;

verus! {

/// A number that the user sets within the limits is taken as it is; where nothing is set, or what
/// is no number, or a number beyond the limits, the default is taken.
pub proof fn law_setting_is_the_users_or_the_default(
    text: Seq<char>,
    number: u32,
    min: u32,
    max: u32,
    default: u32,
)
    ensures
        setting(None, min, max, default) == default,
        numeral(text) is None ==> setting(Some(text), min, max, default) == default,
        numeral(text) == Some(number) && min <= number && number <= max ==> setting(
            Some(text),
            min,
            max,
            default,
        ) == number,
        numeral(text) == Some(number) && (number < min || max < number) ==> setting(
            Some(text),
            min,
            max,
            default,
        ) == default,
{
}

/// A text with a character that is no digit, other than one plus sign in front, is no number, and
/// neither is a text without digits.
pub proof fn law_only_digits_make_a_number(text: Seq<char>, i: int)
    ensures
        0 <= i < text.len() && !('0' <= text[i] && text[i] <= '9') && (i > 0 || text[i] != '+')
            ==> numeral(text) is None,
        text.len() == 0 ==> numeral(text) is None,
        text == seq!['+'] ==> numeral(text) is None,
{
    if 0 <= i < text.len() && !('0' <= text[i] && text[i] <= '9') {
        if text[0] == '+' && i > 0 {
            assert(text.skip(1)[i - 1] == text[i]);
        }
    }
}

/// The characters are digits.
pub open spec fn are_digits(text: Seq<char>) -> bool {
    forall|i: int| 0 <= i < text.len() ==> '0' <= #[trigger] text[i] && text[i] <= '9'
}

/// Digits denote a number in the way that decimal numerals do: one digit denotes itself, and one
/// more digit behind others denotes ten times what they denote and itself. A plus sign in front
/// changes nothing, and what is too large is no number.
pub proof fn law_numbers_are_decimal(text: Seq<char>, digit: char, value: u32)
    requires
        '0' <= digit && digit <= '9',
        are_digits(text),
    ensures
        numeral(seq![digit]) == Some(((digit as int) - ('0' as int)) as u32),
        text.len() > 0 && numeral(text) == Some(value) ==> {
            let next = value * 10 + ((digit as int) - ('0' as int));
            numeral(text.push(digit)) == (if next <= u32::MAX {
                Some(next as u32)
            } else {
                None
            })
        },
        text.len() > 0 && numeral(text) is None ==> numeral(text.push(digit)) is None,
        text.len() > 0 ==> numeral(seq!['+'] + text) == numeral(text),
{
    reveal_with_fuel(decimal_value, 2);
    let one = seq![digit];
    assert(one.drop_last() =~= seq![]);
    assert(one.last() == digit);
    let more = text.push(digit);
    assert(more.drop_last() =~= text);
    assert(more.last() == digit);
    if text.len() > 0 {
        assert('0' <= text[0] && text[0] <= '9');
        assert(more[0] == text[0]);
        assert(crate::text::digits_of(text) == text);
        assert(crate::text::digits_of(more) == more);
        assert(crate::text::all_digits(text));
        assert forall|i: int| 0 <= i < more.len() implies crate::text::is_digit(
            #[trigger] more[i],
        ) by {
            if i < text.len() {
                assert('0' <= text[i] && text[i] <= '9');
            }
        }
        let signed = seq!['+'] + text;
        assert(signed.skip(1) =~= text);
        assert(signed[0] == '+');
    }
}

/// Where screenshots are recorded, the user sets how many a second: any number from one up to the
/// twenty-five of the video. Without a number, and for none and for more than those, it is eight.
pub proof fn law_screenshots_come_no_faster_than_the_video(text: Seq<char>, number: u32)
    requires
        numeral(text) == Some(number),
    ensures
        ({
            let set = setting(Some(text), 1, CAPTURE_FPS, DEFAULT_SCREENSHOT_CAPTURE_FPS);
            &&& 1 <= number && number <= 25 ==> set == number
            &&& number == 0 || number > 25 ==> set == 8
            &&& setting(None, 1, CAPTURE_FPS, DEFAULT_SCREENSHOT_CAPTURE_FPS) == 8
        }),
{
}

} // verus!
