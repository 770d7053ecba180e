//! What the character-level operations mean.

use crate::phrases::{closes, holds, leads};
use crate::text::{
    ascii_lowercase, begins_with, decimal, digits_value, finishes_with, is_digit, occurs, occurs_at,
    spelled_u8, unsigned_digits,
};
use vstd::prelude::*;

verus! {

/// A text that begins with another starts with its characters.
pub proof fn law_beginnings_are_led(text: Seq<char>, prefix: Seq<char>)
    ensures
        begins_with(text, prefix) <==> leads(text, prefix),
        begins_with(prefix + text, prefix),
{
    if prefix.len() <= text.len() {
        assert(text.subrange(0, prefix.len() as int) =~= text.take(prefix.len() as int));
    }
    assert((prefix + text).subrange(0, prefix.len() as int) =~= prefix);
}

/// A text that finishes with another ends with its characters.
pub proof fn law_endings_are_closed(text: Seq<char>, suffix: Seq<char>)
    ensures
        finishes_with(text, suffix) <==> closes(text, suffix),
        finishes_with(text + suffix, suffix),
{
    if suffix.len() <= text.len() {
        assert(text.subrange(text.len() - suffix.len(), text.len() as int) =~= text.skip(
            text.len() - suffix.len(),
        ));
    }
    let whole = text + suffix;
    assert(whole.subrange(whole.len() - suffix.len(), whole.len() as int) =~= suffix);
}

/// A text in which a word occurs is something, the word, and something.
pub proof fn law_occurrences_are_held(text: Seq<char>, word: Seq<char>)
    ensures
        occurs(text, word) <==> holds(text, word),
{
    if occurs(text, word) {
        let at = choose|at: int| occurs_at(text, word, at);
        let before = text.take(at);
        let after = text.skip(at + word.len());
        assert(text =~= before + word + after) by {
            assert forall|i: int| 0 <= i < text.len() implies text[i] == (before + word
                + after)[i] by {
                if at <= i < at + word.len() {
                    assert(text.subrange(at, at + word.len())[i - at] == text[i]);
                }
            }
        }
    }
    if holds(text, word) {
        let (before, after) = choose|before: Seq<char>, after: Seq<char>|
            text == #[trigger] (before + word + after);
        let at = before.len() as int;
        assert(text.subrange(at, at + word.len()) =~= word);
        assert(occurs_at(text, word, at));
    }
}

/// Lowering changes capital ASCII letters to small ones, each at its place, and
/// nothing else.
pub proof fn law_lowering_keeps_all_but_capitals(text: Seq<char>, at: int)
    requires
        0 <= at < text.len(),
    ensures
        ascii_lowercase(text).len() == text.len(),
        'A' <= text[at] <= 'Z' ==> ascii_lowercase(text)[at] as int == text[at] as int - 'A' as int
            + 'a' as int,
        !('A' <= text[at] <= 'Z') ==> ascii_lowercase(text)[at] == text[at],
{
}

/// Digits count in tens: each one behind the others.
pub proof fn law_digits_count_in_tens(digits: Seq<char>, last: char)
    requires
        '0' <= last <= '9',
    ensures
        digits_value(Seq::empty()) == 0,
        digits_value(digits.push(last)) == 10 * digits_value(digits) + (last as int - '0' as int),
{
    assert(digits.push(last).drop_last() =~= digits);
}

/// The decimal text of a number: a digit for each power of ten, the highest
/// first, and a minus sign in front of a negative one.
pub proof fn law_decimals_are_digits(n: int)
    ensures
        0 <= n <= 9 ==> decimal(n) == seq![('0' as int + n) as char],
        n > 9 ==> decimal(n) == decimal(n / 10).push(('0' as int + n % 10) as char),
        n < 0 ==> decimal(n) == seq!['-'] + decimal(-n),
{
}

/// A small number is spelled by its digits, with or without a plus sign in
/// front; by nothing that holds another character, and by no number above 255.
pub proof fn law_small_numbers_are_spelled_by_digits(digits: Seq<char>, at: int)
    requires
        digits.len() > 0,
        digits[0] != '+',
    ensures
        (forall|i: int| 0 <= i < digits.len() ==> '0' <= #[trigger] digits[i] <= '9') ==> {
            &&& digits_value(digits) <= 255 ==> spelled_u8(digits) == Some(
                digits_value(digits) as u8,
            ) && spelled_u8(seq!['+'] + digits) == Some(digits_value(digits) as u8)
            &&& digits_value(digits) > 255 ==> spelled_u8(digits) is None && spelled_u8(
                seq!['+'] + digits,
            ) is None
        },
        0 <= at < digits.len() && !('0' <= digits[at] <= '9') ==> spelled_u8(digits) is None
            && spelled_u8(seq!['+'] + digits) is None,
        spelled_u8(Seq::empty()) is None,
        spelled_u8(seq!['+']) is None,
{
    let signed = seq!['+'] + digits;
    assert(unsigned_digits(signed) =~= digits);
    assert(unsigned_digits(digits) == digits);
    assert(unsigned_digits(seq!['+']).len() == 0);
    if forall|i: int| 0 <= i < digits.len() ==> '0' <= #[trigger] digits[i] <= '9' {
        assert forall|i: int| 0 <= i < digits.len() implies is_digit(#[trigger] digits[i]) by {
            assert('0' <= digits[i] <= '9');
        }
    }
    if 0 <= at < digits.len() && !('0' <= digits[at] <= '9') {
        assert(!is_digit(digits[at]));
    }
}

} // verus!
