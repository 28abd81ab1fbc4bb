//! The mood tag: the structured prefix `[MOOD:n]` that a reply of the
//! assistant is expected to carry.
//!
//! A reply is tagged when it begins with `[MOOD:`, a non-empty run of decimal
//! digits and `]`, and the digits denote a number from 1 to 10. Parsing a
//! tagged reply gives the number and the text behind the tag, without the one
//! space that separates the two where there is one. Any other reply is
//! handed back whole, with no mood.

use crate::text::{chars_of, matches_at, occurs_at};
use vstd::prelude::*;

verus! {

/// What every mood tag begins with.
pub const TAG_OPEN: &'static str = "[MOOD:";

/// The lowest mood.
pub const MOOD_MIN: i32 = 1;

/// The highest mood.
pub const MOOD_MAX: i32 = 10;

/// `c` is one of the ten decimal digits.
pub open spec fn is_digit(c: char) -> bool {
    '0' <= c <= '9'
}

/// The number that the digit `c` stands for.
pub open spec fn digit_value(c: char) -> nat {
    (c as u32 - '0' as u32) as nat
}

/// The number that `digits` denotes in base ten. Leading zeros do not count.
pub open spec fn decimal_value(digits: Seq<char>) -> nat
    decreases digits.len(),
{
    if digits.len() == 0 {
        0
    } else {
        decimal_value(digits.drop_last()) * 10 + digit_value(digits.last())
    }
}

/// Where the run of digits that starts at `from` ends: the first position
/// from there that holds no digit.
pub open spec fn digits_end(text: Seq<char>, from: int) -> int
    decreases text.len() - from,
{
    if 0 <= from < text.len() && is_digit(text[from]) {
        digits_end(text, from + 1)
    } else {
        from
    }
}

/// The mood tag at the head of `text`, as its score and the position behind
/// its closing bracket.
pub open spec fn mood_tag(text: Seq<char>) -> Option<(i32, int)> {
    let first = TAG_OPEN@.len() as int;
    let end = digits_end(text, first);
    let score = decimal_value(text.subrange(first, end));
    if occurs_at(TAG_OPEN@, text, 0) && first < end < text.len() && text[end] == ']' && MOOD_MIN
        <= score <= MOOD_MAX {
        Some((score as i32, end + 1))
    } else {
        None
    }
}

/// Where the text behind a tag starts, given where the tag ends: behind the
/// space that follows the tag, if one does.
pub open spec fn reply_start(text: Seq<char>, tag_end: int) -> int {
    if tag_end < text.len() && text[tag_end] == ' ' {
        tag_end + 1
    } else {
        tag_end
    }
}

/// The mood and the remaining text of a reply.
pub open spec fn parsed_reply(text: Seq<char>) -> (Option<i32>, Seq<char>) {
    match mood_tag(text) {
        Some((score, tag_end)) => (
            Some(score),
            text.subrange(reply_start(text, tag_end), text.len() as int),
        ),
        None => (None, text),
    }
}

/// Adding a digit at the end multiplies by ten and adds the digit.
proof fn lemma_decimal_step(text: Seq<char>, first: int, end: int)
    requires
        0 <= first <= end < text.len(),
    ensures
        decimal_value(text.subrange(first, end + 1)) == decimal_value(text.subrange(first, end))
            * 10 + digit_value(text[end]),
{
    let longer = text.subrange(first, end + 1);
    assert(longer.drop_last() =~= text.subrange(first, end));
}

/// Whether `c` is one of the ten decimal digits.
fn is_decimal_digit(c: char) -> (digit: bool)
    ensures
        digit == is_digit(c),
{
    '0' <= c && c <= '9'
}

/// Splits a reply into its mood and its text.
pub fn parse_mood(text: &str) -> (parsed: (Option<i32>, String))
    ensures
        parsed.0 == parsed_reply(text@).0,
        parsed.1@ == parsed_reply(text@).1,
        parsed.0 matches Some(score) ==> MOOD_MIN <= score <= MOOD_MAX,
        parsed.0 is None ==> parsed.1@ == text@,
{
    let chars = chars_of(text);
    let open = chars_of(TAG_OPEN);
    let first = open.len();
    if !matches_at(&open, &chars, 0) {
        return (None, text.to_owned());
    }
    // The score is followed only up to 11: beyond 10 its size does not matter.
    let mut end = first;
    let mut score: u32 = 0;
    while end < chars.len() && is_decimal_digit(chars[end])
        invariant
            chars@ == text@,
            first <= end <= chars@.len(),
            digits_end(text@, first as int) == digits_end(text@, end as int),
            score <= 11,
            score == if decimal_value(text@.subrange(first as int, end as int)) > 10 {
                11
            } else {
                decimal_value(text@.subrange(first as int, end as int))
            },
        decreases chars@.len() - end,
    {
        proof {
            lemma_decimal_step(text@, first as int, end as int);
        }
        let digit = chars[end] as u32 - '0' as u32;
        score = if score > 10 {
            11
        } else if score * 10 + digit > 10 {
            11
        } else {
            score * 10 + digit
        };
        end += 1;
    }
    if end == first || end >= chars.len() || chars[end] != ']' || score < 1 || score > 10 {
        return (None, text.to_owned());
    }
    let tag_end = end + 1;
    let start = if tag_end < chars.len() && chars[tag_end] == ' ' {
        tag_end + 1
    } else {
        tag_end
    };
    let rest = text.substring_char(start, chars.len());
    (Some(score as i32), rest.to_owned())
}

/// A run of digits that starts at `from` and stops at `end` ends at `end`.
proof fn lemma_digits_run(text: Seq<char>, from: int, end: int)
    requires
        0 <= from <= end <= text.len(),
        forall|k: int| from <= k < end ==> is_digit(#[trigger] text[k]),
        end < text.len() ==> !is_digit(text[end]),
    ensures
        digits_end(text, from) == end,
    decreases end - from,
{
    if from < end {
        lemma_digits_run(text, from + 1, end);
    }
}

/// The run of digits that starts at `from` holds digits only, and what
/// follows it is no digit.
proof fn lemma_digits_end(text: Seq<char>, from: int)
    requires
        0 <= from <= text.len(),
    ensures
        from <= digits_end(text, from) <= text.len(),
        forall|k: int| from <= k < digits_end(text, from) ==> is_digit(#[trigger] text[k]),
        digits_end(text, from) < text.len() ==> !is_digit(text[digits_end(text, from)]),
    decreases text.len() - from,
{
    if from < text.len() && is_digit(text[from]) {
        lemma_digits_end(text, from + 1);
    }
}

/// `digits` is a number as a tag holds it: one decimal digit or more, and
/// nothing else.
pub open spec fn is_number(digits: Seq<char>) -> bool {
    &&& digits.len() > 0
    &&& forall|i: int| 0 <= i < digits.len() ==> is_digit(#[trigger] digits[i])
}

/// The reply that carries `digits` in its tag and goes on with `rest`.
pub open spec fn tagged(digits: Seq<char>, rest: Seq<char>) -> Seq<char> {
    TAG_OPEN@ + digits + seq![']'] + rest
}

/// The text behind a tag: `rest` without the space that it begins with, if
/// it begins with one.
pub open spec fn without_separator(rest: Seq<char>) -> Seq<char> {
    if rest.len() > 0 && rest[0] == ' ' {
        rest.drop_first()
    } else {
        rest
    }
}

/// In a tagged reply the run of digits is the number of the tag.
proof fn lemma_tag_is_found(digits: Seq<char>, rest: Seq<char>)
    requires
        is_number(digits),
    ensures
        occurs_at(TAG_OPEN@, tagged(digits, rest), 0),
        digits_end(tagged(digits, rest), TAG_OPEN@.len() as int) == TAG_OPEN@.len() + digits.len(),
        tagged(digits, rest).subrange(
            TAG_OPEN@.len() as int,
            (TAG_OPEN@.len() + digits.len()) as int,
        ) == digits,
{
    let text = tagged(digits, rest);
    let first = TAG_OPEN@.len() as int;
    let end = first + digits.len();
    assert(text.subrange(0, first) =~= TAG_OPEN@);
    lemma_digits_run(text, first, end);
    assert(text.subrange(first, end) =~= digits);
}

/// A reply that is made of `[MOOD:`, a number from 1 to 10, `]` and any text
/// parses to that number and to that text, less the separating space.
pub proof fn lemma_tagged_reply_is_read(digits: Seq<char>, rest: Seq<char>)
    requires
        is_number(digits),
        MOOD_MIN <= decimal_value(digits) <= MOOD_MAX,
    ensures
        parsed_reply(tagged(digits, rest)) == (
            Some(decimal_value(digits) as i32),
            without_separator(rest),
        ),
{
    let text = tagged(digits, rest);
    let end = (TAG_OPEN@.len() + digits.len()) as int;
    lemma_tag_is_found(digits, rest);
    assert(text.subrange(reply_start(text, end + 1), text.len() as int) =~= without_separator(
        rest,
    ));
}

/// A reply whose tag holds a number below 1 or above 10 has no mood and is
/// handed back whole.
pub proof fn lemma_number_out_of_range_is_not_read(digits: Seq<char>, rest: Seq<char>)
    requires
        is_number(digits),
        !(MOOD_MIN <= decimal_value(digits) <= MOOD_MAX),
    ensures
        parsed_reply(tagged(digits, rest)) == (None::<i32>, tagged(digits, rest)),
{
    lemma_tag_is_found(digits, rest);
}

/// A reply has a mood only if it begins with a well-formed tag that holds
/// it: the reply is `[MOOD:`, a number, `]` and some text, and the number is
/// the mood, from 1 to 10. A reply without a mood is handed back whole.
pub proof fn lemma_mood_comes_from_tag(text: Seq<char>)
    ensures
        parsed_reply(text).0 matches Some(score) ==> exists|digits: Seq<char>, rest: Seq<char>|
            #[trigger] tagged(digits, rest) == text && is_number(digits) && decimal_value(digits)
                == score && MOOD_MIN <= score <= MOOD_MAX,
        parsed_reply(text).0 is None ==> parsed_reply(text).1 == text,
{
    if parsed_reply(text).0 is Some {
        let first = TAG_OPEN@.len() as int;
        let end = digits_end(text, first);
        lemma_digits_end(text, first);
        let digits = text.subrange(first, end);
        let rest = text.subrange(end + 1, text.len() as int);
        assert(tagged(digits, rest) =~= text);
    }
}

} // verus!
