//! Reading what the video decoder says of a video: its size, as
//! `<width>x<height>`, and its frame rate, as `<frames>/<seconds>`.
//!
//! White space around the text is passed over. The two numbers stand before
//! and after the first separator; what follows a second separator is not
//! looked at. A number is one or more decimal digits, with or without a `+`
//! before them.

use vstd::prelude::*;
use crate::error::SessionError;

verus! {

/// Whether a byte is white space: a blank, a tab, a line feed, a vertical
/// tab, a form feed or a carriage return.
pub open spec fn is_space(byte: u8) -> bool {
    byte == 0x20 || (0x09 <= byte && byte <= 0x0d)
}

/// Whether a byte is a decimal digit.
pub open spec fn is_digit(byte: u8) -> bool {
    0x30 <= byte && byte <= 0x39
}

/// Where the text begins: the first place from `from` on that holds no
/// white space, or the end.
pub open spec fn text_start(bytes: Seq<u8>, from: int) -> int
    decreases bytes.len() - from,
{
    if 0 <= from < bytes.len() && is_space(bytes[from]) {
        text_start(bytes, from + 1)
    } else {
        from
    }
}

/// Where the text ends: behind the last place before `to` that holds no
/// white space, and not before `start`.
pub open spec fn text_end(bytes: Seq<u8>, start: int, to: int) -> int
    decreases to - start,
{
    if start < to <= bytes.len() && is_space(bytes[to - 1]) {
        text_end(bytes, start, to - 1)
    } else {
        to
    }
}

/// The bytes without the white space before and behind them.
pub open spec fn trimmed(bytes: Seq<u8>) -> Seq<u8> {
    let start = text_start(bytes, 0);
    bytes.subrange(start, text_end(bytes, start, bytes.len() as int))
}

/// The first place from `from` on that holds `separator`, or the end.
pub open spec fn field_end(bytes: Seq<u8>, separator: u8, from: int) -> int
    decreases bytes.len() - from,
{
    if 0 <= from < bytes.len() && bytes[from] != separator {
        field_end(bytes, separator, from + 1)
    } else {
        from
    }
}

/// The number that decimal digits stand for.
pub open spec fn digits_value(digits: Seq<u8>) -> nat
    decreases digits.len(),
{
    if digits.len() == 0 {
        0
    } else {
        digits_value(digits.drop_last()) * 10 + (digits.last() - 0x30) as nat
    }
}

/// The digits of a field: the field without a `+` at its head.
pub open spec fn unsigned_part(field: Seq<u8>) -> Seq<u8> {
    if field.len() > 0 && field[0] == 0x2b {
        field.skip(1)
    } else {
        field
    }
}

/// The number that a field stands for, if it is a number.
pub open spec fn number_of(field: Seq<u8>) -> Option<nat> {
    let digits = unsigned_part(field);
    if digits.len() > 0 && forall|i: int| 0 <= i < digits.len() ==> is_digit(#[trigger] digits[i]) {
        Some(digits_value(digits))
    } else {
        None
    }
}

/// The two numbers of a text, before and after the first `separator`, if
/// the text holds a separator and both fields are numbers.
pub open spec fn number_pair(bytes: Seq<u8>, separator: u8) -> Option<(nat, nat)> {
    let text = trimmed(bytes);
    let first_end = field_end(text, separator, 0);
    if first_end >= text.len() {
        None
    } else {
        let second_end = field_end(text, separator, first_end + 1);
        match (
            number_of(text.subrange(0, first_end)),
            number_of(text.subrange(first_end + 1, second_end)),
        ) {
            (Some(first), Some(second)) => Some((first, second)),
            _ => None,
        }
    }
}

/// Digits stand for no smaller a number when more digits follow them.
proof fn lemma_digits_value_grows(digits: Seq<u8>, upto: int)
    requires
        0 <= upto <= digits.len(),
        forall|i: int| 0 <= i < digits.len() ==> is_digit(#[trigger] digits[i]),
    ensures
        digits_value(digits.subrange(0, upto)) <= digits_value(digits),
    decreases digits.len() - upto,
{
    if upto == digits.len() {
        assert(digits.subrange(0, upto) =~= digits);
    } else {
        lemma_digits_value_grows(digits, upto + 1);
        let longer = digits.subrange(0, upto + 1);
        assert(longer.drop_last() =~= digits.subrange(0, upto));
        assert(is_digit(digits[upto]));
    }
}

/// Whether a byte is white space.
fn byte_is_space(byte: u8) -> (space: bool)
    ensures
        space == is_space(byte),
{
    byte == 0x20 || (0x09 <= byte && byte <= 0x0d)
}

/// The first place from `from` on that holds `separator`, or `to`, in the
/// bytes from `start` up to `to`.
pub fn find_separator(bytes: &[u8], start: usize, to: usize, separator: u8, from: usize) -> (end:
    usize)
    requires
        start <= from <= to <= bytes@.len(),
    ensures
        from <= end <= to,
        end - start == field_end(bytes@.subrange(start as int, to as int), separator, from - start),
{
    let ghost text = bytes@.subrange(start as int, to as int);
    let mut i = from;
    while i < to && bytes[i] != separator
        invariant
            from <= i <= to <= bytes@.len(),
            start <= from,
            text == bytes@.subrange(start as int, to as int),
            field_end(text, separator, from - start) == field_end(text, separator, i - start),
        decreases to - i,
    {
        assert(text[i - start] == bytes@[i as int]);
        i = i + 1;
    }
    proof {
        if i < to {
            assert(text[i - start] == bytes@[i as int]);
        }
    }
    i
}

/// The number that the bytes from `from` up to `to` stand for, if they are
/// a number and it is no more than `limit`.
pub fn parse_number(bytes: &[u8], from: usize, to: usize, limit: u64) -> (number: Option<u64>)
    requires
        from <= to <= bytes@.len(),
    ensures
        match number_of(bytes@.subrange(from as int, to as int)) {
            Some(value) => if value <= limit {
                number == Some(value as u64)
            } else {
                number.is_none()
            },
            None => number.is_none(),
        },
{
    let ghost field = bytes@.subrange(from as int, to as int);
    let mut start = from;
    if start < to && bytes[start] == 0x2b {
        assert(field[0] == bytes@[from as int]);
        start = start + 1;
    } else if start < to {
        assert(field[0] == bytes@[from as int]);
    }
    let ghost digits = bytes@.subrange(start as int, to as int);
    assert(digits =~= unsigned_part(field));
    if start >= to {
        return None;
    }
    let mut value: u128 = 0;
    let mut i = start;
    while i < to
        invariant
            from <= start <= i <= to <= bytes@.len(),
            start < to,
            field == bytes@.subrange(from as int, to as int),
            digits == bytes@.subrange(start as int, to as int),
            digits == unsigned_part(field),
            forall|j: int| 0 <= j < i - start ==> is_digit(#[trigger] digits[j]),
            value == digits_value(digits.subrange(0, i - start)),
            value <= limit,
        decreases to - i,
    {
        let byte = bytes[i];
        assert(digits[i - start] == byte);
        if byte < 0x30 || byte > 0x39 {
            assert(!is_digit(digits[i - start]));
            return None;
        }
        proof {
            let longer = digits.subrange(0, i - start + 1);
            assert(longer.drop_last() =~= digits.subrange(0, i - start));
            assert(longer.last() == byte);
        }
        value = value * 10 + (byte - 0x30) as u128;
        assert(value == digits_value(digits.subrange(0, i - start + 1)));
        if value > limit as u128 {
            proof {
                if forall|j: int| 0 <= j < digits.len() ==> is_digit(#[trigger] digits[j]) {
                    lemma_digits_value_grows(digits, i - start + 1);
                    assert(digits_value(digits) > limit);
                }
            }
            return None;
        }
        i = i + 1;
    }
    assert(digits.subrange(0, i - start) =~= digits);
    Some(value as u64)
}

/// The two numbers of a text, before and after the first `separator`, each
/// no more than its limit.
fn parse_pair(bytes: &[u8], separator: u8, first_limit: u64, second_limit: u64) -> (pair: Option<
    (u64, u64),
>)
    ensures
        match number_pair(bytes@, separator) {
            Some((first, second)) => if first <= first_limit && second <= second_limit {
                pair == Some((first as u64, second as u64))
            } else {
                pair.is_none()
            },
            None => pair.is_none(),
        },
{
    let mut start: usize = 0;
    while start < bytes.len() && byte_is_space(bytes[start])
        invariant
            0 <= start <= bytes@.len(),
            text_start(bytes@, 0) == text_start(bytes@, start as int),
        decreases bytes@.len() - start,
    {
        start = start + 1;
    }
    let mut end: usize = bytes.len();
    while start < end && byte_is_space(bytes[end - 1])
        invariant
            start <= end <= bytes@.len(),
            text_end(bytes@, start as int, bytes@.len() as int) == text_end(
                bytes@,
                start as int,
                end as int,
            ),
        decreases end - start,
    {
        end = end - 1;
    }
    let ghost text = bytes@.subrange(start as int, end as int);
    assert(text == trimmed(bytes@));
    let first_end = find_separator(bytes, start, end, separator, start);
    if first_end >= end {
        return None;
    }
    let second_end = find_separator(bytes, start, end, separator, first_end + 1);
    assert(bytes@.subrange(start as int, first_end as int) =~= text.subrange(
        0,
        first_end - start,
    ));
    assert(bytes@.subrange(first_end + 1, second_end as int) =~= text.subrange(
        first_end + 1 - start,
        second_end - start,
    ));
    let first = parse_number(bytes, start, first_end, first_limit);
    let second = parse_number(bytes, first_end + 1, second_end, second_limit);
    match (first, second) {
        (Some(a), Some(b)) => Some((a, b)),
        _ => None,
    }
}

/// The size of a video, as the decoder gives it: `<width>x<height>`, each a
/// number of pixels that fits. Anything else is an error.
pub fn parse_dimensions(bytes: &[u8]) -> (result: Result<(usize, usize), SessionError>)
    ensures
        match number_pair(bytes@, 0x78) {
            Some((width, height)) => if width <= usize::MAX && height <= usize::MAX {
                result == Ok::<(usize, usize), SessionError>((width as usize, height as usize))
            } else {
                result == Err::<(usize, usize), SessionError>(SessionError::VideoPipelineError)
            },
            None => result == Err::<(usize, usize), SessionError>(
                SessionError::VideoPipelineError,
            ),
        },
{
    match parse_pair(bytes, 0x78, usize::MAX as u64, usize::MAX as u64) {
        Some((width, height)) => Ok((width as usize, height as usize)),
        None => Err(SessionError::VideoPipelineError),
    }
}

/// The frame rate of a video, as the decoder gives it:
/// `<frames>/<seconds>`, each a number that fits in 32 bits. Anything else
/// is an error.
pub fn parse_frame_rate(bytes: &[u8]) -> (result: Result<(u32, u32), SessionError>)
    ensures
        match number_pair(bytes@, 0x2f) {
            Some((frames, seconds)) => if frames <= u32::MAX && seconds <= u32::MAX {
                result == Ok::<(u32, u32), SessionError>((frames as u32, seconds as u32))
            } else {
                result == Err::<(u32, u32), SessionError>(SessionError::VideoPipelineError)
            },
            None => result == Err::<(u32, u32), SessionError>(SessionError::VideoPipelineError),
        },
{
    match parse_pair(bytes, 0x2f, u32::MAX as u64, u32::MAX as u64) {
        Some((frames, seconds)) => Ok((frames as u32, seconds as u32)),
        None => Err(SessionError::VideoPipelineError),
    }
}

} // verus!
