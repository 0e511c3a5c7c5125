//! Unsigned decimal numbers in ASCII text.
//!
//! A number is an optional `+` followed by one or more digits `0` to `9`;
//! leading zeros are allowed, and nothing else is: no sign `-`, no blank, no
//! empty text.

use vstd::prelude::*;

verus! {

/// The byte is one of the ASCII digits.
pub open spec fn is_digit(byte: u8) -> bool {
    48 <= byte <= 57
}

/// Every byte of the text is a digit.
pub open spec fn all_digits(text: Seq<u8>) -> bool {
    forall|i: int| 0 <= i < text.len() ==> is_digit(#[trigger] text[i])
}

/// The number that a text of digits writes in base ten.
pub open spec fn digits_value(text: Seq<u8>) -> nat
    decreases text.len(),
{
    if text.len() == 0 {
        0
    } else {
        digits_value(text.drop_last()) * 10 + (text.last() - 48) as nat
    }
}

/// The text without its leading `+`, if it has one.
pub open spec fn unsigned_part(text: Seq<u8>) -> Seq<u8> {
    if text.len() > 0 && text[0] == 43 {
        text.subrange(1, text.len() as int)
    } else {
        text
    }
}

/// The number that the text writes, if it writes one that is at most `max`.
pub open spec fn parse_decimal(text: Seq<u8>, max: nat) -> Option<nat> {
    let digits = unsigned_part(text);
    if digits.len() > 0 && all_digits(digits) && digits_value(digits) <= max {
        Some(digits_value(digits))
    } else {
        None
    }
}

/// A text of digits writes at least what any of its prefixes writes.
pub proof fn lemma_prefix_value(text: Seq<u8>, k: int)
    requires
        0 <= k <= text.len(),
    ensures
        digits_value(text.subrange(0, k)) <= digits_value(text),
    decreases text.len() - k,
{
    if k == text.len() {
        assert(text.subrange(0, k) =~= text);
    } else {
        lemma_prefix_value(text, k + 1);
        assert(text.subrange(0, k + 1).drop_last() =~= text.subrange(0, k));
    }
}

/// Reads an unsigned decimal number that is at most `max`.
pub fn parse_bounded(text: &[u8], max: u64) -> (number: Option<u64>)
    ensures
        match number {
            Some(value) => parse_decimal(text@, max as nat) == Some(value as nat),
            None => parse_decimal(text@, max as nat) is None,
        },
{
    let start: usize = if text.len() > 0 && text[0] == 43 {
        1
    } else {
        0
    };
    let ghost digits = unsigned_part(text@);
    if start == text.len() {
        return None;
    }
    let mut value: u64 = 0;
    let mut i: usize = start;
    while i < text.len()
        invariant
            start <= i <= text@.len(),
            digits == text@.subrange(start as int, text@.len() as int),
            digits == unsigned_part(text@),
            forall|k: int| 0 <= k < i - start ==> is_digit(#[trigger] digits[k]),
            value == digits_value(digits.subrange(0, i - start)),
            value <= max,
        decreases text@.len() - i,
    {
        let byte: u8 = text[i];
        assert(digits[i - start] == byte);
        if byte < 48 || byte > 57 {
            return None;
        }
        let digit: u64 = (byte - 48) as u64;
        proof {
            lemma_prefix_value(digits, i - start + 1);
            assert(digits.subrange(0, i - start + 1).drop_last() =~= digits.subrange(0, i - start));
        }
        let next: u64 = match value.checked_mul(10) {
            None => {
                return None;
            },
            Some(tens) => match tens.checked_add(digit) {
                None => {
                    return None;
                },
                Some(sum) => sum,
            },
        };
        if next > max {
            return None;
        }
        value = next;
        i += 1;
    }
    assert(digits.subrange(0, i - start) =~= digits);
    Some(value)
}

/// Reads an unsigned decimal number that fits a 32-bit word.
pub fn parse_u32(text: &[u8]) -> (number: Option<u32>)
    ensures
        match number {
            Some(value) => parse_decimal(text@, u32::MAX as nat) == Some(value as nat),
            None => parse_decimal(text@, u32::MAX as nat) is None,
        },
{
    match parse_bounded(text, u32::MAX as u64) {
        Some(value) => Some(value as u32),
        None => None,
    }
}

/// Reads an unsigned decimal number that fits a machine offset.
pub fn parse_usize(text: &[u8]) -> (number: Option<usize>)
    ensures
        match number {
            Some(value) => parse_decimal(text@, usize::MAX as nat) == Some(value as nat),
            None => parse_decimal(text@, usize::MAX as nat) is None,
        },
{
    match parse_bounded(text, usize::MAX as u64) {
        Some(value) => Some(value as usize),
        None => None,
    }
}

} // verus!
