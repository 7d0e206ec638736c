//! Decimal text for small numbers.
//!
//! A number is written as an optional `+` followed by one or more of the
//! digits `0` to `9`; nothing else may stand before, between or after them.

use vstd::prelude::*;

verus! {

/// `c` is one of the digits `0` to `9`.
pub open spec fn is_digit(c: char) -> bool {
    '0' <= c <= '9'
}

/// The number that the digit `c` stands for.
pub open spec fn digit_value(c: char) -> nat {
    (c as u32 - '0' as u32) as nat
}

/// Every element of `text` is a digit.
pub open spec fn all_digits(text: Seq<char>) -> bool {
    forall|i: int| 0 <= i < text.len() ==> is_digit(#[trigger] text[i])
}

/// The number that a run of digits stands for, most significant digit first.
pub open spec fn digits_value(digits: Seq<char>) -> nat
    decreases digits.len(),
{
    if digits.len() == 0 {
        0
    } else {
        digits_value(digits.drop_last()) * 10 + digit_value(digits.last())
    }
}

/// `text` without the `+` that may lead it.
pub open spec fn without_plus(text: Seq<char>) -> Seq<char> {
    if text.len() > 0 && text[0] == '+' {
        text.drop_first()
    } else {
        text
    }
}

/// The byte that `text` stands for, if it is a number and fits a byte.
pub open spec fn byte_of(text: Seq<char>) -> Option<u8> {
    let digits = without_plus(text);
    if digits.len() > 0 && all_digits(digits) && digits_value(digits) <= u8::MAX {
        Some(digits_value(digits) as u8)
    } else {
        None
    }
}

/// What is left of `text` from place `start` on; nothing where `start` lies
/// beyond its end.
pub open spec fn tail_from(text: Seq<char>, start: int) -> Seq<char> {
    if 0 <= start <= text.len() {
        text.subrange(start, text.len() as int)
    } else {
        Seq::empty()
    }
}

/// A run of digits stands for at least as much as any run it starts with.
pub proof fn lemma_prefix_value_no_larger(digits: Seq<char>, n: int)
    requires
        0 <= n <= digits.len(),
    ensures
        digits_value(digits.take(n)) <= digits_value(digits),
    decreases digits.len(),
{
    if n == digits.len() {
        assert(digits.take(n) =~= digits);
    } else {
        lemma_prefix_value_no_larger(digits.drop_last(), n);
        assert(digits.drop_last().take(n) =~= digits.take(n));
    }
}

/// Gives the characters of `text`, one by one.
pub fn chars_of(text: &str) -> (chars: Vec<char>)
    ensures
        chars@ == text@,
{
    let mut chars: Vec<char> = Vec::new();
    for c in it: text.chars()
        invariant
            chars@ == it.seq().take(it.index() as int),
            it.seq() == text@,
    {
        chars.push(c);
    }
    chars
}

/// Reads the characters of `text` from place `start` on as a byte.
pub fn parse_byte_from(text: &[char], start: usize) -> (r: Option<u8>)
    ensures
        r == byte_of(tail_from(text@, start as int)),
{
    let end = text.len();
    if start >= end {
        return None;
    }
    let ghost whole = tail_from(text@, start as int);
    let first: usize = if text[start] == '+' {
        start + 1
    } else {
        start
    };
    let ghost digits = text@.subrange(first as int, end as int);
    assert(digits =~= without_plus(whole));
    if first == end {
        return None;
    }
    let mut at: usize = first;
    let mut value: u32 = 0;
    while at < end
        invariant
            start <= first <= at <= end,
            first < end,
            end == text@.len(),
            whole == tail_from(text@, start as int),
            digits == text@.subrange(first as int, end as int),
            digits == without_plus(whole),
            all_digits(digits.take(at - first)),
            value == digits_value(digits.take(at - first)),
            value <= u8::MAX,
        decreases end - at,
    {
        let c = text[at];
        if !(c >= '0' && c <= '9') {
            assert(!is_digit(digits[at - first]));
            return None;
        }
        let ghost grown = digits.take(at - first + 1);
        assert(grown.drop_last() =~= digits.take(at - first));
        assert(grown.last() == c);
        value = value * 10 + (c as u32 - '0' as u32);
        if value > 255 {
            proof {
                if all_digits(digits) {
                    lemma_prefix_value_no_larger(digits, at - first + 1);
                }
            }
            return None;
        }
        at = at + 1;
    }
    assert(digits.take(at - first) =~= digits);
    Some(value as u8)
}

/// Reads `text` as a byte.
pub fn parse_byte(text: &str) -> (r: Option<u8>)
    ensures
        r == byte_of(text@),
{
    let chars = chars_of(text);
    assert(tail_from(chars@, 0) =~= text@);
    parse_byte_from(chars.as_slice(), 0)
}

} // verus!
