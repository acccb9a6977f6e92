//! Reading an unsigned decimal number from a text.

use vstd::prelude::*;

verus! {

/// `c` is one of the ten ASCII digits.
pub open spec fn is_digit(c: char) -> bool {
    '0' <= c <= '9'
}

/// The value of the digit `c`.
pub open spec fn digit_value(c: char) -> nat
    recommends
        is_digit(c),
{
    (c as u32 - '0' as u32) as nat
}

/// Every character of `s` is a digit.
pub open spec fn all_digits(s: Seq<char>) -> bool {
    forall|i: int| 0 <= i < s.len() ==> is_digit(#[trigger] s[i])
}

/// The number that the digits of `s` write in base ten; 0 for the empty text.
pub open spec fn decimal_value(s: Seq<char>) -> nat
    recommends
        all_digits(s),
    decreases s.len(),
{
    if s.len() == 0 {
        0
    } else {
        decimal_value(s.drop_last()) * 10 + digit_value(s.last())
    }
}

/// `s` without the plus sign that may lead it.
pub open spec fn unsigned_part(s: Seq<char>) -> Seq<char> {
    if s.len() > 0 && s[0] == '+' {
        s.drop_first()
    } else {
        s
    }
}

/// The number that `s` writes, if `s` is one or more digits, with or without a
/// plus sign before them, and the number fits in 32 bits.
pub open spec fn spec_parse_u32(s: Seq<char>) -> Option<u32> {
    let digits = unsigned_part(s);
    if digits.len() > 0 && all_digits(digits) && decimal_value(digits) <= u32::MAX {
        Some(decimal_value(digits) as u32)
    } else {
        None
    }
}

/// Digits written after a number do not make it smaller.
proof fn lemma_decimal_value_grows(s: Seq<char>, k: int)
    requires
        0 <= k <= s.len(),
    ensures
        decimal_value(s.subrange(0, k)) <= decimal_value(s),
    decreases s.len(),
{
    if k == s.len() {
        assert(s.subrange(0, k) =~= s);
    } else {
        assert(s.drop_last().subrange(0, k) =~= s.subrange(0, k));
        lemma_decimal_value_grows(s.drop_last(), k);
    }
}

/// Reads `s` as an unsigned decimal number of 32 bits: one or more ASCII
/// digits, with or without a plus sign before them. Anything else, and a number
/// too large for 32 bits, gives `None`.
pub fn parse_u32(s: &str) -> (parsed: Option<u32>)
    ensures
        parsed == spec_parse_u32(s@),
{
    let mut value: u32 = 0;
    let mut any: bool = false;
    let mut first: bool = true;
    let ghost start: int = if s@.len() > 0 && s@[0] == '+' { 1 } else { 0 };
    let ghost digits = unsigned_part(s@);
    assert(digits =~= s@.subrange(start, s@.len() as int));
    for c in it: s.chars()
        invariant
            it.seq() == s@,
            digits == unsigned_part(s@),
            digits == s@.subrange(start, s@.len() as int),
            start == (if s@.len() > 0 && s@[0] == '+' { 1int } else { 0int }),
            first == (it.index() == 0),
            any == (it.index() > start),
            it.index() == 0 ==> value == 0,
            it.index() >= start ==> all_digits(s@.subrange(start, it.index() as int)),
            it.index() >= start ==> value == decimal_value(s@.subrange(start, it.index() as int)),
    {
        let ghost at = it.index() as int;
        assert(c == s@[at]);
        if first && c == '+' {
            assert(s@.subrange(1, 1) =~= Seq::<char>::empty());
        } else if '0' <= c && c <= '9' {
            let digit: u32 = c as u32 - '0' as u32;
            proof {
                let read = s@.subrange(start, at + 1);
                assert(read.drop_last() =~= s@.subrange(start, at));
                assert(read.last() == c);
                assert(decimal_value(read) == value * 10 + digit);
                assert(digits.subrange(0, at + 1 - start) =~= read);
                lemma_decimal_value_grows(digits, at + 1 - start);
            }
            if value > (u32::MAX - digit) / 10 {
                return None;
            }
            value = value * 10 + digit;
            any = true;
        } else {
            assert(digits[at - start] == c);
            return None;
        }
        first = false;
    }
    if any {
        Some(value)
    } else {
        assert(digits.len() == 0);
        None
    }
}

} // verus!
