//! Decimal integers as a saved scene writes them: an optional sign in front
//! of one or more digits, and nothing else.

use vstd::prelude::*;

verus! {

/// The digit `0`.
pub const ZERO: u8 = 48;

/// The digit `9`.
pub const NINE: u8 = 57;

/// The sign `+`.
pub const PLUS: u8 = 43;

/// The sign `-`.
pub const MINUS: u8 = 45;

/// `b` is one of the digits `0` to `9`.
pub open spec fn is_digit(b: u8) -> bool {
    ZERO <= b <= NINE
}

/// `s` holds digits only.
pub open spec fn all_digits(s: Seq<u8>) -> bool {
    forall|i: int| 0 <= i < s.len() ==> is_digit(#[trigger] s[i])
}

/// The number that a run of digits writes, read from the left.
pub open spec fn digits_value(s: Seq<u8>) -> nat
    decreases s.len(),
{
    if s.len() == 0 {
        0
    } else {
        digits_value(s.drop_last()) * 10 + (s.last() - ZERO) as nat
    }
}

/// The integer that `s` writes. A plus sign may stand in front; a minus
/// sign only where `signed` allows it. At least one digit must follow, and
/// nothing but digits.
pub open spec fn integer_of(s: Seq<u8>, signed: bool) -> Option<int> {
    if s.len() == 0 {
        None
    } else {
        let negative = signed && s[0] == MINUS;
        let digits = if s[0] == PLUS || negative { s.skip(1) } else { s };
        if digits.len() == 0 || !all_digits(digits) {
            None
        } else if negative {
            Some(-(digits_value(digits) as int))
        } else {
            Some(digits_value(digits) as int)
        }
    }
}

/// The integer that `s` writes, if it lies in `lo..=hi`. A type that starts
/// at zero takes no minus sign, not even in front of zero.
pub open spec fn integer_within(s: Seq<u8>, lo: int, hi: int) -> Option<int> {
    match integer_of(s, lo < 0) {
        Some(v) => if lo <= v <= hi { Some(v) } else { None },
        None => None,
    }
}

/// A run of digits is worth at least as much as any of its beginnings.
proof fn lemma_prefix_is_smaller(s: Seq<u8>, n: int)
    requires
        0 <= n <= s.len(),
    ensures
        digits_value(s.take(n)) <= digits_value(s),
    decreases s.len(),
{
    if n == s.len() {
        assert(s.take(n) =~= s);
    } else {
        assert(s.drop_last().take(n) =~= s.take(n));
        lemma_prefix_is_smaller(s.drop_last(), n);
    }
}

/// Reads the integer written in `text[start..end]`, if it lies in `lo..=hi`.
#[verifier::loop_isolation(false)]
pub fn parse_within(text: &[u8], start: usize, end: usize, lo: i128, hi: i128) -> (value: Option<
    i128,
>)
    requires
        start <= end <= text@.len(),
        -0x1_0000_0000_0000_0000 <= lo <= 0 <= hi <= 0x1_0000_0000_0000_0000,
    ensures
        match value {
            Some(v) => integer_within(text@.subrange(start as int, end as int), lo as int, hi as int)
                == Some(v as int),
            None => integer_within(text@.subrange(start as int, end as int), lo as int, hi as int)
                is None,
        },
{
    let ghost s = text@.subrange(start as int, end as int);
    if start == end {
        return None;
    }
    assert(s[0] == text@[start as int]);
    let first = text[start];
    let negative = lo < 0 && first == MINUS;
    let from: usize = if first == PLUS || negative { start + 1 } else { start };
    let ghost digits = if s[0] == PLUS || negative { s.skip(1) } else { s };
    assert(digits =~= text@.subrange(from as int, end as int));
    if from == end {
        return None;
    }
    let limit: i128 = if negative { -lo } else { hi };
    let mut acc: i128 = 0;
    let mut i: usize = from;
    while i < end
        invariant
            from <= i <= end <= text@.len(),
            digits == text@.subrange(from as int, end as int),
            all_digits(digits.take(i - from)),
            acc == digits_value(digits.take(i - from)),
            0 <= acc <= limit <= 0x1_0000_0000_0000_0000,
        decreases end - i,
    {
        let b = text[i];
        assert(digits[i - from] == b);
        if b < ZERO || b > NINE {
            return None;
        }
        let d: i128 = (b - ZERO) as i128;
        proof {
            assert(digits.take(i - from + 1).drop_last() =~= digits.take(i - from));
            assert(digits.take(i - from + 1).last() == b);
        }
        if d > limit || acc > (limit - d) / 10 {
            proof {
                if all_digits(digits) {
                    lemma_prefix_is_smaller(digits, i - from + 1);
                }
            }
            return None;
        }
        acc = acc * 10 + d;
        i += 1;
    }
    assert(digits.take(i - from) =~= digits);
    if negative {
        Some(-acc)
    } else {
        Some(acc)
    }
}

/// Reads a signed 32-bit integer.
pub fn parse_i32(text: &[u8], start: usize, end: usize) -> (value: Option<i32>)
    requires
        start <= end <= text@.len(),
    ensures
        match value {
            Some(v) => integer_within(
                text@.subrange(start as int, end as int),
                i32::MIN as int,
                i32::MAX as int,
            ) == Some(v as int),
            None => integer_within(
                text@.subrange(start as int, end as int),
                i32::MIN as int,
                i32::MAX as int,
            ) is None,
        },
{
    match parse_within(text, start, end, i32::MIN as i128, i32::MAX as i128) {
        Some(v) => Some(v as i32),
        None => None,
    }
}

/// Reads an unsigned 32-bit integer.
pub fn parse_u32(text: &[u8], start: usize, end: usize) -> (value: Option<u32>)
    requires
        start <= end <= text@.len(),
    ensures
        match value {
            Some(v) => integer_within(text@.subrange(start as int, end as int), 0, u32::MAX as int)
                == Some(v as int),
            None => integer_within(text@.subrange(start as int, end as int), 0, u32::MAX as int)
                is None,
        },
{
    match parse_within(text, start, end, 0, u32::MAX as i128) {
        Some(v) => Some(v as u32),
        None => None,
    }
}

/// Reads an unsigned 8-bit integer.
pub fn parse_u8(text: &[u8], start: usize, end: usize) -> (value: Option<u8>)
    requires
        start <= end <= text@.len(),
    ensures
        match value {
            Some(v) => integer_within(text@.subrange(start as int, end as int), 0, u8::MAX as int)
                == Some(v as int),
            None => integer_within(text@.subrange(start as int, end as int), 0, u8::MAX as int)
                is None,
        },
{
    match parse_within(text, start, end, 0, u8::MAX as i128) {
        Some(v) => Some(v as u8),
        None => None,
    }
}

/// Reads an index or a count.
pub fn parse_usize(text: &[u8], start: usize, end: usize) -> (value: Option<usize>)
    requires
        start <= end <= text@.len(),
    ensures
        match value {
            Some(v) => integer_within(text@.subrange(start as int, end as int), 0, usize::MAX as int)
                == Some(v as int),
            None => integer_within(text@.subrange(start as int, end as int), 0, usize::MAX as int)
                is None,
        },
{
    match parse_within(text, start, end, 0, usize::MAX as i128) {
        Some(v) => Some(v as usize),
        None => None,
    }
}

} // verus!
