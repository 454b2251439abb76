//! Unsigned decimal numbers as they stand in a path segment: an optional
//! plus sign, then one or more ASCII digits.

use vstd::prelude::*;

verus! {

/// The byte `0`.
pub const DIGIT_ZERO: u8 = 48;

/// The byte `9`.
pub const DIGIT_NINE: u8 = 57;

/// The byte `+`.
pub const PLUS_SIGN: u8 = 43;

/// `byte` is one of the ASCII digits `0` to `9`.
pub open spec fn is_digit(byte: u8) -> bool {
    DIGIT_ZERO <= byte <= DIGIT_NINE
}

/// Every byte of `text` is an ASCII digit.
pub open spec fn all_digits(text: Seq<u8>) -> bool {
    forall|i: int| 0 <= i < text.len() ==> is_digit(#[trigger] text[i])
}

/// The number that the digits of `text` write in base ten. The empty text
/// writes zero; leading zeros change nothing.
pub open spec fn decimal_value(text: Seq<u8>) -> nat
    recommends
        all_digits(text),
    decreases text.len(),
{
    if text.len() == 0 {
        0
    } else {
        decimal_value(text.drop_last()) * 10 + (text.last() - DIGIT_ZERO) as nat
    }
}

/// `text` without the plus sign that it may start with.
pub open spec fn unsigned_digits(text: Seq<u8>) -> Seq<u8> {
    if text.len() > 0 && text[0] == PLUS_SIGN {
        text.skip(1)
    } else {
        text
    }
}

/// `text` writes an unsigned number: after the optional plus sign stands at
/// least one digit and nothing but digits.
pub open spec fn is_unsigned(text: Seq<u8>) -> bool {
    unsigned_digits(text).len() > 0 && all_digits(unsigned_digits(text))
}

/// The number that `text` writes, if it writes one and that number is at
/// most `max`.
pub open spec fn unsigned_of(text: Seq<u8>, max: u64) -> Option<u64> {
    if is_unsigned(text) && decimal_value(unsigned_digits(text)) <= max {
        Some(decimal_value(unsigned_digits(text)) as u64)
    } else {
        None
    }
}

/// The shortest text that writes `n`: its digits in base ten, with no sign
/// and no leading zero.
pub open spec fn decimal_text(n: nat) -> Seq<u8>
    decreases n,
{
    if n < 10 {
        seq![(DIGIT_ZERO + n) as u8]
    } else {
        decimal_text(n / 10).push((DIGIT_ZERO + n % 10) as u8)
    }
}

/// Every number can be written, and what is written is read back: the
/// shortest text of `n` is an unsigned number whose value is `n`.
pub proof fn lemma_decimal_text_reads_back(n: nat)
    ensures
        decimal_text(n).len() > 0,
        all_digits(decimal_text(n)),
        decimal_value(decimal_text(n)) == n,
        is_unsigned(decimal_text(n)),
        unsigned_digits(decimal_text(n)) == decimal_text(n),
        forall|max: u64| n <= max ==> unsigned_of(decimal_text(n), max) == Some(n as u64),
    decreases n,
{
    let text = decimal_text(n);
    if n < 10 {
        assert(text.drop_last() =~= Seq::<u8>::empty());
        assert(decimal_value(text.drop_last()) == 0);
    } else {
        lemma_decimal_text_reads_back(n / 10);
        assert(text.drop_last() =~= decimal_text(n / 10));
    }
    assert(is_digit(text[0]));
}

/// Reading more digits never makes the number smaller.
pub proof fn lemma_decimal_value_grows(text: Seq<u8>, n: int)
    requires
        all_digits(text),
        0 <= n <= text.len(),
    ensures
        decimal_value(text.take(n)) <= decimal_value(text),
    decreases text.len(),
{
    if n == text.len() {
        assert(text.take(n) =~= text);
    } else {
        let shorter = text.drop_last();
        assert(shorter.take(n) =~= text.take(n));
        lemma_decimal_value_grows(shorter, n);
        assert(is_digit(text.last()));
    }
}

/// Reads `text` as an unsigned decimal number no greater than `max`.
///
/// `None` where `text` is no such number: it is empty or a lone plus sign,
/// holds a byte that is no digit, or writes a number above `max`.
pub fn parse_unsigned(text: &[u8], max: u64) -> (value: Option<u64>)
    ensures
        value == unsigned_of(text@, max),
{
    let start: usize = if text.len() > 0 && text[0] == PLUS_SIGN { 1 } else { 0 };
    if start == text.len() {
        return None;
    }
    let ghost digits = unsigned_digits(text@);
    assert(digits =~= text@.skip(start as int));
    let mut value: u64 = 0;
    let mut i: usize = start;
    while i < text.len()
        invariant
            start <= i <= text.len(),
            digits == unsigned_digits(text@),
            digits == text@.skip(start as int),
            all_digits(digits.take(i - start)),
            value == decimal_value(digits.take(i - start)),
            value <= max,
        decreases text.len() - i,
    {
        let byte = text[i];
        let ghost seen = digits.take(i - start + 1);
        assert(seen.drop_last() =~= digits.take(i - start));
        assert(seen.last() == byte);
        if byte < DIGIT_ZERO || byte > DIGIT_NINE {
            assert(!is_digit(digits[i - start]));
            return None;
        }
        let digit: u64 = (byte - DIGIT_ZERO) as u64;
        if digit > max || value > (max - digit) / 10 {
            proof {
                if all_digits(digits) {
                    lemma_decimal_value_grows(digits, i - start + 1);
                }
            }
            return None;
        }
        value = value * 10 + digit;
        i = i + 1;
    }
    assert(digits.take(i - start) =~= digits);
    Some(value)
}

} // verus!
