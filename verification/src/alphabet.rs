//! The 37-symbol identifier alphabet and its bidirectional mapping to the
//! digit values `0..=36`: `_` is 0, `a`-`z` are 1-26, `0`-`9` are 27-36.

use vstd::prelude::*;

verus! {

/// Whether a byte belongs to the identifier alphabet.
pub open spec fn valid_byte(b: u8) -> bool {
    b == 95 || (97 <= b && b <= 122) || (48 <= b && b <= 57)
}

/// The digit value of an alphabet byte: `_` is 0, `a`-`z` are 1-26,
/// `0`-`9` are 27-36.
pub open spec fn byte_digit(b: u8) -> nat {
    if b == 95 {
        0
    } else if 97 <= b && b <= 122 {
        (b - 96) as nat
    } else {
        (b - 21) as nat
    }
}

/// The alphabet byte of a digit value: 0 is `_`, 1-26 are `a`-`z`,
/// 27-36 are `0`-`9`.
pub open spec fn digit_byte(d: nat) -> u8 {
    if d == 0 {
        95
    } else if d <= 26 {
        (d + 96) as u8
    } else {
        (d + 21) as u8
    }
}

/// Maps a byte to its digit value, or reports that it is outside the
/// alphabet.
pub fn digit_of_byte(b: u8) -> (r: Option<u8>)
    ensures
        (match r {
            Some(d) => valid_byte(b) && d == byte_digit(b) && d <= 36,
            None => !valid_byte(b),
        }),
{
    if b == 95 {
        Some(0)
    } else if 97 <= b && b <= 122 {
        Some(b - 96)
    } else if 48 <= b && b <= 57 {
        Some(b - 21)
    } else {
        None
    }
}

/// Maps a digit value back to its alphabet byte.
pub fn byte_of_digit(d: u8) -> (r: u8)
    requires
        d <= 36,
    ensures
        r == digit_byte(d as nat),
        valid_byte(r),
        byte_digit(r) == d,
        r == 95 <==> d == 0,
{
    if d == 0 {
        95
    } else if d <= 26 {
        d + 96
    } else {
        d + 21
    }
}

/// Round trip through the digit mapping: every alphabet byte is recovered
/// from its digit value.
pub proof fn lemma_byte_digit_inverse(b: u8)
    requires
        valid_byte(b),
    ensures
        byte_digit(b) <= 36,
        digit_byte(byte_digit(b)) == b,
        byte_digit(b) == 0 <==> b == 95,
{
}

/// Round trip through the byte mapping: every digit value is recovered
/// from its alphabet byte.
pub proof fn lemma_digit_byte_inverse(d: nat)
    requires
        d <= 36,
    ensures
        valid_byte(digit_byte(d)),
        byte_digit(digit_byte(d)) == d,
        digit_byte(d) == 95 <==> d == 0,
{
}

} // verus!
