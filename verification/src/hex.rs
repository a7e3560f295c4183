//! Hexadecimal digits and the numbers that strings of them write.

use vstd::prelude::*;

verus! {

/// Sixteen to the power `n`.
pub open spec fn pow16(n: nat) -> nat
    decreases n,
{
    if n == 0 {
        1
    } else {
        16 * pow16((n - 1) as nat)
    }
}

/// Sixteen to any power is positive.
pub proof fn lemma_pow16_positive(n: nat)
    ensures
        pow16(n) > 0,
    decreases n,
{
    if n > 0 {
        lemma_pow16_positive((n - 1) as nat);
    }
}

/// The lower-case hexadecimal digits, each at the index of its value.
pub open spec fn lower_hex_alphabet() -> Seq<char> {
    seq!['0', '1', '2', '3', '4', '5', '6', '7', '8', '9', 'a', 'b', 'c', 'd', 'e', 'f']
}

/// The lower-case digit that writes `d`, for `d` below sixteen.
pub open spec fn lower_hex_digit(d: nat) -> char
    recommends
        d < 16,
{
    lower_hex_alphabet()[d as int]
}

/// Whether `c` is a hexadecimal digit, in either case.
pub open spec fn is_hex_digit(c: char) -> bool {
    ('0' <= c && c <= '9') || ('a' <= c && c <= 'f') || ('A' <= c && c <= 'F')
}

/// The value of the hexadecimal digit `c`; zero for any other character.
pub open spec fn hex_digit_value(c: char) -> nat {
    if '0' <= c && c <= '9' {
        (c as u32 - '0' as u32) as nat
    } else if 'a' <= c && c <= 'f' {
        (c as u32 - 'a' as u32 + 10) as nat
    } else if 'A' <= c && c <= 'F' {
        (c as u32 - 'A' as u32 + 10) as nat
    } else {
        0
    }
}

/// Whether every character of `s` is a hexadecimal digit.
pub open spec fn all_hex_digits(s: Seq<char>) -> bool {
    forall|i: int| 0 <= i < s.len() ==> is_hex_digit(#[trigger] s[i])
}

/// The number that `digits` writes, most significant digit first.
pub open spec fn hex_value(digits: Seq<char>) -> nat
    decreases digits.len(),
{
    if digits.len() == 0 {
        0
    } else {
        16 * hex_value(digits.drop_last()) + hex_digit_value(digits.last())
    }
}

/// A lower-case digit is a hexadecimal digit, and its value is the number it
/// was chosen for.
pub proof fn lemma_lower_hex_digit(d: nat)
    requires
        d < 16,
    ensures
        is_hex_digit(lower_hex_digit(d)),
        hex_digit_value(lower_hex_digit(d)) == d,
{
}

/// A string of `n` digits writes a number below sixteen to the `n`.
pub proof fn lemma_hex_value_bound(digits: Seq<char>)
    ensures
        hex_value(digits) < pow16(digits.len()),
    decreases digits.len(),
{
    if digits.len() > 0 {
        lemma_hex_value_bound(digits.drop_last());
    }
}

/// Sixteen to the thirty-second is two to the hundred and twenty-eighth: the
/// numbers below it are those that fit in 128 bits.
pub proof fn lemma_pow16_of_32()
    ensures
        pow16(31) == 0x1000_0000_0000_0000_0000_0000_0000_0000,
        pow16(32) == u128::MAX + 1,
{
    reveal_with_fuel(pow16, 33);
}

/// The text of one lower-case hexadecimal digit.
pub(crate) fn lower_hex_digit_text(d: u8) -> (text: &'static str)
    requires
        d < 16,
    ensures
        text@ == seq![lower_hex_digit(d as nat)],
{
    proof {
        reveal_strlit("0123456789abcdef");
    }
    let alphabet = "0123456789abcdef";
    alphabet.substring_char(d as usize, d as usize + 1)
}

} // verus!
