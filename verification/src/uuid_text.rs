//! The ways a 128-bit identifier is written as text, and the reader for them.
//!
//! Four forms are read, each around the same thirty-two hexadecimal digits:
//! simple (the digits alone), hyphenated (in groups of 8, 4, 4, 4 and 12),
//! braced (the hyphenated form in curly brackets) and URN (the hyphenated
//! form after `urn:uuid:`).

use crate::hex::{
    all_hex_digits, hex_value, is_hex_digit, lemma_lower_hex_digit, lemma_pow16_of_32,
    lemma_pow16_positive, lower_hex_digit, pow16,
};
use vstd::arithmetic::div_mod::{lemma_basic_div, lemma_div_denominator};
use vstd::prelude::*;

verus! {

/// The `i`-th hexadecimal digit of `bits`, counted from the most significant.
pub open spec fn nibble(bits: u128, i: int) -> nat
    recommends
        0 <= i < 32,
{
    (bits as nat / pow16((31 - i) as nat)) % 16
}

/// The simple form of `bits`: thirty-two lower-case digits.
pub open spec fn simple_text(bits: u128) -> Seq<char> {
    Seq::new(32, |i: int| lower_hex_digit(nibble(bits, i)))
}

/// The hyphenated form of `bits`: the digits of the simple form in groups of
/// 8, 4, 4, 4 and 12.
pub open spec fn hyphenated_text(bits: u128) -> Seq<char> {
    let digits = simple_text(bits);
    digits.subrange(0, 8) + seq!['-'] + digits.subrange(8, 12) + seq!['-'] + digits.subrange(
        12,
        16,
    ) + seq!['-'] + digits.subrange(16, 20) + seq!['-'] + digits.subrange(20, 32)
}

/// The characters of `s` that stand where the hyphenated form has digits.
pub open spec fn hyphenated_digits(s: Seq<char>) -> Seq<char>
    recommends
        s.len() == 36,
{
    s.subrange(0, 8) + s.subrange(9, 13) + s.subrange(14, 18) + s.subrange(19, 23) + s.subrange(
        24,
        36,
    )
}

/// Whether `s` is in the simple form.
pub open spec fn is_simple(s: Seq<char>) -> bool {
    s.len() == 32 && all_hex_digits(s)
}

/// Whether `s` is in the hyphenated form.
pub open spec fn is_hyphenated(s: Seq<char>) -> bool {
    &&& s.len() == 36
    &&& s[8] == '-'
    &&& s[13] == '-'
    &&& s[18] == '-'
    &&& s[23] == '-'
    &&& all_hex_digits(hyphenated_digits(s))
}

/// Whether `s` is in the braced form.
pub open spec fn is_braced(s: Seq<char>) -> bool {
    &&& s.len() == 38
    &&& s[0] == '{'
    &&& s[37] == '}'
    &&& is_hyphenated(s.subrange(1, 37))
}

/// Whether `c` is the lower-case ASCII letter `letter` or its capital.
pub open spec fn is_letter_of_either_case(c: char, letter: char) -> bool {
    c == letter || c as u32 + 32 == letter as u32
}

/// Whether `s` begins with `urn:uuid:`, its letters in either case.
pub open spec fn has_urn_prefix(s: Seq<char>) -> bool {
    &&& s.len() >= 9
    &&& is_letter_of_either_case(s[0], 'u')
    &&& is_letter_of_either_case(s[1], 'r')
    &&& is_letter_of_either_case(s[2], 'n')
    &&& s[3] == ':'
    &&& is_letter_of_either_case(s[4], 'u')
    &&& is_letter_of_either_case(s[5], 'u')
    &&& is_letter_of_either_case(s[6], 'i')
    &&& is_letter_of_either_case(s[7], 'd')
    &&& s[8] == ':'
}

/// Whether `s` is in the URN form.
pub open spec fn is_urn(s: Seq<char>) -> bool {
    &&& s.len() == 45
    &&& has_urn_prefix(s)
    &&& is_hyphenated(s.subrange(9, 45))
}

/// The thirty-two digits of `s`, where `s` is in one of the four forms.
pub open spec fn uuid_digits(s: Seq<char>) -> Option<Seq<char>> {
    if is_simple(s) {
        Some(s)
    } else if is_hyphenated(s) {
        Some(hyphenated_digits(s))
    } else if is_braced(s) {
        Some(hyphenated_digits(s.subrange(1, 37)))
    } else if is_urn(s) {
        Some(hyphenated_digits(s.subrange(9, 45)))
    } else {
        None
    }
}

/// The identifier that `s` writes: the number that its digits write where it
/// is in one of the four forms, and nothing otherwise.
pub open spec fn uuid_text_value(s: Seq<char>) -> Option<nat> {
    match uuid_digits(s) {
        Some(digits) => Some(hex_value(digits)),
        None => None,
    }
}

/// What `uuid::Error` says, through `Display`, of a text that
/// `uuid::Uuid::parse_str` refuses.
pub uninterp spec fn uuid_text_complaint(s: Seq<char>) -> Seq<char>;

/// Reads an identifier with `uuid::Uuid::parse_str` and hands it back as the
/// integer of `uuid::Uuid::as_u128`, or else the message of the error.
///
/// Not proved, but taken from the parser's source: it goes by the length of
/// the input alone to pick the form (32 for simple, 36 for hyphenated, 38 for
/// braced, 45 for URN), wants the brackets, the four hyphens and the URN
/// prefix (compared without regard to ASCII case) in their places and a
/// hexadecimal digit of either case everywhere else, and packs the digits
/// two to a byte, first digit highest. It refuses every other input. The
/// message of a refusal depends on the input alone.
#[verifier::external_body]
pub(crate) fn parse_uuid_text(text: &str) -> (parsed: Result<u128, String>)
    ensures
        match parsed {
            Ok(bits) => uuid_text_value(text@) == Some(bits as nat),
            Err(complaint) => uuid_text_value(text@) is None && complaint@ == uuid_text_complaint(
                text@,
            ),
        },
{
    match uuid::Uuid::parse_str(text) {
        Ok(id) => Ok(id.as_u128()),
        Err(error) => Err(error.to_string()),
    }
}

/// The first `k` digits of the simple form write what is left of `bits`
/// when its last `32 - k` digits are cut off.
proof fn lemma_simple_text_prefix(bits: u128, k: nat)
    requires
        k <= 32,
    ensures
        hex_value(simple_text(bits).take(k as int)) == bits as nat / pow16((32 - k) as nat),
    decreases k,
{
    let digits = simple_text(bits);
    if k == 0 {
        lemma_pow16_of_32();
        lemma_basic_div(bits as int, pow16(32) as int);
    } else {
        let place = pow16((32 - k) as nat);
        lemma_simple_text_prefix(bits, (k - 1) as nat);
        assert(digits.take(k as int).drop_last() =~= digits.take(k - 1));
        assert(digits.take(k as int).last() == lower_hex_digit(nibble(bits, k - 1)));
        lemma_lower_hex_digit(nibble(bits, k - 1));
        lemma_pow16_positive((32 - k) as nat);
        lemma_div_denominator(bits as int, place as int, 16);
        assert(pow16((32 - (k - 1)) as nat) == place * 16);
    }
}

/// The simple form of `bits` is in the simple form, and writes `bits`.
pub proof fn lemma_simple_text_reads_back(bits: u128)
    ensures
        is_simple(simple_text(bits)),
        uuid_text_value(simple_text(bits)) == Some(bits as nat),
{
    let digits = simple_text(bits);
    assert forall|i: int| 0 <= i < 32 implies is_hex_digit(#[trigger] digits[i]) by {
        lemma_lower_hex_digit(nibble(bits, i));
    }
    assert(is_simple(digits));
    lemma_simple_text_prefix(bits, 32);
    assert(digits.take(32) =~= digits);
    let unit = pow16(0);
    assert(bits as nat / unit == bits as nat) by (nonlinear_arith)
        requires
            unit == 1,
    ;
}

/// The hyphenated form of `bits` is in the hyphenated form, and writes
/// `bits`.
pub proof fn lemma_hyphenated_text_reads_back(bits: u128)
    ensures
        is_hyphenated(hyphenated_text(bits)),
        uuid_text_value(hyphenated_text(bits)) == Some(bits as nat),
{
    lemma_simple_text_reads_back(bits);
    assert(hyphenated_digits(hyphenated_text(bits)) =~= simple_text(bits));
}

} // verus!
