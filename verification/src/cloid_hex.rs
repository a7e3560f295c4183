//! The text of a client tag on the wire: `0x` and the thirty-two lower-case
//! hexadecimal digits of the tag.

use crate::hex::{lemma_pow16_of_32, lemma_pow16_positive, lower_hex_digit_text, pow16};
use crate::uuid_text::{
    nibble, parse_uuid_text, simple_text, uuid_text_complaint, uuid_text_value,
};
use vstd::prelude::*;

verus! {

/// The two characters `0x`.
pub open spec fn hex_prefix() -> Seq<char> {
    seq!['0', 'x']
}

/// The wire text of the client tag `bits`.
pub open spec fn cloid_hex(bits: u128) -> Seq<char> {
    hex_prefix() + simple_text(bits)
}

/// `s` without one leading `0x`, or `s` itself where it does not begin so.
pub open spec fn without_hex_prefix(s: Seq<char>) -> Seq<char> {
    if hex_prefix().is_prefix_of(s) {
        s.skip(2)
    } else {
        s
    }
}

/// What reading `s` as a client tag gives: the tag that `s` writes, once a
/// leading `0x` is taken off, or else the parser's complaint about the rest.
pub open spec fn cloid_of_text(s: Seq<char>) -> Result<u128, Seq<char>> {
    let rest = without_hex_prefix(s);
    match uuid_text_value(rest) {
        Some(value) => Ok(value as u128),
        None => Err(uuid_text_complaint(rest)),
    }
}

/// Writes a client tag as it goes on the wire.
pub fn uuid_to_hex_string(bits: u128) -> (text: String)
    ensures
        text@ == cloid_hex(bits),
{
    proof {
        reveal_strlit("0x");
        lemma_pow16_of_32();
    }
    let mut text = String::from_str("0x");
    let mut place: u128 = 0x1000_0000_0000_0000_0000_0000_0000_0000;
    let mut i: usize = 0;
    assert(text@ =~= hex_prefix() + simple_text(bits).take(0));
    while i < 32
        invariant
            i <= 32,
            text@ == hex_prefix() + simple_text(bits).take(i as int),
            i < 32 ==> place == pow16((31 - i) as nat),
        decreases 32 - i,
    {
        proof {
            lemma_pow16_positive((31 - i) as nat);
        }
        let digit: u8 = ((bits / place) % 16) as u8;
        assert(digit == nibble(bits, i as int));
        text.append(lower_hex_digit_text(digit));
        assert(text@ =~= hex_prefix() + simple_text(bits).take(i + 1));
        place = place / 16;
        i += 1;
    }
    assert(simple_text(bits).take(32) =~= simple_text(bits));
    text
}

/// Takes one leading `0x` off `text`, if it has one.
pub fn strip_hex_prefix(text: &str) -> (rest: &str)
    ensures
        rest@ == without_hex_prefix(text@),
{
    let len: usize = text.unicode_len();
    if len >= 2 && text.get_char(0) == '0' && text.get_char(1) == 'x' {
        text.substring_char(2, len)
    } else {
        text
    }
}

/// Reads a client tag from its text, with or without the leading `0x`. The
/// rest may be in any form that the UUID parser reads; a text that it
/// refuses gives the parser's complaint.
pub fn hex_string_to_uuid(text: &str) -> (read: Result<u128, String>)
    ensures
        match read {
            Ok(bits) => cloid_of_text(text@) == Ok::<u128, Seq<char>>(bits),
            Err(complaint) => cloid_of_text(text@) == Err::<u128, Seq<char>>(complaint@),
        },
{
    parse_uuid_text(strip_hex_prefix(text))
}

} // verus!
