//! What holds of the encoding as a whole.

use crate::cloid_hex::{cloid_hex, hex_prefix};
use crate::hex::{
    is_hex_digit, lemma_hex_value_bound, lemma_lower_hex_digit, lemma_pow16_of_32,
    lower_hex_alphabet,
};
use crate::oid::{DecodeErrorView, OidOrCloid};
use crate::uuid_text::{
    hyphenated_text, lemma_hyphenated_text_reads_back, lemma_simple_text_reads_back, nibble,
    simple_text, uuid_digits, uuid_text_value,
};
use crate::wire::{WireNumber, WireValueView};
use vstd::prelude::*;

verus! {

/// Every identifier that a text writes fits in 128 bits.
pub proof fn lemma_text_value_fits(s: Seq<char>)
    ensures
        uuid_text_value(s) matches Some(value) ==> value <= u128::MAX,
{
    if let Some(digits) = uuid_digits(s) {
        lemma_hex_value_bound(digits);
        lemma_pow16_of_32();
    }
}

/// The wire text of a client tag is `0x` and then thirty-two digits, each of
/// them one of `0` to `9` and `a` to `f`.
pub proof fn lemma_cloid_hex_shape(bits: u128)
    ensures
        cloid_hex(bits).len() == 34,
        cloid_hex(bits)[0] == '0',
        cloid_hex(bits)[1] == 'x',
        forall|i: int|
            2 <= i < 34 ==> lower_hex_alphabet().contains(#[trigger] cloid_hex(bits)[i]),
{
    assert forall|i: int| 2 <= i < 34 implies lower_hex_alphabet().contains(
        #[trigger] cloid_hex(bits)[i],
    ) by {
        let d = nibble(bits, i - 2);
        assert(cloid_hex(bits)[i] == lower_hex_alphabet()[d as int]);
    }
}

/// Decoding undoes encoding: a reference that is encoded and then decoded
/// comes back as it was, whichever kind it is.
pub proof fn lemma_decode_inverts_encode(id: OidOrCloid)
    ensures
        OidOrCloid::decode_spec(id.encode_spec()) == Ok::<OidOrCloid, DecodeErrorView>(id),
{
    match id {
        OidOrCloid::Oid(_) => {},
        OidOrCloid::Cloid(bits) => {
            lemma_simple_text_reads_back(bits);
            assert(hex_prefix().is_prefix_of(cloid_hex(bits)));
            assert(cloid_hex(bits).skip(2) =~= simple_text(bits));
        },
    }
}

/// No two references share a wire value.
pub proof fn lemma_encode_is_injective(a: OidOrCloid, b: OidOrCloid)
    requires
        a.encode_spec() == b.encode_spec(),
    ensures
        a == b,
{
    lemma_decode_inverts_encode(a);
    lemma_decode_inverts_encode(b);
}

/// The `0x` is optional: a text that does not begin with it decodes the same
/// with it put in front, to the same tag or with the same complaint.
pub proof fn lemma_hex_prefix_is_optional(s: Seq<char>)
    requires
        !hex_prefix().is_prefix_of(s),
    ensures
        OidOrCloid::decode_spec(WireValueView::String(hex_prefix() + s))
            == OidOrCloid::decode_spec(WireValueView::String(s)),
{
    assert(hex_prefix().is_prefix_of(hex_prefix() + s));
    assert((hex_prefix() + s).skip(2) =~= s);
}

/// The wire text of a tag and the hyphenated form of the same tag decode to
/// that tag alike.
pub proof fn lemma_hyphenated_decodes_alike(bits: u128)
    ensures
        OidOrCloid::decode_spec(WireValueView::String(cloid_hex(bits))) == Ok::<
            OidOrCloid,
            DecodeErrorView,
        >(OidOrCloid::Cloid(bits)),
        OidOrCloid::decode_spec(WireValueView::String(hyphenated_text(bits))) == Ok::<
            OidOrCloid,
            DecodeErrorView,
        >(OidOrCloid::Cloid(bits)),
{
    lemma_decode_inverts_encode(OidOrCloid::Cloid(bits));
    lemma_hyphenated_text_reads_back(bits);
    let text = hyphenated_text(bits);
    assert(text[1] != 'x') by {
        lemma_lower_hex_digit(nibble(bits, 1));
        assert(text[1] == simple_text(bits)[1]);
        assert(is_hex_digit(text[1]));
    }
    assert(!hex_prefix().is_prefix_of(text));
}

/// The shape of the wire value alone decides the kind of reference: a number
/// never gives a client tag nor a tag's error, a string never gives an
/// exchange id nor a number's error, and any other shape gives the error of
/// its own.
pub proof fn lemma_shape_decides(value: WireValueView)
    ensures
        match value {
            WireValueView::Number(WireNumber::Unsigned(n)) => OidOrCloid::decode_spec(value) == Ok::<
                OidOrCloid,
                DecodeErrorView,
            >(OidOrCloid::Oid(n)),
            WireValueView::Number(_) => OidOrCloid::decode_spec(value) == Err::<
                OidOrCloid,
                DecodeErrorView,
            >(DecodeErrorView::InvalidNumericId),
            WireValueView::String(_) => match OidOrCloid::decode_spec(value) {
                Ok(id) => id is Cloid,
                Err(error) => error is InvalidClientTag,
            },
            _ => OidOrCloid::decode_spec(value) == Err::<OidOrCloid, DecodeErrorView>(
                DecodeErrorView::UnsupportedValueShape,
            ),
        },
{
}

} // verus!
