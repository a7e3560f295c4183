//! The order reference and its wire encoding.

use crate::cloid_hex::{cloid_hex, cloid_of_text, hex_string_to_uuid, uuid_to_hex_string};
use crate::wire::{WireNumber, WireValue, WireValueView};
use vstd::prelude::*;
use vstd::std_specs::convert::FromSpecImpl;

verus! {

/// A reference to an order: the exchange's id for it, or the client's tag.
#[derive(Clone, Copy, Debug, PartialEq, Eq, Structural)]
pub enum OidOrCloid {
    /// The id that the exchange gave the order.
    Oid(u64),
    /// The tag that the client gave the order: the 128 bits of a UUID, its
    /// first byte highest.
    Cloid(u128),
}

/// Why a wire value is no order reference.
#[derive(Debug, PartialEq, Eq)]
pub enum DecodeError {
    /// The value is a number, but not an unsigned 64-bit integer.
    InvalidNumericId,
    /// The value is a string, but not the text of a UUID. The UUID parser's
    /// complaint comes with it.
    InvalidClientTag(String),
    /// The value is neither a number nor a string.
    UnsupportedValueShape,
}

/// What a `DecodeError` stands for: the same cases, the complaint as its
/// characters.
pub enum DecodeErrorView {
    InvalidNumericId,
    InvalidClientTag(Seq<char>),
    UnsupportedValueShape,
}

impl View for DecodeError {
    type V = DecodeErrorView;

    open spec fn view(&self) -> DecodeErrorView {
        match self {
            DecodeError::InvalidNumericId => DecodeErrorView::InvalidNumericId,
            DecodeError::InvalidClientTag(complaint) => DecodeErrorView::InvalidClientTag(
                complaint@,
            ),
            DecodeError::UnsupportedValueShape => DecodeErrorView::UnsupportedValueShape,
        }
    }
}

impl Clone for DecodeError {
    fn clone(&self) -> (copy: Self)
        ensures
            copy@ == self@,
    {
        match self {
            DecodeError::InvalidNumericId => DecodeError::InvalidNumericId,
            DecodeError::InvalidClientTag(complaint) => DecodeError::InvalidClientTag(
                complaint.clone(),
            ),
            DecodeError::UnsupportedValueShape => DecodeError::UnsupportedValueShape,
        }
    }
}

impl DecodeErrorView {
    /// The error in words.
    pub open spec fn message(self) -> Seq<char> {
        match self {
            DecodeErrorView::InvalidNumericId => "invalid oid number"@,
            DecodeErrorView::InvalidClientTag(complaint) => complaint,
            DecodeErrorView::UnsupportedValueShape => "oid must be number or string"@,
        }
    }
}

impl DecodeError {
    /// The error in words: a fixed sentence for a bad number or a bad shape,
    /// the parser's complaint for a bad tag.
    pub fn message(&self) -> (text: String)
        ensures
            text@ == self@.message(),
    {
        match self {
            DecodeError::InvalidNumericId => String::from_str("invalid oid number"),
            DecodeError::InvalidClientTag(complaint) => complaint.clone(),
            DecodeError::UnsupportedValueShape => String::from_str("oid must be number or string"),
        }
    }
}

/// The outcome of decoding, its error taken by its view.
pub open spec fn decoded_view(decoded: Result<OidOrCloid, DecodeError>) -> Result<
    OidOrCloid,
    DecodeErrorView,
> {
    match decoded {
        Ok(id) => Ok(id),
        Err(error) => Err(error@),
    }
}

impl OidOrCloid {
    /// The wire value of a reference: the number itself for an exchange id,
    /// the `0x` text for a client tag.
    pub open spec fn encode_spec(self) -> WireValueView {
        match self {
            OidOrCloid::Oid(oid) => WireValueView::Number(WireNumber::Unsigned(oid)),
            OidOrCloid::Cloid(cloid) => WireValueView::String(cloid_hex(cloid)),
        }
    }

    /// The reference that a wire value holds. The shape alone decides which
    /// kind is read: a number is an exchange id or an error, a string is a
    /// client tag or an error, and nothing else is a reference.
    pub open spec fn decode_spec(value: WireValueView) -> Result<OidOrCloid, DecodeErrorView> {
        match value {
            WireValueView::Number(number) => match number.spec_as_u64() {
                Some(oid) => Ok(OidOrCloid::Oid(oid)),
                None => Err(DecodeErrorView::InvalidNumericId),
            },
            WireValueView::String(text) => match cloid_of_text(text) {
                Ok(cloid) => Ok(OidOrCloid::Cloid(cloid)),
                Err(complaint) => Err(DecodeErrorView::InvalidClientTag(complaint)),
            },
            _ => Err(DecodeErrorView::UnsupportedValueShape),
        }
    }

    /// Encodes the reference for the wire.
    pub fn encode(&self) -> (wire: WireValue)
        ensures
            wire@ == self.encode_spec(),
    {
        match self {
            OidOrCloid::Oid(oid) => WireValue::Number(WireNumber::Unsigned(*oid)),
            OidOrCloid::Cloid(cloid) => WireValue::String(uuid_to_hex_string(*cloid)),
        }
    }

    /// Decodes a reference from a wire value.
    pub fn decode(value: &WireValue) -> (decoded: Result<OidOrCloid, DecodeError>)
        ensures
            decoded_view(decoded) == Self::decode_spec(value@),
    {
        match value {
            WireValue::Number(number) => match number.as_u64() {
                Some(oid) => Ok(OidOrCloid::Oid(oid)),
                None => Err(DecodeError::InvalidNumericId),
            },
            WireValue::String(text) => match hex_string_to_uuid(text.as_str()) {
                Ok(cloid) => Ok(OidOrCloid::Cloid(cloid)),
                Err(complaint) => Err(DecodeError::InvalidClientTag(complaint)),
            },
            _ => Err(DecodeError::UnsupportedValueShape),
        }
    }
}

impl From<u64> for OidOrCloid {
    fn from(oid: u64) -> (id: Self) {
        OidOrCloid::Oid(oid)
    }
}

impl FromSpecImpl<u64> for OidOrCloid {
    open spec fn obeys_from_spec() -> bool {
        true
    }

    open spec fn from_spec(oid: u64) -> Self {
        OidOrCloid::Oid(oid)
    }
}

impl From<u128> for OidOrCloid {
    fn from(cloid: u128) -> (id: Self) {
        OidOrCloid::Cloid(cloid)
    }
}

impl FromSpecImpl<u128> for OidOrCloid {
    open spec fn obeys_from_spec() -> bool {
        true
    }

    open spec fn from_spec(cloid: u128) -> Self {
        OidOrCloid::Cloid(cloid)
    }
}

} // verus!
