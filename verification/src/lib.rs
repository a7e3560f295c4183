//! Order references for a trading API.
//!
//! An open order is named either by the number that the exchange gave it or
//! by the 128-bit tag that the client chose for it. On the wire the two share
//! one field and carry no marker: a number is always an exchange id, a string
//! is always a client tag, written as `0x` and thirty-two hexadecimal digits.

pub mod cloid_hex;
pub mod hex;
pub mod laws;
pub mod oid;
pub mod request;
pub mod uuid_text;
pub mod wire;

pub use oid::{DecodeError, OidOrCloid};
pub use request::{ClientModifyRequest, ModifyRequest};
pub use wire::{WireNumber, WireValue};
