//! The untyped value in which an order reference travels.
//!
//! A wire value has the shapes of a JSON value. Only what a reference can be
//! read from is kept in full: numbers and strings. Of an array or an object
//! nothing but the shape is held.

use vstd::prelude::*;

verus! {

/// A number on the wire, in one of the three ways it can be held.
#[derive(Clone, Copy, Debug, PartialEq, Eq, Structural)]
pub enum WireNumber {
    /// An integer from zero up that fits in 64 bits.
    Unsigned(u64),
    /// An integer below zero that fits in 64 bits.
    Negative(i64),
    /// Any other number: one with a fraction or an exponent, or an integer
    /// too large for 64 bits. It is held as the bits of its IEEE 754 double.
    Float(u64),
}

impl WireNumber {
    /// The number as an unsigned 64-bit integer, where it is held as one.
    pub open spec fn spec_as_u64(&self) -> Option<u64> {
        match *self {
            WireNumber::Unsigned(n) => Some(n),
            _ => None,
        }
    }

    /// The number as an unsigned 64-bit integer, where it is held as one. A
    /// negative number and a float give nothing, whatever their value.
    #[verifier::when_used_as_spec(spec_as_u64)]
    pub fn as_u64(&self) -> (n: Option<u64>)
        ensures
            n == self.spec_as_u64(),
    {
        match self {
            WireNumber::Unsigned(n) => Some(*n),
            _ => None,
        }
    }
}

/// A value on the wire.
#[derive(Debug, PartialEq, Eq)]
pub enum WireValue {
    Null,
    Bool(bool),
    Number(WireNumber),
    String(String),
    /// An array; its elements are not held.
    Array,
    /// An object; its members are not held.
    Object,
}

/// What a `WireValue` stands for: the same shapes, the string as its
/// characters.
pub enum WireValueView {
    Null,
    Bool(bool),
    Number(WireNumber),
    String(Seq<char>),
    Array,
    Object,
}

impl View for WireValue {
    type V = WireValueView;

    open spec fn view(&self) -> WireValueView {
        match self {
            WireValue::Null => WireValueView::Null,
            WireValue::Bool(b) => WireValueView::Bool(*b),
            WireValue::Number(n) => WireValueView::Number(*n),
            WireValue::String(s) => WireValueView::String(s@),
            WireValue::Array => WireValueView::Array,
            WireValue::Object => WireValueView::Object,
        }
    }
}

impl Clone for WireValue {
    fn clone(&self) -> (copy: Self)
        ensures
            copy@ == self@,
    {
        match self {
            WireValue::Null => WireValue::Null,
            WireValue::Bool(b) => WireValue::Bool(*b),
            WireValue::Number(n) => WireValue::Number(*n),
            WireValue::String(s) => WireValue::String(s.clone()),
            WireValue::Array => WireValue::Array,
            WireValue::Object => WireValue::Object,
        }
    }
}

} // verus!
