//! The requests that carry an order reference.
//!
//! Both pair the reference with the new state of the order. What an order
//! holds is not this library's concern, so it is a parameter.

use crate::oid::OidOrCloid;
use vstd::prelude::*;

verus! {

/// A request to modify an order, as the caller fills it in.
#[derive(Debug)]
pub struct ClientModifyRequest<Order> {
    /// Which order to modify.
    pub oid: OidOrCloid,
    /// What the order is to become.
    pub order: Order,
}

/// A request to modify an order, as it goes on the wire.
#[derive(Debug, Clone)]
pub struct ModifyRequest<Order> {
    /// Which order to modify.
    pub oid: OidOrCloid,
    /// What the order is to become, in its wire form.
    pub order: Order,
}

} // verus!
