//! Small value types shared by every component.

use crate::scalar::{modulus, Scalar};
use crate::uint256::U256;
use vstd::prelude::*;

verus! {

/// A token amount.
pub type Amount = u128;

/// The side of the market that an order is on.
#[derive(Clone, Copy, Debug, PartialEq, Eq, Structural, Hash)]
pub enum OrderSide {
    /// Buy the base token, sell the quote token
    Buy,
    /// Sell the base token, buy the quote token
    Sell,
}

impl OrderSide {
    /// The other side of the market.
    pub open spec fn spec_opposite(self) -> OrderSide {
        match self {
            OrderSide::Buy => OrderSide::Sell,
            OrderSide::Sell => OrderSide::Buy,
        }
    }

    /// The other side of the market.
    pub fn opposite(&self) -> (r: OrderSide)
        ensures
            r == self.spec_opposite(),
    {
        match self {
            OrderSide::Buy => OrderSide::Sell,
            OrderSide::Sell => OrderSide::Buy,
        }
    }

    /// The side as a circuit bit: zero buys, one sells.
    pub fn to_scalar(&self) -> (r: Scalar)
        ensures
            r.wf(),
            r@ == (if *self == OrderSide::Sell { 1nat } else { 0nat }),
    {
        match self {
            OrderSide::Buy => Scalar::zero(),
            OrderSide::Sell => Scalar::one(),
        }
    }

    /// The side that a circuit bit stands for: zero buys, anything else sells.
    pub fn from_scalar(s: &Scalar) -> (r: OrderSide)
        ensures
            r == (if s@ == 0 { OrderSide::Buy } else { OrderSide::Sell }),
    {
        if s.is_zero() {
            OrderSide::Buy
        } else {
            OrderSide::Sell
        }
    }
}

/// A token identifier ("mint"): an unsigned integer, compared by value.
#[derive(Clone, Copy, Debug, PartialEq, Eq, Structural, Hash)]
pub struct Address {
    /// The identifier as an integer
    pub value: U256,
}

impl View for Address {
    type V = nat;

    open spec fn view(&self) -> nat {
        self.value@
    }
}

impl Address {
    /// Whether the identifier can be held in one scalar.
    pub open spec fn fits_scalar(&self) -> bool {
        self@ < modulus()
    }

    /// The identifier zero, which stands for "no token".
    pub fn zero() -> (r: Address)
        ensures
            r@ == 0,
    {
        Address { value: U256::zero() }
    }

    /// The identifier with the given integer value.
    pub fn from_u128(x: u128) -> (r: Address)
        ensures
            r@ == x,
    {
        Address { value: U256::from_u128(x) }
    }

    /// The identifier that a scalar holds.
    pub fn from_scalar(s: &Scalar) -> (r: Address)
        ensures
            r@ == s@,
            r.value == s.repr,
    {
        Address { value: s.repr }
    }

    /// The identifier as a scalar, where it fits in one.
    pub fn to_scalar(&self) -> (r: Option<Scalar>)
        ensures
            self.fits_scalar() ==> r == Some(Scalar { repr: self.value }),
            !self.fits_scalar() ==> r.is_none(),
    {
        Scalar::from_u256(self.value)
    }
}

} // verus!
