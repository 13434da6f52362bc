//! Fees taken from the proceeds of a match.

use crate::fixed_point::{scaled_floor, FixedPoint};
use crate::primitives::Amount;
use vstd::prelude::*;

verus! {

/// The fees that one party pays on a match, in the token it receives.
#[derive(Clone, Copy, Debug, PartialEq, Eq, Structural, Hash)]
pub struct FeeTake {
    /// The fee that goes to the relayer
    pub relayer_fee: Amount,
    /// The fee that goes to the protocol
    pub protocol_fee: Amount,
}

impl FeeTake {
    /// Sum of both fees.
    pub open spec fn spec_total(&self) -> nat {
        (self.relayer_fee + self.protocol_fee) as nat
    }

    /// Sum of both fees.
    pub fn total(&self) -> (r: Amount)
        requires
            self.relayer_fee + self.protocol_fee <= u128::MAX,
        ensures
            r == self.spec_total(),
    {
        self.relayer_fee + self.protocol_fee
    }
}

/// The rates at which fees are taken.
#[derive(Clone, Copy, Debug, PartialEq, Eq, Structural, Hash)]
pub struct FeeTakeRate {
    /// The rate of the relayer's fee
    pub relayer_fee_rate: FixedPoint,
    /// The rate of the protocol's fee
    pub protocol_fee_rate: FixedPoint,
}

impl FeeTakeRate {
    /// Whether both rates are well formed.
    pub open spec fn wf(&self) -> bool {
        self.relayer_fee_rate.wf() && self.protocol_fee_rate.wf()
    }

    /// The fees due on an amount received.
    pub open spec fn spec_compute_fee_take(&self, amount: Amount) -> FeeTake {
        FeeTake {
            relayer_fee: scaled_floor(self.relayer_fee_rate.repr@, amount as nat) as u128,
            protocol_fee: scaled_floor(self.protocol_fee_rate.repr@, amount as nat) as u128,
        }
    }

    /// The fees due on an amount received: each rate times the amount,
    /// rounded down.
    pub fn compute_fee_take(&self, amount: Amount) -> (r: FeeTake)
        requires
            self.wf(),
        ensures
            r == self.spec_compute_fee_take(amount),
    {
        FeeTake {
            relayer_fee: self.relayer_fee_rate.floor_mul(amount),
            protocol_fee: self.protocol_fee_rate.floor_mul(amount),
        }
    }
}

} // verus!
