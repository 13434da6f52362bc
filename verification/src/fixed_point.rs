//! Fixed-point rationals over the scalar field.
//!
//! A `FixedPoint` stands for `repr / 2^63`. Products are taken in the field;
//! the integer part is read off the canonical representative, so rounding is
//! always toward zero.

use crate::scalar::{field_mul, modulus, Scalar};
use crate::uint256::pow2_128;
use vstd::prelude::*;

verus! {

/// Number of fractional bits.
pub const DEFAULT_FP_PRECISION: u32 = 63;

/// 2^63, the denominator that every `FixedPoint` shares.
pub open spec fn precision_factor() -> nat {
    0x8000_0000_0000_0000nat
}

/// Integer part of `rate * amount` as the field computes it: the product is
/// reduced modulo the field order, divided by 2^63 rounding down, and cut to
/// 128 bits.
pub open spec fn scaled_floor(rate: nat, amount: nat) -> nat {
    (field_mul(rate, amount) / precision_factor()) % pow2_128()
}

/// Where the product stays below the field order and its integer part fits
/// in 128 bits, `scaled_floor` is the integer part of the exact product.
pub proof fn lemma_scaled_floor_exact(rate: nat, amount: nat)
    requires
        rate * amount < modulus(),
        (rate * amount) / precision_factor() < pow2_128(),
    ensures
        scaled_floor(rate, amount) == (rate * amount) / precision_factor(),
{
    vstd::arithmetic::div_mod::lemma_small_mod(rate * amount, modulus());
    vstd::arithmetic::div_mod::lemma_small_mod((rate * amount) / precision_factor(), pow2_128());
}

/// On the same range `scaled_floor` does not decrease as the amount grows.
pub proof fn lemma_scaled_floor_monotone(rate: nat, a1: nat, a2: nat)
    requires
        a1 <= a2,
        rate * a2 < modulus(),
        (rate * a2) / precision_factor() < pow2_128(),
    ensures
        scaled_floor(rate, a1) <= scaled_floor(rate, a2),
{
    assert(rate * a1 <= rate * a2) by (nonlinear_arith)
        requires
            a1 <= a2,
    ;
    vstd::arithmetic::div_mod::lemma_div_is_ordered(
        (rate * a1) as int,
        (rate * a2) as int,
        precision_factor() as int,
    );
    lemma_scaled_floor_exact(rate, a2);
    lemma_scaled_floor_exact(rate, a1);
}

/// A rational with 63 fractional bits.
#[derive(Clone, Copy, Debug, PartialEq, Eq, Structural, Hash)]
pub struct FixedPoint {
    /// The value times 2^63, as a field element
    pub repr: Scalar,
}

impl FixedPoint {
    /// Whether the representation is a canonical scalar.
    pub open spec fn wf(&self) -> bool {
        self.repr.wf()
    }

    /// The fixed-point number with the given representation.
    pub fn from_repr(repr: Scalar) -> (r: FixedPoint)
        ensures
            r.repr == repr,
    {
        FixedPoint { repr }
    }

    /// The fixed-point number that stands for an integer.
    pub fn from_integer(val: u64) -> (r: FixedPoint)
        ensures
            r.wf(),
            r.repr@ == val * precision_factor(),
    {
        let scaled: u128 = (val as u128) * 0x8000_0000_0000_0000;
        FixedPoint { repr: Scalar::from_u128(scaled) }
    }

    /// Product with a scalar, taken in the field.
    pub fn mul_scalar(&self, rhs: &Scalar) -> (r: FixedPoint)
        requires
            self.wf(),
            rhs.wf(),
        ensures
            r.wf(),
            r.repr@ == field_mul(self.repr@, rhs@),
    {
        FixedPoint { repr: self.repr.mul(rhs) }
    }

    /// The integer part: the representation divided by 2^63, rounded down.
    pub fn floor(&self) -> (r: Scalar)
        requires
            self.wf(),
        ensures
            r.wf(),
            r@ == self.repr@ / precision_factor(),
    {
        let shifted = self.repr.repr.shr63();
        proof {
            vstd::arithmetic::div_mod::lemma_div_is_ordered_by_denominator(
                self.repr@ as int,
                1,
                precision_factor() as int,
            );
        }
        Scalar { repr: shifted }
    }

    /// Integer part of the product with an amount, cut to 128 bits.
    pub fn floor_mul(&self, amount: u128) -> (r: u128)
        requires
            self.wf(),
        ensures
            r == scaled_floor(self.repr@, amount as nat),
    {
        let product = self.mul_scalar(&Scalar::from_u128(amount));
        product.floor().to_u128()
    }
}

} // verus!
