//! Unsigned 256-bit integers held as four 64-bit limbs, least significant
//! first. This is the layout that both the field backend and the contract
//! ABI use for their words, so values cross those borders limb for limb.

use vstd::prelude::*;

verus! {

/// 2^64, the weight of the second limb.
pub open spec fn pow2_64() -> nat {
    0x1_0000_0000_0000_0000nat
}

/// 2^128, the weight of the third limb.
pub open spec fn pow2_128() -> nat {
    0x1_0000_0000_0000_0000_0000_0000_0000_0000nat
}

/// 2^192, the weight of the fourth limb.
pub open spec fn pow2_192() -> nat {
    0x1_0000_0000_0000_0000_0000_0000_0000_0000_0000_0000_0000_0000nat
}

/// 2^256, one more than the largest value a `U256` holds.
pub open spec fn pow2_256() -> nat {
    0x1_0000_0000_0000_0000_0000_0000_0000_0000_0000_0000_0000_0000_0000_0000_0000_0000nat
}

/// The number that four limbs stand for.
pub open spec fn limbs_value(l0: u64, l1: u64, l2: u64, l3: u64) -> nat {
    (l0 as nat) + (l1 as nat) * pow2_64() + (l2 as nat) * pow2_128() + (l3 as nat) * pow2_192()
}

/// An unsigned 256-bit integer.
#[derive(Clone, Copy, Debug, PartialEq, Eq, Structural, Hash)]
pub struct U256 {
    /// Bits 0..64
    pub l0: u64,
    /// Bits 64..128
    pub l1: u64,
    /// Bits 128..192
    pub l2: u64,
    /// Bits 192..256
    pub l3: u64,
}

impl View for U256 {
    type V = nat;

    open spec fn view(&self) -> nat {
        limbs_value(self.l0, self.l1, self.l2, self.l3)
    }
}

/// Two `U256` with the same value have the same limbs.
pub proof fn lemma_value_determines_limbs(a: U256, b: U256)
    requires
        a@ == b@,
    ensures
        a == b,
{
    assert(a.l0 == b.l0 && a.l1 == b.l1 && a.l2 == b.l2 && a.l3 == b.l3) by {
        let lo_a = a.l0 as int + a.l1 as int * 0x1_0000_0000_0000_0000;
        let lo_b = b.l0 as int + b.l1 as int * 0x1_0000_0000_0000_0000;
        let hi_a = a.l2 as int + a.l3 as int * 0x1_0000_0000_0000_0000;
        let hi_b = b.l2 as int + b.l3 as int * 0x1_0000_0000_0000_0000;
        assert(a@ == lo_a + hi_a * 0x1_0000_0000_0000_0000_0000_0000_0000_0000int);
        assert(b@ == lo_b + hi_b * 0x1_0000_0000_0000_0000_0000_0000_0000_0000int);
        assert(0 <= lo_a < 0x1_0000_0000_0000_0000_0000_0000_0000_0000int);
        assert(0 <= lo_b < 0x1_0000_0000_0000_0000_0000_0000_0000_0000int);
        assert(hi_a == hi_b);
        assert(lo_a == lo_b);
    }
}

impl U256 {
    /// The value zero.
    pub fn zero() -> (r: U256)
        ensures
            r@ == 0,
    {
        U256 { l0: 0, l1: 0, l2: 0, l3: 0 }
    }

    /// Widen a 64-bit integer.
    pub fn from_u64(x: u64) -> (r: U256)
        ensures
            r@ == x,
    {
        U256 { l0: x, l1: 0, l2: 0, l3: 0 }
    }

    /// The `U256` that stands for a 128-bit integer.
    pub open spec fn spec_from_u128(x: u128) -> U256 {
        U256 {
            l0: (x % 0x1_0000_0000_0000_0000) as u64,
            l1: (x / 0x1_0000_0000_0000_0000) as u64,
            l2: 0,
            l3: 0,
        }
    }

    /// Widen a 128-bit integer.
    pub fn from_u128(x: u128) -> (r: U256)
        ensures
            r@ == x,
            r == U256::spec_from_u128(x),
    {
        let lo: u64 = (x % 0x1_0000_0000_0000_0000) as u64;
        let hi: u64 = (x / 0x1_0000_0000_0000_0000) as u64;
        U256 { l0: lo, l1: hi, l2: 0, l3: 0 }
    }

    /// Whether the value fits in 128 bits.
    pub fn fits_u128(&self) -> (b: bool)
        ensures
            b == (self@ < pow2_128()),
    {
        self.l2 == 0 && self.l3 == 0
    }

    /// The low 128 bits: the value modulo 2^128.
    pub fn low_u128(&self) -> (r: u128)
        ensures
            r == self@ % pow2_128(),
    {
        let r: u128 = (self.l0 as u128) + (self.l1 as u128) * 0x1_0000_0000_0000_0000;
        proof {
            let hi = self.l2 as int + self.l3 as int * 0x1_0000_0000_0000_0000;
            assert(self@ == r as int + hi * 0x1_0000_0000_0000_0000_0000_0000_0000_0000int);
            vstd::arithmetic::div_mod::lemma_fundamental_div_mod_converse(
                self@ as int,
                0x1_0000_0000_0000_0000_0000_0000_0000_0000int,
                hi,
                r as int,
            );
        }
        r
    }

    /// The value as a 128-bit integer, where it fits.
    pub fn to_u128(&self) -> (r: Option<u128>)
        ensures
            self@ < pow2_128() ==> r == Some(self@ as u128),
            self@ >= pow2_128() ==> r.is_none(),
    {
        if self.fits_u128() {
            Some(self.low_u128())
        } else {
            None
        }
    }

    /// Whether `self` is strictly below `other`.
    pub fn lt(&self, other: &U256) -> (b: bool)
        ensures
            b == (self@ < other@),
    {
        if self.l3 != other.l3 {
            self.l3 < other.l3
        } else if self.l2 != other.l2 {
            self.l2 < other.l2
        } else if self.l1 != other.l1 {
            self.l1 < other.l1
        } else {
            self.l0 < other.l0
        }
    }

    /// The value divided by 2^63, rounded down.
    pub fn shr63(&self) -> (r: U256)
        ensures
            r@ == self@ / 0x8000_0000_0000_0000nat,
    {
        let h0: u64 = self.l0 / 0x8000_0000_0000_0000;
        let h1: u64 = self.l1 / 0x8000_0000_0000_0000;
        let h2: u64 = self.l2 / 0x8000_0000_0000_0000;
        let h3: u64 = self.l3 / 0x8000_0000_0000_0000;
        let t0: u64 = self.l0 % 0x8000_0000_0000_0000;
        let t1: u64 = self.l1 % 0x8000_0000_0000_0000;
        let t2: u64 = self.l2 % 0x8000_0000_0000_0000;
        let t3: u64 = self.l3 % 0x8000_0000_0000_0000;
        let r = U256 { l0: h0 + t1 * 2, l1: h1 + t2 * 2, l2: h2 + t3 * 2, l3: h3 };
        proof {
            assert(self@ == t0 as int + r@ as int * 0x8000_0000_0000_0000);
            vstd::arithmetic::div_mod::lemma_fundamental_div_mod_converse(
                self@ as int,
                0x8000_0000_0000_0000,
                r@ as int,
                t0 as int,
            );
        }
        r
    }
}

} // verus!
