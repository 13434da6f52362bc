//! Elements of the BN254 scalar field.
//!
//! A `Scalar` holds the canonical representative of a residue class, as a
//! `U256` below the field modulus. The field operations themselves are those
//! of `ark_bn254::Fr`; their contracts below are stated, not proved.

use crate::uint256::{lemma_value_determines_limbs, pow2_128, U256};
use ark_bn254::Fr;
use ark_ff::{BigInt, PrimeField};
use vstd::prelude::*;

verus! {

/// The order of the BN254 scalar field.
pub open spec fn modulus() -> nat {
    21888242871839275222246405745257275088548364400416034343698204186575808495617nat
}

/// Sum of two residues.
pub open spec fn field_add(a: nat, b: nat) -> nat {
    (a + b) % modulus()
}

/// Difference of two residues.
pub open spec fn field_sub(a: nat, b: nat) -> nat {
    ((a + modulus() - (b % modulus())) % (modulus() as int)) as nat
}

/// Product of two residues.
pub open spec fn field_mul(a: nat, b: nat) -> nat {
    (a * b) % modulus()
}

/// An element of the scalar field, in canonical form.
#[derive(Clone, Copy, Debug, PartialEq, Eq, Structural, Hash)]
pub struct Scalar {
    /// The canonical representative, below the modulus
    pub repr: U256,
}

impl View for Scalar {
    type V = nat;

    open spec fn view(&self) -> nat {
        self.repr@
    }
}

/// Whether every scalar of a sequence is canonical.
pub open spec fn all_wf(s: Seq<Scalar>) -> bool {
    forall|i: int| 0 <= i < s.len() ==> (#[trigger] s[i]).wf()
}

/// The residues that a sequence of scalars holds.
pub open spec fn values(s: Seq<Scalar>) -> Seq<nat> {
    Seq::new(s.len(), |i: int| s[i]@)
}

/// Canonical scalars with the same residue are the same scalar.
pub proof fn lemma_scalar_ext(a: Scalar, b: Scalar)
    requires
        a@ == b@,
    ensures
        a == b,
{
    lemma_value_determines_limbs(a.repr, b.repr);
}

/// Adding back what was subtracted restores a residue.
pub proof fn lemma_sub_then_add(w: nat, p: nat)
    requires
        w < modulus(),
        p < modulus(),
    ensures
        field_add(field_sub(w, p), p) == w,
        field_add(p, field_sub(w, p)) == w,
        field_sub(field_add(w, p), p) == w,
{
    let m = modulus() as int;
    assert(p % modulus() == p);
    if w >= p {
        assert(field_sub(w, p) == w - p) by {
            vstd::arithmetic::div_mod::lemma_fundamental_div_mod_converse(
                w + m - p,
                m,
                1,
                w - p,
            );
        }
        assert(field_add(field_sub(w, p), p) == w) by {
            vstd::arithmetic::div_mod::lemma_small_mod(w, modulus());
        }
    } else {
        assert(field_sub(w, p) == w + m - p) by {
            vstd::arithmetic::div_mod::lemma_small_mod((w + m - p) as nat, modulus());
        }
        assert(field_add(field_sub(w, p), p) == w) by {
            vstd::arithmetic::div_mod::lemma_fundamental_div_mod_converse(w + m, m, 1, w as int);
        }
    }
    if w + p < m {
        vstd::arithmetic::div_mod::lemma_small_mod(w + p, modulus());
        assert(field_add(w, p) == w + p);
        vstd::arithmetic::div_mod::lemma_fundamental_div_mod_converse(
            w + p + m - p,
            m,
            1,
            w as int,
        );
    } else {
        vstd::arithmetic::div_mod::lemma_fundamental_div_mod_converse(
            (w + p) as int,
            m,
            1,
            w + p - m,
        );
        assert(field_add(w, p) == w + p - m);
        vstd::arithmetic::div_mod::lemma_small_mod(w, modulus());
    }
}

/// The modulus as limbs.
pub fn modulus_limbs() -> (r: U256)
    ensures
        r@ == modulus(),
{
    U256 {
        l0: 0x43e1_f593_f000_0001,
        l1: 0x2833_e848_79b9_7091,
        l2: 0xb850_45b6_8181_585d,
        l3: 0x3064_4e72_e131_a029,
    }
}

/// Field addition as `ark_bn254::Fr` computes it.
///
/// Calls `Fr::new` on the limbs of each argument, `Add::add` on the two
/// elements, and `PrimeField::into_bigint` on the result. Believed, not
/// proved: for limbs that stand for integers below the field order, the
/// limbs that come back stand for the sum of those integers modulo the
/// field order, reduced below it.
#[verifier::external_body]
fn fr_add(a: U256, b: U256) -> (r: U256)
    requires
        a@ < modulus(),
        b@ < modulus(),
    ensures
        r@ == field_add(a@, b@),
{
    let x = Fr::new(BigInt::new([a.l0, a.l1, a.l2, a.l3]));
    let y = Fr::new(BigInt::new([b.l0, b.l1, b.l2, b.l3]));
    let BigInt([l0, l1, l2, l3]) = (x + y).into_bigint();
    U256 { l0, l1, l2, l3 }
}

/// Field subtraction as `ark_bn254::Fr` computes it.
///
/// Calls `Fr::new` on the limbs of each argument, `Sub::sub` on the two
/// elements, and `PrimeField::into_bigint` on the result. Believed, not
/// proved: for limbs that stand for integers below the field order, the
/// limbs that come back stand for the difference of those integers modulo the
/// field order, reduced below it.
#[verifier::external_body]
fn fr_sub(a: U256, b: U256) -> (r: U256)
    requires
        a@ < modulus(),
        b@ < modulus(),
    ensures
        r@ == field_sub(a@, b@),
{
    let x = Fr::new(BigInt::new([a.l0, a.l1, a.l2, a.l3]));
    let y = Fr::new(BigInt::new([b.l0, b.l1, b.l2, b.l3]));
    let BigInt([l0, l1, l2, l3]) = (x - y).into_bigint();
    U256 { l0, l1, l2, l3 }
}

/// Field multiplication as `ark_bn254::Fr` computes it.
///
/// Calls `Fr::new` on the limbs of each argument, `Mul::mul` on the two
/// elements, and `PrimeField::into_bigint` on the result. Believed, not
/// proved: for limbs that stand for integers below the field order, the
/// limbs that come back stand for the product of those integers modulo the
/// field order, reduced below it.
#[verifier::external_body]
fn fr_mul(a: U256, b: U256) -> (r: U256)
    requires
        a@ < modulus(),
        b@ < modulus(),
    ensures
        r@ == field_mul(a@, b@),
{
    let x = Fr::new(BigInt::new([a.l0, a.l1, a.l2, a.l3]));
    let y = Fr::new(BigInt::new([b.l0, b.l1, b.l2, b.l3]));
    let BigInt([l0, l1, l2, l3]) = (x * y).into_bigint();
    U256 { l0, l1, l2, l3 }
}

impl Scalar {
    /// Whether the representative is canonical.
    pub open spec fn wf(&self) -> bool {
        self@ < modulus()
    }

    /// The additive identity.
    pub fn zero() -> (r: Scalar)
        ensures
            r.wf(),
            r@ == 0,
    {
        Scalar { repr: U256::zero() }
    }

    /// The multiplicative identity.
    pub fn one() -> (r: Scalar)
        ensures
            r.wf(),
            r@ == 1,
    {
        Scalar { repr: U256::from_u64(1) }
    }

    /// The scalar that stands for a 64-bit integer.
    pub fn from_u64(x: u64) -> (r: Scalar)
        ensures
            r.wf(),
            r@ == x,
    {
        Scalar { repr: U256::from_u64(x) }
    }

    /// The scalar that stands for a 128-bit integer.
    pub fn from_u128(x: u128) -> (r: Scalar)
        ensures
            r.wf(),
            r@ == x,
            r == (Scalar { repr: U256::spec_from_u128(x) }),
    {
        Scalar { repr: U256::from_u128(x) }
    }

    /// The scalar that stands for a truth value: one for `true`.
    pub fn from_bool(b: bool) -> (r: Scalar)
        ensures
            r.wf(),
            r@ == (if b { 1nat } else { 0nat }),
    {
        if b {
            Scalar::one()
        } else {
            Scalar::zero()
        }
    }

    /// The scalar with the given canonical representative, where there is one.
    pub fn from_u256(x: U256) -> (r: Option<Scalar>)
        ensures
            x@ < modulus() ==> r == Some(Scalar { repr: x }),
            x@ >= modulus() ==> r.is_none(),
    {
        let m = modulus_limbs();
        if x.lt(&m) {
            Some(Scalar { repr: x })
        } else {
            None
        }
    }

    /// The low 128 bits of the canonical representative.
    pub fn to_u128(&self) -> (r: u128)
        ensures
            r == self@ % pow2_128(),
    {
        self.repr.low_u128()
    }

    /// Whether the representative is canonical.
    pub fn is_canonical(&self) -> (b: bool)
        ensures
            b == self.wf(),
    {
        let m = modulus_limbs();
        self.repr.lt(&m)
    }

    /// Whether the scalar is zero.
    pub fn is_zero(&self) -> (b: bool)
        ensures
            b == (self@ == 0),
    {
        self.repr.l0 == 0 && self.repr.l1 == 0 && self.repr.l2 == 0 && self.repr.l3 == 0
    }

    /// Field addition.
    pub fn add(&self, rhs: &Scalar) -> (r: Scalar)
        requires
            self.wf(),
            rhs.wf(),
        ensures
            r.wf(),
            r@ == field_add(self@, rhs@),
    {
        Scalar { repr: fr_add(self.repr, rhs.repr) }
    }

    /// Field subtraction.
    pub fn sub(&self, rhs: &Scalar) -> (r: Scalar)
        requires
            self.wf(),
            rhs.wf(),
        ensures
            r.wf(),
            r@ == field_sub(self@, rhs@),
    {
        Scalar { repr: fr_sub(self.repr, rhs.repr) }
    }

    /// Field multiplication.
    pub fn mul(&self, rhs: &Scalar) -> (r: Scalar)
        requires
            self.wf(),
            rhs.wf(),
        ensures
            r.wf(),
            r@ == field_mul(self@, rhs@),
    {
        Scalar { repr: fr_mul(self.repr, rhs.repr) }
    }
}

} // verus!
