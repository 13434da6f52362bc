//! Notes: claims on a fee that a wallet has paid, encrypted to whoever may
//! redeem them.

use crate::hash::{hash_scalars, hasher_ready, is_digest};
use crate::primitives::{Address, Amount};
use crate::scalar::{all_wf, Scalar};
use crate::wallet::{Balance, EncryptionKey};
use vstd::prelude::*;

verus! {

/// Number of scalars in the ciphertext of a note.
pub const NOTE_CIPHERTEXT_SIZE: usize = 3;

/// A claim on an amount of one token.
#[derive(Clone, Copy, Debug, PartialEq, Eq, Structural, Hash)]
pub struct Note {
    /// The token
    pub mint: Address,
    /// The amount
    pub amount: Amount,
    /// The key of who may redeem the note
    pub receiver: EncryptionKey,
    /// The blinder of the note
    pub blinder: Scalar,
}

impl Note {
    /// Whether every part of the note can be held in scalars.
    pub open spec fn wf(&self) -> bool {
        self.mint.fits_scalar() && self.receiver.wf() && self.blinder.wf()
    }

    /// The serialisation of the note: mint, amount, the receiver's key,
    /// blinder.
    pub open spec fn spec_scalars(&self) -> Seq<Scalar> {
        seq![
            Scalar { repr: self.mint.value },
            Scalar { repr: crate::uint256::U256::spec_from_u128(self.amount) },
            self.receiver.x,
            self.receiver.y,
            self.blinder,
        ]
    }

    /// Serialise the note.
    pub fn to_scalars(&self) -> (r: Vec<Scalar>)
        requires
            self.wf(),
        ensures
            r@ == self.spec_scalars(),
            all_wf(r@),
    {
        let mut out: Vec<Scalar> = Vec::new();
        out.push(Scalar { repr: self.mint.value });
        out.push(Scalar::from_u128(self.amount));
        out.push(self.receiver.x);
        out.push(self.receiver.y);
        out.push(self.blinder);
        assert(out@ =~= self.spec_scalars());
        out
    }

    /// The commitment to the note: the digest of its serialisation.
    pub fn commitment<H: Fn(Vec<Scalar>) -> Scalar>(&self, hasher: &H) -> (c: Scalar)
        requires
            self.wf(),
            hasher_ready(hasher),
        ensures
            c.wf(),
            is_digest(hasher, self.spec_scalars(), c),
    {
        hash_scalars(hasher, self.to_scalars())
    }
}

/// An ElGamal ciphertext of a note over the embedded curve.
#[derive(Clone, Copy, Debug, PartialEq, Eq)]
pub struct ElGamalCiphertext {
    /// The ephemeral key of the encryption
    pub ephemeral_key: EncryptionKey,
    /// The encrypted scalars
    pub ciphertext: [Scalar; NOTE_CIPHERTEXT_SIZE],
}

impl Balance {
    /// Move the fee owed to the protocol into a note for the protocol's key.
    pub fn create_protocol_note(&mut self, protocol_key: EncryptionKey, blinder: Scalar) -> (note:
        Note)
        ensures
            note == (Note {
                mint: old(self).mint,
                amount: old(self).protocol_fee_balance,
                receiver: protocol_key,
                blinder,
            }),
            *final(self) == (Balance { protocol_fee_balance: 0, ..*old(self) }),
    {
        let note = Note {
            mint: self.mint,
            amount: self.protocol_fee_balance,
            receiver: protocol_key,
            blinder,
        };
        self.protocol_fee_balance = 0;
        note
    }

    /// Move the fee owed to the relayer into a note for the relayer's key.
    pub fn create_relayer_note(&mut self, relayer_key: EncryptionKey, blinder: Scalar) -> (note:
        Note)
        ensures
            note == (Note {
                mint: old(self).mint,
                amount: old(self).relayer_fee_balance,
                receiver: relayer_key,
                blinder,
            }),
            *final(self) == (Balance { relayer_fee_balance: 0, ..*old(self) }),
    {
        let note = Note {
            mint: self.mint,
            amount: self.relayer_fee_balance,
            receiver: relayer_key,
            blinder,
        };
        self.relayer_fee_balance = 0;
        note
    }
}

} // verus!
