//! Statements and witnesses of the settlement circuits, and the proofs that
//! go with them. The order of the fields is the order of the public inputs.

use crate::fees::{FeeTake, FeeTakeRate};
use crate::fixed_point::FixedPoint;
use crate::match_types::{BoundedMatchResult, ExternalMatchResult, OrderSettlementIndices};
use crate::note::{ElGamalCiphertext, Note};
use crate::primitives::{Address, Amount};
use crate::scalar::Scalar;
use crate::uint256::U256;
use crate::wallet::{EncryptionKey, MerkleOpening, PublicSigningKey};
use crate::wallet_share::WalletShare;
use vstd::prelude::*;

verus! {

/// A point of the first source group of the pairing, in affine coordinates.
#[derive(Clone, Copy, Debug, PartialEq, Eq, Structural, Hash)]
pub struct G1Affine {
    /// The x coordinate
    pub x: U256,
    /// The y coordinate
    pub y: U256,
    /// Whether this is the point at infinity
    pub infinity: bool,
}

/// The evaluations that a proof opens.
#[derive(Debug)]
pub struct ProofEvaluations {
    /// Evaluations of the wire polynomials
    pub wires_evals: Vec<Scalar>,
    /// Evaluations of the permutation polynomials
    pub wire_sigma_evals: Vec<Scalar>,
    /// Evaluation of the grand product at the next point
    pub perm_next_eval: Scalar,
}

/// A proof of one circuit.
#[derive(Debug)]
pub struct PlonkProof {
    /// Commitments to the wire polynomials
    pub wires_poly_comms: Vec<G1Affine>,
    /// Commitment to the grand product polynomial
    pub prod_perm_poly_comm: G1Affine,
    /// Commitments to the parts of the quotient polynomial
    pub split_quot_poly_comms: Vec<G1Affine>,
    /// The opening at the challenge point
    pub opening_proof: G1Affine,
    /// The opening at the next point
    pub shifted_opening_proof: G1Affine,
    /// The opened evaluations
    pub poly_evals: ProofEvaluations,
}

/// A proof that two proofs share part of their witness.
#[derive(Clone, Copy, Debug, PartialEq, Eq, Structural, Hash)]
pub struct PlonkLinkProof {
    /// Commitment to the quotient of the linking polynomial
    pub quotient_commitment: G1Affine,
    /// Opening of the linking polynomial
    pub opening_proof: G1Affine,
}

/// The proofs that an order is valid to match.
#[derive(Debug)]
pub struct OrderValidityProofBundle {
    /// Proof that the wallet was reblinded rightly
    pub reblind_proof: PlonkProof,
    /// Proof that the indices point at the order and its balances
    pub commitment_proof: PlonkProof,
    /// Link between the two
    pub linking_proof: PlonkLinkProof,
}

/// The proofs of a match between two orders of the pool.
#[derive(Debug)]
pub struct MatchBundle {
    /// Proof that the match settles rightly
    pub match_proof: PlonkProof,
    /// Link to the first party's commitments
    pub commitments_link0: PlonkLinkProof,
    /// Link to the second party's commitments
    pub commitments_link1: PlonkLinkProof,
}

/// Whether a transfer moves tokens into or out of the pool.
#[derive(Clone, Copy, Debug, PartialEq, Eq, Structural, Hash)]
pub enum ExternalTransferDirection {
    /// Into the pool
    Deposit,
    /// Out of the pool
    Withdrawal,
}

/// A transfer between the pool and an outside account.
#[derive(Clone, Copy, Debug, PartialEq, Eq, Structural, Hash)]
pub struct ExternalTransfer {
    /// The outside account
    pub account_addr: Address,
    /// The token
    pub mint: Address,
    /// The amount
    pub amount: Amount,
    /// The direction
    pub direction: ExternalTransferDirection,
}

impl ExternalTransfer {
    /// Whether this is the transfer that stands for "no transfer": nothing,
    /// of no token, to no account, inward.
    pub open spec fn spec_is_default(&self) -> bool {
        &&& self.account_addr@ == 0
        &&& self.mint@ == 0
        &&& self.amount == 0
        &&& self.direction == ExternalTransferDirection::Deposit
    }

    /// Whether this is the transfer that stands for "no transfer".
    pub fn is_default(&self) -> (r: bool)
        ensures
            r == self.spec_is_default(),
    {
        let zero = U256::zero();
        proof {
            if self.account_addr@ == 0 {
                crate::uint256::lemma_value_determines_limbs(self.account_addr.value, zero);
            }
            if self.mint@ == 0 {
                crate::uint256::lemma_value_determines_limbs(self.mint.value, zero);
            }
        }
        self.account_addr.value == zero && self.mint.value == zero && self.amount == 0 && (
        self.direction == ExternalTransferDirection::Deposit)
    }
}

/// A number of any size, as 64-bit digits, least significant first.
#[derive(Debug)]
pub struct BigUint {
    /// The digits, least significant first
    pub digits: Vec<u64>,
}

/// What authorises a deposit.
#[derive(Debug)]
pub struct DepositAuth {
    /// The nonce of the permit
    pub permit_nonce: BigUint,
    /// The deadline of the permit
    pub permit_deadline: BigUint,
    /// The signature of the permit
    pub permit_signature: Vec<u8>,
}

/// What authorises a withdrawal.
#[derive(Debug)]
pub struct WithdrawalAuth {
    /// The signature over the transfer
    pub external_transfer_signature: Vec<u8>,
}

/// What authorises an external transfer.
#[derive(Debug)]
pub enum TransferAuth {
    /// A deposit
    Deposit(DepositAuth),
    /// A withdrawal
    Withdrawal(WithdrawalAuth),
}

/// Statement of a wallet's creation.
#[derive(Debug)]
pub struct ValidWalletCreateStatement {
    /// Commitment to the shares of the new wallet
    pub wallet_share_commitment: Scalar,
    /// The public share of the new wallet
    pub public_wallet_shares: WalletShare,
}

/// Statement of a wallet's update.
#[derive(Debug)]
pub struct ValidWalletUpdateStatement {
    /// Nullifier of the shares before the update
    pub old_shares_nullifier: Scalar,
    /// Commitment to the shares after the update
    pub new_wallet_commitment: Scalar,
    /// The public share after the update
    pub new_public_shares: WalletShare,
    /// Root of the tree that holds the old commitment
    pub merkle_root: Scalar,
    /// The transfer that the update makes, or the default one
    pub external_transfer: ExternalTransfer,
    /// The root key before the update
    pub old_pk_root: PublicSigningKey,
}

/// Statement of a reblind.
#[derive(Clone, Copy, Debug, PartialEq, Eq, Structural, Hash)]
pub struct ValidReblindStatement {
    /// Nullifier of the shares before the reblind
    pub original_shares_nullifier: Scalar,
    /// Commitment to the private share after the reblind
    pub reblinded_private_share_commitment: Scalar,
    /// Root of the tree that holds the old commitment
    pub merkle_root: Scalar,
}

/// Statement of an order's commitments.
#[derive(Clone, Copy, Debug, PartialEq, Eq, Structural, Hash)]
pub struct ValidCommitmentsStatement {
    /// Where the settlement will write
    pub indices: OrderSettlementIndices,
}

/// Statement of a match between two orders of the pool.
#[derive(Debug)]
pub struct ValidMatchSettleStatement {
    /// The first party's public share after the match
    pub party0_modified_shares: WalletShare,
    /// The second party's public share after the match
    pub party1_modified_shares: WalletShare,
    /// Where the match writes in the first party's wallet
    pub party0_indices: OrderSettlementIndices,
    /// Where the match writes in the second party's wallet
    pub party1_indices: OrderSettlementIndices,
    /// The protocol's fee rate
    pub protocol_fee: FixedPoint,
}

/// Statement of a match against an outside party.
#[derive(Debug)]
pub struct ValidMatchSettleAtomicStatement {
    /// The match
    pub match_result: ExternalMatchResult,
    /// The fees that the external party pays
    pub external_party_fees: FeeTake,
    /// The internal party's public share after the match
    pub internal_party_modified_shares: WalletShare,
    /// Where the match writes in the internal party's wallet
    pub internal_party_indices: OrderSettlementIndices,
    /// The protocol's fee rate
    pub protocol_fee: FixedPoint,
    /// Where the relayer takes its fee
    pub relayer_fee_address: Address,
}

/// Statement of a match against an outside party whose size is chosen at
/// settlement.
#[derive(Debug)]
pub struct ValidMalleableMatchSettleAtomicStatement {
    /// The match and its bounds
    pub bounded_match_result: BoundedMatchResult,
    /// The fee rates of the external party
    pub external_fee_rates: FeeTakeRate,
    /// The fee rates of the internal party
    pub internal_fee_rates: FeeTakeRate,
    /// The internal party's public share before the match
    pub internal_party_public_shares: WalletShare,
    /// Where the relayer takes its fee
    pub relayer_fee_address: Address,
}

/// Statement of a fee paid from one wallet of the pool to another.
#[derive(Debug)]
pub struct ValidRelayerFeeSettlementStatement {
    /// Root of the tree that holds the sender's commitment
    pub sender_root: Scalar,
    /// Root of the tree that holds the recipient's commitment
    pub recipient_root: Scalar,
    /// Nullifier of the sender's shares
    pub sender_nullifier: Scalar,
    /// Nullifier of the recipient's shares
    pub recipient_nullifier: Scalar,
    /// Commitment to the sender's new shares
    pub sender_wallet_commitment: Scalar,
    /// Commitment to the recipient's new shares
    pub recipient_wallet_commitment: Scalar,
    /// The sender's new public share
    pub sender_updated_public_shares: WalletShare,
    /// The recipient's new public share
    pub recipient_updated_public_shares: WalletShare,
    /// The recipient's root key
    pub recipient_pk_root: PublicSigningKey,
}

/// Statement of a fee paid into a note.
#[derive(Debug)]
pub struct ValidOfflineFeeSettlementStatement {
    /// Root of the tree that holds the payer's commitment
    pub merkle_root: Scalar,
    /// Nullifier of the payer's shares
    pub nullifier: Scalar,
    /// Commitment to the payer's new shares
    pub new_wallet_commitment: Scalar,
    /// The payer's new public share
    pub updated_wallet_public_shares: WalletShare,
    /// The note, encrypted
    pub note_ciphertext: ElGamalCiphertext,
    /// Commitment to the note
    pub note_commitment: Scalar,
    /// The protocol's key
    pub protocol_key: EncryptionKey,
    /// Whether the fee is the protocol's
    pub is_protocol_fee: bool,
}

/// Witness of a fee paid into a note.
#[derive(Debug)]
pub struct ValidOfflineFeeSettlementWitness {
    /// The payer's public share before
    pub original_wallet_public_shares: WalletShare,
    /// The payer's private share before
    pub original_wallet_private_shares: WalletShare,
    /// The payer's private share after
    pub updated_wallet_private_shares: WalletShare,
    /// Path of the payer's old commitment
    pub merkle_opening: MerkleOpening,
    /// The note
    pub note: Note,
    /// The randomness of the note's encryption
    pub encryption_randomness: Scalar,
    /// Index of the balance that pays
    pub send_index: usize,
}

/// Statement of a note redeemed into a wallet.
#[derive(Debug)]
pub struct ValidFeeRedemptionStatement {
    /// Root of the tree that holds the wallet's commitment
    pub wallet_root: Scalar,
    /// Root of the tree that holds the note's commitment
    pub note_root: Scalar,
    /// Nullifier of the wallet's shares
    pub wallet_nullifier: Scalar,
    /// Nullifier of the note
    pub note_nullifier: Scalar,
    /// Commitment to the wallet's new shares
    pub new_shares_commitment: Scalar,
    /// The wallet's new public share
    pub new_wallet_public_shares: WalletShare,
    /// The root key of the recipient
    pub recipient_root_key: PublicSigningKey,
}

} // verus!
