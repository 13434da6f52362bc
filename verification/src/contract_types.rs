//! The types of the settlement contract's interface.
//!
//! These are the values that cross the wire: amounts are 256-bit words,
//! tokens are 160-bit addresses, shares are plain vectors of scalars.

use crate::scalar::Scalar;
use crate::statements::G1Affine;
use crate::uint256::{pow2_128, pow2_64, U256};
use vstd::prelude::*;

verus! {

/// Number of wire types of the proof system.
pub const NUM_WIRE_TYPES: usize = 5;

/// Number of permutation evaluations that a proof opens.
pub const NUM_SIGMA_EVALS: usize = 4;

/// 2^160, one more than the largest address.
pub open spec fn pow2_160() -> nat {
    0x1_0000_0000_0000_0000_0000_0000_0000_0000_0000_0000nat
}

/// An address on chain: 160 bits.
#[derive(Clone, Copy, Debug, PartialEq, Eq, Structural, Hash)]
pub struct EvmAddress {
    /// Bits 0..64
    pub l0: u64,
    /// Bits 64..128
    pub l1: u64,
    /// Bits 128..160
    pub l2: u32,
}

impl View for EvmAddress {
    type V = nat;

    open spec fn view(&self) -> nat {
        (self.l0 as nat) + (self.l1 as nat) * pow2_64() + (self.l2 as nat) * pow2_128()
    }
}

/// A fixed-point number on the wire.
#[derive(Clone, Copy, Debug, PartialEq, Eq, Structural, Hash)]
pub struct ContractFixedPoint {
    /// The representation
    pub repr: Scalar,
}

/// Settlement indices on the wire.
#[derive(Clone, Copy, Debug, PartialEq, Eq, Structural, Hash)]
pub struct ContractOrderSettlementIndices {
    /// Index of the balance that sends
    pub balance_send: u64,
    /// Index of the balance that receives
    pub balance_receive: u64,
    /// Index of the order
    pub order: u64,
}

/// An external match on the wire.
#[derive(Clone, Copy, Debug, PartialEq, Eq, Structural, Hash)]
pub struct ContractExternalMatchResult {
    /// The quote token
    pub quote_mint: EvmAddress,
    /// The base token
    pub base_mint: EvmAddress,
    /// The quote amount
    pub quote_amount: U256,
    /// The base amount
    pub base_amount: U256,
    /// `true` where the external party buys the base
    pub direction: bool,
}

/// A bounded match on the wire.
#[derive(Clone, Copy, Debug, PartialEq, Eq, Structural, Hash)]
pub struct ContractBoundedMatchResult {
    /// The quote token
    pub quote_mint: EvmAddress,
    /// The base token
    pub base_mint: EvmAddress,
    /// The price
    pub price: ContractFixedPoint,
    /// The least base amount
    pub min_base_amount: U256,
    /// The greatest base amount
    pub max_base_amount: U256,
    /// `true` where the external party buys the base
    pub direction: bool,
}

/// Fees on the wire.
#[derive(Clone, Copy, Debug, PartialEq, Eq, Structural, Hash)]
pub struct ContractFeeTake {
    /// The relayer's fee
    pub relayer_fee: U256,
    /// The protocol's fee
    pub protocol_fee: U256,
}

/// Fee rates on the wire.
#[derive(Clone, Copy, Debug, PartialEq, Eq, Structural, Hash)]
pub struct ContractFeeRates {
    /// The relayer's rate
    pub relayer_fee_rate: ContractFixedPoint,
    /// The protocol's rate
    pub protocol_fee_rate: ContractFixedPoint,
}

/// An external transfer on the wire.
#[derive(Clone, Copy, Debug, PartialEq, Eq, Structural, Hash)]
pub struct ContractExternalTransfer {
    /// The outside account
    pub account_addr: EvmAddress,
    /// The token
    pub mint: EvmAddress,
    /// The amount
    pub amount: U256,
    /// Whether tokens leave the pool
    pub is_withdrawal: bool,
}

/// Two field words on the wire, low word first.
#[derive(Clone, Copy, Debug, PartialEq, Eq, Structural, Hash)]
pub struct ContractWordPair {
    /// The low word
    pub low: Scalar,
    /// The high word
    pub high: Scalar,
}

/// A signing key on the wire: each coordinate as two words.
#[derive(Clone, Copy, Debug, PartialEq, Eq, Structural, Hash)]
pub struct ContractPublicSigningKey {
    /// The words of the x coordinate
    pub x: ContractWordPair,
    /// The words of the y coordinate
    pub y: ContractWordPair,
}

/// A point of the embedded curve on the wire.
#[derive(Clone, Copy, Debug, PartialEq, Eq, Structural, Hash)]
pub struct ContractBabyJubJubPoint {
    /// The x coordinate
    pub x: Scalar,
    /// The y coordinate
    pub y: Scalar,
}

/// An encryption key on the wire.
#[derive(Clone, Copy, Debug, PartialEq, Eq, Structural, Hash)]
pub struct ContractPublicEncryptionKey {
    /// The x coordinate
    pub x: Scalar,
    /// The y coordinate
    pub y: Scalar,
}

/// The ciphertext of a note on the wire: the ephemeral key, then the three
/// encrypted scalars.
#[derive(Clone, Copy, Debug, PartialEq, Eq, Structural, Hash)]
pub struct ContractNoteCiphertext(
    pub ContractBabyJubJubPoint,
    pub Scalar,
    pub Scalar,
    pub Scalar,
);

/// A proof on the wire.
#[derive(Debug)]
pub struct ContractProof {
    /// Commitments to the wire polynomials, `NUM_WIRE_TYPES` of them
    pub wire_comms: Vec<G1Affine>,
    /// Commitment to the grand product polynomial
    pub z_comm: G1Affine,
    /// Commitments to the parts of the quotient, `NUM_WIRE_TYPES` of them
    pub quotient_comms: Vec<G1Affine>,
    /// The opening at the challenge point
    pub w_zeta: G1Affine,
    /// The opening at the next point
    pub w_zeta_omega: G1Affine,
    /// Evaluations of the wire polynomials, `NUM_WIRE_TYPES` of them
    pub wire_evals: Vec<Scalar>,
    /// Evaluations of the permutation polynomials, `NUM_SIGMA_EVALS` of them
    pub sigma_evals: Vec<Scalar>,
    /// Evaluation of the grand product at the next point
    pub z_bar: Scalar,
}

impl ContractProof {
    /// Whether every part has the length that the contract expects.
    pub open spec fn wf(&self) -> bool {
        &&& self.wire_comms@.len() == NUM_WIRE_TYPES
        &&& self.quotient_comms@.len() == NUM_WIRE_TYPES
        &&& self.wire_evals@.len() == NUM_WIRE_TYPES
        &&& self.sigma_evals@.len() == NUM_SIGMA_EVALS
    }
}

/// A linking proof on the wire.
#[derive(Clone, Copy, Debug, PartialEq, Eq, Structural, Hash)]
pub struct ContractLinkingProof {
    /// Commitment to the quotient of the linking polynomial
    pub linking_quotient_poly_comm: G1Affine,
    /// Opening of the linking polynomial
    pub linking_poly_opening: G1Affine,
}

/// The proofs of a match between two orders of the pool.
#[derive(Debug)]
pub struct ContractMatchProofs {
    /// The first party's commitments
    pub valid_commitments_0: ContractProof,
    /// The first party's reblind
    pub valid_reblind_0: ContractProof,
    /// The second party's commitments
    pub valid_commitments_1: ContractProof,
    /// The second party's reblind
    pub valid_reblind_1: ContractProof,
    /// The settlement
    pub valid_match_settle: ContractProof,
}

/// The linking proofs of a match between two orders of the pool.
#[derive(Clone, Copy, Debug, PartialEq, Eq, Structural, Hash)]
pub struct ContractMatchLinkingProofs {
    /// First party: reblind to commitments
    pub valid_reblind_commitments_0: ContractLinkingProof,
    /// First party: commitments to settlement
    pub valid_commitments_match_settle_0: ContractLinkingProof,
    /// Second party: reblind to commitments
    pub valid_reblind_commitments_1: ContractLinkingProof,
    /// Second party: commitments to settlement
    pub valid_commitments_match_settle_1: ContractLinkingProof,
}

/// The proofs of a match against an outside party.
#[derive(Debug)]
pub struct ContractMatchAtomicProofs {
    /// The internal party's commitments
    pub valid_commitments: ContractProof,
    /// The internal party's reblind
    pub valid_reblind: ContractProof,
    /// The settlement
    pub valid_match_settle_atomic: ContractProof,
}

/// The linking proofs of a match against an outside party.
#[derive(Clone, Copy, Debug, PartialEq, Eq, Structural, Hash)]
pub struct ContractMatchAtomicLinkingProofs {
    /// Reblind to commitments
    pub valid_reblind_commitments: ContractLinkingProof,
    /// Commitments to settlement
    pub valid_commitments_match_settle_atomic: ContractLinkingProof,
}

/// What authorises an external transfer, on the wire.
#[derive(Debug)]
pub struct ContractTransferAuxData {
    /// The nonce of a deposit's permit
    pub permit_nonce: Option<U256>,
    /// The deadline of a deposit's permit
    pub permit_deadline: Option<U256>,
    /// The signature of a deposit's permit
    pub permit_signature: Option<Vec<u8>>,
    /// The signature over a withdrawal
    pub transfer_signature: Option<Vec<u8>>,
}

/// Statement of a wallet's creation, on the wire.
#[derive(Debug)]
pub struct ContractValidWalletCreateStatement {
    /// Commitment to the shares of the new wallet
    pub wallet_share_commitment: Scalar,
    /// The public share of the new wallet
    pub public_wallet_shares: Vec<Scalar>,
}

/// Statement of a wallet's update, on the wire.
#[derive(Debug)]
pub struct ContractValidWalletUpdateStatement {
    /// Nullifier of the shares before the update
    pub old_shares_nullifier: Scalar,
    /// Commitment to the shares after the update
    pub new_wallet_commitment: Scalar,
    /// The public share after the update
    pub new_public_shares: Vec<Scalar>,
    /// Root of the tree that holds the old commitment
    pub merkle_root: Scalar,
    /// The transfer that the update makes, if any
    pub external_transfer: Option<ContractExternalTransfer>,
    /// The root key before the update
    pub old_pk_root: ContractPublicSigningKey,
}

/// Statement of a reblind, on the wire.
#[derive(Clone, Copy, Debug, PartialEq, Eq, Structural, Hash)]
pub struct ContractValidReblindStatement {
    /// Nullifier of the shares before the reblind
    pub original_shares_nullifier: Scalar,
    /// Commitment to the private share after the reblind
    pub reblinded_private_shares_commitment: Scalar,
    /// Root of the tree that holds the old commitment
    pub merkle_root: Scalar,
}

/// Statement of an order's commitments, on the wire.
#[derive(Clone, Copy, Debug, PartialEq, Eq, Structural, Hash)]
pub struct ContractValidCommitmentsStatement {
    /// Where the settlement will write
    pub indices: ContractOrderSettlementIndices,
}

/// Statement of a match between two orders of the pool, on the wire.
#[derive(Debug)]
pub struct ContractValidMatchSettleStatement {
    /// The first party's public share after the match
    pub party0_modified_shares: Vec<Scalar>,
    /// The second party's public share after the match
    pub party1_modified_shares: Vec<Scalar>,
    /// Where the match writes in the first party's wallet
    pub party0_indices: ContractOrderSettlementIndices,
    /// Where the match writes in the second party's wallet
    pub party1_indices: ContractOrderSettlementIndices,
    /// The protocol's fee rate
    pub protocol_fee: Scalar,
}

/// Statement of a match against an outside party, on the wire.
#[derive(Debug)]
pub struct ContractValidMatchSettleAtomicStatement {
    /// The match
    pub match_result: ContractExternalMatchResult,
    /// The fees that the external party pays
    pub external_party_fees: ContractFeeTake,
    /// The internal party's public share after the match
    pub internal_party_modified_shares: Vec<Scalar>,
    /// Where the match writes in the internal party's wallet
    pub internal_party_indices: ContractOrderSettlementIndices,
    /// The protocol's fee rate
    pub protocol_fee: Scalar,
    /// Where the relayer takes its fee
    pub relayer_fee_address: EvmAddress,
}

/// Statement of a match against an outside party whose size is chosen at
/// settlement, on the wire.
#[derive(Debug)]
pub struct ContractValidMalleableMatchSettleAtomicStatement {
    /// The match and its bounds
    pub match_result: ContractBoundedMatchResult,
    /// The fee rates of the external party
    pub external_fee_rates: ContractFeeRates,
    /// The fee rates of the internal party
    pub internal_fee_rates: ContractFeeRates,
    /// The internal party's public share before the match
    pub internal_party_public_shares: Vec<Scalar>,
    /// Where the relayer takes its fee
    pub relayer_fee_address: EvmAddress,
}

/// Statement of a fee paid from one wallet of the pool to another, on the
/// wire.
#[derive(Debug)]
pub struct ContractValidRelayerFeeSettlementStatement {
    /// Root of the tree that holds the sender's commitment
    pub sender_root: Scalar,
    /// Root of the tree that holds the recipient's commitment
    pub recipient_root: Scalar,
    /// Nullifier of the sender's shares
    pub sender_nullifier: Scalar,
    /// Nullifier of the recipient's shares
    pub recipient_nullifier: Scalar,
    /// Commitment to the sender's new shares
    pub sender_wallet_commitment: Scalar,
    /// Commitment to the recipient's new shares
    pub recipient_wallet_commitment: Scalar,
    /// The sender's new public share
    pub sender_updated_public_shares: Vec<Scalar>,
    /// The recipient's new public share
    pub recipient_updated_public_shares: Vec<Scalar>,
    /// The recipient's root key
    pub recipient_pk_root: ContractPublicSigningKey,
}

/// Statement of a fee paid into a note, on the wire.
#[derive(Debug)]
pub struct ContractValidOfflineFeeSettlementStatement {
    /// Root of the tree that holds the payer's commitment
    pub merkle_root: Scalar,
    /// Nullifier of the payer's shares
    pub nullifier: Scalar,
    /// Commitment to the payer's new shares
    pub new_wallet_commitment: Scalar,
    /// The payer's new public share
    pub updated_wallet_public_shares: Vec<Scalar>,
    /// The note, encrypted
    pub note_ciphertext: ContractNoteCiphertext,
    /// Commitment to the note
    pub note_commitment: Scalar,
    /// The protocol's key
    pub protocol_key: ContractPublicEncryptionKey,
    /// Whether the fee is the protocol's
    pub is_protocol_fee: bool,
}

/// Statement of a note redeemed into a wallet, on the wire.
#[derive(Debug)]
pub struct ContractValidFeeRedemptionStatement {
    /// Root of the tree that holds the wallet's commitment
    pub wallet_root: Scalar,
    /// Root of the tree that holds the note's commitment
    pub note_root: Scalar,
    /// Nullifier of the wallet's shares
    pub nullifier: Scalar,
    /// Nullifier of the note
    pub note_nullifier: Scalar,
    /// Commitment to the wallet's new shares
    pub new_shares_commitment: Scalar,
    /// The wallet's new public share
    pub new_wallet_public_shares: Vec<Scalar>,
    /// The root key of the recipient
    pub old_pk_root: ContractPublicSigningKey,
}

/// What a party to a match hands in with its order: the statements of its
/// validity proofs.
#[derive(Clone, Copy, Debug, PartialEq, Eq, Structural, Hash)]
pub struct MatchPayload {
    /// Statement of the order's commitments
    pub valid_commitments_statement: ContractValidCommitmentsStatement,
    /// Statement of the wallet's reblind
    pub valid_reblind_statement: ContractValidReblindStatement,
}

} // verus!
