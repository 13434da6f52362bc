//! Conversions of proofs, statements and transfer authorisations to the
//! contract's types.

use crate::contract_types::{ContractLinkingProof, ContractMatchAtomicLinkingProofs,
    ContractMatchAtomicProofs, ContractMatchLinkingProofs, ContractMatchProofs,
    ContractOrderSettlementIndices, ContractProof, ContractTransferAuxData,
    ContractValidCommitmentsStatement, ContractValidFeeRedemptionStatement,
    ContractValidMalleableMatchSettleAtomicStatement, ContractValidMatchSettleAtomicStatement,
    ContractValidMatchSettleStatement, ContractValidOfflineFeeSettlementStatement,
    ContractValidReblindStatement, ContractValidRelayerFeeSettlementStatement,
    ContractValidWalletCreateStatement, ContractValidWalletUpdateStatement, NUM_SIGMA_EVALS,
    NUM_WIRE_TYPES};
use crate::conversion::{biguint_to_address, spec_biguint_to_address,
    spec_to_contract_bounded_match_result, spec_to_contract_external_match_result,
    spec_to_contract_external_transfer, spec_to_contract_fee_rates, spec_to_contract_fee_take,
    spec_to_contract_order_settlement_indices, spec_to_contract_public_encryption_key,
    spec_to_contract_public_signing_key, to_contract_bounded_match_result,
    to_contract_external_match_result, to_contract_external_transfer, to_contract_fee_rates,
    to_contract_fee_take, to_contract_note_ciphertext, to_contract_order_settlement_indices,
    to_contract_public_encryption_key, to_contract_public_signing_key, ConversionError};
use crate::contract_types::{ContractBabyJubJubPoint, ContractNoteCiphertext};
use crate::scalar::Scalar;
use crate::statements::{BigUint, G1Affine, MatchBundle, OrderValidityProofBundle, PlonkLinkProof,
    PlonkProof, TransferAuth, ValidCommitmentsStatement, ValidFeeRedemptionStatement,
    ValidMalleableMatchSettleAtomicStatement, ValidMatchSettleAtomicStatement,
    ValidMatchSettleStatement, ValidOfflineFeeSettlementStatement, ValidReblindStatement,
    ValidRelayerFeeSettlementStatement, ValidWalletCreateStatement, ValidWalletUpdateStatement};
use crate::uint256::{limbs_value, pow2_256, pow2_64, U256};
use crate::wallet::copy_vec;
use crate::wallet_share::WalletShare;
use vstd::prelude::*;

verus! {

/// The points of a sequence of commitments, where there are exactly `n`;
/// `InvalidLength` else.
pub fn try_unwrap_commitments(comms: &Vec<G1Affine>, n: usize) -> (r: Result<
    Vec<G1Affine>,
    ConversionError,
>)
    ensures
        comms@.len() == n ==> (r matches Ok(v) && v@ == comms@),
        comms@.len() != n ==> r == Err::<Vec<G1Affine>, ConversionError>(
            ConversionError::InvalidLength,
        ),
{
    if comms.len() == n {
        Ok(copy_vec(comms))
    } else {
        Err(ConversionError::InvalidLength)
    }
}

/// The field elements of a sequence of scalars, where there are exactly
/// `n`; `InvalidLength` else.
pub fn try_unwrap_scalars(scalars: &Vec<Scalar>, n: usize) -> (r: Result<
    Vec<Scalar>,
    ConversionError,
>)
    ensures
        scalars@.len() == n ==> (r matches Ok(v) && v@ == scalars@),
        scalars@.len() != n ==> r == Err::<Vec<Scalar>, ConversionError>(
            ConversionError::InvalidLength,
        ),
{
    if scalars.len() == n {
        Ok(copy_vec(scalars))
    } else {
        Err(ConversionError::InvalidLength)
    }
}

/// The scalars of a share, as the wire holds them.
pub fn wallet_shares_to_scalar_vec(shares: &WalletShare) -> (r: Vec<Scalar>)
    ensures
        r@ == shares@,
{
    shares.to_scalars()
}

/// Whether every part of a proof has the length that the contract expects.
pub open spec fn proof_fits(proof: PlonkProof) -> bool {
    &&& proof.wires_poly_comms@.len() == NUM_WIRE_TYPES
    &&& proof.split_quot_poly_comms@.len() == NUM_WIRE_TYPES
    &&& proof.poly_evals.wires_evals@.len() == NUM_WIRE_TYPES
    &&& proof.poly_evals.wire_sigma_evals@.len() == NUM_SIGMA_EVALS
}

/// Whether `c` is the wire form of `proof`.
pub open spec fn is_contract_proof(proof: PlonkProof, c: ContractProof) -> bool {
    &&& c.wire_comms@ == proof.wires_poly_comms@
    &&& c.z_comm == proof.prod_perm_poly_comm
    &&& c.quotient_comms@ == proof.split_quot_poly_comms@
    &&& c.w_zeta == proof.opening_proof
    &&& c.w_zeta_omega == proof.shifted_opening_proof
    &&& c.wire_evals@ == proof.poly_evals.wires_evals@
    &&& c.sigma_evals@ == proof.poly_evals.wire_sigma_evals@
    &&& c.z_bar == proof.poly_evals.perm_next_eval
}

/// Convert a proof to its wire form; `InvalidLength` where a part of it
/// has not the length that the contract expects.
pub fn to_contract_proof(proof: &PlonkProof) -> (r: Result<ContractProof, ConversionError>)
    ensures
        proof_fits(*proof) ==> (r matches Ok(c) && is_contract_proof(*proof, c) && c.wf()),
        !proof_fits(*proof) ==> (r matches Err(e) && e == ConversionError::InvalidLength),
{
    let wire_comms = match try_unwrap_commitments(&proof.wires_poly_comms, NUM_WIRE_TYPES) {
        Ok(v) => v,
        Err(e) => {
            return Err(e);
        },
    };
    let quotient_comms = match try_unwrap_commitments(
        &proof.split_quot_poly_comms,
        NUM_WIRE_TYPES,
    ) {
        Ok(v) => v,
        Err(e) => {
            return Err(e);
        },
    };
    let wire_evals = match try_unwrap_scalars(&proof.poly_evals.wires_evals, NUM_WIRE_TYPES) {
        Ok(v) => v,
        Err(e) => {
            return Err(e);
        },
    };
    let sigma_evals = match try_unwrap_scalars(
        &proof.poly_evals.wire_sigma_evals,
        NUM_SIGMA_EVALS,
    ) {
        Ok(v) => v,
        Err(e) => {
            return Err(e);
        },
    };
    Ok(
        ContractProof {
            wire_comms,
            z_comm: proof.prod_perm_poly_comm,
            quotient_comms,
            w_zeta: proof.opening_proof,
            w_zeta_omega: proof.shifted_opening_proof,
            wire_evals,
            sigma_evals,
            z_bar: proof.poly_evals.perm_next_eval,
        },
    )
}

/// The wire form of a linking proof.
pub open spec fn spec_to_contract_link_proof(proof: PlonkLinkProof) -> ContractLinkingProof {
    ContractLinkingProof {
        linking_poly_opening: proof.opening_proof,
        linking_quotient_poly_comm: proof.quotient_commitment,
    }
}

/// Convert a linking proof to its wire form. Every linking proof fits.
pub fn to_contract_link_proof(proof: &PlonkLinkProof) -> (r: Result<
    ContractLinkingProof,
    ConversionError,
>)
    ensures
        r == Ok::<ContractLinkingProof, ConversionError>(spec_to_contract_link_proof(*proof)),
{
    Ok(
        ContractLinkingProof {
            linking_poly_opening: proof.opening_proof,
            linking_quotient_poly_comm: proof.quotient_commitment,
        },
    )
}

/// Collect the proofs of a match between two orders of the pool;
/// `InvalidLength` where one of them does not fit.
pub fn build_match_proofs(
    party0_validity_proofs: &OrderValidityProofBundle,
    party1_validity_proofs: &OrderValidityProofBundle,
    match_settle_proof: &PlonkProof,
) -> (r: Result<ContractMatchProofs, ConversionError>)
    ensures
        (proof_fits(party0_validity_proofs.commitment_proof) && proof_fits(
            party0_validity_proofs.reblind_proof,
        ) && proof_fits(party1_validity_proofs.commitment_proof) && proof_fits(
            party1_validity_proofs.reblind_proof,
        ) && proof_fits(*match_settle_proof)) ==> (r matches Ok(c) && {
            &&& is_contract_proof(party0_validity_proofs.commitment_proof, c.valid_commitments_0)
            &&& is_contract_proof(party0_validity_proofs.reblind_proof, c.valid_reblind_0)
            &&& is_contract_proof(party1_validity_proofs.commitment_proof, c.valid_commitments_1)
            &&& is_contract_proof(party1_validity_proofs.reblind_proof, c.valid_reblind_1)
            &&& is_contract_proof(*match_settle_proof, c.valid_match_settle)
        }),
        !(proof_fits(party0_validity_proofs.commitment_proof) && proof_fits(
            party0_validity_proofs.reblind_proof,
        ) && proof_fits(party1_validity_proofs.commitment_proof) && proof_fits(
            party1_validity_proofs.reblind_proof,
        ) && proof_fits(*match_settle_proof)) ==> (r matches Err(e) && e
            == ConversionError::InvalidLength),
{
    let valid_commitments_0 = match to_contract_proof(&party0_validity_proofs.commitment_proof) {
        Ok(p) => p,
        Err(e) => {
            return Err(e);
        },
    };
    let valid_reblind_0 = match to_contract_proof(&party0_validity_proofs.reblind_proof) {
        Ok(p) => p,
        Err(e) => {
            return Err(e);
        },
    };
    let valid_commitments_1 = match to_contract_proof(&party1_validity_proofs.commitment_proof) {
        Ok(p) => p,
        Err(e) => {
            return Err(e);
        },
    };
    let valid_reblind_1 = match to_contract_proof(&party1_validity_proofs.reblind_proof) {
        Ok(p) => p,
        Err(e) => {
            return Err(e);
        },
    };
    let valid_match_settle = match to_contract_proof(match_settle_proof) {
        Ok(p) => p,
        Err(e) => {
            return Err(e);
        },
    };
    Ok(
        ContractMatchProofs {
            valid_commitments_0,
            valid_reblind_0,
            valid_commitments_1,
            valid_reblind_1,
            valid_match_settle,
        },
    )
}

/// Collect the linking proofs of a match between two orders of the pool.
pub fn build_match_linking_proofs(
    party0_validity_proofs: &OrderValidityProofBundle,
    party1_validity_proofs: &OrderValidityProofBundle,
    match_bundle: &MatchBundle,
) -> (r: Result<ContractMatchLinkingProofs, ConversionError>)
    ensures
        r == Ok::<ContractMatchLinkingProofs, ConversionError>(
            ContractMatchLinkingProofs {
                valid_reblind_commitments_0: spec_to_contract_link_proof(
                    party0_validity_proofs.linking_proof,
                ),
                valid_reblind_commitments_1: spec_to_contract_link_proof(
                    party1_validity_proofs.linking_proof,
                ),
                valid_commitments_match_settle_0: spec_to_contract_link_proof(
                    match_bundle.commitments_link0,
                ),
                valid_commitments_match_settle_1: spec_to_contract_link_proof(
                    match_bundle.commitments_link1,
                ),
            },
        ),
{
    let valid_reblind_commitments_0 = match to_contract_link_proof(
        &party0_validity_proofs.linking_proof,
    ) {
        Ok(p) => p,
        Err(e) => {
            return Err(e);
        },
    };
    let valid_reblind_commitments_1 = match to_contract_link_proof(
        &party1_validity_proofs.linking_proof,
    ) {
        Ok(p) => p,
        Err(e) => {
            return Err(e);
        },
    };
    let valid_commitments_match_settle_0 = match to_contract_link_proof(
        &match_bundle.commitments_link0,
    ) {
        Ok(p) => p,
        Err(e) => {
            return Err(e);
        },
    };
    let valid_commitments_match_settle_1 = match to_contract_link_proof(
        &match_bundle.commitments_link1,
    ) {
        Ok(p) => p,
        Err(e) => {
            return Err(e);
        },
    };
    Ok(
        ContractMatchLinkingProofs {
            valid_reblind_commitments_0,
            valid_reblind_commitments_1,
            valid_commitments_match_settle_0,
            valid_commitments_match_settle_1,
        },
    )
}

/// Collect the proofs of a match against an outside party; `InvalidLength`
/// where one of them does not fit.
pub fn build_atomic_match_proofs(
    internal_party_validity_proofs: &OrderValidityProofBundle,
    atomic_match_proof: &PlonkProof,
) -> (r: Result<ContractMatchAtomicProofs, ConversionError>)
    ensures
        (proof_fits(internal_party_validity_proofs.commitment_proof) && proof_fits(
            internal_party_validity_proofs.reblind_proof,
        ) && proof_fits(*atomic_match_proof)) ==> (r matches Ok(c) && {
            &&& is_contract_proof(
                internal_party_validity_proofs.commitment_proof,
                c.valid_commitments,
            )
            &&& is_contract_proof(internal_party_validity_proofs.reblind_proof, c.valid_reblind)
            &&& is_contract_proof(*atomic_match_proof, c.valid_match_settle_atomic)
        }),
        !(proof_fits(internal_party_validity_proofs.commitment_proof) && proof_fits(
            internal_party_validity_proofs.reblind_proof,
        ) && proof_fits(*atomic_match_proof)) ==> (r matches Err(e) && e
            == ConversionError::InvalidLength),
{
    let valid_commitments = match to_contract_proof(
        &internal_party_validity_proofs.commitment_proof,
    ) {
        Ok(p) => p,
        Err(e) => {
            return Err(e);
        },
    };
    let valid_reblind = match to_contract_proof(&internal_party_validity_proofs.reblind_proof) {
        Ok(p) => p,
        Err(e) => {
            return Err(e);
        },
    };
    let valid_match_settle_atomic = match to_contract_proof(atomic_match_proof) {
        Ok(p) => p,
        Err(e) => {
            return Err(e);
        },
    };
    Ok(ContractMatchAtomicProofs { valid_commitments, valid_reblind, valid_match_settle_atomic })
}

/// Collect the linking proofs of a match against an outside party.
pub fn build_atomic_match_linking_proofs(
    internal_party_validity_proofs: &OrderValidityProofBundle,
    commitments_link_proof: &PlonkLinkProof,
) -> (r: Result<ContractMatchAtomicLinkingProofs, ConversionError>)
    ensures
        r == Ok::<ContractMatchAtomicLinkingProofs, ConversionError>(
            ContractMatchAtomicLinkingProofs {
                valid_reblind_commitments: spec_to_contract_link_proof(
                    internal_party_validity_proofs.linking_proof,
                ),
                valid_commitments_match_settle_atomic: spec_to_contract_link_proof(
                    *commitments_link_proof,
                ),
            },
        ),
{
    let valid_reblind_commitments = match to_contract_link_proof(
        &internal_party_validity_proofs.linking_proof,
    ) {
        Ok(p) => p,
        Err(e) => {
            return Err(e);
        },
    };
    let valid_commitments_match_settle_atomic = match to_contract_link_proof(
        commitments_link_proof,
    ) {
        Ok(p) => p,
        Err(e) => {
            return Err(e);
        },
    };
    Ok(
        ContractMatchAtomicLinkingProofs {
            valid_reblind_commitments,
            valid_commitments_match_settle_atomic,
        },
    )
}

/// Convert the statement of a wallet's creation.
pub fn to_contract_valid_wallet_create_statement(statement: &ValidWalletCreateStatement) -> (r:
    ContractValidWalletCreateStatement)
    ensures
        r.wallet_share_commitment == statement.wallet_share_commitment,
        r.public_wallet_shares@ == statement.public_wallet_shares@,
{
    let public_wallet_shares = wallet_shares_to_scalar_vec(&statement.public_wallet_shares);
    ContractValidWalletCreateStatement {
        wallet_share_commitment: statement.wallet_share_commitment,
        public_wallet_shares,
    }
}

/// Convert the statement of a wallet's update. The default transfer, which
/// stands for none, becomes no transfer. `InvalidLength` where the account
/// or the token of a transfer does not fit an address.
pub fn to_contract_valid_wallet_update_statement(statement: &ValidWalletUpdateStatement) -> (r:
    Result<ContractValidWalletUpdateStatement, ConversionError>)
    ensures
        (!statement.external_transfer.spec_is_default() && spec_to_contract_external_transfer(
            statement.external_transfer,
        ) is Err) ==> (r matches Err(e) && e == ConversionError::InvalidLength),
        (statement.external_transfer.spec_is_default() || spec_to_contract_external_transfer(
            statement.external_transfer,
        ) is Ok) ==> (r matches Ok(c) && {
            &&& c.old_shares_nullifier == statement.old_shares_nullifier
            &&& c.new_wallet_commitment == statement.new_wallet_commitment
            &&& c.new_public_shares@ == statement.new_public_shares@
            &&& c.merkle_root == statement.merkle_root
            &&& c.external_transfer == (if statement.external_transfer.spec_is_default() {
                None
            } else {
                Some(spec_to_contract_external_transfer(statement.external_transfer).unwrap())
            })
            &&& Ok::<_, ConversionError>(c.old_pk_root) == spec_to_contract_public_signing_key(
                statement.old_pk_root,
            )
        }),
{
    let new_public_shares = wallet_shares_to_scalar_vec(&statement.new_public_shares);
    let external_transfer = if statement.external_transfer.is_default() {
        None
    } else {
        match to_contract_external_transfer(&statement.external_transfer) {
            Ok(t) => Some(t),
            Err(e) => {
                return Err(e);
            },
        }
    };
    let old_pk_root = match to_contract_public_signing_key(&statement.old_pk_root) {
        Ok(k) => k,
        Err(e) => {
            return Err(e);
        },
    };
    Ok(
        ContractValidWalletUpdateStatement {
            old_shares_nullifier: statement.old_shares_nullifier,
            new_wallet_commitment: statement.new_wallet_commitment,
            new_public_shares,
            merkle_root: statement.merkle_root,
            external_transfer,
            old_pk_root,
        },
    )
}

/// The wire form of the statement of a reblind.
pub open spec fn spec_to_contract_valid_reblind_statement(statement: ValidReblindStatement)
    -> ContractValidReblindStatement {
    ContractValidReblindStatement {
        original_shares_nullifier: statement.original_shares_nullifier,
        reblinded_private_shares_commitment: statement.reblinded_private_share_commitment,
        merkle_root: statement.merkle_root,
    }
}

/// Convert the statement of a reblind.
pub fn to_contract_valid_reblind_statement(statement: &ValidReblindStatement) -> (r:
    ContractValidReblindStatement)
    ensures
        r == spec_to_contract_valid_reblind_statement(*statement),
{
    ContractValidReblindStatement {
        original_shares_nullifier: statement.original_shares_nullifier,
        reblinded_private_shares_commitment: statement.reblinded_private_share_commitment,
        merkle_root: statement.merkle_root,
    }
}

/// Convert the statement of an order's commitments.
pub fn to_contract_valid_commitments_statement(statement: ValidCommitmentsStatement) -> (r:
    ContractValidCommitmentsStatement)
    ensures
        r == (ContractValidCommitmentsStatement {
            indices: spec_to_contract_order_settlement_indices(statement.indices),
        }),
{
    ContractValidCommitmentsStatement {
        indices: ContractOrderSettlementIndices {
            balance_send: statement.indices.balance_send as u64,
            balance_receive: statement.indices.balance_receive as u64,
            order: statement.indices.order as u64,
        },
    }
}

/// Convert the statement of a match between two orders of the pool.
pub fn to_contract_valid_match_settle_statement(statement: &ValidMatchSettleStatement) -> (r:
    ContractValidMatchSettleStatement)
    ensures
        r.party0_modified_shares@ == statement.party0_modified_shares@,
        r.party1_modified_shares@ == statement.party1_modified_shares@,
        r.party0_indices == spec_to_contract_order_settlement_indices(statement.party0_indices),
        r.party1_indices == spec_to_contract_order_settlement_indices(statement.party1_indices),
        r.protocol_fee == statement.protocol_fee.repr,
{
    let party0_modified_shares = wallet_shares_to_scalar_vec(&statement.party0_modified_shares);
    let party1_modified_shares = wallet_shares_to_scalar_vec(&statement.party1_modified_shares);
    let party0_indices = to_contract_order_settlement_indices(&statement.party0_indices);
    let party1_indices = to_contract_order_settlement_indices(&statement.party1_indices);
    ContractValidMatchSettleStatement {
        party0_modified_shares,
        party1_modified_shares,
        party0_indices,
        party1_indices,
        protocol_fee: statement.protocol_fee.repr,
    }
}

/// Convert the statement of a match against an outside party;
/// `InvalidLength` where a token of the match or the relayer's fee address
/// does not fit an address.
pub fn to_contract_valid_match_settle_atomic_statement(
    statement: &ValidMatchSettleAtomicStatement,
) -> (r: Result<ContractValidMatchSettleAtomicStatement, ConversionError>)
    ensures
        (spec_to_contract_external_match_result(statement.match_result) is Ok
            && spec_biguint_to_address(statement.relayer_fee_address) is Ok) ==> (r matches Ok(c)
            && {
            &&& Ok::<_, ConversionError>(c.match_result) == spec_to_contract_external_match_result(
                statement.match_result,
            )
            &&& Ok::<_, ConversionError>(c.external_party_fees) == spec_to_contract_fee_take(
                statement.external_party_fees,
            )
            &&& c.internal_party_modified_shares@ == statement.internal_party_modified_shares@
            &&& c.internal_party_indices == spec_to_contract_order_settlement_indices(
                statement.internal_party_indices,
            )
            &&& c.protocol_fee == statement.protocol_fee.repr
            &&& Ok::<_, ConversionError>(c.relayer_fee_address) == spec_biguint_to_address(
                statement.relayer_fee_address,
            )
        }),
        !(spec_to_contract_external_match_result(statement.match_result) is Ok
            && spec_biguint_to_address(statement.relayer_fee_address) is Ok) ==> (r matches Err(e)
            && e == ConversionError::InvalidLength),
{
    let internal_party_modified_shares = wallet_shares_to_scalar_vec(
        &statement.internal_party_modified_shares,
    );
    let internal_party_indices = to_contract_order_settlement_indices(
        &statement.internal_party_indices,
    );
    let match_result = match to_contract_external_match_result(&statement.match_result) {
        Ok(m) => m,
        Err(e) => {
            return Err(e);
        },
    };
    let external_party_fees = match to_contract_fee_take(&statement.external_party_fees) {
        Ok(f) => f,
        Err(e) => {
            return Err(e);
        },
    };
    let relayer_fee_address = match biguint_to_address(&statement.relayer_fee_address) {
        Ok(a) => a,
        Err(e) => {
            return Err(e);
        },
    };
    Ok(
        ContractValidMatchSettleAtomicStatement {
            match_result,
            external_party_fees,
            internal_party_modified_shares,
            internal_party_indices,
            protocol_fee: statement.protocol_fee.repr,
            relayer_fee_address,
        },
    )
}

/// Convert the statement of a match whose size is chosen at settlement;
/// `InvalidLength` where a token of the match or the relayer's fee address
/// does not fit an address.
pub fn to_contract_valid_malleable_match_settle_atomic_statement(
    statement: &ValidMalleableMatchSettleAtomicStatement,
) -> (r: Result<ContractValidMalleableMatchSettleAtomicStatement, ConversionError>)
    ensures
        (spec_to_contract_bounded_match_result(statement.bounded_match_result) is Ok
            && spec_biguint_to_address(statement.relayer_fee_address) is Ok) ==> (r matches Ok(c)
            && {
            &&& Ok::<_, ConversionError>(c.match_result) == spec_to_contract_bounded_match_result(
                statement.bounded_match_result,
            )
            &&& Ok::<_, ConversionError>(c.external_fee_rates) == spec_to_contract_fee_rates(
                statement.external_fee_rates,
            )
            &&& Ok::<_, ConversionError>(c.internal_fee_rates) == spec_to_contract_fee_rates(
                statement.internal_fee_rates,
            )
            &&& c.internal_party_public_shares@ == statement.internal_party_public_shares@
            &&& Ok::<_, ConversionError>(c.relayer_fee_address) == spec_biguint_to_address(
                statement.relayer_fee_address,
            )
        }),
        !(spec_to_contract_bounded_match_result(statement.bounded_match_result) is Ok
            && spec_biguint_to_address(statement.relayer_fee_address) is Ok) ==> (r matches Err(e)
            && e == ConversionError::InvalidLength),
{
    let internal_party_public_shares = wallet_shares_to_scalar_vec(
        &statement.internal_party_public_shares,
    );
    let match_result = match to_contract_bounded_match_result(&statement.bounded_match_result) {
        Ok(m) => m,
        Err(e) => {
            return Err(e);
        },
    };
    let external_fee_rates = match to_contract_fee_rates(&statement.external_fee_rates) {
        Ok(f) => f,
        Err(e) => {
            return Err(e);
        },
    };
    let internal_fee_rates = match to_contract_fee_rates(&statement.internal_fee_rates) {
        Ok(f) => f,
        Err(e) => {
            return Err(e);
        },
    };
    let relayer_fee_address = match biguint_to_address(&statement.relayer_fee_address) {
        Ok(a) => a,
        Err(e) => {
            return Err(e);
        },
    };
    Ok(
        ContractValidMalleableMatchSettleAtomicStatement {
            match_result,
            external_fee_rates,
            internal_fee_rates,
            internal_party_public_shares,
            relayer_fee_address,
        },
    )
}

/// Convert the statement of a fee paid from one wallet of the pool to
/// another. Every such statement fits.
pub fn to_contract_valid_relayer_fee_settlement_statement(
    statement: &ValidRelayerFeeSettlementStatement,
) -> (r: Result<ContractValidRelayerFeeSettlementStatement, ConversionError>)
    ensures
        r matches Ok(c) && {
            &&& c.sender_root == statement.sender_root
            &&& c.recipient_root == statement.recipient_root
            &&& c.sender_nullifier == statement.sender_nullifier
            &&& c.recipient_nullifier == statement.recipient_nullifier
            &&& c.sender_wallet_commitment == statement.sender_wallet_commitment
            &&& c.recipient_wallet_commitment == statement.recipient_wallet_commitment
            &&& c.sender_updated_public_shares@ == statement.sender_updated_public_shares@
            &&& c.recipient_updated_public_shares@ == statement.recipient_updated_public_shares@
            &&& Ok::<_, ConversionError>(c.recipient_pk_root)
                == spec_to_contract_public_signing_key(statement.recipient_pk_root)
        },
{
    let sender_updated_public_shares = wallet_shares_to_scalar_vec(
        &statement.sender_updated_public_shares,
    );
    let recipient_updated_public_shares = wallet_shares_to_scalar_vec(
        &statement.recipient_updated_public_shares,
    );
    let recipient_pk_root = match to_contract_public_signing_key(&statement.recipient_pk_root) {
        Ok(k) => k,
        Err(e) => {
            return Err(e);
        },
    };
    Ok(
        ContractValidRelayerFeeSettlementStatement {
            sender_root: statement.sender_root,
            recipient_root: statement.recipient_root,
            sender_nullifier: statement.sender_nullifier,
            recipient_nullifier: statement.recipient_nullifier,
            sender_wallet_commitment: statement.sender_wallet_commitment,
            recipient_wallet_commitment: statement.recipient_wallet_commitment,
            sender_updated_public_shares,
            recipient_updated_public_shares,
            recipient_pk_root,
        },
    )
}

/// Convert the statement of a fee paid into a note.
pub fn to_contract_valid_offline_fee_settlement_statement(
    statement: &ValidOfflineFeeSettlementStatement,
) -> (r: ContractValidOfflineFeeSettlementStatement)
    ensures
        r.merkle_root == statement.merkle_root,
        r.nullifier == statement.nullifier,
        r.new_wallet_commitment == statement.new_wallet_commitment,
        r.updated_wallet_public_shares@ == statement.updated_wallet_public_shares@,
        r.note_ciphertext == ContractNoteCiphertext(
            ContractBabyJubJubPoint {
                x: statement.note_ciphertext.ephemeral_key.x,
                y: statement.note_ciphertext.ephemeral_key.y,
            },
            statement.note_ciphertext.ciphertext@[0],
            statement.note_ciphertext.ciphertext@[1],
            statement.note_ciphertext.ciphertext@[2],
        ),
        r.note_commitment == statement.note_commitment,
        r.protocol_key == spec_to_contract_public_encryption_key(statement.protocol_key),
        r.is_protocol_fee == statement.is_protocol_fee,
{
    ContractValidOfflineFeeSettlementStatement {
        merkle_root: statement.merkle_root,
        nullifier: statement.nullifier,
        new_wallet_commitment: statement.new_wallet_commitment,
        updated_wallet_public_shares: wallet_shares_to_scalar_vec(
            &statement.updated_wallet_public_shares,
        ),
        note_ciphertext: to_contract_note_ciphertext(&statement.note_ciphertext),
        note_commitment: statement.note_commitment,
        protocol_key: to_contract_public_encryption_key(&statement.protocol_key),
        is_protocol_fee: statement.is_protocol_fee,
    }
}

/// Convert the statement of a note redeemed into a wallet. Every such
/// statement fits.
pub fn to_contract_valid_fee_redemption_statement(statement: &ValidFeeRedemptionStatement) -> (r:
    Result<ContractValidFeeRedemptionStatement, ConversionError>)
    ensures
        r matches Ok(c) && {
            &&& c.wallet_root == statement.wallet_root
            &&& c.note_root == statement.note_root
            &&& c.nullifier == statement.wallet_nullifier
            &&& c.note_nullifier == statement.note_nullifier
            &&& c.new_shares_commitment == statement.new_shares_commitment
            &&& c.new_wallet_public_shares@ == statement.new_wallet_public_shares@
            &&& Ok::<_, ConversionError>(c.old_pk_root) == spec_to_contract_public_signing_key(
                statement.recipient_root_key,
            )
        },
{
    let new_wallet_public_shares = wallet_shares_to_scalar_vec(
        &statement.new_wallet_public_shares,
    );
    let old_pk_root = match to_contract_public_signing_key(&statement.recipient_root_key) {
        Ok(k) => k,
        Err(e) => {
            return Err(e);
        },
    };
    Ok(
        ContractValidFeeRedemptionStatement {
            wallet_root: statement.wallet_root,
            note_root: statement.note_root,
            nullifier: statement.wallet_nullifier,
            note_nullifier: statement.note_nullifier,
            new_shares_commitment: statement.new_shares_commitment,
            new_wallet_public_shares,
            old_pk_root,
        },
    )
}

/// The number that a sequence of 64-bit digits stands for, least
/// significant digit first.
pub open spec fn digits_value(digits: Seq<u64>) -> nat
    decreases digits.len(),
{
    if digits.len() == 0 {
        0
    } else {
        (digits[0] as nat) + pow2_64() * digits_value(digits.drop_first())
    }
}

impl View for BigUint {
    type V = nat;

    open spec fn view(&self) -> nat {
        digits_value(self.digits@)
    }
}

/// The digit at a place, zero beyond the last digit.
pub open spec fn digit_at(digits: Seq<u64>, i: int) -> u64 {
    if 0 <= i < digits.len() {
        digits[i]
    } else {
        0
    }
}

proof fn lemma_digits_all_zero(digits: Seq<u64>)
    requires
        forall|i: int| 0 <= i < digits.len() ==> digits[i] == 0,
    ensures
        digits_value(digits) == 0,
    decreases digits.len(),
{
    if digits.len() > 0 {
        let tail = digits.drop_first();
        assert forall|i: int| 0 <= i < tail.len() implies tail[i] == 0 by {
            assert(tail[i] == digits[i + 1]);
        }
        lemma_digits_all_zero(tail);
    }
}

proof fn lemma_digits_some_nonzero(digits: Seq<u64>, k: int)
    requires
        0 <= k < digits.len(),
        digits[k] != 0,
    ensures
        digits_value(digits) >= 1,
    decreases digits.len(),
{
    let tail = digits.drop_first();
    if k > 0 {
        assert(tail[k - 1] == digits[k]);
        lemma_digits_some_nonzero(tail, k - 1);
    }
}

/// A number whose digits from the fifth on are zero is what its first four
/// digits stand for as limbs; any other is at least 2^256.
pub proof fn lemma_digits_value_bounds(digits: Seq<u64>)
    ensures
        (forall|i: int| 4 <= i < digits.len() ==> digits[i] == 0) ==> digits_value(digits)
            == limbs_value(
            digit_at(digits, 0),
            digit_at(digits, 1),
            digit_at(digits, 2),
            digit_at(digits, 3),
        ),
        (exists|i: int| 4 <= i < digits.len() && digits[i] != 0) ==> digits_value(digits)
            >= pow2_256(),
{
    let t0 = digits;
    let t1 = if t0.len() > 0 {
        t0.drop_first()
    } else {
        t0
    };
    let t2 = if t1.len() > 0 {
        t1.drop_first()
    } else {
        t1
    };
    let t3 = if t2.len() > 0 {
        t2.drop_first()
    } else {
        t2
    };
    let t4 = if t3.len() > 0 {
        t3.drop_first()
    } else {
        t3
    };
    let d0 = digit_at(digits, 0) as int;
    let d1 = digit_at(digits, 1) as int;
    let d2 = digit_at(digits, 2) as int;
    let d3 = digit_at(digits, 3) as int;
    let tail: int = if digits.len() > 4 {
        digits_value(t4) as int
    } else {
        0
    };
    let v3: int = d3 + 0x1_0000_0000_0000_0000 * tail;
    let v2: int = d2 + 0x1_0000_0000_0000_0000 * v3;
    let v1: int = d1 + 0x1_0000_0000_0000_0000 * v2;
    let v0: int = d0 + 0x1_0000_0000_0000_0000 * v1;
    assert(digits.len() > 1 ==> t1[0] == digits[1]);
    assert(digits.len() > 2 ==> t2[0] == digits[2]);
    assert(digits.len() > 3 ==> t3[0] == digits[3]);
    assert(digits.len() == 4 ==> t4.len() == 0 && digits_value(t4) == 0);
    assert(digits.len() > 3 ==> digits_value(t3) == t3[0] as int + 0x1_0000_0000_0000_0000
        * digits_value(t4));
    assert(digits.len() > 3 ==> digits_value(t3) == v3);
    assert(digits.len() > 2 ==> digits_value(t2) == v2);
    assert(digits.len() > 1 ==> digits_value(t1) == v1);
    assert(digits_value(t0) == v0);
    assert(v0 == d0 + d1 * 0x1_0000_0000_0000_0000 + d2
        * 0x1_0000_0000_0000_0000_0000_0000_0000_0000int + d3
        * 0x1_0000_0000_0000_0000_0000_0000_0000_0000_0000_0000_0000_0000int + tail
        * 0x1_0000_0000_0000_0000_0000_0000_0000_0000_0000_0000_0000_0000_0000_0000_0000_0000int)
        by (nonlinear_arith)
        requires
            v3 == d3 + 0x1_0000_0000_0000_0000 * tail,
            v2 == d2 + 0x1_0000_0000_0000_0000 * v3,
            v1 == d1 + 0x1_0000_0000_0000_0000 * v2,
            v0 == d0 + 0x1_0000_0000_0000_0000 * v1,
    ;
    if digits.len() > 4 {
        assert forall|i: int| 0 <= i < t4.len() implies t4[i] == digits[i + 4] by {}
        if forall|i: int| 4 <= i < digits.len() ==> digits[i] == 0 {
            assert forall|i: int| 0 <= i < t4.len() implies t4[i] == 0 by {
                assert(t4[i] == digits[i + 4]);
            }
            lemma_digits_all_zero(t4);
        } else {
            let k = choose|i: int| 4 <= i < digits.len() && digits[i] != 0;
            assert(t4[k - 4] == digits[k]);
            lemma_digits_some_nonzero(t4, k - 4);
        }
    }
}

/// The number as a 256-bit word; `InvalidUint` where it needs more bits.
pub fn biguint_to_u256(value: &BigUint) -> (r: Result<U256, ConversionError>)
    ensures
        value@ < pow2_256() ==> (r matches Ok(u) && u@ == value@),
        value@ >= pow2_256() ==> r == Err::<U256, ConversionError>(ConversionError::InvalidUint),
{
    let n = value.digits.len();
    let mut i: usize = 4;
    while i < n
        invariant
            4 <= i,
            n == value.digits@.len(),
            forall|j: int| 4 <= j < i && j < n ==> value.digits@[j] == 0,
        decreases n - i,
    {
        if value.digits[i] != 0 {
            proof {
                lemma_digits_value_bounds(value.digits@);
            }
            return Err(ConversionError::InvalidUint);
        }
        i = i + 1;
    }
    proof {
        lemma_digits_value_bounds(value.digits@);
    }
    let l0: u64 = if n > 0 {
        value.digits[0]
    } else {
        0
    };
    let l1: u64 = if n > 1 {
        value.digits[1]
    } else {
        0
    };
    let l2: u64 = if n > 2 {
        value.digits[2]
    } else {
        0
    };
    let l3: u64 = if n > 3 {
        value.digits[3]
    } else {
        0
    };
    Ok(U256 { l0, l1, l2, l3 })
}

/// Convert what authorises a transfer to its wire form. For a deposit the
/// nonce, the deadline and the signature of the permit are set, for a
/// withdrawal the signature over the transfer. `InvalidUint` where the nonce
/// or the deadline of a permit needs more than 256 bits.
pub fn to_contract_transfer_aux_data(data: TransferAuth) -> (r: Result<
    ContractTransferAuxData,
    ConversionError,
>)
    ensures
        match data {
            TransferAuth::Deposit(deposit) => {
                if deposit.permit_nonce@ < pow2_256() && deposit.permit_deadline@ < pow2_256() {
                    r matches Ok(c) && {
                        &&& c.permit_nonce matches Some(nonce) && nonce@ == deposit.permit_nonce@
                        &&& c.permit_deadline matches Some(deadline) && deadline@
                            == deposit.permit_deadline@
                        &&& c.permit_signature matches Some(sig) && sig@
                            == deposit.permit_signature@
                        &&& c.transfer_signature is None
                    }
                } else {
                    r matches Err(e) && e == ConversionError::InvalidUint
                }
            },
            TransferAuth::Withdrawal(withdrawal) => r matches Ok(c) && {
                &&& c.permit_nonce is None
                &&& c.permit_deadline is None
                &&& c.permit_signature is None
                &&& c.transfer_signature matches Some(sig) && sig@
                    == withdrawal.external_transfer_signature@
            },
        },
{
    match data {
        TransferAuth::Deposit(deposit) => {
            let permit_nonce = match biguint_to_u256(&deposit.permit_nonce) {
                Ok(u) => u,
                Err(e) => {
                    return Err(e);
                },
            };
            let permit_deadline = match biguint_to_u256(&deposit.permit_deadline) {
                Ok(u) => u,
                Err(e) => {
                    return Err(e);
                },
            };
            Ok(
                ContractTransferAuxData {
                    permit_nonce: Some(permit_nonce),
                    permit_deadline: Some(permit_deadline),
                    permit_signature: Some(deposit.permit_signature),
                    transfer_signature: None,
                },
            )
        },
        TransferAuth::Withdrawal(withdrawal) => Ok(
            ContractTransferAuxData {
                permit_nonce: None,
                permit_deadline: None,
                permit_signature: None,
                transfer_signature: Some(withdrawal.external_transfer_signature),
            },
        ),
    }
}

} // verus!
