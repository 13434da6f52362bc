//! Recovery of a wallet's public share from the statement of a call that
//! the contract has accepted.
//!
//! Every function here takes the statement as the contract's interface
//! decodes it. Calls that settle between two wallets carry two shares; the
//! one whose last scalar is the caller's public blinder share is the
//! caller's.

use crate::contract_types::{ContractValidFeeRedemptionStatement,
    ContractValidMalleableMatchSettleAtomicStatement, ContractValidMatchSettleAtomicStatement,
    ContractValidMatchSettleStatement, ContractValidOfflineFeeSettlementStatement,
    ContractValidRelayerFeeSettlementStatement, ContractValidWalletCreateStatement,
    ContractValidWalletUpdateStatement, MatchPayload};
use crate::conversion::{spec_to_circuit_bounded_match_result, spec_to_circuit_fee_rates,
    spec_to_circuit_order_settlement_indices, spec_u256_to_amount, to_circuit_bounded_match_result,
    to_circuit_fee_rates, to_circuit_order_settlement_indices, u256_to_amount, ConversionError};
use crate::match_types::OrderSettlementIndices;
use crate::scalar::{all_wf, values, Scalar};
use crate::uint256::U256;
use crate::wallet_share::{apply_match_to_shares, copy_scalars, scalars_canonical,
    spec_apply_match, WalletShare, MAX_BALANCES, MAX_ORDERS, WALLET_SHARE_LEN};
use vstd::prelude::*;

verus! {

/// Why a share could not be recovered from a call.
#[derive(Clone, Copy, Debug, PartialEq, Eq, Structural, Hash)]
pub enum DarkpoolClientError {
    /// A value of the call does not fit the engine's type
    Conversion(ConversionError),
    /// Neither share of the call ends in the caller's blinder share
    BlinderNotFound,
}

impl DarkpoolClientError {
    /// The words that say what went wrong.
    pub open spec fn spec_description(self) -> Seq<char> {
        match self {
            DarkpoolClientError::Conversion(ConversionError::InvalidLength) => {
                "conversion error: invalid length"@
            },
            DarkpoolClientError::Conversion(ConversionError::InvalidUint) => {
                "conversion error: invalid integer"@
            },
            DarkpoolClientError::BlinderNotFound => "blinder not found in calldata"@,
        }
    }

    /// Whether the same call may succeed when read again: never. A value out
    /// of range stays out of range, and a call without the caller's blinder
    /// share is not the caller's.
    pub fn retryable(&self) -> (r: bool)
        ensures
            !r,
    {
        false
    }

    /// The words that say what went wrong.
    pub fn description(&self) -> (r: &'static str)
        ensures
            r@ == self.spec_description(),
    {
        match self {
            DarkpoolClientError::Conversion(ConversionError::InvalidLength) => {
                "conversion error: invalid length"
            },
            DarkpoolClientError::Conversion(ConversionError::InvalidUint) => {
                "conversion error: invalid integer"
            },
            DarkpoolClientError::BlinderNotFound => "blinder not found in calldata",
        }
    }
}

/// The share that a vector of scalars from the wire stands for:
/// `InvalidLength` where it has not the length of a wallet, `InvalidUint`
/// where a scalar is not canonical.
pub open spec fn spec_share_from_wire(scalars: Seq<Scalar>) -> Result<
    Seq<Scalar>,
    DarkpoolClientError,
> {
    if scalars.len() != WALLET_SHARE_LEN {
        Err(DarkpoolClientError::Conversion(ConversionError::InvalidLength))
    } else if !all_wf(scalars) {
        Err(DarkpoolClientError::Conversion(ConversionError::InvalidUint))
    } else {
        Ok(scalars)
    }
}

/// Whether a vector of scalars ends in `target`.
pub open spec fn ends_in(scalars: Seq<Scalar>, target: Scalar) -> bool {
    scalars.len() > 0 && scalars.last() == target
}

/// The one of two shares that ends in the caller's blinder share, the first
/// where both do.
pub open spec fn spec_select_by_blinder(first: Seq<Scalar>, second: Seq<Scalar>, target: Scalar)
    -> Result<Seq<Scalar>, DarkpoolClientError> {
    if ends_in(first, target) {
        Ok(first)
    } else if ends_in(second, target) {
        Ok(second)
    } else {
        Err(DarkpoolClientError::BlinderNotFound)
    }
}

/// Whether `r` is the share that `expected` describes, or its error.
pub open spec fn is_parsed(
    r: Result<WalletShare, DarkpoolClientError>,
    expected: Result<Seq<Scalar>, DarkpoolClientError>,
) -> bool {
    match expected {
        Ok(scalars) => r matches Ok(share) && share@ == scalars && share.wf(),
        Err(e) => r matches Err(f) && f == e,
    }
}

/// A well formed share that went to the wire is recovered from it, from a
/// call with one share and, by its blinder share, from a call with two.
pub proof fn lemma_share_extraction(own: Seq<Scalar>, other: Seq<Scalar>)
    requires
        own.len() == WALLET_SHARE_LEN,
        all_wf(own),
    ensures
        spec_share_from_wire(own) == Ok::<Seq<Scalar>, DarkpoolClientError>(own),
        spec_select_by_blinder(own, other, own.last()) == Ok::<Seq<Scalar>, DarkpoolClientError>(
            own,
        ),
        !ends_in(other, own.last()) ==> spec_select_by_blinder(other, own, own.last()) == Ok::<
            Seq<Scalar>,
            DarkpoolClientError,
        >(own),
{
}

/// Read a share from the scalars of a statement.
pub fn share_from_wire(scalars: &Vec<Scalar>) -> (r: Result<WalletShare, DarkpoolClientError>)
    ensures
        is_parsed(r, spec_share_from_wire(scalars@)),
{
    if scalars.len() != WALLET_SHARE_LEN {
        return Err(DarkpoolClientError::Conversion(ConversionError::InvalidLength));
    }
    if !scalars_canonical(scalars) {
        return Err(DarkpoolClientError::Conversion(ConversionError::InvalidUint));
    }
    Ok(WalletShare { scalars: copy_scalars(scalars) })
}

/// Whether a vector of scalars ends in `target`.
pub fn share_ends_in(scalars: &Vec<Scalar>, target: Scalar) -> (r: bool)
    ensures
        r == ends_in(scalars@, target),
{
    let n = scalars.len();
    n > 0 && scalars[n - 1] == target
}

/// Pick the caller's share out of two and read it.
pub fn select_share_by_blinder(
    first: &Vec<Scalar>,
    second: &Vec<Scalar>,
    public_blinder_share: Scalar,
) -> (r: Result<WalletShare, DarkpoolClientError>)
    ensures
        is_parsed(
            r,
            match spec_select_by_blinder(first@, second@, public_blinder_share) {
                Ok(selected) => spec_share_from_wire(selected),
                Err(e) => Err(e),
            },
        ),
{
    if share_ends_in(first, public_blinder_share) {
        share_from_wire(first)
    } else if share_ends_in(second, public_blinder_share) {
        share_from_wire(second)
    } else {
        Err(DarkpoolClientError::BlinderNotFound)
    }
}

/// The public share of the wallet that a `newWallet` call creates.
pub fn parse_shares_from_new_wallet(statement: &ContractValidWalletCreateStatement) -> (r: Result<
    WalletShare,
    DarkpoolClientError,
>)
    ensures
        is_parsed(r, spec_share_from_wire(statement.public_wallet_shares@)),
{
    share_from_wire(&statement.public_wallet_shares)
}

/// The public share of the wallet after an `updateWallet` call.
pub fn parse_shares_from_update_wallet(statement: &ContractValidWalletUpdateStatement) -> (r:
    Result<WalletShare, DarkpoolClientError>)
    ensures
        is_parsed(r, spec_share_from_wire(statement.new_public_shares@)),
{
    share_from_wire(&statement.new_public_shares)
}

/// The caller's public share after a `processMatchSettle` call: that of the
/// party whose share ends in the caller's blinder share, `BlinderNotFound`
/// where neither does.
pub fn parse_shares_from_process_match_settle(
    statement: &ContractValidMatchSettleStatement,
    public_blinder_share: Scalar,
) -> (r: Result<WalletShare, DarkpoolClientError>)
    ensures
        is_parsed(
            r,
            match spec_select_by_blinder(
                statement.party0_modified_shares@,
                statement.party1_modified_shares@,
                public_blinder_share,
            ) {
                Ok(selected) => spec_share_from_wire(selected),
                Err(e) => Err(e),
            },
        ),
{
    select_share_by_blinder(
        &statement.party0_modified_shares,
        &statement.party1_modified_shares,
        public_blinder_share,
    )
}

/// The internal party's public share after a `processAtomicMatchSettle`
/// call.
pub fn parse_shares_from_process_atomic_match_settle(
    statement: &ContractValidMatchSettleAtomicStatement,
) -> (r: Result<WalletShare, DarkpoolClientError>)
    ensures
        is_parsed(r, spec_share_from_wire(statement.internal_party_modified_shares@)),
{
    share_from_wire(&statement.internal_party_modified_shares)
}

/// The internal party's public share after a
/// `processAtomicMatchSettleWithReceiver` call.
pub fn parse_shares_from_process_atomic_match_settle_with_receiver(
    statement: &ContractValidMatchSettleAtomicStatement,
) -> (r: Result<WalletShare, DarkpoolClientError>)
    ensures
        is_parsed(r, spec_share_from_wire(statement.internal_party_modified_shares@)),
{
    share_from_wire(&statement.internal_party_modified_shares)
}

/// Whether settlement indices point into a wallet.
pub open spec fn indices_in_range(indices: OrderSettlementIndices) -> bool {
    &&& indices.balance_send < MAX_BALANCES
    &&& indices.balance_receive < MAX_BALANCES
    &&& indices.order < MAX_ORDERS
}

/// What a malleable match does to the internal party's public share, or
/// why it cannot be applied: `InvalidUint` where the base amount or a bound
/// of the match needs more than 128 bits, `InvalidLength` where an index
/// points outside the wallet.
///
/// The match is settled at the base amount of the call; the internal party
/// pays its fees on what it receives, which is what the external party
/// sends.
pub open spec fn spec_malleable_match_applied(
    share: Seq<nat>,
    base_amount: U256,
    indices: OrderSettlementIndices,
    statement: ContractValidMalleableMatchSettleAtomicStatement,
) -> Result<Seq<nat>, DarkpoolClientError> {
    match (
        spec_u256_to_amount(base_amount),
        spec_to_circuit_bounded_match_result(statement.match_result),
        spec_to_circuit_fee_rates(statement.internal_fee_rates),
    ) {
        (Ok(base_amt), Ok(bounded), Ok(rates)) => {
            if !indices_in_range(indices) {
                Err(DarkpoolClientError::Conversion(ConversionError::InvalidLength))
            } else {
                let external = bounded.spec_to_external_match_result(base_amt);
                let received = external.spec_external_party_send().1;
                Ok(
                    spec_apply_match(
                        share,
                        indices,
                        rates.spec_compute_fee_take(received),
                        external.spec_to_match_result(),
                        external.spec_internal_party_side(),
                    ),
                )
            }
        },
        _ => Err(DarkpoolClientError::Conversion(ConversionError::InvalidUint)),
    }
}

/// Apply a malleable match to the public share that the internal party had
/// before it, in place. On an error the share is left as it was.
pub fn apply_malleable_match_result_to_wallet_share(
    wallet_share: &mut WalletShare,
    base_amount: U256,
    indices: OrderSettlementIndices,
    statement: &ContractValidMalleableMatchSettleAtomicStatement,
) -> (r: Result<(), DarkpoolClientError>)
    requires
        old(wallet_share).wf(),
        statement.match_result.price.repr.wf(),
        statement.internal_fee_rates.relayer_fee_rate.repr.wf(),
        statement.internal_fee_rates.protocol_fee_rate.repr.wf(),
    ensures
        final(wallet_share).wf(),
        match spec_malleable_match_applied(
            old(wallet_share).values(),
            base_amount,
            indices,
            *statement,
        ) {
            Ok(applied) => r is Ok && final(wallet_share).values() == applied,
            Err(e) => r == Err::<(), DarkpoolClientError>(e) && final(wallet_share)@ == old(
                wallet_share,
            )@,
        },
{
    let base_amt = match u256_to_amount(base_amount) {
        Ok(a) => a,
        Err(e) => {
            return Err(DarkpoolClientError::Conversion(e));
        },
    };

    let bounded_match = match to_circuit_bounded_match_result(&statement.match_result) {
        Ok(m) => m,
        Err(e) => {
            return Err(DarkpoolClientError::Conversion(e));
        },
    };
    let external_match_res = bounded_match.to_external_match_result(base_amt);
    let match_res = external_match_res.to_match_result();

    let (_, recv_amount) = external_match_res.external_party_send();
    let fees = match to_circuit_fee_rates(&statement.internal_fee_rates) {
        Ok(f) => f,
        Err(e) => {
            return Err(DarkpoolClientError::Conversion(e));
        },
    };
    let fee_take = fees.compute_fee_take(recv_amount);

    if indices.balance_send >= MAX_BALANCES || indices.balance_receive >= MAX_BALANCES
        || indices.order >= MAX_ORDERS {
        return Err(DarkpoolClientError::Conversion(ConversionError::InvalidLength));
    }
    let side = external_match_res.internal_party_side();
    apply_match_to_shares(wallet_share, &indices, fee_take, &match_res, side);
    Ok(())
}

/// Whether the rates and the price of a statement are canonical scalars.
pub open spec fn malleable_statement_canonical(
    statement: ContractValidMalleableMatchSettleAtomicStatement,
) -> bool {
    &&& statement.match_result.price.repr.wf()
    &&& statement.internal_fee_rates.relayer_fee_rate.repr.wf()
    &&& statement.internal_fee_rates.protocol_fee_rate.repr.wf()
}

/// Whether the rates and the price of a statement are canonical scalars.
pub fn check_malleable_statement(statement: &ContractValidMalleableMatchSettleAtomicStatement)
    -> (r: bool)
    ensures
        r == malleable_statement_canonical(*statement),
{
    let m = crate::scalar::modulus_limbs();
    statement.match_result.price.repr.repr.lt(&m)
        && statement.internal_fee_rates.relayer_fee_rate.repr.repr.lt(&m)
        && statement.internal_fee_rates.protocol_fee_rate.repr.repr.lt(&m)
}

/// The internal party's public share after a malleable match, or why it
/// cannot be had: the error of reading the share before the match, else
/// `InvalidUint` where the price or a rate is not canonical, else the error
/// of applying the match.
pub open spec fn spec_malleable_shares(
    statement: ContractValidMalleableMatchSettleAtomicStatement,
    payload: MatchPayload,
    base_amount: U256,
) -> Result<Seq<nat>, DarkpoolClientError> {
    match spec_share_from_wire(statement.internal_party_public_shares@) {
        Err(e) => Err(e),
        Ok(before) => if !malleable_statement_canonical(statement) {
            Err(DarkpoolClientError::Conversion(ConversionError::InvalidUint))
        } else {
            spec_malleable_match_applied(
                values(before),
                base_amount,
                spec_to_circuit_order_settlement_indices(
                    payload.valid_commitments_statement.indices,
                ),
                statement,
            )
        },
    }
}

/// The internal party's public share after a
/// `processMalleableAtomicMatchSettle` call.
///
/// The statement holds the share before the match; the match is applied
/// to it at the base amount of the call and the indices of the internal
/// party's payload.
pub fn parse_shares_from_process_malleable_atomic_match_settle(
    statement: &ContractValidMalleableMatchSettleAtomicStatement,
    internal_party_match_payload: &MatchPayload,
    base_amount: U256,
) -> (r: Result<WalletShare, DarkpoolClientError>)
    ensures
        match spec_malleable_shares(*statement, *internal_party_match_payload, base_amount) {
            Ok(applied) => r matches Ok(share) && share.wf() && share.values() == applied,
            Err(e) => r matches Err(f) && f == e,
        },
{
    let mut wallet_share = match share_from_wire(&statement.internal_party_public_shares) {
        Ok(s) => s,
        Err(e) => {
            return Err(e);
        },
    };
    if !check_malleable_statement(statement) {
        return Err(DarkpoolClientError::Conversion(ConversionError::InvalidUint));
    }
    let indices = to_circuit_order_settlement_indices(
        &internal_party_match_payload.valid_commitments_statement.indices,
    );
    match apply_malleable_match_result_to_wallet_share(
        &mut wallet_share,
        base_amount,
        indices,
        statement,
    ) {
        Ok(()) => Ok(wallet_share),
        Err(e) => Err(e),
    }
}

/// The internal party's public share after a
/// `processMalleableAtomicMatchSettleWithReceiver` call.
pub fn parse_shares_from_process_malleable_atomic_match_settle_with_receiver(
    statement: &ContractValidMalleableMatchSettleAtomicStatement,
    internal_party_match_payload: &MatchPayload,
    base_amount: U256,
) -> (r: Result<WalletShare, DarkpoolClientError>)
    ensures
        match spec_malleable_shares(*statement, *internal_party_match_payload, base_amount) {
            Ok(applied) => r matches Ok(share) && share.wf() && share.values() == applied,
            Err(e) => r matches Err(f) && f == e,
        },
{
    parse_shares_from_process_malleable_atomic_match_settle(
        statement,
        internal_party_match_payload,
        base_amount,
    )
}

/// The caller's public share after a `settleOnlineRelayerFee` call: the
/// sender's or the recipient's, whichever ends in the caller's blinder
/// share, `BlinderNotFound` where neither does.
pub fn parse_shares_from_settle_online_relayer_fee(
    statement: &ContractValidRelayerFeeSettlementStatement,
    public_blinder_share: Scalar,
) -> (r: Result<WalletShare, DarkpoolClientError>)
    ensures
        is_parsed(
            r,
            match spec_select_by_blinder(
                statement.sender_updated_public_shares@,
                statement.recipient_updated_public_shares@,
                public_blinder_share,
            ) {
                Ok(selected) => spec_share_from_wire(selected),
                Err(e) => Err(e),
            },
        ),
{
    select_share_by_blinder(
        &statement.sender_updated_public_shares,
        &statement.recipient_updated_public_shares,
        public_blinder_share,
    )
}

/// The payer's public share after a `settleOfflineFee` call.
pub fn parse_shares_from_settle_offline_fee(
    statement: &ContractValidOfflineFeeSettlementStatement,
) -> (r: Result<WalletShare, DarkpoolClientError>)
    ensures
        is_parsed(r, spec_share_from_wire(statement.updated_wallet_public_shares@)),
{
    share_from_wire(&statement.updated_wallet_public_shares)
}

/// The redeemer's public share after a `redeemFee` call.
pub fn parse_shares_from_redeem_fee(statement: &ContractValidFeeRedemptionStatement) -> (r:
    Result<WalletShare, DarkpoolClientError>)
    ensures
        is_parsed(r, spec_share_from_wire(statement.new_wallet_public_shares@)),
{
    share_from_wire(&statement.new_wallet_public_shares)
}

} // verus!
