//! Conversions between the engine's types and the contract's.
//!
//! Toward the contract a value is refused where it does not fit the wire
//! type; from the contract where it does not fit the engine's. Within the
//! range that both hold, going over and back gives the value again.

use crate::contract_types::{pow2_160, ContractBabyJubJubPoint, ContractBoundedMatchResult,
    ContractExternalMatchResult, ContractExternalTransfer, ContractFeeRates, ContractFeeTake,
    ContractFixedPoint, ContractNoteCiphertext, ContractOrderSettlementIndices,
    ContractPublicEncryptionKey, ContractPublicSigningKey, ContractWordPair, EvmAddress};
use crate::fees::{FeeTake, FeeTakeRate};
use crate::fixed_point::FixedPoint;
use crate::match_types::{BoundedMatchResult, ExternalMatchResult, OrderSettlementIndices};
use crate::note::ElGamalCiphertext;
use crate::primitives::{Address, Amount};
use crate::statements::{ExternalTransfer, ExternalTransferDirection};
use crate::uint256::{lemma_value_determines_limbs, pow2_128, U256};
use crate::wallet::{EncryptionKey, PublicSigningKey};
use vstd::prelude::*;

verus! {

/// Why a value could not cross the wire.
#[derive(Clone, Copy, Debug, PartialEq, Eq, Structural, Hash)]
pub enum ConversionError {
    /// A sequence has not the length that the other side expects
    InvalidLength,
    /// An integer does not fit the type of the other side
    InvalidUint,
}

/// The wire word of an amount.
pub open spec fn spec_amount_to_u256(amount: Amount) -> Result<U256, ConversionError> {
    Ok(U256::spec_from_u128(amount))
}

/// The amount of a wire word, where it fits 128 bits.
pub open spec fn spec_u256_to_amount(value: U256) -> Result<Amount, ConversionError> {
    if value@ < pow2_128() {
        Ok(value@ as u128)
    } else {
        Err(ConversionError::InvalidUint)
    }
}

/// The engine's form of an address on chain.
pub open spec fn spec_address_to_biguint(address: EvmAddress) -> Result<Address, ConversionError> {
    Ok(Address { value: U256 { l0: address.l0, l1: address.l1, l2: address.l2 as u64, l3: 0 } })
}

/// The address on chain of a token identifier, where it fits 160 bits.
pub open spec fn spec_biguint_to_address(address: Address) -> Result<EvmAddress, ConversionError> {
    if address@ < pow2_160() {
        Ok(
            EvmAddress {
                l0: address.value.l0,
                l1: address.value.l1,
                l2: address.value.l2 as u32,
            },
        )
    } else {
        Err(ConversionError::InvalidLength)
    }
}

/// Convert an amount to a wire word. Every amount fits.
pub fn amount_to_u256(amount: Amount) -> (r: Result<U256, ConversionError>)
    ensures
        r == spec_amount_to_u256(amount),
        r matches Ok(v) && v@ == amount,
{
    Ok(U256::from_u128(amount))
}

/// Convert a wire word to an amount; `InvalidUint` where it needs more than
/// 128 bits.
pub fn u256_to_amount(value: U256) -> (r: Result<Amount, ConversionError>)
    ensures
        r == spec_u256_to_amount(value),
{
    match value.to_u128() {
        Some(amount) => Ok(amount),
        None => Err(ConversionError::InvalidUint),
    }
}

/// Convert an address on chain to a token identifier. Every address fits.
pub fn address_to_biguint(address: &EvmAddress) -> (r: Result<Address, ConversionError>)
    ensures
        r == spec_address_to_biguint(*address),
        r matches Ok(a) && a@ == address@,
{
    Ok(Address { value: U256 { l0: address.l0, l1: address.l1, l2: address.l2 as u64, l3: 0 } })
}

/// Convert a token identifier to an address on chain; `InvalidLength` where
/// it needs more than 160 bits.
pub fn biguint_to_address(address: &Address) -> (r: Result<EvmAddress, ConversionError>)
    ensures
        r == spec_biguint_to_address(*address),
        r matches Ok(a) ==> a@ == address@,
{
    if address.value.l3 == 0 && address.value.l2 <= 0xffff_ffff {
        Ok(
            EvmAddress {
                l0: address.value.l0,
                l1: address.value.l1,
                l2: address.value.l2 as u32,
            },
        )
    } else {
        Err(ConversionError::InvalidLength)
    }
}

/// Every amount comes back from its wire word.
pub proof fn lemma_amount_round_trip(amount: Amount)
    ensures
        spec_amount_to_u256(amount) matches Ok(w) && spec_u256_to_amount(w) == Ok::<
            Amount,
            ConversionError,
        >(amount),
{
}

/// Every wire word below 2^128 comes back from its amount.
pub proof fn lemma_word_round_trip(word: U256)
    requires
        word@ < pow2_128(),
    ensures
        spec_u256_to_amount(word) matches Ok(a) && spec_amount_to_u256(a) == Ok::<
            U256,
            ConversionError,
        >(word),
{
    lemma_value_determines_limbs(U256::spec_from_u128(word@ as u128), word);
}

/// Every address on chain comes back from its token identifier.
pub proof fn lemma_address_round_trip(address: EvmAddress)
    ensures
        spec_address_to_biguint(address) matches Ok(a) && spec_biguint_to_address(a) == Ok::<
            EvmAddress,
            ConversionError,
        >(address),
{
}

/// Every token identifier below 2^160 comes back from its address on chain.
pub proof fn lemma_mint_round_trip(mint: Address)
    requires
        mint@ < pow2_160(),
    ensures
        spec_biguint_to_address(mint) matches Ok(e) && spec_address_to_biguint(e) == Ok::<
            Address,
            ConversionError,
        >(mint),
{
}

/// The wire form of a fixed-point number.
pub open spec fn spec_to_contract_fixed_point(fixed_point: FixedPoint) -> ContractFixedPoint {
    ContractFixedPoint { repr: fixed_point.repr }
}

/// The engine's form of a fixed-point number on the wire.
pub open spec fn spec_to_circuit_fixed_point(fixed_point: ContractFixedPoint) -> FixedPoint {
    FixedPoint { repr: fixed_point.repr }
}

/// Convert a fixed-point number to its wire form.
pub fn to_contract_fixed_point(fixed_point: &FixedPoint) -> (r: ContractFixedPoint)
    ensures
        r == spec_to_contract_fixed_point(*fixed_point),
{
    ContractFixedPoint { repr: fixed_point.repr }
}

/// Convert a fixed-point number from its wire form.
pub fn to_circuit_fixed_point(fixed_point: &ContractFixedPoint) -> (r: FixedPoint)
    ensures
        r == spec_to_circuit_fixed_point(*fixed_point),
{
    FixedPoint::from_repr(fixed_point.repr)
}

/// The wire form of settlement indices.
pub open spec fn spec_to_contract_order_settlement_indices(indices: OrderSettlementIndices)
    -> ContractOrderSettlementIndices {
    ContractOrderSettlementIndices {
        balance_send: indices.balance_send as u64,
        balance_receive: indices.balance_receive as u64,
        order: indices.order as u64,
    }
}

/// The engine's form of settlement indices on the wire. An index that does
/// not fit a `usize` is cut to it.
pub open spec fn spec_to_circuit_order_settlement_indices(indices: ContractOrderSettlementIndices)
    -> OrderSettlementIndices {
    OrderSettlementIndices {
        balance_send: indices.balance_send as usize,
        balance_receive: indices.balance_receive as usize,
        order: indices.order as usize,
    }
}

/// Convert settlement indices to their wire form.
pub fn to_contract_order_settlement_indices(indices: &OrderSettlementIndices) -> (r:
    ContractOrderSettlementIndices)
    ensures
        r == spec_to_contract_order_settlement_indices(*indices),
{
    ContractOrderSettlementIndices {
        balance_send: indices.balance_send as u64,
        balance_receive: indices.balance_receive as u64,
        order: indices.order as u64,
    }
}

/// Convert settlement indices from their wire form.
pub fn to_circuit_order_settlement_indices(indices: &ContractOrderSettlementIndices) -> (r:
    OrderSettlementIndices)
    ensures
        r == spec_to_circuit_order_settlement_indices(*indices),
{
    OrderSettlementIndices {
        balance_send: #[verifier::truncate]
        (indices.balance_send as usize),
        balance_receive: #[verifier::truncate]
        (indices.balance_receive as usize),
        order: #[verifier::truncate]
        (indices.order as usize),
    }
}

/// The wire form of an external match, where its tokens fit addresses.
pub open spec fn spec_to_contract_external_match_result(m: ExternalMatchResult) -> Result<
    ContractExternalMatchResult,
    ConversionError,
> {
    match (spec_biguint_to_address(m.quote_mint), spec_biguint_to_address(m.base_mint)) {
        (Ok(quote_mint), Ok(base_mint)) => Ok(
            ContractExternalMatchResult {
                quote_mint,
                base_mint,
                quote_amount: U256::spec_from_u128(m.quote_amount),
                base_amount: U256::spec_from_u128(m.base_amount),
                direction: m.direction,
            },
        ),
        _ => Err(ConversionError::InvalidLength),
    }
}

/// The engine's form of an external match on the wire, where its amounts
/// fit.
pub open spec fn spec_to_circuit_external_match_result(m: ContractExternalMatchResult) -> Result<
    ExternalMatchResult,
    ConversionError,
> {
    match (
        spec_address_to_biguint(m.quote_mint),
        spec_address_to_biguint(m.base_mint),
        spec_u256_to_amount(m.quote_amount),
        spec_u256_to_amount(m.base_amount),
    ) {
        (Ok(quote_mint), Ok(base_mint), Ok(quote_amount), Ok(base_amount)) => Ok(
            ExternalMatchResult {
                quote_mint,
                base_mint,
                quote_amount,
                base_amount,
                direction: m.direction,
            },
        ),
        _ => Err(ConversionError::InvalidUint),
    }
}

/// Convert an external match to its wire form; `InvalidLength` where a
/// token does not fit an address.
pub fn to_contract_external_match_result(match_result: &ExternalMatchResult) -> (r: Result<
    ContractExternalMatchResult,
    ConversionError,
>)
    ensures
        r == spec_to_contract_external_match_result(*match_result),
{
    let quote_mint = match biguint_to_address(&match_result.quote_mint) {
        Ok(a) => a,
        Err(e) => {
            return Err(e);
        },
    };
    let base_mint = match biguint_to_address(&match_result.base_mint) {
        Ok(a) => a,
        Err(e) => {
            return Err(e);
        },
    };
    Ok(
        ContractExternalMatchResult {
            quote_mint,
            base_mint,
            quote_amount: U256::from_u128(match_result.quote_amount),
            base_amount: U256::from_u128(match_result.base_amount),
            direction: match_result.direction,
        },
    )
}

/// Convert an external match from its wire form; `InvalidUint` where an
/// amount needs more than 128 bits.
pub fn to_circuit_external_match_result(match_result: &ContractExternalMatchResult) -> (r: Result<
    ExternalMatchResult,
    ConversionError,
>)
    ensures
        r == spec_to_circuit_external_match_result(*match_result),
{
    let quote_mint = match address_to_biguint(&match_result.quote_mint) {
        Ok(a) => a,
        Err(e) => {
            return Err(e);
        },
    };
    let base_mint = match address_to_biguint(&match_result.base_mint) {
        Ok(a) => a,
        Err(e) => {
            return Err(e);
        },
    };
    let quote_amount = match u256_to_amount(match_result.quote_amount) {
        Ok(a) => a,
        Err(e) => {
            return Err(e);
        },
    };
    let base_amount = match u256_to_amount(match_result.base_amount) {
        Ok(a) => a,
        Err(e) => {
            return Err(e);
        },
    };
    Ok(
        ExternalMatchResult {
            quote_mint,
            base_mint,
            quote_amount,
            base_amount,
            direction: match_result.direction,
        },
    )
}

/// The wire form of a bounded match, where its tokens fit addresses.
pub open spec fn spec_to_contract_bounded_match_result(m: BoundedMatchResult) -> Result<
    ContractBoundedMatchResult,
    ConversionError,
> {
    match (spec_biguint_to_address(m.quote_mint), spec_biguint_to_address(m.base_mint)) {
        (Ok(quote_mint), Ok(base_mint)) => Ok(
            ContractBoundedMatchResult {
                quote_mint,
                base_mint,
                price: spec_to_contract_fixed_point(m.price),
                min_base_amount: U256::spec_from_u128(m.min_base_amount),
                max_base_amount: U256::spec_from_u128(m.max_base_amount),
                direction: m.direction,
            },
        ),
        _ => Err(ConversionError::InvalidLength),
    }
}

/// The engine's form of a bounded match on the wire, where its bounds fit.
pub open spec fn spec_to_circuit_bounded_match_result(m: ContractBoundedMatchResult) -> Result<
    BoundedMatchResult,
    ConversionError,
> {
    match (
        spec_address_to_biguint(m.quote_mint),
        spec_address_to_biguint(m.base_mint),
        spec_u256_to_amount(m.min_base_amount),
        spec_u256_to_amount(m.max_base_amount),
    ) {
        (Ok(quote_mint), Ok(base_mint), Ok(min_base_amount), Ok(max_base_amount)) => Ok(
            BoundedMatchResult {
                quote_mint,
                base_mint,
                price: spec_to_circuit_fixed_point(m.price),
                min_base_amount,
                max_base_amount,
                direction: m.direction,
            },
        ),
        _ => Err(ConversionError::InvalidUint),
    }
}

/// Convert a bounded match to its wire form; `InvalidLength` where a token
/// does not fit an address.
pub fn to_contract_bounded_match_result(match_result: &BoundedMatchResult) -> (r: Result<
    ContractBoundedMatchResult,
    ConversionError,
>)
    ensures
        r == spec_to_contract_bounded_match_result(*match_result),
{
    let quote_mint = match biguint_to_address(&match_result.quote_mint) {
        Ok(a) => a,
        Err(e) => {
            return Err(e);
        },
    };
    let base_mint = match biguint_to_address(&match_result.base_mint) {
        Ok(a) => a,
        Err(e) => {
            return Err(e);
        },
    };
    Ok(
        ContractBoundedMatchResult {
            quote_mint,
            base_mint,
            price: to_contract_fixed_point(&match_result.price),
            min_base_amount: U256::from_u128(match_result.min_base_amount),
            max_base_amount: U256::from_u128(match_result.max_base_amount),
            direction: match_result.direction,
        },
    )
}

/// Convert a bounded match from its wire form; `InvalidUint` where a bound
/// needs more than 128 bits.
pub fn to_circuit_bounded_match_result(match_result: &ContractBoundedMatchResult) -> (r: Result<
    BoundedMatchResult,
    ConversionError,
>)
    ensures
        r == spec_to_circuit_bounded_match_result(*match_result),
{
    let quote_mint = match address_to_biguint(&match_result.quote_mint) {
        Ok(a) => a,
        Err(e) => {
            return Err(e);
        },
    };
    let base_mint = match address_to_biguint(&match_result.base_mint) {
        Ok(a) => a,
        Err(e) => {
            return Err(e);
        },
    };
    let price = to_circuit_fixed_point(&match_result.price);
    let min_base_amount = match u256_to_amount(match_result.min_base_amount) {
        Ok(a) => a,
        Err(e) => {
            return Err(e);
        },
    };
    let max_base_amount = match u256_to_amount(match_result.max_base_amount) {
        Ok(a) => a,
        Err(e) => {
            return Err(e);
        },
    };
    Ok(
        BoundedMatchResult {
            quote_mint,
            base_mint,
            price,
            min_base_amount,
            max_base_amount,
            direction: match_result.direction,
        },
    )
}

/// The wire form of fees.
pub open spec fn spec_to_contract_fee_take(fee_take: FeeTake) -> Result<
    ContractFeeTake,
    ConversionError,
> {
    Ok(
        ContractFeeTake {
            relayer_fee: U256::spec_from_u128(fee_take.relayer_fee),
            protocol_fee: U256::spec_from_u128(fee_take.protocol_fee),
        },
    )
}

/// Convert fees to their wire form. All fees fit.
pub fn to_contract_fee_take(fee_take: &FeeTake) -> (r: Result<ContractFeeTake, ConversionError>)
    ensures
        r == spec_to_contract_fee_take(*fee_take),
{
    Ok(
        ContractFeeTake {
            relayer_fee: U256::from_u128(fee_take.relayer_fee),
            protocol_fee: U256::from_u128(fee_take.protocol_fee),
        },
    )
}

/// The wire form of fee rates.
pub open spec fn spec_to_contract_fee_rates(fee_rates: FeeTakeRate) -> Result<
    ContractFeeRates,
    ConversionError,
> {
    Ok(
        ContractFeeRates {
            relayer_fee_rate: spec_to_contract_fixed_point(fee_rates.relayer_fee_rate),
            protocol_fee_rate: spec_to_contract_fixed_point(fee_rates.protocol_fee_rate),
        },
    )
}

/// The engine's form of fee rates on the wire.
pub open spec fn spec_to_circuit_fee_rates(fee_rates: ContractFeeRates) -> Result<
    FeeTakeRate,
    ConversionError,
> {
    Ok(
        FeeTakeRate {
            relayer_fee_rate: spec_to_circuit_fixed_point(fee_rates.relayer_fee_rate),
            protocol_fee_rate: spec_to_circuit_fixed_point(fee_rates.protocol_fee_rate),
        },
    )
}

/// Convert fee rates to their wire form. All rates fit.
pub fn to_contract_fee_rates(fee_rates: &FeeTakeRate) -> (r: Result<
    ContractFeeRates,
    ConversionError,
>)
    ensures
        r == spec_to_contract_fee_rates(*fee_rates),
{
    Ok(
        ContractFeeRates {
            relayer_fee_rate: to_contract_fixed_point(&fee_rates.relayer_fee_rate),
            protocol_fee_rate: to_contract_fixed_point(&fee_rates.protocol_fee_rate),
        },
    )
}

/// Convert fee rates from their wire form. All rates fit.
pub fn to_circuit_fee_rates(fee_rates: &ContractFeeRates) -> (r: Result<
    FeeTakeRate,
    ConversionError,
>)
    ensures
        r == spec_to_circuit_fee_rates(*fee_rates),
{
    Ok(
        FeeTakeRate {
            relayer_fee_rate: to_circuit_fixed_point(&fee_rates.relayer_fee_rate),
            protocol_fee_rate: to_circuit_fixed_point(&fee_rates.protocol_fee_rate),
        },
    )
}

/// What comes from the wire goes back to the wire unchanged: fixed-point
/// numbers, settlement indices, fee rates always; external and bounded
/// matches where their amounts fit the engine. An index comes back where it
/// fits a `usize`.
pub proof fn lemma_wire_round_trips(
    fp: ContractFixedPoint,
    indices: ContractOrderSettlementIndices,
    rates: ContractFeeRates,
    external: ContractExternalMatchResult,
    bounded: ContractBoundedMatchResult,
)
    ensures
        spec_to_contract_fixed_point(spec_to_circuit_fixed_point(fp)) == fp,
        (indices.balance_send <= usize::MAX && indices.balance_receive <= usize::MAX
            && indices.order <= usize::MAX) ==> spec_to_contract_order_settlement_indices(
            spec_to_circuit_order_settlement_indices(indices),
        ) == indices,
        spec_to_circuit_fee_rates(rates) matches Ok(r) && spec_to_contract_fee_rates(r) == Ok::<
            ContractFeeRates,
            ConversionError,
        >(rates),
        spec_to_circuit_external_match_result(external) matches Ok(m)
            ==> spec_to_contract_external_match_result(m) == Ok::<
            ContractExternalMatchResult,
            ConversionError,
        >(external),
        spec_to_circuit_bounded_match_result(bounded) matches Ok(m)
            ==> spec_to_contract_bounded_match_result(m) == Ok::<
            ContractBoundedMatchResult,
            ConversionError,
        >(bounded),
{
    if spec_to_circuit_external_match_result(external) is Ok {
        lemma_word_round_trip(external.quote_amount);
        lemma_word_round_trip(external.base_amount);
        lemma_address_round_trip(external.quote_mint);
        lemma_address_round_trip(external.base_mint);
    }
    if spec_to_circuit_bounded_match_result(bounded) is Ok {
        lemma_word_round_trip(bounded.min_base_amount);
        lemma_word_round_trip(bounded.max_base_amount);
        lemma_address_round_trip(bounded.quote_mint);
        lemma_address_round_trip(bounded.base_mint);
    }
}

/// What goes to the wire comes back from the wire unchanged: fixed-point
/// numbers, settlement indices, fee rates always; external and bounded
/// matches where their tokens fit addresses.
pub proof fn lemma_engine_round_trips(
    fp: FixedPoint,
    indices: OrderSettlementIndices,
    rates: FeeTakeRate,
    external: ExternalMatchResult,
    bounded: BoundedMatchResult,
)
    ensures
        spec_to_circuit_fixed_point(spec_to_contract_fixed_point(fp)) == fp,
        spec_to_circuit_order_settlement_indices(spec_to_contract_order_settlement_indices(indices))
            == indices,
        spec_to_contract_fee_rates(rates) matches Ok(r) && spec_to_circuit_fee_rates(r) == Ok::<
            FeeTakeRate,
            ConversionError,
        >(rates),
        spec_to_contract_external_match_result(external) matches Ok(m)
            ==> spec_to_circuit_external_match_result(m) == Ok::<
            ExternalMatchResult,
            ConversionError,
        >(external),
        spec_to_contract_bounded_match_result(bounded) matches Ok(m)
            ==> spec_to_circuit_bounded_match_result(m) == Ok::<
            BoundedMatchResult,
            ConversionError,
        >(bounded),
{
    if spec_to_contract_external_match_result(external) is Ok {
        lemma_mint_round_trip(external.quote_mint);
        lemma_mint_round_trip(external.base_mint);
        lemma_amount_round_trip(external.quote_amount);
        lemma_amount_round_trip(external.base_amount);
    }
    if spec_to_contract_bounded_match_result(bounded) is Ok {
        lemma_mint_round_trip(bounded.quote_mint);
        lemma_mint_round_trip(bounded.base_mint);
        lemma_amount_round_trip(bounded.min_base_amount);
        lemma_amount_round_trip(bounded.max_base_amount);
    }
}

/// The wire form of an external transfer, where account and token fit
/// addresses.
pub open spec fn spec_to_contract_external_transfer(t: ExternalTransfer) -> Result<
    ContractExternalTransfer,
    ConversionError,
> {
    match (spec_biguint_to_address(t.account_addr), spec_biguint_to_address(t.mint)) {
        (Ok(account_addr), Ok(mint)) => Ok(
            ContractExternalTransfer {
                account_addr,
                mint,
                amount: U256::spec_from_u128(t.amount),
                is_withdrawal: t.direction == ExternalTransferDirection::Withdrawal,
            },
        ),
        _ => Err(ConversionError::InvalidLength),
    }
}

/// Convert an external transfer to its wire form; `InvalidLength` where the
/// account or the token does not fit an address.
pub fn to_contract_external_transfer(external_transfer: &ExternalTransfer) -> (r: Result<
    ContractExternalTransfer,
    ConversionError,
>)
    ensures
        r == spec_to_contract_external_transfer(*external_transfer),
{
    let account_addr = match biguint_to_address(&external_transfer.account_addr) {
        Ok(a) => a,
        Err(e) => {
            return Err(e);
        },
    };
    let mint = match biguint_to_address(&external_transfer.mint) {
        Ok(a) => a,
        Err(e) => {
            return Err(e);
        },
    };
    Ok(
        ContractExternalTransfer {
            account_addr,
            mint,
            amount: U256::from_u128(external_transfer.amount),
            is_withdrawal: external_transfer.direction == ExternalTransferDirection::Withdrawal,
        },
    )
}

/// The wire form of a signing key.
pub open spec fn spec_to_contract_public_signing_key(key: PublicSigningKey) -> Result<
    ContractPublicSigningKey,
    ConversionError,
> {
    Ok(
        ContractPublicSigningKey {
            x: ContractWordPair { low: key.x.low, high: key.x.high },
            y: ContractWordPair { low: key.y.low, high: key.y.high },
        },
    )
}

/// Convert a signing key to its wire form. Every key fits.
pub fn to_contract_public_signing_key(public_signing_key: &PublicSigningKey) -> (r: Result<
    ContractPublicSigningKey,
    ConversionError,
>)
    ensures
        r == spec_to_contract_public_signing_key(*public_signing_key),
{
    Ok(
        ContractPublicSigningKey {
            x: ContractWordPair {
                low: public_signing_key.x.low,
                high: public_signing_key.x.high,
            },
            y: ContractWordPair {
                low: public_signing_key.y.low,
                high: public_signing_key.y.high,
            },
        },
    )
}

/// The wire form of an encryption key.
pub open spec fn spec_to_contract_public_encryption_key(key: EncryptionKey)
    -> ContractPublicEncryptionKey {
    ContractPublicEncryptionKey { x: key.x, y: key.y }
}

/// Convert an encryption key to its wire form.
pub fn to_contract_public_encryption_key(public_encryption_key: &EncryptionKey) -> (r:
    ContractPublicEncryptionKey)
    ensures
        r == spec_to_contract_public_encryption_key(*public_encryption_key),
{
    ContractPublicEncryptionKey { x: public_encryption_key.x, y: public_encryption_key.y }
}

/// Convert the ciphertext of a note to its wire form: the ephemeral key,
/// then the three encrypted scalars in order.
pub fn to_contract_note_ciphertext(note_ciphertext: &ElGamalCiphertext) -> (r:
    ContractNoteCiphertext)
    ensures
        r == ContractNoteCiphertext(
            ContractBabyJubJubPoint {
                x: note_ciphertext.ephemeral_key.x,
                y: note_ciphertext.ephemeral_key.y,
            },
            note_ciphertext.ciphertext@[0],
            note_ciphertext.ciphertext@[1],
            note_ciphertext.ciphertext@[2],
        ),
{
    ContractNoteCiphertext(
        ContractBabyJubJubPoint {
            x: note_ciphertext.ephemeral_key.x,
            y: note_ciphertext.ephemeral_key.y,
        },
        note_ciphertext.ciphertext[0],
        note_ciphertext.ciphertext[1],
        note_ciphertext.ciphertext[2],
    )
}

} // verus!
