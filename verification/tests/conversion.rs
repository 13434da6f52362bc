use darkpool_core::contract_types::{
    ContractBabyJubJubPoint, ContractBoundedMatchResult, ContractExternalMatchResult,
    ContractFeeRates, ContractFixedPoint, ContractNoteCiphertext, ContractOrderSettlementIndices,
    EvmAddress,
};
use darkpool_core::conversion::{
    address_to_biguint, amount_to_u256, biguint_to_address, to_circuit_bounded_match_result,
    to_circuit_external_match_result, to_circuit_fee_rates, to_circuit_fixed_point,
    to_circuit_order_settlement_indices, to_contract_bounded_match_result,
    to_contract_external_match_result, to_contract_external_transfer, to_contract_fee_rates,
    to_contract_fee_take, to_contract_fixed_point, to_contract_note_ciphertext,
    to_contract_order_settlement_indices, to_contract_public_encryption_key,
    to_contract_public_signing_key, u256_to_amount, ConversionError,
};
use darkpool_core::fees::{FeeTake, FeeTakeRate};
use darkpool_core::fixed_point::FixedPoint;
use darkpool_core::match_types::{BoundedMatchResult, ExternalMatchResult, OrderSettlementIndices};
use darkpool_core::note::ElGamalCiphertext;
use darkpool_core::primitives::Address;
use darkpool_core::scalar::Scalar;
use darkpool_core::statement_conversion::{
    biguint_to_u256, build_atomic_match_linking_proofs, build_atomic_match_proofs,
    build_match_linking_proofs, build_match_proofs, to_contract_link_proof, to_contract_proof,
    to_contract_transfer_aux_data, to_contract_valid_commitments_statement,
    to_contract_valid_fee_redemption_statement,
    to_contract_valid_malleable_match_settle_atomic_statement,
    to_contract_valid_match_settle_atomic_statement, to_contract_valid_match_settle_statement,
    to_contract_valid_offline_fee_settlement_statement, to_contract_valid_reblind_statement,
    to_contract_valid_relayer_fee_settlement_statement, to_contract_valid_wallet_create_statement,
    to_contract_valid_wallet_update_statement, try_unwrap_commitments, try_unwrap_scalars,
};
use darkpool_core::statements::{
    BigUint, DepositAuth, ExternalTransfer, ExternalTransferDirection, G1Affine, MatchBundle,
    OrderValidityProofBundle, PlonkLinkProof, PlonkProof, ProofEvaluations, TransferAuth,
    ValidCommitmentsStatement, ValidFeeRedemptionStatement,
    ValidMalleableMatchSettleAtomicStatement, ValidMatchSettleAtomicStatement,
    ValidMatchSettleStatement, ValidOfflineFeeSettlementStatement, ValidReblindStatement,
    ValidRelayerFeeSettlementStatement, ValidWalletCreateStatement, ValidWalletUpdateStatement,
    WithdrawalAuth,
};
use darkpool_core::uint256::U256;
use darkpool_core::wallet::{EncryptionKey, NonNativeScalar, PublicSigningKey};
use darkpool_core::wallet_share::WalletShare;

fn s(x: u64) -> Scalar {
    Scalar::from_u64(x)
}

fn share(from: u64) -> WalletShare {
    WalletShare::from_scalars((0..70u64).map(|i| s(from + i)).collect()).unwrap()
}

fn point(n: u64) -> G1Affine {
    G1Affine { x: U256::from_u64(n), y: U256::from_u64(n + 1), infinity: false }
}

fn plonk_proof(tag: u64) -> PlonkProof {
    PlonkProof {
        wires_poly_comms: (0..5).map(|i| point(tag + i)).collect(),
        prod_perm_poly_comm: point(tag + 10),
        split_quot_poly_comms: (0..5).map(|i| point(tag + 20 + i)).collect(),
        opening_proof: point(tag + 30),
        shifted_opening_proof: point(tag + 40),
        poly_evals: ProofEvaluations {
            wires_evals: (0..5).map(|i| s(tag + 50 + i)).collect(),
            wire_sigma_evals: (0..4).map(|i| s(tag + 60 + i)).collect(),
            perm_next_eval: s(tag + 70),
        },
    }
}

fn link(tag: u64) -> PlonkLinkProof {
    PlonkLinkProof { quotient_commitment: point(tag), opening_proof: point(tag + 100) }
}

fn bundle(tag: u64) -> OrderValidityProofBundle {
    OrderValidityProofBundle {
        reblind_proof: plonk_proof(tag),
        commitment_proof: plonk_proof(tag + 1000),
        linking_proof: link(tag + 2000),
    }
}

fn key() -> PublicSigningKey {
    PublicSigningKey {
        x: NonNativeScalar { low: s(1), high: s(2) },
        y: NonNativeScalar { low: s(3), high: s(4) },
    }
}

fn wide_address() -> Address {
    // 2^160
    Address { value: U256 { l0: 0, l1: 0, l2: 1 << 32, l3: 0 } }
}

#[test]
fn amounts_cross_the_wire_in_range() {
    let word = amount_to_u256(u128::MAX).unwrap();
    assert_eq!(word, U256 { l0: u64::MAX, l1: u64::MAX, l2: 0, l3: 0 });
    assert_eq!(u256_to_amount(word), Ok(u128::MAX));
    assert_eq!(u256_to_amount(amount_to_u256(12345).unwrap()), Ok(12345));
    assert_eq!(
        u256_to_amount(U256 { l0: 0, l1: 0, l2: 1, l3: 0 }),
        Err(ConversionError::InvalidUint)
    );
    assert_eq!(
        u256_to_amount(U256 { l0: 7, l1: 0, l2: 0, l3: 1 }),
        Err(ConversionError::InvalidUint)
    );
}

#[test]
fn addresses_cross_the_wire_in_range() {
    let evm = EvmAddress { l0: 1, l1: 2, l2: 0xffff_ffff };
    let engine = address_to_biguint(&evm).unwrap();
    assert_eq!(engine, Address { value: U256 { l0: 1, l1: 2, l2: 0xffff_ffff, l3: 0 } });
    assert_eq!(biguint_to_address(&engine), Ok(evm));
    assert_eq!(biguint_to_address(&wide_address()), Err(ConversionError::InvalidLength));
    assert_eq!(
        biguint_to_address(&Address { value: U256 { l0: 0, l1: 0, l2: 0, l3: 1 } }),
        Err(ConversionError::InvalidLength)
    );
}

#[test]
fn small_values_round_trip() {
    let fp = FixedPoint::from_repr(s(123));
    assert_eq!(to_contract_fixed_point(&fp), ContractFixedPoint { repr: s(123) });
    assert_eq!(to_circuit_fixed_point(&to_contract_fixed_point(&fp)), fp);

    let indices = OrderSettlementIndices { balance_send: 1, balance_receive: 9, order: 3 };
    let wire = to_contract_order_settlement_indices(&indices);
    assert_eq!(wire, ContractOrderSettlementIndices { balance_send: 1, balance_receive: 9, order: 3 });
    assert_eq!(to_circuit_order_settlement_indices(&wire), indices);

    let rates = FeeTakeRate {
        relayer_fee_rate: FixedPoint::from_repr(s(5)),
        protocol_fee_rate: FixedPoint::from_repr(s(6)),
    };
    let wire = to_contract_fee_rates(&rates).unwrap();
    assert_eq!(
        wire,
        ContractFeeRates {
            relayer_fee_rate: ContractFixedPoint { repr: s(5) },
            protocol_fee_rate: ContractFixedPoint { repr: s(6) },
        }
    );
    assert_eq!(to_circuit_fee_rates(&wire), Ok(rates));

    let take = to_contract_fee_take(&FeeTake { relayer_fee: 7, protocol_fee: 8 }).unwrap();
    assert_eq!(take.relayer_fee, U256::from_u64(7));
    assert_eq!(take.protocol_fee, U256::from_u64(8));
}

#[test]
fn match_results_round_trip() {
    let m = ExternalMatchResult {
        quote_mint: Address::from_u128(0xbb),
        base_mint: Address::from_u128(0xaa),
        quote_amount: 20,
        base_amount: 40,
        direction: true,
    };
    let wire = to_contract_external_match_result(&m).unwrap();
    assert_eq!(
        wire,
        ContractExternalMatchResult {
            quote_mint: EvmAddress { l0: 0xbb, l1: 0, l2: 0 },
            base_mint: EvmAddress { l0: 0xaa, l1: 0, l2: 0 },
            quote_amount: U256::from_u64(20),
            base_amount: U256::from_u64(40),
            direction: true,
        }
    );
    assert_eq!(to_circuit_external_match_result(&wire), Ok(m));
    assert_eq!(to_contract_external_match_result(&to_circuit_external_match_result(&wire).unwrap()), Ok(wire));

    let b = BoundedMatchResult {
        quote_mint: Address::from_u128(0xbb),
        base_mint: Address::from_u128(0xaa),
        price: FixedPoint::from_integer(2),
        min_base_amount: 10,
        max_base_amount: 100,
        direction: false,
    };
    let wire = to_contract_bounded_match_result(&b).unwrap();
    assert_eq!(wire.price, ContractFixedPoint { repr: FixedPoint::from_integer(2).repr });
    assert_eq!(wire.min_base_amount, U256::from_u64(10));
    assert_eq!(wire.max_base_amount, U256::from_u64(100));
    assert!(!wire.direction);
    assert_eq!(to_circuit_bounded_match_result(&wire), Ok(b));
}

#[test]
fn match_results_out_of_range_are_refused() {
    let mut m = ExternalMatchResult {
        quote_mint: wide_address(),
        base_mint: Address::from_u128(0xaa),
        quote_amount: 20,
        base_amount: 40,
        direction: true,
    };
    assert_eq!(to_contract_external_match_result(&m), Err(ConversionError::InvalidLength));
    m.quote_mint = Address::from_u128(1);
    m.base_mint = wide_address();
    assert_eq!(to_contract_external_match_result(&m), Err(ConversionError::InvalidLength));

    let wire = ContractExternalMatchResult {
        quote_mint: EvmAddress { l0: 1, l1: 0, l2: 0 },
        base_mint: EvmAddress { l0: 2, l1: 0, l2: 0 },
        quote_amount: U256 { l0: 0, l1: 0, l2: 1, l3: 0 },
        base_amount: U256::from_u64(1),
        direction: true,
    };
    assert_eq!(to_circuit_external_match_result(&wire), Err(ConversionError::InvalidUint));

    let bounded = ContractBoundedMatchResult {
        quote_mint: EvmAddress { l0: 1, l1: 0, l2: 0 },
        base_mint: EvmAddress { l0: 2, l1: 0, l2: 0 },
        price: ContractFixedPoint { repr: s(1) },
        min_base_amount: U256::from_u64(1),
        max_base_amount: U256 { l0: 0, l1: 0, l2: 0, l3: 9 },
        direction: true,
    };
    assert_eq!(to_circuit_bounded_match_result(&bounded), Err(ConversionError::InvalidUint));
    let b = BoundedMatchResult {
        quote_mint: Address::from_u128(0xbb),
        base_mint: wide_address(),
        price: FixedPoint::from_integer(2),
        min_base_amount: 10,
        max_base_amount: 100,
        direction: false,
    };
    assert_eq!(to_contract_bounded_match_result(&b), Err(ConversionError::InvalidLength));
}

#[test]
fn transfers_and_keys_convert() {
    let t = ExternalTransfer {
        account_addr: Address::from_u128(0x11),
        mint: Address::from_u128(0x22),
        amount: 5,
        direction: ExternalTransferDirection::Withdrawal,
    };
    let wire = to_contract_external_transfer(&t).unwrap();
    assert_eq!(wire.account_addr, EvmAddress { l0: 0x11, l1: 0, l2: 0 });
    assert_eq!(wire.mint, EvmAddress { l0: 0x22, l1: 0, l2: 0 });
    assert_eq!(wire.amount, U256::from_u64(5));
    assert!(wire.is_withdrawal);
    let deposit = ExternalTransfer { direction: ExternalTransferDirection::Deposit, ..t };
    assert!(!to_contract_external_transfer(&deposit).unwrap().is_withdrawal);
    let bad = ExternalTransfer { account_addr: wide_address(), ..t };
    assert_eq!(to_contract_external_transfer(&bad), Err(ConversionError::InvalidLength));

    assert!(!t.is_default());
    let none = ExternalTransfer {
        account_addr: Address::zero(),
        mint: Address::zero(),
        amount: 0,
        direction: ExternalTransferDirection::Deposit,
    };
    assert!(none.is_default());
    assert!(!ExternalTransfer { amount: 1, ..none }.is_default());
    assert!(!ExternalTransfer { direction: ExternalTransferDirection::Withdrawal, ..none }
        .is_default());

    let k = to_contract_public_signing_key(&key()).unwrap();
    assert_eq!((k.x.low, k.x.high, k.y.low, k.y.high), (s(1), s(2), s(3), s(4)));
    let e = to_contract_public_encryption_key(&EncryptionKey { x: s(8), y: s(9) });
    assert_eq!((e.x, e.y), (s(8), s(9)));
    let c = to_contract_note_ciphertext(&ElGamalCiphertext {
        ephemeral_key: EncryptionKey { x: s(1), y: s(2) },
        ciphertext: [s(3), s(4), s(5)],
    });
    assert_eq!(
        c,
        ContractNoteCiphertext(ContractBabyJubJubPoint { x: s(1), y: s(2) }, s(3), s(4), s(5))
    );
}

#[test]
fn proofs_convert_where_their_lengths_fit() {
    let p = plonk_proof(0);
    let c = to_contract_proof(&p).unwrap();
    assert_eq!(c.wire_comms, p.wires_poly_comms);
    assert_eq!(c.z_comm, point(10));
    assert_eq!(c.quotient_comms, p.split_quot_poly_comms);
    assert_eq!(c.w_zeta, point(30));
    assert_eq!(c.w_zeta_omega, point(40));
    assert_eq!(c.wire_evals, p.poly_evals.wires_evals);
    assert_eq!(c.sigma_evals, p.poly_evals.wire_sigma_evals);
    assert_eq!(c.z_bar, s(70));

    let mut short = plonk_proof(0);
    short.wires_poly_comms.pop();
    assert_eq!(to_contract_proof(&short).err(), Some(ConversionError::InvalidLength));
    let mut long = plonk_proof(0);
    long.split_quot_poly_comms.push(point(1));
    assert_eq!(to_contract_proof(&long).err(), Some(ConversionError::InvalidLength));
    let mut evals = plonk_proof(0);
    evals.poly_evals.wires_evals.push(s(1));
    assert_eq!(to_contract_proof(&evals).err(), Some(ConversionError::InvalidLength));
    let mut sigma = plonk_proof(0);
    sigma.poly_evals.wire_sigma_evals.push(s(1));
    assert_eq!(to_contract_proof(&sigma).err(), Some(ConversionError::InvalidLength));

    assert_eq!(try_unwrap_commitments(&vec![point(1), point(2)], 2), Ok(vec![point(1), point(2)]));
    assert_eq!(try_unwrap_commitments(&vec![point(1)], 2), Err(ConversionError::InvalidLength));
    assert_eq!(try_unwrap_scalars(&vec![s(1), s(2)], 2), Ok(vec![s(1), s(2)]));
    assert_eq!(try_unwrap_scalars(&vec![s(1), s(2)], 1), Err(ConversionError::InvalidLength));

    let l = to_contract_link_proof(&link(5)).unwrap();
    assert_eq!(l.linking_quotient_poly_comm, point(5));
    assert_eq!(l.linking_poly_opening, point(105));
}

#[test]
fn proof_bundles_are_collected_in_order() {
    let (b0, b1) = (bundle(0), bundle(100));
    let settle = plonk_proof(500);
    let m = build_match_proofs(&b0, &b1, &settle).unwrap();
    assert_eq!(m.valid_commitments_0.z_comm, point(1010));
    assert_eq!(m.valid_reblind_0.z_comm, point(10));
    assert_eq!(m.valid_commitments_1.z_comm, point(1110));
    assert_eq!(m.valid_reblind_1.z_comm, point(110));
    assert_eq!(m.valid_match_settle.z_comm, point(510));

    let mut broken = bundle(100);
    broken.reblind_proof.poly_evals.wire_sigma_evals.clear();
    assert_eq!(build_match_proofs(&b0, &broken, &settle).err(), Some(ConversionError::InvalidLength));
    assert_eq!(build_atomic_match_proofs(&broken, &settle).err(), Some(ConversionError::InvalidLength));

    let match_bundle =
        MatchBundle { match_proof: plonk_proof(500), commitments_link0: link(7), commitments_link1: link(8) };
    let links = build_match_linking_proofs(&b0, &b1, &match_bundle).unwrap();
    assert_eq!(links.valid_reblind_commitments_0.linking_quotient_poly_comm, point(2000));
    assert_eq!(links.valid_reblind_commitments_1.linking_quotient_poly_comm, point(2100));
    assert_eq!(links.valid_commitments_match_settle_0.linking_quotient_poly_comm, point(7));
    assert_eq!(links.valid_commitments_match_settle_1.linking_quotient_poly_comm, point(8));

    let atomic = build_atomic_match_proofs(&b0, &settle).unwrap();
    assert_eq!(atomic.valid_commitments.z_comm, point(1010));
    assert_eq!(atomic.valid_reblind.z_comm, point(10));
    assert_eq!(atomic.valid_match_settle_atomic.z_comm, point(510));
    let atomic_links = build_atomic_match_linking_proofs(&b0, &link(9)).unwrap();
    assert_eq!(atomic_links.valid_reblind_commitments.linking_quotient_poly_comm, point(2000));
    assert_eq!(atomic_links.valid_commitments_match_settle_atomic.linking_poly_opening, point(109));
}

#[test]
fn big_numbers_fit_a_word_up_to_256_bits() {
    assert_eq!(biguint_to_u256(&BigUint { digits: vec![] }), Ok(U256::zero()));
    assert_eq!(
        biguint_to_u256(&BigUint { digits: vec![1, 2] }),
        Ok(U256 { l0: 1, l1: 2, l2: 0, l3: 0 })
    );
    assert_eq!(
        biguint_to_u256(&BigUint { digits: vec![1, 2, 3, 4, 0, 0] }),
        Ok(U256 { l0: 1, l1: 2, l2: 3, l3: 4 })
    );
    assert_eq!(
        biguint_to_u256(&BigUint { digits: vec![0, 0, 0, 0, 1] }),
        Err(ConversionError::InvalidUint)
    );
    assert_eq!(
        biguint_to_u256(&BigUint { digits: vec![9, 9, 9, 9, 0, 5] }),
        Err(ConversionError::InvalidUint)
    );
}

#[test]
fn transfer_authorisations_convert() {
    let deposit = TransferAuth::Deposit(DepositAuth {
        permit_nonce: BigUint { digits: vec![7] },
        permit_deadline: BigUint { digits: vec![0, 1] },
        permit_signature: vec![1, 2, 3],
    });
    let aux = to_contract_transfer_aux_data(deposit).unwrap();
    assert_eq!(aux.permit_nonce, Some(U256::from_u64(7)));
    assert_eq!(aux.permit_deadline, Some(U256 { l0: 0, l1: 1, l2: 0, l3: 0 }));
    assert_eq!(aux.permit_signature, Some(vec![1, 2, 3]));
    assert_eq!(aux.transfer_signature, None);

    let withdrawal =
        TransferAuth::Withdrawal(WithdrawalAuth { external_transfer_signature: vec![9, 8] });
    let aux = to_contract_transfer_aux_data(withdrawal).unwrap();
    assert_eq!(aux.permit_nonce, None);
    assert_eq!(aux.permit_deadline, None);
    assert_eq!(aux.permit_signature, None);
    assert_eq!(aux.transfer_signature, Some(vec![9, 8]));

    let too_big = TransferAuth::Deposit(DepositAuth {
        permit_nonce: BigUint { digits: vec![0, 0, 0, 0, 1] },
        permit_deadline: BigUint { digits: vec![1] },
        permit_signature: vec![],
    });
    assert_eq!(to_contract_transfer_aux_data(too_big).err(), Some(ConversionError::InvalidUint));
    let late = TransferAuth::Deposit(DepositAuth {
        permit_nonce: BigUint { digits: vec![1] },
        permit_deadline: BigUint { digits: vec![0, 0, 0, 0, 0, 2] },
        permit_signature: vec![],
    });
    assert_eq!(to_contract_transfer_aux_data(late).err(), Some(ConversionError::InvalidUint));
}

#[test]
fn wallet_statements_convert() {
    let create = ValidWalletCreateStatement {
        wallet_share_commitment: s(1),
        public_wallet_shares: share(10),
    };
    let c = to_contract_valid_wallet_create_statement(&create);
    assert_eq!(c.wallet_share_commitment, s(1));
    assert_eq!(c.public_wallet_shares, share(10).scalars);

    let none = ExternalTransfer {
        account_addr: Address::zero(),
        mint: Address::zero(),
        amount: 0,
        direction: ExternalTransferDirection::Deposit,
    };
    let mut update = ValidWalletUpdateStatement {
        old_shares_nullifier: s(1),
        new_wallet_commitment: s(2),
        new_public_shares: share(20),
        merkle_root: s(3),
        external_transfer: none,
        old_pk_root: key(),
    };
    let c = to_contract_valid_wallet_update_statement(&update).unwrap();
    assert_eq!(c.old_shares_nullifier, s(1));
    assert_eq!(c.new_wallet_commitment, s(2));
    assert_eq!(c.new_public_shares, share(20).scalars);
    assert_eq!(c.merkle_root, s(3));
    assert_eq!(c.external_transfer, None);
    assert_eq!(c.old_pk_root.y.high, s(4));

    update.external_transfer = ExternalTransfer { amount: 5, mint: Address::from_u128(3), ..none };
    let c = to_contract_valid_wallet_update_statement(&update).unwrap();
    let t = c.external_transfer.unwrap();
    assert_eq!(t.amount, U256::from_u64(5));
    assert_eq!(t.mint, EvmAddress { l0: 3, l1: 0, l2: 0 });
    assert!(!t.is_withdrawal);

    update.external_transfer = ExternalTransfer { mint: wide_address(), ..none };
    assert_eq!(
        to_contract_valid_wallet_update_statement(&update).err(),
        Some(ConversionError::InvalidLength)
    );

    let reblind = to_contract_valid_reblind_statement(&ValidReblindStatement {
        original_shares_nullifier: s(1),
        reblinded_private_share_commitment: s(2),
        merkle_root: s(3),
    });
    assert_eq!(
        (
            reblind.original_shares_nullifier,
            reblind.reblinded_private_shares_commitment,
            reblind.merkle_root
        ),
        (s(1), s(2), s(3))
    );
    let commitments = to_contract_valid_commitments_statement(ValidCommitmentsStatement {
        indices: OrderSettlementIndices { balance_send: 1, balance_receive: 2, order: 3 },
    });
    assert_eq!(
        commitments.indices,
        ContractOrderSettlementIndices { balance_send: 1, balance_receive: 2, order: 3 }
    );
}

#[test]
fn settlement_statements_convert() {
    let indices = OrderSettlementIndices { balance_send: 1, balance_receive: 2, order: 3 };
    let settle = to_contract_valid_match_settle_statement(&ValidMatchSettleStatement {
        party0_modified_shares: share(0),
        party1_modified_shares: share(100),
        party0_indices: indices,
        party1_indices: OrderSettlementIndices { balance_send: 4, balance_receive: 5, order: 0 },
        protocol_fee: FixedPoint::from_repr(s(77)),
    });
    assert_eq!(settle.party0_modified_shares, share(0).scalars);
    assert_eq!(settle.party1_modified_shares, share(100).scalars);
    assert_eq!(settle.party0_indices.balance_receive, 2);
    assert_eq!(settle.party1_indices.balance_send, 4);
    assert_eq!(settle.protocol_fee, s(77));

    let m = ExternalMatchResult {
        quote_mint: Address::from_u128(0xbb),
        base_mint: Address::from_u128(0xaa),
        quote_amount: 20,
        base_amount: 40,
        direction: true,
    };
    let mut atomic = ValidMatchSettleAtomicStatement {
        match_result: m,
        external_party_fees: FeeTake { relayer_fee: 1, protocol_fee: 2 },
        internal_party_modified_shares: share(5),
        internal_party_indices: indices,
        protocol_fee: FixedPoint::from_repr(s(77)),
        relayer_fee_address: Address::from_u128(0xfee),
    };
    let c = to_contract_valid_match_settle_atomic_statement(&atomic).unwrap();
    assert_eq!(c.match_result.base_amount, U256::from_u64(40));
    assert_eq!(c.external_party_fees.protocol_fee, U256::from_u64(2));
    assert_eq!(c.internal_party_modified_shares, share(5).scalars);
    assert_eq!(c.internal_party_indices.order, 3);
    assert_eq!(c.protocol_fee, s(77));
    assert_eq!(c.relayer_fee_address, EvmAddress { l0: 0xfee, l1: 0, l2: 0 });
    atomic.relayer_fee_address = wide_address();
    assert_eq!(
        to_contract_valid_match_settle_atomic_statement(&atomic).err(),
        Some(ConversionError::InvalidLength)
    );

    let rates = FeeTakeRate {
        relayer_fee_rate: FixedPoint::from_repr(s(5)),
        protocol_fee_rate: FixedPoint::from_repr(s(6)),
    };
    let mut malleable = ValidMalleableMatchSettleAtomicStatement {
        bounded_match_result: BoundedMatchResult {
            quote_mint: Address::from_u128(0xbb),
            base_mint: Address::from_u128(0xaa),
            price: FixedPoint::from_integer(2),
            min_base_amount: 10,
            max_base_amount: 100,
            direction: true,
        },
        external_fee_rates: rates,
        internal_fee_rates: FeeTakeRate { relayer_fee_rate: FixedPoint::from_repr(s(9)), ..rates },
        internal_party_public_shares: share(7),
        relayer_fee_address: Address::from_u128(0xfee),
    };
    let c = to_contract_valid_malleable_match_settle_atomic_statement(&malleable).unwrap();
    assert_eq!(c.match_result.max_base_amount, U256::from_u64(100));
    assert_eq!(c.external_fee_rates.relayer_fee_rate.repr, s(5));
    assert_eq!(c.internal_fee_rates.relayer_fee_rate.repr, s(9));
    assert_eq!(c.internal_party_public_shares, share(7).scalars);
    malleable.bounded_match_result.quote_mint = wide_address();
    assert_eq!(
        to_contract_valid_malleable_match_settle_atomic_statement(&malleable).err(),
        Some(ConversionError::InvalidLength)
    );
}

#[test]
fn fee_statements_convert() {
    let relayer = to_contract_valid_relayer_fee_settlement_statement(
        &ValidRelayerFeeSettlementStatement {
            sender_root: s(1),
            recipient_root: s(2),
            sender_nullifier: s(3),
            recipient_nullifier: s(4),
            sender_wallet_commitment: s(5),
            recipient_wallet_commitment: s(6),
            sender_updated_public_shares: share(0),
            recipient_updated_public_shares: share(200),
            recipient_pk_root: key(),
        },
    )
    .unwrap();
    assert_eq!(
        (
            relayer.sender_root,
            relayer.recipient_root,
            relayer.sender_nullifier,
            relayer.recipient_nullifier,
            relayer.sender_wallet_commitment,
            relayer.recipient_wallet_commitment
        ),
        (s(1), s(2), s(3), s(4), s(5), s(6))
    );
    assert_eq!(relayer.sender_updated_public_shares, share(0).scalars);
    assert_eq!(relayer.recipient_updated_public_shares, share(200).scalars);
    assert_eq!(relayer.recipient_pk_root.x.low, s(1));

    let offline = to_contract_valid_offline_fee_settlement_statement(
        &ValidOfflineFeeSettlementStatement {
            merkle_root: s(1),
            nullifier: s(2),
            new_wallet_commitment: s(3),
            updated_wallet_public_shares: share(30),
            note_ciphertext: ElGamalCiphertext {
                ephemeral_key: EncryptionKey { x: s(4), y: s(5) },
                ciphertext: [s(6), s(7), s(8)],
            },
            note_commitment: s(9),
            protocol_key: EncryptionKey { x: s(10), y: s(11) },
            is_protocol_fee: true,
        },
    );
    assert_eq!((offline.merkle_root, offline.nullifier, offline.new_wallet_commitment), (s(1), s(2), s(3)));
    assert_eq!(offline.updated_wallet_public_shares, share(30).scalars);
    assert_eq!(
        offline.note_ciphertext,
        ContractNoteCiphertext(ContractBabyJubJubPoint { x: s(4), y: s(5) }, s(6), s(7), s(8))
    );
    assert_eq!(offline.note_commitment, s(9));
    assert_eq!((offline.protocol_key.x, offline.protocol_key.y), (s(10), s(11)));
    assert!(offline.is_protocol_fee);

    let redeem = to_contract_valid_fee_redemption_statement(&ValidFeeRedemptionStatement {
        wallet_root: s(1),
        note_root: s(2),
        wallet_nullifier: s(3),
        note_nullifier: s(4),
        new_shares_commitment: s(5),
        new_wallet_public_shares: share(40),
        recipient_root_key: key(),
    })
    .unwrap();
    assert_eq!(
        (
            redeem.wallet_root,
            redeem.note_root,
            redeem.nullifier,
            redeem.note_nullifier,
            redeem.new_shares_commitment
        ),
        (s(1), s(2), s(3), s(4), s(5))
    );
    assert_eq!(redeem.new_wallet_public_shares, share(40).scalars);
    assert_eq!(redeem.old_pk_root.y.low, s(3));
}
