use darkpool_core::fixed_point::FixedPoint;
use darkpool_core::note::{ElGamalCiphertext, Note};
use darkpool_core::pay_offline_fee::{
    PayOfflineFeeTask, PayOfflineFeeTaskDescriptor, PayOfflineFeeTaskError,
    PayOfflineFeeTaskState, StepResult, TaskAction, ERR_BALANCE_MISSING, ERR_INVALID_FEE_AMOUNT,
    ERR_NO_MERKLE_PROOF, ERR_UNEXPECTED_RESULT, ERR_WALLET_MISSING,
};
use darkpool_core::primitives::{Address, OrderSide};
use darkpool_core::scalar::Scalar;
use darkpool_core::wallet::{
    Balance, EncryptionKey, MerkleOpening, NonNativeScalar, Order, PublicKeyChain,
    PublicSigningKey, Wallet,
};
use darkpool_core::wallet_share::WalletShare;

type Task = PayOfflineFeeTask<&'static str, u64>;

fn s(x: u64) -> Scalar {
    Scalar::from_u64(x)
}

fn toy_hash(input: Vec<Scalar>) -> Scalar {
    let mut acc = s(7);
    for x in input.iter() {
        acc = acc.mul(&s(31)).add(x).add(&Scalar::one());
    }
    acc
}

fn numbered_share(from: u64) -> WalletShare {
    WalletShare::from_scalars((0..70u64).map(|i| s(from + i)).collect()).unwrap()
}

fn mint() -> Address {
    Address::from_u128(0xaa)
}

fn protocol_key() -> EncryptionKey {
    EncryptionKey { x: s(71), y: s(72) }
}

fn wallet_owing(protocol_fee: u128, relayer_fee: u128) -> Wallet {
    let mut w = Wallet {
        wallet_id: 1,
        balances: vec![Balance {
            mint: mint(),
            amount: 1000,
            relayer_fee_balance: relayer_fee,
            protocol_fee_balance: protocol_fee,
        }],
        orders: vec![Order {
            quote_mint: Address::from_u128(0xbb),
            base_mint: mint(),
            side: OrderSide::Buy,
            amount: 4,
            worst_case_price: FixedPoint::from_integer(2),
        }],
        key_chain: PublicKeyChain {
            pk_root: PublicSigningKey {
                x: NonNativeScalar { low: s(11), high: s(12) },
                y: NonNativeScalar { low: s(13), high: s(14) },
            },
            pk_match: s(15),
            nonce: s(16),
        },
        max_match_fee: FixedPoint::from_repr(s(17)),
        managing_cluster: EncryptionKey { x: s(18), y: s(19) },
        blinder: s(20),
        private_shares: numbered_share(100),
        blinded_public_shares: numbered_share(0),
        merkle_proof: Some(MerkleOpening {
            path_siblings: vec![s(5), s(6)],
            leaf_index: 2,
            value: s(9),
        }),
    };
    w.set_shares_from_private(numbered_share(100));
    w
}

fn descriptor(amount: u128, is_protocol_fee: bool) -> PayOfflineFeeTaskDescriptor {
    PayOfflineFeeTaskDescriptor { wallet_id: 1, is_protocol_fee, mint: mint(), amount }
}

fn new_task() -> Task {
    Task::new(descriptor(100, true), Some(wallet_owing(100, 3)), protocol_key(), s(55), &toy_hash)
        .unwrap()
}

fn state_message(e: &PayOfflineFeeTaskError) -> &str {
    match e {
        PayOfflineFeeTaskError::State(m) => m,
        _ => panic!("not a state error: {:?}", e),
    }
}

#[test]
fn a_new_task_pays_the_protocol_fee_into_a_note() {
    let old = wallet_owing(100, 3);
    let task = new_task();
    assert_eq!(task.state(), PayOfflineFeeTaskState::Pending);
    assert!(!task.completed());
    assert_eq!(task.name(), "pay-offline-fee");
    assert!(task.proof.is_none());
    assert!(task.tx.is_none());
    assert!(task.is_protocol_fee);
    assert_eq!(task.mint, mint());
    assert_eq!(task.note, Note { mint: mint(), amount: 100, receiver: protocol_key(), blinder: s(55) });

    assert_eq!(task.old_wallet.balances, old.balances);
    assert_eq!(task.old_wallet.private_shares.scalars, old.private_shares.scalars);
    assert_eq!(task.new_wallet.balances[0].protocol_fee_balance, 0);
    assert_eq!(task.new_wallet.balances[0].relayer_fee_balance, 3);
    assert_eq!(task.new_wallet.balances[0].amount, 1000);

    // the new wallet is the paid wallet, reblinded
    let mut expected = old.clone();
    expected.balances[0].protocol_fee_balance = 0;
    expected.reblind_wallet(&toy_hash);
    assert_eq!(task.new_wallet.blinder, expected.blinder);
    assert_eq!(task.new_wallet.private_shares.scalars, expected.private_shares.scalars);
    assert_eq!(
        task.new_wallet.blinded_public_shares.scalars,
        expected.blinded_public_shares.scalars
    );
    assert!(task.new_wallet.check_wallet_shares());
    assert!(task.new_wallet.merkle_proof.is_none());
}

#[test]
fn a_relayer_fee_goes_to_the_managing_cluster() {
    let task =
        Task::new(descriptor(3, false), Some(wallet_owing(100, 3)), protocol_key(), s(55), &toy_hash)
            .unwrap();
    assert_eq!(task.note.amount, 3);
    assert_eq!(task.note.receiver, EncryptionKey { x: s(18), y: s(19) });
    assert_eq!(task.new_wallet.balances[0].relayer_fee_balance, 0);
    assert_eq!(task.new_wallet.balances[0].protocol_fee_balance, 100);
    assert_eq!(task.encryption_key(protocol_key()), EncryptionKey { x: s(18), y: s(19) });
    assert_eq!(new_task().encryption_key(protocol_key()), protocol_key());
}

#[test]
fn a_descriptor_with_another_amount_is_rejected() {
    let r = Task::new(descriptor(99, true), Some(wallet_owing(100, 3)), protocol_key(), s(55), &toy_hash);
    match r {
        Err(PayOfflineFeeTaskError::InvalidFeeAmount(m)) => {
            assert_eq!(m, ERR_INVALID_FEE_AMOUNT);
            assert_eq!(m, "Fee amount in descriptor does not equal paid amount");
        }
        other => panic!("expected InvalidFeeAmount, got {:?}", other.map(|_| ())),
    }
    assert!(!PayOfflineFeeTaskError::InvalidFeeAmount(String::new()).retryable());
}

#[test]
fn a_missing_wallet_or_balance_is_a_state_error() {
    let r = Task::new(descriptor(100, true), None, protocol_key(), s(55), &toy_hash);
    let e = r.err().unwrap();
    assert_eq!(state_message(&e), ERR_WALLET_MISSING);
    assert!(e.retryable());

    let mut d = descriptor(100, true);
    d.mint = Address::from_u128(0xcc);
    let e = Task::new(d, Some(wallet_owing(100, 3)), protocol_key(), s(55), &toy_hash).err().unwrap();
    assert_eq!(state_message(&e), ERR_BALANCE_MISSING);

    let e = Task::get_wallet_and_note(&d, &wallet_owing(100, 3), protocol_key(), s(55), &toy_hash)
        .err()
        .unwrap();
    assert_eq!(state_message(&e), ERR_BALANCE_MISSING);
}

#[test]
fn errors_say_whether_to_retry() {
    assert!(PayOfflineFeeTaskError::Darkpool("x".to_string()).retryable());
    assert!(PayOfflineFeeTaskError::ProofGeneration("x".to_string()).retryable());
    assert!(PayOfflineFeeTaskError::State("x".to_string()).retryable());
    assert!(PayOfflineFeeTaskError::UpdateValidityProofs("x".to_string()).retryable());
    assert!(!PayOfflineFeeTaskError::InvalidFeeAmount("x".to_string()).retryable());
}

#[test]
fn states_are_ordered_and_stored_by_ordinal() {
    let all = [
        PayOfflineFeeTaskState::Pending,
        PayOfflineFeeTaskState::ProvingPayment,
        PayOfflineFeeTaskState::SubmittingPayment,
        PayOfflineFeeTaskState::FindingOpening,
        PayOfflineFeeTaskState::UpdatingValidityProofs,
        PayOfflineFeeTaskState::Completed,
    ];
    let names = [
        "Pending",
        "Proving Payment",
        "Submitting Payment",
        "Finding Opening",
        "Updating Validity Proofs",
        "Completed",
    ];
    for (i, st) in all.iter().enumerate() {
        assert_eq!(st.ordinal() as usize, i);
        assert_eq!(PayOfflineFeeTaskState::from_ordinal(i as u8), Some(*st));
        assert_eq!(st.description(), names[i]);
        assert_eq!(st.completed(), i == 5);
        assert_eq!(st.committed(), i >= 2);
        if i < 5 {
            assert_eq!(st.next(), all[i + 1]);
        }
    }
    assert_eq!(PayOfflineFeeTaskState::Completed.next(), PayOfflineFeeTaskState::Completed);
    assert_eq!(PayOfflineFeeTaskState::from_ordinal(6), None);
    assert_eq!(PayOfflineFeeTaskState::commit_point(), PayOfflineFeeTaskState::SubmittingPayment);
}

#[test]
fn a_task_runs_through_its_states_in_order() {
    let mut task = new_task();
    assert_eq!(task.next_action(), TaskAction::Proceed);
    task.step(StepResult::Proceeded).unwrap();
    assert_eq!(task.state(), PayOfflineFeeTaskState::ProvingPayment);

    assert_eq!(task.next_action(), TaskAction::GenerateProof);
    task.step(StepResult::ProofGenerated("proof")).unwrap();
    assert_eq!(task.state(), PayOfflineFeeTaskState::SubmittingPayment);
    assert_eq!(task.proof, Some("proof"));

    assert_eq!(task.next_action(), TaskAction::SubmitPayment);
    task.step(StepResult::PaymentSubmitted(42)).unwrap();
    assert_eq!(task.state(), PayOfflineFeeTaskState::FindingOpening);
    assert_eq!(task.tx, Some(42));

    assert_eq!(task.next_action(), TaskAction::FindMerkleOpening);
    let opening = MerkleOpening { path_siblings: vec![s(1), s(2)], leaf_index: 3, value: s(4) };
    task.step(StepResult::OpeningFound(opening)).unwrap();
    assert_eq!(task.state(), PayOfflineFeeTaskState::UpdatingValidityProofs);
    let stored = task.new_wallet.merkle_proof.as_ref().unwrap();
    assert_eq!(stored.path_siblings, vec![s(1), s(2)]);
    assert_eq!(stored.leaf_index, 3);
    assert_eq!(stored.value, s(4));

    assert_eq!(task.next_action(), TaskAction::UpdateValidityProofs);
    task.step(StepResult::ValidityProofsUpdated).unwrap();
    assert_eq!(task.state(), PayOfflineFeeTaskState::Completed);
    assert!(task.completed());
    assert_eq!(task.proof, Some("proof"));
    assert_eq!(task.tx, Some(42));
}

#[test]
fn a_failed_step_leaves_the_task_where_it_was() {
    let mut task = new_task();
    task.step(StepResult::Proceeded).unwrap();
    let e = task
        .step(StepResult::Failed(PayOfflineFeeTaskError::ProofGeneration("queue closed".to_string())))
        .err()
        .unwrap();
    assert!(matches!(&e, PayOfflineFeeTaskError::ProofGeneration(m) if m == "queue closed"));
    assert!(e.retryable());
    assert_eq!(task.state(), PayOfflineFeeTaskState::ProvingPayment);
    assert!(task.proof.is_none());
    // the step can be tried again
    task.step(StepResult::ProofGenerated("proof")).unwrap();
    assert_eq!(task.state(), PayOfflineFeeTaskState::SubmittingPayment);
}

#[test]
fn a_result_that_was_not_called_for_is_refused() {
    let mut task = new_task();
    let e = task.step(StepResult::PaymentSubmitted(1)).err().unwrap();
    assert_eq!(state_message(&e), ERR_UNEXPECTED_RESULT);
    assert_eq!(task.state(), PayOfflineFeeTaskState::Pending);
    assert!(task.tx.is_none());
    task.step(StepResult::Proceeded).unwrap();
    let e = task.step(StepResult::Proceeded).err().unwrap();
    assert_eq!(state_message(&e), ERR_UNEXPECTED_RESULT);
    assert_eq!(task.state(), PayOfflineFeeTaskState::ProvingPayment);
}

#[test]
fn a_post_commit_failure_does_not_regress() {
    let mut task = new_task();
    task.step(StepResult::Proceeded).unwrap();
    task.step(StepResult::ProofGenerated("proof")).unwrap();
    task.step(StepResult::PaymentSubmitted(42)).unwrap();
    assert!(task.state().committed());
    for _ in 0..3 {
        let e = task
            .step(StepResult::Failed(PayOfflineFeeTaskError::Darkpool("opening not found".to_string())))
            .err()
            .unwrap();
        assert!(e.retryable());
        assert_eq!(task.state(), PayOfflineFeeTaskState::FindingOpening);
        assert_eq!(task.tx, Some(42));
    }
}

#[test]
fn a_task_resumes_after_the_submission_without_submitting_again() {
    // what was stored before the crash: the state by its ordinal, and the receipt
    let before = {
        let mut task = new_task();
        task.step(StepResult::Proceeded).unwrap();
        task.step(StepResult::ProofGenerated("proof")).unwrap();
        task.step(StepResult::PaymentSubmitted(42)).unwrap();
        task
    };
    let stored_state = before.state().ordinal();
    assert_eq!(stored_state, 3);

    let mut resumed = Task {
        is_protocol_fee: before.is_protocol_fee,
        mint: before.mint,
        old_wallet: before.old_wallet.clone(),
        new_wallet: before.new_wallet.clone(),
        note: before.note,
        proof: before.proof,
        tx: before.tx,
        task_state: PayOfflineFeeTaskState::from_ordinal(stored_state).unwrap(),
    };
    assert_eq!(resumed.state(), PayOfflineFeeTaskState::FindingOpening);
    assert_eq!(resumed.next_action(), TaskAction::FindMerkleOpening);
    assert_ne!(resumed.next_action(), TaskAction::SubmitPayment);
    assert_eq!(resumed.tx, Some(42));

    let opening = MerkleOpening { path_siblings: vec![], leaf_index: 0, value: s(4) };
    resumed.step(StepResult::OpeningFound(opening)).unwrap();
    resumed.step(StepResult::ValidityProofsUpdated).unwrap();
    assert!(resumed.completed());
    assert_eq!(resumed.tx, Some(42));
}

#[test]
fn redemption_is_for_relayer_fees_only() {
    let protocol = new_task();
    assert!(!protocol.should_redeem(true, true));
    let relayer =
        Task::new(descriptor(3, false), Some(wallet_owing(100, 3)), protocol_key(), s(55), &toy_hash)
            .unwrap();
    assert!(relayer.should_redeem(true, true));
    assert!(!relayer.should_redeem(false, true));
    assert!(!relayer.should_redeem(true, false));
}

#[test]
fn statement_and_witness_are_assembled_from_both_wallets() {
    let task = new_task();
    let ciphertext = ElGamalCiphertext {
        ephemeral_key: EncryptionKey { x: s(81), y: s(82) },
        ciphertext: [s(83), s(84), s(85)],
    };
    let (statement, witness) =
        task.get_witness_statement(&toy_hash, protocol_key(), ciphertext, s(99)).unwrap();

    let old = &task.old_wallet;
    let new = &task.new_wallet;
    // root of the old wallet's path: leaf index 2 is a left child, then a right child
    let n1 = toy_hash(vec![s(9), s(5)]);
    let root = toy_hash(vec![s(6), n1]);
    assert_eq!(statement.merkle_root, root);
    assert_eq!(statement.nullifier, old.get_wallet_nullifier(&toy_hash));
    assert_eq!(statement.new_wallet_commitment, new.get_wallet_share_commitment(&toy_hash));
    assert_eq!(statement.updated_wallet_public_shares.scalars, new.blinded_public_shares.scalars);
    assert_eq!(statement.note_ciphertext.ciphertext, [s(83), s(84), s(85)]);
    assert_eq!(statement.note_ciphertext.ephemeral_key, EncryptionKey { x: s(81), y: s(82) });
    assert_eq!(
        statement.note_commitment,
        toy_hash(vec![s(0xaa), s(100), s(71), s(72), s(55)])
    );
    assert_eq!(statement.note_commitment, task.note.commitment(&toy_hash));
    assert_eq!(statement.protocol_key, protocol_key());
    assert!(statement.is_protocol_fee);

    assert_eq!(witness.original_wallet_public_shares.scalars, old.blinded_public_shares.scalars);
    assert_eq!(witness.original_wallet_private_shares.scalars, old.private_shares.scalars);
    assert_eq!(witness.updated_wallet_private_shares.scalars, new.private_shares.scalars);
    assert_eq!(witness.merkle_opening.path_siblings, vec![s(5), s(6)]);
    assert_eq!(witness.merkle_opening.leaf_index, 2);
    assert_eq!(witness.note, task.note);
    assert_eq!(witness.encryption_randomness, s(99));
    assert_eq!(witness.send_index, 0);
}

#[test]
fn a_wallet_without_a_path_cannot_be_proved() {
    let mut w = wallet_owing(100, 3);
    w.merkle_proof = None;
    let task = Task::new(descriptor(100, true), Some(w), protocol_key(), s(55), &toy_hash).unwrap();
    let ciphertext = ElGamalCiphertext {
        ephemeral_key: EncryptionKey { x: s(81), y: s(82) },
        ciphertext: [s(83), s(84), s(85)],
    };
    let e = task.get_witness_statement(&toy_hash, protocol_key(), ciphertext, s(99)).err().unwrap();
    assert_eq!(state_message(&e), ERR_NO_MERKLE_PROOF);
}

#[test]
fn states_compare_in_the_order_of_the_task() {
    assert!(PayOfflineFeeTaskState::Pending < PayOfflineFeeTaskState::ProvingPayment);
    assert!(PayOfflineFeeTaskState::ProvingPayment < PayOfflineFeeTaskState::commit_point());
    assert!(PayOfflineFeeTaskState::FindingOpening > PayOfflineFeeTaskState::commit_point());
    assert!(PayOfflineFeeTaskState::UpdatingValidityProofs < PayOfflineFeeTaskState::Completed);
    let mut task = new_task();
    let mut last = task.state();
    let results: Vec<StepResult<&'static str, u64>> = vec![
        StepResult::Proceeded,
        StepResult::Failed(PayOfflineFeeTaskError::State("not yet".to_string())),
        StepResult::ProofGenerated("proof"),
        StepResult::ValidityProofsUpdated,
        StepResult::PaymentSubmitted(1),
        StepResult::Failed(PayOfflineFeeTaskError::Darkpool("timeout".to_string())),
        StepResult::OpeningFound(MerkleOpening { path_siblings: vec![], leaf_index: 0, value: s(4) }),
        StepResult::ValidityProofsUpdated,
    ];
    for r in results {
        let _ = task.step(r);
        assert!(task.state() >= last);
        last = task.state();
    }
    assert!(task.completed());
}

#[test]
fn client_errors_become_darkpool_errors() {
    use_client_error(
        darkpool_core::calldata::DarkpoolClientError::BlinderNotFound,
        "blinder not found in calldata",
    );
    use_client_error(
        darkpool_core::calldata::DarkpoolClientError::Conversion(
            darkpool_core::conversion::ConversionError::InvalidUint,
        ),
        "conversion error: invalid integer",
    );
    use_client_error(
        darkpool_core::calldata::DarkpoolClientError::Conversion(
            darkpool_core::conversion::ConversionError::InvalidLength,
        ),
        "conversion error: invalid length",
    );
}

fn use_client_error(e: darkpool_core::calldata::DarkpoolClientError, words: &str) {
    assert_eq!(e.description(), words);
    assert!(!e.retryable());
    match PayOfflineFeeTaskError::from_darkpool_error(e) {
        PayOfflineFeeTaskError::Darkpool(m) => assert_eq!(m, words),
        other => panic!("expected a darkpool error, got {:?}", other),
    }
}
