//! The task that pays a fee of a wallet into a note.
//!
//! The task itself does no outside work. `next_action` says what work its
//! state calls for; whoever drives the task does that work and hands what
//! came of it to `step`, which advances the state. States before
//! `SubmittingPayment` have no effect on chain; from there on the task must
//! be driven to its end.

use crate::calldata::DarkpoolClientError;
use crate::hash::{hasher_ready, is_digest};
use crate::merkle::is_merkle_root;
use crate::note::{ElGamalCiphertext, Note};
use crate::primitives::{Address, Amount};
use crate::scalar::Scalar;
use crate::shares::{is_reblind, is_wallet_commitment, is_wallet_nullifier};
use crate::statements::{ValidOfflineFeeSettlementStatement, ValidOfflineFeeSettlementWitness};
use crate::wallet::{has_balance, is_balance_index, lemma_balance_index_unique, Balance,
    EncryptionKey, MerkleOpening, Wallet};
use vstd::prelude::*;

verus! {

/// The name of the task.
pub const TASK_NAME: &'static str = "pay-offline-fee";

/// Message of the error for a wallet that the state does not hold.
pub const ERR_WALLET_MISSING: &'static str = "wallet not found in global state";

/// Message of the error for a token that the wallet does not hold.
pub const ERR_BALANCE_MISSING: &'static str = "balance not found in wallet";

/// Message of the error for a wallet whose path in the tree is not known.
pub const ERR_NO_MERKLE_PROOF: &'static str = "merkle proof not found for wallet";

/// Message of the error for a descriptor whose amount is not the fee owed.
pub const ERR_INVALID_FEE_AMOUNT: &'static str =
    "Fee amount in descriptor does not equal paid amount";

/// Message of the error for a result that the state did not call for.
pub const ERR_UNEXPECTED_RESULT: &'static str = "result does not match the state of the task";

/// The state of a fee payment. The states are ordered as the task passes
/// through them.
#[derive(Clone, Copy, Debug, PartialEq, Eq, Structural, PartialOrd, Ord, Hash)]
pub enum PayOfflineFeeTaskState {
    /// Waiting to be scheduled
    Pending,
    /// Proving the payment
    ProvingPayment,
    /// Submitting the payment to the contract
    SubmittingPayment,
    /// Finding the path of the new wallet in the tree
    FindingOpening,
    /// Renewing the validity proofs of the wallet's orders
    UpdatingValidityProofs,
    /// Done
    Completed,
}

impl PayOfflineFeeTaskState {
    /// The place of the state in the order of the task: 0 for `Pending`, one
    /// more for each state after.
    pub open spec fn spec_ordinal(self) -> nat {
        match self {
            PayOfflineFeeTaskState::Pending => 0,
            PayOfflineFeeTaskState::ProvingPayment => 1,
            PayOfflineFeeTaskState::SubmittingPayment => 2,
            PayOfflineFeeTaskState::FindingOpening => 3,
            PayOfflineFeeTaskState::UpdatingValidityProofs => 4,
            PayOfflineFeeTaskState::Completed => 5,
        }
    }

    /// The state that follows; `Completed` follows itself.
    pub open spec fn spec_next(self) -> PayOfflineFeeTaskState {
        match self {
            PayOfflineFeeTaskState::Pending => PayOfflineFeeTaskState::ProvingPayment,
            PayOfflineFeeTaskState::ProvingPayment => PayOfflineFeeTaskState::SubmittingPayment,
            PayOfflineFeeTaskState::SubmittingPayment => PayOfflineFeeTaskState::FindingOpening,
            PayOfflineFeeTaskState::FindingOpening => {
                PayOfflineFeeTaskState::UpdatingValidityProofs
            },
            PayOfflineFeeTaskState::UpdatingValidityProofs => PayOfflineFeeTaskState::Completed,
            PayOfflineFeeTaskState::Completed => PayOfflineFeeTaskState::Completed,
        }
    }

    /// The words that name the state.
    pub open spec fn spec_description(self) -> Seq<char> {
        match self {
            PayOfflineFeeTaskState::Pending => "Pending"@,
            PayOfflineFeeTaskState::ProvingPayment => "Proving Payment"@,
            PayOfflineFeeTaskState::SubmittingPayment => "Submitting Payment"@,
            PayOfflineFeeTaskState::FindingOpening => "Finding Opening"@,
            PayOfflineFeeTaskState::UpdatingValidityProofs => "Updating Validity Proofs"@,
            PayOfflineFeeTaskState::Completed => "Completed"@,
        }
    }

    /// The first state whose work has an effect on chain.
    pub fn commit_point() -> (r: PayOfflineFeeTaskState)
        ensures
            r == PayOfflineFeeTaskState::SubmittingPayment,
    {
        PayOfflineFeeTaskState::SubmittingPayment
    }

    /// Whether the task is done.
    pub fn completed(&self) -> (r: bool)
        ensures
            r == (*self == PayOfflineFeeTaskState::Completed),
    {
        matches!(self, PayOfflineFeeTaskState::Completed)
    }

    /// Whether the task has reached its commit point.
    pub fn committed(&self) -> (r: bool)
        ensures
            r == (self.spec_ordinal() >= PayOfflineFeeTaskState::SubmittingPayment.spec_ordinal()),
    {
        match self {
            PayOfflineFeeTaskState::Pending => false,
            PayOfflineFeeTaskState::ProvingPayment => false,
            _ => true,
        }
    }

    /// The number under which the state is stored.
    pub fn ordinal(&self) -> (r: u8)
        ensures
            r == self.spec_ordinal(),
    {
        match self {
            PayOfflineFeeTaskState::Pending => 0,
            PayOfflineFeeTaskState::ProvingPayment => 1,
            PayOfflineFeeTaskState::SubmittingPayment => 2,
            PayOfflineFeeTaskState::FindingOpening => 3,
            PayOfflineFeeTaskState::UpdatingValidityProofs => 4,
            PayOfflineFeeTaskState::Completed => 5,
        }
    }

    /// The state stored under a number, where there is one.
    pub fn from_ordinal(n: u8) -> (r: Option<PayOfflineFeeTaskState>)
        ensures
            n <= 5 ==> (r matches Some(s) && s.spec_ordinal() == n),
            n > 5 ==> r.is_none(),
    {
        match n {
            0 => Some(PayOfflineFeeTaskState::Pending),
            1 => Some(PayOfflineFeeTaskState::ProvingPayment),
            2 => Some(PayOfflineFeeTaskState::SubmittingPayment),
            3 => Some(PayOfflineFeeTaskState::FindingOpening),
            4 => Some(PayOfflineFeeTaskState::UpdatingValidityProofs),
            5 => Some(PayOfflineFeeTaskState::Completed),
            _ => None,
        }
    }

    /// The state that follows; `Completed` follows itself.
    pub fn next(&self) -> (r: PayOfflineFeeTaskState)
        ensures
            r == self.spec_next(),
    {
        match self {
            PayOfflineFeeTaskState::Pending => PayOfflineFeeTaskState::ProvingPayment,
            PayOfflineFeeTaskState::ProvingPayment => PayOfflineFeeTaskState::SubmittingPayment,
            PayOfflineFeeTaskState::SubmittingPayment => PayOfflineFeeTaskState::FindingOpening,
            PayOfflineFeeTaskState::FindingOpening => {
                PayOfflineFeeTaskState::UpdatingValidityProofs
            },
            PayOfflineFeeTaskState::UpdatingValidityProofs => PayOfflineFeeTaskState::Completed,
            PayOfflineFeeTaskState::Completed => PayOfflineFeeTaskState::Completed,
        }
    }

    /// The words that name the state.
    pub fn description(&self) -> (r: &'static str)
        ensures
            r@ == self.spec_description(),
    {
        match self {
            PayOfflineFeeTaskState::Pending => "Pending",
            PayOfflineFeeTaskState::ProvingPayment => "Proving Payment",
            PayOfflineFeeTaskState::SubmittingPayment => "Submitting Payment",
            PayOfflineFeeTaskState::FindingOpening => "Finding Opening",
            PayOfflineFeeTaskState::UpdatingValidityProofs => "Updating Validity Proofs",
            PayOfflineFeeTaskState::Completed => "Completed",
        }
    }
}

/// The states follow one another in order: each state that is not the last
/// is followed by the state with the next ordinal, no state is followed by
/// an earlier one, and states are told apart by their ordinals.
pub proof fn lemma_states_in_order(s: PayOfflineFeeTaskState, t: PayOfflineFeeTaskState)
    ensures
        s != PayOfflineFeeTaskState::Completed ==> s.spec_next().spec_ordinal() == s.spec_ordinal()
            + 1,
        s.spec_next().spec_ordinal() >= s.spec_ordinal(),
        s.spec_ordinal() <= PayOfflineFeeTaskState::Completed.spec_ordinal(),
        s.spec_ordinal() == t.spec_ordinal() ==> s == t,
{
}

/// The state after a step: the next one where the work of the state
/// succeeded, the same one where it did not.
pub open spec fn state_after_step(state: PayOfflineFeeTaskState, succeeded: bool)
    -> PayOfflineFeeTaskState {
    if succeeded {
        state.spec_next()
    } else {
        state
    }
}

/// The state after a run of steps, of which `succeeded` says for each
/// whether its work succeeded.
pub open spec fn state_after_steps(state: PayOfflineFeeTaskState, succeeded: Seq<bool>)
    -> PayOfflineFeeTaskState
    decreases succeeded.len(),
{
    if succeeded.len() == 0 {
        state
    } else {
        state_after_steps(state_after_step(state, succeeded[0]), succeeded.drop_first())
    }
}

/// However its steps turn out, a task never goes back to an earlier state,
/// and it moves on by at most one state for each step.
pub proof fn lemma_task_never_regresses(state: PayOfflineFeeTaskState, succeeded: Seq<bool>)
    ensures
        state_after_steps(state, succeeded).spec_ordinal() >= state.spec_ordinal(),
        state_after_steps(state, succeeded).spec_ordinal() <= state.spec_ordinal()
            + succeeded.len(),
    decreases succeeded.len(),
{
    if succeeded.len() > 0 {
        lemma_task_never_regresses(state_after_step(state, succeeded[0]), succeeded.drop_first());
    }
}

/// What went wrong in a fee payment.
#[derive(Clone, Debug)]
pub enum PayOfflineFeeTaskError {
    /// The contract, or the way to it, failed
    Darkpool(String),
    /// The proof could not be generated
    ProofGeneration(String),
    /// The state does not hold what the task needs
    State(String),
    /// The validity proofs could not be renewed
    UpdateValidityProofs(String),
    /// The descriptor asks for another amount than the fee owed
    InvalidFeeAmount(String),
}

impl PayOfflineFeeTaskError {
    /// Whether the step that failed may be tried again.
    pub open spec fn spec_retryable(&self) -> bool {
        !(self is InvalidFeeAmount)
    }

    /// The error of the task for an error of the contract's client.
    pub fn from_darkpool_error(error: DarkpoolClientError) -> (r: PayOfflineFeeTaskError)
        ensures
            r matches PayOfflineFeeTaskError::Darkpool(msg) && msg@ == error.spec_description(),
    {
        PayOfflineFeeTaskError::Darkpool(error.description().to_owned())
    }

    /// Whether the step that failed may be tried again: always, but where
    /// the descriptor itself is wrong.
    pub fn retryable(&self) -> (r: bool)
        ensures
            r == self.spec_retryable(),
    {
        match self {
            PayOfflineFeeTaskError::Darkpool(_)
            | PayOfflineFeeTaskError::State(_)
            | PayOfflineFeeTaskError::ProofGeneration(_)
            | PayOfflineFeeTaskError::UpdateValidityProofs(_) => true,
            PayOfflineFeeTaskError::InvalidFeeAmount(_) => false,
        }
    }
}

/// What a fee payment is asked to do.
#[derive(Clone, Copy, Debug, PartialEq, Eq, Structural, Hash)]
pub struct PayOfflineFeeTaskDescriptor {
    /// The wallet that pays
    pub wallet_id: u128,
    /// Whether the fee is the protocol's, else the relayer's
    pub is_protocol_fee: bool,
    /// The token of the fee
    pub mint: Address,
    /// The amount of the fee
    pub amount: Amount,
}

/// The outside work that a state calls for.
#[derive(Clone, Copy, Debug, PartialEq, Eq, Structural, Hash)]
pub enum TaskAction {
    /// Nothing: the task only has to be stepped
    Proceed,
    /// Generate the proof of the payment
    GenerateProof,
    /// Submit the payment to the contract
    SubmitPayment,
    /// Find the path of the new wallet in the tree
    FindMerkleOpening,
    /// Renew the validity proofs of the wallet's orders
    UpdateValidityProofs,
}

/// What came of the work that a state called for.
#[derive(Debug)]
pub enum StepResult<P, T> {
    /// There was nothing to do
    Proceeded,
    /// The proof of the payment
    ProofGenerated(P),
    /// The receipt of the payment
    PaymentSubmitted(T),
    /// The path of the new wallet in the tree, stored with the wallet
    OpeningFound(MerkleOpening),
    /// The validity proofs were renewed
    ValidityProofsUpdated,
    /// The work failed
    Failed(PayOfflineFeeTaskError),
}

/// A fee payment under way. `P` is the proof of the payment, `T` the receipt
/// of its transaction.
#[derive(Debug)]
pub struct PayOfflineFeeTask<P, T> {
    /// Whether the fee is the protocol's, else the relayer's
    pub is_protocol_fee: bool,
    /// The token of the fee
    pub mint: Address,
    /// The wallet before the payment
    pub old_wallet: Wallet,
    /// The wallet after the payment
    pub new_wallet: Wallet,
    /// The note that the payment creates
    pub note: Note,
    /// The proof of the payment, once generated
    pub proof: Option<P>,
    /// The receipt of the payment, once submitted
    pub tx: Option<T>,
    /// The state of the task
    pub task_state: PayOfflineFeeTaskState,
}

/// The fee that a balance owes to the protocol or to the relayer.
pub open spec fn fee_owed(balance: Balance, is_protocol_fee: bool) -> Amount {
    if is_protocol_fee {
        balance.protocol_fee_balance
    } else {
        balance.relayer_fee_balance
    }
}

/// The balance once that fee is paid.
pub open spec fn fee_paid(balance: Balance, is_protocol_fee: bool) -> Balance {
    if is_protocol_fee {
        Balance { protocol_fee_balance: 0, ..balance }
    } else {
        Balance { relayer_fee_balance: 0, ..balance }
    }
}

/// The key that the note of a fee is for: the protocol's, or that of the
/// cluster that manages the wallet.
pub open spec fn note_receiver(
    is_protocol_fee: bool,
    protocol_key: EncryptionKey,
    managing_cluster: EncryptionKey,
) -> EncryptionKey {
    if is_protocol_fee {
        protocol_key
    } else {
        managing_cluster
    }
}

/// Whether `paid` is `wallet` with the fee of its balance `index` paid and
/// nothing else changed.
pub open spec fn is_fee_payment(wallet: Wallet, paid: Wallet, index: int, is_protocol_fee: bool)
    -> bool {
    &&& paid.wallet_id == wallet.wallet_id
    &&& paid.balances@ == wallet.balances@.update(
        index,
        fee_paid(wallet.balances@[index], is_protocol_fee),
    )
    &&& paid.orders@ == wallet.orders@
    &&& paid.key_chain == wallet.key_chain
    &&& paid.max_match_fee == wallet.max_match_fee
    &&& paid.managing_cluster == wallet.managing_cluster
    &&& paid.blinder == wallet.blinder
    &&& paid.private_shares@ == wallet.private_shares@
    &&& paid.blinded_public_shares@ == wallet.blinded_public_shares@
}

/// Whether `(note, new_wallet)` is what paying the fee of the descriptor
/// from `old_wallet` gives: the note carries the fee owed on the first
/// balance of the token, to the receiver of the fee, and the new wallet is a
/// reblind of the old one with that fee paid.
pub open spec fn is_payment_of<H: Fn(Vec<Scalar>) -> Scalar>(
    hasher: &H,
    descriptor: PayOfflineFeeTaskDescriptor,
    old_wallet: Wallet,
    protocol_key: EncryptionKey,
    note_blinder: Scalar,
    note: Note,
    new_wallet: Wallet,
) -> bool {
    exists|index: int, paid: Wallet|
        {
            &&& is_balance_index(old_wallet.balances@, descriptor.mint, index)
            &&& note == (Note {
                mint: descriptor.mint,
                amount: fee_owed(old_wallet.balances@[index], descriptor.is_protocol_fee),
                receiver: note_receiver(
                    descriptor.is_protocol_fee,
                    protocol_key,
                    old_wallet.managing_cluster,
                ),
                blinder: note_blinder,
            })
            &&& #[trigger] is_fee_payment(old_wallet, paid, index, descriptor.is_protocol_fee)
            &&& paid.wf()
            &&& is_reblind(hasher, paid, new_wallet)
        }
}

/// Whether a wallet is the same as another: every part of it but the path
/// in the tree, which is compared by what it holds.
pub open spec fn same_wallet(a: Wallet, b: Wallet) -> bool {
    &&& a.wallet_id == b.wallet_id
    &&& a.balances@ == b.balances@
    &&& a.orders@ == b.orders@
    &&& a.key_chain == b.key_chain
    &&& a.max_match_fee == b.max_match_fee
    &&& a.managing_cluster == b.managing_cluster
    &&& a.blinder == b.blinder
    &&& a.private_shares@ == b.private_shares@
    &&& a.blinded_public_shares@ == b.blinded_public_shares@
    &&& a.merkle_proof is Some == b.merkle_proof is Some
    &&& a.merkle_proof matches Some(x) ==> (b.merkle_proof matches Some(y) && x.path_siblings@
        == y.path_siblings@ && x.leaf_index == y.leaf_index && x.value == y.value)
}

impl<P, T> PayOfflineFeeTask<P, T> {
    /// Whether the task holds what its state needs: well formed wallets and
    /// note, a balance of the token in the old wallet, the proof from
    /// `SubmittingPayment` on, the receipt from `FindingOpening` on.
    pub open spec fn wf(&self) -> bool {
        &&& self.old_wallet.wf()
        &&& self.new_wallet.wf()
        &&& self.note.wf()
        &&& has_balance(self.old_wallet.balances@, self.mint)
        &&& (self.task_state.spec_ordinal()
            >= PayOfflineFeeTaskState::SubmittingPayment.spec_ordinal() ==> self.proof is Some)
        &&& (self.task_state.spec_ordinal()
            >= PayOfflineFeeTaskState::FindingOpening.spec_ordinal() ==> self.tx is Some)
    }

    /// The outside work that a state calls for.
    pub open spec fn spec_action(state: PayOfflineFeeTaskState) -> TaskAction {
        match state {
            PayOfflineFeeTaskState::Pending => TaskAction::Proceed,
            PayOfflineFeeTaskState::ProvingPayment => TaskAction::GenerateProof,
            PayOfflineFeeTaskState::SubmittingPayment => TaskAction::SubmitPayment,
            PayOfflineFeeTaskState::FindingOpening => TaskAction::FindMerkleOpening,
            PayOfflineFeeTaskState::UpdatingValidityProofs => TaskAction::UpdateValidityProofs,
            PayOfflineFeeTaskState::Completed => TaskAction::Proceed,
        }
    }

    /// Whether a result is what the work of a state gives when it succeeds.
    pub open spec fn answers(state: PayOfflineFeeTaskState, result: StepResult<P, T>) -> bool {
        match state {
            PayOfflineFeeTaskState::Pending => result is Proceeded,
            PayOfflineFeeTaskState::ProvingPayment => result is ProofGenerated,
            PayOfflineFeeTaskState::SubmittingPayment => result is PaymentSubmitted,
            PayOfflineFeeTaskState::FindingOpening => result is OpeningFound,
            PayOfflineFeeTaskState::UpdatingValidityProofs => result is ValidityProofsUpdated,
            PayOfflineFeeTaskState::Completed => false,
        }
    }

    /// Clone the old wallet, move the fee owed on the token of the
    /// descriptor into a note, and reblind.
    ///
    /// Fails with `State` where the wallet does not hold the token.
    pub fn get_wallet_and_note<H: Fn(Vec<Scalar>) -> Scalar>(
        descriptor: &PayOfflineFeeTaskDescriptor,
        old_wallet: &Wallet,
        protocol_key: EncryptionKey,
        note_blinder: Scalar,
        hasher: &H,
    ) -> (r: Result<(Note, Wallet), PayOfflineFeeTaskError>)
        requires
            old_wallet.wf(),
            protocol_key.wf(),
            note_blinder.wf(),
            hasher_ready(hasher),
        ensures
            !has_balance(old_wallet.balances@, descriptor.mint) ==> (r matches Err(
                PayOfflineFeeTaskError::State(msg),
            ) && msg@ == ERR_BALANCE_MISSING@),
            has_balance(old_wallet.balances@, descriptor.mint) ==> (r matches Ok((note, new_wallet))
                && note.wf() && new_wallet.wf() && new_wallet.shares_consistent() && is_payment_of(
                hasher,
                *descriptor,
                *old_wallet,
                protocol_key,
                note_blinder,
                note,
                new_wallet,
            )),
    {
        let mut new_wallet = old_wallet.clone();
        let index = match new_wallet.get_balance_index(&descriptor.mint) {
            Some(index) => index,
            None => {
                return Err(PayOfflineFeeTaskError::State(ERR_BALANCE_MISSING.to_owned()));
            },
        };
        let mut balance = new_wallet.balances[index];
        assert(old_wallet.balances@[index as int].wf());
        let note = if descriptor.is_protocol_fee {
            balance.create_protocol_note(protocol_key, note_blinder)
        } else {
            balance.create_relayer_note(old_wallet.managing_cluster, note_blinder)
        };
        new_wallet.balances.set(index, balance);
        let ghost paid = new_wallet;
        assert(is_fee_payment(*old_wallet, paid, index as int, descriptor.is_protocol_fee));
        assert(paid.wf()) by {
            assert forall|i: int| 0 <= i < paid.balances@.len() implies (
            #[trigger] paid.balances@[i]).wf() by {
                assert(old_wallet.balances@[i].wf());
            }
        }

        new_wallet.reblind_wallet(hasher);
        Ok((note, new_wallet))
    }

    /// Set up the payment that a descriptor asks for, from the wallet that
    /// the state holds under the descriptor's identifier.
    ///
    /// Fails with `State` where there is no wallet or the wallet does not
    /// hold the token, and with `InvalidFeeAmount` where the descriptor's
    /// amount is not the fee that the wallet owes.
    pub fn new<H: Fn(Vec<Scalar>) -> Scalar>(
        descriptor: PayOfflineFeeTaskDescriptor,
        old_wallet: Option<Wallet>,
        protocol_key: EncryptionKey,
        note_blinder: Scalar,
        hasher: &H,
    ) -> (r: Result<Self, PayOfflineFeeTaskError>)
        requires
            old_wallet matches Some(w) ==> w.wf(),
            protocol_key.wf(),
            note_blinder.wf(),
            hasher_ready(hasher),
        ensures
            old_wallet is None ==> (r matches Err(PayOfflineFeeTaskError::State(msg)) && msg@
                == ERR_WALLET_MISSING@),
            old_wallet matches Some(w) ==> {
                &&& !has_balance(w.balances@, descriptor.mint) ==> (r matches Err(
                    PayOfflineFeeTaskError::State(msg),
                ) && msg@ == ERR_BALANCE_MISSING@)
                &&& forall|index: int|
                    is_balance_index(w.balances@, descriptor.mint, index) && fee_owed(
                        #[trigger] w.balances@[index],
                        descriptor.is_protocol_fee,
                    ) != descriptor.amount ==> (r matches Err(
                        PayOfflineFeeTaskError::InvalidFeeAmount(msg),
                    ) && msg@ == ERR_INVALID_FEE_AMOUNT@)
                &&& forall|index: int|
                    is_balance_index(w.balances@, descriptor.mint, index) && fee_owed(
                        #[trigger] w.balances@[index],
                        descriptor.is_protocol_fee,
                    ) == descriptor.amount ==> (r matches Ok(task) && {
                        &&& task.wf()
                        &&& task.task_state == PayOfflineFeeTaskState::Pending
                        &&& task.proof is None
                        &&& task.tx is None
                        &&& task.is_protocol_fee == descriptor.is_protocol_fee
                        &&& task.mint == descriptor.mint
                        &&& task.note.amount == descriptor.amount
                        &&& same_wallet(task.old_wallet, w)
                        &&& task.new_wallet.shares_consistent()
                        &&& is_payment_of(
                            hasher,
                            descriptor,
                            w,
                            protocol_key,
                            note_blinder,
                            task.note,
                            task.new_wallet,
                        )
                    })
            },
    {
        let old_wallet = match old_wallet {
            Some(w) => w,
            None => {
                return Err(PayOfflineFeeTaskError::State(ERR_WALLET_MISSING.to_owned()));
            },
        };

        let (note, new_wallet) = match Self::get_wallet_and_note(
            &descriptor,
            &old_wallet,
            protocol_key,
            note_blinder,
            hasher,
        ) {
            Ok(pair) => pair,
            Err(e) => {
                return Err(e);
            },
        };
        proof {
            let (index, paid) = choose|index: int, paid: Wallet|
                {
                    &&& is_balance_index(old_wallet.balances@, descriptor.mint, index)
                    &&& note == (Note {
                        mint: descriptor.mint,
                        amount: fee_owed(old_wallet.balances@[index], descriptor.is_protocol_fee),
                        receiver: note_receiver(
                            descriptor.is_protocol_fee,
                            protocol_key,
                            old_wallet.managing_cluster,
                        ),
                        blinder: note_blinder,
                    })
                    &&& #[trigger] is_fee_payment(
                        old_wallet,
                        paid,
                        index,
                        descriptor.is_protocol_fee,
                    )
                    &&& paid.wf()
                    &&& is_reblind(hasher, paid, new_wallet)
                };
            assert forall|i: int|
                is_balance_index(old_wallet.balances@, descriptor.mint, i) implies i == index by {
                lemma_balance_index_unique(old_wallet.balances@, descriptor.mint, i, index);
            }
        }
        if descriptor.amount != note.amount {
            return Err(PayOfflineFeeTaskError::InvalidFeeAmount(ERR_INVALID_FEE_AMOUNT.to_owned()));
        }
        Ok(
            PayOfflineFeeTask {
                is_protocol_fee: descriptor.is_protocol_fee,
                mint: descriptor.mint,
                old_wallet,
                new_wallet,
                note,
                proof: None,
                tx: None,
                task_state: PayOfflineFeeTaskState::Pending,
            },
        )
    }

    /// Whether the task holds what its state needs. Whoever restores a task
    /// from storage checks it with this before stepping it.
    pub fn is_well_formed(&self) -> (r: bool)
        ensures
            r == self.wf(),
    {
        let note_ok = self.note.mint.to_scalar().is_some() && self.note.receiver.x.is_canonical()
            && self.note.receiver.y.is_canonical() && self.note.blinder.is_canonical();
        let proof_ok = !self.task_state.committed() || self.proof.is_some();
        let tx_ok = self.task_state.ordinal() < PayOfflineFeeTaskState::FindingOpening.ordinal()
            || self.tx.is_some();
        self.old_wallet.is_well_formed() && self.new_wallet.is_well_formed() && note_ok
            && self.old_wallet.get_balance_index(&self.mint).is_some() && proof_ok && tx_ok
    }

    /// Whether the task is done.
    pub fn completed(&self) -> (r: bool)
        ensures
            r == (self.task_state == PayOfflineFeeTaskState::Completed),
    {
        self.task_state.completed()
    }

    /// The state of the task.
    pub fn state(&self) -> (r: PayOfflineFeeTaskState)
        ensures
            r == self.task_state,
    {
        self.task_state
    }

    /// The name of the task.
    pub fn name(&self) -> (r: String)
        ensures
            r@ == TASK_NAME@,
    {
        TASK_NAME.to_owned()
    }

    /// The outside work that the state of the task calls for.
    pub fn next_action(&self) -> (r: TaskAction)
        ensures
            r == Self::spec_action(self.task_state),
    {
        match self.task_state {
            PayOfflineFeeTaskState::Pending => TaskAction::Proceed,
            PayOfflineFeeTaskState::ProvingPayment => TaskAction::GenerateProof,
            PayOfflineFeeTaskState::SubmittingPayment => TaskAction::SubmitPayment,
            PayOfflineFeeTaskState::FindingOpening => TaskAction::FindMerkleOpening,
            PayOfflineFeeTaskState::UpdatingValidityProofs => TaskAction::UpdateValidityProofs,
            PayOfflineFeeTaskState::Completed => TaskAction::Proceed,
        }
    }

    /// The key under which the note is to be encrypted.
    pub fn encryption_key(&self, protocol_key: EncryptionKey) -> (r: EncryptionKey)
        ensures
            r == note_receiver(
                self.is_protocol_fee,
                protocol_key,
                self.old_wallet.managing_cluster,
            ),
    {
        if self.is_protocol_fee {
            protocol_key
        } else {
            self.old_wallet.managing_cluster
        }
    }

    /// Whether the note is to be redeemed at once: where the fee is the
    /// relayer's, the relayer redeems by itself, and it has the key to
    /// decrypt.
    pub fn should_redeem(&self, auto_redeem: bool, has_decryption_key: bool) -> (r: bool)
        ensures
            r == (!self.is_protocol_fee && auto_redeem && has_decryption_key),
    {
        !self.is_protocol_fee && auto_redeem && has_decryption_key
    }

    /// Take in what came of the work of the current state.
    ///
    /// Where the work succeeded and the result is the one that the state
    /// calls for, the task keeps what the result brings and moves to the
    /// next state. Where the work failed, the error is returned and the task
    /// stays as it is, so that the step can be tried again. A result that
    /// the state did not call for is refused with `State`, and the task
    /// stays as it is too.
    pub fn step(&mut self, result: StepResult<P, T>) -> (r: Result<(), PayOfflineFeeTaskError>)
        requires
            old(self).wf(),
            old(self).task_state != PayOfflineFeeTaskState::Completed,
            result matches StepResult::OpeningFound(opening) ==> opening.wf(),
        ensures
            final(self).wf(),
            final(self).task_state == state_after_step(
                old(self).task_state,
                Self::answers(old(self).task_state, result),
            ),
            final(self).task_state.spec_ordinal() >= old(self).task_state.spec_ordinal(),
            final(self).is_protocol_fee == old(self).is_protocol_fee,
            final(self).mint == old(self).mint,
            final(self).note == old(self).note,
            final(self).old_wallet == old(self).old_wallet,
            Self::answers(old(self).task_state, result) ==> {
                &&& r is Ok
                &&& final(self).task_state == old(self).task_state.spec_next()
                &&& final(self).proof == (match result {
                    StepResult::ProofGenerated(p) => Some(p),
                    _ => old(self).proof,
                })
                &&& final(self).tx == (match result {
                    StepResult::PaymentSubmitted(t) => Some(t),
                    _ => old(self).tx,
                })
                &&& match result {
                    StepResult::OpeningFound(opening) => final(self).new_wallet == (Wallet {
                        merkle_proof: Some(opening),
                        ..old(self).new_wallet
                    }),
                    _ => final(self).new_wallet == old(self).new_wallet,
                }
            },
            result matches StepResult::Failed(e) ==> r == Err::<(), PayOfflineFeeTaskError>(e)
                && *final(self) == *old(self),
            !Self::answers(old(self).task_state, result) && !(result is Failed) ==> (r matches Err(
                PayOfflineFeeTaskError::State(msg),
            ) && msg@ == ERR_UNEXPECTED_RESULT@) && *final(self) == *old(self),
    {
        match (self.task_state, result) {
            (_, StepResult::Failed(e)) => Err(e),
            (PayOfflineFeeTaskState::Pending, StepResult::Proceeded) => {
                self.task_state = PayOfflineFeeTaskState::ProvingPayment;
                Ok(())
            },
            (PayOfflineFeeTaskState::ProvingPayment, StepResult::ProofGenerated(proof)) => {
                self.proof = Some(proof);
                self.task_state = PayOfflineFeeTaskState::SubmittingPayment;
                Ok(())
            },
            (PayOfflineFeeTaskState::SubmittingPayment, StepResult::PaymentSubmitted(tx)) => {
                self.tx = Some(tx);
                self.task_state = PayOfflineFeeTaskState::FindingOpening;
                Ok(())
            },
            (PayOfflineFeeTaskState::FindingOpening, StepResult::OpeningFound(opening)) => {
                self.new_wallet.merkle_proof = Some(opening);
                self.task_state = PayOfflineFeeTaskState::UpdatingValidityProofs;
                Ok(())
            },
            (PayOfflineFeeTaskState::UpdatingValidityProofs, StepResult::ValidityProofsUpdated) => {
                self.task_state = PayOfflineFeeTaskState::Completed;
                Ok(())
            },
            _ => Err(PayOfflineFeeTaskError::State(ERR_UNEXPECTED_RESULT.to_owned())),
        }
    }

    /// Assemble statement and witness of the payment.
    ///
    /// The note's ciphertext and the randomness of its encryption come from
    /// whoever encrypted the note under `encryption_key`. Fails with `State`
    /// where the path of the old wallet in the tree is not known.
    pub fn get_witness_statement<H: Fn(Vec<Scalar>) -> Scalar>(
        &self,
        hasher: &H,
        protocol_key: EncryptionKey,
        note_ciphertext: ElGamalCiphertext,
        encryption_randomness: Scalar,
    ) -> (r: Result<
        (ValidOfflineFeeSettlementStatement, ValidOfflineFeeSettlementWitness),
        PayOfflineFeeTaskError,
    >)
        requires
            self.wf(),
            hasher_ready(hasher),
        ensures
            self.old_wallet.merkle_proof is None ==> (r matches Err(
                PayOfflineFeeTaskError::State(msg),
            ) && msg@ == ERR_NO_MERKLE_PROOF@),
            self.old_wallet.merkle_proof matches Some(opening) ==> (r matches Ok((s, w)) && {
                &&& is_merkle_root(
                    hasher,
                    opening.path_siblings@,
                    opening.leaf_index as nat,
                    opening.value,
                    s.merkle_root,
                )
                &&& is_wallet_nullifier(
                    hasher,
                    self.old_wallet.private_shares@,
                    self.old_wallet.blinded_public_shares@,
                    self.old_wallet.blinder,
                    s.nullifier,
                )
                &&& is_wallet_commitment(
                    hasher,
                    self.new_wallet.private_shares@,
                    self.new_wallet.blinded_public_shares@,
                    s.new_wallet_commitment,
                )
                &&& s.updated_wallet_public_shares@ == self.new_wallet.blinded_public_shares@
                &&& s.note_ciphertext == note_ciphertext
                &&& is_digest(hasher, self.note.spec_scalars(), s.note_commitment)
                &&& s.protocol_key == protocol_key
                &&& s.is_protocol_fee == self.is_protocol_fee
                &&& w.original_wallet_public_shares@ == self.old_wallet.blinded_public_shares@
                &&& w.original_wallet_private_shares@ == self.old_wallet.private_shares@
                &&& w.updated_wallet_private_shares@ == self.new_wallet.private_shares@
                &&& w.merkle_opening.path_siblings@ == opening.path_siblings@
                &&& w.merkle_opening.leaf_index == opening.leaf_index
                &&& w.merkle_opening.value == opening.value
                &&& w.note == self.note
                &&& w.encryption_randomness == encryption_randomness
                &&& is_balance_index(self.old_wallet.balances@, self.mint, w.send_index as int)
            }),
    {
        let wallet = &self.old_wallet;
        let nullifier = wallet.get_wallet_nullifier(hasher);
        let opening = match &wallet.merkle_proof {
            Some(opening) => opening.clone(),
            None => {
                return Err(PayOfflineFeeTaskError::State(ERR_NO_MERKLE_PROOF.to_owned()));
            },
        };
        let send_index = match wallet.get_balance_index(&self.mint) {
            Some(index) => index,
            None => {
                assert(false);
                0
            },
        };
        let note_commitment = self.note.commitment(hasher);

        let new_wallet = &self.new_wallet;
        let new_wallet_commitment = new_wallet.get_wallet_share_commitment(hasher);

        let statement = ValidOfflineFeeSettlementStatement {
            merkle_root: opening.compute_root(hasher),
            nullifier,
            new_wallet_commitment,
            updated_wallet_public_shares: new_wallet.blinded_public_shares.clone(),
            note_ciphertext,
            note_commitment,
            protocol_key,
            is_protocol_fee: self.is_protocol_fee,
        };
        let witness = ValidOfflineFeeSettlementWitness {
            original_wallet_public_shares: wallet.blinded_public_shares.clone(),
            original_wallet_private_shares: wallet.private_shares.clone(),
            updated_wallet_private_shares: new_wallet.private_shares.clone(),
            merkle_opening: opening,
            note: self.note,
            encryption_randomness,
            send_index,
        };
        Ok((statement, witness))
    }
}

} // verus!
