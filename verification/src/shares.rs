//! Commitments to a wallet's shares, reblinding, and recovery of a wallet
//! from its shares.
//!
//! The hash is a parameter: every function that hashes takes the hash
//! function and states which scalars it hands to it.

use crate::hash::{evaluate_hash_chain, hash_scalars, hasher_deterministic, hasher_ready,
    is_digest, is_hash_chain, lemma_hash_chain_unique};
use crate::scalar::{all_wf, field_sub, values, Scalar};
use crate::wallet::{Balance, Order, Wallet};
use crate::wallet_share::{copy_scalars, lemma_share_ext, lemma_share_round_trip, reconstruct,
    reduced, split_public, WalletShare, BLINDER_SLOT, MAX_BALANCES, SEED_SLOT, WALLET_SHARE_LEN};
use vstd::prelude::*;

verus! {

/// A commitment to shares of a wallet.
pub type WalletShareStateCommitment = Scalar;

/// A nullifier of shares of a wallet.
pub type Nullifier = Scalar;

/// Whether `c` commits to a private share: it is a digest of the share's
/// scalars.
pub open spec fn is_private_commitment<H: Fn(Vec<Scalar>) -> Scalar>(
    hasher: &H,
    private: Seq<Scalar>,
    c: Scalar,
) -> bool {
    is_digest(hasher, private, c)
}

/// Whether `c` commits to a pair of shares: it is a digest of a commitment
/// to the private share followed by the public share.
pub open spec fn is_wallet_commitment<H: Fn(Vec<Scalar>) -> Scalar>(
    hasher: &H,
    private: Seq<Scalar>,
    public: Seq<Scalar>,
    c: Scalar,
) -> bool {
    exists|pc: Scalar| #[trigger]
        is_private_commitment(hasher, private, pc) && is_digest(hasher, seq![pc] + public, c)
}

/// Whether `n` nullifies a pair of shares under a blinder: it is a digest of
/// a commitment to the shares followed by the blinder.
pub open spec fn is_wallet_nullifier<H: Fn(Vec<Scalar>) -> Scalar>(
    hasher: &H,
    private: Seq<Scalar>,
    public: Seq<Scalar>,
    blinder: Scalar,
    n: Scalar,
) -> bool {
    exists|c: Scalar| #[trigger]
        is_wallet_commitment(hasher, private, public, c) && is_digest(
            hasher,
            seq![c, blinder],
            n,
        )
}

/// Commit to a private share.
pub fn compute_wallet_private_share_commitment<H: Fn(Vec<Scalar>) -> Scalar>(
    hasher: &H,
    private_shares: &WalletShare,
) -> (c: Scalar)
    requires
        hasher_ready(hasher),
        all_wf(private_shares@),
    ensures
        c.wf(),
        is_private_commitment(hasher, private_shares@, c),
{
    hash_scalars(hasher, private_shares.to_scalars())
}

/// Commit to a pair of shares, given the commitment to the private one.
pub fn compute_wallet_commitment_from_private<H: Fn(Vec<Scalar>) -> Scalar>(
    hasher: &H,
    public_shares: &WalletShare,
    private_commitment: Scalar,
) -> (c: Scalar)
    requires
        hasher_ready(hasher),
        all_wf(public_shares@),
        private_commitment.wf(),
    ensures
        c.wf(),
        is_digest(hasher, seq![private_commitment] + public_shares@, c),
{
    let mut input: Vec<Scalar> = Vec::new();
    input.push(private_commitment);
    let mut i: usize = 0;
    while i < public_shares.scalars.len()
        invariant
            i <= public_shares@.len(),
            all_wf(public_shares@),
            private_commitment.wf(),
            input@ == seq![private_commitment] + public_shares@.subrange(0, i as int),
        decreases public_shares@.len() - i,
    {
        input.push(public_shares.scalars[i]);
        i = i + 1;
        assert(input@ =~= seq![private_commitment] + public_shares@.subrange(0, i as int));
    }
    assert(public_shares@.subrange(0, i as int) =~= public_shares@);
    assert(all_wf(input@)) by {
        assert forall|j: int| 0 <= j < input@.len() implies (#[trigger] input@[j]).wf() by {
            if j > 0 {
                assert(input@[j] == public_shares@[j - 1]);
            }
        }
    }
    hash_scalars(hasher, input)
}

/// Commit to a pair of shares.
pub fn compute_wallet_share_commitment<H: Fn(Vec<Scalar>) -> Scalar>(
    hasher: &H,
    public_shares: &WalletShare,
    private_shares: &WalletShare,
) -> (c: Scalar)
    requires
        hasher_ready(hasher),
        all_wf(public_shares@),
        all_wf(private_shares@),
    ensures
        c.wf(),
        is_wallet_commitment(hasher, private_shares@, public_shares@, c),
{
    let pc = compute_wallet_private_share_commitment(hasher, private_shares);
    let c = compute_wallet_commitment_from_private(hasher, public_shares, pc);
    assert(is_private_commitment(hasher, private_shares@, pc));
    c
}

/// The nullifier of a commitment under a blinder.
pub fn compute_wallet_share_nullifier<H: Fn(Vec<Scalar>) -> Scalar>(
    hasher: &H,
    share_commitment: Scalar,
    wallet_blinder: Scalar,
) -> (n: Scalar)
    requires
        hasher_ready(hasher),
        share_commitment.wf(),
        wallet_blinder.wf(),
    ensures
        n.wf(),
        is_digest(hasher, seq![share_commitment, wallet_blinder], n),
{
    let mut input: Vec<Scalar> = Vec::new();
    input.push(share_commitment);
    input.push(wallet_blinder);
    assert(input@ =~= seq![share_commitment, wallet_blinder]);
    hash_scalars(hasher, input)
}

/// Whether `blinder` and `private_share` are the two links of the hash chain
/// from `seed`.
pub open spec fn is_blinder_pair<H: Fn(Vec<Scalar>) -> Scalar>(
    hasher: &H,
    seed: Scalar,
    blinder: Scalar,
    private_share: Scalar,
) -> bool {
    is_hash_chain(hasher, seed, seq![blinder, private_share])
}

/// Whether `recovered` holds the sums of a private and a public share.
pub open spec fn is_recovered(private: Seq<Scalar>, public: Seq<Scalar>, recovered: Seq<Scalar>)
    -> bool {
    all_wf(recovered) && values(recovered) == reconstruct(values(private), values(public))
}

/// The balances that the first slots of a serialised wallet stand for.
pub open spec fn recovered_balances(recovered: Seq<Scalar>) -> Seq<Balance> {
    Seq::new(
        MAX_BALANCES as nat,
        |i: int| Balance::spec_from_scalars(recovered.subrange(4 * i, 4 * i + 4)),
    )
}

/// The first `n` orders that a serialised wallet stands for.
pub open spec fn recovered_orders(recovered: Seq<Scalar>, n: nat) -> Seq<Order> {
    Seq::new(n, |i: int| Order::spec_from_scalars(recovered.subrange(40 + 5 * i, 45 + 5 * i)))
}

/// Whether `new` is `old` reblinded with the given hash chains: the first
/// link of the blinder chain is the new blinder, the private share is the
/// share chain followed by the second link of the blinder chain, the public
/// share is the wallet less the private share, the path in the tree is
/// forgotten, and nothing else has changed.
pub open spec fn reblinded_with(
    old: Wallet,
    new: Wallet,
    blinder_chain: Seq<Scalar>,
    share_chain: Seq<Scalar>,
) -> bool {
    &&& new.blinder == blinder_chain[0]
    &&& new.private_shares@ == share_chain.push(blinder_chain[1])
    &&& new.blinded_public_shares.values() == split_public(
        new.contents(),
        new.private_shares.values(),
    )
    &&& new.merkle_proof is None
    &&& new.wallet_id == old.wallet_id
    &&& new.balances@ == old.balances@
    &&& new.orders@ == old.orders@
    &&& new.key_chain == old.key_chain
    &&& new.max_match_fee == old.max_match_fee
    &&& new.managing_cluster == old.managing_cluster
}

/// Whether `new` is a reblind of `old` under a hash function: there are a
/// chain of two links from the private share of the blinder, and a chain
/// from the last other private share with one link for every slot but the
/// blinder's, with which `new` is `old` reblinded.
pub open spec fn is_reblind<H: Fn(Vec<Scalar>) -> Scalar>(hasher: &H, old: Wallet, new: Wallet)
    -> bool {
    exists|blinder_chain: Seq<Scalar>, share_chain: Seq<Scalar>|
        {
            &&& blinder_chain.len() == 2
            &&& share_chain.len() == WALLET_SHARE_LEN - 1
            &&& is_hash_chain(hasher, old.private_shares@[BLINDER_SLOT as int], blinder_chain)
            &&& is_hash_chain(hasher, old.private_shares@[SEED_SLOT as int], share_chain)
            &&& #[trigger] reblinded_with(old, new, blinder_chain, share_chain)
        }
}

/// A reblind changes the blinder and the shares only: every other slot of
/// the wallet is as before, and the new shares add up to the new wallet.
pub proof fn lemma_reblind_keeps_wallet<H: Fn(Vec<Scalar>) -> Scalar>(
    hasher: &H,
    old: Wallet,
    new: Wallet,
)
    requires
        old.wf(),
        new.wf(),
        is_reblind(hasher, old, new),
    ensures
        new.balances@ == old.balances@,
        new.orders@ == old.orders@,
        new.key_chain == old.key_chain,
        new.max_match_fee == old.max_match_fee,
        new.managing_cluster == old.managing_cluster,
        new.contents() == old.contents().update(BLINDER_SLOT as int, new.blinder@),
        new.shares_consistent(),
{
    assert(new.contents() =~= old.contents().update(BLINDER_SLOT as int, new.blinder@));
    lemma_contents_reduced(new);
    lemma_share_round_trip(new.contents(), new.private_shares.values());
}

/// Where the shares add up to the wallet, the shares of the blinder add up
/// to the blinder.
pub proof fn lemma_blinder_shares_add_up(w: Wallet)
    requires
        w.wf(),
        w.shares_consistent(),
    ensures
        crate::scalar::field_add(
            w.private_shares@[BLINDER_SLOT as int]@,
            w.blinded_public_shares@[BLINDER_SLOT as int]@,
        ) == w.blinder@,
{
    let sum = reconstruct(w.private_shares.values(), w.blinded_public_shares.values());
    assert(sum[BLINDER_SLOT as int] == w.contents()[BLINDER_SLOT as int]);
}

/// Every slot of a well formed wallet is below the field order.
pub proof fn lemma_contents_reduced(w: Wallet)
    requires
        w.wf(),
    ensures
        reduced(w.contents()),
        reduced(w.private_shares.values()),
        reduced(w.blinded_public_shares.values()),
{
    assert forall|i: int| 0 <= i < w.contents().len() implies #[trigger] w.contents()[i]
        < crate::scalar::modulus() by {
        if i < 40 {
            let b = crate::wallet::padded_balance(w.balances@, i / 4);
            if i / 4 < w.balances@.len() {
                assert(w.balances@[i / 4].wf());
            }
        } else if i < 60 {
            let o = crate::wallet::padded_order(w.orders@, (i - 40) / 5);
            if (i - 40) / 5 < w.orders@.len() {
                assert(w.orders@[(i - 40) / 5].wf());
            }
        }
    }
    assert forall|i: int| 0 <= i < w.private_shares.values().len() implies #[trigger]
        w.private_shares.values()[i] < crate::scalar::modulus() by {
        assert(w.private_shares@[i].wf());
    }
    assert forall|i: int| 0 <= i < w.blinded_public_shares.values().len() implies #[trigger]
        w.blinded_public_shares.values()[i] < crate::scalar::modulus() by {
        assert(w.blinded_public_shares@[i].wf());
    }
}

/// Under a deterministic hash function two reblinds of one wallet agree on
/// the private share, the public share and the blinder.
pub proof fn lemma_reblind_deterministic<H: Fn(Vec<Scalar>) -> Scalar>(
    hasher: &H,
    old: Wallet,
    new1: Wallet,
    new2: Wallet,
)
    requires
        hasher_deterministic(hasher),
        is_reblind(hasher, old, new1),
        is_reblind(hasher, old, new2),
    ensures
        new1.private_shares@ == new2.private_shares@,
        new1.blinded_public_shares@ == new2.blinded_public_shares@,
        new1.blinder == new2.blinder,
{
    let (bc1, sc1) = choose|bc: Seq<Scalar>, sc: Seq<Scalar>|
        {
            &&& bc.len() == 2
            &&& sc.len() == WALLET_SHARE_LEN - 1
            &&& is_hash_chain(hasher, old.private_shares@[BLINDER_SLOT as int], bc)
            &&& is_hash_chain(hasher, old.private_shares@[SEED_SLOT as int], sc)
            &&& #[trigger] reblinded_with(old, new1, bc, sc)
        };
    let (bc2, sc2) = choose|bc: Seq<Scalar>, sc: Seq<Scalar>|
        {
            &&& bc.len() == 2
            &&& sc.len() == WALLET_SHARE_LEN - 1
            &&& is_hash_chain(hasher, old.private_shares@[BLINDER_SLOT as int], bc)
            &&& is_hash_chain(hasher, old.private_shares@[SEED_SLOT as int], sc)
            &&& #[trigger] reblinded_with(old, new2, bc, sc)
        };
    lemma_hash_chain_unique(hasher, old.private_shares@[BLINDER_SLOT as int], bc1, bc2);
    lemma_hash_chain_unique(hasher, old.private_shares@[SEED_SLOT as int], sc1, sc2);
    assert(new1.contents() =~= new2.contents());
    lemma_share_ext(new1.blinded_public_shares@, new2.blinded_public_shares@);
}

impl Wallet {
    /// Replace the shares of the wallet by a private share and the public
    /// share that completes it to the wallet.
    pub fn set_shares_from_private(&mut self, private_shares: WalletShare)
        requires
            old(self).wf(),
            private_shares.wf(),
        ensures
            final(self).wf(),
            final(self).shares_consistent(),
            final(self).private_shares@ == private_shares@,
            final(self).blinded_public_shares.values() == split_public(
                old(self).contents(),
                private_shares.values(),
            ),
            final(self).contents() == old(self).contents(),
            final(self).wallet_id == old(self).wallet_id,
            final(self).balances == old(self).balances,
            final(self).orders == old(self).orders,
            final(self).key_chain == old(self).key_chain,
            final(self).max_match_fee == old(self).max_match_fee,
            final(self).managing_cluster == old(self).managing_cluster,
            final(self).blinder == old(self).blinder,
            final(self).merkle_proof == old(self).merkle_proof,
    {
        let cleartext = WalletShare { scalars: self.to_scalars() };
        let public = cleartext.sub_shares(&private_shares);
        self.private_shares = private_shares;
        self.blinded_public_shares = public;
        proof {
            lemma_contents_reduced(*self);
            lemma_share_round_trip(self.contents(), self.private_shares.values());
        }
    }

    /// Whether the wallet's shares add up to the wallet.
    pub fn check_wallet_shares(&self) -> (r: bool)
        requires
            self.wf(),
        ensures
            r == self.shares_consistent(),
    {
        let cleartext = self.to_scalars();
        let recovered = self.private_shares.add_shares(&self.blinded_public_shares);
        let r = crate::wallet_share::scalars_equal(&recovered.scalars, &cleartext);
        proof {
            if !r && self.shares_consistent() {
                lemma_share_ext(recovered@, cleartext@);
            }
        }
        r
    }

    /// The commitment to the private share.
    pub fn get_private_share_commitment<H: Fn(Vec<Scalar>) -> Scalar>(&self, hasher: &H) -> (c:
        WalletShareStateCommitment)
        requires
            self.wf(),
            hasher_ready(hasher),
        ensures
            c.wf(),
            is_private_commitment(hasher, self.private_shares@, c),
    {
        compute_wallet_private_share_commitment(hasher, &self.private_shares)
    }

    /// The commitment to both shares.
    pub fn get_wallet_share_commitment<H: Fn(Vec<Scalar>) -> Scalar>(&self, hasher: &H) -> (c:
        WalletShareStateCommitment)
        requires
            self.wf(),
            hasher_ready(hasher),
        ensures
            c.wf(),
            is_wallet_commitment(hasher, self.private_shares@, self.blinded_public_shares@, c),
    {
        compute_wallet_share_commitment(hasher, &self.blinded_public_shares, &self.private_shares)
    }

    /// The nullifier of the wallet: of its commitment, under its blinder.
    pub fn get_wallet_nullifier<H: Fn(Vec<Scalar>) -> Scalar>(&self, hasher: &H) -> (n:
        Nullifier)
        requires
            self.wf(),
            hasher_ready(hasher),
        ensures
            n.wf(),
            is_wallet_nullifier(
                hasher,
                self.private_shares@,
                self.blinded_public_shares@,
                self.blinder,
                n,
            ),
    {
        let c = self.get_wallet_share_commitment(hasher);
        let n = compute_wallet_share_nullifier(hasher, c, self.blinder);
        assert(is_wallet_commitment(hasher, self.private_shares@, self.blinded_public_shares@, c));
        n
    }

    /// The private share of the blinder.
    pub fn private_blinder_share(&self) -> (r: Scalar)
        requires
            self.wf(),
        ensures
            r == self.private_shares@[BLINDER_SLOT as int],
    {
        self.private_shares.blinder()
    }

    /// The public share of the blinder.
    pub fn public_blinder(&self) -> (r: Scalar)
        requires
            self.wf(),
        ensures
            r == self.blinded_public_shares@[BLINDER_SLOT as int],
    {
        self.blinded_public_shares.blinder()
    }

    /// The last private share that is not the blinder's.
    pub fn get_last_private_share(&self) -> (r: Scalar)
        requires
            self.wf(),
        ensures
            r == self.private_shares@[SEED_SLOT as int],
    {
        self.private_shares.last_non_blinder()
    }

    /// The blinder of the next reblind and the private share of it: the two
    /// links of the hash chain from the private share of the blinder.
    pub fn new_blinder_and_private_share<H: Fn(Vec<Scalar>) -> Scalar>(&self, hasher: &H) -> (r: (
        Scalar,
        Scalar,
    ))
        requires
            self.wf(),
            hasher_ready(hasher),
        ensures
            r.0.wf(),
            r.1.wf(),
            is_blinder_pair(hasher, self.private_shares@[BLINDER_SLOT as int], r.0, r.1),
    {
        let seed = self.private_blinder_share();
        let chain = evaluate_hash_chain(hasher, seed, 2);
        assert(chain@ =~= seq![chain@[0], chain@[1]]);
        (chain[0], chain[1])
    }

    /// The public share of the blinder after the next reblind: the new
    /// blinder less its private share.
    pub fn next_public_blinder<H: Fn(Vec<Scalar>) -> Scalar>(&self, hasher: &H) -> (r: Scalar)
        requires
            self.wf(),
            hasher_ready(hasher),
        ensures
            r.wf(),
            exists|b: Scalar, p: Scalar| #[trigger]
                is_blinder_pair(hasher, self.private_shares@[BLINDER_SLOT as int], b, p) && r@
                    == field_sub(b@, p@),
    {
        let (new_blinder, new_blinder_private) = self.new_blinder_and_private_share(hasher);
        new_blinder.sub(&new_blinder_private)
    }

    /// Reblind the wallet with hash chains that were evaluated beforehand.
    pub fn reblind_with_chains(&mut self, blinder_chain: &Vec<Scalar>, share_chain: &Vec<Scalar>)
        requires
            old(self).wf(),
            blinder_chain@.len() == 2,
            share_chain@.len() == WALLET_SHARE_LEN - 1,
            all_wf(blinder_chain@),
            all_wf(share_chain@),
        ensures
            final(self).wf(),
            reblinded_with(*old(self), *final(self), blinder_chain@, share_chain@),
            final(self).shares_consistent(),
    {
        let mut new_private = copy_scalars(share_chain);
        new_private.push(blinder_chain[1]);
        let private = WalletShare { scalars: new_private };
        assert(private.wf()) by {
            assert forall|j: int| 0 <= j < private@.len() implies (#[trigger] private@[j]).wf() by {
                if j < share_chain@.len() {
                    assert(private@[j] == share_chain@[j]);
                }
            }
        }

        self.blinder = blinder_chain[0];
        let cleartext = WalletShare { scalars: self.to_scalars() };
        let public = cleartext.sub_shares(&private);

        self.private_shares = private;
        self.blinded_public_shares = public;
        self.merkle_proof = None;
        proof {
            lemma_contents_reduced(*self);
            lemma_share_round_trip(self.contents(), self.private_shares.values());
        }
    }

    /// Reblind the wallet: take the next blinder and the next private share
    /// from their hash chains, and recompute the public share.
    pub fn reblind_wallet<H: Fn(Vec<Scalar>) -> Scalar>(&mut self, hasher: &H)
        requires
            old(self).wf(),
            hasher_ready(hasher),
        ensures
            final(self).wf(),
            is_reblind(hasher, *old(self), *final(self)),
            final(self).shares_consistent(),
    {
        let blinder_seed = self.private_blinder_share();
        let share_seed = self.get_last_private_share();
        let blinder_chain = evaluate_hash_chain(hasher, blinder_seed, 2);
        let share_chain = evaluate_hash_chain(hasher, share_seed, WALLET_SHARE_LEN - 1);
        self.reblind_with_chains(&blinder_chain, &share_chain);
    }

    /// Replace what the wallet holds by what a pair of shares stands for.
    ///
    /// The blinder, all balances and the orders that the wallet already has
    /// are read from the sum of the shares; the shares are stored, and the
    /// path in the tree is forgotten. Keys and fees stay as they are.
    pub fn update_from_shares(
        &mut self,
        private_shares: &WalletShare,
        blinded_public_shares: &WalletShare,
    )
        requires
            old(self).wf(),
            private_shares.wf(),
            blinded_public_shares.wf(),
        ensures
            final(self).wf(),
            exists|recovered: Seq<Scalar>|
                {
                    &&& #[trigger] is_recovered(private_shares@, blinded_public_shares@, recovered)
                    &&& final(self).blinder == recovered[BLINDER_SLOT as int]
                    &&& final(self).balances@ == recovered_balances(recovered)
                    &&& final(self).orders@ == recovered_orders(recovered, old(self).orders@.len())
                },
            final(self).private_shares@ == private_shares@,
            final(self).blinded_public_shares@ == blinded_public_shares@,
            final(self).merkle_proof is None,
            final(self).wallet_id == old(self).wallet_id,
            final(self).key_chain == old(self).key_chain,
            final(self).max_match_fee == old(self).max_match_fee,
            final(self).managing_cluster == old(self).managing_cluster,
    {
        let recovered = private_shares.add_shares(blinded_public_shares);
        let rec = &recovered.scalars;

        let mut balances: Vec<Balance> = Vec::new();
        let mut i: usize = 0;
        while i < MAX_BALANCES
            invariant
                i <= MAX_BALANCES,
                rec@.len() == WALLET_SHARE_LEN,
                all_wf(rec@),
                balances@.len() == i,
                forall|j: int|
                    0 <= j < i ==> #[trigger] balances@[j] == Balance::spec_from_scalars(
                        rec@.subrange(4 * j, 4 * j + 4),
                    ) && balances@[j].wf(),
            decreases MAX_BALANCES - i,
        {
            balances.push(Balance::from_scalars(rec, 4 * i));
            i = i + 1;
        }
        assert(balances@ =~= recovered_balances(rec@));

        let n_orders = self.orders.len();
        let mut orders: Vec<Order> = Vec::new();
        let mut k: usize = 0;
        while k < n_orders
            invariant
                k <= n_orders,
                n_orders <= crate::wallet_share::MAX_ORDERS,
                rec@.len() == WALLET_SHARE_LEN,
                all_wf(rec@),
                orders@.len() == k,
                forall|j: int|
                    0 <= j < k ==> #[trigger] orders@[j] == Order::spec_from_scalars(
                        rec@.subrange(40 + 5 * j, 45 + 5 * j),
                    ) && orders@[j].wf(),
            decreases n_orders - k,
        {
            orders.push(Order::from_scalars(rec, 40 + 5 * k));
            k = k + 1;
        }
        assert(orders@ =~= recovered_orders(rec@, n_orders as nat));

        self.blinder = rec[BLINDER_SLOT];
        self.balances = balances;
        self.orders = orders;
        self.private_shares = private_shares.clone();
        self.blinded_public_shares = blinded_public_shares.clone();
        self.merkle_proof = None;
        assert(is_recovered(private_shares@, blinded_public_shares@, rec@));
    }
}

} // verus!
