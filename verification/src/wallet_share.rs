//! Secret shares of a wallet.
//!
//! A wallet is serialised to a fixed number of scalars; a share of it is a
//! vector of the same length. Private and public share add up, slot by slot
//! in the field, to the wallet. The last slot is the share of the blinder,
//! the slot before it seeds the hash chain of the next reblind.

use crate::fees::FeeTake;
use crate::match_types::{MatchResult, OrderSettlementIndices};
use crate::primitives::OrderSide;
use crate::scalar::{all_wf, field_add, field_sub, lemma_scalar_ext, lemma_sub_then_add, modulus,
    values, Scalar};
use vstd::prelude::*;

verus! {

/// Number of balances that a wallet holds.
pub const MAX_BALANCES: usize = 10;

/// Number of orders that a wallet holds.
pub const MAX_ORDERS: usize = 4;

/// Scalars in a serialised balance: mint, amount, relayer fee, protocol fee.
pub const SCALARS_PER_BALANCE: usize = 4;

/// Scalars in a serialised order: quote mint, base mint, side, amount, worst
/// case price.
pub const SCALARS_PER_ORDER: usize = 5;

/// Slot of the first order.
pub const ORDERS_OFFSET: usize = 40;

/// Slot of the first scalar of the key chain.
pub const KEYS_OFFSET: usize = 60;

/// Slot of the maximum match fee.
pub const MATCH_FEE_SLOT: usize = 66;

/// Slot of the first coordinate of the managing cluster's key.
pub const MANAGING_CLUSTER_OFFSET: usize = 67;

/// Slot of the last scalar that is not the blinder; it seeds the next
/// reblind.
pub const SEED_SLOT: usize = 68;

/// Slot of the blinder.
pub const BLINDER_SLOT: usize = 69;

/// Number of scalars in a serialised wallet.
pub const WALLET_SHARE_LEN: usize = 70;

/// Slot of the amount of the balance with the given index.
pub open spec fn balance_amount_slot(index: int) -> int {
    index * 4 + 1
}

/// Slot of the amount of the order with the given index.
pub open spec fn order_amount_slot(index: int) -> int {
    40 + index * 5 + 3
}

/// Slot by slot sum of two vectors of residues.
pub open spec fn add_values(p: Seq<nat>, q: Seq<nat>) -> Seq<nat> {
    Seq::new(p.len(), |i: int| field_add(p[i], q[i]))
}

/// Slot by slot difference of two vectors of residues.
pub open spec fn sub_values(w: Seq<nat>, p: Seq<nat>) -> Seq<nat> {
    Seq::new(w.len(), |i: int| field_sub(w[i], p[i]))
}

/// Whether every residue of a vector is below the field order.
pub open spec fn reduced(s: Seq<nat>) -> bool {
    forall|i: int| 0 <= i < s.len() ==> #[trigger] s[i] < modulus()
}

/// The wallet that a private and a public share stand for.
pub open spec fn reconstruct(private: Seq<nat>, public: Seq<nat>) -> Seq<nat> {
    add_values(private, public)
}

/// The public share that completes a private share to a wallet.
pub open spec fn split_public(wallet: Seq<nat>, private: Seq<nat>) -> Seq<nat> {
    sub_values(wallet, private)
}

/// Splitting a wallet against any private share and reconstructing gives the
/// wallet back.
pub proof fn lemma_share_round_trip(wallet: Seq<nat>, private: Seq<nat>)
    requires
        wallet.len() == private.len(),
        reduced(wallet),
        reduced(private),
    ensures
        reconstruct(private, split_public(wallet, private)) == wallet,
{
    let public = split_public(wallet, private);
    assert forall|i: int| 0 <= i < wallet.len() implies reconstruct(private, public)[i]
        == wallet[i] by {
        lemma_sub_then_add(wallet[i], private[i]);
    }
    assert(reconstruct(private, public) =~= wallet);
}

/// What a match does to a share: the sent amount leaves the send balance,
/// the received amount less both fees enters the receive balance, and the
/// base amount leaves the order.
pub open spec fn spec_apply_match(
    share: Seq<nat>,
    indices: OrderSettlementIndices,
    fees: FeeTake,
    match_res: MatchResult,
    side: OrderSide,
) -> Seq<nat> {
    let send_slot = balance_amount_slot(indices.balance_send as int);
    let recv_slot = balance_amount_slot(indices.balance_receive as int);
    let order_slot = order_amount_slot(indices.order as int);
    let sent = match_res.spec_send_mint_amount(side).1 as nat;
    let received = match_res.spec_receive_mint_amount(side).1 as nat;
    let net = field_sub(received, field_add(fees.relayer_fee as nat, fees.protocol_fee as nat));
    let after_send = share.update(send_slot, field_sub(share[send_slot], sent));
    let after_receive = after_send.update(recv_slot, field_add(after_send[recv_slot], net));
    after_receive.update(
        order_slot,
        field_sub(after_receive[order_slot], match_res.base_amount as nat),
    )
}

/// Copy a vector of scalars.
pub fn copy_scalars(v: &Vec<Scalar>) -> (r: Vec<Scalar>)
    ensures
        r@ == v@,
{
    let mut r: Vec<Scalar> = Vec::new();
    let mut i: usize = 0;
    while i < v.len()
        invariant
            i <= v.len(),
            r@ == v@.subrange(0, i as int),
        decreases v.len() - i,
    {
        r.push(v[i]);
        i = i + 1;
        assert(r@ =~= v@.subrange(0, i as int));
    }
    assert(v@.subrange(0, v.len() as int) =~= v@);
    r
}

/// Whether two vectors hold the same scalars.
pub fn scalars_equal(a: &Vec<Scalar>, b: &Vec<Scalar>) -> (r: bool)
    ensures
        r == (a@ == b@),
{
    if a.len() != b.len() {
        return false;
    }
    let mut i: usize = 0;
    while i < a.len()
        invariant
            i <= a.len(),
            a.len() == b.len(),
            forall|j: int| 0 <= j < i ==> a@[j] == b@[j],
        decreases a.len() - i,
    {
        if a[i] != b[i] {
            return false;
        }
        i = i + 1;
    }
    assert(a@ =~= b@);
    true
}

/// Whether every scalar of a vector is canonical.
pub fn scalars_canonical(v: &Vec<Scalar>) -> (r: bool)
    ensures
        r == all_wf(v@),
{
    let m = crate::scalar::modulus_limbs();
    let mut i: usize = 0;
    while i < v.len()
        invariant
            i <= v.len(),
            m@ == modulus(),
            forall|j: int| 0 <= j < i ==> (#[trigger] v@[j]).wf(),
        decreases v.len() - i,
    {
        if !v[i].repr.lt(&m) {
            return false;
        }
        i = i + 1;
    }
    true
}

/// A share of a wallet.
#[derive(Debug)]
pub struct WalletShare {
    /// The share of each slot of the serialised wallet
    pub scalars: Vec<Scalar>,
}

impl View for WalletShare {
    type V = Seq<Scalar>;

    open spec fn view(&self) -> Seq<Scalar> {
        self.scalars@
    }
}

impl Clone for WalletShare {
    fn clone(&self) -> (r: WalletShare)
        ensures
            r@ == self@,
    {
        WalletShare { scalars: copy_scalars(&self.scalars) }
    }
}

impl WalletShare {
    /// Whether the share has the length of a wallet and canonical scalars.
    pub open spec fn wf(&self) -> bool {
        self@.len() == WALLET_SHARE_LEN && all_wf(self@)
    }

    /// The residues of the share, slot by slot.
    pub open spec fn values(&self) -> Seq<nat> {
        values(self@)
    }

    /// The share with the given scalars, where they are as many as a wallet
    /// has slots and all canonical.
    pub fn from_scalars(scalars: Vec<Scalar>) -> (r: Option<WalletShare>)
        ensures
            (scalars@.len() == WALLET_SHARE_LEN && all_wf(scalars@)) ==> (r matches Some(share)
                && share@ == scalars@ && share.wf()),
            !(scalars@.len() == WALLET_SHARE_LEN && all_wf(scalars@)) ==> r.is_none(),
    {
        if scalars.len() == WALLET_SHARE_LEN && scalars_canonical(&scalars) {
            Some(WalletShare { scalars })
        } else {
            None
        }
    }

    /// The scalars of the share, slot by slot.
    pub fn to_scalars(&self) -> (r: Vec<Scalar>)
        ensures
            r@ == self@,
    {
        copy_scalars(&self.scalars)
    }

    /// The share of the blinder: the last slot.
    pub fn blinder(&self) -> (r: Scalar)
        requires
            self.wf(),
        ensures
            r == self@[BLINDER_SLOT as int],
            r.wf(),
    {
        self.scalars[BLINDER_SLOT]
    }

    /// The last share that is not the blinder's.
    pub fn last_non_blinder(&self) -> (r: Scalar)
        requires
            self.wf(),
        ensures
            r == self@[SEED_SLOT as int],
            r.wf(),
    {
        self.scalars[SEED_SLOT]
    }

    /// Whether two shares hold the same scalars.
    pub fn same_as(&self, other: &WalletShare) -> (r: bool)
        ensures
            r == (self@ == other@),
    {
        scalars_equal(&self.scalars, &other.scalars)
    }

    /// Slot by slot sum in the field.
    pub fn add_shares(&self, other: &WalletShare) -> (r: WalletShare)
        requires
            self.wf(),
            other.wf(),
        ensures
            r.wf(),
            r.values() == add_values(self.values(), other.values()),
    {
        let mut out: Vec<Scalar> = Vec::new();
        let mut i: usize = 0;
        while i < WALLET_SHARE_LEN
            invariant
                i <= WALLET_SHARE_LEN,
                self.wf(),
                other.wf(),
                out@.len() == i,
                all_wf(out@),
                forall|j: int|
                    0 <= j < i ==> (#[trigger] out@[j])@ == field_add(self@[j]@, other@[j]@),
            decreases WALLET_SHARE_LEN - i,
        {
            out.push(self.scalars[i].add(&other.scalars[i]));
            i = i + 1;
        }
        let r = WalletShare { scalars: out };
        assert(r.values() =~= add_values(self.values(), other.values()));
        r
    }

    /// Slot by slot difference in the field.
    pub fn sub_shares(&self, other: &WalletShare) -> (r: WalletShare)
        requires
            self.wf(),
            other.wf(),
        ensures
            r.wf(),
            r.values() == sub_values(self.values(), other.values()),
    {
        let mut out: Vec<Scalar> = Vec::new();
        let mut i: usize = 0;
        while i < WALLET_SHARE_LEN
            invariant
                i <= WALLET_SHARE_LEN,
                self.wf(),
                other.wf(),
                out@.len() == i,
                all_wf(out@),
                forall|j: int|
                    0 <= j < i ==> (#[trigger] out@[j])@ == field_sub(self@[j]@, other@[j]@),
            decreases WALLET_SHARE_LEN - i,
        {
            out.push(self.scalars[i].sub(&other.scalars[i]));
            i = i + 1;
        }
        let r = WalletShare { scalars: out };
        assert(r.values() =~= sub_values(self.values(), other.values()));
        r
    }
}

/// Shares with the same residues are the same share.
pub proof fn lemma_share_ext(a: Seq<Scalar>, b: Seq<Scalar>)
    requires
        values(a) == values(b),
    ensures
        a == b,
{
    assert(a.len() == values(a).len());
    assert(b.len() == values(b).len());
    assert forall|i: int| 0 <= i < a.len() implies a[i] == b[i] by {
        assert(values(a)[i] == a[i]@);
        assert(values(b)[i] == b[i]@);
        lemma_scalar_ext(a[i], b[i]);
    }
    assert(a =~= b);
}

/// Apply a match to a share of the wallet that took part in it, in place.
///
/// The share may be the private or the public one: the update is linear in
/// the field, so applying it to one share applies it to the wallet.
pub fn apply_match_to_shares(
    shares: &mut WalletShare,
    indices: &OrderSettlementIndices,
    fees: FeeTake,
    match_res: &MatchResult,
    side: OrderSide,
)
    requires
        old(shares).wf(),
        indices.balance_send < MAX_BALANCES,
        indices.balance_receive < MAX_BALANCES,
        indices.order < MAX_ORDERS,
    ensures
        final(shares).wf(),
        final(shares).values() == spec_apply_match(
            old(shares).values(),
            *indices,
            fees,
            *match_res,
            side,
        ),
{
    let (_, send_amt) = match_res.send_mint_amount(side);
    let (_, recv_amt) = match_res.receive_mint_amount(side);
    let total_fee = Scalar::from_u128(fees.relayer_fee).add(&Scalar::from_u128(fees.protocol_fee));
    let net = Scalar::from_u128(recv_amt).sub(&total_fee);

    let send_slot: usize = indices.balance_send * SCALARS_PER_BALANCE + 1;
    let recv_slot: usize = indices.balance_receive * SCALARS_PER_BALANCE + 1;
    let order_slot: usize = ORDERS_OFFSET + indices.order * SCALARS_PER_ORDER + 3;

    let ghost before = shares.values();
    let sent = shares.scalars[send_slot].sub(&Scalar::from_u128(send_amt));
    shares.scalars.set(send_slot, sent);
    let ghost after_send = shares.values();
    assert(after_send =~= before.update(
        send_slot as int,
        field_sub(before[send_slot as int], send_amt as nat),
    ));

    let received = shares.scalars[recv_slot].add(&net);
    shares.scalars.set(recv_slot, received);
    let ghost after_receive = shares.values();
    assert(after_receive =~= after_send.update(
        recv_slot as int,
        field_add(after_send[recv_slot as int], net@),
    ));

    let filled = shares.scalars[order_slot].sub(&Scalar::from_u128(match_res.base_amount));
    shares.scalars.set(order_slot, filled);
    assert(shares.values() =~= after_receive.update(
        order_slot as int,
        field_sub(after_receive[order_slot as int], match_res.base_amount as nat),
    ));
}

} // verus!
