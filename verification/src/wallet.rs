//! The wallet and its serialisation to scalars.
//!
//! A wallet serialises to `WALLET_SHARE_LEN` scalars: its balances, padded
//! with empty ones, then its orders, padded likewise, then the key chain, the
//! maximum match fee, the key of the managing cluster, and the blinder.

use crate::fixed_point::FixedPoint;
use crate::primitives::{Address, Amount, OrderSide};
use crate::scalar::{all_wf, values, Scalar};
use crate::uint256::pow2_128;
use crate::wallet_share::{WalletShare, KEYS_OFFSET, MANAGING_CLUSTER_OFFSET, MATCH_FEE_SLOT,
    MAX_BALANCES, MAX_ORDERS, ORDERS_OFFSET, WALLET_SHARE_LEN};
use vstd::prelude::*;

verus! {

/// What a wallet holds of one token.
#[derive(Clone, Copy, Debug, PartialEq, Eq, Structural, Hash)]
pub struct Balance {
    /// The token
    pub mint: Address,
    /// The amount held
    pub amount: Amount,
    /// The fee owed to the relayer, in this token
    pub relayer_fee_balance: Amount,
    /// The fee owed to the protocol, in this token
    pub protocol_fee_balance: Amount,
}

impl Balance {
    /// Whether the mint can be held in one scalar.
    pub open spec fn wf(&self) -> bool {
        self.mint.fits_scalar()
    }

    /// The empty balance, which pads a wallet.
    pub open spec fn spec_empty() -> Balance {
        Balance {
            mint: Address { value: crate::uint256::U256 { l0: 0, l1: 0, l2: 0, l3: 0 } },
            amount: 0,
            relayer_fee_balance: 0,
            protocol_fee_balance: 0,
        }
    }

    /// The empty balance, which pads a wallet.
    pub fn empty() -> (r: Balance)
        ensures
            r == Balance::spec_empty(),
            r.wf(),
    {
        Balance {
            mint: Address::zero(),
            amount: 0,
            relayer_fee_balance: 0,
            protocol_fee_balance: 0,
        }
    }

    /// The residue in slot `k` of the serialised balance.
    pub open spec fn slot(&self, k: int) -> nat {
        if k == 0 {
            self.mint@
        } else if k == 1 {
            self.amount as nat
        } else if k == 2 {
            self.relayer_fee_balance as nat
        } else {
            self.protocol_fee_balance as nat
        }
    }

    /// The balance that four scalars stand for. Amounts are the low 128 bits
    /// of their scalars.
    pub open spec fn spec_from_scalars(s: Seq<Scalar>) -> Balance {
        Balance {
            mint: Address { value: s[0].repr },
            amount: (s[1]@ % pow2_128()) as u128,
            relayer_fee_balance: (s[2]@ % pow2_128()) as u128,
            protocol_fee_balance: (s[3]@ % pow2_128()) as u128,
        }
    }

    /// Append the four scalars of the balance.
    pub fn push_scalars(&self, out: &mut Vec<Scalar>)
        requires
            self.wf(),
        ensures
            final(out)@.len() == old(out)@.len() + 4,
            forall|j: int| 0 <= j < old(out)@.len() ==> final(out)@[j] == old(out)@[j],
            forall|k: int|
                0 <= k < 4 ==> (#[trigger] final(out)@[old(out)@.len() + k])@ == self.slot(k)
                    && final(out)@[old(out)@.len() + k].wf(),
    {
        out.push(Scalar { repr: self.mint.value });
        out.push(Scalar::from_u128(self.amount));
        out.push(Scalar::from_u128(self.relayer_fee_balance));
        out.push(Scalar::from_u128(self.protocol_fee_balance));
    }

    /// Read a balance from the four scalars that start at `offset`.
    pub fn from_scalars(scalars: &Vec<Scalar>, offset: usize) -> (r: Balance)
        requires
            offset + 4 <= scalars.len(),
        ensures
            r == Balance::spec_from_scalars(scalars@.subrange(offset as int, offset + 4)),
            scalars@[offset as int].wf() ==> r.wf(),
    {
        Balance {
            mint: Address::from_scalar(&scalars[offset]),
            amount: scalars[offset + 1].to_u128(),
            relayer_fee_balance: scalars[offset + 2].to_u128(),
            protocol_fee_balance: scalars[offset + 3].to_u128(),
        }
    }
}

/// An order to trade one token for another.
#[derive(Clone, Copy, Debug, PartialEq, Eq, Structural, Hash)]
pub struct Order {
    /// The quote token
    pub quote_mint: Address,
    /// The base token
    pub base_mint: Address,
    /// The side of the market
    pub side: OrderSide,
    /// The amount of the base token still to trade
    pub amount: Amount,
    /// The worst price at which the order may execute
    pub worst_case_price: FixedPoint,
}

impl Order {
    /// Whether mints and price can be held in one scalar each.
    pub open spec fn wf(&self) -> bool {
        self.quote_mint.fits_scalar() && self.base_mint.fits_scalar() && self.worst_case_price.wf()
    }

    /// The empty order, which pads a wallet.
    pub open spec fn spec_empty() -> Order {
        Order {
            quote_mint: Address { value: crate::uint256::U256 { l0: 0, l1: 0, l2: 0, l3: 0 } },
            base_mint: Address { value: crate::uint256::U256 { l0: 0, l1: 0, l2: 0, l3: 0 } },
            side: OrderSide::Buy,
            amount: 0,
            worst_case_price: FixedPoint {
                repr: Scalar { repr: crate::uint256::U256 { l0: 0, l1: 0, l2: 0, l3: 0 } },
            },
        }
    }

    /// The empty order, which pads a wallet.
    pub fn empty() -> (r: Order)
        ensures
            r == Order::spec_empty(),
            r.wf(),
    {
        Order {
            quote_mint: Address::zero(),
            base_mint: Address::zero(),
            side: OrderSide::Buy,
            amount: 0,
            worst_case_price: FixedPoint::from_repr(Scalar::zero()),
        }
    }

    /// The residue in slot `k` of the serialised order.
    pub open spec fn slot(&self, k: int) -> nat {
        if k == 0 {
            self.quote_mint@
        } else if k == 1 {
            self.base_mint@
        } else if k == 2 {
            if self.side == OrderSide::Sell {
                1nat
            } else {
                0nat
            }
        } else if k == 3 {
            self.amount as nat
        } else {
            self.worst_case_price.repr@
        }
    }

    /// The order that five scalars stand for. A side scalar of zero buys,
    /// any other sells; the amount is the low 128 bits of its scalar.
    pub open spec fn spec_from_scalars(s: Seq<Scalar>) -> Order {
        Order {
            quote_mint: Address { value: s[0].repr },
            base_mint: Address { value: s[1].repr },
            side: if s[2]@ == 0 {
                OrderSide::Buy
            } else {
                OrderSide::Sell
            },
            amount: (s[3]@ % pow2_128()) as u128,
            worst_case_price: FixedPoint { repr: s[4] },
        }
    }

    /// Append the five scalars of the order.
    pub fn push_scalars(&self, out: &mut Vec<Scalar>)
        requires
            self.wf(),
        ensures
            final(out)@.len() == old(out)@.len() + 5,
            forall|j: int| 0 <= j < old(out)@.len() ==> final(out)@[j] == old(out)@[j],
            forall|k: int|
                0 <= k < 5 ==> (#[trigger] final(out)@[old(out)@.len() + k])@ == self.slot(k)
                    && final(out)@[old(out)@.len() + k].wf(),
    {
        out.push(Scalar { repr: self.quote_mint.value });
        out.push(Scalar { repr: self.base_mint.value });
        out.push(self.side.to_scalar());
        out.push(Scalar::from_u128(self.amount));
        out.push(self.worst_case_price.repr);
    }

    /// Read an order from the five scalars that start at `offset`.
    pub fn from_scalars(scalars: &Vec<Scalar>, offset: usize) -> (r: Order)
        requires
            offset + 5 <= scalars.len(),
        ensures
            r == Order::spec_from_scalars(scalars@.subrange(offset as int, offset + 5)),
            (scalars@[offset as int].wf() && scalars@[offset + 1].wf() && scalars@[offset + 4].wf())
                ==> r.wf(),
    {
        Order {
            quote_mint: Address::from_scalar(&scalars[offset]),
            base_mint: Address::from_scalar(&scalars[offset + 1]),
            side: OrderSide::from_scalar(&scalars[offset + 2]),
            amount: scalars[offset + 3].to_u128(),
            worst_case_price: FixedPoint::from_repr(scalars[offset + 4]),
        }
    }
}

/// An integer of up to two field words, low word first.
#[derive(Clone, Copy, Debug, PartialEq, Eq, Structural, Hash)]
pub struct NonNativeScalar {
    /// The low word
    pub low: Scalar,
    /// The high word
    pub high: Scalar,
}

/// The key that signs updates of a wallet: a point given by two coordinates.
#[derive(Clone, Copy, Debug, PartialEq, Eq, Structural, Hash)]
pub struct PublicSigningKey {
    /// The affine x coordinate
    pub x: NonNativeScalar,
    /// The affine y coordinate
    pub y: NonNativeScalar,
}

impl PublicSigningKey {
    /// Whether all four words are canonical.
    pub open spec fn wf(&self) -> bool {
        self.x.low.wf() && self.x.high.wf() && self.y.low.wf() && self.y.high.wf()
    }
}

/// The public keys of a wallet.
#[derive(Clone, Copy, Debug, PartialEq, Eq, Structural, Hash)]
pub struct PublicKeyChain {
    /// The root key, which authorises updates
    pub pk_root: PublicSigningKey,
    /// The match key, which authorises matches
    pub pk_match: Scalar,
    /// How often the root key has been rotated
    pub nonce: Scalar,
}

impl PublicKeyChain {
    /// Whether every scalar of the chain is canonical.
    pub open spec fn wf(&self) -> bool {
        self.pk_root.wf() && self.pk_match.wf() && self.nonce.wf()
    }

    /// The residue in slot `k` of the serialised key chain.
    pub open spec fn slot(&self, k: int) -> nat {
        if k == 0 {
            self.pk_root.x.low@
        } else if k == 1 {
            self.pk_root.x.high@
        } else if k == 2 {
            self.pk_root.y.low@
        } else if k == 3 {
            self.pk_root.y.high@
        } else if k == 4 {
            self.pk_match@
        } else {
            self.nonce@
        }
    }
}

/// A key to which notes are encrypted: a point on the embedded curve.
#[derive(Clone, Copy, Debug, PartialEq, Eq, Structural, Hash)]
pub struct EncryptionKey {
    /// The affine x coordinate
    pub x: Scalar,
    /// The affine y coordinate
    pub y: Scalar,
}

impl EncryptionKey {
    /// Whether both coordinates are canonical.
    pub open spec fn wf(&self) -> bool {
        self.x.wf() && self.y.wf()
    }
}

/// A path from a leaf of the commitment tree to its root.
#[derive(Debug)]
pub struct MerkleOpening {
    /// The sibling of each node on the path, from the leaf up
    pub path_siblings: Vec<Scalar>,
    /// The index of the leaf
    pub leaf_index: u64,
    /// The value of the leaf
    pub value: Scalar,
}

impl MerkleOpening {
    /// Whether the leaf and every sibling are canonical.
    pub open spec fn wf(&self) -> bool {
        self.value.wf() && all_wf(self.path_siblings@)
    }
}

impl Clone for MerkleOpening {
    fn clone(&self) -> (r: MerkleOpening)
        ensures
            r.path_siblings@ == self.path_siblings@,
            r.leaf_index == self.leaf_index,
            r.value == self.value,
    {
        MerkleOpening {
            path_siblings: crate::wallet_share::copy_scalars(&self.path_siblings),
            leaf_index: self.leaf_index,
            value: self.value,
        }
    }
}

/// A wallet: what a user holds in the pool, with the shares that commit to
/// it on chain.
#[derive(Debug)]
pub struct Wallet {
    /// The identifier of the wallet
    pub wallet_id: u128,
    /// The balances, at most `MAX_BALANCES`, in the order of their slots
    pub balances: Vec<Balance>,
    /// The orders, at most `MAX_ORDERS`, in the order of their slots
    pub orders: Vec<Order>,
    /// The public keys
    pub key_chain: PublicKeyChain,
    /// The highest fee rate that the wallet accepts on a match
    pub max_match_fee: FixedPoint,
    /// The key of the cluster that manages the wallet
    pub managing_cluster: EncryptionKey,
    /// The blinder
    pub blinder: Scalar,
    /// The private share
    pub private_shares: WalletShare,
    /// The public share
    pub blinded_public_shares: WalletShare,
    /// The path of the wallet's commitment in the tree, where it is known
    pub merkle_proof: Option<MerkleOpening>,
}

/// The balance in slot `i` of a wallet with the given balances.
pub open spec fn padded_balance(balances: Seq<Balance>, i: int) -> Balance {
    if 0 <= i < balances.len() {
        balances[i]
    } else {
        Balance::spec_empty()
    }
}

/// The order in slot `i` of a wallet with the given orders.
pub open spec fn padded_order(orders: Seq<Order>, i: int) -> Order {
    if 0 <= i < orders.len() {
        orders[i]
    } else {
        Order::spec_empty()
    }
}

/// The residue in slot `i` of the serialisation of a wallet with the given
/// parts.
pub open spec fn wallet_slot(
    balances: Seq<Balance>,
    orders: Seq<Order>,
    key_chain: PublicKeyChain,
    max_match_fee: FixedPoint,
    managing_cluster: EncryptionKey,
    blinder: Scalar,
    i: int,
) -> nat {
    if i < ORDERS_OFFSET {
        padded_balance(balances, i / 4).slot(i % 4)
    } else if i < KEYS_OFFSET {
        padded_order(orders, (i - ORDERS_OFFSET) / 5).slot((i - ORDERS_OFFSET) % 5)
    } else if i < MATCH_FEE_SLOT {
        key_chain.slot(i - KEYS_OFFSET)
    } else if i == MATCH_FEE_SLOT {
        max_match_fee.repr@
    } else if i == MANAGING_CLUSTER_OFFSET {
        managing_cluster.x@
    } else if i == MANAGING_CLUSTER_OFFSET + 1 {
        managing_cluster.y@
    } else {
        blinder@
    }
}

impl Wallet {
    /// Whether the wallet has room for its balances and orders, every part
    /// of it can be held in scalars, and both shares are well formed.
    pub open spec fn wf(&self) -> bool {
        &&& self.balances@.len() <= MAX_BALANCES
        &&& self.orders@.len() <= MAX_ORDERS
        &&& forall|i: int| 0 <= i < self.balances@.len() ==> (#[trigger] self.balances@[i]).wf()
        &&& forall|i: int| 0 <= i < self.orders@.len() ==> (#[trigger] self.orders@[i]).wf()
        &&& self.key_chain.wf()
        &&& self.max_match_fee.wf()
        &&& self.managing_cluster.wf()
        &&& self.blinder.wf()
        &&& self.private_shares.wf()
        &&& self.blinded_public_shares.wf()
        &&& (self.merkle_proof matches Some(opening) ==> opening.wf())
    }

    /// The serialisation of the wallet: one residue for each slot.
    pub open spec fn contents(&self) -> Seq<nat> {
        Seq::new(
            WALLET_SHARE_LEN as nat,
            |i: int|
                wallet_slot(
                    self.balances@,
                    self.orders@,
                    self.key_chain,
                    self.max_match_fee,
                    self.managing_cluster,
                    self.blinder,
                    i,
                ),
        )
    }

    /// Whether the two shares add up to the wallet.
    pub open spec fn shares_consistent(&self) -> bool {
        crate::wallet_share::reconstruct(
            self.private_shares.values(),
            self.blinded_public_shares.values(),
        ) == self.contents()
    }

    /// Serialise the wallet.
    pub fn to_scalars(&self) -> (r: Vec<Scalar>)
        requires
            self.wf(),
        ensures
            r@.len() == WALLET_SHARE_LEN,
            all_wf(r@),
            values(r@) == self.contents(),
    {
        let mut out: Vec<Scalar> = Vec::new();
        let mut i: usize = 0;
        while i < MAX_BALANCES
            invariant
                i <= MAX_BALANCES,
                self.wf(),
                out@.len() == 4 * i,
                all_wf(out@),
                forall|j: int| 0 <= j < out@.len() ==> (#[trigger] out@[j])@ == self.contents()[j],
            decreases MAX_BALANCES - i,
        {
            let balance = if i < self.balances.len() {
                self.balances[i]
            } else {
                Balance::empty()
            };
            assert(balance == padded_balance(self.balances@, i as int));
            let ghost before = out@;
            balance.push_scalars(&mut out);
            proof {
                assert forall|j: int| 0 <= j < out@.len() implies (#[trigger] out@[j])@
                    == self.contents()[j] && out@[j].wf() by {
                    if j < before.len() {
                        assert(out@[j] == before[j]);
                    } else {
                        let k = j - before.len();
                        assert(out@[before.len() + k]@ == balance.slot(k));
                        assert(j / 4 == i as int && j % 4 == k);
                    }
                }
            }
            i = i + 1;
        }
        let mut n: usize = 0;
        while n < MAX_ORDERS
            invariant
                n <= MAX_ORDERS,
                self.wf(),
                out@.len() == 40 + 5 * n,
                all_wf(out@),
                forall|j: int| 0 <= j < out@.len() ==> (#[trigger] out@[j])@ == self.contents()[j],
            decreases MAX_ORDERS - n,
        {
            let order = if n < self.orders.len() {
                self.orders[n]
            } else {
                Order::empty()
            };
            assert(order == padded_order(self.orders@, n as int));
            let ghost before = out@;
            order.push_scalars(&mut out);
            proof {
                assert forall|j: int| 0 <= j < out@.len() implies (#[trigger] out@[j])@
                    == self.contents()[j] && out@[j].wf() by {
                    if j < before.len() {
                        assert(out@[j] == before[j]);
                    } else {
                        let k = j - before.len();
                        assert(out@[before.len() + k]@ == order.slot(k));
                        assert((j - 40) / 5 == n as int && (j - 40) % 5 == k);
                    }
                }
            }
            n = n + 1;
        }
        out.push(self.key_chain.pk_root.x.low);
        out.push(self.key_chain.pk_root.x.high);
        out.push(self.key_chain.pk_root.y.low);
        out.push(self.key_chain.pk_root.y.high);
        out.push(self.key_chain.pk_match);
        out.push(self.key_chain.nonce);
        out.push(self.max_match_fee.repr);
        out.push(self.managing_cluster.x);
        out.push(self.managing_cluster.y);
        out.push(self.blinder);
        assert(values(out@) =~= self.contents());
        out
    }
}

/// Copy a vector of plain values.
pub fn copy_vec<T: Copy>(v: &Vec<T>) -> (r: Vec<T>)
    ensures
        r@ == v@,
{
    let mut r: Vec<T> = Vec::new();
    let mut i: usize = 0;
    while i < v.len()
        invariant
            i <= v.len(),
            r@ == v@.subrange(0, i as int),
        decreases v.len() - i,
    {
        r.push(v[i]);
        i = i + 1;
        assert(r@ =~= v@.subrange(0, i as int));
    }
    assert(v@.subrange(0, v.len() as int) =~= v@);
    r
}

/// Whether a wallet with the given balances holds the token.
pub open spec fn has_balance(balances: Seq<Balance>, mint: Address) -> bool {
    exists|i: int| 0 <= i < balances.len() && (#[trigger] balances[i]).mint == mint
}

/// Whether `i` is the index of the first balance of the token.
pub open spec fn is_balance_index(balances: Seq<Balance>, mint: Address, i: int) -> bool {
    &&& 0 <= i < balances.len()
    &&& balances[i].mint == mint
    &&& forall|j: int| 0 <= j < i ==> (#[trigger] balances[j]).mint != mint
}

/// The first balance of a token has one index only.
pub proof fn lemma_balance_index_unique(balances: Seq<Balance>, mint: Address, i: int, j: int)
    requires
        is_balance_index(balances, mint, i),
        is_balance_index(balances, mint, j),
    ensures
        i == j,
{
    if i < j {
        assert(balances[i].mint != mint);
    } else if j < i {
        assert(balances[j].mint != mint);
    }
}

impl Clone for Wallet {
    fn clone(&self) -> (r: Wallet)
        ensures
            r.wallet_id == self.wallet_id,
            r.balances@ == self.balances@,
            r.orders@ == self.orders@,
            r.key_chain == self.key_chain,
            r.max_match_fee == self.max_match_fee,
            r.managing_cluster == self.managing_cluster,
            r.blinder == self.blinder,
            r.private_shares@ == self.private_shares@,
            r.blinded_public_shares@ == self.blinded_public_shares@,
            r.merkle_proof is Some == self.merkle_proof is Some,
            self.merkle_proof matches Some(o) ==> (r.merkle_proof matches Some(c)
                && c.path_siblings@ == o.path_siblings@ && c.leaf_index == o.leaf_index && c.value
                == o.value),
            self.wf() ==> r.wf(),
            r.contents() == self.contents(),
    {
        let merkle_proof = match &self.merkle_proof {
            Some(opening) => Some(opening.clone()),
            None => None,
        };
        let r = Wallet {
            wallet_id: self.wallet_id,
            balances: copy_vec(&self.balances),
            orders: copy_vec(&self.orders),
            key_chain: self.key_chain,
            max_match_fee: self.max_match_fee,
            managing_cluster: self.managing_cluster,
            blinder: self.blinder,
            private_shares: self.private_shares.clone(),
            blinded_public_shares: self.blinded_public_shares.clone(),
            merkle_proof,
        };
        assert(r.contents() =~= self.contents());
        r
    }
}

impl Wallet {
    /// The index of the first balance of a token, where the wallet holds it.
    pub fn get_balance_index(&self, mint: &Address) -> (r: Option<usize>)
        ensures
            match r {
                Some(i) => is_balance_index(self.balances@, *mint, i as int),
                None => !has_balance(self.balances@, *mint),
            },
    {
        let mut i: usize = 0;
        while i < self.balances.len()
            invariant
                i <= self.balances@.len(),
                forall|j: int| 0 <= j < i ==> (#[trigger] self.balances@[j]).mint != *mint,
            decreases self.balances@.len() - i,
        {
            if self.balances[i].mint == *mint {
                return Some(i);
            }
            i = i + 1;
        }
        None
    }

    /// Whether the wallet is well formed. Whoever builds a wallet from
    /// outside data checks it with this before handing it on.
    pub fn is_well_formed(&self) -> (r: bool)
        ensures
            r == self.wf(),
    {
        if self.balances.len() > MAX_BALANCES || self.orders.len() > MAX_ORDERS {
            return false;
        }
        let mut i: usize = 0;
        while i < self.balances.len()
            invariant
                i <= self.balances@.len(),
                forall|j: int| 0 <= j < i ==> (#[trigger] self.balances@[j]).wf(),
            decreases self.balances@.len() - i,
        {
            if self.balances[i].mint.to_scalar().is_none() {
                assert(!self.balances@[i as int].wf());
                return false;
            }
            i = i + 1;
        }
        let mut k: usize = 0;
        while k < self.orders.len()
            invariant
                k <= self.orders@.len(),
                forall|j: int| 0 <= j < k ==> (#[trigger] self.orders@[j]).wf(),
            decreases self.orders@.len() - k,
        {
            let order = self.orders[k];
            if order.quote_mint.to_scalar().is_none() || order.base_mint.to_scalar().is_none()
                || !order.worst_case_price.repr.is_canonical() {
                assert(!self.orders@[k as int].wf());
                return false;
            }
            k = k + 1;
        }
        let keys = self.key_chain;
        let keys_ok = keys.pk_root.x.low.is_canonical() && keys.pk_root.x.high.is_canonical()
            && keys.pk_root.y.low.is_canonical() && keys.pk_root.y.high.is_canonical()
            && keys.pk_match.is_canonical() && keys.nonce.is_canonical();
        let opening_ok = match &self.merkle_proof {
            Some(opening) => opening.value.is_canonical() && crate::wallet_share::scalars_canonical(
                &opening.path_siblings,
            ),
            None => true,
        };
        keys_ok && self.max_match_fee.repr.is_canonical() && self.managing_cluster.x.is_canonical()
            && self.managing_cluster.y.is_canonical() && self.blinder.is_canonical()
            && self.private_shares.scalars.len() == WALLET_SHARE_LEN
            && crate::wallet_share::scalars_canonical(&self.private_shares.scalars)
            && self.blinded_public_shares.scalars.len() == WALLET_SHARE_LEN
            && crate::wallet_share::scalars_canonical(&self.blinded_public_shares.scalars)
            && opening_ok
    }

    /// Forget the path of the wallet's commitment in the tree.
    pub fn invalidate_merkle_opening(&mut self)
        ensures
            final(self).merkle_proof is None,
            final(self).wallet_id == old(self).wallet_id,
            final(self).balances == old(self).balances,
            final(self).orders == old(self).orders,
            final(self).key_chain == old(self).key_chain,
            final(self).max_match_fee == old(self).max_match_fee,
            final(self).managing_cluster == old(self).managing_cluster,
            final(self).blinder == old(self).blinder,
            final(self).private_shares == old(self).private_shares,
            final(self).blinded_public_shares == old(self).blinded_public_shares,
    {
        self.merkle_proof = None;
    }
}

} // verus!
