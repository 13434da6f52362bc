use std::cell::RefCell;

use darkpool_core::fees::FeeTake;
use darkpool_core::fixed_point::FixedPoint;
use darkpool_core::hash::evaluate_hash_chain;
use darkpool_core::match_types::{BoundedMatchResult, OrderSettlementIndices};
use darkpool_core::primitives::{Address, OrderSide};
use darkpool_core::scalar::Scalar;
use darkpool_core::shares::{compute_wallet_share_commitment, compute_wallet_share_nullifier};
use darkpool_core::wallet::{
    Balance, EncryptionKey, MerkleOpening, NonNativeScalar, Order, PublicKeyChain,
    PublicSigningKey, Wallet,
};
use darkpool_core::wallet_share::{
    apply_match_to_shares, WalletShare, BLINDER_SLOT, SEED_SLOT, WALLET_SHARE_LEN,
};

fn s(x: u64) -> Scalar {
    Scalar::from_u64(x)
}

/// A toy hash: a Horner evaluation of the input, shifted so that it has no
/// fixed point at zero.
fn toy_hash(input: Vec<Scalar>) -> Scalar {
    let mut acc = s(7);
    for x in input.iter() {
        acc = acc.mul(&s(31)).add(x).add(&Scalar::one());
    }
    acc
}

fn numbered_share(from: u64) -> WalletShare {
    WalletShare::from_scalars((0..WALLET_SHARE_LEN as u64).map(|i| s(from + i)).collect()).unwrap()
}

fn sample_wallet() -> Wallet {
    let mut w = Wallet {
        wallet_id: 1,
        balances: vec![
            Balance {
                mint: Address::from_u128(0xaa),
                amount: 1000,
                relayer_fee_balance: 3,
                protocol_fee_balance: 100,
            },
            Balance {
                mint: Address::from_u128(0xbb),
                amount: 50,
                relayer_fee_balance: 0,
                protocol_fee_balance: 0,
            },
        ],
        orders: vec![Order {
            quote_mint: Address::from_u128(0xbb),
            base_mint: Address::from_u128(0xaa),
            side: OrderSide::Sell,
            amount: 400,
            worst_case_price: FixedPoint::from_integer(2),
        }],
        key_chain: PublicKeyChain {
            pk_root: PublicSigningKey {
                x: NonNativeScalar { low: s(11), high: s(12) },
                y: NonNativeScalar { low: s(13), high: s(14) },
            },
            pk_match: s(15),
            nonce: s(16),
        },
        max_match_fee: FixedPoint::from_repr(s(17)),
        managing_cluster: EncryptionKey { x: s(18), y: s(19) },
        blinder: s(20),
        private_shares: numbered_share(100),
        blinded_public_shares: numbered_share(0),
        merkle_proof: Some(MerkleOpening { path_siblings: vec![s(1)], leaf_index: 0, value: s(2) }),
    };
    w.set_shares_from_private(numbered_share(100));
    w
}

#[test]
fn wallet_serialises_slot_by_slot() {
    let w = sample_wallet();
    let v = w.to_scalars();
    assert_eq!(v.len(), 70);
    assert_eq!(v[0], s(0xaa));
    assert_eq!(v[1], s(1000));
    assert_eq!(v[2], s(3));
    assert_eq!(v[3], s(100));
    assert_eq!(v[4], s(0xbb));
    assert_eq!(v[5], s(50));
    assert_eq!(v[8], s(0));
    assert_eq!(v[39], s(0));
    assert_eq!(v[40], s(0xbb));
    assert_eq!(v[41], s(0xaa));
    assert_eq!(v[42], s(1));
    assert_eq!(v[43], s(400));
    assert_eq!(v[44], FixedPoint::from_integer(2).repr);
    assert_eq!(v[45], s(0));
    assert_eq!(v[60], s(11));
    assert_eq!(v[61], s(12));
    assert_eq!(v[62], s(13));
    assert_eq!(v[63], s(14));
    assert_eq!(v[64], s(15));
    assert_eq!(v[65], s(16));
    assert_eq!(v[66], s(17));
    assert_eq!(v[67], s(18));
    assert_eq!(v[68], s(19));
    assert_eq!(v[69], s(20));
}

#[test]
fn shares_add_up_to_the_wallet() {
    let w = sample_wallet();
    assert!(w.is_well_formed());
    assert!(w.check_wallet_shares());
    let sum = w.private_shares.add_shares(&w.blinded_public_shares);
    assert_eq!(sum.to_scalars(), w.to_scalars());
    // public = wallet - private, in the field: 0xaa - 100 wraps
    assert_eq!(w.blinded_public_shares.scalars[0], s(0xaa).sub(&s(100)));
    assert_eq!(w.blinded_public_shares.scalars[1], s(1000 - 101));
    assert_eq!(w.public_blinder(), s(20).sub(&s(169)));
    assert_eq!(w.private_blinder_share(), s(169));
    assert_eq!(w.get_last_private_share(), s(168));
}

#[test]
fn tampered_shares_are_detected() {
    let mut w = sample_wallet();
    w.blinded_public_shares.scalars[5] = w.blinded_public_shares.scalars[5].add(&Scalar::one());
    assert!(!w.check_wallet_shares());
    let mut v = sample_wallet();
    v.balances[0].amount = 999;
    assert!(!v.check_wallet_shares());
}

#[test]
fn hash_chain_links_follow_one_another() {
    let chain = evaluate_hash_chain(&toy_hash, s(3), 4);
    assert_eq!(chain.len(), 4);
    assert_eq!(chain[0], toy_hash(vec![s(3)]));
    assert_eq!(chain[1], toy_hash(vec![chain[0]]));
    assert_eq!(chain[2], toy_hash(vec![chain[1]]));
    assert_eq!(chain[3], toy_hash(vec![chain[2]]));
    assert_eq!(chain[0], s(7 * 31 + 3 + 1));
    assert!(evaluate_hash_chain(&toy_hash, s(3), 0).is_empty());
}

#[test]
fn reblind_takes_the_next_links_of_both_chains() {
    let old = sample_wallet();
    let mut w = old.clone();
    w.reblind_wallet(&toy_hash);

    let blinder_chain = evaluate_hash_chain(&toy_hash, old.private_shares.scalars[BLINDER_SLOT], 2);
    let share_chain =
        evaluate_hash_chain(&toy_hash, old.private_shares.scalars[SEED_SLOT], WALLET_SHARE_LEN - 1);

    assert_eq!(w.blinder, blinder_chain[0]);
    assert_eq!(w.private_shares.scalars[BLINDER_SLOT], blinder_chain[1]);
    assert_eq!(w.private_shares.scalars[..BLINDER_SLOT], share_chain[..]);
    assert_eq!(w.private_shares.scalars[0], toy_hash(vec![s(168)]));

    // public = wallet - private, slot by slot, with the new blinder in the last slot
    let cleartext = w.to_scalars();
    assert_eq!(cleartext[BLINDER_SLOT], blinder_chain[0]);
    for i in 0..WALLET_SHARE_LEN {
        assert_eq!(
            w.blinded_public_shares.scalars[i],
            cleartext[i].sub(&w.private_shares.scalars[i])
        );
    }
    assert!(w.check_wallet_shares());
    assert!(w.merkle_proof.is_none());

    // nothing but the blinder has changed in the wallet itself
    assert_eq!(w.balances, old.balances);
    assert_eq!(w.orders, old.orders);
    assert_eq!(w.key_chain, old.key_chain);
    assert_eq!(w.max_match_fee, old.max_match_fee);
    assert_eq!(w.managing_cluster, old.managing_cluster);
    assert_eq!(w.wallet_id, old.wallet_id);
    assert_eq!(cleartext[..BLINDER_SLOT], old.to_scalars()[..BLINDER_SLOT]);
}

#[test]
fn reblind_is_deterministic() {
    let mut a = sample_wallet();
    let mut b = sample_wallet();
    a.reblind_wallet(&toy_hash);
    b.reblind_wallet(&toy_hash);
    assert_eq!(a.private_shares.scalars, b.private_shares.scalars);
    assert_eq!(a.blinded_public_shares.scalars, b.blinded_public_shares.scalars);
    assert_eq!(a.blinder, b.blinder);
    // and a second reblind moves on
    let first = a.blinder;
    a.reblind_wallet(&toy_hash);
    assert_ne!(a.blinder, first);
}

#[test]
fn next_blinder_is_announced_before_the_reblind() {
    let mut w = sample_wallet();
    let (blinder, private_share) = w.new_blinder_and_private_share(&toy_hash);
    let next_public = w.next_public_blinder(&toy_hash);
    assert_eq!(blinder, toy_hash(vec![s(169)]));
    assert_eq!(private_share, toy_hash(vec![blinder]));
    assert_eq!(next_public, blinder.sub(&private_share));
    w.reblind_wallet(&toy_hash);
    assert_eq!(w.blinder, blinder);
    assert_eq!(w.private_blinder_share(), private_share);
    assert_eq!(w.public_blinder(), next_public);
}

#[test]
fn reblind_with_given_chains() {
    let mut w = sample_wallet();
    let blinder_chain = vec![s(5000), s(5001)];
    let share_chain: Vec<Scalar> = (0..69).map(|i| s(9000 + i)).collect();
    w.reblind_with_chains(&blinder_chain, &share_chain);
    assert_eq!(w.blinder, s(5000));
    assert_eq!(w.private_shares.scalars[0], s(9000));
    assert_eq!(w.private_shares.scalars[68], s(9068));
    assert_eq!(w.private_shares.scalars[69], s(5001));
    assert_eq!(w.blinded_public_shares.scalars[69], s(5000).sub(&s(5001)));
    assert_eq!(w.blinded_public_shares.scalars[1], s(1000).sub(&s(9001)));
    assert!(w.check_wallet_shares());
}

#[test]
fn commitments_hash_what_the_protocol_says() {
    let w = sample_wallet();
    let seen: RefCell<Vec<Vec<Scalar>>> = RefCell::new(Vec::new());
    let recording = |input: Vec<Scalar>| {
        seen.borrow_mut().push(input.clone());
        toy_hash(input)
    };

    let private_commitment = w.get_private_share_commitment(&recording);
    assert_eq!(private_commitment, toy_hash(w.private_shares.to_scalars()));
    assert_eq!(seen.borrow().len(), 1);
    assert_eq!(seen.borrow()[0], w.private_shares.scalars);
    seen.borrow_mut().clear();

    let commitment = w.get_wallet_share_commitment(&recording);
    let mut preimage = vec![private_commitment];
    preimage.extend(w.blinded_public_shares.to_scalars());
    assert_eq!(commitment, toy_hash(preimage.clone()));
    assert_eq!(seen.borrow().len(), 2);
    assert_eq!(seen.borrow()[1], preimage);
    assert_eq!(seen.borrow()[1].len(), 71);
    seen.borrow_mut().clear();

    let nullifier = w.get_wallet_nullifier(&recording);
    assert_eq!(nullifier, toy_hash(vec![commitment, w.blinder]));
    assert_eq!(seen.borrow().len(), 3);
    assert_eq!(seen.borrow()[2], vec![commitment, s(20)]);

    assert_eq!(
        compute_wallet_share_commitment(&toy_hash, &w.blinded_public_shares, &w.private_shares),
        commitment
    );
    assert_eq!(compute_wallet_share_nullifier(&toy_hash, commitment, w.blinder), nullifier);
}

#[test]
fn merkle_root_orders_children_by_the_index() {
    let opening =
        MerkleOpening { path_siblings: vec![s(10), s(20), s(30)], leaf_index: 0b101, value: s(1) };
    // index 5: right child, then left child, then right child
    let n1 = toy_hash(vec![s(10), s(1)]);
    let n2 = toy_hash(vec![n1, s(20)]);
    let n3 = toy_hash(vec![s(30), n2]);
    assert_eq!(opening.compute_root(&toy_hash), n3);
    let leaf_only = MerkleOpening { path_siblings: vec![], leaf_index: 9, value: s(4) };
    assert_eq!(leaf_only.compute_root(&toy_hash), s(4));
}

#[test]
fn update_from_shares_reads_the_wallet_back() {
    let source = sample_wallet();
    let mut w = sample_wallet();
    w.balances = vec![];
    w.blinder = s(0);
    w.orders[0].amount = 1;
    w.update_from_shares(&source.private_shares, &source.blinded_public_shares);

    assert_eq!(w.blinder, s(20));
    assert_eq!(w.balances.len(), 10);
    assert_eq!(w.balances[0], source.balances[0]);
    assert_eq!(w.balances[1], source.balances[1]);
    assert_eq!(w.balances[2], Balance::empty());
    assert_eq!(w.orders.len(), 1);
    assert_eq!(w.orders[0], source.orders[0]);
    assert_eq!(w.private_shares.scalars, source.private_shares.scalars);
    assert_eq!(w.blinded_public_shares.scalars, source.blinded_public_shares.scalars);
    assert!(w.merkle_proof.is_none());
    assert!(w.check_wallet_shares());
}

#[test]
fn balance_lookup_finds_the_first_of_a_mint() {
    let mut w = sample_wallet();
    assert_eq!(w.get_balance_index(&Address::from_u128(0xaa)), Some(0));
    assert_eq!(w.get_balance_index(&Address::from_u128(0xbb)), Some(1));
    assert_eq!(w.get_balance_index(&Address::from_u128(0xcc)), None);
    w.balances.push(Balance { mint: Address::from_u128(0xaa), ..Balance::empty() });
    assert_eq!(w.get_balance_index(&Address::from_u128(0xaa)), Some(0));
    w.invalidate_merkle_opening();
    assert!(w.merkle_proof.is_none());
}

#[test]
fn ill_formed_wallets_are_recognised() {
    let mut w = sample_wallet();
    w.private_shares.scalars.pop();
    assert!(!w.is_well_formed());
    let mut v = sample_wallet();
    v.orders = vec![Order::empty(); 5];
    assert!(!v.is_well_formed());
    let mut u = sample_wallet();
    u.blinder = Scalar { repr: darkpool_core::scalar::modulus_limbs() };
    assert!(!u.is_well_formed());
    assert!(WalletShare::from_scalars(vec![s(1); 69]).is_none());
    assert!(WalletShare::from_scalars(vec![s(1); 70]).is_some());
}

#[test]
fn malleable_match_moves_three_slots() {
    // price 0.5, base 40: quote 20; the internal party sells the base
    let bounded = BoundedMatchResult {
        quote_mint: Address::from_u128(0xbb),
        base_mint: Address::from_u128(0xaa),
        price: FixedPoint::from_repr(Scalar::from_u128(1u128 << 62)),
        min_base_amount: 10,
        max_base_amount: 100,
        direction: true,
    };
    let external = bounded.to_external_match_result(40);
    assert_eq!(external.quote_amount, 20);
    assert_eq!(external.external_party_receive(), (Address::from_u128(0xaa), 40));
    let side = external.internal_party_side();
    assert_eq!(side, OrderSide::Sell);

    let w = sample_wallet();
    let mut share = w.blinded_public_shares.clone();
    let before = share.to_scalars();
    let indices = OrderSettlementIndices { balance_send: 0, balance_receive: 1, order: 0 };
    let fees = FeeTake { relayer_fee: 1, protocol_fee: 1 };
    assert_eq!(fees.total(), 2);
    apply_match_to_shares(&mut share, &indices, fees, &external.to_match_result(), side);

    for i in 0..WALLET_SHARE_LEN {
        let expected = match i {
            1 => before[1].sub(&s(40)),
            5 => before[5].add(&s(18)),
            43 => before[43].sub(&s(40)),
            _ => before[i],
        };
        assert_eq!(share.scalars[i], expected, "slot {}", i);
    }
    // the wallet that the shares now stand for
    let sum = w.private_shares.add_shares(&share).to_scalars();
    assert_eq!(sum[1], s(960));
    assert_eq!(sum[5], s(68));
    assert_eq!(sum[43], s(360));
}

#[test]
fn match_on_the_buy_side_sends_the_quote() {
    let bounded = BoundedMatchResult {
        quote_mint: Address::from_u128(0xbb),
        base_mint: Address::from_u128(0xaa),
        price: FixedPoint::from_integer(3),
        min_base_amount: 1,
        max_base_amount: 100,
        direction: false,
    };
    let external = bounded.to_external_match_result(5);
    assert_eq!(external.quote_amount, 15);
    assert_eq!(external.internal_party_side(), OrderSide::Buy);
    let mut share = numbered_share(1000);
    let indices = OrderSettlementIndices { balance_send: 2, balance_receive: 2, order: 3 };
    let fees = FeeTake { relayer_fee: 0, protocol_fee: 1 };
    apply_match_to_shares(
        &mut share,
        &indices,
        fees,
        &external.to_match_result(),
        OrderSide::Buy,
    );
    // send and receive on one balance: - 15 quote + (5 - 1) base
    assert_eq!(share.scalars[9], s(1009 - 15 + 4));
    assert_eq!(share.scalars[40 + 3 * 5 + 3], s(1058 - 5));
}

#[test]
fn a_new_wallet_has_consistent_shares_and_no_path() {
    let mut w = Wallet {
        wallet_id: 0x01,
        balances: vec![],
        orders: vec![],
        key_chain: PublicKeyChain {
            pk_root: PublicSigningKey {
                x: NonNativeScalar { low: s(11), high: s(12) },
                y: NonNativeScalar { low: s(13), high: s(14) },
            },
            pk_match: s(15),
            nonce: s(0),
        },
        max_match_fee: FixedPoint::from_repr(s(17)),
        managing_cluster: EncryptionKey { x: s(18), y: s(19) },
        blinder: s(20),
        private_shares: numbered_share(0),
        blinded_public_shares: numbered_share(0),
        merkle_proof: None,
    };
    assert!(w.is_well_formed());
    assert!(!w.check_wallet_shares());
    w.set_shares_from_private(numbered_share(300));
    assert!(w.check_wallet_shares());
    let cleartext = w.to_scalars();
    assert!(cleartext[..60].iter().all(|x| x.is_zero()));
    assert_eq!(w.private_blinder_share().add(&w.public_blinder()), s(20));

    // once the path is known the wallet holds it
    w.merkle_proof = Some(MerkleOpening { path_siblings: vec![s(1)], leaf_index: 1, value: s(2) });
    assert!(w.is_well_formed());
    assert_eq!(w.merkle_proof.as_ref().unwrap().compute_root(&toy_hash), toy_hash(vec![s(1), s(2)]));
}
