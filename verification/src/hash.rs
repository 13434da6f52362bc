//! Hash chains over the scalar field.

use crate::scalar::{all_wf, Scalar};
use vstd::prelude::*;

verus! {

/// Whether a hash function accepts every input of canonical scalars and
/// returns canonical scalars only.
pub open spec fn hasher_ready<H: Fn(Vec<Scalar>) -> Scalar>(hasher: &H) -> bool {
    &&& forall|input: Vec<Scalar>| all_wf(input@) ==> #[trigger] hasher.requires((input,))
    &&& forall|input: Vec<Scalar>, out: Scalar| #[trigger]
        hasher.ensures((input,), out) ==> out.wf()
}

/// Whether `out` is a digest that the hash function may return for the
/// scalars `input`.
pub open spec fn is_digest<H: Fn(Vec<Scalar>) -> Scalar>(
    hasher: &H,
    input: Seq<Scalar>,
    out: Scalar,
) -> bool {
    exists|v: Vec<Scalar>| v@ == input && #[trigger] hasher.ensures((v,), out)
}

/// Hash a sequence of scalars.
pub fn hash_scalars<H: Fn(Vec<Scalar>) -> Scalar>(hasher: &H, input: Vec<Scalar>) -> (out: Scalar)
    requires
        hasher_ready(hasher),
        all_wf(input@),
    ensures
        out.wf(),
        is_digest(hasher, input@, out),
{
    hasher(input)
}

/// Whether a hash function returns one digest only for inputs that hold the
/// same scalars.
pub open spec fn hasher_deterministic<H: Fn(Vec<Scalar>) -> Scalar>(hasher: &H) -> bool {
    forall|v1: Vec<Scalar>, v2: Vec<Scalar>, o1: Scalar, o2: Scalar|
        v1@ == v2@ && #[trigger] hasher.ensures((v1,), o1) && #[trigger] hasher.ensures((v2,), o2)
            ==> o1 == o2
}

/// A deterministic hash function has one digest for each input.
pub proof fn lemma_digest_unique<H: Fn(Vec<Scalar>) -> Scalar>(
    hasher: &H,
    input: Seq<Scalar>,
    o1: Scalar,
    o2: Scalar,
)
    requires
        hasher_deterministic(hasher),
        is_digest(hasher, input, o1),
        is_digest(hasher, input, o2),
    ensures
        o1 == o2,
{
    let v1 = choose|v: Vec<Scalar>| v@ == input && #[trigger] hasher.ensures((v,), o1);
    let v2 = choose|v: Vec<Scalar>| v@ == input && #[trigger] hasher.ensures((v,), o2);
    assert(v1@ == v2@);
}

/// The scalar that link `i` of a chain is the digest of: the seed for the
/// first link, the link before it for every other.
pub open spec fn chain_input(seed: Scalar, chain: Seq<Scalar>, i: int) -> Scalar {
    if i == 0 {
        seed
    } else {
        chain[i - 1]
    }
}

/// Whether `chain` is a hash chain from `seed`: its first link is a digest
/// of the seed alone, each later link a digest of the link before it alone.
pub open spec fn is_hash_chain<H: Fn(Vec<Scalar>) -> Scalar>(
    hasher: &H,
    seed: Scalar,
    chain: Seq<Scalar>,
) -> bool {
    forall|i: int|
        0 <= i < chain.len() ==> is_digest(
            hasher,
            seq![chain_input(seed, chain, i)],
            #[trigger] chain[i],
        )
}

/// A deterministic hash function has one chain of each length from each
/// seed.
pub proof fn lemma_hash_chain_unique<H: Fn(Vec<Scalar>) -> Scalar>(
    hasher: &H,
    seed: Scalar,
    c1: Seq<Scalar>,
    c2: Seq<Scalar>,
)
    requires
        hasher_deterministic(hasher),
        is_hash_chain(hasher, seed, c1),
        is_hash_chain(hasher, seed, c2),
        c1.len() == c2.len(),
    ensures
        c1 == c2,
{
    lemma_hash_chain_prefix_unique(hasher, seed, c1, c2, c1.len() as int);
    assert(c1 =~= c2);
}

proof fn lemma_hash_chain_prefix_unique<H: Fn(Vec<Scalar>) -> Scalar>(
    hasher: &H,
    seed: Scalar,
    c1: Seq<Scalar>,
    c2: Seq<Scalar>,
    n: int,
)
    requires
        hasher_deterministic(hasher),
        is_hash_chain(hasher, seed, c1),
        is_hash_chain(hasher, seed, c2),
        c1.len() == c2.len(),
        0 <= n <= c1.len(),
    ensures
        forall|i: int| 0 <= i < n ==> c1[i] == c2[i],
    decreases n,
{
    if n > 0 {
        lemma_hash_chain_prefix_unique(hasher, seed, c1, c2, n - 1);
        let i = n - 1;
        assert(chain_input(seed, c1, i) == chain_input(seed, c2, i));
        assert(is_digest(hasher, seq![chain_input(seed, c1, i)], c1[i]));
        assert(is_digest(hasher, seq![chain_input(seed, c2, i)], c2[i]));
        lemma_digest_unique(hasher, seq![chain_input(seed, c1, i)], c1[i], c2[i]);
    }
}

/// Evaluate a hash chain: `length` scalars, the first the digest of the
/// seed, each next one the digest of the one before.
pub fn evaluate_hash_chain<H: Fn(Vec<Scalar>) -> Scalar>(
    hasher: &H,
    seed: Scalar,
    length: usize,
) -> (chain: Vec<Scalar>)
    requires
        hasher_ready(hasher),
        seed.wf(),
    ensures
        chain@.len() == length,
        all_wf(chain@),
        is_hash_chain(hasher, seed, chain@),
{
    let mut chain: Vec<Scalar> = Vec::new();
    let mut current = seed;
    let mut i: usize = 0;
    while i < length
        invariant
            i <= length,
            hasher_ready(hasher),
            chain@.len() == i,
            all_wf(chain@),
            current.wf(),
            current == chain_input(seed, chain@, i as int),
            is_hash_chain(hasher, seed, chain@),
        decreases length - i,
    {
        let ghost before = chain@;
        let mut input: Vec<Scalar> = Vec::new();
        input.push(current);
        assert(input@ =~= seq![current]);
        let next = hash_scalars(hasher, input);
        chain.push(next);
        proof {
            assert forall|j: int| 0 <= j < chain@.len() implies is_digest(
                hasher,
                seq![chain_input(seed, chain@, j)],
                #[trigger] chain@[j],
            ) by {
                if j < i {
                    assert(chain@[j] == before[j]);
                    assert(chain_input(seed, chain@, j) == chain_input(seed, before, j));
                }
            }
        }
        current = next;
        i = i + 1;
    }
    chain
}

} // verus!
