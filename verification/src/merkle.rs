//! Roots of paths in the commitment tree.

use crate::hash::{hash_scalars, hasher_ready, is_digest};
use crate::scalar::Scalar;
use crate::wallet::MerkleOpening;
use vstd::prelude::*;

verus! {

/// The index, within its level, of the node that a path passes through at
/// `level` when it starts from leaf `leaf_index`.
pub open spec fn level_index(leaf_index: nat, level: nat) -> nat
    decreases level,
{
    if level == 0 {
        leaf_index
    } else {
        level_index(leaf_index, (level - 1) as nat) / 2
    }
}

/// What is hashed to get the parent of a node: the node and its sibling,
/// the node first where its index is even.
pub open spec fn node_input(current: Scalar, sibling: Scalar, index: nat) -> Seq<Scalar> {
    if index % 2 == 0 {
        seq![current, sibling]
    } else {
        seq![sibling, current]
    }
}

/// Whether `nodes` are the nodes of a path from the leaf up: the leaf first,
/// then at each level a digest of the node below and its sibling.
pub open spec fn is_merkle_path<H: Fn(Vec<Scalar>) -> Scalar>(
    hasher: &H,
    siblings: Seq<Scalar>,
    leaf_index: nat,
    value: Scalar,
    nodes: Seq<Scalar>,
) -> bool {
    &&& nodes.len() == siblings.len() + 1
    &&& nodes[0] == value
    &&& forall|j: int|
        1 <= j < nodes.len() ==> is_digest(
            hasher,
            node_input(nodes[j - 1], siblings[j - 1], level_index(leaf_index, (j - 1) as nat)),
            #[trigger] nodes[j],
        )
}

/// Whether `root` is a root of the path: the last node of a path from the
/// leaf up.
pub open spec fn is_merkle_root<H: Fn(Vec<Scalar>) -> Scalar>(
    hasher: &H,
    siblings: Seq<Scalar>,
    leaf_index: nat,
    value: Scalar,
    root: Scalar,
) -> bool {
    exists|nodes: Seq<Scalar>| #[trigger]
        is_merkle_path(hasher, siblings, leaf_index, value, nodes) && root == nodes.last()
}

impl MerkleOpening {
    /// The root that the path leads to.
    pub fn compute_root<H: Fn(Vec<Scalar>) -> Scalar>(&self, hasher: &H) -> (root: Scalar)
        requires
            self.wf(),
            hasher_ready(hasher),
        ensures
            root.wf(),
            is_merkle_root(
                hasher,
                self.path_siblings@,
                self.leaf_index as nat,
                self.value,
                root,
            ),
    {
        let mut current = self.value;
        let mut index: u64 = self.leaf_index;
        let ghost mut nodes: Seq<Scalar> = seq![self.value];
        let mut i: usize = 0;
        while i < self.path_siblings.len()
            invariant
                i <= self.path_siblings@.len(),
                self.wf(),
                hasher_ready(hasher),
                current.wf(),
                index == level_index(self.leaf_index as nat, i as nat),
                nodes.len() == i + 1,
                nodes[0] == self.value,
                nodes.last() == current,
                forall|j: int|
                    1 <= j < nodes.len() ==> is_digest(
                        hasher,
                        node_input(
                            nodes[j - 1],
                            self.path_siblings@[j - 1],
                            level_index(self.leaf_index as nat, (j - 1) as nat),
                        ),
                        #[trigger] nodes[j],
                    ),
            decreases self.path_siblings@.len() - i,
        {
            let sibling = self.path_siblings[i];
            let mut input: Vec<Scalar> = Vec::new();
            if index % 2 == 0 {
                input.push(current);
                input.push(sibling);
            } else {
                input.push(sibling);
                input.push(current);
            }
            assert(input@ =~= node_input(current, sibling, index as nat));
            let parent = hash_scalars(hasher, input);
            proof {
                let before = nodes;
                nodes = nodes.push(parent);
                assert forall|j: int| 1 <= j < nodes.len() implies is_digest(
                    hasher,
                    node_input(
                        nodes[j - 1],
                        self.path_siblings@[j - 1],
                        level_index(self.leaf_index as nat, (j - 1) as nat),
                    ),
                    #[trigger] nodes[j],
                ) by {
                    if j < before.len() {
                        assert(nodes[j] == before[j]);
                        assert(nodes[j - 1] == before[j - 1]);
                    }
                }
            }
            current = parent;
            index = index / 2;
            i = i + 1;
        }
        proof {
            assert(is_merkle_path(
                hasher,
                self.path_siblings@,
                self.leaf_index as nat,
                self.value,
                nodes,
            ));
        }
        current
    }
}

} // verus!
