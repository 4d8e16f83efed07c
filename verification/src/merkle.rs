//! The Merkle-inclusion fold: from a leaf up to the claimed root.
//!
//! At each level the current node is paired with a sibling; an order bit
//! says which of the two is the left child. An order bit of zero keeps the
//! node on the left, any other value swaps the pair, mirroring the in-circuit
//! conditional swap. The fold is the out-of-circuit reference computation a
//! prover uses to derive the public root before asking for a proof.

use vstd::prelude::*;
use crate::field::Fe;
use crate::hash::{fe_values, hash2, hash_values, lemma_product_pair};

verus! {

/// The root reached by folding `leaf` up through siblings `sibs` under order
/// bits `bits`, one hash-compression step per level.
pub open spec fn merkle_root(leaf: nat, sibs: Seq<nat>, bits: Seq<nat>) -> nat
    decreases sibs.len(),
{
    if sibs.len() == 0 {
        leaf
    } else if bits[0] == 0 {
        merkle_root(hash2(leaf, sibs[0]), sibs.skip(1), bits.skip(1))
    } else {
        merkle_root(hash2(sibs[0], leaf), sibs.skip(1), bits.skip(1))
    }
}

/// Folds a leaf up to the root of the tree along the given path.
///
/// The two path vectors must pair up level by level; a mismatch is a shape
/// error that callers reject before reaching this computation.
pub fn compute_root(leaf: Fe, path_elements: Vec<Fe>, path_indices: Vec<Fe>) -> (r: Fe)
    requires
        path_elements.len() == path_indices.len(),
        leaf.in_field(),
    ensures
        r@ == merkle_root(leaf@, fe_values(path_elements@), fe_values(path_indices@)),
        r.in_field(),
{
    let ghost sibs = fe_values(path_elements@);
    let ghost bits = fe_values(path_indices@);

    proof {
        assert(sibs.skip(0) =~= sibs);
        assert(bits.skip(0) =~= bits);
    }
    let mut node = leaf;
    let mut i: usize = 0;
    while i < path_elements.len()
        invariant
            i <= path_elements.len(),
            path_elements.len() == path_indices.len(),
            sibs == fe_values(path_elements@),
            bits == fe_values(path_indices@),
            node.in_field(),
            merkle_root(node@, sibs.skip(i as int), bits.skip(i as int))
                == merkle_root(leaf@, sibs, bits),
        decreases path_elements.len() - i,
    {
        let sibling = path_elements[i];
        let mut left = node;
        let mut right = sibling;
        if !path_indices[i].is_zero() {
            left = sibling;
            right = node;
        }
        let pair = vec![left, right];
        proof {
            assert(fe_values(pair@) =~= seq![left@, right@]);
            lemma_product_pair(left@, right@);
            assert(sibs.skip(i as int).skip(1) =~= sibs.skip(i as int + 1));
            assert(bits.skip(i as int).skip(1) =~= bits.skip(i as int + 1));
            assert(sibs.skip(i as int)[0] == path_elements@[i as int]@);
            assert(bits.skip(i as int)[0] == path_indices@[i as int]@);
        }
        node = hash_values(pair);
        i += 1;
    }
    proof {
        assert(sibs.skip(path_elements@.len() as int) =~= Seq::<nat>::empty());
        assert(bits.skip(path_indices@.len() as int) =~= Seq::<nat>::empty());
    }
    node
}

} // verus!
