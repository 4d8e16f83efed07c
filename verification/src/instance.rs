//! The public-instance binding of the circuit, and its constraint relation.
//!
//! The protocol fixes an ordered pair of public values: slot 0 is the
//! nullifier hash, slot 1 is the Merkle root. `constraints_hold` is the
//! relation the constraint system enforces between a witness and that pair:
//! the shape fits the compiled depth, every order bit is boolean, and both
//! public slots equal the values the witness derives. A proof can only exist
//! for a witness/instance pair in this relation, and the lemmas below record
//! how each way of breaking it makes the witness unsatisfiable.

use vstd::prelude::*;
use crate::circuits::tornado::TREE_DEPTH;
use crate::field::{fe_eq, Fe};
use crate::hash::{fe_values, hash2, hash_value, hash_values, lemma_product_pair};
use crate::merkle::{compute_root, merkle_root};

verus! {

/// A structural fault that is rejected before any constraint is evaluated.
#[derive(Clone, Copy, Debug, PartialEq, Eq, Structural)]
pub enum CircuitError {
    /// The witness shape does not fit the compiled circuit: the two path
    /// vectors disagree in length, or their length is not the tree depth.
    ShapeMismatch,
}

/// The relation the constraint system enforces between the private witness
/// and the two public-instance slots.
pub open spec fn constraints_hold(
    nullifier: nat,
    secret: nat,
    sibs: Seq<nat>,
    bits: Seq<nat>,
    instance: Seq<nat>,
) -> bool {
    &&& sibs.len() == TREE_DEPTH
    &&& bits.len() == TREE_DEPTH
    &&& forall|i: int| 0 <= i < bits.len() ==> bits[i] == 0 || bits[i] == 1
    &&& instance.len() == 2
    &&& instance[0] == hash2(nullifier, nullifier)
    &&& instance[1] == merkle_root(hash2(nullifier, secret), sibs, bits)
}

/// Derives the public-instance pair an honest prover commits to: slot 0 the
/// nullifier hash, slot 1 the root folded up from the commitment.
///
/// A witness whose path vectors do not both have the compiled depth is a
/// shape mismatch and is rejected here, before any constraint evaluation.
pub fn derive_public_inputs(
    nullifier: Fe,
    secret: Fe,
    path_elements: Vec<Fe>,
    path_indices: Vec<Fe>,
) -> (r: Result<Vec<Fe>, CircuitError>)
    ensures
        match r {
            Ok(v) => {
                &&& path_elements@.len() == TREE_DEPTH
                &&& path_indices@.len() == TREE_DEPTH
                &&& v@.len() == 2
                &&& v@[0]@ == hash2(nullifier@, nullifier@)
                &&& v@[1]@ == merkle_root(
                    hash2(nullifier@, secret@),
                    fe_values(path_elements@),
                    fe_values(path_indices@),
                )
                &&& v@[0].in_field()
                &&& v@[1].in_field()
            },
            Err(e) => {
                &&& path_elements@.len() != TREE_DEPTH || path_indices@.len() != TREE_DEPTH
                &&& e == CircuitError::ShapeMismatch
            },
        },
{
    if path_elements.len() != TREE_DEPTH || path_indices.len() != TREE_DEPTH {
        return Err(CircuitError::ShapeMismatch);
    }
    let nullifier_hash = hash_value(nullifier);
    let pair = vec![nullifier, secret];
    proof {
        assert(fe_values(pair@) =~= seq![nullifier@, secret@]);
        lemma_product_pair(nullifier@, secret@);
    }
    let commitment = hash_values(pair);
    let root = compute_root(commitment, path_elements, path_indices);
    let out = vec![nullifier_hash, root];
    Ok(out)
}

/// Rebuilds the public-instance pair a verifier must supply: slot 0 the hash
/// of the claimed nullifier, slot 1 the claimed root, in that fixed order.
pub fn verification_inputs(nullifier: Fe, root: Fe) -> (r: Vec<Fe>)
    ensures
        r@.len() == 2,
        r@[0]@ == hash2(nullifier@, nullifier@),
        r@[0].in_field(),
        r@[1] == root,
{
    let nullifier_hash = hash_value(nullifier);
    vec![nullifier_hash, root]
}

/// Decides whether a witness satisfies the constraint relation against a
/// public instance: the check an honest prover runs before asking the
/// backend for a proof, since proving an unsatisfiable witness is fatal.
pub fn check_witness(
    nullifier: Fe,
    secret: Fe,
    path_elements: Vec<Fe>,
    path_indices: Vec<Fe>,
    instance: Vec<Fe>,
) -> (r: bool)
    ensures
        r == constraints_hold(
            nullifier@,
            secret@,
            fe_values(path_elements@),
            fe_values(path_indices@),
            fe_values(instance@),
        ),
{
    proof {
        assert(fe_values(path_elements@).len() == path_elements@.len());
        assert(fe_values(path_indices@).len() == path_indices@.len());
        assert(fe_values(instance@).len() == instance@.len());
    }
    if path_elements.len() != TREE_DEPTH || path_indices.len() != TREE_DEPTH
        || instance.len() != 2 {
        return false;
    }
    let mut i: usize = 0;
    while i < path_indices.len()
        invariant
            i <= path_indices.len(),
            forall|j: int| 0 <= j < i
                ==> fe_values(path_indices@)[j] == 0 || fe_values(path_indices@)[j] == 1,
        decreases path_indices.len() - i,
    {
        if !path_indices[i].is_boolean() {
            proof {
                assert(fe_values(path_indices@)[i as int] == path_indices@[i as int]@);
            }
            return false;
        }
        i += 1;
    }
    let expected_hash = hash_value(nullifier);
    if !fe_eq(&instance[0], &expected_hash) {
        return false;
    }
    let pair = vec![nullifier, secret];
    proof {
        assert(fe_values(pair@) =~= seq![nullifier@, secret@]);
        lemma_product_pair(nullifier@, secret@);
    }
    let commitment = hash_values(pair);
    let root = compute_root(commitment, path_elements, path_indices);
    fe_eq(&instance[1], &root)
}

/// Soundness, in the model: an instance whose root slot is not the root the
/// witness folds up to leaves the constraints unsatisfied, so no proof of it
/// can be produced.
pub proof fn lemma_wrong_root_unsatisfiable(
    nullifier: nat,
    secret: nat,
    sibs: Seq<nat>,
    bits: Seq<nat>,
    instance: Seq<nat>,
)
    requires
        instance.len() == 2,
        instance[1] != merkle_root(hash2(nullifier, secret), sibs, bits),
    ensures
        !constraints_hold(nullifier, secret, sibs, bits, instance),
{
}

/// An order bit outside zero and one makes the witness unsatisfiable, at
/// whichever level it appears.
pub proof fn lemma_nonboolean_bit_unsatisfiable(
    nullifier: nat,
    secret: nat,
    sibs: Seq<nat>,
    bits: Seq<nat>,
    instance: Seq<nat>,
    i: int,
)
    requires
        0 <= i < bits.len(),
        bits[i] != 0,
        bits[i] != 1,
    ensures
        !constraints_hold(nullifier, secret, sibs, bits, instance),
{
}

/// Two path vectors of different lengths cannot both have the compiled
/// depth, so a mismatched witness never satisfies the constraints.
pub proof fn lemma_length_mismatch_unsatisfiable(
    nullifier: nat,
    secret: nat,
    sibs: Seq<nat>,
    bits: Seq<nat>,
    instance: Seq<nat>,
)
    requires
        sibs.len() != bits.len(),
    ensures
        !constraints_hold(nullifier, secret, sibs, bits, instance),
{
}

/// Instance order is part of the protocol: swapping the two public slots of
/// a satisfied instance leaves the constraints unsatisfied, unless the two
/// slots happened to hold the same value.
pub proof fn lemma_swapped_instance_unsatisfiable(
    nullifier: nat,
    secret: nat,
    sibs: Seq<nat>,
    bits: Seq<nat>,
    a: nat,
    b: nat,
)
    requires
        constraints_hold(nullifier, secret, sibs, bits, seq![a, b]),
        a != b,
    ensures
        !constraints_hold(nullifier, secret, sibs, bits, seq![b, a]),
{
    assert(seq![a, b][0] == a);
    assert(seq![b, a][0] == b);
}

/// Completeness, in the model: the instance pair an honest prover derives
/// from a well-shaped witness with boolean order bits satisfies the
/// constraint relation.
pub proof fn lemma_derived_instance_satisfiable(
    nullifier: nat,
    secret: nat,
    sibs: Seq<nat>,
    bits: Seq<nat>,
)
    requires
        sibs.len() == TREE_DEPTH,
        bits.len() == TREE_DEPTH,
        forall|i: int| 0 <= i < bits.len() ==> bits[i] == 0 || bits[i] == 1,
    ensures
        constraints_hold(
            nullifier,
            secret,
            sibs,
            bits,
            seq![hash2(nullifier, nullifier), merkle_root(hash2(nullifier, secret), sibs, bits)],
        ),
{
}

} // verus!
