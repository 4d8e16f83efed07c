//! The witness shape of the top-level mixer circuit.
//!
//! A circuit instance carries the private inputs: the nullifier, the secret,
//! and one sibling and one order bit per Merkle level. Each slot holds either
//! a concrete value (for proving) or an unknown placeholder (for key
//! generation, which depends on the shape alone); both modes share one shape
//! so the keys derived from an empty instance fit every witnessed instance.

use vstd::prelude::*;
use crate::field::Fe;

verus! {

/// The fixed depth of the Merkle tree the compiled circuit folds over.
pub const TREE_DEPTH: usize = 5;

/// One witness slot: a concrete field element, or the unknown placeholder
/// used when only the circuit's shape matters.
#[derive(Clone, Copy, Debug)]
pub enum WitnessValue {
    Known(Fe),
    Unknown,
}

/// The private inputs of one proving run, or their shape-only placeholders.
#[derive(Debug)]
pub struct TornadoCircuit {
    pub nullifier: WitnessValue,
    pub secret: WitnessValue,
    pub path_elements: Vec<WitnessValue>,
    pub path_indices: Vec<WitnessValue>,
}

impl TornadoCircuit {
    /// The witness shape the compiled circuit expects: one sibling and one
    /// order bit per tree level.
    pub open spec fn shape_ok(self) -> bool {
        self.path_elements@.len() == TREE_DEPTH && self.path_indices@.len() == TREE_DEPTH
    }

    /// Every slot carries a concrete value: the instance can be proven.
    pub open spec fn is_witnessed(self) -> bool {
        &&& self.nullifier is Known
        &&& self.secret is Known
        &&& forall|i: int| 0 <= i < self.path_elements@.len() ==> self.path_elements@[i] is Known
        &&& forall|i: int| 0 <= i < self.path_indices@.len() ==> self.path_indices@[i] is Known
    }

    /// Every slot is unknown: the instance carries only the shape.
    pub open spec fn is_shape_only(self) -> bool {
        &&& self.nullifier is Unknown
        &&& self.secret is Unknown
        &&& forall|i: int| 0 <= i < self.path_elements@.len() ==> self.path_elements@[i] is Unknown
        &&& forall|i: int| 0 <= i < self.path_indices@.len() ==> self.path_indices@[i] is Unknown
    }
}

/// A shape-only circuit instance of the compiled depth, fit for deriving the
/// proving and verifying keys.
pub fn empty_circuit() -> (r: TornadoCircuit)
    ensures
        r.shape_ok(),
        r.is_shape_only(),
{
    let mut path_elements: Vec<WitnessValue> = Vec::new();
    let mut path_indices: Vec<WitnessValue> = Vec::new();
    let mut i: usize = 0;
    while i < TREE_DEPTH
        invariant
            i <= TREE_DEPTH,
            path_elements@.len() == i,
            path_indices@.len() == i,
            forall|j: int| 0 <= j < i ==> path_elements@[j] is Unknown,
            forall|j: int| 0 <= j < i ==> path_indices@[j] is Unknown,
        decreases TREE_DEPTH - i,
    {
        path_elements.push(WitnessValue::Unknown);
        path_indices.push(WitnessValue::Unknown);
        i += 1;
    }
    TornadoCircuit {
        nullifier: WitnessValue::Unknown,
        secret: WitnessValue::Unknown,
        path_elements,
        path_indices,
    }
}

/// Wraps a list of concrete values into witness slots, in order.
fn known_values(values: &Vec<Fe>) -> (r: Vec<WitnessValue>)
    ensures
        r@.len() == values@.len(),
        forall|i: int| 0 <= i < values@.len() ==> r@[i] == WitnessValue::Known(values@[i]),
{
    let mut out: Vec<WitnessValue> = Vec::new();
    let mut i: usize = 0;
    while i < values.len()
        invariant
            i <= values.len(),
            out@.len() == i,
            forall|j: int| 0 <= j < i ==> out@[j] == WitnessValue::Known(values@[j]),
        decreases values.len() - i,
    {
        out.push(WitnessValue::Known(values[i]));
        i += 1;
    }
    out
}

/// A fully witnessed circuit instance over the given private inputs.
pub fn create_circuit(
    nullifier: Fe,
    secret: Fe,
    path_elements: Vec<Fe>,
    path_indices: Vec<Fe>,
) -> (r: TornadoCircuit)
    ensures
        r.nullifier == WitnessValue::Known(nullifier),
        r.secret == WitnessValue::Known(secret),
        r.path_elements@.len() == path_elements@.len(),
        r.path_indices@.len() == path_indices@.len(),
        forall|i: int| 0 <= i < path_elements@.len()
            ==> r.path_elements@[i] == WitnessValue::Known(path_elements@[i]),
        forall|i: int| 0 <= i < path_indices@.len()
            ==> r.path_indices@[i] == WitnessValue::Known(path_indices@[i]),
        r.is_witnessed(),
{
    let path_elements = known_values(&path_elements);
    let path_indices = known_values(&path_indices);
    TornadoCircuit {
        nullifier: WitnessValue::Known(nullifier),
        secret: WitnessValue::Known(secret),
        path_elements,
        path_indices,
    }
}

} // verus!
