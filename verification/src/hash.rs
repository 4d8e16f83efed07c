//! The hash-compression primitive of the circuit.
//!
//! The reference scheme binds two field elements to one by multiplying them
//! in the field; it is a placeholder one-way function, not collision
//! resistant, and a deployment would swap in a circuit-friendly cryptographic
//! compression with domain separation. Everything downstream depends only on
//! the spec-level shape `hash2`, so such a swap stays local to this module.

use vstd::prelude::*;
use vstd::arithmetic::div_mod::lemma_mul_mod_noop_left;
use crate::field::{field_modulus, Fe};

verus! {

/// The hash-compression step: the field product of the two inputs.
pub open spec fn hash2(a: nat, b: nat) -> nat {
    (a * b) % field_modulus()
}

/// The numbers a sequence of field elements stands for.
pub open spec fn fe_values(s: Seq<Fe>) -> Seq<nat> {
    s.map_values(|e: Fe| e@)
}

/// The running field product of a sequence of values, folded left to right.
pub open spec fn product_mod(vals: Seq<nat>) -> nat
    decreases vals.len(),
{
    if vals.len() == 0 {
        1
    } else {
        (product_mod(vals.drop_last()) * vals.last()) % field_modulus()
    }
}

/// On a pair, the running product is exactly one hash-compression step.
pub proof fn lemma_product_pair(a: nat, b: nat)
    ensures
        product_mod(seq![a, b]) == hash2(a, b),
{
    let pair = seq![a, b];
    assert(pair.drop_last() =~= seq![a]);
    assert(seq![a].drop_last() =~= Seq::<nat>::empty());
    assert(product_mod(Seq::<nat>::empty()) == 1);
    assert(product_mod(seq![a]) == (1 * a) % field_modulus());
    lemma_mul_mod_noop_left(a as int, b as int, field_modulus() as int);
}

/// Hashes a list of values together: their running field product.
pub fn hash_values(values: Vec<Fe>) -> (r: Fe)
    ensures
        r@ == product_mod(fe_values(values@)),
        r.in_field(),
{
    let ghost vals = fe_values(values@);
    let mut acc = Fe::from_u64(1);
    let mut i: usize = 0;
    while i < values.len()
        invariant
            i <= values.len(),
            vals == fe_values(values@),
            acc@ == product_mod(vals.take(i as int)),
            acc.in_field(),
        decreases values.len() - i,
    {
        acc = crate::field::fe_mul(&acc, &values[i]);
        proof {
            assert(vals.take(i as int + 1).drop_last() =~= vals.take(i as int));
            assert(vals.take(i as int + 1).last() == values@[i as int]@);
        }
        i += 1;
    }
    proof {
        assert(vals.take(values@.len() as int) =~= vals);
    }
    acc
}

/// Hashes a single value by compressing it with itself; this derives the
/// public nullifier hash from the private nullifier.
pub fn hash_value(value: Fe) -> (r: Fe)
    ensures
        r@ == hash2(value@, value@),
        r.in_field(),
{
    let pair = vec![value, value];
    proof {
        assert(fe_values(pair@) =~= seq![value@, value@]);
        lemma_product_pair(value@, value@);
    }
    hash_values(pair)
}

} // verus!
