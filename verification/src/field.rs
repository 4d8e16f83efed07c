//! The prime-field abstraction that every witness and public value lives in.
//!
//! A field element is held as four 64-bit little-endian limbs in canonical
//! (fully reduced) form, so its mathematical value is a plain natural number
//! below the field modulus. Field multiplication — the one operation the
//! hashing and Merkle logic needs — is delegated to the proving backend's
//! field implementation behind a single trusted wrapper.

use vstd::prelude::*;
use vstd::arithmetic::div_mod::lemma_fundamental_div_mod_converse;
use group::ff::PrimeField;
use halo2_proofs::pasta::Fp;

verus! {

/// The modulus of the Pallas base field used by the proving backend:
/// p = 0x40000000000000000000000000000000224698fc094cf91b992d30ed00000001.
pub open spec fn field_modulus() -> nat {
    0x40000000000000000000000000000000224698fc094cf91b992d30ed00000001nat
}

/// One field element, as four 64-bit limbs, least significant first.
#[derive(Clone, Copy, Debug, PartialEq, Eq, Structural)]
pub struct Fe {
    pub l0: u64,
    pub l1: u64,
    pub l2: u64,
    pub l3: u64,
}

impl View for Fe {
    type V = nat;

    /// The integer a field element stands for.
    open spec fn view(&self) -> nat {
        (self.l0 as nat)
            + (self.l1 as nat) * 0x10000000000000000
            + (self.l2 as nat) * 0x100000000000000000000000000000000
            + (self.l3 as nat) * 0x1000000000000000000000000000000000000000000000000
    }
}

impl Fe {
    /// Canonical form: the represented value is fully reduced.
    pub open spec fn in_field(self) -> bool {
        self@ < field_modulus()
    }

    /// Embeds a machine integer into the field; it is always below the modulus.
    pub fn from_u64(v: u64) -> (r: Fe)
        ensures
            r@ == v as nat,
            r.in_field(),
    {
        Fe { l0: v, l1: 0, l2: 0, l3: 0 }
    }

    /// Tests whether the element stands for zero.
    pub fn is_zero(&self) -> (r: bool)
        ensures
            r == (self@ == 0),
    {
        proof {
            lemma_view_determines_limbs(*self);
        }
        self.l0 == 0 && self.l1 == 0 && self.l2 == 0 && self.l3 == 0
    }

    /// Tests whether the element stands for an order bit, zero or one.
    pub fn is_boolean(&self) -> (r: bool)
        ensures
            r == (self@ == 0 || self@ == 1),
    {
        proof {
            lemma_view_determines_limbs(*self);
        }
        (self.l0 == 0 || self.l0 == 1) && self.l1 == 0 && self.l2 == 0 && self.l3 == 0
    }
}

/// The limbs are the base-2^64 digits of the represented value, so two
/// elements that stand for the same number are limb-for-limb equal.
pub proof fn lemma_view_determines_limbs(x: Fe)
    ensures
        x.l0 == x@ % 0x10000000000000000,
        x.l1 == (x@ / 0x10000000000000000) % 0x10000000000000000,
        x.l2 == ((x@ / 0x10000000000000000) / 0x10000000000000000) % 0x10000000000000000,
        x.l3 == ((x@ / 0x10000000000000000) / 0x10000000000000000) / 0x10000000000000000,
{
    let b: int = 0x10000000000000000;
    let t1: int = x.l1 + x.l2 * b + x.l3 * b * b;
    let t2: int = x.l2 + x.l3 * b;
    assert(x@ == t1 * b + x.l0) by (nonlinear_arith)
        requires
            t1 == x.l1 + x.l2 * b + x.l3 * b * b,
            b == 0x10000000000000000,
            x@ == (x.l0 as nat)
                + (x.l1 as nat) * 0x10000000000000000
                + (x.l2 as nat) * 0x100000000000000000000000000000000
                + (x.l3 as nat) * 0x1000000000000000000000000000000000000000000000000,
    ;
    lemma_fundamental_div_mod_converse(x@ as int, b, t1, x.l0 as int);
    assert(t1 == t2 * b + x.l1) by (nonlinear_arith)
        requires
            t1 == x.l1 + x.l2 * b + x.l3 * b * b,
            t2 == x.l2 + x.l3 * b,
            b == 0x10000000000000000,
    ;
    lemma_fundamental_div_mod_converse(t1, b, t2, x.l1 as int);
    lemma_fundamental_div_mod_converse(t2, b, x.l3 as int, x.l2 as int);
}

/// Two field elements with the same value are equal as structures.
pub proof fn lemma_view_injective(a: Fe, b: Fe)
    requires
        a@ == b@,
    ensures
        a == b,
{
    lemma_view_determines_limbs(a);
    lemma_view_determines_limbs(b);
}

/// Structural equality of field elements decides equality of their values.
pub fn fe_eq(a: &Fe, b: &Fe) -> (r: bool)
    ensures
        r == (a@ == b@),
{
    proof {
        if a@ == b@ {
            lemma_view_injective(*a, *b);
        }
    }
    *a == *b
}

/// Relies on the backend field `halo2_proofs::pasta::Fp` (pasta_curves):
/// `Fp::from_raw` maps a little-endian four-limb integer to the congruent
/// field element, `*` multiplies in the field, and `PrimeField::to_repr`
/// returns the canonical little-endian byte encoding of the product, whose
/// value is below the field modulus.
#[verifier::external_body]
pub(crate) fn fe_mul(a: &Fe, b: &Fe) -> (r: Fe)
    ensures
        r@ == (a@ * b@) % field_modulus(),
        r.in_field(),
{
    let x = Fp::from_raw([a.l0, a.l1, a.l2, a.l3]);
    let y = Fp::from_raw([b.l0, b.l1, b.l2, b.l3]);
    let bytes = (x * y).to_repr();
    Fe {
        l0: u64::from_le_bytes(bytes[0..8].try_into().unwrap()),
        l1: u64::from_le_bytes(bytes[8..16].try_into().unwrap()),
        l2: u64::from_le_bytes(bytes[16..24].try_into().unwrap()),
        l3: u64::from_le_bytes(bytes[24..32].try_into().unwrap()),
    }
}

} // verus!
