//! A zero-knowledge value mixer in the Tornado style: a prover shows, without
//! revealing which deposit is theirs, that they know a preimage
//! `(nullifier, secret)` whose commitment is a leaf of a fixed-depth Merkle
//! tree with a public root, and that a public nullifier hash is derived from
//! the same nullifier.
//!
//! This crate holds the constraint-system model: the hash-compression step,
//! the Merkle fold under a path of siblings and order bits, the witness shape
//! of the top-level circuit, and the derivation of the two public-instance
//! values. The arithmetization backend (columns, gates, polynomial
//! commitments, transcripts) is consumed by callers through the backend crate
//! and is out of scope here; only field multiplication crosses that boundary.

pub mod circuits;
pub mod field;
pub mod hash;
pub mod instance;
pub mod merkle;

pub use circuits::tornado::{create_circuit, empty_circuit, TornadoCircuit, WitnessValue, TREE_DEPTH};
pub use field::Fe;
pub use hash::{hash_value, hash_values};
pub use instance::{check_witness, derive_public_inputs, verification_inputs, CircuitError};
pub use merkle::compute_root;
