//! Verified core of a private remittance corridor: note commitments,
//! nullifiers, Merkle membership, the evaluation of the shielded pool's
//! zero-knowledge circuits on their witnesses, proof framing, and the verifier
//! contract's key registry.

pub mod bytes;
pub mod hashing;
pub mod types;
pub mod errors;
pub mod notes;
pub mod circuits;
pub mod prover;
pub mod vk_registry;
pub mod pool;
