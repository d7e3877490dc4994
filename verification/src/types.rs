//! Shared value types of the corridor: notes, commitments, nullifiers,
//! proofs, public inputs, Merkle paths and KYC credentials.

use vstd::prelude::*;

verus! {

/// Maximum transfer amount (in stroops) that may pass AML checks without extra scrutiny.
/// The compliance circuit accepts denominations up to and including this value.
pub const AML_THRESHOLD_STROOPS: i64 = 99_999_999_999;

/// USDC asset issuer on the Stellar public network.
pub const USDC_ISSUER: &'static str = "GA5ZSEJYB37JRC5AVCIA5MOP4RHTM335X2KGX3IHOJAPP5RE34K4KZVN";

/// USDC asset code.
pub const USDC_CODE: &'static str = "USDC";

/// Depth of the incremental Merkle commitment tree.
pub const TREE_DEPTH: usize = 20;

/// A shielded remittance note.  All fields are private-circuit witnesses; no field
/// should ever appear in an on-chain event or transaction memo.
#[derive(Debug, Clone, PartialEq, Eq)]
pub struct Note {
    /// Transfer amount in stroops.
    pub denomination: i64,
    /// Random 32-byte blinding factor.
    pub salt: [u8; 32],
    /// Recipient's shielded public key.
    pub receiver_pk: [u8; 32],
    /// Position in the Merkle tree; `None` before the deposit is confirmed on-chain.
    pub leaf_index: Option<u32>,
}

/// SHA-256 commitment to a note's fields.
#[derive(Debug, Clone, PartialEq, Eq)]
pub struct Commitment(pub [u8; 32]);

/// Nullifier preventing double-spend; derived from salt and receiver_pk.
#[derive(Debug, Clone, PartialEq, Eq)]
pub struct Nullifier(pub [u8; 32]);

/// Serialised Groth16 proof: π_a (48 B) ‖ π_b (96 B) ‖ π_c (48 B) = 192 bytes.
#[derive(Debug, Clone, PartialEq, Eq)]
pub struct ProofBytes(pub [u8; 192]);

/// Public inputs to a Groth16 circuit; each element is a BLS12-381 Fr scalar
/// serialised as a big-endian 32-byte array.
#[derive(Debug, Clone, PartialEq, Eq)]
pub struct PublicInputs(pub Vec<[u8; 32]>);

/// Witness for an incremental Merkle membership proof at depth 20.
#[derive(Debug, Clone, PartialEq, Eq)]
pub struct MerklePath {
    /// Sibling hashes at each level (index 0 = leaf level).
    pub siblings: [[u8; 32]; 20],
    /// Path direction at each level: `false` = left child, `true` = right child.
    pub indices: [bool; 20],
    /// Position of the leaf in the tree.
    pub leaf_index: u32,
}

/// KYC/AML credential issued by the compliance oracle.
/// The `identity_commitment` is a ZK commitment — no PII is stored here.
#[derive(Debug, Clone, PartialEq, Eq)]
pub struct KycCredential {
    /// Unique credential identifier (UUID v4).
    pub credential_id: String,
    /// Unix timestamp (seconds) when the credential was issued.
    pub issued_at: u64,
    /// Unix timestamp (seconds) when the credential expires.
    pub expires_at: u64,
    /// ZK commitment to the holder's identity (not the identity itself).
    pub identity_commitment: [u8; 32],
    /// Ed25519 signature by the compliance oracle over the credential fields.
    pub oracle_signature: [u8; 64],
}

} // verus!
