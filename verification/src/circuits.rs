//! The shielded pool's zero-knowledge circuits and the relations their
//! constraint systems enforce.
//!
//! Each circuit carries its public values and private witnesses as optional
//! values. Synthesis derives a witness assignment from these values and
//! builds the constraint system; it fails when a value it needs is absent,
//! or when a denomination of zero has no multiplicative inverse.
//! `check_constraints` evaluates, on the circuit's values, whether that
//! assignment satisfies every constraint. It says nothing of assignments
//! that a prover could choose otherwise: in particular, the credential expiry
//! is a private witness that no constraint binds to the credential commitment.

use vstd::prelude::*;

use crate::bytes::{append_bytes, bytes_eq, i64_be_bytes, u64_from_be, u64_from_be32_tail};
use crate::hashing::{sha256, sha256_digest};
use crate::notes::{
    compute_commitment, compute_merkle_root, compute_nullifier, merkle_root, note_commitment,
    note_nullifier,
};
use crate::types::AML_THRESHOLD_STROOPS;

verus! {

/// ZK circuit that proves a shielded deposit is valid.
///
/// Public input:
///   - `commitment`: SHA-256 digest of `denomination_be || salt || receiver_pk`
///
/// Private witnesses:
///   - `denomination`: transfer amount in stroops (must be > 0)
///   - `salt`:         32-byte random blinding factor
///   - `receiver_pk`:  32-byte recipient shielded public key
pub struct DepositCircuit {
    pub commitment: Option<Vec<u8>>,
    pub denomination: Option<i64>,
    pub salt: Option<[u8; 32]>,
    pub receiver_pk: Option<[u8; 32]>,
}

/// ZK circuit that proves a shielded withdrawal is valid.
///
/// Public inputs:
///   - `merkle_root`: current Merkle tree root (32 bytes)
///   - `nullifier`:   SHA-256(salt || receiver_pk) to prevent double-spend
///
/// Private witnesses:
///   - `denomination`:         transfer amount in stroops (> 0)
///   - `salt`:                 32-byte random blinding factor
///   - `receiver_pk`:          32-byte recipient shielded public key
///   - `merkle_path`:          20 sibling hashes
///   - `merkle_path_indices`:  path direction bits (false=left, true=right)
pub struct WithdrawalCircuit {
    pub merkle_root: Option<[u8; 32]>,
    pub nullifier: Option<[u8; 32]>,
    pub denomination: Option<i64>,
    pub salt: Option<[u8; 32]>,
    pub receiver_pk: Option<[u8; 32]>,
    pub merkle_path: Option<[[u8; 32]; 20]>,
    pub merkle_path_indices: Option<[bool; 20]>,
}

/// ZK circuit that proves AML/KYC compliance for a shielded transfer.
///
/// Public inputs:
///   - `vk_digest`:  SHA-256(credential_commitment || oracle_signature)
///   - `epoch_be`:   current epoch as a big-endian 32-byte array
///
/// Private witnesses:
///   - `denomination`:           amount in stroops (0 < d ≤ AML_THRESHOLD_STROOPS)
///   - `credential_commitment`:  ZK commitment to holder identity (32 bytes)
///   - `credential_expiry`:      Unix timestamp when the KYC credential expires
///   - `oracle_signature`:       Ed25519 signature from the compliance oracle (64 bytes)
///   - `holder_secret_key`:      Holder's 32-byte secret key
pub struct ComplianceCircuit {
    pub vk_digest: Option<[u8; 32]>,
    pub epoch_be: Option<[u8; 32]>,
    pub denomination: Option<i64>,
    pub credential_commitment: Option<[u8; 32]>,
    pub credential_expiry: Option<u64>,
    pub oracle_signature: Option<[u8; 64]>,
    pub holder_secret_key: Option<[u8; 32]>,
}

/// The range check that a 64-bit denomination witness passes: its sign bit
/// (bit 63 of its two's-complement form) is clear. Together with the
/// inverse witness (which exists only for a non-zero value) it means d > 0.
pub open spec fn denomination_positive(d: i64) -> bool {
    d > 0
}

/// The credential's expiry lies after the epoch, and `expiry - epoch - 1`
/// fits in 63 bits (the circuit's range check on the difference).
pub open spec fn expiry_after(expiry: u64, epoch: u64) -> bool {
    epoch < expiry && expiry - epoch <= 0x8000_0000_0000_0000
}

impl DepositCircuit {
    /// `None` when synthesis fails; otherwise whether every constraint holds:
    /// the first 32 bytes of `commitment` are SHA-256(denomination_be ||
    /// salt || receiver_pk), and denomination > 0.
    pub open spec fn constraint_outcome(&self) -> Option<bool> {
        match (self.commitment, self.denomination, self.salt, self.receiver_pk) {
            (Some(c), Some(d), Some(s), Some(pk)) => {
                if c@.len() < 32 || d == 0 {
                    None
                } else {
                    Some(
                        c@.subrange(0, 32) == note_commitment(d, s@, pk@)
                            && denomination_positive(d),
                    )
                }
            },
            _ => None,
        }
    }

    /// Evaluate the circuit's constraints on its witness values.
    pub fn check_constraints(&self) -> (outcome: Option<bool>)
        ensures
            outcome == self.constraint_outcome(),
    {
        match (&self.commitment, self.denomination, &self.salt, &self.receiver_pk) {
            (Some(c), Some(d), Some(s), Some(pk)) => {
                if c.len() < 32 || d == 0 {
                    None
                } else {
                    let computed = compute_commitment(d, s, pk);
                    let head = vstd::slice::slice_subrange(c.as_slice(), 0, 32);
                    Some(bytes_eq(head, computed.as_slice()) && d > 0)
                }
            },
            _ => None,
        }
    }
}

impl WithdrawalCircuit {
    /// `None` when synthesis fails; otherwise whether every constraint holds:
    /// the note commitment climbs the Merkle path to `merkle_root`, the
    /// nullifier is SHA-256(salt || receiver_pk), and denomination > 0.
    pub open spec fn constraint_outcome(&self) -> Option<bool> {
        match (
            self.merkle_root,
            self.nullifier,
            self.denomination,
            self.salt,
            self.receiver_pk,
            self.merkle_path,
            self.merkle_path_indices,
        ) {
            (Some(root), Some(nf), Some(d), Some(s), Some(pk), Some(path), Some(idx)) => {
                if d == 0 {
                    None
                } else {
                    Some(
                        root@ == merkle_root(note_commitment(d, s@, pk@), path@, idx@)
                            && nf@ == note_nullifier(s@, pk@)
                            && denomination_positive(d),
                    )
                }
            },
            _ => None,
        }
    }

    /// Evaluate the circuit's constraints on its witness values.
    pub fn check_constraints(&self) -> (outcome: Option<bool>)
        ensures
            outcome == self.constraint_outcome(),
    {
        match (
            &self.merkle_root,
            &self.nullifier,
            self.denomination,
            &self.salt,
            &self.receiver_pk,
            &self.merkle_path,
            &self.merkle_path_indices,
        ) {
            (Some(root), Some(nf), Some(d), Some(s), Some(pk), Some(path), Some(idx)) => {
                if d == 0 {
                    None
                } else {
                    let leaf = compute_commitment(d, s, pk);
                    let computed_root = compute_merkle_root(&leaf, path, idx);
                    let computed_nf = compute_nullifier(s, pk);
                    let root_ok = bytes_eq(root.as_slice(), computed_root.as_slice());
                    let nf_ok = bytes_eq(nf.as_slice(), computed_nf.as_slice());
                    Some(root_ok && nf_ok && d > 0)
                }
            },
            _ => None,
        }
    }
}

impl ComplianceCircuit {
    /// The epoch the circuit reads from the low eight bytes of `epoch_be`.
    pub open spec fn epoch_of(epoch_be: Seq<u8>) -> u64 {
        u64_from_be(epoch_be.subrange(24, 32))
    }

    /// `None` when synthesis fails; otherwise whether every constraint holds:
    /// 0 < denomination ≤ AML_THRESHOLD_STROOPS; SHA-256(credential_commitment
    /// || oracle_signature) equals `vk_digest`; and the credential expires
    /// after the epoch (with `expiry - epoch - 1` below 2^63), the epoch
    /// being the low eight bytes of `epoch_be`.
    pub open spec fn constraint_outcome(&self) -> Option<bool> {
        match (
            self.vk_digest,
            self.epoch_be,
            self.denomination,
            self.credential_commitment,
            self.credential_expiry,
            self.oracle_signature,
            self.holder_secret_key,
        ) {
            (Some(vk), Some(ep), Some(d), Some(cc), Some(exp), Some(sig), Some(_hsk)) => {
                if d == 0 {
                    None
                } else {
                    Some(
                        denomination_positive(d) && d <= AML_THRESHOLD_STROOPS
                            && vk@ == sha256_digest(cc@ + sig@)
                            && expiry_after(exp, Self::epoch_of(ep@)),
                    )
                }
            },
            _ => None,
        }
    }

    /// Evaluate the circuit's constraints on its witness values.
    pub fn check_constraints(&self) -> (outcome: Option<bool>)
        ensures
            outcome == self.constraint_outcome(),
    {
        match (
            &self.vk_digest,
            &self.epoch_be,
            self.denomination,
            &self.credential_commitment,
            self.credential_expiry,
            &self.oracle_signature,
            &self.holder_secret_key,
        ) {
            (Some(vk), Some(ep), Some(d), Some(cc), Some(exp), Some(sig), Some(_hsk)) => {
                if d == 0 {
                    None
                } else {
                    let mut preimage: Vec<u8> = Vec::new();
                    append_bytes(&mut preimage, cc.as_slice());
                    append_bytes(&mut preimage, sig.as_slice());
                    let digest = sha256(preimage.as_slice());
                    let digest_ok = bytes_eq(vk.as_slice(), digest.as_slice());
                    let epoch = u64_from_be32_tail(ep);
                    let expiry_ok = epoch < exp && exp - epoch <= 0x8000_0000_0000_0000u64;
                    Some(d > 0 && d <= AML_THRESHOLD_STROOPS && digest_ok && expiry_ok)
                }
            },
            _ => None,
        }
    }
}

/// A deposit circuit is reported satisfied only for a positive amount whose
/// note (denomination, salt, receiver) hashes to the committed bytes; a
/// negative amount with every witness present is reported unsatisfied, and
/// synthesis fails exactly when a value is missing, the commitment is
/// shorter than 32 bytes, or the amount is zero.
pub proof fn law_deposit_accepts_only_positive_committed_notes(c: DepositCircuit)
    ensures
        c.constraint_outcome() == Some(true) ==> {
            &&& c.denomination matches Some(d) && d > 0
            &&& c.commitment matches Some(cm) && c.salt matches Some(s) && c.receiver_pk matches Some(pk)
                && cm@.len() >= 32 && cm@.subrange(0, 32) == sha256_digest(
                i64_be_bytes(c.denomination->0) + s@ + pk@,
            )
        },
        (c.commitment matches Some(cm) && cm@.len() >= 32) && c.salt is Some && c.receiver_pk is Some
            && (c.denomination matches Some(d) && d < 0) ==> c.constraint_outcome() == Some(false),
        (c.constraint_outcome() is None) <==> (c.commitment is None || c.denomination is None
            || c.salt is None || c.receiver_pk is None || c.commitment->0@.len() < 32
            || c.denomination->0 == 0),
{
}

/// A withdrawal circuit is reported satisfied only for a positive amount,
/// a nullifier that is SHA-256(salt || receiver_pk), and a root that the
/// note's commitment reaches along the path; a negative amount with every
/// witness present is reported unsatisfied, and synthesis fails exactly when
/// a value is missing or the amount is zero.
pub proof fn law_withdrawal_accepts_only_positive_spendable_notes(c: WithdrawalCircuit)
    ensures
        c.constraint_outcome() == Some(true) ==> {
            &&& c.denomination matches Some(d) && d > 0
            &&& c.salt matches Some(s) && c.receiver_pk matches Some(pk) && c.nullifier matches Some(nf)
                && nf@ == sha256_digest(s@ + pk@)
            &&& c.merkle_root matches Some(root) && c.merkle_path matches Some(path)
                && c.merkle_path_indices matches Some(idx) && root@ == merkle_root(
                sha256_digest(i64_be_bytes(c.denomination->0) + c.salt->0@ + c.receiver_pk->0@),
                path@,
                idx@,
            )
        },
        c.merkle_root is Some && c.nullifier is Some && c.salt is Some && c.receiver_pk is Some
            && c.merkle_path is Some && c.merkle_path_indices is Some && (c.denomination matches Some(
            d,
        ) && d < 0) ==> c.constraint_outcome() == Some(false),
        (c.constraint_outcome() is None) <==> (c.merkle_root is None || c.nullifier is None
            || c.denomination is None || c.salt is None || c.receiver_pk is None || c.merkle_path is None
            || c.merkle_path_indices is None || c.denomination->0 == 0),
{
}

/// A compliance circuit is reported satisfied only for an amount in
/// (0, AML_THRESHOLD_STROOPS], a digest that is SHA-256 of the credential
/// commitment and the oracle signature, and a credential that expires after
/// the epoch; an amount outside that range with every witness present is
/// reported unsatisfied.
pub proof fn law_compliance_accepts_only_in_range_live_credentials(c: ComplianceCircuit)
    ensures
        c.constraint_outcome() == Some(true) ==> {
            &&& c.denomination matches Some(d) && 0 < d <= AML_THRESHOLD_STROOPS
            &&& c.vk_digest matches Some(vk) && c.credential_commitment matches Some(cc)
                && c.oracle_signature matches Some(sig) && vk@ == sha256_digest(cc@ + sig@)
            &&& c.credential_expiry matches Some(exp) && c.epoch_be matches Some(ep)
                && u64_from_be(ep@.subrange(24, 32)) < exp
        },
        c.vk_digest is Some && c.epoch_be is Some && c.credential_commitment is Some
            && c.credential_expiry is Some && c.oracle_signature is Some && c.holder_secret_key is Some
            && (c.denomination matches Some(d) && d != 0 && (d < 0 || d > AML_THRESHOLD_STROOPS))
            ==> c.constraint_outcome() == Some(false),
{
}

} // verus!
