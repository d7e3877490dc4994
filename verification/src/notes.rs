//! Note commitments, nullifiers and Merkle membership, computed natively.

use vstd::prelude::*;

use crate::bytes::{append_bytes, be_nat, i64_be_bytes, lemma_be_nat_u64, u64_to_be8};
use crate::hashing::{sha256, sha256_digest};

verus! {

/// The bytes hashed into a note commitment: `denomination_be || salt || receiver_pk`.
pub open spec fn commitment_preimage(denomination: i64, salt: Seq<u8>, receiver_pk: Seq<u8>) -> Seq<u8> {
    i64_be_bytes(denomination) + salt + receiver_pk
}

/// commitment = SHA-256(denomination_be || salt || receiver_pk).
pub open spec fn note_commitment(denomination: i64, salt: Seq<u8>, receiver_pk: Seq<u8>) -> Seq<u8> {
    sha256_digest(commitment_preimage(denomination, salt, receiver_pk))
}

/// nullifier = SHA-256(salt || receiver_pk).
pub open spec fn note_nullifier(salt: Seq<u8>, receiver_pk: Seq<u8>) -> Seq<u8> {
    sha256_digest(salt + receiver_pk)
}

/// The parent of `current` at one tree level: `current` is the left child when
/// `is_right` is false, the right child when it is true.
pub open spec fn merkle_parent(current: Seq<u8>, sibling: Seq<u8>, is_right: bool) -> Seq<u8> {
    if is_right {
        sha256_digest(sibling + current)
    } else {
        sha256_digest(current + sibling)
    }
}

/// The node reached from `leaf` after climbing the first `levels` levels of the path.
pub open spec fn merkle_climb(
    leaf: Seq<u8>,
    siblings: Seq<[u8; 32]>,
    indices: Seq<bool>,
    levels: nat,
) -> Seq<u8>
    decreases levels,
{
    if levels == 0 {
        leaf
    } else {
        let below = merkle_climb(leaf, siblings, indices, (levels - 1) as nat);
        merkle_parent(below, siblings[levels - 1]@, indices[levels - 1])
    }
}

/// The root of the depth-20 tree that the path leads to from `leaf`.
pub open spec fn merkle_root(leaf: Seq<u8>, siblings: Seq<[u8; 32]>, indices: Seq<bool>) -> Seq<u8> {
    merkle_climb(leaf, siblings, indices, 20)
}

/// Compute commitment = SHA-256(denomination_be || salt || receiver_pk).
pub fn compute_commitment(denomination: i64, salt: &[u8; 32], receiver_pk: &[u8; 32]) -> (out: [u8; 32])
    ensures
        out@ == note_commitment(denomination, salt@, receiver_pk@),
{
    let denom_be = u64_to_be8(denomination as u64);
    let mut preimage: Vec<u8> = Vec::new();
    append_bytes(&mut preimage, denom_be.as_slice());
    append_bytes(&mut preimage, salt.as_slice());
    append_bytes(&mut preimage, receiver_pk.as_slice());
    assert(preimage@ =~= commitment_preimage(denomination, salt@, receiver_pk@));
    sha256(preimage.as_slice())
}

/// Compute nullifier = SHA-256(salt || receiver_pk).
pub fn compute_nullifier(salt: &[u8; 32], receiver_pk: &[u8; 32]) -> (out: [u8; 32])
    ensures
        out@ == note_nullifier(salt@, receiver_pk@),
{
    hash_pair(salt, receiver_pk)
}

/// SHA-256(left || right).
pub fn hash_pair(left: &[u8; 32], right: &[u8; 32]) -> (out: [u8; 32])
    ensures
        out@ == sha256_digest(left@ + right@),
{
    let mut preimage: Vec<u8> = Vec::new();
    append_bytes(&mut preimage, left.as_slice());
    append_bytes(&mut preimage, right.as_slice());
    sha256(preimage.as_slice())
}

/// Recompute the Merkle root from a leaf and its authentication path:
/// at each level the current node is hashed with the sibling, on the left
/// when the index bit is false and on the right when it is true.
pub fn compute_merkle_root(
    leaf: &[u8; 32],
    siblings: &[[u8; 32]; 20],
    indices: &[bool; 20],
) -> (root: [u8; 32])
    ensures
        root@ == merkle_root(leaf@, siblings@, indices@),
{
    let mut current: [u8; 32] = *leaf;
    let mut level: usize = 0;
    while level < 20
        invariant
            0 <= level <= 20,
            current@ == merkle_climb(leaf@, siblings@, indices@, level as nat),
        decreases 20 - level,
    {
        let sibling: [u8; 32] = siblings[level];
        if indices[level] {
            current = hash_pair(&sibling, &current);
        } else {
            current = hash_pair(&current, &sibling);
        }
        level = level + 1;
    }
    current
}

/// A note commitment hashes 72 bytes: the denomination's eight bytes, whose
/// big-endian value is the denomination as a 64-bit two's-complement word,
/// then the salt, then the receiver key.
pub proof fn law_commitment_preimage(denomination: i64, salt: [u8; 32], receiver_pk: [u8; 32])
    ensures
        note_commitment(denomination, salt@, receiver_pk@) == sha256_digest(
            commitment_preimage(denomination, salt@, receiver_pk@),
        ),
        commitment_preimage(denomination, salt@, receiver_pk@).len() == 72,
        be_nat(commitment_preimage(denomination, salt@, receiver_pk@).subrange(0, 8))
            == denomination as u64,
        commitment_preimage(denomination, salt@, receiver_pk@).subrange(8, 40) == salt@,
        commitment_preimage(denomination, salt@, receiver_pk@).subrange(40, 72) == receiver_pk@,
        note_nullifier(salt@, receiver_pk@) == sha256_digest(salt@ + receiver_pk@),
{
    let pre = commitment_preimage(denomination, salt@, receiver_pk@);
    lemma_be_nat_u64(denomination as u64);
    assert(pre.subrange(0, 8) =~= i64_be_bytes(denomination));
    assert(pre.subrange(8, 40) =~= salt@);
    assert(pre.subrange(40, 72) =~= receiver_pk@);
}

/// Climbing one more level hashes the node reached so far with the level's
/// sibling: the node on the left when the index bit is false, on the right
/// when it is true.
pub proof fn law_merkle_level(
    leaf: Seq<u8>,
    siblings: Seq<[u8; 32]>,
    indices: Seq<bool>,
    level: nat,
)
    ensures
        !indices[level as int] ==> merkle_climb(leaf, siblings, indices, level + 1) == sha256_digest(
            merkle_climb(leaf, siblings, indices, level) + siblings[level as int]@,
        ),
        indices[level as int] ==> merkle_climb(leaf, siblings, indices, level + 1) == sha256_digest(
            siblings[level as int]@ + merkle_climb(leaf, siblings, indices, level),
        ),
        merkle_climb(leaf, siblings, indices, 0) == leaf,
        merkle_root(leaf, siblings, indices) == merkle_climb(leaf, siblings, indices, 20),
{
}

} // verus!
