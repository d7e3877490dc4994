//! SHA-256, and the reduction of 32-byte strings into BLS12-381 scalars.

use ark_ff::{BigInteger, PrimeField};
use sha2::{Digest, Sha256};
use vstd::prelude::*;

use crate::bytes::{be_nat, lemma_be_nat_of_nat_to_be, lemma_be_nat_u64, lemma_nat_to_be_of_be_nat, nat_to_be, u64_be32};

verus! {

/// The SHA-256 digest of a byte string.
pub uninterp spec fn sha256_digest(data: Seq<u8>) -> Seq<u8>;

/// SHA-256 of `data`, computed by the `sha2` crate (`Sha256::digest`).
/// Trusted: the result is the name `sha256_digest` applied to the input.
#[verifier::external_body]
pub(crate) fn sha256(data: &[u8]) -> (out: [u8; 32])
    ensures
        out@ == sha256_digest(data@),
{
    Sha256::digest(data).into()
}

/// The order of the BLS12-381 scalar field.
pub open spec fn fr_modulus() -> nat {
    52435875175126190479447740508185965837690552500527637822603658699938581184513nat
}

/// The canonical 32-byte big-endian form of the scalar that `b`, read as a
/// big-endian integer, denotes modulo the field order.
pub open spec fn fr_scalar_be(b: Seq<u8>) -> Seq<u8> {
    nat_to_be(be_nat(b) % fr_modulus(), 32)
}

/// Convert a `[u8; 32]` to a big-endian `Fr` scalar (`Fr::from_be_bytes_mod_order`
/// of ark-ff), given as the big-endian bytes of its canonical representative
/// (`into_bigint().to_bytes_be()`). Trusted: the ark-ff source reads the bytes
/// as a big-endian integer and reduces it modulo the field order, and writes
/// the four 64-bit limbs of the representative as 32 big-endian bytes.
#[verifier::external_body]
pub(crate) fn bytes32_to_fr(bytes: &[u8; 32]) -> (scalar_be: Vec<u8>)
    ensures
        scalar_be@ == fr_scalar_be(bytes@),
{
    ark_bls12_381::Fr::from_be_bytes_mod_order(bytes).into_bigint().to_bytes_be()
}

/// A 32-byte string that already denotes a scalar below the field order is
/// its own canonical encoding.
pub proof fn law_canonical_scalar_unchanged(b: Seq<u8>)
    requires
        b.len() == 32,
        be_nat(b) < fr_modulus(),
    ensures
        fr_scalar_be(b) == b,
{
    lemma_nat_to_be_of_be_nat(b);
}

/// Encoding is canonical: the encoding of any 32 bytes denotes a scalar below
/// the field order, and encoding it again changes nothing.
pub proof fn law_scalar_encoding_canonical(b: Seq<u8>)
    ensures
        be_nat(fr_scalar_be(b)) < fr_modulus(),
        fr_scalar_be(fr_scalar_be(b)) == fr_scalar_be(b),
{
    let n = be_nat(b) % fr_modulus();
    lemma_be_nat_of_nat_to_be(n, 32);
    assert(crate::bytes::pow256(32) == 115792089237316195423570985008687907853269984665640564039457584007913129639936nat) by {
        reveal_with_fuel(crate::bytes::pow256, 33);
    }
    assert(n % 115792089237316195423570985008687907853269984665640564039457584007913129639936nat == n);
    crate::bytes::lemma_nat_to_be_len(n, 32);
    law_canonical_scalar_unchanged(fr_scalar_be(b));
}

/// A 64-bit value's 32-byte big-endian encoding (as used for the epoch
/// public input) is already a canonical scalar.
pub proof fn law_u64_scalar_unchanged(v: u64)
    ensures
        fr_scalar_be(u64_be32(v)) == u64_be32(v),
{
    lemma_be_nat_u64(v);
    law_canonical_scalar_unchanged(u64_be32(v));
}

} // verus!
