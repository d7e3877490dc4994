use economic_fact_engine::bytes::{u64_to_be32, u64_to_be8};
use economic_fact_engine::notes::{compute_commitment, compute_merkle_root, compute_nullifier, hash_pair};
use economic_fact_engine::prover::{decimal_string, scalar_to_be32, serialize_proof, serialize_public_inputs, ProofPoints};
use sha2::{Digest, Sha256};

#[test]
fn u64_to_be32_pads_upper_bytes() {
    let out = u64_to_be32(0x0102_0304_0506_0708);
    let mut expected = [0u8; 32];
    expected[24..].copy_from_slice(&[1, 2, 3, 4, 5, 6, 7, 8]);
    assert_eq!(out, expected);
    assert_eq!(u64_to_be8(u64::MAX), [0xff; 8]);
    assert_eq!(u64_to_be32(0), [0u8; 32]);
}

#[test]
fn commitment_and_nullifier_are_sha256() {
    let salt = [0x42u8; 32];
    let pk = [0x7fu8; 32];
    let mut h = Sha256::new();
    h.update((-3i64).to_be_bytes());
    h.update(salt);
    h.update(pk);
    let expected: [u8; 32] = h.finalize().into();
    assert_eq!(compute_commitment(-3, &salt, &pk), expected);

    let mut h = Sha256::new();
    h.update(salt);
    h.update(pk);
    let expected: [u8; 32] = h.finalize().into();
    assert_eq!(compute_nullifier(&salt, &pk), expected);
    assert_eq!(hash_pair(&salt, &pk), expected);
}

#[test]
fn merkle_root_respects_index_bits() {
    let leaf = [5u8; 32];
    let siblings = [[6u8; 32]; 20];
    let mut indices = [false; 20];
    indices[0] = true;
    let mut current = leaf;
    for level in 0..20 {
        let mut h = Sha256::new();
        if indices[level] {
            h.update(siblings[level]);
            h.update(current);
        } else {
            h.update(current);
            h.update(siblings[level]);
        }
        current = h.finalize().into();
    }
    assert_eq!(compute_merkle_root(&leaf, &siblings, &indices), current);
}

#[test]
fn decimal_strings() {
    assert_eq!(decimal_string(0), "0");
    assert_eq!(decimal_string(9), "9");
    assert_eq!(decimal_string(10), "10");
    assert_eq!(decimal_string(192), "192");
    assert_eq!(decimal_string(usize::MAX), usize::MAX.to_string());
}

#[test]
fn proof_wire_format() {
    let p = ProofPoints { a: (0..48).collect(), b: (48..144).collect(), c: (144..192).collect() };
    let framed = serialize_proof(&p).ok().expect("well-sized");
    let expected: Vec<u8> = (0..192).map(|i| i as u8).collect();
    assert_eq!(framed.0.to_vec(), expected);
    let bad = ProofPoints { a: vec![], b: vec![0; 96], c: vec![0; 48] };
    assert!(serialize_proof(&bad).is_err());
}

#[test]
fn scalar_padding() {
    let mut expected = [0u8; 32];
    expected[30] = 1;
    expected[31] = 2;
    assert_eq!(scalar_to_be32(&[1, 2]), expected);
    let long: Vec<u8> = (0..40).collect();
    let mut first: [u8; 32] = [0; 32];
    first.copy_from_slice(&long[..32]);
    assert_eq!(scalar_to_be32(&long), first);
    let pi = serialize_public_inputs(&[vec![7u8; 32], vec![8u8; 32]]);
    assert_eq!(pi.0, vec![[7u8; 32], [8u8; 32]]);
}

#[test]
fn u64_encoding_keeps_order() {
    let values = [0u64, 1, 255, 256, 1_700_000_000, u64::MAX - 1, u64::MAX];
    for a in values {
        for b in values {
            assert_eq!(a <= b, u64_to_be32(a) <= u64_to_be32(b));
        }
    }
}
