use ark_bls12_381::{Bls12_381, Fr};
use ark_groth16::Groth16;
use ark_relations::r1cs::{ConstraintSynthesizer, ConstraintSystemRef, LinearCombination, SynthesisError};
use ark_serialize::CanonicalSerialize;
use ark_snark::SNARK;
use economic_fact_engine::vk_registry::{VerifierContract, VerifierDataKey, VerifierError};
use sha2::{Digest, Sha256};

/// Public y, private x, with x * x = y.
struct Square {
    x: Option<u64>,
    y: Option<u64>,
}

impl ConstraintSynthesizer<Fr> for Square {
    fn generate_constraints(self, cs: ConstraintSystemRef<Fr>) -> Result<(), SynthesisError> {
        let y = cs.new_input_variable(|| self.y.map(Fr::from).ok_or(SynthesisError::AssignmentMissing))?;
        let x = cs.new_witness_variable(|| self.x.map(Fr::from).ok_or(SynthesisError::AssignmentMissing))?;
        cs.enforce_constraint(
            LinearCombination::from(x),
            LinearCombination::from(x),
            LinearCombination::from(y),
        )
    }
}

fn scalar_be(v: u64) -> [u8; 32] {
    let mut out = [0u8; 32];
    out[24..].copy_from_slice(&v.to_be_bytes());
    out
}

/// A verifying key and a 192-byte proof of 3 * 3 = 9.
fn square_key_and_proof() -> (Vec<u8>, Vec<u8>) {
    let mut rng = rand::thread_rng();
    let (pk, vk) = Groth16::<Bls12_381>::circuit_specific_setup(Square { x: None, y: None }, &mut rng).unwrap();
    let proof = Groth16::<Bls12_381>::prove(&pk, Square { x: Some(3), y: Some(9) }, &mut rng).unwrap();
    let mut vk_bytes = Vec::new();
    vk.serialize_compressed(&mut vk_bytes).unwrap();
    let mut proof_bytes = Vec::new();
    proof.a.serialize_compressed(&mut proof_bytes).unwrap();
    proof.b.serialize_compressed(&mut proof_bytes).unwrap();
    proof.c.serialize_compressed(&mut proof_bytes).unwrap();
    (vk_bytes, proof_bytes)
}

fn sha(b: &[u8]) -> [u8; 32] {
    Sha256::digest(b).into()
}

#[test]
fn initialize_once_and_publish_digests() {
    let mut c = VerifierContract::new();
    let ev = c
        .initialize("GADMIN".to_string(), vec![1, 2], vec![3], vec![])
        .ok()
        .expect("first initialize succeeds");
    assert_eq!(ev.vk_deposit_digest, sha(&[1, 2]));
    assert_eq!(ev.vk_withdrawal_digest, sha(&[3]));
    assert_eq!(ev.vk_compliance_digest, sha(&[]));
    assert_eq!(c.get_vk_digest(0), sha(&[1, 2]));
    assert_eq!(c.get_vk_digest(1), sha(&[3]));
    assert_eq!(c.get_vk_digest(2), sha(&[]));

    let second = c.initialize("GOTHER".to_string(), vec![9], vec![9], vec![9]);
    assert_eq!(second.err(), Some(VerifierError::AlreadyInitialized));
    assert_eq!(c.get_vk_digest(0), sha(&[1, 2]));
}

#[test]
fn rotation_rules() {
    let (vk, _) = square_key_and_proof();
    let mut c = VerifierContract::new();
    assert_eq!(c.rotate_vk(&"GADMIN".to_string(), 0, vk.clone()), Err(VerifierError::NotInitialized));
    c.initialize("GADMIN".to_string(), vec![1], vec![2], vec![3]).ok().unwrap();
    assert_eq!(c.rotate_vk(&"GMALLORY".to_string(), 0, vk.clone()), Err(VerifierError::UnauthorizedRotation));
    assert_eq!(c.rotate_vk(&"GADMIN".to_string(), 3, vk.clone()), Err(VerifierError::UnknownCircuitId));
    assert_eq!(c.rotate_vk(&"GADMIN".to_string(), 1, vec![0xde, 0xad]), Err(VerifierError::InvalidVkBytes));
    assert_eq!(c.get_vk_digest(1), sha(&[2]));
    assert_eq!(c.rotate_vk(&"GADMIN".to_string(), 1, vk.clone()), Ok(()));
    assert_eq!(c.get_vk_digest(1), sha(&vk));
    assert_eq!(c.get_vk_digest(0), sha(&[1]));
    assert_eq!(c.get_vk_digest(2), sha(&[3]));
}

#[test]
fn verify_proof_accepts_only_valid_proofs() {
    let (vk, proof) = square_key_and_proof();
    assert_eq!(proof.len(), 192);
    let mut c = VerifierContract::new();
    assert!(!c.verify_proof(0, &proof, &[scalar_be(9)]), "uninitialized contract rejects");
    c.initialize("GADMIN".to_string(), vk.clone(), vec![1, 2, 3], vk.clone()).ok().unwrap();
    assert!(c.verify_proof(0, &proof, &[scalar_be(9)]));
    assert!(c.verify_proof(2, &proof, &[scalar_be(9)]));
    assert!(!c.verify_proof(0, &proof, &[scalar_be(10)]), "wrong public input");
    assert!(!c.verify_proof(0, &proof, &[]), "missing public input");
    assert!(!c.verify_proof(1, &proof, &[scalar_be(9)]), "malformed key");
    assert!(!c.verify_proof(3, &proof, &[scalar_be(9)]), "unknown circuit");
    assert!(!c.verify_proof(0, &proof[..191], &[scalar_be(9)]), "truncated proof");
    assert!(!c.verify_proof(0, &[0xffu8; 192], &[scalar_be(9)]), "bytes that are not points");
    let mut garbage = proof.clone();
    garbage[0] ^= 0x55;
    assert!(!c.verify_proof(0, &garbage, &[scalar_be(9)]), "corrupted proof");
}

#[test]
fn error_codes_and_keys() {
    assert_eq!(VerifierError::NotInitialized.code(), 1);
    assert_eq!(VerifierError::AlreadyInitialized.code(), 2);
    assert_eq!(VerifierError::UnknownCircuitId.code(), 3);
    assert_eq!(VerifierError::UnauthorizedRotation.code(), 4);
    assert_eq!(VerifierError::InvalidVkBytes.code(), 5);
    assert_eq!(VerifierDataKey::for_circuit(0), Some(VerifierDataKey::VkDeposit));
    assert_eq!(VerifierDataKey::for_circuit(1), Some(VerifierDataKey::VkWithdrawal));
    assert_eq!(VerifierDataKey::for_circuit(2), Some(VerifierDataKey::VkCompliance));
    assert_eq!(VerifierDataKey::for_circuit(7), None);
}
