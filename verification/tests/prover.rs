use economic_fact_engine::circuits::{ComplianceCircuit, DepositCircuit, WithdrawalCircuit};
use economic_fact_engine::notes::{compute_commitment, compute_merkle_root, compute_nullifier};
use economic_fact_engine::prover::{
    prove_compliance, prove_deposit, prove_withdrawal, CircuitError, ProofPoints,
};
use economic_fact_engine::types::{KycCredential, AML_THRESHOLD_STROOPS};
use sha2::{Digest, Sha256};

/// The BLS12-381 scalar field order, big-endian.
const FR_MODULUS_BE: [u8; 32] = [
    0x73, 0xed, 0xa7, 0x53, 0x29, 0x9d, 0x7d, 0x48, 0x33, 0x39, 0xd8, 0x08, 0x09, 0xa1, 0xd8, 0x05,
    0x53, 0xbd, 0xa4, 0x02, 0xff, 0xfe, 0x5b, 0xfe, 0xff, 0xff, 0xff, 0xff, 0x00, 0x00, 0x00, 0x01,
];

fn reduce_mod_r(mut v: [u8; 32]) -> [u8; 32] {
    while v >= FR_MODULUS_BE {
        let mut borrow = 0i16;
        for i in (0..32).rev() {
            let mut d = v[i] as i16 - FR_MODULUS_BE[i] as i16 - borrow;
            if d < 0 {
                d += 256;
                borrow = 1;
            } else {
                borrow = 0;
            }
            v[i] = d as u8;
        }
    }
    v
}

fn points() -> ProofPoints {
    ProofPoints { a: vec![1u8; 48], b: vec![2u8; 96], c: vec![3u8; 48] }
}

fn sha_commitment(d: i64, salt: [u8; 32], pk: [u8; 32]) -> [u8; 32] {
    let mut h = Sha256::new();
    h.update(d.to_be_bytes());
    h.update(salt);
    h.update(pk);
    h.finalize().into()
}

#[test]
fn prove_deposit_frames_proof_and_commitment_input() {
    let salt = [0x11u8; 32];
    let pk = [0x22u8; 32];
    let mut seen = false;
    let r = prove_deposit(
        |c: DepositCircuit| {
            assert_eq!(c.check_constraints(), Some(true));
            seen = true;
            Ok(points())
        },
        1_000_000,
        salt,
        pk,
    );
    assert!(seen);
    let (proof, inputs) = r.expect("proof");
    assert_eq!(&proof.0[..48], &[1u8; 48][..]);
    assert_eq!(&proof.0[48..144], &[2u8; 96][..]);
    assert_eq!(&proof.0[144..], &[3u8; 48][..]);
    assert_eq!(inputs.0, vec![reduce_mod_r(sha_commitment(1_000_000, salt, pk))]);
}

#[test]
fn prove_deposit_rejects_non_positive_denominations() {
    for d in [0i64, -1, i64::MIN] {
        let r = prove_deposit(|_c: DepositCircuit| -> Result<ProofPoints, String> { panic!("prover must not run") }, d, [0u8; 32], [0u8; 32]);
        match r {
            Err(CircuitError::InvalidInput(m)) => assert_eq!(m, "denomination must be positive"),
            _ => panic!("expected invalid input"),
        }
    }
}

#[test]
fn prove_deposit_reports_prover_failure() {
    let r = prove_deposit(|_c: DepositCircuit| Err("rng exhausted".to_string()), 5, [0u8; 32], [0u8; 32]);
    match r {
        Err(CircuitError::ProofError(m)) => assert_eq!(m, "rng exhausted"),
        _ => panic!("expected proof error"),
    }
}

#[test]
fn prove_deposit_reports_unexpected_point_sizes() {
    let r = prove_deposit(
        |_c: DepositCircuit| Ok(ProofPoints { a: vec![0u8; 47], b: vec![0u8; 96], c: vec![0u8; 120] }),
        5,
        [0u8; 32],
        [0u8; 32],
    );
    match r {
        Err(e @ CircuitError::ProofError(_)) => {
            assert_eq!(
                e.message(),
                "proof generation failed: unexpected compressed point sizes: a=47, b=96, c=120"
            );
        },
        _ => panic!("expected proof error"),
    }
}

fn empty_path(commitment: [u8; 32]) -> ([u8; 32], [[u8; 32]; 20], [bool; 20]) {
    let siblings = [[0x33u8; 32]; 20];
    let mut indices = [false; 20];
    indices[3] = true;
    let root = compute_merkle_root(&commitment, &siblings, &indices);
    (root, siblings, indices)
}

#[test]
fn prove_withdrawal_checks_root_before_proving() {
    let salt = [0x42u8; 32];
    let pk = [0x7fu8; 32];
    let commitment = compute_commitment(77, &salt, &pk);
    let (root, siblings, indices) = empty_path(commitment);
    let mut wrong_root = root;
    wrong_root[31] ^= 1;
    let r = prove_withdrawal(
        |_c: WithdrawalCircuit| -> Result<ProofPoints, String> { panic!("prover must not run") },
        77,
        salt,
        pk,
        siblings,
        indices,
        wrong_root,
    );
    match r {
        Err(CircuitError::InvalidInput(m)) => assert_eq!(m, "merkle root does not match the Merkle path"),
        _ => panic!("expected invalid input"),
    }
}

#[test]
fn prove_withdrawal_publishes_root_and_nullifier() {
    let salt = [0x42u8; 32];
    let pk = [0x7fu8; 32];
    let commitment = compute_commitment(77, &salt, &pk);
    let (root, siblings, indices) = empty_path(commitment);
    let r = prove_withdrawal(
        |c: WithdrawalCircuit| {
            assert_eq!(c.check_constraints(), Some(true));
            Ok(points())
        },
        77,
        salt,
        pk,
        siblings,
        indices,
        root,
    );
    let (_, inputs) = r.expect("proof");
    let nullifier = compute_nullifier(&salt, &pk);
    assert_eq!(inputs.0, vec![reduce_mod_r(root), reduce_mod_r(nullifier)]);
}

fn credential(expires_at: u64) -> KycCredential {
    KycCredential {
        credential_id: "test-uuid".to_string(),
        issued_at: 1_000_000,
        expires_at,
        identity_commitment: [0x01u8; 32],
        oracle_signature: [0xabu8; 64],
    }
}

#[test]
fn prove_compliance_range_checks_denomination() {
    let cred = credential(2_000_000);
    let over = prove_compliance(
        |_c: ComplianceCircuit| -> Result<ProofPoints, String> { panic!("prover must not run") },
        AML_THRESHOLD_STROOPS + 1,
        &cred,
        [0x55u8; 32],
        1_000,
        [0u8; 32],
    );
    match over {
        Err(CircuitError::InvalidInput(m)) => assert_eq!(m, "denomination exceeds AML threshold"),
        _ => panic!("expected invalid input"),
    }
    let zero = prove_compliance(
        |_c: ComplianceCircuit| -> Result<ProofPoints, String> { panic!("prover must not run") },
        0,
        &cred,
        [0x55u8; 32],
        1_000,
        [0u8; 32],
    );
    assert!(matches!(zero, Err(CircuitError::InvalidInput(_))));
}

fn digest_of(cred: &KycCredential) -> [u8; 32] {
    let mut h = Sha256::new();
    h.update(cred.identity_commitment);
    h.update(cred.oracle_signature);
    h.finalize().into()
}

#[test]
fn prove_compliance_refuses_foreign_digest() {
    let cred = credential(2_000_000);
    let r = prove_compliance(
        |_c: ComplianceCircuit| -> Result<ProofPoints, String> { panic!("prover must not run") },
        AML_THRESHOLD_STROOPS,
        &cred,
        [0x55u8; 32],
        1_000_000,
        [0xffu8; 32],
    );
    match r {
        Err(CircuitError::InvalidInput(m)) => assert_eq!(m, "vk_digest does not match the credential"),
        _ => panic!("expected invalid input"),
    }
}

#[test]
fn prove_compliance_refuses_expired_credentials() {
    for (expires_at, epoch, msg) in [
        (1_699_999_999u64, 1_700_000_000u64, "credential expired"),
        (1_700_000_000, 1_700_000_000, "credential expired"),
    ] {
        let cred = credential(expires_at);
        let r = prove_compliance(
            |_c: ComplianceCircuit| -> Result<ProofPoints, String> { panic!("prover must not run") },
            1_000,
            &cred,
            [0x55u8; 32],
            epoch,
            digest_of(&cred),
        );
        match r {
            Err(CircuitError::InvalidInput(m)) => assert_eq!(m, msg),
            _ => panic!("expected invalid input"),
        }
    }
}

#[test]
fn prove_compliance_hands_over_far_expiry() {
    // An expiry more than 2^63 s after the epoch is beyond the circuit's range
    // check: the prover receives an unsatisfied circuit.
    let cred = credential(u64::MAX);
    let mut ran = false;
    let r = prove_compliance(
        |c: ComplianceCircuit| {
            assert_eq!(c.check_constraints(), Some(false));
            ran = true;
            Ok(points())
        },
        1_000,
        &cred,
        [0x55u8; 32],
        0,
        digest_of(&cred),
    );
    assert!(ran);
    assert!(r.is_ok());
}

#[test]
fn prove_compliance_reduces_public_inputs() {
    // Pick a credential whose digest lies above the field order, so that
    // reduction changes it.
    let mut cred = credential(1_700_000_100);
    let mut byte = 0u8;
    loop {
        cred.oracle_signature[0] = byte;
        if digest_of(&cred) >= FR_MODULUS_BE {
            break;
        }
        byte += 1;
    }
    let digest = digest_of(&cred);
    let r = prove_compliance(
        |c: ComplianceCircuit| {
            assert_eq!(c.check_constraints(), Some(true));
            Ok(points())
        },
        AML_THRESHOLD_STROOPS,
        &cred,
        [0x55u8; 32],
        1_700_000_000,
        digest,
    );
    let (_, inputs) = r.expect("proof");
    let mut epoch_be = [0u8; 32];
    epoch_be[24..].copy_from_slice(&1_700_000_000u64.to_be_bytes());
    assert_ne!(reduce_mod_r(digest), digest);
    assert_eq!(inputs.0, vec![reduce_mod_r(digest), epoch_be]);
}

#[test]
fn prove_compliance_builds_satisfiable_circuit_for_valid_credential() {
    let cred = credential(1_700_000_100);
    let mut h = Sha256::new();
    h.update(cred.identity_commitment);
    h.update(cred.oracle_signature);
    let vk_digest: [u8; 32] = h.finalize().into();
    let r = prove_compliance(
        |c: ComplianceCircuit| {
            assert_eq!(c.check_constraints(), Some(true));
            Ok(points())
        },
        1,
        &cred,
        [0x55u8; 32],
        1_700_000_000,
        vk_digest,
    );
    assert!(r.is_ok());
}

#[test]
fn circuit_error_messages() {
    assert_eq!(
        CircuitError::InvalidInput("denomination must be positive".to_string()).message(),
        "invalid input: denomination must be positive"
    );
    assert_eq!(
        CircuitError::SynthesisError("x".to_string()).message(),
        "constraint synthesis failed: x"
    );
}
