use economic_fact_engine::circuits::ComplianceCircuit;
use economic_fact_engine::types::AML_THRESHOLD_STROOPS;
use sha2::{Digest, Sha256};

/// Compute `vk_digest = SHA-256(credential_commitment || oracle_signature)`.
fn compute_vk_digest(credential_commitment: [u8; 32], oracle_signature: [u8; 64]) -> [u8; 32] {
    let mut hasher = Sha256::new();
    hasher.update(credential_commitment);
    hasher.update(oracle_signature);
    hasher.finalize().into()
}

/// Convert a u64 epoch to the 32-byte big-endian representation used by the circuit.
fn epoch_to_be32(epoch: u64) -> [u8; 32] {
    let mut arr = [0u8; 32];
    arr[24..32].copy_from_slice(&epoch.to_be_bytes());
    arr
}

/// Build a `ComplianceCircuit` with all fields set to internally consistent values.
fn build_circuit(
    denomination: i64,
    credential_commitment: [u8; 32],
    credential_expiry: u64,
    epoch: u64,
    oracle_signature: [u8; 64],
) -> ComplianceCircuit {
    let vk_digest = compute_vk_digest(credential_commitment, oracle_signature);
    let epoch_be = epoch_to_be32(epoch);
    ComplianceCircuit {
        vk_digest: Some(vk_digest),
        epoch_be: Some(epoch_be),
        denomination: Some(denomination),
        credential_commitment: Some(credential_commitment),
        credential_expiry: Some(credential_expiry),
        oracle_signature: Some(oracle_signature),
        holder_secret_key: Some([0x55u8; 32]),
    }
}

#[test]
fn test_valid_circuit_boundary_denomination() {
    let denomination: i64 = AML_THRESHOLD_STROOPS - 1;
    let credential_commitment = [0x01u8; 32];
    let oracle_signature = [0xabu8; 64];
    let epoch: u64 = 1_700_000_000;
    let credential_expiry: u64 = epoch + 86_400;

    let circuit = build_circuit(denomination, credential_commitment, credential_expiry, epoch, oracle_signature);
    let outcome = circuit.check_constraints();
    assert!(outcome.is_some(), "constraint generation should not error for a valid circuit");
    assert!(
        outcome.unwrap(),
        "denomination = AML_THRESHOLD_STROOPS - 1 should satisfy all constraints"
    );
}

#[test]
fn test_denomination_above_aml_threshold_fails() {
    let denomination: i64 = AML_THRESHOLD_STROOPS + 1;
    let credential_commitment = [0x02u8; 32];
    let oracle_signature = [0xbcu8; 64];
    let epoch: u64 = 1_700_000_000;
    let credential_expiry: u64 = epoch + 86_400;

    let circuit = build_circuit(denomination, credential_commitment, credential_expiry, epoch, oracle_signature);
    let outcome = circuit.check_constraints();
    let rejected = outcome.is_none() || !outcome.unwrap_or(false);
    assert!(
        rejected,
        "denomination = AML_THRESHOLD_STROOPS + 1 should fail the AML range-check constraint"
    );
}

#[test]
fn test_expired_credential_fails() {
    let denomination: i64 = 1_000_000;
    let credential_commitment = [0x03u8; 32];
    let oracle_signature = [0xcdu8; 64];
    let epoch: u64 = 1_700_000_000;
    let credential_expiry: u64 = epoch - 1;

    let circuit = build_circuit(denomination, credential_commitment, credential_expiry, epoch, oracle_signature);
    let outcome = circuit.check_constraints();
    let rejected = outcome.is_none() || !outcome.unwrap_or(false);
    assert!(rejected, "expired credential (expiry < epoch) should fail constraint 3");
}

#[test]
fn test_invalid_oracle_signature_fails() {
    let denomination: i64 = 500_000;
    let credential_commitment = [0x04u8; 32];
    let oracle_signature = [0xdeu8; 64];
    let epoch: u64 = 1_700_000_000;
    let credential_expiry: u64 = epoch + 3_600;

    let real_vk_digest = compute_vk_digest(credential_commitment, oracle_signature);
    let epoch_be = epoch_to_be32(epoch);
    let forged_signature = [0xffu8; 64];

    let circuit = ComplianceCircuit {
        vk_digest: Some(real_vk_digest),
        epoch_be: Some(epoch_be),
        denomination: Some(denomination),
        credential_commitment: Some(credential_commitment),
        credential_expiry: Some(credential_expiry),
        oracle_signature: Some(forged_signature),
        holder_secret_key: Some([0x55u8; 32]),
    };
    let outcome = circuit.check_constraints();
    assert!(outcome.is_some(), "constraint generation should not error");
    assert!(
        !outcome.unwrap(),
        "forged oracle signature should fail the SHA-256 equality constraint 2"
    );
}

#[test]
fn compliance_threshold_itself_is_accepted() {
    let epoch: u64 = 1_700_000_000;
    let circuit = build_circuit(AML_THRESHOLD_STROOPS, [9u8; 32], epoch + 1, epoch, [7u8; 64]);
    assert_eq!(circuit.check_constraints(), Some(true));
}

#[test]
fn compliance_expiry_equal_to_epoch_is_rejected() {
    let epoch: u64 = 1_700_000_000;
    let circuit = build_circuit(10, [9u8; 32], epoch, epoch, [7u8; 64]);
    assert_eq!(circuit.check_constraints(), Some(false));
}

#[test]
fn compliance_expiry_gap_beyond_63_bits_is_rejected() {
    let circuit = build_circuit(10, [9u8; 32], u64::MAX, 0, [7u8; 64]);
    assert_eq!(circuit.check_constraints(), Some(false));
    let edge = build_circuit(10, [9u8; 32], 1u64 << 63, 0, [7u8; 64]);
    assert_eq!(edge.check_constraints(), Some(true));
}

#[test]
fn compliance_zero_denomination_cannot_be_synthesised() {
    let circuit = build_circuit(0, [9u8; 32], 100, 1, [7u8; 64]);
    assert_eq!(circuit.check_constraints(), None);
    let negative = build_circuit(-5, [9u8; 32], 100, 1, [7u8; 64]);
    assert_eq!(negative.check_constraints(), Some(false));
}

#[test]
fn compliance_missing_witness_cannot_be_synthesised() {
    let mut circuit = build_circuit(10, [9u8; 32], 100, 1, [7u8; 64]);
    circuit.holder_secret_key = None;
    assert_eq!(circuit.check_constraints(), None);
}

#[test]
fn compliance_extreme_denominations_are_rejected() {
    let epoch: u64 = 1_700_000_000;
    let circuit = build_circuit(i64::MIN, [0x01u8; 32], epoch + 86_400, epoch, [0xabu8; 64]);
    assert_eq!(circuit.check_constraints(), Some(false));
    let max = build_circuit(i64::MAX, [0x01u8; 32], epoch + 86_400, epoch, [0xabu8; 64]);
    assert_eq!(max.check_constraints(), Some(false));
}

#[test]
fn compliance_epoch_is_read_from_low_bytes() {
    let epoch: u64 = 1_700_000_000;
    let mut circuit = build_circuit(10, [0x01u8; 32], epoch + 86_400, epoch, [0xabu8; 64]);
    let mut be = epoch_to_be32(epoch);
    be[0] = 1;
    circuit.epoch_be = Some(be);
    assert_eq!(circuit.check_constraints(), Some(true));
}
