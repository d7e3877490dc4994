//! Proof generation: input validation, witness construction, proof framing
//! and public-input encoding around a Groth16 prover.
//!
//! The prover itself (Groth16 over BLS12-381 with fresh randomness) is handed
//! in by the caller as a function from the circuit to the three compressed
//! proof points, or to the message of the error it failed with.

use vstd::prelude::*;

use crate::bytes::{append_bytes, be_nat, bytes_eq, lemma_nat_to_be_len, lemma_u64_be_round_trip, u64_be32, u64_to_be32};
use crate::circuits::{ComplianceCircuit, DepositCircuit, WithdrawalCircuit, expiry_after};
use crate::hashing::{bytes32_to_fr, fr_modulus, fr_scalar_be, law_scalar_encoding_canonical, law_u64_scalar_unchanged, sha256, sha256_digest};
use crate::notes::{
    compute_commitment, compute_merkle_root, compute_nullifier, note_commitment, note_nullifier,
};
use crate::types::{AML_THRESHOLD_STROOPS, KycCredential, ProofBytes, PublicInputs};

verus! {

/// Errors produced by ZK circuit construction or proof generation.
#[derive(Debug)]
pub enum CircuitError {
    SynthesisError(String),
    ProofError(String),
    InvalidInput(String),
}

/// The three compressed points of a Groth16 proof as the prover serialised
/// them: π_a (G1), π_b (G2), π_c (G1).
#[derive(Debug, Clone)]
pub struct ProofPoints {
    pub a: Vec<u8>,
    pub b: Vec<u8>,
    pub c: Vec<u8>,
}

impl CircuitError {
    /// The text of the error, as `Display` renders it.
    pub open spec fn message_view(&self) -> Seq<char> {
        match self {
            CircuitError::SynthesisError(m) => "constraint synthesis failed: "@ + m@,
            CircuitError::ProofError(m) => "proof generation failed: "@ + m@,
            CircuitError::InvalidInput(m) => "invalid input: "@ + m@,
        }
    }

    /// The text of the error, as `Display` renders it.
    pub fn message(&self) -> (s: String)
        ensures
            s@ == self.message_view(),
    {
        match self {
            CircuitError::SynthesisError(m) => String::from_str("constraint synthesis failed: ").concat(m.as_str()),
            CircuitError::ProofError(m) => String::from_str("proof generation failed: ").concat(m.as_str()),
            CircuitError::InvalidInput(m) => String::from_str("invalid input: ").concat(m.as_str()),
        }
    }
}

/// The decimal digit character for `d < 10`.
pub open spec fn digit_char(d: nat) -> char {
    if d == 0 { '0' }
    else if d == 1 { '1' }
    else if d == 2 { '2' }
    else if d == 3 { '3' }
    else if d == 4 { '4' }
    else if d == 5 { '5' }
    else if d == 6 { '6' }
    else if d == 7 { '7' }
    else if d == 8 { '8' }
    else { '9' }
}

/// The decimal representation of `n`, without leading zeros.
pub open spec fn decimal_digits(n: nat) -> Seq<char>
    decreases n,
{
    if n < 10 {
        seq![digit_char(n)]
    } else {
        decimal_digits(n / 10) + seq![digit_char(n % 10)]
    }
}

fn digit_str(d: usize) -> (s: &'static str)
    requires
        d < 10,
    ensures
        s@ == seq![digit_char(d as nat)],
{
    proof {
        reveal_strlit("0");
        reveal_strlit("1");
        reveal_strlit("2");
        reveal_strlit("3");
        reveal_strlit("4");
        reveal_strlit("5");
        reveal_strlit("6");
        reveal_strlit("7");
        reveal_strlit("8");
        reveal_strlit("9");
    }
    if d == 0 { "0" }
    else if d == 1 { "1" }
    else if d == 2 { "2" }
    else if d == 3 { "3" }
    else if d == 4 { "4" }
    else if d == 5 { "5" }
    else if d == 6 { "6" }
    else if d == 7 { "7" }
    else if d == 8 { "8" }
    else { "9" }
}

/// The decimal representation of `n` (as `{}` formats a `usize`).
pub fn decimal_string(n: usize) -> (s: String)
    ensures
        s@ == decimal_digits(n as nat),
    decreases n,
{
    if n < 10 {
        String::from_str(digit_str(n))
    } else {
        let prefix = decimal_string(n / 10);
        prefix.concat(digit_str(n % 10))
    }
}

/// Whether the compressed points have the sizes of BLS12-381 G1 (48 bytes)
/// and G2 (96 bytes) points.
pub open spec fn points_well_sized(p: ProofPoints) -> bool {
    p.a@.len() == 48 && p.b@.len() == 96 && p.c@.len() == 48
}

/// The message reported for compressed points of unexpected sizes.
pub open spec fn point_sizes_message(p: ProofPoints) -> Seq<char> {
    "unexpected compressed point sizes: a="@ + decimal_digits(p.a@.len()) + ", b="@
        + decimal_digits(p.b@.len()) + ", c="@ + decimal_digits(p.c@.len())
}

/// What framing the points gives: the 192-byte wire format π_a ‖ π_b ‖ π_c,
/// or an error naming the sizes found.
pub open spec fn framing_outcome(p: ProofPoints, r: Result<ProofBytes, CircuitError>) -> bool {
    if points_well_sized(p) {
        r matches Ok(pb) && pb.0@ == p.a@ + p.b@ + p.c@
    } else {
        r matches Err(CircuitError::ProofError(m)) && m@ == point_sizes_message(p)
    }
}

/// Serialize a Groth16 proof into the 192-byte wire format:
///   π_a (G1, compressed 48 B) ‖ π_b (G2, compressed 96 B) ‖ π_c (G1, compressed 48 B)
pub fn serialize_proof(points: &ProofPoints) -> (r: Result<ProofBytes, CircuitError>)
    ensures
        framing_outcome(*points, r),
{
    if points.a.len() != 48 || points.b.len() != 96 || points.c.len() != 48 {
        let mut m = String::from_str("unexpected compressed point sizes: a=");
        m.append(decimal_string(points.a.len()).as_str());
        m.append(", b=");
        m.append(decimal_string(points.b.len()).as_str());
        m.append(", c=");
        m.append(decimal_string(points.c.len()).as_str());
        return Err(CircuitError::ProofError(m));
    }
    let mut all: Vec<u8> = Vec::new();
    append_bytes(&mut all, points.a.as_slice());
    append_bytes(&mut all, points.b.as_slice());
    append_bytes(&mut all, points.c.as_slice());
    let mut buf = [0u8; 192];
    let mut i: usize = 0;
    while i < 192
        invariant
            0 <= i <= 192,
            all@.len() == 192,
            buf@.len() == 192,
            forall|j: int| 0 <= j < i ==> buf@[j] == all@[j],
        decreases 192 - i,
    {
        buf[i] = all[i];
        i = i + 1;
    }
    assert(buf@ =~= all@);
    Ok(ProofBytes(buf))
}

/// A big-endian scalar encoding placed in 32 bytes, right-aligned: at most
/// 32 bytes are taken from the front of `be`, the rest is zero.
pub open spec fn scalar_be32(be: Seq<u8>) -> Seq<u8> {
    if be.len() <= 32 {
        Seq::new((32 - be.len()) as nat, |i: int| 0u8) + be
    } else {
        be.subrange(0, 32)
    }
}

/// Place a big-endian scalar encoding into a 32-byte array, right-aligned:
/// at most 32 bytes are taken from the front of `be`, the rest is zero.
pub fn scalar_to_be32(be: &[u8]) -> (out: [u8; 32])
    ensures
        out@ == scalar_be32(be@),
{
    let len: usize = if be.len() < 32 { be.len() } else { 32 };
    let start: usize = 32 - len;
    let mut arr = [0u8; 32];
    let mut i: usize = 0;
    while i < len
        invariant
            0 <= i <= len,
            len <= 32,
            len <= be@.len(),
            start == 32 - len,
            arr@.len() == 32,
            forall|j: int| 0 <= j < start ==> arr@[j] == 0u8,
            forall|j: int| 0 <= j < i ==> arr@[start + j] == be@[j],
        decreases len - i,
    {
        arr[start + i] = be[i];
        i = i + 1;
    }
    if be.len() <= 32 {
        assert(arr@ =~= Seq::new((32 - be@.len()) as nat, |i: int| 0u8) + be@);
    } else {
        assert(arr@ =~= be@.subrange(0, 32));
    }
    arr
}

/// Serialize a list of scalars, each given by the big-endian bytes of its
/// canonical representative, to `PublicInputs` of 32-byte arrays.
pub fn serialize_public_inputs(scalars: &[Vec<u8>]) -> (pi: PublicInputs)
    ensures
        pi.0@.len() == scalars@.len(),
        forall|i: int| 0 <= i < scalars@.len() ==> (#[trigger] pi.0@[i])@ == scalar_be32(scalars@[i]@),
{
    let mut out: Vec<[u8; 32]> = Vec::new();
    let mut i: usize = 0;
    while i < scalars.len()
        invariant
            0 <= i <= scalars@.len(),
            out@.len() == i,
            forall|k: int| 0 <= k < i ==> (#[trigger] out@[k])@ == scalar_be32(scalars@[k]@),
        decreases scalars@.len() - i,
    {
        let arr = scalar_to_be32(scalars[i].as_slice());
        out.push(arr);
        i = i + 1;
    }
    PublicInputs(out)
}

/// A public input read back as a scalar is the scalar it was written from:
/// reducing the 32-byte form of the canonical encoding of `b` gives that
/// encoding again.
pub proof fn law_public_input_round_trip(b: Seq<u8>)
    ensures
        fr_scalar_be(scalar_be32(fr_scalar_be(b))) == fr_scalar_be(b),
        scalar_be32(fr_scalar_be(b)) == fr_scalar_be(b),
{
    let x = fr_scalar_be(b);
    lemma_nat_to_be_len(be_nat(b) % fr_modulus(), 32);
    assert(scalar_be32(x) =~= x);
    law_scalar_encoding_canonical(b);
}

/// Framing succeeds exactly for points of 48, 96 and 48 bytes, and then lays
/// them out as π_a in bytes 0..48, π_b in 48..144 and π_c in 144..192.
pub proof fn law_proof_framing(p: ProofPoints, r: Result<ProofBytes, CircuitError>)
    requires
        framing_outcome(p, r),
    ensures
        (r is Ok) <==> (p.a@.len() == 48 && p.b@.len() == 96 && p.c@.len() == 48),
        r matches Ok(pb) ==> {
            &&& pb.0@.subrange(0, 48) == p.a@
            &&& pb.0@.subrange(48, 144) == p.b@
            &&& pb.0@.subrange(144, 192) == p.c@
        },
        r is Err ==> r matches Err(CircuitError::ProofError(_)),
{
    if let Ok(pb) = r {
        assert(pb.0@.subrange(0, 48) =~= p.a@);
        assert(pb.0@.subrange(48, 144) =~= p.b@);
        assert(pb.0@.subrange(144, 192) =~= p.c@);
    }
}

/// Proving succeeds only when the prover produced well-sized points; the
/// prover's error message is passed on unchanged; on success the proof is
/// the three points in order and the public inputs are exactly the given
/// scalars, in order.
pub proof fn law_proving_outcome(
    out: Result<ProofPoints, String>,
    inputs: Seq<Seq<u8>>,
    r: Result<(ProofBytes, PublicInputs), CircuitError>,
)
    requires
        proving_outcome(out, inputs, r),
    ensures
        (r is Ok) <==> (out matches Ok(p) && p.a@.len() == 48 && p.b@.len() == 96 && p.c@.len() == 48),
        out matches Err(m) ==> r matches Err(CircuitError::ProofError(m2)) && m2@ == m@,
        r matches Ok((pb, pi)) ==> {
            &&& out matches Ok(p) && pb.0@ == p.a@ + p.b@ + p.c@
            &&& pi.0@.len() == inputs.len()
            &&& forall|i: int| 0 <= i < inputs.len() ==> (#[trigger] pi.0@[i])@ == inputs[i]
        },
{
}

/// The result is the input error with the given message.
pub open spec fn invalid_input(r: Result<(ProofBytes, PublicInputs), CircuitError>, msg: Seq<char>) -> bool {
    r matches Err(CircuitError::InvalidInput(m)) && m@ == msg
}

/// The public inputs are the given 32-byte scalar encodings, in order.
pub open spec fn public_inputs_are(pi: PublicInputs, inputs: Seq<Seq<u8>>) -> bool {
    &&& pi.0@.len() == inputs.len()
    &&& forall|i: int| 0 <= i < inputs.len() ==> (#[trigger] pi.0@[i])@ == inputs[i]
}

/// What proving returns for a given prover output: the prover's error, the
/// framing error, or the framed proof with the public inputs.
pub open spec fn proving_outcome(
    out: Result<ProofPoints, String>,
    inputs: Seq<Seq<u8>>,
    r: Result<(ProofBytes, PublicInputs), CircuitError>,
) -> bool {
    match out {
        Err(msg) => r matches Err(CircuitError::ProofError(m)) && m@ == msg@,
        Ok(p) => if points_well_sized(p) {
            r matches Ok((pb, pi)) && pb.0@ == p.a@ + p.b@ + p.c@ && public_inputs_are(pi, inputs)
        } else {
            r matches Err(CircuitError::ProofError(m)) && m@ == point_sizes_message(p)
        },
    }
}

/// Frame the prover's output and attach the public inputs.
fn finish_proof(out: Result<ProofPoints, String>, scalars: Vec<Vec<u8>>) -> (r: Result<
    (ProofBytes, PublicInputs),
    CircuitError,
>)
    ensures
        proving_outcome(out, scalars@.map_values(|v: Vec<u8>| scalar_be32(v@)), r),
{
    let ghost views = scalars@.map_values(|v: Vec<u8>| scalar_be32(v@));
    match out {
        Err(msg) => Err(CircuitError::ProofError(msg)),
        Ok(points) => {
            let proof_bytes = match serialize_proof(&points) {
                Ok(pb) => pb,
                Err(e) => {
                    return Err(e);
                },
            };
            let public_inputs = serialize_public_inputs(scalars.as_slice());
            assert(public_inputs_are(public_inputs, views));
            Ok((proof_bytes, public_inputs))
        },
    }
}

/// The canonical scalar encoding of a 32-byte value, as a public input.
fn public_scalar(bytes: &[u8; 32]) -> (scalar_be: Vec<u8>)
    ensures
        scalar_be@ == fr_scalar_be(bytes@),
        scalar_be@.len() == 32,
{
    let s = bytes32_to_fr(bytes);
    proof {
        lemma_nat_to_be_len(be_nat(bytes@) % fr_modulus(), 32);
    }
    s
}

impl DepositCircuit {
    /// The circuit carries exactly the witnesses of a deposit of
    /// `denomination` with `salt` to `receiver_pk`, and its commitment.
    pub open spec fn is_deposit_witness(&self, denomination: i64, salt: [u8; 32], receiver_pk: [u8; 32]) -> bool {
        &&& self.commitment matches Some(c) && c@ == note_commitment(denomination, salt@, receiver_pk@)
        &&& self.denomination == Some(denomination)
        &&& self.salt == Some(salt)
        &&& self.receiver_pk == Some(receiver_pk)
    }
}

impl WithdrawalCircuit {
    /// The circuit carries exactly the witnesses of a withdrawal of the note
    /// (`denomination`, `salt`, `receiver_pk`) along the given path to
    /// `merkle_root`, and the note's nullifier.
    pub open spec fn is_withdrawal_witness(
        &self,
        denomination: i64,
        salt: [u8; 32],
        receiver_pk: [u8; 32],
        merkle_path: [[u8; 32]; 20],
        merkle_path_indices: [bool; 20],
        merkle_root: [u8; 32],
    ) -> bool {
        &&& self.merkle_root == Some(merkle_root)
        &&& self.nullifier matches Some(nf) && nf@ == note_nullifier(salt@, receiver_pk@)
        &&& self.denomination == Some(denomination)
        &&& self.salt == Some(salt)
        &&& self.receiver_pk == Some(receiver_pk)
        &&& self.merkle_path == Some(merkle_path)
        &&& self.merkle_path_indices == Some(merkle_path_indices)
    }
}

impl ComplianceCircuit {
    /// The circuit carries exactly the witnesses of a compliance proof for a
    /// transfer of `denomination` under `credential` at `epoch`.
    pub open spec fn is_compliance_witness(
        &self,
        denomination: i64,
        credential: KycCredential,
        holder_secret_key: [u8; 32],
        epoch: u64,
        vk_digest: [u8; 32],
    ) -> bool {
        &&& self.vk_digest == Some(vk_digest)
        &&& self.epoch_be matches Some(e) && e@ == u64_be32(epoch)
        &&& self.denomination == Some(denomination)
        &&& self.credential_commitment == Some(credential.identity_commitment)
        &&& self.credential_expiry == Some(credential.expires_at)
        &&& self.oracle_signature == Some(credential.oracle_signature)
        &&& self.holder_secret_key == Some(holder_secret_key)
    }
}

/// Prove a shielded deposit.
///
/// Computes the SHA-256 commitment from the private witnesses and returns the
/// Groth16 proof together with the public inputs vector (just the commitment).
/// The circuit handed to `prover` satisfies its constraints.
pub fn prove_deposit<F>(
    prover: F,
    denomination: i64,
    salt: [u8; 32],
    receiver_pk: [u8; 32],
) -> (r: Result<(ProofBytes, PublicInputs), CircuitError>) where
    F: FnOnce(DepositCircuit) -> Result<ProofPoints, String>,

    requires
        forall|c: DepositCircuit| call_requires(prover, (c,)),
    ensures
        denomination <= 0 ==> invalid_input(r, "denomination must be positive"@),
        denomination > 0 ==> exists|c: DepositCircuit, out: Result<ProofPoints, String>|
            {
                &&& #[trigger] call_ensures(prover, (c,), out)
                &&& c.is_deposit_witness(denomination, salt, receiver_pk)
                &&& c.constraint_outcome() == Some(true)
                &&& proving_outcome(
                    out,
                    seq![fr_scalar_be(note_commitment(denomination, salt@, receiver_pk@))],
                    r,
                )
            },
{
    if denomination <= 0 {
        return Err(CircuitError::InvalidInput(String::from_str("denomination must be positive")));
    }
    let commitment = compute_commitment(denomination, &salt, &receiver_pk);
    let circuit = DepositCircuit {
        commitment: Some(vstd::slice::slice_to_vec(commitment.as_slice())),
        denomination: Some(denomination),
        salt: Some(salt),
        receiver_pk: Some(receiver_pk),
    };
    assert(circuit.commitment.unwrap()@.subrange(0, 32) =~= commitment@);
    assert(circuit.constraint_outcome() == Some(true));
    let ghost submitted = circuit;
    let out = prover(circuit);
    let mut scalars: Vec<Vec<u8>> = Vec::new();
    scalars.push(public_scalar(&commitment));
    let r = finish_proof(out, scalars);
    assert(scalars@.map_values(|v: Vec<u8>| scalar_be32(v@)) =~= seq![fr_scalar_be(note_commitment(denomination, salt@, receiver_pk@))]);
    assert(call_ensures(prover, (submitted,), out));
    r
}

/// Prove a shielded withdrawal.
///
/// Computes the nullifier and verifies the caller-supplied `merkle_root`
/// is consistent with the Merkle path before generating the proof.
/// The circuit handed to `prover` satisfies its constraints.
pub fn prove_withdrawal<F>(
    prover: F,
    denomination: i64,
    salt: [u8; 32],
    receiver_pk: [u8; 32],
    merkle_path: [[u8; 32]; 20],
    merkle_path_indices: [bool; 20],
    merkle_root: [u8; 32],
) -> (r: Result<(ProofBytes, PublicInputs), CircuitError>) where
    F: FnOnce(WithdrawalCircuit) -> Result<ProofPoints, String>,

    requires
        forall|c: WithdrawalCircuit| call_requires(prover, (c,)),
    ensures
        denomination <= 0 ==> invalid_input(r, "denomination must be positive"@),
        denomination > 0 && merkle_root@ != crate::notes::merkle_root(
            note_commitment(denomination, salt@, receiver_pk@),
            merkle_path@,
            merkle_path_indices@,
        ) ==> invalid_input(r, "merkle root does not match the Merkle path"@),
        denomination > 0 && merkle_root@ == crate::notes::merkle_root(
            note_commitment(denomination, salt@, receiver_pk@),
            merkle_path@,
            merkle_path_indices@,
        ) ==> exists|c: WithdrawalCircuit, out: Result<ProofPoints, String>|
            {
                &&& #[trigger] call_ensures(prover, (c,), out)
                &&& c.is_withdrawal_witness(
                    denomination,
                    salt,
                    receiver_pk,
                    merkle_path,
                    merkle_path_indices,
                    merkle_root,
                )
                &&& c.constraint_outcome() == Some(true)
                &&& proving_outcome(
                    out,
                    seq![fr_scalar_be(merkle_root@), fr_scalar_be(note_nullifier(salt@, receiver_pk@))],
                    r,
                )
            },
{
    if denomination <= 0 {
        return Err(CircuitError::InvalidInput(String::from_str("denomination must be positive")));
    }
    let commitment = compute_commitment(denomination, &salt, &receiver_pk);
    let computed_root = compute_merkle_root(&commitment, &merkle_path, &merkle_path_indices);
    if !bytes_eq(computed_root.as_slice(), merkle_root.as_slice()) {
        return Err(
            CircuitError::InvalidInput(String::from_str("merkle root does not match the Merkle path")),
        );
    }
    let nullifier = compute_nullifier(&salt, &receiver_pk);
    let circuit = WithdrawalCircuit {
        merkle_root: Some(merkle_root),
        nullifier: Some(nullifier),
        denomination: Some(denomination),
        salt: Some(salt),
        receiver_pk: Some(receiver_pk),
        merkle_path: Some(merkle_path),
        merkle_path_indices: Some(merkle_path_indices),
    };
    assert(circuit.constraint_outcome() == Some(true));
    let ghost submitted = circuit;
    let out = prover(circuit);
    let mut scalars: Vec<Vec<u8>> = Vec::new();
    scalars.push(public_scalar(&merkle_root));
    scalars.push(public_scalar(&nullifier));
    let r = finish_proof(out, scalars);
    assert(scalars@.map_values(|v: Vec<u8>| scalar_be32(v@)) =~= seq![fr_scalar_be(merkle_root@), fr_scalar_be(note_nullifier(salt@, receiver_pk@))]);
    assert(call_ensures(prover, (submitted,), out));
    r
}

/// The oracle digest of a credential: SHA-256(identity_commitment || oracle_signature).
pub open spec fn credential_digest(credential: KycCredential) -> Seq<u8> {
    sha256_digest(credential.identity_commitment@ + credential.oracle_signature@)
}

/// Prove compliance (AML/KYC) for a shielded transfer.
///
/// Computes `vk_digest = SHA-256(credential_commitment || oracle_signature)`
/// as the proxy for Ed25519 oracle signature verification, and refuses a
/// caller-supplied `vk_digest` that differs from it. A credential that has
/// expired at `epoch` is refused before proving. The circuit handed to
/// `prover` satisfies its constraints unless the expiry lies more than 2^63
/// seconds after `epoch`, beyond the circuit's range check.
pub fn prove_compliance<F>(
    prover: F,
    denomination: i64,
    credential: &KycCredential,
    holder_secret_key: [u8; 32],
    epoch: u64,
    vk_digest: [u8; 32],
) -> (r: Result<(ProofBytes, PublicInputs), CircuitError>) where
    F: FnOnce(ComplianceCircuit) -> Result<ProofPoints, String>,

    requires
        forall|c: ComplianceCircuit| call_requires(prover, (c,)),
    ensures
        denomination <= 0 ==> invalid_input(r, "denomination must be positive"@),
        denomination > AML_THRESHOLD_STROOPS ==> invalid_input(
            r,
            "denomination exceeds AML threshold"@,
        ),
        0 < denomination <= AML_THRESHOLD_STROOPS && vk_digest@ != credential_digest(*credential)
            ==> invalid_input(r, "vk_digest does not match the credential"@),
        0 < denomination <= AML_THRESHOLD_STROOPS && vk_digest@ == credential_digest(*credential)
            && credential.expires_at <= epoch ==> invalid_input(r, "credential expired"@),
        0 < denomination <= AML_THRESHOLD_STROOPS && vk_digest@ == credential_digest(*credential)
            && epoch < credential.expires_at ==> exists|
            c: ComplianceCircuit,
            out: Result<ProofPoints, String>,
        |
            {
                &&& #[trigger] call_ensures(prover, (c,), out)
                &&& c.is_compliance_witness(denomination, *credential, holder_secret_key, epoch, vk_digest)
                &&& c.constraint_outcome() == Some(expiry_after(credential.expires_at, epoch))
                &&& proving_outcome(
                    out,
                    seq![fr_scalar_be(credential_digest(*credential)), u64_be32(epoch)],
                    r,
                )
            },
{
    if denomination <= 0 {
        return Err(CircuitError::InvalidInput(String::from_str("denomination must be positive")));
    }
    if denomination > AML_THRESHOLD_STROOPS {
        return Err(CircuitError::InvalidInput(String::from_str("denomination exceeds AML threshold")));
    }
    let mut preimage: Vec<u8> = Vec::new();
    append_bytes(&mut preimage, credential.identity_commitment.as_slice());
    append_bytes(&mut preimage, credential.oracle_signature.as_slice());
    let digest = sha256(preimage.as_slice());
    if !bytes_eq(digest.as_slice(), vk_digest.as_slice()) {
        return Err(CircuitError::InvalidInput(String::from_str("vk_digest does not match the credential")));
    }
    if credential.expires_at <= epoch {
        return Err(CircuitError::InvalidInput(String::from_str("credential expired")));
    }
    let epoch_be = u64_to_be32(epoch);
    let circuit = ComplianceCircuit {
        vk_digest: Some(vk_digest),
        epoch_be: Some(epoch_be),
        denomination: Some(denomination),
        credential_commitment: Some(credential.identity_commitment),
        credential_expiry: Some(credential.expires_at),
        oracle_signature: Some(credential.oracle_signature),
        holder_secret_key: Some(holder_secret_key),
    };
    proof {
        lemma_u64_be_round_trip(epoch);
        law_u64_scalar_unchanged(epoch);
    }
    assert(ComplianceCircuit::epoch_of(epoch_be@) == epoch);
    assert(circuit.constraint_outcome() == Some(expiry_after(credential.expires_at, epoch)));
    let ghost submitted = circuit;
    let out = prover(circuit);
    let mut scalars: Vec<Vec<u8>> = Vec::new();
    scalars.push(public_scalar(&vk_digest));
    scalars.push(public_scalar(&epoch_be));
    let r = finish_proof(out, scalars);
    assert(scalars@.map_values(|v: Vec<u8>| scalar_be32(v@)) =~= seq![fr_scalar_be(credential_digest(*credential)), u64_be32(epoch)]);
    assert(call_ensures(prover, (submitted,), out));
    r
}

} // verus!
