//! The on-chain verifier contract's registry of verification keys: one-time
//! initialization, admin-only key rotation, key digests and proof checks.
//!
//! The contract's storage (the admin in instance storage, one serialized
//! Groth16 verifying key per circuit in persistent storage) is held by
//! `VerifierContract`; each entry point is a method that reads and updates
//! it. The host supplies the authenticated caller and publishes the events
//! that the methods return.

use ark_ff::PrimeField;
use ark_groth16::{Groth16, Proof, VerifyingKey};
use ark_serialize::CanonicalDeserialize;
use vstd::prelude::*;

use crate::hashing::{sha256, sha256_digest};

verus! {

/// Storage keys for the verifier contract.
/// `Admin` uses instance storage; VK keys use persistent storage.
#[derive(Debug, Clone, Copy, PartialEq, Eq, Structural)]
pub enum VerifierDataKey {
    /// Address of the 3-of-5 multisig admin (instance storage)
    Admin,
    /// Serialized Groth16 VerifyingKey for the Deposit circuit (circuit_id = 0)
    VkDeposit,
    /// Serialized Groth16 VerifyingKey for the Withdrawal circuit (circuit_id = 1)
    VkWithdrawal,
    /// Serialized Groth16 VerifyingKey for the Compliance circuit (circuit_id = 2)
    VkCompliance,
}

/// Errors returned by the verifier contract entry points.
/// `verify_proof` never returns an error — it returns `false` on any bad input.
#[derive(Debug, Clone, Copy, PartialEq, Eq, Structural)]
pub enum VerifierError {
    /// Contract called before `initialize()`.
    NotInitialized,
    /// `initialize()` was called more than once.
    AlreadyInitialized,
    /// `circuit_id` is not 0, 1, or 2; `verify_proof` returns `false` instead.
    UnknownCircuitId,
    /// Caller of `rotate_vk` is not the stored admin.
    UnauthorizedRotation,
    /// VK bytes cannot be deserialized into a valid VerifyingKey.
    InvalidVkBytes,
}

impl VerifierError {
    /// The contract error code of each variant.
    pub open spec fn code_spec(self) -> u32 {
        match self {
            VerifierError::NotInitialized => 1,
            VerifierError::AlreadyInitialized => 2,
            VerifierError::UnknownCircuitId => 3,
            VerifierError::UnauthorizedRotation => 4,
            VerifierError::InvalidVkBytes => 5,
        }
    }

    /// The contract error code reported to callers.
    pub fn code(&self) -> (c: u32)
        ensures
            c == self.code_spec(),
    {
        match self {
            VerifierError::NotInitialized => 1,
            VerifierError::AlreadyInitialized => 2,
            VerifierError::UnknownCircuitId => 3,
            VerifierError::UnauthorizedRotation => 4,
            VerifierError::InvalidVkBytes => 5,
        }
    }
}

impl VerifierDataKey {
    /// The storage key of the verifying key of circuit `circuit_id`.
    pub open spec fn for_circuit_spec(circuit_id: u32) -> Option<VerifierDataKey> {
        if circuit_id == 0 {
            Some(VerifierDataKey::VkDeposit)
        } else if circuit_id == 1 {
            Some(VerifierDataKey::VkWithdrawal)
        } else if circuit_id == 2 {
            Some(VerifierDataKey::VkCompliance)
        } else {
            None
        }
    }

    /// The storage key of the verifying key of circuit `circuit_id`
    /// (0 = Deposit, 1 = Withdrawal, 2 = Compliance), if there is such a circuit.
    pub fn for_circuit(circuit_id: u32) -> (key: Option<VerifierDataKey>)
        ensures
            key == Self::for_circuit_spec(circuit_id),
    {
        if circuit_id == 0 {
            Some(VerifierDataKey::VkDeposit)
        } else if circuit_id == 1 {
            Some(VerifierDataKey::VkWithdrawal)
        } else if circuit_id == 2 {
            Some(VerifierDataKey::VkCompliance)
        } else {
            None
        }
    }
}

/// Whether the bytes deserialize (compressed, validated) into a Groth16
/// verifying key over BLS12-381.
pub uninterp spec fn vk_deserializes(vk: Seq<u8>) -> bool;

/// Whether the bytes deserialize (compressed, validated) into a Groth16
/// proof over BLS12-381: points π_a (G1), π_b (G2), π_c (G1) in that order.
pub uninterp spec fn proof_deserializes(proof: Seq<u8>) -> bool;

/// Whether the Groth16 verifier of ark-groth16 accepts a proof against a key,
/// both given by their compressed serializations, for the given public
/// inputs (each a big-endian 32-byte scalar reduced modulo the field order).
pub uninterp spec fn groth16_accepts(vk: Seq<u8>, proof: Seq<u8>, public_inputs: Seq<[u8; 32]>) -> bool;

/// `VerifyingKey::<Bls12_381>::deserialize_compressed` (ark-serialize, with
/// validation). Trusted: reports whether it succeeds; the result depends on
/// the bytes alone.
#[verifier::external_body]
fn vk_bytes_valid(vk: &[u8]) -> (valid: bool)
    ensures
        valid == vk_deserializes(vk@),
{
    VerifyingKey::<ark_bls12_381::Bls12_381>::deserialize_compressed(vk).is_ok()
}

/// `Proof::<Bls12_381>::deserialize_compressed` (ark-serialize, with
/// validation). Trusted: reports whether it succeeds; the result depends on
/// the bytes alone.
#[verifier::external_body]
fn proof_bytes_valid(proof: &[u8]) -> (valid: bool)
    ensures
        valid == proof_deserializes(proof@),
{
    Proof::<ark_bls12_381::Bls12_381>::deserialize_compressed(proof).is_ok()
}

/// `Groth16::<Bls12_381>::verify` (ark-groth16) on a key and a proof read
/// with `deserialize_compressed` and scalars read with
/// `Fr::from_be_bytes_mod_order`; a key or proof that does not deserialize,
/// and an error from the verifier (a public-input count that does not match
/// the key), give `false`. Trusted: the answer depends on the arguments alone.
#[verifier::external_body]
fn groth16_verify(vk: &[u8], proof: &[u8], public_inputs: &[[u8; 32]]) -> (accepted: bool)
    ensures
        accepted == groth16_accepts(vk@, proof@, public_inputs@),
{
    let Ok(vk) = VerifyingKey::<ark_bls12_381::Bls12_381>::deserialize_compressed(vk) else { return false };
    let Ok(proof) = Proof::<ark_bls12_381::Bls12_381>::deserialize_compressed(proof) else { return false };
    let inputs: Vec<ark_bls12_381::Fr> = public_inputs.iter().map(|b| ark_bls12_381::Fr::from_be_bytes_mod_order(b)).collect();
    <Groth16<ark_bls12_381::Bls12_381> as ark_snark::SNARK<ark_bls12_381::Fr>>::verify(&vk, &inputs, &proof).unwrap_or(false)
}

/// The event published by `initialize`: the SHA-256 digest of each
/// verifying key, published under the topic `("init",)`.
#[derive(Debug, Clone, Copy, PartialEq, Eq)]
pub struct InitEvent {
    pub vk_deposit_digest: [u8; 32],
    pub vk_withdrawal_digest: [u8; 32],
    pub vk_compliance_digest: [u8; 32],
}

/// The verifier contract and its storage: the admin address (absent before
/// initialization) and the serialized verifying key of each circuit.
pub struct VerifierContract {
    admin: Option<String>,
    vk_deposit: Vec<u8>,
    vk_withdrawal: Vec<u8>,
    vk_compliance: Vec<u8>,
}

impl VerifierContract {
    /// An admin has been stored, by `initialize`.
    pub closed spec fn is_initialized(&self) -> bool {
        self.admin is Some
    }

    /// The stored admin address (empty before initialization).
    pub closed spec fn admin_view(&self) -> Seq<char> {
        match self.admin {
            Some(a) => a@,
            None => Seq::empty(),
        }
    }

    /// The stored verifying key of circuit `circuit_id` (empty for an unknown id).
    pub closed spec fn vk_view(&self, circuit_id: u32) -> Seq<u8> {
        if circuit_id == 0 {
            self.vk_deposit@
        } else if circuit_id == 1 {
            self.vk_withdrawal@
        } else if circuit_id == 2 {
            self.vk_compliance@
        } else {
            Seq::empty()
        }
    }

    /// Two contract states store the same admin and keys.
    pub open spec fn same_storage(&self, other: &VerifierContract) -> bool {
        &&& self.is_initialized() == other.is_initialized()
        &&& self.admin_view() == other.admin_view()
        &&& forall|id: u32| #[trigger] self.vk_view(id) == other.vk_view(id)
    }

    /// What `initialize` does to the storage and returns.
    pub open spec fn initialize_post(
        before: &VerifierContract,
        admin: Seq<char>,
        vk_deposit: Seq<u8>,
        vk_withdrawal: Seq<u8>,
        vk_compliance: Seq<u8>,
        after: &VerifierContract,
        r: Result<InitEvent, VerifierError>,
    ) -> bool {
        if before.is_initialized() {
            r == Err::<InitEvent, VerifierError>(VerifierError::AlreadyInitialized) && after.same_storage(before)
        } else {
            &&& r matches Ok(ev) && ev.vk_deposit_digest@ == sha256_digest(vk_deposit)
                && ev.vk_withdrawal_digest@ == sha256_digest(vk_withdrawal)
                && ev.vk_compliance_digest@ == sha256_digest(vk_compliance)
            &&& after.is_initialized()
            &&& after.admin_view() == admin
            &&& after.vk_view(0) == vk_deposit
            &&& after.vk_view(1) == vk_withdrawal
            &&& after.vk_view(2) == vk_compliance
        }
    }

    /// What `rotate_vk` does to the storage and returns.
    pub open spec fn rotate_post(
        before: &VerifierContract,
        caller: Seq<char>,
        circuit_id: u32,
        new_vk: Seq<u8>,
        after: &VerifierContract,
        r: Result<(), VerifierError>,
    ) -> bool {
        if !before.is_initialized() {
            r == Err::<(), VerifierError>(VerifierError::NotInitialized) && after.same_storage(before)
        } else if caller != before.admin_view() {
            r == Err::<(), VerifierError>(VerifierError::UnauthorizedRotation) && after.same_storage(before)
        } else if circuit_id > 2 {
            r == Err::<(), VerifierError>(VerifierError::UnknownCircuitId) && after.same_storage(before)
        } else if !vk_deserializes(new_vk) {
            r == Err::<(), VerifierError>(VerifierError::InvalidVkBytes) && after.same_storage(before)
        } else {
            &&& r == Ok::<(), VerifierError>(())
            &&& after.is_initialized()
            &&& after.admin_view() == before.admin_view()
            &&& after.vk_view(circuit_id) == new_vk
            &&& forall|id: u32| id != circuit_id ==> #[trigger] after.vk_view(id) == before.vk_view(id)
        }
    }

    /// A contract whose storage is empty: not yet initialized.
    pub fn new() -> (c: VerifierContract)
        ensures
            !c.is_initialized(),
            c.admin_view() == Seq::<char>::empty(),
            forall|id: u32| #[trigger] c.vk_view(id) == Seq::<u8>::empty(),
    {
        VerifierContract {
            admin: None,
            vk_deposit: Vec::new(),
            vk_withdrawal: Vec::new(),
            vk_compliance: Vec::new(),
        }
    }

    /// A contract holding the given storage: `admin` is absent before
    /// initialization.
    pub fn from_storage(
        admin: Option<String>,
        vk_deposit: Vec<u8>,
        vk_withdrawal: Vec<u8>,
        vk_compliance: Vec<u8>,
    ) -> (c: VerifierContract)
        ensures
            c.is_initialized() == (admin is Some),
            admin matches Some(a) ==> c.admin_view() == a@,
            admin is None ==> c.admin_view() == Seq::<char>::empty(),
            c.vk_view(0) == vk_deposit@,
            c.vk_view(1) == vk_withdrawal@,
            c.vk_view(2) == vk_compliance@,
    {
        VerifierContract { admin, vk_deposit, vk_withdrawal, vk_compliance }
    }

    /// The stored admin address, once initialized.
    pub fn admin(&self) -> (admin: Option<&String>)
        ensures
            (admin is Some) == self.is_initialized(),
            admin matches Some(a) ==> a@ == self.admin_view(),
    {
        match &self.admin {
            Some(a) => Some(a),
            None => None,
        }
    }

    /// The stored verifying key of circuit `circuit_id` (0, 1 or 2).
    pub fn vk(&self, circuit_id: u32) -> (vk: &Vec<u8>)
        requires
            circuit_id <= 2,
        ensures
            vk@ == self.vk_view(circuit_id),
    {
        if circuit_id == 0 {
            &self.vk_deposit
        } else if circuit_id == 1 {
            &self.vk_withdrawal
        } else {
            &self.vk_compliance
        }
    }

    /// Initialize the verifier with verification keys for all three circuits.
    ///
    /// Stores `admin` and each VK, and returns the `("init",)` event: the
    /// SHA-256 digest of each VK. Returns `AlreadyInitialized`, storing
    /// nothing, if called a second time.
    pub fn initialize(
        &mut self,
        admin: String,
        vk_deposit: Vec<u8>,
        vk_withdrawal: Vec<u8>,
        vk_compliance: Vec<u8>,
    ) -> (r: Result<InitEvent, VerifierError>)
        ensures
            Self::initialize_post(
                &*old(self),
                admin@,
                vk_deposit@,
                vk_withdrawal@,
                vk_compliance@,
                &*final(self),
                r,
            ),
    {
        if self.admin.is_some() {
            return Err(VerifierError::AlreadyInitialized);
        }
        let event = InitEvent {
            vk_deposit_digest: sha256(vk_deposit.as_slice()),
            vk_withdrawal_digest: sha256(vk_withdrawal.as_slice()),
            vk_compliance_digest: sha256(vk_compliance.as_slice()),
        };
        self.admin = Some(admin);
        self.vk_deposit = vk_deposit;
        self.vk_withdrawal = vk_withdrawal;
        self.vk_compliance = vk_compliance;
        Ok(event)
    }

    /// Rotate a stored verification key (emergency use only).
    ///
    /// `caller` is the address whose authorization the host has checked;
    /// only the stored admin may rotate. Returns `NotInitialized` before
    /// `initialize`, `UnauthorizedRotation` for any other caller,
    /// `UnknownCircuitId` for an id other than 0, 1, 2 and `InvalidVkBytes`
    /// for bytes that are not a verifying key; storage is then unchanged.
    pub fn rotate_vk(&mut self, caller: &String, circuit_id: u32, new_vk: Vec<u8>) -> (r: Result<
        (),
        VerifierError,
    >)
        ensures
            Self::rotate_post(&*old(self), caller@, circuit_id, new_vk@, &*final(self), r),
    {
        let authorized = match &self.admin {
            None => {
                return Err(VerifierError::NotInitialized);
            },
            Some(admin) => *caller == *admin,
        };
        if !authorized {
            return Err(VerifierError::UnauthorizedRotation);
        }
        let key = match VerifierDataKey::for_circuit(circuit_id) {
            None => {
                return Err(VerifierError::UnknownCircuitId);
            },
            Some(key) => key,
        };
        if !vk_bytes_valid(new_vk.as_slice()) {
            return Err(VerifierError::InvalidVkBytes);
        }
        match key {
            VerifierDataKey::VkDeposit => {
                self.vk_deposit = new_vk;
            },
            VerifierDataKey::VkWithdrawal => {
                self.vk_withdrawal = new_vk;
            },
            _ => {
                self.vk_compliance = new_vk;
            },
        }
        Ok(())
    }

    /// Return the SHA-256 digest of the stored VK for the given `circuit_id`.
    ///
    /// Useful for independent verification that the correct VK is deployed.
    /// Defined for an initialized contract and `circuit_id` 0, 1 or 2.
    pub fn get_vk_digest(&self, circuit_id: u32) -> (digest: [u8; 32])
        requires
            self.is_initialized(),
            circuit_id <= 2,
        ensures
            digest@ == sha256_digest(self.vk_view(circuit_id)),
    {
        sha256(self.vk(circuit_id).as_slice())
    }

    /// Verify a Groth16 proof for the given circuit.
    ///
    /// Returns `false` on any malformed, truncated, or arithmetically invalid
    /// input (a proof of other than 192 bytes, a stored key or a proof that
    /// does not deserialize), for an unknown `circuit_id` and before
    /// initialization.
    ///
    /// `circuit_id`: 0 = Deposit, 1 = Withdrawal, 2 = Compliance
    pub fn verify_proof(&self, circuit_id: u32, proof_bytes: &[u8], public_inputs: &[[u8; 32]]) -> (accepted: bool)
        ensures
            accepted == (self.is_initialized() && circuit_id <= 2 && proof_bytes@.len() == 192
                && vk_deserializes(self.vk_view(circuit_id)) && proof_deserializes(proof_bytes@)
                && groth16_accepts(self.vk_view(circuit_id), proof_bytes@, public_inputs@)),
    {
        if self.admin.is_none() || circuit_id > 2 || proof_bytes.len() != 192 {
            return false;
        }
        let vk = self.vk(circuit_id).as_slice();
        if !vk_bytes_valid(vk) || !proof_bytes_valid(proof_bytes) {
            return false;
        }
        groth16_verify(vk, proof_bytes, public_inputs)
    }
}

/// Initialization happens once: a second `initialize` fails with
/// `AlreadyInitialized` and keeps the admin and keys of the first.
pub proof fn law_initialize_once(
    s0: VerifierContract,
    s1: VerifierContract,
    s2: VerifierContract,
    admin1: Seq<char>,
    keys1: (Seq<u8>, Seq<u8>, Seq<u8>),
    r1: Result<InitEvent, VerifierError>,
    admin2: Seq<char>,
    keys2: (Seq<u8>, Seq<u8>, Seq<u8>),
    r2: Result<InitEvent, VerifierError>,
)
    requires
        !s0.is_initialized(),
        VerifierContract::initialize_post(&s0, admin1, keys1.0, keys1.1, keys1.2, &s1, r1),
        VerifierContract::initialize_post(&s1, admin2, keys2.0, keys2.1, keys2.2, &s2, r2),
    ensures
        r1 is Ok,
        r2 == Err::<InitEvent, VerifierError>(VerifierError::AlreadyInitialized),
        s2.admin_view() == admin1,
        s2.vk_view(0) == keys1.0,
        s2.vk_view(1) == keys1.1,
        s2.vk_view(2) == keys1.2,
{
}

/// After initialization, the digest reported for each circuit is the
/// SHA-256 of the key it was initialized with, the same digest the
/// initialization event published.
pub proof fn law_digest_matches_init_event(
    s0: VerifierContract,
    s1: VerifierContract,
    admin: Seq<char>,
    keys: (Seq<u8>, Seq<u8>, Seq<u8>),
    r: Result<InitEvent, VerifierError>,
)
    requires
        !s0.is_initialized(),
        VerifierContract::initialize_post(&s0, admin, keys.0, keys.1, keys.2, &s1, r),
    ensures
        r matches Ok(ev) && {
            &&& ev.vk_deposit_digest@ == sha256_digest(s1.vk_view(0))
            &&& ev.vk_withdrawal_digest@ == sha256_digest(s1.vk_view(1))
            &&& ev.vk_compliance_digest@ == sha256_digest(s1.vk_view(2))
        },
{
}

/// Only the admin rotates: a rotation by any other caller fails with
/// `UnauthorizedRotation` and leaves every key in place.
pub proof fn law_only_admin_rotates(
    s0: VerifierContract,
    s1: VerifierContract,
    caller: Seq<char>,
    circuit_id: u32,
    new_vk: Seq<u8>,
    r: Result<(), VerifierError>,
)
    requires
        s0.is_initialized(),
        caller != s0.admin_view(),
        VerifierContract::rotate_post(&s0, caller, circuit_id, new_vk, &s1, r),
    ensures
        r == Err::<(), VerifierError>(VerifierError::UnauthorizedRotation),
        forall|id: u32| #[trigger] s1.vk_view(id) == s0.vk_view(id),
        s1.admin_view() == s0.admin_view(),
{
}

/// The admin can rotate the key of every known circuit (0 = Deposit,
/// 1 = Withdrawal, 2 = Compliance) to any bytes that deserialize as a
/// verifying key: the rotation succeeds, the circuit's digest becomes the
/// SHA-256 of the new key, and only an id above 2 is an unknown circuit.
pub proof fn law_admin_rotates_every_known_circuit(
    s0: VerifierContract,
    s1: VerifierContract,
    caller: Seq<char>,
    circuit_id: u32,
    new_vk: Seq<u8>,
    r: Result<(), VerifierError>,
)
    requires
        VerifierContract::rotate_post(&s0, caller, circuit_id, new_vk, &s1, r),
    ensures
        s0.is_initialized() && caller == s0.admin_view() && circuit_id <= 2 && vk_deserializes(
            new_vk,
        ) ==> r == Ok::<(), VerifierError>(()) && s1.vk_view(circuit_id) == new_vk
            && sha256_digest(s1.vk_view(circuit_id)) == sha256_digest(new_vk),
        r == Err::<(), VerifierError>(VerifierError::UnknownCircuitId) ==> circuit_id > 2,
        r == Err::<(), VerifierError>(VerifierError::UnknownCircuitId) <==> (s0.is_initialized()
            && caller == s0.admin_view() && circuit_id > 2),
        (VerifierDataKey::for_circuit_spec(circuit_id) is Some) <==> circuit_id <= 2,
{
}

/// A successful rotation replaces the key of the named circuit, so that its
/// digest becomes the SHA-256 of the new key, and keeps the other keys and
/// the admin.
pub proof fn law_rotation_replaces_one_key(
    s0: VerifierContract,
    s1: VerifierContract,
    caller: Seq<char>,
    circuit_id: u32,
    new_vk: Seq<u8>,
    r: Result<(), VerifierError>,
)
    requires
        VerifierContract::rotate_post(&s0, caller, circuit_id, new_vk, &s1, r),
        r is Ok,
    ensures
        s0.is_initialized() && caller == s0.admin_view() && circuit_id <= 2 && vk_deserializes(new_vk),
        sha256_digest(s1.vk_view(circuit_id)) == sha256_digest(new_vk),
        forall|id: u32| id != circuit_id ==> #[trigger] s1.vk_view(id) == s0.vk_view(id),
        s1.admin_view() == s0.admin_view(),
{
}

} // verus!
