//! The error vocabulary shared by the corridor's off-chain components.

use vstd::prelude::*;

verus! {

/// Shared error enum for all off-chain corridor components.
///
/// **Privacy invariant**: No variant's message includes denomination, Note
/// preimage fields, KYC credential content, or any user identity data.
#[derive(Debug, Clone, Copy, PartialEq, Eq, Structural)]
pub enum CorridorError {
    /// The submitted ZK proof did not satisfy the circuit constraints as
    /// verified by the on-chain verifier contract.
    ProofVerificationFailed,
    /// The nullifier submitted during a withdrawal has already been recorded
    /// in the shielded pool's spent-nullifier set (double-spend attempt).
    NullifierAlreadySpent,
    /// A withdrawal was attempted for a Note that has already been redeemed
    /// (surfaced by the off-ramp after receiving `NullifierAlreadySpent` from the pool).
    NoteAlreadyRedeemed,
    /// The Soroban deposit transaction failed after the fiat deposit was confirmed
    /// by the on-ramp anchor; a refund to the sender's anchor account has been initiated.
    DepositAtomicityFailure,
    /// A direct USDC transfer to the shielded pool was attempted without a
    /// valid Deposit_Circuit ZK proof.
    UnshieldedDepositRejected,
    /// The shielded pool's Merkle tree has reached maximum capacity (2^20 leaves).
    PoolCapacityExceeded,
    /// The deposit or withdrawal amount is invalid (zero, negative, or out of range).
    InvalidAmount,
    /// The KYC credential presented is malformed or its signature does not
    /// verify under the Compliance Oracle's public key.
    InvalidCredential,
    /// The KYC credential's expiry timestamp has passed at the time of proof
    /// generation; the holder must obtain a renewed credential.
    CredentialExpired,
    /// The off-ramp anchor failed to confirm MXN disbursement within the
    /// 24-hour settlement window; manual reconciliation is required.
    OfframpSettlementTimeout,
    /// An error occurred while communicating with the on-ramp or off-ramp
    /// SEP-24 anchor service.
    AnchorIntegrationFailure,
}

impl CorridorError {
    /// The human-readable message of each variant.
    pub open spec fn message_view(self) -> Seq<char> {
        match self {
            CorridorError::ProofVerificationFailed => "proof verification failed"@,
            CorridorError::NullifierAlreadySpent => "nullifier already spent"@,
            CorridorError::NoteAlreadyRedeemed => "note already redeemed"@,
            CorridorError::DepositAtomicityFailure => "deposit atomicity failure"@,
            CorridorError::UnshieldedDepositRejected => "unshielded deposit rejected"@,
            CorridorError::PoolCapacityExceeded => "pool capacity exceeded"@,
            CorridorError::InvalidAmount => "invalid amount"@,
            CorridorError::InvalidCredential => "invalid credential"@,
            CorridorError::CredentialExpired => "credential expired"@,
            CorridorError::OfframpSettlementTimeout => "off-ramp settlement timeout"@,
            CorridorError::AnchorIntegrationFailure => "anchor integration failure"@,
        }
    }

    /// The human-readable message of the error (its `Display` text).
    pub fn message(&self) -> (s: &'static str)
        ensures
            s@ == self.message_view(),
    {
        match self {
            CorridorError::ProofVerificationFailed => "proof verification failed",
            CorridorError::NullifierAlreadySpent => "nullifier already spent",
            CorridorError::NoteAlreadyRedeemed => "note already redeemed",
            CorridorError::DepositAtomicityFailure => "deposit atomicity failure",
            CorridorError::UnshieldedDepositRejected => "unshielded deposit rejected",
            CorridorError::PoolCapacityExceeded => "pool capacity exceeded",
            CorridorError::InvalidAmount => "invalid amount",
            CorridorError::InvalidCredential => "invalid credential",
            CorridorError::CredentialExpired => "credential expired",
            CorridorError::OfframpSettlementTimeout => "off-ramp settlement timeout",
            CorridorError::AnchorIntegrationFailure => "anchor integration failure",
        }
    }
}

/// The characters of `f` from position `k` on appear in `s` from position `at + k` on.
pub open spec fn matches_at(s: Seq<char>, f: Seq<char>, at: int, k: int) -> bool
    decreases f.len() - k,
{
    if k < 0 || k >= f.len() {
        true
    } else {
        s[at + k] == f[k] && matches_at(s, f, at, k + 1)
    }
}

/// `f` occurs in `s` as a contiguous run of characters starting at some
/// position `at` or later.
pub open spec fn occurs_from(s: Seq<char>, f: Seq<char>, at: int) -> bool
    decreases s.len() - at,
{
    if at < 0 || at + f.len() > s.len() {
        false
    } else {
        matches_at(s, f, at, 0) || occurs_from(s, f, at + 1)
    }
}

/// `f` occurs in `s` as a contiguous run of characters.
pub open spec fn occurs_in(s: Seq<char>, f: Seq<char>) -> bool {
    occurs_from(s, f, 0)
}

/// The terms whose appearance in an error message would leak a note's
/// amount, preimage, or the holder's credential.
pub open spec fn sensitive_fragments() -> Seq<Seq<char>> {
    seq![
        "stroops"@,
        "denomination"@,
        "credential_id"@,
        "oracle_signature"@,
        "issued_at"@,
        "expires_at"@,
        "identity_commitment"@,
        "receiver_pk"@,
        "leaf_index"@,
    ]
}

/// The message `m` contains none of the sensitive fragments.
pub open spec fn hides_sensitive_data(m: Seq<char>) -> bool {
    forall|i: int| 0 <= i < sensitive_fragments().len() ==> !occurs_in(m, #[trigger] sensitive_fragments()[i])
}

proof fn lemma_hides_sensitive_data(m: &'static str)
    requires
        !occurs_in(m@, "stroops"@),
        !occurs_in(m@, "denomination"@),
        !occurs_in(m@, "credential_id"@),
        !occurs_in(m@, "oracle_signature"@),
        !occurs_in(m@, "issued_at"@),
        !occurs_in(m@, "expires_at"@),
        !occurs_in(m@, "identity_commitment"@),
        !occurs_in(m@, "receiver_pk"@),
        !occurs_in(m@, "leaf_index"@),
    ensures
        hides_sensitive_data(m@),
{
    assert forall|i: int| 0 <= i < sensitive_fragments().len() implies !occurs_in(m@, #[trigger] sensitive_fragments()[i]) by {
        if i == 0 {
            assert(sensitive_fragments()[i] == "stroops"@);
        }
        if i == 1 {
            assert(sensitive_fragments()[i] == "denomination"@);
        }
        if i == 2 {
            assert(sensitive_fragments()[i] == "credential_id"@);
        }
        if i == 3 {
            assert(sensitive_fragments()[i] == "oracle_signature"@);
        }
        if i == 4 {
            assert(sensitive_fragments()[i] == "issued_at"@);
        }
        if i == 5 {
            assert(sensitive_fragments()[i] == "expires_at"@);
        }
        if i == 6 {
            assert(sensitive_fragments()[i] == "identity_commitment"@);
        }
        if i == 7 {
            assert(sensitive_fragments()[i] == "receiver_pk"@);
        }
        if i == 8 {
            assert(sensitive_fragments()[i] == "leaf_index"@);
        }
    }
}

/// Privacy invariant: no error message contains a term that would leak a
/// note's amount or preimage, or the holder's credential data.
pub proof fn lemma_error_messages_hide_sensitive_data(e: CorridorError)
    ensures
        hides_sensitive_data(e.message_view()),
{
    reveal_with_fuel(occurs_from, 30);
    reveal_with_fuel(matches_at, 20);
    reveal_strlit("stroops");
    reveal_strlit("denomination");
    reveal_strlit("credential_id");
    reveal_strlit("oracle_signature");
    reveal_strlit("issued_at");
    reveal_strlit("expires_at");
    reveal_strlit("identity_commitment");
    reveal_strlit("receiver_pk");
    reveal_strlit("leaf_index");
    match e {
        CorridorError::ProofVerificationFailed => {
            reveal_strlit("proof verification failed");
            lemma_hides_sensitive_data("proof verification failed");
        },
        CorridorError::NullifierAlreadySpent => {
            reveal_strlit("nullifier already spent");
            lemma_hides_sensitive_data("nullifier already spent");
        },
        CorridorError::NoteAlreadyRedeemed => {
            reveal_strlit("note already redeemed");
            lemma_hides_sensitive_data("note already redeemed");
        },
        CorridorError::DepositAtomicityFailure => {
            reveal_strlit("deposit atomicity failure");
            lemma_hides_sensitive_data("deposit atomicity failure");
        },
        CorridorError::UnshieldedDepositRejected => {
            reveal_strlit("unshielded deposit rejected");
            lemma_hides_sensitive_data("unshielded deposit rejected");
        },
        CorridorError::PoolCapacityExceeded => {
            reveal_strlit("pool capacity exceeded");
            lemma_hides_sensitive_data("pool capacity exceeded");
        },
        CorridorError::InvalidAmount => {
            reveal_strlit("invalid amount");
            lemma_hides_sensitive_data("invalid amount");
        },
        CorridorError::InvalidCredential => {
            reveal_strlit("invalid credential");
            lemma_hides_sensitive_data("invalid credential");
        },
        CorridorError::CredentialExpired => {
            reveal_strlit("credential expired");
            lemma_hides_sensitive_data("credential expired");
        },
        CorridorError::OfframpSettlementTimeout => {
            reveal_strlit("off-ramp settlement timeout");
            lemma_hides_sensitive_data("off-ramp settlement timeout");
        },
        CorridorError::AnchorIntegrationFailure => {
            reveal_strlit("anchor integration failure");
            lemma_hides_sensitive_data("anchor integration failure");
        },
    }
}

} // verus!
