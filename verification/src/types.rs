//! The values that pass between the gateway and its callers.

use vstd::prelude::*;

verus! {

/// A point in time, in whole seconds since the Unix epoch.
pub type Timestamp = u64;

/// The address of an account on the chain.
#[derive(Clone, Copy, Debug, PartialEq, Eq)]
pub struct AccountAddress(pub [u8; 32]);

/// A one-time nonce that binds a later proof to a session.
#[derive(Clone, Copy, Debug, PartialEq, Eq)]
pub struct Challenge(pub [u8; 32]);

/// What a caller receives when a challenge is issued.
#[derive(Clone, Copy, Debug, PartialEq, Eq)]
pub struct ChallengeResponse {
    pub challenge: Challenge,
}

/// What the store keeps for an outstanding challenge: the account that asked
/// for it, and when. A record is inserted and removed, never changed.
#[derive(Clone, Copy, Debug, PartialEq, Eq)]
pub struct SessionRecord {
    pub claimed_account: AccountAddress,
    pub issued_at: Timestamp,
}

/// A proof handed in against a challenge. The identifier, the statement and
/// the proof are carried in the chain's binary encoding.
#[derive(Clone, Debug, PartialEq, Eq)]
pub struct ProofSubmission {
    pub challenge: Challenge,
    pub credential_identifier: Vec<u8>,
    pub statement: Vec<u8>,
    pub proof_value: Vec<u8>,
}

/// A credential as the chain holds it. Only a normal credential carries
/// commitments; an initial one is provisional.
#[derive(Clone, Debug, PartialEq, Eq)]
pub enum AccountCredential {
    Initial { credential_identifier: Vec<u8> },
    Normal { credential_identifier: Vec<u8>, commitments: Vec<u8> },
}

impl AccountCredential {
    /// The identifier that the chain registered the credential under.
    pub open spec fn identifier(self) -> Seq<u8> {
        match self {
            AccountCredential::Initial { credential_identifier } => credential_identifier@,
            AccountCredential::Normal { credential_identifier, .. } => credential_identifier@,
        }
    }
}

/// An account as of the last finalized block: its address and the credential
/// in its first slot, if that slot is filled.
#[derive(Clone, Debug, PartialEq, Eq)]
pub struct AccountCredentialSnapshot {
    pub account_address: AccountAddress,
    pub first_credential: Option<AccountCredential>,
}

/// How a query for an account ended.
#[derive(Clone, Debug, PartialEq, Eq)]
pub enum ChainReply {
    /// The chain could not be reached, or knew no such account.
    Unavailable,
    /// The account as the chain holds it.
    Account(AccountCredentialSnapshot),
}

/// The key that attestations are signed with: the 32 secret bytes of an
/// Ed25519 key.
#[derive(Clone, Copy, Debug, PartialEq, Eq)]
pub struct SigningKey(pub [u8; 32]);

/// The two proof formats that the statement verifier distinguishes.
#[derive(Clone, Copy, Debug, PartialEq, Eq, Structural)]
pub enum ProofVersion {
    Version1,
    Version2,
}

/// Why a request failed.
#[derive(Clone, Copy, Debug, PartialEq, Eq, Structural)]
pub enum VerificationError {
    /// The shared session state could not be acquired.
    LockingError,
    /// The challenge matches no live session.
    UnknownSession,
    /// The account has no credential in its first slot, or the submitted
    /// identifier is not that credential's.
    Credential,
    /// The credential is provisional.
    NotAllowed,
    /// The statement verifier rejected the proof.
    InvalidProofs,
    /// The chain query failed.
    NodeAccess,
}

impl VerificationError {
    /// Whether the caller can mend the request. The other failures are the
    /// gateway's own, or its backend's.
    pub open spec fn caller_attributable(self) -> bool {
        self == VerificationError::UnknownSession || self == VerificationError::Credential
            || self == VerificationError::NotAllowed || self == VerificationError::InvalidProofs
    }

    /// Tells failures that the caller can mend from those of the service.
    pub fn is_client_error(&self) -> (r: bool)
        ensures
            r == self.caller_attributable(),
    {
        match self {
            VerificationError::UnknownSession => true,
            VerificationError::Credential => true,
            VerificationError::NotAllowed => true,
            VerificationError::InvalidProofs => true,
            VerificationError::LockingError => false,
            VerificationError::NodeAccess => false,
        }
    }
}

} // verus!
