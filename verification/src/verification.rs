//! Checking a submitted proof.
//!
//! A submission goes through four steps in order: its challenge names a live
//! session; the chain answered and the account's first credential carries the
//! submitted identifier; that credential is a normal one; the statement
//! verifier accepts the proof. Only then is the session removed and the
//! account's address signed.
//!
//! The steps are separate functions, so that a caller who shares the store
//! can hold it for the first step and for the removal alone, and query the
//! chain and check the proof in between. [`check_proof_worker`] runs them in
//! one piece for a caller who owns the store.

use vstd::prelude::*;
use crate::hex::upper_hex;
use crate::issuer::session_key;
use crate::outside::{ed25519_signature, encode_upper, sign, statement_verdict, verify_statement};
use crate::store::{SessionStore, Sessions};
use crate::types::{
    AccountAddress, AccountCredential, ChainReply, Challenge, ProofSubmission, ProofVersion,
    SessionRecord, SigningKey, VerificationError,
};

verus! {

/// The session that `challenge` names, or the refusal.
pub open spec fn resolved(sessions: Sessions, challenge: Challenge) -> Result<
    SessionRecord,
    VerificationError,
> {
    if sessions.contains_key(session_key(challenge)) {
        Ok(sessions[session_key(challenge)])
    } else {
        Err(VerificationError::UnknownSession)
    }
}

/// The account that a proof for `credential_identifier` is checked against:
/// its address as the chain reports it and the commitments of its first
/// credential. Or the refusal. The identifier is compared before the kind of
/// the credential is looked at.
pub open spec fn usable_account(reply: ChainReply, credential_identifier: Seq<u8>) -> Result<
    (AccountAddress, Seq<u8>),
    VerificationError,
> {
    match reply {
        ChainReply::Unavailable => Err(VerificationError::NodeAccess),
        ChainReply::Account(snapshot) => match snapshot.first_credential {
            None => Err(VerificationError::Credential),
            Some(credential) => if credential.identifier() != credential_identifier {
                Err(VerificationError::Credential)
            } else {
                match credential {
                    AccountCredential::Initial { .. } => Err(VerificationError::NotAllowed),
                    AccountCredential::Normal { commitments, .. } => Ok(
                        (snapshot.account_address, commitments@),
                    ),
                }
            },
        },
    }
}

/// The commitments in `reply` for `credential_identifier`, or none where the
/// reply does not get that far.
pub open spec fn commitments_in(reply: ChainReply, credential_identifier: Seq<u8>) -> Seq<u8> {
    match usable_account(reply, credential_identifier) {
        Ok((_, commitments)) => commitments,
        Err(_) => Seq::empty(),
    }
}

/// What the statement verifier answers for `submission`, and what is handed
/// to it. Proofs are read in the first format.
pub open spec fn submission_verdict(
    submission: ProofSubmission,
    context: Seq<u8>,
    reply: ChainReply,
) -> Option<bool> {
    statement_verdict(
        ProofVersion::Version1,
        submission.statement@,
        submission.challenge.0@,
        context,
        submission.credential_identifier@,
        commitments_in(reply, submission.credential_identifier@),
        submission.proof_value@,
    )
}

/// The account that a submission is good for, given the chain's reply and the
/// verifier's answer.
pub open spec fn examined(
    reply: ChainReply,
    credential_identifier: Seq<u8>,
    verdict: Option<bool>,
) -> Result<AccountAddress, VerificationError> {
    match usable_account(reply, credential_identifier) {
        Err(e) => Err(e),
        Ok((address, _)) => if verdict == Some(true) {
            Ok(address)
        } else {
            Err(VerificationError::InvalidProofs)
        },
    }
}

/// What a submission comes to, over the sessions at the time, the chain's
/// reply and the verifier's answer: the account to attest, or the refusal.
pub open spec fn verification_outcome(
    sessions: Sessions,
    challenge: Challenge,
    credential_identifier: Seq<u8>,
    reply: ChainReply,
    verdict: Option<bool>,
) -> Result<AccountAddress, VerificationError> {
    match resolved(sessions, challenge) {
        Err(e) => Err(e),
        Ok(_) => examined(reply, credential_identifier, verdict),
    }
}

/// The sessions after a submission: the session is consumed by a success and
/// by nothing else.
pub open spec fn sessions_after(
    sessions: Sessions,
    challenge: Challenge,
    credential_identifier: Seq<u8>,
    reply: ChainReply,
    verdict: Option<bool>,
) -> Sessions {
    if verification_outcome(sessions, challenge, credential_identifier, reply, verdict) is Ok {
        sessions.remove(session_key(challenge))
    } else {
        sessions
    }
}

/// The attestation for a signature: its uppercase base-16 text.
pub open spec fn attestation(signature: Seq<u8>) -> Seq<char> {
    upper_hex(signature)
}

/// Whether two byte strings are the same, byte for byte.
pub fn same_bytes(a: &Vec<u8>, b: &Vec<u8>) -> (same: bool)
    ensures
        same == (a@ == b@),
{
    if a.len() != b.len() {
        return false;
    }
    let mut i: usize = 0;
    while i < a.len()
        invariant
            a@.len() == b@.len(),
            i <= a@.len(),
            forall|j: int| 0 <= j < i ==> a@[j] == b@[j],
        decreases a@.len() - i,
    {
        if a[i] != b[i] {
            return false;
        }
        i = i + 1;
    }
    assert(a@ =~= b@);
    true
}

/// First step: the session that the challenge names. The record is a copy,
/// so the store can be released before the record is used.
pub fn resolve_session(store: &SessionStore, challenge: &Challenge) -> (session: Result<
    SessionRecord,
    VerificationError,
>)
    ensures
        session == resolved(store@, *challenge),
{
    let key = challenge.to_hex();
    match store.lookup(&key) {
        Some(record) => Ok(record),
        None => Err(VerificationError::UnknownSession),
    }
}

/// Second and third step: the chain answered, and the credential that it
/// holds for the account carries the submitted identifier and is a normal
/// one. Returns the account's address and the credential's commitments.
pub fn check_credential<'a>(reply: &'a ChainReply, credential_identifier: &Vec<u8>) -> (checked:
    Result<(AccountAddress, &'a Vec<u8>), VerificationError>)
    ensures
        match checked {
            Ok((address, commitments)) => usable_account(*reply, credential_identifier@) == Ok::<
                (AccountAddress, Seq<u8>),
                VerificationError,
            >((address, commitments@)),
            Err(e) => usable_account(*reply, credential_identifier@) == Err::<
                (AccountAddress, Seq<u8>),
                VerificationError,
            >(e),
        },
{
    match reply {
        ChainReply::Unavailable => Err(VerificationError::NodeAccess),
        ChainReply::Account(snapshot) => match &snapshot.first_credential {
            None => Err(VerificationError::Credential),
            Some(AccountCredential::Initial { credential_identifier: on_chain }) => {
                if same_bytes(on_chain, credential_identifier) {
                    Err(VerificationError::NotAllowed)
                } else {
                    Err(VerificationError::Credential)
                }
            },
            Some(AccountCredential::Normal { credential_identifier: on_chain, commitments }) => {
                if same_bytes(on_chain, credential_identifier) {
                    Ok((snapshot.account_address, commitments))
                } else {
                    Err(VerificationError::Credential)
                }
            },
        },
    }
}

/// Fourth step, given the verifier's answer: only a plain yes passes. An
/// answer of no, and arguments that the verifier could not decode, both
/// count as an invalid proof.
pub fn judge(verdict: Option<bool>) -> (judged: Result<(), VerificationError>)
    ensures
        judged == if verdict == Some(true) {
            Ok::<(), VerificationError>(())
        } else {
            Err::<(), VerificationError>(VerificationError::InvalidProofs)
        },
{
    match verdict {
        Some(true) => Ok(()),
        _ => Err(VerificationError::InvalidProofs),
    }
}

/// Steps two to four on a submission and the chain's reply for the account
/// that its session claims. Touches no session: the store can be free while
/// this runs. Returns the address to attest.
pub fn examine_submission(submission: &ProofSubmission, context: &Vec<u8>, reply: &ChainReply) -> (r:
    Result<AccountAddress, VerificationError>)
    ensures
        r == examined(
            *reply,
            submission.credential_identifier@,
            submission_verdict(*submission, context@, *reply),
        ),
{
    let (address, commitments) = match check_credential(reply, &submission.credential_identifier) {
        Ok(usable) => usable,
        Err(e) => {
            return Err(e);
        },
    };
    let verdict = verify_statement(
        ProofVersion::Version1,
        submission.statement.as_slice(),
        &submission.challenge.0,
        context.as_slice(),
        submission.credential_identifier.as_slice(),
        commitments.as_slice(),
        submission.proof_value.as_slice(),
    );
    match judge(verdict) {
        Ok(()) => Ok(address),
        Err(e) => Err(e),
    }
}

/// The attestation that belongs to a signature.
pub fn render_attestation(signature: &[u8; 64]) -> (text: String)
    ensures
        text@ == attestation(signature@),
        text@.len() == 128,
{
    encode_upper(signature.as_slice())
}

/// Signs the bytes of `account` and returns the attestation.
pub fn attest(key: &SigningKey, account: &AccountAddress) -> (text: String)
    ensures
        text@ == attestation(ed25519_signature(key.0@, account.0@)),
        text@.len() == 128,
{
    let signature = sign(key, &account.0);
    render_attestation(&signature)
}

/// What follows the verifier's answer: on a yes the session of `challenge`
/// is removed and `account` attested; on anything else the session stays,
/// and the proof can be mended and handed in again until the session
/// expires.
pub fn finish(
    store: &mut SessionStore,
    challenge: &Challenge,
    verdict: Option<bool>,
    key: &SigningKey,
    account: &AccountAddress,
) -> (r: Result<String, VerificationError>)
    ensures
        verdict == Some(true) ==> r is Ok && r->Ok_0@ == attestation(
            ed25519_signature(key.0@, account.0@),
        ) && final(store)@ == old(store)@.remove(session_key(*challenge)),
        verdict != Some(true) ==> r == Err::<String, VerificationError>(
            VerificationError::InvalidProofs,
        ) && final(store)@ == old(store)@,
{
    match judge(verdict) {
        Ok(()) => {
            let key_text = challenge.to_hex();
            store.remove(&key_text);
            Ok(attest(key, account))
        },
        Err(e) => Err(e),
    }
}

/// The four steps in one piece, for a caller who owns the store. `reply` is
/// the chain's answer for the account that the session claims; it is not
/// looked at where the challenge names no session.
pub fn check_proof_worker(
    store: &mut SessionStore,
    submission: &ProofSubmission,
    context: &Vec<u8>,
    key: &SigningKey,
    reply: &ChainReply,
) -> (r: Result<String, VerificationError>)
    ensures
        match r {
            Ok(text) => {
                let outcome = verification_outcome(
                    old(store)@,
                    submission.challenge,
                    submission.credential_identifier@,
                    *reply,
                    submission_verdict(*submission, context@, *reply),
                );
                outcome is Ok && text@ == attestation(
                    ed25519_signature(key.0@, outcome->Ok_0.0@),
                )
            },
            Err(e) => verification_outcome(
                old(store)@,
                submission.challenge,
                submission.credential_identifier@,
                *reply,
                submission_verdict(*submission, context@, *reply),
            ) == Err::<AccountAddress, VerificationError>(e),
        },
        final(store)@ == sessions_after(
            old(store)@,
            submission.challenge,
            submission.credential_identifier@,
            *reply,
            submission_verdict(*submission, context@, *reply),
        ),
{
    match resolve_session(store, &submission.challenge) {
        Ok(_) => {},
        Err(e) => {
            return Err(e);
        },
    }
    let (address, commitments) = match check_credential(reply, &submission.credential_identifier) {
        Ok(usable) => usable,
        Err(e) => {
            return Err(e);
        },
    };
    let verdict = verify_statement(
        ProofVersion::Version1,
        submission.statement.as_slice(),
        &submission.challenge.0,
        context.as_slice(),
        submission.credential_identifier.as_slice(),
        commitments.as_slice(),
        submission.proof_value.as_slice(),
    );
    finish(store, &submission.challenge, verdict, key, &address)
}

} // verus!
