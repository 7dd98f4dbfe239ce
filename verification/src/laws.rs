//! What holds of the protocol as a whole, proved from the definitions that the
//! contracts of the executable functions are stated in.

use vstd::prelude::*;
use crate::hex::{
    lemma_alphabets, lemma_base16_shape, lemma_decode_encode, lemma_lower_hex_injective,
    lower_digits, upper_digits,
};
use crate::issuer::{challenge_bytes, issued, session_key};
use crate::store::{is_expired, swept, Sessions};
use crate::types::{AccountAddress, ChainReply, Challenge, Timestamp, VerificationError};
use crate::verification::{attestation, sessions_after, usable_account, verification_outcome};

verus! {

/// A proof that the verifier does not accept, handed in right after the
/// challenge was issued and for a credential that passes the earlier steps,
/// is answered with `InvalidProofs` and leaves every session as it was; a
/// proof that the verifier accepts, handed in afterwards for the same
/// challenge, succeeds.
pub proof fn law_rejected_proof_keeps_session(
    sessions: Sessions,
    challenge: Challenge,
    account: AccountAddress,
    now: Timestamp,
    credential_identifier: Seq<u8>,
    reply: ChainReply,
    rejected: Option<bool>,
)
    requires
        usable_account(reply, credential_identifier) is Ok,
        rejected != Some(true),
    ensures
        ({
            let live = issued(sessions, challenge, account, now);
            let later = sessions_after(live, challenge, credential_identifier, reply, rejected);
            &&& verification_outcome(live, challenge, credential_identifier, reply, rejected)
                == Err::<AccountAddress, VerificationError>(VerificationError::InvalidProofs)
            &&& later == live
            &&& verification_outcome(later, challenge, credential_identifier, reply, Some(true))
                is Ok
        }),
{
}

/// A challenge that names no session is answered with `UnknownSession`,
/// whatever else is submitted, and nothing changes.
pub proof fn law_unknown_session(
    sessions: Sessions,
    challenge: Challenge,
    credential_identifier: Seq<u8>,
    reply: ChainReply,
    verdict: Option<bool>,
)
    requires
        !sessions.contains_key(session_key(challenge)),
    ensures
        verification_outcome(sessions, challenge, credential_identifier, reply, verdict) == Err::<
            AccountAddress,
            VerificationError,
        >(VerificationError::UnknownSession),
        sessions_after(sessions, challenge, credential_identifier, reply, verdict) == sessions,
{
}

/// A challenge is good for one success: after it, every submission for the
/// same challenge is answered with `UnknownSession`.
pub proof fn law_single_use(
    sessions: Sessions,
    challenge: Challenge,
    credential_identifier: Seq<u8>,
    reply: ChainReply,
    verdict: Option<bool>,
    next_identifier: Seq<u8>,
    next_reply: ChainReply,
    next_verdict: Option<bool>,
)
    requires
        verification_outcome(sessions, challenge, credential_identifier, reply, verdict) is Ok,
    ensures
        verification_outcome(
            sessions_after(sessions, challenge, credential_identifier, reply, verdict),
            challenge,
            next_identifier,
            next_reply,
            next_verdict,
        ) == Err::<AccountAddress, VerificationError>(VerificationError::UnknownSession),
{
}

/// A submission that fails leaves every session as it was.
pub proof fn law_failure_changes_nothing(
    sessions: Sessions,
    challenge: Challenge,
    credential_identifier: Seq<u8>,
    reply: ChainReply,
    verdict: Option<bool>,
)
    requires
        verification_outcome(sessions, challenge, credential_identifier, reply, verdict) is Err,
    ensures
        sessions_after(sessions, challenge, credential_identifier, reply, verdict) == sessions,
{
}

/// Where two submissions for one challenge both pass the first step before
/// either is finished, the session is removed twice: the second removal
/// finds nothing, and no other session is touched by either.
pub proof fn law_second_removal_finds_nothing(
    sessions: Sessions,
    challenge: Challenge,
    other: Seq<char>,
)
    ensures
        sessions.remove(session_key(challenge)).remove(session_key(challenge)) == sessions.remove(
            session_key(challenge),
        ),
        other != session_key(challenge) ==> sessions.remove(session_key(challenge)).contains_key(
            other,
        ) == sessions.contains_key(other),
{
    assert(sessions.remove(session_key(challenge)).remove(session_key(challenge))
        =~= sessions.remove(session_key(challenge)));
}

/// Only issuing adds a session: whatever session is there after a
/// submission or after a sweep was there before, with the same record.
pub proof fn law_sessions_only_shrink(
    sessions: Sessions,
    key: Seq<char>,
    challenge: Challenge,
    credential_identifier: Seq<u8>,
    reply: ChainReply,
    verdict: Option<bool>,
    now: Timestamp,
    expiry: u64,
)
    ensures
        sessions_after(sessions, challenge, credential_identifier, reply, verdict).contains_key(key)
            ==> sessions.contains_key(key) && sessions_after(
            sessions,
            challenge,
            credential_identifier,
            reply,
            verdict,
        )[key] == sessions[key],
        swept(sessions, now, expiry).contains_key(key) ==> sessions.contains_key(key) && swept(
            sessions,
            now,
            expiry,
        )[key] == sessions[key],
{
}

/// A session older than the expiry is gone after a sweep, consumed or not,
/// and a submission for its challenge is then answered with
/// `UnknownSession`.
pub proof fn law_swept_session_is_gone(
    sessions: Sessions,
    challenge: Challenge,
    now: Timestamp,
    expiry: u64,
    credential_identifier: Seq<u8>,
    reply: ChainReply,
    verdict: Option<bool>,
)
    requires
        sessions.contains_key(session_key(challenge)),
        is_expired(sessions[session_key(challenge)].issued_at, now, expiry),
    ensures
        !swept(sessions, now, expiry).contains_key(session_key(challenge)),
        verification_outcome(
            swept(sessions, now, expiry),
            challenge,
            credential_identifier,
            reply,
            verdict,
        ) == Err::<AccountAddress, VerificationError>(VerificationError::UnknownSession),
{
}

/// A sweep drops nothing but expired sessions: a session within the expiry
/// is there afterwards, with the record it had.
pub proof fn law_sweep_keeps_live_sessions(
    sessions: Sessions,
    key: Seq<char>,
    now: Timestamp,
    expiry: u64,
)
    requires
        sessions.contains_key(key),
        !is_expired(sessions[key].issued_at, now, expiry),
    ensures
        swept(sessions, now, expiry).contains_key(key),
        swept(sessions, now, expiry)[key] == sessions[key],
{
}

/// A session issued at `now` is not expired at `now`, however short the
/// expiry.
pub proof fn law_fresh_session_survives(
    sessions: Sessions,
    challenge: Challenge,
    account: AccountAddress,
    now: Timestamp,
    expiry: u64,
)
    ensures
        swept(issued(sessions, challenge, account, now), now, expiry).contains_key(
            session_key(challenge),
        ),
{
}

/// Where the submitted identifier is not the one of the account's first
/// credential, a submission for a live session is answered with
/// `Credential`, whatever the verifier would say of the proof.
pub proof fn law_identifier_mismatch(
    sessions: Sessions,
    challenge: Challenge,
    credential_identifier: Seq<u8>,
    reply: ChainReply,
    verdict: Option<bool>,
)
    requires
        sessions.contains_key(session_key(challenge)),
        reply matches ChainReply::Account(snapshot) && snapshot.first_credential matches Some(
            credential,
        ) && credential.identifier() != credential_identifier,
    ensures
        verification_outcome(sessions, challenge, credential_identifier, reply, verdict) == Err::<
            AccountAddress,
            VerificationError,
        >(VerificationError::Credential),
{
}

/// Where the account's first credential is a provisional one and carries the
/// submitted identifier, a submission for a live session is answered with
/// `NotAllowed`, whatever the verifier would say of the proof.
pub proof fn law_provisional_credential(
    sessions: Sessions,
    challenge: Challenge,
    credential_identifier: Seq<u8>,
    reply: ChainReply,
    verdict: Option<bool>,
)
    requires
        sessions.contains_key(session_key(challenge)),
        reply matches ChainReply::Account(snapshot) && snapshot.first_credential matches Some(
            credential,
        ) && credential is Initial && credential.identifier() == credential_identifier,
    ensures
        verification_outcome(sessions, challenge, credential_identifier, reply, verdict) == Err::<
            AccountAddress,
            VerificationError,
        >(VerificationError::NotAllowed),
{
}

/// Two challenges share a session key only if they are the same challenge.
pub proof fn law_session_keys_differ(a: Challenge, b: Challenge)
    requires
        session_key(a) == session_key(b),
    ensures
        a == b,
{
    lemma_lower_hex_injective(a.0@, b.0@);
    assert(a.0 =~= b.0);
}

/// Issuing one challenge leaves the session of every other challenge as it
/// was.
pub proof fn law_issue_leaves_other_sessions(
    sessions: Sessions,
    challenge: Challenge,
    account: AccountAddress,
    now: Timestamp,
    other: Challenge,
)
    requires
        other != challenge,
    ensures
        issued(sessions, challenge, account, now).contains_key(session_key(other))
            == sessions.contains_key(session_key(other)),
        sessions.contains_key(session_key(other)) ==> issued(sessions, challenge, account, now)[
            session_key(other)
        ] == sessions[session_key(other)],
{
    if session_key(other) == session_key(challenge) {
        law_session_keys_differ(other, challenge);
    }
}

/// The text of a challenge is 64 lowercase base-16 digits, and read back it
/// names the challenge it was made from.
pub proof fn law_challenge_text(challenge: Challenge)
    ensures
        session_key(challenge).len() == 64,
        forall|i: int|
            0 <= i < 64 ==> lower_digits().contains(#[trigger] session_key(challenge)[i]),
        challenge_bytes(session_key(challenge)) == Some(challenge.0@),
{
    lemma_alphabets();
    lemma_base16_shape(challenge.0@, lower_digits());
    lemma_decode_encode(challenge.0@, false);
}

/// An attestation is made of uppercase base-16 digits, two for each byte of
/// the signature: it is empty only where the signature is.
pub proof fn law_attestation_text(signature: Seq<u8>)
    ensures
        attestation(signature).len() == 2 * signature.len(),
        forall|i: int|
            0 <= i < attestation(signature).len() ==> upper_digits().contains(
                #[trigger] attestation(signature)[i],
            ),
{
    lemma_alphabets();
    lemma_base16_shape(signature, upper_digits());
}

} // verus!
