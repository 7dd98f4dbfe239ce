//! Issuing challenges.

use vstd::prelude::*;
use crate::hex::{base16_decoded, lower_hex};
use crate::outside::{base16_encode_string, decode_to_slice, random_bytes, seconds_since_epoch};
use crate::store::{SessionStore, Sessions};
use crate::types::{AccountAddress, Challenge, ChallengeResponse, SessionRecord, Timestamp};

verus! {

/// The key that the session of `challenge` is stored under: the challenge as
/// 64 characters of lowercase base 16.
pub open spec fn session_key(challenge: Challenge) -> Seq<char> {
    lower_hex(challenge.0@)
}

/// The sessions once `challenge` has been issued to `account` at `now`. An
/// earlier session of the same challenge is overwritten: with 32 random bytes
/// per challenge a collision is not expected, and none is looked for.
pub open spec fn issued(
    sessions: Sessions,
    challenge: Challenge,
    account: AccountAddress,
    now: Timestamp,
) -> Sessions {
    sessions.insert(
        session_key(challenge),
        SessionRecord { claimed_account: account, issued_at: now },
    )
}

/// The bytes of the challenge that `text` names: 64 base-16 digits of either
/// case. Other text names no challenge.
pub open spec fn challenge_bytes(text: Seq<char>) -> Option<Seq<u8>> {
    if text.len() == 64 {
        base16_decoded(text)
    } else {
        None
    }
}

impl Challenge {
    /// Reads a challenge as a caller hands it in.
    pub fn from_hex(text: &str) -> (challenge: Option<Challenge>)
        ensures
            match challenge {
                Some(c) => challenge_bytes(text@) == Some(c.0@),
                None => challenge_bytes(text@) is None,
            },
    {
        match decode_to_slice(text) {
            Some(bytes) => Some(Challenge(bytes)),
            None => None,
        }
    }

    /// The challenge as callers see it and as the store keys it.
    pub fn to_hex(&self) -> (text: String)
        ensures
            text@ == session_key(*self),
            text@.len() == 64,
    {
        base16_encode_string(&self.0)
    }
}

/// Binds `challenge` to `address` from `now` on, and answers with the
/// challenge.
pub fn issue_challenge(
    store: &mut SessionStore,
    address: AccountAddress,
    challenge: Challenge,
    now: Timestamp,
) -> (response: ChallengeResponse)
    ensures
        response.challenge == challenge,
        final(store)@ == issued(old(store)@, challenge, address, now),
{
    let key = challenge.to_hex();
    store.insert(key, SessionRecord { claimed_account: address, issued_at: now });
    ChallengeResponse { challenge }
}

/// Draws a fresh challenge, reads the clock, and issues the challenge to
/// `address`. A clock that stands before the epoch counts as the epoch.
pub fn get_challenge_worker(store: &mut SessionStore, address: AccountAddress) -> (response:
    ChallengeResponse)
    ensures
        exists|now: Timestamp|
            final(store)@ == #[trigger] issued(old(store)@, response.challenge, address, now),
{
    let challenge = Challenge(random_bytes());
    let now: Timestamp = match seconds_since_epoch() {
        Some(seconds) => seconds,
        None => 0,
    };
    issue_challenge(store, address, challenge, now)
}

} // verus!
