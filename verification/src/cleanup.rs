//! The expiry of sessions that nobody consumed.

use vstd::prelude::*;
use crate::outside::seconds_since_epoch;
use crate::store::{swept, SessionStore};
use crate::types::Timestamp;

verus! {

/// How long a challenge can be answered, in seconds.
pub const CHALLENGE_EXPIRY_SECONDS: u64 = 600;

/// How long the sweeper rests between two runs, in seconds.
pub const CLEAN_INTERVAL_SECONDS: u64 = 600;

/// One run of the sweeper at `now`: every session older than
/// `CHALLENGE_EXPIRY_SECONDS` is discarded. Returns how many were.
pub fn clean_expired(store: &mut SessionStore, now: Timestamp) -> (removed: usize)
    ensures
        final(store)@ == swept(old(store)@, now, CHALLENGE_EXPIRY_SECONDS),
        old(store)@.dom().finite(),
        final(store)@.dom().finite(),
        removed == old(store)@.len() - final(store)@.len(),
{
    store.sweep(now, CHALLENGE_EXPIRY_SECONDS)
}

/// One run of the sweeper at the time the clock shows. A clock that stands
/// before the epoch counts as the epoch, at which no session is expired.
pub fn clean_worker(store: &mut SessionStore) -> (removed: usize)
    ensures
        exists|now: Timestamp|
            final(store)@ == #[trigger] swept(old(store)@, now, CHALLENGE_EXPIRY_SECONDS),
        old(store)@.dom().finite(),
        final(store)@.dom().finite(),
        removed == old(store)@.len() - final(store)@.len(),
{
    let now: Timestamp = match seconds_since_epoch() {
        Some(seconds) => seconds,
        None => 0,
    };
    clean_expired(store, now)
}

} // verus!
