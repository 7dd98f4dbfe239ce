//! The calls that leave this library.
//!
//! Nothing in this module is proved: each function states what the rest of the
//! library takes for granted about the crate it calls.

use vstd::prelude::*;
use concordium_rust_sdk::common::from_bytes;
use concordium_rust_sdk::common::types::KeyPair;
use concordium_rust_sdk::id::constants::{ArCurve, AttributeKind};
use concordium_rust_sdk::id::id_proof_types;
use crate::hex::{base16_decoded, lower_hex, upper_hex};
use crate::types::{ProofVersion, SigningKey};

verus! {

/// Calls `concordium_rust_sdk::common::base16_encode_string` on an array of
/// 32 bytes. That function writes the bytes of the array one after another,
/// without a length, and hands them to `hex::encode`: the result is the
/// lowercase base-16 text of the array.
#[verifier::external_body]
pub(crate) fn base16_encode_string(bytes: &[u8; 32]) -> (text: String)
    ensures
        text@ == lower_hex(bytes@),
{
    concordium_rust_sdk::common::base16_encode_string(bytes)
}

/// Calls `hex::encode_upper`, which maps every byte to two characters of
/// `0123456789ABCDEF`, the high half first.
#[verifier::external_body]
pub(crate) fn encode_upper(bytes: &[u8]) -> (text: String)
    ensures
        text@ == upper_hex(bytes@),
{
    hex::encode_upper(bytes)
}

/// Calls `hex::decode_to_slice` with an array of 32 bytes to fill. That
/// function refuses text whose length in bytes is odd or not 64, and text
/// with a byte that is no digit of `0`-`9`, `a`-`f` or `A`-`F`; else every
/// pair of digits gives one byte, the first digit its high half. A character
/// outside ASCII takes several bytes, none of which is a digit.
#[verifier::external_body]
pub(crate) fn decode_to_slice(text: &str) -> (bytes: Option<[u8; 32]>)
    ensures
        match bytes {
            Some(array) => text@.len() == 64 && base16_decoded(text@) == Some(array@),
            None => text@.len() != 64 || base16_decoded(text@) is None,
        },
{
    let mut bytes = [0u8; 32];
    match hex::decode_to_slice(text, &mut bytes) {
        Ok(()) => Some(bytes),
        Err(_) => None,
    }
}

/// What `Statement::verify` answers on the decoded arguments: `None` where
/// one of the five encodings does not decode.
pub uninterp spec fn statement_verdict(
    version: ProofVersion,
    statement: Seq<u8>,
    challenge: Seq<u8>,
    context: Seq<u8>,
    credential_identifier: Seq<u8>,
    commitments: Seq<u8>,
    proof: Seq<u8>,
) -> Option<bool>;

/// Calls `concordium_rust_sdk::id::id_proof_types::Statement::verify` for the
/// chain's curve and attribute kind, with the proof format that `version`
/// names. The statement, the cryptographic context, the credential
/// identifier, the commitments and the proof are first decoded from the
/// chain's binary encoding with `concordium_rust_sdk::common::from_bytes`;
/// the challenge is passed as it is. The answer depends on the seven
/// arguments and on nothing else: that is all the contract claims.
#[verifier::external_body]
pub(crate) fn verify_statement(
    version: ProofVersion,
    statement: &[u8],
    challenge: &[u8; 32],
    context: &[u8],
    credential_identifier: &[u8],
    commitments: &[u8],
    proof: &[u8],
) -> (verdict: Option<bool>)
    ensures
        verdict == statement_verdict(
            version,
            statement@,
            challenge@,
            context@,
            credential_identifier@,
            commitments@,
            proof@,
        ),
{
    let version = match version {
        ProofVersion::Version1 => id_proof_types::ProofVersion::Version1,
        ProofVersion::Version2 => id_proof_types::ProofVersion::Version2,
    };
    let statement: id_proof_types::Statement<ArCurve, AttributeKind> =
        from_bytes(&mut &statement[..]).ok()?;
    let context = from_bytes(&mut &context[..]).ok()?;
    let credential = from_bytes(&mut &credential_identifier[..]).ok()?;
    let commitments = from_bytes(&mut &commitments[..]).ok()?;
    let proof = from_bytes(&mut &proof[..]).ok()?;
    Some(statement.verify(version, challenge, &context, &credential, &commitments, &proof))
}

/// The Ed25519 signature of `message` under the key with the secret bytes
/// `secret`.
pub uninterp spec fn ed25519_signature(secret: Seq<u8>, message: Seq<u8>) -> Seq<u8>;

/// Calls `concordium_rust_sdk::common::types::KeyPair::sign` with the key
/// pair that belongs to the secret bytes. Ed25519 derives its nonce from the
/// key and the message, so the 64 bytes that come back depend on those two
/// alone.
#[verifier::external_body]
pub(crate) fn sign(key: &SigningKey, message: &[u8; 32]) -> (signature: [u8; 64])
    ensures
        signature@ == ed25519_signature(key.0@, message@),
{
    let secret = concordium_rust_sdk::base::ed25519::SigningKey::from_bytes(&key.0);
    KeyPair::from(secret).sign(message).to_bytes()
}

/// Calls `rand::Rng::fill` on the generator of the calling thread, as
/// `rand::thread_rng` hands it out. Nothing is claimed of the bytes. The
/// generator stops the thread when the operating system cannot seed it.
#[verifier::external_body]
pub(crate) fn random_bytes() -> (bytes: [u8; 32]) {
    let mut bytes = [0u8; 32];
    rand::Rng::fill(&mut rand::thread_rng(), &mut bytes[..]);
    bytes
}

/// Calls `std::time::SystemTime::elapsed` on `std::time::UNIX_EPOCH`: the
/// whole seconds between the epoch and the system clock, or `None` where the
/// clock stands before the epoch. Nothing is claimed of the number.
#[verifier::external_body]
pub(crate) fn seconds_since_epoch() -> (seconds: Option<u64>) {
    match std::time::UNIX_EPOCH.elapsed() {
        Ok(elapsed) => Some(elapsed.as_secs()),
        Err(_) => None,
    }
}

} // verus!
