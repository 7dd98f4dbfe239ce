//! An identity-verification gateway.
//!
//! A party proves, in zero knowledge, that an on-chain account satisfies a
//! statement over its identity commitments. The gateway hands out a one-time
//! challenge bound to the account, later accepts a proof answering that
//! challenge, and returns a signed attestation when the proof holds.
//!
//! - [`store`] holds the outstanding challenges with their accounts.
//! - [`issuer`] issues challenges.
//! - [`verification`] checks a submitted proof, step by step.
//! - [`cleanup`] discards sessions that nobody consumed in time.
//! - [`laws`] states what holds of the protocol as a whole.
//! - [`hex`] is the model of the base-16 text of keys and attestations.
//! - [`outside`] gathers the calls into the cryptographic and encoding
//!   crates, each with the contract that the rest of the library relies on.
//! - [`types`] are the values that pass between the gateway and its callers.
//!
//! The library keeps no lock of its own: every function that touches the
//! store takes it by exclusive reference. A service that shares one store
//! among its requests acquires it for one such call at a time, and queries
//! the chain and checks proofs in between.

pub mod cleanup;
pub mod hex;
pub mod issuer;
pub mod laws;
pub mod outside;
pub mod store;
pub mod types;
pub mod verification;
