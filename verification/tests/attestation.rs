use concordium_rust_sdk::base::curve_arithmetic::Curve;
use concordium_rust_sdk::base::ed25519;
use concordium_rust_sdk::base::pedersen_commitment::{Randomness, Value};
use concordium_rust_sdk::common::to_bytes;
use concordium_rust_sdk::id::constants::{ArCurve, AttributeKind};
use concordium_rust_sdk::id::id_proof_types::{
    AtomicStatement, ProofVersion, RevealAttributeStatement, Statement, StatementWithContext,
};
use concordium_rust_sdk::id::types::{
    Attribute, AttributeTag, CredentialDeploymentCommitments, GlobalContext,
    HasAttributeRandomness, ImpossibleError,
};
use id_gateway::issuer::{get_challenge_worker, issue_challenge};
use id_gateway::store::SessionStore;
use id_gateway::types::{
    AccountAddress, AccountCredential, AccountCredentialSnapshot, ChainReply, Challenge,
    ProofSubmission, SigningKey, VerificationError,
};
use id_gateway::verification::{
    attest, check_proof_worker, examine_submission, finish, resolve_session,
};
use std::collections::BTreeMap;

const ACC1: AccountAddress = AccountAddress([0xa1; 32]);
const KEY: SigningKey = SigningKey([0x42; 32]);
const NATIONALITY: AttributeTag = AttributeTag(5);

struct Opening(Randomness<ArCurve>);

impl HasAttributeRandomness<ArCurve> for Opening {
    type ErrorType = ImpossibleError;

    fn get_attribute_commitment_randomness(
        &self,
        _attribute_tag: &AttributeTag,
    ) -> Result<Randomness<ArCurve>, ImpossibleError> {
        Ok(self.0.clone())
    }
}

/// An account with one committed attribute, and what its holder needs to
/// prove statements about it.
struct Holder {
    global: GlobalContext<ArCurve>,
    credential: ArCurve,
    commitments: CredentialDeploymentCommitments<ArCurve>,
    values: BTreeMap<AttributeTag, AttributeKind>,
    opening: Opening,
}

fn holder() -> Holder {
    let mut rng = rand::thread_rng();
    let global = GlobalContext::<ArCurve>::generate_size("gateway tests".to_string(), 4);
    let value = AttributeKind::try_new("DK".to_string()).expect("a short attribute");
    let committed = Value::<ArCurve>::new(value.to_field_element());
    let (commitment, randomness) = global.on_chain_commitment_key.commit(&committed, &mut rng);
    let mut cmm_attributes = BTreeMap::new();
    cmm_attributes.insert(NATIONALITY, commitment.clone());
    let commitments = CredentialDeploymentCommitments {
        cmm_prf: commitment.clone(),
        cmm_cred_counter: commitment.clone(),
        cmm_max_accounts: commitment,
        cmm_attributes,
        cmm_id_cred_sec_sharing_coeff: Vec::new(),
    };
    let mut values = BTreeMap::new();
    values.insert(NATIONALITY, value);
    Holder {
        global,
        credential: ArCurve::generate(&mut rng),
        commitments,
        values,
        opening: Opening(randomness),
    }
}

fn another_holder() -> Holder {
    holder()
}

fn reveal_nationality() -> Statement<ArCurve, AttributeKind> {
    Statement {
        statements: vec![AtomicStatement::RevealAttribute {
            statement: RevealAttributeStatement { attribute_tag: NATIONALITY },
        }],
    }
}

impl Holder {
    fn context(&self) -> Vec<u8> {
        to_bytes(&self.global)
    }

    fn on_chain(&self) -> ChainReply {
        ChainReply::Account(AccountCredentialSnapshot {
            account_address: ACC1,
            first_credential: Some(AccountCredential::Normal {
                credential_identifier: to_bytes(&self.credential),
                commitments: to_bytes(&self.commitments),
            }),
        })
    }

    fn prove(&self, challenge: &Challenge) -> ProofSubmission {
        let statement = reveal_nationality();
        let proof = StatementWithContext { credential: self.credential, statement: statement.clone() }
            .prove(ProofVersion::Version1, &self.global, &challenge.0, &self.values, &self.opening)
            .expect("a proof of a true statement");
        ProofSubmission {
            challenge: *challenge,
            credential_identifier: to_bytes(&self.credential),
            statement: to_bytes(&statement),
            proof_value: to_bytes(&proof),
        }
    }
}

fn is_upper_hex(text: &str) -> bool {
    !text.is_empty() && text.chars().all(|c| matches!(c, '0'..='9' | 'A'..='F'))
}

fn signature_text(key: &SigningKey, message: &[u8; 32]) -> String {
    let pair = concordium_rust_sdk::common::types::KeyPair::from(ed25519::SigningKey::from_bytes(&key.0));
    hex::encode_upper(pair.sign(message).to_bytes())
}

#[test]
fn attest_signs_the_address_bytes_with_the_key() {
    let text = attest(&KEY, &ACC1);
    assert_eq!(text.len(), 128);
    assert!(is_upper_hex(&text));
    let mut signature = [0u8; 64];
    hex::decode_to_slice(&text, &mut signature).expect("base 16");
    let public = ed25519::SigningKey::from_bytes(&KEY.0).verifying_key();
    assert!(public
        .verify_strict(&ACC1.0, &ed25519::Signature::from_bytes(&signature))
        .is_ok());
    assert!(public
        .verify_strict(&[0xa2; 32], &ed25519::Signature::from_bytes(&signature))
        .is_err());
}

#[test]
fn attest_gives_the_same_attestation_each_time() {
    assert_eq!(attest(&KEY, &ACC1), attest(&KEY, &ACC1));
    assert_eq!(attest(&KEY, &ACC1), signature_text(&KEY, &ACC1.0));
    assert_ne!(attest(&KEY, &ACC1), attest(&KEY, &AccountAddress([0xa2; 32])));
    assert_ne!(attest(&KEY, &ACC1), attest(&SigningKey([0x43; 32]), &ACC1));
}

#[test]
fn a_valid_proof_is_attested_once() {
    let holder = holder();
    let mut store = SessionStore::new();
    let challenge = get_challenge_worker(&mut store, ACC1).challenge;
    assert_eq!(challenge.to_hex().len(), 64);
    let submission = holder.prove(&challenge);
    let first = check_proof_worker(&mut store, &submission, &holder.context(), &KEY, &holder.on_chain());
    let text = first.expect("an attestation");
    assert!(is_upper_hex(&text));
    assert_eq!(text, signature_text(&KEY, &ACC1.0));
    assert!(store.is_empty());
    let second = check_proof_worker(&mut store, &submission, &holder.context(), &KEY, &holder.on_chain());
    assert_eq!(second, Err(VerificationError::UnknownSession));
}

#[test]
fn a_wrong_proof_is_rejected_and_the_session_can_be_used_again() {
    let holder = holder();
    let mut store = SessionStore::new();
    let challenge = get_challenge_worker(&mut store, ACC1).challenge;
    let mut other = challenge.0;
    other[0] ^= 1;
    let mut wrong = holder.prove(&Challenge(other));
    wrong.challenge = challenge;
    assert_eq!(
        check_proof_worker(&mut store, &wrong, &holder.context(), &KEY, &holder.on_chain()),
        Err(VerificationError::InvalidProofs)
    );
    assert_eq!(store.len(), 1);
    assert_eq!(resolve_session(&store, &challenge).map(|record| record.claimed_account), Ok(ACC1));
    let right = holder.prove(&challenge);
    let text = check_proof_worker(&mut store, &right, &holder.context(), &KEY, &holder.on_chain())
        .expect("an attestation");
    assert_eq!(text, signature_text(&KEY, &ACC1.0));
    assert!(store.is_empty());
}

#[test]
fn a_proof_against_other_commitments_is_rejected() {
    let holder = holder();
    let stranger = another_holder();
    let mut store = SessionStore::new();
    let challenge = Challenge([7; 32]);
    issue_challenge(&mut store, ACC1, challenge, 1000);
    let mut submission = stranger.prove(&challenge);
    submission.credential_identifier = to_bytes(&holder.credential);
    assert_eq!(
        check_proof_worker(&mut store, &submission, &holder.context(), &KEY, &holder.on_chain()),
        Err(VerificationError::InvalidProofs)
    );
    assert_eq!(store.len(), 1);
}

#[test]
fn a_truncated_proof_is_rejected() {
    let holder = holder();
    let challenge = Challenge([7; 32]);
    let mut submission = holder.prove(&challenge);
    assert_eq!(
        examine_submission(&submission, &holder.context(), &holder.on_chain()),
        Ok(ACC1)
    );
    submission.proof_value.pop();
    assert_eq!(
        examine_submission(&submission, &holder.context(), &holder.on_chain()),
        Err(VerificationError::InvalidProofs)
    );
}

#[test]
fn a_valid_proof_with_another_identifier_is_a_credential_error() {
    let holder = holder();
    let mut store = SessionStore::new();
    let challenge = Challenge([7; 32]);
    issue_challenge(&mut store, ACC1, challenge, 1000);
    let mut submission = holder.prove(&challenge);
    submission.credential_identifier = to_bytes(&ArCurve::generate(&mut rand::thread_rng()));
    assert_eq!(
        check_proof_worker(&mut store, &submission, &holder.context(), &KEY, &holder.on_chain()),
        Err(VerificationError::Credential)
    );
    assert_eq!(store.len(), 1);
}

#[test]
fn a_valid_proof_for_a_provisional_credential_is_not_allowed() {
    let holder = holder();
    let mut store = SessionStore::new();
    let challenge = Challenge([7; 32]);
    issue_challenge(&mut store, ACC1, challenge, 1000);
    let submission = holder.prove(&challenge);
    let provisional = ChainReply::Account(AccountCredentialSnapshot {
        account_address: ACC1,
        first_credential: Some(AccountCredential::Initial {
            credential_identifier: to_bytes(&holder.credential),
        }),
    });
    assert_eq!(
        check_proof_worker(&mut store, &submission, &holder.context(), &KEY, &provisional),
        Err(VerificationError::NotAllowed)
    );
    assert_eq!(store.len(), 1);
}

#[test]
fn a_valid_proof_after_the_sweep_is_an_unknown_session() {
    let holder = holder();
    let mut store = SessionStore::new();
    let challenge = Challenge([7; 32]);
    issue_challenge(&mut store, ACC1, challenge, 1000);
    let submission = holder.prove(&challenge);
    assert_eq!(store.sweep(1601, 600), 1);
    assert_eq!(
        check_proof_worker(&mut store, &submission, &holder.context(), &KEY, &holder.on_chain()),
        Err(VerificationError::UnknownSession)
    );
}

#[test]
fn the_steps_one_by_one_give_what_the_worker_gives() {
    let holder = holder();
    let mut store = SessionStore::new();
    let challenge = Challenge([7; 32]);
    issue_challenge(&mut store, ACC1, challenge, 1000);
    let submission = holder.prove(&challenge);
    let session = resolve_session(&store, &submission.challenge).expect("a live session");
    assert_eq!(session.claimed_account, ACC1);
    let account = examine_submission(&submission, &holder.context(), &holder.on_chain())
        .expect("a valid proof");
    assert_eq!(store.len(), 1);
    let text = finish(&mut store, &challenge, Some(true), &KEY, &account).expect("an attestation");
    assert!(store.is_empty());

    let mut again = SessionStore::new();
    issue_challenge(&mut again, ACC1, challenge, 1000);
    assert_eq!(
        check_proof_worker(&mut again, &submission, &holder.context(), &KEY, &holder.on_chain()),
        Ok(text)
    );
}

#[test]
fn the_address_that_the_chain_reports_is_the_one_attested() {
    let holder = holder();
    let mut store = SessionStore::new();
    let challenge = Challenge([7; 32]);
    issue_challenge(&mut store, AccountAddress([0xa9; 32]), challenge, 1000);
    let submission = holder.prove(&challenge);
    let text = check_proof_worker(&mut store, &submission, &holder.context(), &KEY, &holder.on_chain())
        .expect("an attestation");
    assert_eq!(text, signature_text(&KEY, &ACC1.0));
}
