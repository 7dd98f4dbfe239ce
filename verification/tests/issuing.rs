use id_gateway::cleanup::{clean_expired, clean_worker, CHALLENGE_EXPIRY_SECONDS, CLEAN_INTERVAL_SECONDS};
use id_gateway::issuer::{get_challenge_worker, issue_challenge};
use id_gateway::store::SessionStore;
use id_gateway::types::{AccountAddress, Challenge, ChallengeResponse, SessionRecord};

fn is_lower_hex(text: &str) -> bool {
    text.chars().all(|c| matches!(c, '0'..='9' | 'a'..='f'))
}

#[test]
fn challenge_text_is_lowercase_base16() {
    let mut bytes = [0u8; 32];
    bytes[0] = 0x00;
    bytes[1] = 0x0f;
    bytes[2] = 0xf0;
    bytes[3] = 0xab;
    bytes[31] = 0xff;
    let text = Challenge(bytes).to_hex();
    assert_eq!(
        text,
        "000ff0ab000000000000000000000000000000000000000000000000000000ff"
    );
}

#[test]
fn challenge_text_has_two_digits_per_byte_in_order() {
    let mut bytes = [0u8; 32];
    let mut i: usize = 0;
    while i < 32 {
        bytes[i] = (i as u8) * 8 + 1;
        i += 1;
    }
    let text = Challenge(bytes).to_hex();
    assert_eq!(
        text,
        "0109111921293139414951596169717981899199a1a9b1b9c1c9d1d9e1e9f1f9"
    );
    assert_eq!(text.len(), 64);
}

#[test]
fn issue_challenge_records_the_session_under_the_text() {
    let mut store = SessionStore::new();
    let challenge = Challenge([0x5a; 32]);
    let account = AccountAddress([7; 32]);
    let response = issue_challenge(&mut store, account, challenge, 1234);
    assert_eq!(response, ChallengeResponse { challenge });
    assert_eq!(store.len(), 1);
    assert_eq!(
        store.lookup(&"5a".repeat(32)),
        Some(SessionRecord { claimed_account: account, issued_at: 1234 })
    );
}

#[test]
fn issuing_the_same_challenge_again_overwrites_the_session() {
    let mut store = SessionStore::new();
    let challenge = Challenge([1; 32]);
    issue_challenge(&mut store, AccountAddress([1; 32]), challenge, 10);
    issue_challenge(&mut store, AccountAddress([2; 32]), challenge, 20);
    assert_eq!(store.len(), 1);
    assert_eq!(
        store.lookup(&challenge.to_hex()),
        Some(SessionRecord { claimed_account: AccountAddress([2; 32]), issued_at: 20 })
    );
}

#[test]
fn issuing_another_challenge_leaves_the_first_session() {
    let mut store = SessionStore::new();
    let mut other = [1u8; 32];
    other[31] = 2;
    issue_challenge(&mut store, AccountAddress([1; 32]), Challenge([1; 32]), 10);
    issue_challenge(&mut store, AccountAddress([2; 32]), Challenge(other), 20);
    assert_eq!(store.len(), 2);
    assert_eq!(
        store.lookup(&Challenge([1; 32]).to_hex()),
        Some(SessionRecord { claimed_account: AccountAddress([1; 32]), issued_at: 10 })
    );
}

#[test]
fn get_challenge_worker_binds_a_fresh_challenge_to_the_account() {
    let mut store = SessionStore::new();
    let account = AccountAddress([9; 32]);
    let response = get_challenge_worker(&mut store, account);
    let text = response.challenge.to_hex();
    assert_eq!(text.len(), 64);
    assert!(is_lower_hex(&text));
    assert_eq!(store.len(), 1);
    let record = store.lookup(&text).expect("the session of the challenge");
    assert_eq!(record.claimed_account, account);
    assert!(record.issued_at > 1_600_000_000);
}

#[test]
fn get_challenge_worker_draws_a_new_challenge_each_time() {
    let mut store = SessionStore::new();
    let account = AccountAddress([9; 32]);
    let first = get_challenge_worker(&mut store, account);
    let second = get_challenge_worker(&mut store, account);
    assert_ne!(first.challenge, second.challenge);
    assert_ne!(first.challenge, Challenge([0; 32]));
    assert_eq!(store.len(), 2);
}

#[test]
fn expiry_and_interval_are_ten_minutes() {
    assert_eq!(CHALLENGE_EXPIRY_SECONDS, 600);
    assert_eq!(CLEAN_INTERVAL_SECONDS, 600);
}

#[test]
fn clean_expired_uses_the_configured_expiry() {
    let mut store = SessionStore::new();
    issue_challenge(&mut store, AccountAddress([1; 32]), Challenge([1; 32]), 1000);
    issue_challenge(&mut store, AccountAddress([2; 32]), Challenge([2; 32]), 1001);
    assert_eq!(clean_expired(&mut store, 1600), 0);
    assert_eq!(clean_expired(&mut store, 1601), 1);
    assert_eq!(store.lookup(&Challenge([1; 32]).to_hex()), None);
    assert_eq!(
        store.lookup(&Challenge([2; 32]).to_hex()),
        Some(SessionRecord { claimed_account: AccountAddress([2; 32]), issued_at: 1001 })
    );
}

#[test]
fn clean_worker_drops_old_sessions_and_keeps_fresh_ones() {
    let mut store = SessionStore::new();
    issue_challenge(&mut store, AccountAddress([1; 32]), Challenge([1; 32]), 1000);
    let fresh = get_challenge_worker(&mut store, AccountAddress([2; 32]));
    assert_eq!(clean_worker(&mut store), 1);
    assert_eq!(store.len(), 1);
    assert!(store.lookup(&fresh.challenge.to_hex()).is_some());
    assert_eq!(store.lookup(&Challenge([1; 32]).to_hex()), None);
}

#[test]
fn from_hex_reads_what_to_hex_wrote() {
    let mut bytes = [0u8; 32];
    let mut i: usize = 0;
    while i < 32 {
        bytes[i] = (i as u8) * 8 + 1;
        i += 1;
    }
    let challenge = Challenge(bytes);
    assert_eq!(Challenge::from_hex(&challenge.to_hex()), Some(challenge));
    assert_eq!(Challenge::from_hex(&"00".repeat(32)), Some(Challenge([0; 32])));
    assert_eq!(Challenge::from_hex(&"ff".repeat(32)), Some(Challenge([0xff; 32])));
}

#[test]
fn from_hex_reads_digits_of_either_case() {
    let lower = "0109111921293139414951596169717981899199a1a9b1b9c1c9d1d9e1e9f1f9";
    let upper = "0109111921293139414951596169717981899199A1A9B1B9C1C9D1D9E1E9F1F9";
    let mixed = "0109111921293139414951596169717981899199a1A9b1B9c1C9d1D9e1E9f1F9";
    let read = Challenge::from_hex(lower).expect("64 digits");
    assert_eq!(read.0[0], 0x01);
    assert_eq!(read.0[1], 0x09);
    assert_eq!(read.0[20], 0xa1);
    assert_eq!(read.0[31], 0xf9);
    assert_eq!(Challenge::from_hex(upper), Some(read));
    assert_eq!(Challenge::from_hex(mixed), Some(read));
    assert_eq!(read.to_hex(), lower);
}

#[test]
fn from_hex_puts_the_first_digit_of_a_pair_in_the_high_half() {
    let text = format!("1f{}", "00".repeat(31));
    let read = Challenge::from_hex(&text).expect("64 digits");
    assert_eq!(read.0[0], 0x1f);
    assert_eq!(read.0[1], 0x00);
}

#[test]
fn from_hex_refuses_text_of_another_length() {
    assert_eq!(Challenge::from_hex(""), None);
    assert_eq!(Challenge::from_hex("ab"), None);
    assert_eq!(Challenge::from_hex(&"a".repeat(63)), None);
    assert_eq!(Challenge::from_hex(&"a".repeat(65)), None);
    assert_eq!(Challenge::from_hex(&"ab".repeat(31)), None);
    assert_eq!(Challenge::from_hex(&"ab".repeat(33)), None);
}

#[test]
fn from_hex_refuses_characters_that_are_no_digits() {
    assert_eq!(Challenge::from_hex(&format!("{}g", "a".repeat(63))), None);
    assert_eq!(Challenge::from_hex(&format!("g{}", "a".repeat(63))), None);
    assert_eq!(Challenge::from_hex(&format!("{} ", "a".repeat(63))), None);
    assert_eq!(Challenge::from_hex(&format!("0x{}", "a".repeat(62))), None);
    assert_eq!(Challenge::from_hex(&"é".repeat(32)), None);
    assert_eq!(Challenge::from_hex(&"é".repeat(64)), None);
    assert_eq!(Challenge::from_hex(&format!("{}é", "a".repeat(62))), None);
    assert_eq!(Challenge::from_hex(&format!("{}é", "a".repeat(63))), None);
}

#[test]
fn an_issued_challenge_can_be_handed_back_as_text() {
    let mut store = SessionStore::new();
    let account = AccountAddress([9; 32]);
    let issued = get_challenge_worker(&mut store, account).challenge;
    let text = issued.to_hex().to_uppercase();
    let read = Challenge::from_hex(&text).expect("64 digits");
    assert_eq!(read, issued);
    assert_eq!(
        store.lookup(&read.to_hex()).map(|record| record.claimed_account),
        Some(account)
    );
}
