use betterd_spotify::pkce::{generate_code_challenge, generate_code_verifier};
use betterd_spotify::store::StateStore;

fn is_alnum(c: char) -> bool {
    c.is_ascii_alphanumeric()
}

#[test]
fn verifier_is_128_alphanumeric_chars() {
    for _ in 0..20 {
        let v = generate_code_verifier();
        assert_eq!(v.chars().count(), 128);
        assert!(v.chars().all(is_alnum));
    }
}

#[test]
fn verifiers_are_not_repeated() {
    let a = generate_code_verifier();
    let b = generate_code_verifier();
    assert_ne!(a, b);
}

#[test]
fn challenge_matches_rfc7636_vector() {
    // The PKCE reference vector: SHA-256 of this verifier, base64url without
    // padding.
    let verifier = "dBjftJeZ4CVP-mB92K27uhbUJU1p1r_wW1gFWFOEjXk";
    let challenge = generate_code_challenge(verifier);
    assert_eq!(challenge, "E9Melhoa2OwvFrEMTJguCHaoeK1t8URWbuGJSstw-cM");
}

#[test]
fn challenge_is_deterministic_and_input_sensitive() {
    let v = generate_code_verifier();
    let c1 = generate_code_challenge(v.as_str());
    let c2 = generate_code_challenge(v.as_str());
    assert_eq!(c1, c2);
    let other = generate_code_verifier();
    assert_ne!(v, other);
    assert_ne!(generate_code_challenge(v.as_str()), generate_code_challenge(other.as_str()));
}

#[test]
fn challenge_is_43_chars() {
    let v = generate_code_verifier();
    assert_eq!(generate_code_challenge(v.as_str()).chars().count(), 43);
}

#[test]
fn state_is_consumed_exactly_once() {
    let mut store = StateStore::new();
    store.insert("st4te".to_string(), "verif".to_string(), 1_000, 600_000);
    let first = store.consume("st4te", 2_000);
    assert_eq!(first, Some("verif".to_string()));
    // A second callback with the same state finds nothing.
    let second = store.consume("st4te", 2_001);
    assert_eq!(second, None);
}

#[test]
fn failed_consume_still_removes_the_state() {
    let mut store = StateStore::new();
    store.insert("late".to_string(), "v1".to_string(), 0, 100);
    // Expired: the consume fails ...
    assert_eq!(store.consume("late", 100), None);
    // ... and the entry is gone even if time rolls back.
    assert_eq!(store.consume("late", 50), None);
}

#[test]
fn expired_state_is_unusable_without_deletion() {
    let mut store = StateStore::new();
    store.insert("s1".to_string(), "v1".to_string(), 1_000, 600_000);
    // Nothing ever deleted the entry; at its expiry it stops working.
    let mut probe = StateStore::new();
    probe.insert("s1".to_string(), "v1".to_string(), 1_000, 600_000);
    assert_eq!(probe.consume("s1", 601_000), None);
    // Just before expiry the same entry still works.
    assert_eq!(store.consume("s1", 600_999), Some("v1".to_string()));
}

#[test]
fn unknown_state_is_a_mismatch() {
    let mut store = StateStore::new();
    store.insert("known".to_string(), "v".to_string(), 0, 600_000);
    assert_eq!(store.consume("unknown", 1), None);
    assert_eq!(store.len(), 1);
}

#[test]
fn insert_replaces_earlier_entry_under_same_state() {
    let mut store = StateStore::new();
    store.insert("s".to_string(), "old".to_string(), 0, 600_000);
    store.insert("s".to_string(), "new".to_string(), 10, 600_000);
    assert_eq!(store.len(), 1);
    assert_eq!(store.consume("s", 20), Some("new".to_string()));
}
