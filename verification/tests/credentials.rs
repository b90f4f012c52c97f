use authcore::error::AppError;
use authcore::models::{PasswordService, RefreshToken};

#[test]
fn hash_then_verify_accepts_the_password() {
    let digest = PasswordService::hash("correct horse battery").unwrap();
    assert_eq!(PasswordService::verify(&digest, "correct horse battery").unwrap(), true);
}

#[test]
fn hash_then_verify_refuses_a_changed_password() {
    let digest = PasswordService::hash("correct horse battery").unwrap();
    assert_eq!(PasswordService::verify(&digest, "correct horse batteryx").unwrap(), false);
    assert_eq!(PasswordService::verify(&digest, "").unwrap(), false);
}

#[test]
fn digests_are_salted() {
    let a = PasswordService::hash("same password").unwrap();
    let b = PasswordService::hash("same password").unwrap();
    // A fresh random salt per call: the encoded digests differ.
    assert_ne!(a, b);
    assert!(PasswordService::verify(&a, "same password").unwrap());
    assert!(PasswordService::verify(&b, "same password").unwrap());
}

#[test]
fn malformed_digest_reads_as_unauthorized() {
    let r = PasswordService::verify("not a phc string", "anything");
    assert!(matches!(r, Err(AppError::Unauthorized)));
}

#[test]
fn token_fingerprint_is_deterministic() {
    let a = RefreshToken::hash("some-raw-token");
    let b = RefreshToken::hash("some-raw-token");
    assert_eq!(a, b);
}

#[test]
fn token_fingerprints_differ_for_distinct_tokens() {
    let a = RefreshToken::hash("raw-token-one");
    let b = RefreshToken::hash("raw-token-two");
    assert_ne!(a, b);
    // The fingerprint is a digest, not the raw value.
    assert_ne!(a, "raw-token-one");
    assert_eq!(a.len(), 64);
}

#[test]
fn from_raw_stores_the_fingerprint_not_the_token() {
    let rec = RefreshToken::from_raw(7, "raw-opaque-value", 2_000_000, 1_000_000);
    assert_eq!(rec.user_id, 7);
    assert_eq!(rec.token_hash, RefreshToken::hash("raw-opaque-value"));
    assert_ne!(rec.token_hash, "raw-opaque-value");
    assert_eq!(rec.expires_at, 2_000_000);
    assert_eq!(rec.created_at, 1_000_000);
}
