use authcore::config::AuthConfig;
use authcore::error::AppError;
use authcore::security::{bearer_token, decode_access_token, sign_access_token};
use authcore::types::UserRole;

fn signer_config() -> AuthConfig {
    AuthConfig {
        jwt_secret: "0123456789abcdef0123456789abcdef".to_string(),
        refresh_secret: "fedcba9876543210fedcba9876543210".to_string(),
        csrf_secret: "0123456789abcdef".to_string(),
        access_token_ttl_minutes: 15,
        refresh_token_ttl_days: 14,
        access_cookie_name: "access_token".to_string(),
        refresh_cookie_name: "refresh_token".to_string(),
        csrf_cookie_name: "csrf_token".to_string(),
        cookie_secure: false,
    }
}

#[test]
fn sign_then_decode_round_trips_the_claims() {
    let cfg = signer_config();
    let now: u64 = 1_700_000_000;
    let token = sign_access_token(42, UserRole::Admin, &cfg, now).unwrap();
    let claims = decode_access_token(&token, &cfg, now).unwrap();
    assert_eq!(claims.sub, 42);
    assert_eq!(claims.role, UserRole::Admin);
    assert_eq!(claims.iat, now);
    assert_eq!(claims.exp, now + 15 * 60);
}

#[test]
fn expired_tokens_are_refused() {
    let cfg = signer_config();
    let now: u64 = 1_700_000_000;
    let token = sign_access_token(42, UserRole::User, &cfg, now).unwrap();
    // Exactly at expiry the token is no longer valid.
    let at_expiry = decode_access_token(&token, &cfg, now + 15 * 60);
    assert!(matches!(at_expiry, Err(AppError::Unauthorized)));
    let late = decode_access_token(&token, &cfg, now + 16 * 60);
    assert!(matches!(late, Err(AppError::Unauthorized)));
}

#[test]
fn tampered_tokens_are_refused() {
    let cfg = signer_config();
    let now: u64 = 1_700_000_000;
    let token = sign_access_token(42, UserRole::User, &cfg, now).unwrap();
    let mut tampered = token.clone();
    tampered.pop();
    assert!(matches!(decode_access_token(&tampered, &cfg, now), Err(AppError::Unauthorized)));
    assert!(matches!(decode_access_token("garbage", &cfg, now), Err(AppError::Unauthorized)));
}

#[test]
fn wrong_secret_is_refused() {
    let cfg = signer_config();
    let mut other = signer_config();
    other.jwt_secret = "another-secret-another-secret-32".to_string();
    let now: u64 = 1_700_000_000;
    let token = sign_access_token(42, UserRole::User, &cfg, now).unwrap();
    assert!(matches!(decode_access_token(&token, &other, now), Err(AppError::Unauthorized)));
}

#[test]
fn bearer_header_parsing() {
    assert_eq!(bearer_token(Some("Bearer abc.def.ghi")), Some("abc.def.ghi".to_string()));
    assert_eq!(bearer_token(Some("Token abc")), None);
    assert_eq!(bearer_token(Some("bearer abc")), None);
    assert_eq!(bearer_token(Some("Bearer ")), Some("".to_string()));
    assert_eq!(bearer_token(None), None);
}
