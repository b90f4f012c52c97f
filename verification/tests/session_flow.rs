use authcore::auth::AuthService;
use authcore::config::AuthConfig;
use authcore::dto::{LoginRequest, RegisterRequest};
use authcore::error::AppError;
use authcore::security::verify_csrf;
use authcore::store::MemoryStore;
use authcore::types::UserRole;

const NOW: i64 = 1_700_000_000;

fn test_config() -> AuthConfig {
    AuthConfig {
        jwt_secret: "0123456789abcdef0123456789abcdef".to_string(),
        refresh_secret: "fedcba9876543210fedcba9876543210".to_string(),
        csrf_secret: "0123456789abcdef".to_string(),
        access_token_ttl_minutes: 15,
        refresh_token_ttl_days: 14,
        access_cookie_name: "access_token".to_string(),
        refresh_cookie_name: "refresh_token".to_string(),
        csrf_cookie_name: "csrf_token".to_string(),
        cookie_secure: false,
    }
}

fn service() -> AuthService<MemoryStore> {
    AuthService::new(MemoryStore::new())
}

fn register_req(email: &str, password: &str) -> RegisterRequest {
    RegisterRequest { email: email.to_string(), password: password.to_string() }
}

fn login_req(email: &str, password: &str) -> LoginRequest {
    LoginRequest { email: email.to_string(), password: password.to_string() }
}

#[test]
fn register_creates_a_least_privileged_user() {
    let mut auth = service();
    let user = auth.register(register_req("a@b.com", "password123"), None, NOW).unwrap();
    assert_eq!(user.email, "a@b.com");
    assert_eq!(user.role, UserRole::User);
    assert_eq!(user.created_at, NOW);
    // The session issued on registration hands out all three tokens.
    let cfg = test_config();
    let session = auth.issue_session(&user, &cfg, NOW).unwrap();
    assert!(!session.access_token.is_empty());
    assert!(!session.refresh_token.is_empty());
    assert!(!session.csrf_token.is_empty());
    let body = session.to_token_response();
    assert_eq!(body.user.id, user.id);
    assert_eq!(body.access_token, session.access_token);
}

#[test]
fn duplicate_registration_conflicts() {
    let mut auth = service();
    auth.register(register_req("a@b.com", "password123"), None, NOW).unwrap();
    let err = auth.register(register_req("a@b.com", "password123"), None, NOW).unwrap_err();
    assert!(matches!(err, AppError::Conflict(_)));
    assert_eq!(err.status(), 409);
}

#[test]
fn login_failures_are_indistinguishable() {
    let mut auth = service();
    auth.register(register_req("a@b.com", "password123"), None, NOW).unwrap();
    let wrong_pass = auth.login(login_req("a@b.com", "wrongpass1"), NOW).unwrap_err();
    let unknown = auth.login(login_req("unknown@b.com", "anything123"), NOW).unwrap_err();
    assert!(matches!(wrong_pass, AppError::Unauthorized));
    assert!(matches!(unknown, AppError::Unauthorized));
    assert_eq!(wrong_pass.status(), unknown.status());
    assert_eq!(wrong_pass.code(), unknown.code());
}

#[test]
fn login_succeeds_with_the_right_password() {
    let mut auth = service();
    auth.register(register_req("a@b.com", "password123"), None, NOW).unwrap();
    let user = auth.login(login_req("a@b.com", "password123"), NOW).unwrap();
    assert_eq!(user.email, "a@b.com");
}

#[test]
fn refresh_rotates_and_kills_the_old_token() {
    let mut auth = service();
    let cfg = test_config();
    auth.register(register_req("a@b.com", "password123"), None, NOW).unwrap();
    let user = auth.login(login_req("a@b.com", "password123"), NOW).unwrap();
    let first = auth.issue_session(&user, &cfg, NOW).unwrap();

    let second = auth.refresh(&first.refresh_token, &cfg, NOW + 60).unwrap();
    assert_eq!(second.user.id, user.id);
    assert_ne!(second.refresh_token, first.refresh_token);

    // The old raw token became permanently unusable the instant rotation
    // succeeded.
    let replay = auth.refresh(&first.refresh_token, &cfg, NOW + 120).unwrap_err();
    assert!(matches!(replay, AppError::Unauthorized));
    assert_eq!(replay.status(), 401);

    // The rotated-in token still works.
    let third = auth.refresh(&second.refresh_token, &cfg, NOW + 180).unwrap();
    assert_eq!(third.user.id, user.id);
}

#[test]
fn refresh_refuses_a_never_issued_token() {
    let mut auth = service();
    let cfg = test_config();
    let err = auth.refresh("never-issued", &cfg, NOW).unwrap_err();
    assert!(matches!(err, AppError::Unauthorized));
}

#[test]
fn expired_refresh_tokens_are_rejected() {
    let mut auth = service();
    let cfg = test_config();
    auth.register(register_req("a@b.com", "password123"), None, NOW).unwrap();
    let user = auth.login(login_req("a@b.com", "password123"), NOW).unwrap();
    let session = auth.issue_session(&user, &cfg, NOW).unwrap();

    // 15 days later the 14-day token has expired.
    let later = NOW + 15 * 86400;
    let err = auth.refresh(&session.refresh_token, &cfg, later).unwrap_err();
    assert!(matches!(err, AppError::Unauthorized));

    // The stale record was cleaned up; the token stays dead even at a
    // time when it would otherwise have been valid.
    let err = auth.refresh(&session.refresh_token, &cfg, NOW + 60).unwrap_err();
    assert!(matches!(err, AppError::Unauthorized));
}

#[test]
fn logout_flow_honours_csrf_and_revokes() {
    let mut auth = service();
    let cfg = test_config();
    auth.register(register_req("a@b.com", "password123"), None, NOW).unwrap();
    let user = auth.login(login_req("a@b.com", "password123"), NOW).unwrap();
    let session = auth.issue_session(&user, &cfg, NOW).unwrap();

    // Mismatched CSRF header: the HTTP layer refuses before touching the
    // orchestrator.
    let gate = verify_csrf(Some("attacker"), Some(session.csrf_token.as_str()));
    assert_eq!(gate.unwrap_err().status(), 403);

    // Matching pair: logout proceeds and the refresh token dies.
    verify_csrf(Some(session.csrf_token.as_str()), Some(session.csrf_token.as_str())).unwrap();
    auth.logout(&session.refresh_token).unwrap();
    let err = auth.refresh(&session.refresh_token, &cfg, NOW + 60).unwrap_err();
    assert!(matches!(err, AppError::Unauthorized));
}

#[test]
fn logout_is_idempotent() {
    let mut auth = service();
    assert!(auth.logout("no-such-token").is_ok());
    assert!(auth.logout("no-such-token").is_ok());
}

#[test]
fn revoke_all_logs_out_everywhere() {
    let mut auth = service();
    let cfg = test_config();
    auth.register(register_req("a@b.com", "password123"), None, NOW).unwrap();
    let user = auth.login(login_req("a@b.com", "password123"), NOW).unwrap();
    let s1 = auth.issue_session(&user, &cfg, NOW).unwrap();
    let s2 = auth.issue_session(&user, &cfg, NOW).unwrap();

    auth.revoke_all(user.id).unwrap();
    assert!(matches!(auth.refresh(&s1.refresh_token, &cfg, NOW + 1), Err(AppError::Unauthorized)));
    assert!(matches!(auth.refresh(&s2.refresh_token, &cfg, NOW + 1), Err(AppError::Unauthorized)));
}

#[test]
fn stored_digests_are_idempotent_under_retry() {
    let mut auth = service();
    let cfg = test_config();
    auth.register(register_req("a@b.com", "password123"), None, NOW).unwrap();
    let user = auth.login(login_req("a@b.com", "password123"), NOW).unwrap();
    let session = auth.issue_session(&user, &cfg, NOW).unwrap();

    // A retried write of the same digest refreshes expiry instead of
    // corrupting state: the token still rotates exactly once.
    auth.store_refresh_token(user.id, &session.refresh_token, 14, NOW + 10).unwrap();
    auth.refresh(&session.refresh_token, &cfg, NOW + 20).unwrap();
    let replay = auth.refresh(&session.refresh_token, &cfg, NOW + 30).unwrap_err();
    assert!(matches!(replay, AppError::Unauthorized));
}

#[test]
fn me_resolves_a_live_access_token() {
    let mut auth = service();
    let cfg = test_config();
    auth.register(register_req("a@b.com", "password123"), None, NOW).unwrap();
    let user = auth.login(login_req("a@b.com", "password123"), NOW).unwrap();
    let session = auth.issue_session(&user, &cfg, NOW).unwrap();

    let profile = auth.me(&session.access_token, &cfg, NOW + 60).unwrap();
    assert_eq!(profile.id, user.id);
    assert_eq!(profile.email, "a@b.com");
    assert_eq!(profile.role, UserRole::User);

    assert!(matches!(auth.me("garbage", &cfg, NOW), Err(AppError::Unauthorized)));
    // After natural expiry the access token is refused.
    let late = NOW + 16 * 60;
    assert!(matches!(auth.me(&session.access_token, &cfg, late), Err(AppError::Unauthorized)));
}

#[test]
fn trusted_callers_may_override_the_role() {
    let mut auth = service();
    let admin = auth
        .register(register_req("root@b.com", "password123"), Some(UserRole::Admin), NOW)
        .unwrap();
    assert_eq!(admin.role, UserRole::Admin);
}
