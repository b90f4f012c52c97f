use authcore::error::AppError;
use authcore::security::verify_csrf;

#[test]
fn csrf_rejects_missing_header() {
    let r = verify_csrf(None, Some("x"));
    assert!(matches!(r, Err(AppError::Forbidden)));
    assert_eq!(r.unwrap_err().status(), 403);
}

#[test]
fn csrf_rejects_missing_cookie() {
    let r = verify_csrf(Some("x"), None);
    assert!(matches!(r, Err(AppError::Forbidden)));
}

#[test]
fn csrf_rejects_mismatch() {
    let r = verify_csrf(Some("x"), Some("y"));
    assert!(matches!(r, Err(AppError::Forbidden)));
}

#[test]
fn csrf_rejects_both_missing() {
    let r = verify_csrf(None, None);
    assert!(matches!(r, Err(AppError::Forbidden)));
}

#[test]
fn csrf_accepts_match() {
    let r = verify_csrf(Some("same-value"), Some("same-value"));
    assert!(r.is_ok());
}

#[test]
fn csrf_generated_tokens_pair_with_themselves() {
    let t = authcore::security::generate_csrf_token();
    assert!(verify_csrf(Some(t.as_str()), Some(t.as_str())).is_ok());
    let other = authcore::security::generate_csrf_token();
    assert_ne!(t, other);
    assert!(verify_csrf(Some(t.as_str()), Some(other.as_str())).is_err());
}
