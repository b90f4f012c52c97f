use authcore::dto::{LoginRequest, RegisterRequest};
use authcore::error::AppError;
use authcore::types::{parse_role, UserRole};
use authcore::validate::{is_valid_email, is_valid_password};

#[test]
fn accepts_plain_addresses() {
    assert!(is_valid_email("a@b.com"));
    assert!(is_valid_email("user.name+tag@example-domain.co"));
    assert!(is_valid_email("x@y"));
    assert!(is_valid_email("UPPER.case_09@Sub.Domain.org"));
}

#[test]
fn rejects_malformed_addresses() {
    assert!(!is_valid_email(""));
    assert!(!is_valid_email("plain"));
    assert!(!is_valid_email("@example.com"));
    assert!(!is_valid_email("user@"));
    assert!(!is_valid_email("user@@example.com"));
    assert!(!is_valid_email("two@signs@example.com"));
    assert!(!is_valid_email("user@.com"));
    assert!(!is_valid_email("user@example.com."));
    assert!(!is_valid_email("user@exa..mple.com"));
    assert!(!is_valid_email("sp ace@example.com"));
    assert!(!is_valid_email("user@exam ple.com"));
}

#[test]
fn password_length_bounds() {
    assert!(!is_valid_password("1234567"));
    assert!(is_valid_password("12345678"));
    assert!(is_valid_password(&"p".repeat(128)));
    assert!(!is_valid_password(&"p".repeat(129)));
}

#[test]
fn register_request_validation_maps_to_400() {
    let bad = RegisterRequest { email: "nope".to_string(), password: "password123".to_string() };
    let err = bad.validate().unwrap_err();
    assert!(matches!(err, AppError::Validation(_)));
    assert_eq!(err.status(), 400);

    let short = RegisterRequest { email: "a@b.com".to_string(), password: "short".to_string() };
    assert!(matches!(short.validate(), Err(AppError::Validation(_))));

    let good = RegisterRequest { email: "a@b.com".to_string(), password: "password123".to_string() };
    assert!(good.validate().is_ok());
}

#[test]
fn login_request_validation() {
    let bad = LoginRequest { email: "a@b.com".to_string(), password: "x".to_string() };
    assert!(matches!(bad.validate(), Err(AppError::Validation(_))));
    let good = LoginRequest { email: "a@b.com".to_string(), password: "password123".to_string() };
    assert!(good.validate().is_ok());
}

#[test]
fn parse_role_is_case_insensitive() {
    assert_eq!(parse_role("admin").unwrap(), UserRole::Admin);
    assert_eq!(parse_role("Admin").unwrap(), UserRole::Admin);
    assert_eq!(parse_role("USER").unwrap(), UserRole::User);
    assert_eq!(parse_role("user").unwrap(), UserRole::User);
    assert!(matches!(parse_role("root"), Err(AppError::Validation(_))));
    assert!(matches!(parse_role(""), Err(AppError::Validation(_))));
}
