use authcore::error::AppError;

#[test]
fn status_codes_match_the_taxonomy() {
    assert_eq!(AppError::Validation("v".to_string()).status(), 400);
    assert_eq!(AppError::Unauthorized.status(), 401);
    assert_eq!(AppError::Forbidden.status(), 403);
    assert_eq!(AppError::NotFound.status(), 404);
    assert_eq!(AppError::Conflict("c".to_string()).status(), 409);
    assert_eq!(AppError::RateLimited.status(), 429);
    assert_eq!(AppError::Config("c".to_string()).status(), 500);
    assert_eq!(AppError::Unavailable("u".to_string()).status(), 503);
    assert_eq!(AppError::Internal("i".to_string()).status(), 500);
}

#[test]
fn codes_are_stable() {
    assert_eq!(AppError::Validation("v".to_string()).code(), "validation_error");
    assert_eq!(AppError::Unauthorized.code(), "unauthorized");
    assert_eq!(AppError::Forbidden.code(), "forbidden");
    assert_eq!(AppError::NotFound.code(), "not_found");
    assert_eq!(AppError::Conflict("c".to_string()).code(), "conflict");
    assert_eq!(AppError::RateLimited.code(), "rate_limited");
    assert_eq!(AppError::Config("c".to_string()).code(), "config_error");
    assert_eq!(AppError::Unavailable("u".to_string()).code(), "unavailable");
    assert_eq!(AppError::Internal("i".to_string()).code(), "internal_error");
}

#[test]
fn messages_carry_detail_only_where_defined() {
    assert_eq!(AppError::Unauthorized.message(), "Unauthorized");
    assert_eq!(AppError::Forbidden.message(), "Forbidden");
    assert_eq!(AppError::NotFound.message(), "Not found");
    assert_eq!(AppError::RateLimited.message(), "Rate limited");
    assert_eq!(AppError::Validation("bad email".to_string()).message(), "Validation error: bad email");
    assert_eq!(AppError::Conflict("dup".to_string()).message(), "Conflict: dup");
    assert_eq!(AppError::Config("miss".to_string()).message(), "Configuration error: miss");
    assert_eq!(AppError::Unavailable("down".to_string()).message(), "Service unavailable: down");
    assert_eq!(AppError::Internal("boom".to_string()).message(), "Internal error: boom");
}

#[test]
fn with_details_replaces_only_detail_kinds() {
    let e = AppError::Conflict("old".to_string()).with_details("new".to_string());
    assert!(matches!(e, AppError::Conflict(d) if d == "new"));
    let e = AppError::Unauthorized.with_details("ignored".to_string());
    assert!(matches!(e, AppError::Unauthorized));
    let e = AppError::Validation("old".to_string()).with_details("new".to_string());
    assert!(matches!(e, AppError::Validation(d) if d == "new"));
}

#[test]
fn to_response_is_uniform() {
    let resp = AppError::Conflict("dup".to_string()).to_response(Some("req-1".to_string()));
    assert_eq!(resp.code, "conflict");
    assert_eq!(resp.message, "Conflict: dup");
    assert_eq!(resp.details, None);
    assert_eq!(resp.request_id, Some("req-1".to_string()));
    let anon = AppError::Unauthorized.to_response(None);
    assert_eq!(anon.request_id, None);
}

#[test]
fn constructors_pick_their_kind() {
    assert!(matches!(AppError::config("x".to_string()), AppError::Config(_)));
    assert!(matches!(AppError::internal("x".to_string()), AppError::Internal(_)));
}
