use vstd::prelude::*;

verus! {

/// The error taxonomy every operation reports through. Storage errors are
/// translated into it at the boundary; the orchestrator never leaks raw
/// storage error text, only a stable code and a generic message.
#[derive(Debug, Clone, PartialEq, Eq)]
pub enum AppError {
    Validation(String),
    Unauthorized,
    Forbidden,
    NotFound,
    Conflict(String),
    RateLimited,
    Config(String),
    Unavailable(String),
    Internal(String),
}

/// The uniform error body handed to callers: a stable code, a generic
/// message, optional details, and a request-scoped correlation id.
#[derive(Debug, Clone)]
pub struct ErrorResponse {
    pub code: String,
    pub message: String,
    pub details: Option<String>,
    pub request_id: Option<String>,
}

/// The stable machine-readable code of each error kind.
pub open spec fn spec_code(e: AppError) -> Seq<char> {
    match e {
        AppError::Validation(_) => "validation_error"@,
        AppError::Unauthorized => "unauthorized"@,
        AppError::Forbidden => "forbidden"@,
        AppError::NotFound => "not_found"@,
        AppError::Conflict(_) => "conflict"@,
        AppError::RateLimited => "rate_limited"@,
        AppError::Config(_) => "config_error"@,
        AppError::Unavailable(_) => "unavailable"@,
        AppError::Internal(_) => "internal_error"@,
    }
}

/// The HTTP status each error kind maps to.
pub open spec fn spec_status(e: AppError) -> u16 {
    match e {
        AppError::Validation(_) => 400,
        AppError::Unauthorized => 401,
        AppError::Forbidden => 403,
        AppError::NotFound => 404,
        AppError::Conflict(_) => 409,
        AppError::RateLimited => 429,
        AppError::Config(_) => 500,
        AppError::Unavailable(_) => 503,
        AppError::Internal(_) => 500,
    }
}

/// The human-readable message of each error kind: a fixed prefix, plus the
/// detail text for the kinds that carry one.
pub open spec fn spec_message(e: AppError) -> Seq<char> {
    match e {
        AppError::Validation(s) => "Validation error: "@ + s@,
        AppError::Unauthorized => "Unauthorized"@,
        AppError::Forbidden => "Forbidden"@,
        AppError::NotFound => "Not found"@,
        AppError::Conflict(s) => "Conflict: "@ + s@,
        AppError::RateLimited => "Rate limited"@,
        AppError::Config(s) => "Configuration error: "@ + s@,
        AppError::Unavailable(s) => "Service unavailable: "@ + s@,
        AppError::Internal(s) => "Internal error: "@ + s@,
    }
}

impl AppError {
    pub fn code(&self) -> (r: &'static str)
        ensures
            r@ == spec_code(*self),
    {
        match self {
            AppError::Validation(_) => "validation_error",
            AppError::Unauthorized => "unauthorized",
            AppError::Forbidden => "forbidden",
            AppError::NotFound => "not_found",
            AppError::Conflict(_) => "conflict",
            AppError::RateLimited => "rate_limited",
            AppError::Config(_) => "config_error",
            AppError::Unavailable(_) => "unavailable",
            AppError::Internal(_) => "internal_error",
        }
    }

    pub fn status(&self) -> (r: u16)
        ensures
            r == spec_status(*self),
    {
        match self {
            AppError::Validation(_) => 400,
            AppError::Unauthorized => 401,
            AppError::Forbidden => 403,
            AppError::NotFound => 404,
            AppError::Conflict(_) => 409,
            AppError::RateLimited => 429,
            AppError::Config(_) => 500,
            AppError::Unavailable(_) => 503,
            AppError::Internal(_) => 500,
        }
    }

    /// The message shown to callers; never raw storage error text.
    pub fn message(&self) -> (r: String)
        ensures
            r@ == spec_message(*self),
    {
        match self {
            AppError::Validation(s) => String::from_str("Validation error: ").concat(s.as_str()),
            AppError::Unauthorized => String::from_str("Unauthorized"),
            AppError::Forbidden => String::from_str("Forbidden"),
            AppError::NotFound => String::from_str("Not found"),
            AppError::Conflict(s) => String::from_str("Conflict: ").concat(s.as_str()),
            AppError::RateLimited => String::from_str("Rate limited"),
            AppError::Config(s) => String::from_str("Configuration error: ").concat(s.as_str()),
            AppError::Unavailable(s) => String::from_str("Service unavailable: ").concat(s.as_str()),
            AppError::Internal(s) => String::from_str("Internal error: ").concat(s.as_str()),
        }
    }

    pub fn to_response(&self, request_id: Option<String>) -> (r: ErrorResponse)
        ensures
            r.code@ == spec_code(*self),
            r.message@ == spec_message(*self),
            r.details is None,
            r.request_id == request_id,
    {
        ErrorResponse {
            code: String::from_str(self.code()),
            message: self.message(),
            details: None,
            request_id,
        }
    }

    /// Replaces the detail text of the kinds that carry one; the
    /// detail-free kinds pass through unchanged.
    pub fn with_details(self, details: String) -> (r: Self)
        ensures
            r == match self {
                AppError::Validation(_) => AppError::Validation(details),
                AppError::Conflict(_) => AppError::Conflict(details),
                AppError::Config(_) => AppError::Config(details),
                AppError::Unavailable(_) => AppError::Unavailable(details),
                AppError::Internal(_) => AppError::Internal(details),
                other => other,
            },
    {
        match self {
            AppError::Validation(_) => AppError::Validation(details),
            AppError::Conflict(_) => AppError::Conflict(details),
            AppError::Config(_) => AppError::Config(details),
            AppError::Unavailable(_) => AppError::Unavailable(details),
            AppError::Internal(_) => AppError::Internal(details),
            other => other,
        }
    }

    pub fn config(details: String) -> (r: Self)
        ensures
            r == AppError::Config(details),
    {
        AppError::Config(details)
    }

    pub fn internal(details: String) -> (r: Self)
        ensures
            r == AppError::Internal(details),
    {
        AppError::Internal(details)
    }
}

} // verus!
