use vstd::prelude::*;
use crate::error::AppError;
use crate::types::UserRole;
use crate::validate::{is_valid_email, is_valid_password, spec_valid_email, spec_valid_password};

verus! {

/// A registration submission. Valid when the email is RFC-shaped and the
/// password is 8 to 128 characters.
#[derive(Debug, Clone)]
pub struct RegisterRequest {
    pub email: String,
    pub password: String,
}

/// A login submission, validated exactly like a registration.
#[derive(Debug, Clone)]
pub struct LoginRequest {
    pub email: String,
    pub password: String,
}

/// Whether a submitted email/password pair has an acceptable shape.
pub open spec fn spec_valid_credentials(email: Seq<char>, password: Seq<char>) -> bool {
    spec_valid_email(email) && spec_valid_password(password)
}

impl RegisterRequest {
    /// Accepts exactly the well-shaped submissions; every rejection is a
    /// `Validation` error.
    pub fn validate(&self) -> (r: Result<(), AppError>)
        ensures
            r is Ok <==> spec_valid_credentials(self.email@, self.password@),
            r matches Err(e) ==> e is Validation,
    {
        if !is_valid_email(self.email.as_str()) {
            return Err(AppError::Validation(String::from_str("email is not a valid address")));
        }
        if !is_valid_password(self.password.as_str()) {
            return Err(
                AppError::Validation(String::from_str("password must be 8 to 128 characters")),
            );
        }
        Ok(())
    }
}

impl LoginRequest {
    /// Accepts exactly the well-shaped submissions; every rejection is a
    /// `Validation` error.
    pub fn validate(&self) -> (r: Result<(), AppError>)
        ensures
            r is Ok <==> spec_valid_credentials(self.email@, self.password@),
            r matches Err(e) ==> e is Validation,
    {
        if !is_valid_email(self.email.as_str()) {
            return Err(AppError::Validation(String::from_str("email is not a valid address")));
        }
        if !is_valid_password(self.password.as_str()) {
            return Err(
                AppError::Validation(String::from_str("password must be 8 to 128 characters")),
            );
        }
        Ok(())
    }
}

/// The public projection of a user record: everything but the credential
/// digest.
#[derive(Debug, Clone)]
pub struct UserResponse {
    pub id: u128,
    pub email: String,
    pub role: UserRole,
    pub created_at: i64,
}

/// The body returned by register, login and refresh: the signed access
/// token, the user's public profile and the anti-forgery token paired with
/// the new session.
#[derive(Debug, Clone)]
pub struct TokenResponse {
    pub access_token: String,
    pub user: UserResponse,
    pub csrf_token: String,
}

/// Projects an identity record onto its public shape: everything but the
/// credential digest.
pub fn to_user_response(user: &crate::models::User) -> (r: UserResponse)
    ensures
        r.id == user.id,
        r.email == user.email,
        r.role == user.role,
        r.created_at == user.created_at,
{
    UserResponse {
        id: user.id,
        email: user.email.clone(),
        role: user.role,
        created_at: user.created_at,
    }
}

/// One page of a listing, with the total count across all pages.
#[derive(Debug, Clone)]
pub struct PaginatedResponse<T> {
    pub items: Vec<T>,
    pub total: i64,
    pub page: i64,
    pub per_page: i64,
}

/// A liveness/readiness report.
#[derive(Debug, Clone)]
pub struct HealthStatus {
    pub status: String,
    pub db: bool,
    pub redis: bool,
    pub version: String,
}

impl HealthStatus {
    /// The liveness report: always "ok"; the store is not probed.
    pub fn alive(redis_configured: bool, version: String) -> (r: (u16, HealthStatus))
        ensures
            r.0 == 200,
            r.1.status@ == "ok"@,
            r.1.db == false,
            r.1.redis == redis_configured,
            r.1.version == version,
    {
        (
            200,
            HealthStatus {
                status: String::from_str("ok"),
                db: false,
                redis: redis_configured,
                version,
            },
        )
    }

    /// The readiness report: serviceable exactly when the store answers;
    /// the cache is reported but not required.
    pub fn readiness(db_ok: bool, redis_ok: bool, version: String) -> (r: (u16, HealthStatus))
        ensures
            r.0 == if db_ok {
                200u16
            } else {
                503u16
            },
            r.1.status@ == if db_ok {
                "ok"@
            } else {
                "degraded"@
            },
            r.1.db == db_ok,
            r.1.redis == redis_ok,
            r.1.version == version,
    {
        let status = if db_ok {
            String::from_str("ok")
        } else {
            String::from_str("degraded")
        };
        let code: u16 = if db_ok {
            200
        } else {
            503
        };
        (code, HealthStatus { status, db: db_ok, redis: redis_ok, version })
    }
}

/// Paging parameters for listings.
#[derive(Debug, Clone, Copy)]
pub struct Pagination {
    pub page: i64,
    pub per_page: i64,
}

pub fn default_page() -> (r: i64)
    ensures
        r == 1,
{
    1
}

pub fn default_per_page() -> (r: i64)
    ensures
        r == 20,
{
    20
}

impl Default for Pagination {
    fn default() -> (r: Self)
        ensures
            r.page == 1 && r.per_page == 20,
    {
        Pagination { page: default_page(), per_page: default_per_page() }
    }
}

} // verus!
