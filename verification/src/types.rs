use vstd::prelude::*;
use crate::error::AppError;
use crate::validate::{eq_ignore_ascii_case, spec_eq_ignore_ascii_case};

verus! {

/// The environment a deployment runs in.
#[derive(Clone, Copy, Debug, PartialEq, Eq, Structural)]
pub enum Environment {
    Development,
    Production,
    Test,
}

impl Environment {
    pub fn is_prod(&self) -> (r: bool)
        ensures
            r == (*self == Environment::Production),
    {
        matches!(self, Environment::Production)
    }
}

impl Default for Environment {
    fn default() -> (r: Self)
        ensures
            r == Environment::Development,
    {
        Environment::Development
    }
}

/// A user's privilege level. `User` is the least-privileged value and the
/// default for every account created through registration.
#[derive(Clone, Copy, Debug, PartialEq, Eq, Structural)]
pub enum UserRole {
    User,
    Admin,
}

impl Default for UserRole {
    fn default() -> (r: Self)
        ensures
            r == UserRole::User,
    {
        UserRole::User
    }
}

/// Parses a role name as trusted internal callers write it, ASCII
/// case-insensitively; anything but the two known names is a validation
/// error.
pub fn parse_role(role: &str) -> (r: Result<UserRole, AppError>)
    ensures
        spec_eq_ignore_ascii_case(role@, "admin"@) ==> r == Ok::<UserRole, AppError>(
            UserRole::Admin,
        ),
        !spec_eq_ignore_ascii_case(role@, "admin"@) && spec_eq_ignore_ascii_case(role@, "user"@)
            ==> r == Ok::<UserRole, AppError>(UserRole::User),
        !spec_eq_ignore_ascii_case(role@, "admin"@) && !spec_eq_ignore_ascii_case(role@, "user"@)
            ==> (r matches Err(e) && e is Validation),
{
    if eq_ignore_ascii_case(role, "admin") {
        Ok(UserRole::Admin)
    } else if eq_ignore_ascii_case(role, "user") {
        Ok(UserRole::User)
    } else {
        Err(AppError::Validation(String::from_str("invalid role")))
    }
}

/// The claims carried inside a signed access token: subject user id, role,
/// expiry and issued-at as seconds since the Unix epoch.
#[derive(Clone, Copy, Debug, PartialEq, Eq, Structural)]
pub struct Claims {
    pub sub: u128,
    pub role: UserRole,
    pub exp: u64,
    pub iat: u64,
}

/// An append-only authentication event. `user_id` is absent when the event
/// could not be tied to an account; `ip` and `user_agent` are optional
/// request metadata.
#[derive(Clone, Debug)]
pub struct AuditEvent {
    pub id: u128,
    pub user_id: Option<u128>,
    pub event_type: String,
    pub ip: Option<String>,
    pub user_agent: Option<String>,
    pub created_at: i64,
}

} // verus!
