use vstd::prelude::*;
use crate::crypto::{
    argon2_hash, argon2_verify, fresh_id, fresh_digest_for, password_matches, phc_valid,
    sha256_hex, token_digest,
};
use crate::error::AppError;
use crate::types::{AuditEvent, UserRole};

verus! {

/// An identity record. Created only through registration; the password is
/// held only as a self-describing one-way digest.
#[derive(Debug)]
pub struct User {
    pub id: u128,
    pub email: String,
    pub password_hash: String,
    pub role: UserRole,
    pub created_at: i64,
    pub updated_at: i64,
}

impl Clone for User {
    fn clone(&self) -> (res: Self)
        ensures
            res == *self,
    {
        User {
            id: self.id,
            email: self.email.clone(),
            password_hash: self.password_hash.clone(),
            role: self.role,
            created_at: self.created_at,
            updated_at: self.updated_at,
        }
    }
}

/// The fields a caller supplies to create a `User`; ids and timestamps are
/// assigned by the repository call.
#[derive(Debug)]
pub struct NewUser {
    pub email: String,
    pub password_hash: String,
    pub role: UserRole,
}

impl Clone for NewUser {
    fn clone(&self) -> (res: Self)
        ensures
            res == *self,
    {
        NewUser {
            email: self.email.clone(),
            password_hash: self.password_hash.clone(),
            role: self.role,
        }
    }
}

/// A stored session credential: only the digest of the raw token, never
/// the raw token itself.
#[derive(Debug)]
pub struct RefreshToken {
    pub id: u128,
    pub user_id: u128,
    pub token_hash: String,
    pub expires_at: i64,
    pub created_at: i64,
}

impl Clone for RefreshToken {
    fn clone(&self) -> (res: Self)
        ensures
            res == *self,
    {
        RefreshToken {
            id: self.id,
            user_id: self.user_id,
            token_hash: self.token_hash.clone(),
            expires_at: self.expires_at,
            created_at: self.created_at,
        }
    }
}

impl RefreshToken {
    /// The deterministic fingerprint under which a raw token is stored;
    /// distinct raw tokens get distinct fingerprints.
    pub fn hash(raw: &str) -> (r: String)
        ensures
            r@ == token_digest(raw@),
            r@.len() == 64,
            forall|other: Seq<char>| other != raw@ ==> token_digest(other) != r@,
    {
        sha256_hex(raw)
    }

    /// Builds the stored record for a raw token handed to the caller:
    /// a fresh id, the owner, the fingerprint, and the given expiry.
    pub fn from_raw(user_id: u128, raw: &str, expires_at: i64, now: i64) -> (r: RefreshToken)
        ensures
            r.user_id == user_id,
            r.token_hash@ == token_digest(raw@),
            r.expires_at == expires_at,
            r.created_at == now,
    {
        RefreshToken {
            id: fresh_id(),
            user_id,
            token_hash: Self::hash(raw),
            expires_at,
            created_at: now,
        }
    }
}

/// One-way, salted hashing and verification of passwords.
pub struct PasswordService;

impl PasswordService {
    /// Derives a fresh salted digest. Never fails on password content;
    /// an RNG or encoding failure is an internal error.
    pub fn hash(password: &str) -> (r: Result<String, AppError>)
        ensures
            r matches Ok(digest) ==> fresh_digest_for(digest@, password@),
            r matches Err(e) ==> e is Internal,
    {
        match argon2_hash(password) {
            Some(digest) => Ok(digest),
            None => Err(AppError::Internal(String::from_str("failed to hash password"))),
        }
    }

    /// Recomputes the digest with its embedded parameters and reports
    /// match or mismatch; a malformed stored digest reads as
    /// unauthorized, never as a crash.
    pub fn verify(hash: &str, candidate: &str) -> (r: Result<bool, AppError>)
        ensures
            r matches Ok(b) ==> phc_valid(hash@) && b == password_matches(hash@, candidate@),
            r matches Err(e) ==> !phc_valid(hash@) && e is Unauthorized,
    {
        match argon2_verify(hash, candidate) {
            Some(b) => Ok(b),
            None => Err(AppError::Unauthorized),
        }
    }
}

/// The kinds of authentication events the recorder accepts.
#[derive(Clone, Copy, Debug, PartialEq, Eq, Structural)]
pub enum AuditEventType {
    AuthLogin,
    AuthRegister,
    AuthLogout,
    TokenRefresh,
}

/// The wire name of each audit event type.
pub open spec fn spec_event_type_str(t: AuditEventType) -> Seq<char> {
    match t {
        AuditEventType::AuthLogin => "auth.login"@,
        AuditEventType::AuthRegister => "auth.register"@,
        AuditEventType::AuthLogout => "auth.logout"@,
        AuditEventType::TokenRefresh => "auth.refresh"@,
    }
}

impl AuditEventType {
    pub fn as_str(&self) -> (r: &'static str)
        ensures
            r@ == spec_event_type_str(*self),
    {
        match self {
            AuditEventType::AuthLogin => "auth.login",
            AuditEventType::AuthRegister => "auth.register",
            AuditEventType::AuthLogout => "auth.logout",
            AuditEventType::TokenRefresh => "auth.refresh",
        }
    }
}

impl AuditEvent {
    /// Builds an event from all of its fields; the optional request
    /// metadata defaults to absent at the call sites that lack it.
    pub fn new(
        id: u128,
        user_id: Option<u128>,
        event_type: String,
        ip: Option<String>,
        user_agent: Option<String>,
        created_at: i64,
    ) -> (r: AuditEvent)
        ensures
            r.id == id,
            r.user_id == user_id,
            r.event_type == event_type,
            r.ip == ip,
            r.user_agent == user_agent,
            r.created_at == created_at,
    {
        AuditEvent { id, user_id, event_type, ip, user_agent, created_at }
    }
}

} // verus!
