use vstd::prelude::*;
use crate::config::{AppConfig, AuthConfig};
use crate::crypto::random_token;
use crate::error::AppError;
use crate::types::{Claims, Environment, UserRole};
use crate::validate::{
    spec_eq_ignore_ascii_case, spec_starts_with, spec_trim, str_eq, str_starts_with, str_trim,
    eq_ignore_ascii_case,
};

verus! {

// ---------------------------------------------------------------------------
// Signed access tokens
// ---------------------------------------------------------------------------

/// What jsonwebtoken::decode recovers from a token under a secret, with
/// expiry validation left to the caller: `Some((sub, role, iat, exp))`
/// exactly when the token's HMAC-SHA256 signature verifies under the
/// secret and the claims parse. A function of token and secret alone;
/// a token accepted under a secret carries the claims it was signed
/// with.
pub uninterp spec fn jwt_claims_of(token: Seq<char>, secret: Seq<char>) -> Option<
    (u128, Seq<char>, u64, u64),
>;

/// Relies on jsonwebtoken::encode with the default HS256 header: for a
/// symmetric secret the algorithm families always match, HMAC signing is
/// infallible, and these claims always serialize, so the call cannot
/// fail; the returned token decodes under the same secret to exactly the
/// claims given here.
#[verifier::external_body]
fn jwt_encode(sub: u128, role: &str, iat: u64, exp: u64, secret: &str) -> (r: Option<String>)
    ensures
        r is Some,
        r matches Some(t) ==> jwt_claims_of(t@, secret@) == Some((sub, role@, iat, exp)),
{
    let mut m = serde_json::Map::new();
    m.insert("sub".to_string(), serde_json::Value::String(format!("{}", sub)));
    m.insert("role".to_string(), serde_json::Value::String(role.to_string()));
    m.insert("iat".to_string(), serde_json::Value::from(iat));
    m.insert("exp".to_string(), serde_json::Value::from(exp));
    jsonwebtoken::encode(
        &jsonwebtoken::Header::default(),
        &serde_json::Value::Object(m),
        &jsonwebtoken::EncodingKey::from_secret(secret.as_bytes()),
    ).ok()
}

/// Relies on jsonwebtoken::decode with signature validation on and
/// expiry validation off: the result is deterministic in token and
/// secret, and `Some` only for a token whose signature verifies.
#[verifier::external_body]
fn jwt_decode(token: &str, secret: &str) -> (r: Option<(u128, String, u64, u64)>)
    ensures
        match r {
            Some(c) => jwt_claims_of(token@, secret@) == Some((c.0, c.1@, c.2, c.3)),
            None => jwt_claims_of(token@, secret@) is None,
        },
{
    let mut v = jsonwebtoken::Validation::default();
    v.validate_exp = false;
    let d = jsonwebtoken::decode::<serde_json::Value>(
        token,
        &jsonwebtoken::DecodingKey::from_secret(secret.as_bytes()),
        &v,
    ).ok()?;
    let sub = d.claims.get("sub")?.as_str()?.parse::<u128>().ok()?;
    let role = d.claims.get("role")?.as_str()?.to_string();
    let iat = d.claims.get("iat")?.as_u64()?;
    let exp = d.claims.get("exp")?.as_u64()?;
    Some((sub, role, iat, exp))
}

/// The wire name of a role inside token claims.
pub open spec fn spec_role_str(role: UserRole) -> Seq<char> {
    match role {
        UserRole::Admin => "admin"@,
        UserRole::User => "user"@,
    }
}

fn role_as_str(role: UserRole) -> (r: &'static str)
    ensures
        r@ == spec_role_str(role),
{
    match role {
        UserRole::Admin => "admin",
        UserRole::User => "user",
    }
}

/// Signs claims {sub, role, iat = now, exp = now + ttl} with the
/// configured symmetric secret. Succeeds exactly when the expiry fits
/// the clock's width; the only failure is that internal overflow.
pub fn sign_access_token(user_id: u128, role: UserRole, cfg: &AuthConfig, now: u64) -> (r: Result<
    String,
    AppError,
>)
    ensures
        r is Ok <==> (cfg.access_token_ttl_minutes <= u64::MAX / 60 && now <= u64::MAX
            - cfg.access_token_ttl_minutes * 60),
        r matches Ok(t) ==> now + cfg.access_token_ttl_minutes * 60 <= u64::MAX
            && jwt_claims_of(t@, cfg.jwt_secret@) == Some(
            (user_id, spec_role_str(role), now, (now + cfg.access_token_ttl_minutes * 60) as u64),
        ),
        r matches Err(e) ==> e is Internal,
{
    if cfg.access_token_ttl_minutes > u64::MAX / 60 {
        return Err(AppError::Internal(String::from_str("access token lifetime overflows")));
    }
    let ttl_secs = cfg.access_token_ttl_minutes * 60;
    if now > u64::MAX - ttl_secs {
        return Err(AppError::Internal(String::from_str("access token expiry overflows")));
    }
    let exp = now + ttl_secs;
    match jwt_encode(user_id, role_as_str(role), now, exp, cfg.jwt_secret.as_str()) {
        Some(t) => Ok(t),
        None => Err(AppError::Internal(String::from_str("token signing failed"))),
    }
}

/// Verifies signature and expiry, and trusts nothing of the claims
/// before the signature has verified. Every failure collapses to a
/// single `Unauthorized`: the cause is deliberately not leaked.
pub fn decode_access_token(token: &str, cfg: &AuthConfig, now: u64) -> (r: Result<
    Claims,
    AppError,
>)
    ensures
        match r {
            Ok(c) => jwt_claims_of(token@, cfg.jwt_secret@) == Some(
                (c.sub, spec_role_str(c.role), c.iat, c.exp),
            ) && c.exp > now,
            Err(e) => e is Unauthorized,
        },
        match jwt_claims_of(token@, cfg.jwt_secret@) {
            Some(c) => (r is Ok <==> ((c.1 == "admin"@ || c.1 == "user"@) && c.3 > now)),
            None => r is Err,
        },
{
    match jwt_decode(token, cfg.jwt_secret.as_str()) {
        None => Err(AppError::Unauthorized),
        Some((sub, role_s, iat, exp)) => {
            let role = if str_eq(role_s.as_str(), "admin") {
                Some(UserRole::Admin)
            } else if str_eq(role_s.as_str(), "user") {
                Some(UserRole::User)
            } else {
                None
            };
            match role {
                None => Err(AppError::Unauthorized),
                Some(role) => {
                    if exp > now {
                        Ok(Claims { sub, role, exp, iat })
                    } else {
                        Err(AppError::Unauthorized)
                    }
                },
            }
        },
    }
}

// ---------------------------------------------------------------------------
// CSRF double-submit guard
// ---------------------------------------------------------------------------

/// Generates the anti-forgery token paired with a session; random, so
/// nothing is promised of the value.
pub fn generate_csrf_token() -> String {
    random_token()
}

/// The double-submit check: succeeds exactly when both the echoed header
/// and the cookie are present and equal; any absence or mismatch is
/// `Forbidden`.
pub fn verify_csrf(csrf_header: Option<&str>, csrf_cookie: Option<&str>) -> (r: Result<
    (),
    AppError,
>)
    ensures
        r is Ok <==> (csrf_header matches Some(h) && csrf_cookie matches Some(c) && h@ == c@),
        r matches Err(e) ==> e is Forbidden,
{
    match (csrf_header, csrf_cookie) {
        (Some(h), Some(c)) => {
            if str_eq(h, c) {
                Ok(())
            } else {
                Err(AppError::Forbidden)
            }
        },
        _ => Err(AppError::Forbidden),
    }
}

// ---------------------------------------------------------------------------
// Request helpers
// ---------------------------------------------------------------------------

/// Extracts the bearer token from an `Authorization` header value, if
/// the header is present and carries the `Bearer ` scheme.
pub fn bearer_token(authorization: Option<&str>) -> (r: Option<String>)
    ensures
        match r {
            Some(t) => authorization matches Some(h) && spec_starts_with(h@, "Bearer "@) && t@
                == h@.skip("Bearer "@.len() as int),
            None => match authorization {
                Some(h) => !spec_starts_with(h@, "Bearer "@),
                None => true,
            },
        },
{
    match authorization {
        None => None,
        Some(h) => {
            proof {
                reveal_strlit("Bearer ");
            }
            if str_starts_with(h, "Bearer ") {
                let t = h.substring_char(7, h.unicode_len());
                proof {
                    assert(t@ =~= h@.skip(7));
                }
                Some(String::from_str(t))
            } else {
                None
            }
        },
    }
}

/// Gates the administrative listing: only a token asserting the `Admin`
/// role passes; anyone else is `Forbidden`.
pub fn authorize_admin(claims: &Claims) -> (r: Result<(), AppError>)
    ensures
        r is Ok <==> claims.role == UserRole::Admin,
        r matches Err(e) ==> e is Forbidden,
{
    if claims.role == UserRole::Admin {
        Ok(())
    } else {
        Err(AppError::Forbidden)
    }
}

/// A cookie domain that must not be written into cookies: empty,
/// localhost, or a loopback/unspecified address, compared after trimming
/// and ASCII lowercasing.
pub open spec fn spec_local_cookie_domain(d: Seq<char>) -> bool {
    ||| d.len() == 0
    ||| spec_eq_ignore_ascii_case(d, "localhost"@)
    ||| spec_eq_ignore_ascii_case(d, "127.0.0.1"@)
    ||| spec_eq_ignore_ascii_case(d, "0.0.0.0"@)
}

/// Whether session cookies should carry the configured domain: only in
/// production, and only for a real domain.
pub open spec fn spec_should_set_cookie_domain(c: AppConfig) -> bool {
    c.server.env == Environment::Production && !spec_local_cookie_domain(
        spec_trim(c.server.cookie_domain@),
    )
}

pub fn should_set_cookie_domain(config: &AppConfig) -> (r: bool)
    ensures
        r == spec_should_set_cookie_domain(*config),
{
    if !config.server.env.is_prod() {
        return false;
    }
    let domain = str_trim(config.server.cookie_domain.as_str());
    let local = domain.unicode_len() == 0 || eq_ignore_ascii_case(domain, "localhost")
        || eq_ignore_ascii_case(domain, "127.0.0.1") || eq_ignore_ascii_case(domain, "0.0.0.0");
    !local
}

} // verus!
