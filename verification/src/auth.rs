use vstd::prelude::*;
use crate::config::AuthConfig;
use crate::crypto::{fresh_id, fresh_digest_for, password_matches, phc_valid, random_token, token_digest};
use crate::dto::{
    LoginRequest, RegisterRequest, TokenResponse, UserResponse, spec_valid_credentials,
    to_user_response,
};
use crate::error::AppError;
use crate::models::{AuditEventType, NewUser, PasswordService, RefreshToken, User};
use crate::ports::{token_upserted, tokens_removed_id, tokens_removed_user, user_map, AuthRepo};
use crate::security::{jwt_claims_of, sign_access_token, spec_role_str, generate_csrf_token};
use crate::types::{AuditEvent, UserRole};

verus! {

/// The role a registration ends up with when the trusted caller does not
/// override it: the least-privileged one.
pub open spec fn role_or_default(role: Option<UserRole>) -> UserRole {
    match role {
        Some(r) => r,
        None => UserRole::User,
    }
}

/// The audit recorder is best-effort: after an operation the record
/// either is unchanged (the write failed and was swallowed) or carries
/// exactly one new event with the given type, subject and time.
pub open spec fn audit_recorded(
    old_events: Seq<AuditEvent>,
    new_events: Seq<AuditEvent>,
    event_type: Seq<char>,
    user_id: Option<u128>,
    now: i64,
) -> bool {
    ||| new_events == old_events
    ||| exists|ev: AuditEvent|
        new_events == old_events.push(ev) && ev.event_type@ == event_type && ev.user_id == user_id
            && ev.created_at == now && ev.ip is None && ev.user_agent is None
}

/// Generates the raw opaque refresh token handed to the client; random,
/// so nothing is promised of the value.
pub fn generate_refresh_token() -> String {
    random_token()
}

/// Everything a fresh session hands back to the HTTP layer: the signed
/// access token, the raw refresh token (cookie-bound, never stored), the
/// anti-forgery token paired with the session, and the user's public
/// profile.
#[derive(Debug)]
pub struct IssuedSession {
    pub access_token: String,
    pub refresh_token: String,
    pub csrf_token: String,
    pub user: UserResponse,
}

impl IssuedSession {
    /// The response body returned by register, login and refresh; the
    /// raw refresh token travels only in its cookie.
    pub fn to_token_response(&self) -> (r: TokenResponse)
        ensures
            r.access_token == self.access_token,
            r.user == self.user,
            r.csrf_token == self.csrf_token,
    {
        TokenResponse {
            access_token: self.access_token.clone(),
            user: UserResponse {
                id: self.user.id,
                email: self.user.email.clone(),
                role: self.user.role,
                created_at: self.user.created_at,
            },
            csrf_token: self.csrf_token.clone(),
        }
    }
}

/// What `issue_session` guarantees of the refresh ledger: some record
/// with a fresh id, keyed by the digest of the raw token handed out,
/// owned by the user and expiring `ttl_days` after `now`, was stored
/// idempotently.
pub open spec fn session_stored(
    old_tokens: Map<Seq<char>, RefreshToken>,
    new_tokens: Map<Seq<char>, RefreshToken>,
    raw_refresh: Seq<char>,
    user_id: u128,
    ttl_days: u64,
    now: i64,
) -> bool {
    exists|rec: RefreshToken|
        #[trigger] token_upserted(old_tokens, new_tokens, rec) && rec.user_id == user_id
            && rec.token_hash@ == token_digest(raw_refresh) && rec.expires_at == now + ttl_days
            * 86400 && rec.created_at == now
}

/// The session orchestrator: composes the user directory, the credential
/// hasher, the token signer and the refresh ledger into the user-facing
/// operations, and records authentication events best-effort.
pub struct AuthService<R: AuthRepo> {
    pub repo: R,
}

impl<R: AuthRepo> AuthService<R> {
    pub fn new(repo: R) -> (r: Self)
        ensures
            r.repo == repo,
    {
        AuthService { repo }
    }

    /// Registers a new identity: validates the submission, refuses a
    /// duplicate email with `Conflict`, stores the user with a fresh
    /// salted digest, and records `auth.register` best-effort.
    pub fn register(&mut self, input: RegisterRequest, role: Option<UserRole>, now: i64) -> (r:
        Result<User, AppError>)
        requires
            old(self).repo.inv(),
        ensures
            final(self).repo.inv(),
            final(self).repo.tokens() == old(self).repo.tokens(),
            match r {
                Ok(u) => {
                    &&& spec_valid_credentials(input.email@, input.password@)
                    &&& !user_map(old(self).repo.users()).contains_key(input.email@)
                    &&& u.email@ == input.email@
                    &&& u.role == role_or_default(role)
                    &&& u.created_at == now && u.updated_at == now
                    &&& fresh_digest_for(u.password_hash@, input.password@)
                    &&& final(self).repo.users() == old(self).repo.users().push(u)
                    &&& audit_recorded(
                        old(self).repo.events(),
                        final(self).repo.events(),
                        "auth.register"@,
                        Some(u.id),
                        now,
                    )
                },
                Err(e) => {
                    &&& final(self).repo.users() == old(self).repo.users()
                    &&& final(self).repo.events() == old(self).repo.events()
                    &&& (e is Validation || e is Conflict || e is Unavailable || e is Internal)
                    &&& (e is Validation <==> !spec_valid_credentials(input.email@, input.password@))
                    &&& (e is Conflict ==> user_map(old(self).repo.users()).contains_key(
                        input.email@,
                    ))
                    &&& (spec_valid_credentials(input.email@, input.password@) && user_map(
                        old(self).repo.users(),
                    ).contains_key(input.email@) ==> (e is Conflict || e is Unavailable
                        || e is Internal))
                },
            },
            spec_valid_credentials(input.email@, input.password@) && user_map(
                old(self).repo.users(),
            ).contains_key(input.email@) ==> r is Err,
    {
        match input.validate() {
            Ok(_) => {},
            Err(e) => {
                return Err(e);
            },
        }
        match self.repo.find_by_email(input.email.as_str()) {
            Err(e) => {
                return Err(e);
            },
            Ok(Some(existing)) => {
                return Err(
                    AppError::Conflict(
                        String::from_str("user with email ").concat(existing.email.as_str()).concat(
                            " already exists",
                        ),
                    ),
                );
            },
            Ok(None) => {},
        }
        let password_hash = match PasswordService::hash(input.password.as_str()) {
            Ok(h) => h,
            Err(e) => {
                return Err(e);
            },
        };
        let chosen_role = match role {
            Some(r) => r,
            None => UserRole::User,
        };
        let new_user = NewUser { email: input.email, password_hash, role: chosen_role };
        let id = fresh_id();
        let user = match self.repo.create_user(new_user, id, now) {
            Ok(u) => u,
            Err(e) => {
                return Err(e);
            },
        };
        let event_id = fresh_id();
        let event = AuditEvent::new(
            event_id,
            Some(user.id),
            String::from_str(AuditEventType::AuthRegister.as_str()),
            None,
            None,
            now,
        );
        let _ = self.repo.log_event(event);
        Ok(user)
    }

    /// Authenticates a submission. An unknown email and a wrong password
    /// are indistinguishable to the caller: both are `Unauthorized`.
    /// Records `auth.login` on success, best-effort.
    pub fn login(&mut self, input: LoginRequest, now: i64) -> (r: Result<User, AppError>)
        requires
            old(self).repo.inv(),
        ensures
            final(self).repo.inv(),
            final(self).repo.users() == old(self).repo.users(),
            final(self).repo.tokens() == old(self).repo.tokens(),
            match r {
                Ok(u) => {
                    &&& spec_valid_credentials(input.email@, input.password@)
                    &&& user_map(old(self).repo.users()).contains_key(input.email@)
                    &&& u == user_map(old(self).repo.users())[input.email@]
                    &&& phc_valid(u.password_hash@)
                    &&& password_matches(u.password_hash@, input.password@)
                    &&& audit_recorded(
                        old(self).repo.events(),
                        final(self).repo.events(),
                        "auth.login"@,
                        Some(u.id),
                        now,
                    )
                },
                Err(e) => {
                    &&& final(self).repo.events() == old(self).repo.events()
                    &&& (e is Validation || e is Unauthorized || e is Unavailable || e is Internal)
                    &&& (e is Validation <==> !spec_valid_credentials(
                        input.email@,
                        input.password@,
                    ))
                    &&& (e is Unauthorized ==> spec_valid_credentials(input.email@, input.password@))
                    &&& (user_map(old(self).repo.users()).contains_key(input.email@)
                        ==> (e is Unauthorized ==> !(phc_valid(
                        user_map(old(self).repo.users())[input.email@].password_hash@,
                    ) && password_matches(
                        user_map(old(self).repo.users())[input.email@].password_hash@,
                        input.password@,
                    ))))
                    &&& (spec_valid_credentials(input.email@, input.password@) && user_map(
                        old(self).repo.users(),
                    ).contains_key(input.email@) && !(phc_valid(
                        user_map(old(self).repo.users())[input.email@].password_hash@,
                    ) && password_matches(
                        user_map(old(self).repo.users())[input.email@].password_hash@,
                        input.password@,
                    )) ==> (e is Unauthorized || e is Unavailable || e is Internal))
                    &&& (spec_valid_credentials(input.email@, input.password@) && user_map(
                        old(self).repo.users(),
                    ).contains_key(input.email@) && phc_valid(
                        user_map(old(self).repo.users())[input.email@].password_hash@,
                    ) && password_matches(
                        user_map(old(self).repo.users())[input.email@].password_hash@,
                        input.password@,
                    ) ==> (e is Unavailable || e is Internal))
                },
            },
    {
        match input.validate() {
            Ok(_) => {},
            Err(e) => {
                return Err(e);
            },
        }
        let user = match self.repo.find_by_email(input.email.as_str()) {
            Err(e) => {
                return Err(e);
            },
            Ok(None) => {
                return Err(AppError::Unauthorized);
            },
            Ok(Some(u)) => u,
        };
        let matches_digest = match PasswordService::verify(
            user.password_hash.as_str(),
            input.password.as_str(),
        ) {
            Ok(b) => b,
            Err(_) => {
                return Err(AppError::Unauthorized);
            },
        };
        if !matches_digest {
            return Err(AppError::Unauthorized);
        }
        let event_id = fresh_id();
        let event = AuditEvent::new(
            event_id,
            Some(user.id),
            String::from_str(AuditEventType::AuthLogin.as_str()),
            None,
            None,
            now,
        );
        let _ = self.repo.log_event(event);
        Ok(user)
    }

    /// Stores the digest of a freshly generated raw refresh token with
    /// an expiry `ttl_days` from now. The raw token is never persisted.
    pub fn store_refresh_token(
        &mut self,
        user_id: u128,
        refresh_token: &str,
        ttl_days: i64,
        now: i64,
    ) -> (r: Result<RefreshToken, AppError>)
        requires
            old(self).repo.inv(),
        ensures
            final(self).repo.inv(),
            final(self).repo.users() == old(self).repo.users(),
            final(self).repo.events() == old(self).repo.events(),
            match r {
                Ok(t) => {
                    &&& t.user_id == user_id
                    &&& t.token_hash@ == token_digest(refresh_token@)
                    &&& t.created_at == now
                    &&& t.expires_at == now + ttl_days * 86400
                    &&& token_upserted(old(self).repo.tokens(), final(self).repo.tokens(), t)
                },
                Err(e) => final(self).repo.tokens() == old(self).repo.tokens() && (e is Internal
                    || e is Unavailable),
            },
    {
        let expires128: i128 = now as i128 + (ttl_days as i128) * 86400;
        if expires128 > i64::MAX as i128 || expires128 < i64::MIN as i128 {
            return Err(
                AppError::Internal(String::from_str("failed to compute refresh token expiry")),
            );
        }
        let expires_at = expires128 as i64;
        let token = RefreshToken::from_raw(user_id, refresh_token, expires_at, now);
        match self.repo.store_refresh_token(&token) {
            Ok(_) => Ok(token),
            Err(e) => Err(e),
        }
    }

    /// Looks a presented raw token up by its digest. An unknown digest
    /// is `Unauthorized`; an expired record is `Unauthorized` and is
    /// deleted as passive cleanup, best-effort.
    pub fn validate_refresh_token(&mut self, raw_token: &str, now: i64) -> (r: Result<
        RefreshToken,
        AppError,
    >)
        requires
            old(self).repo.inv(),
        ensures
            final(self).repo.inv(),
            final(self).repo.users() == old(self).repo.users(),
            final(self).repo.events() == old(self).repo.events(),
            match r {
                Ok(t) => {
                    &&& old(self).repo.tokens().contains_key(token_digest(raw_token@))
                    &&& t == old(self).repo.tokens()[token_digest(raw_token@)]
                    &&& t.expires_at >= now
                    &&& final(self).repo.tokens() == old(self).repo.tokens()
                },
                Err(e) => {
                    &&& (e is Unauthorized ==> (!old(self).repo.tokens().contains_key(
                        token_digest(raw_token@),
                    ) || old(self).repo.tokens()[token_digest(raw_token@)].expires_at < now))
                    &&& (!old(self).repo.tokens().contains_key(token_digest(raw_token@))
                        ==> (e is Unauthorized || e is Unavailable || e is Internal)
                            && final(self).repo.tokens() == old(self).repo.tokens())
                    &&& (old(self).repo.tokens().contains_key(token_digest(raw_token@))
                        ==> if old(self).repo.tokens()[token_digest(raw_token@)].expires_at < now {
                        // Rejected as expired, with best-effort cleanup; or
                        // the lookup itself failed, changing nothing.
                        (e is Unauthorized && (tokens_removed_id(
                            old(self).repo.tokens(),
                            final(self).repo.tokens(),
                            old(self).repo.tokens()[token_digest(raw_token@)].id,
                        ) || final(self).repo.tokens() == old(self).repo.tokens())) || ((
                        e is Unavailable || e is Internal) && final(self).repo.tokens() == old(
                            self,
                        ).repo.tokens())
                    } else {
                        (e is Unavailable || e is Internal) && final(self).repo.tokens() == old(
                            self,
                        ).repo.tokens()
                    })
                },
            },
            // A token with no stored digest can never be accepted, and an
            // expired one is always rejected.
            !old(self).repo.tokens().contains_key(token_digest(raw_token@)) ==> r is Err,
            old(self).repo.tokens().contains_key(token_digest(raw_token@)) && old(
                self,
            ).repo.tokens()[token_digest(raw_token@)].expires_at < now ==> r is Err,
    {
        let token_hash = RefreshToken::hash(raw_token);
        let found = match self.repo.find_refresh_token(token_hash.as_str()) {
            Err(e) => {
                return Err(e);
            },
            Ok(found) => found,
        };
        match found {
            None => Err(AppError::Unauthorized),
            Some(token) => {
                if token.expires_at < now {
                    let _ = self.repo.delete_refresh_token(token.id);
                    Err(AppError::Unauthorized)
                } else {
                    Ok(token)
                }
            },
        }
    }

    /// Deletes every refresh token of the user: "log out everywhere".
    /// Access tokens already issued stay valid until their natural
    /// expiry.
    pub fn revoke_all(&mut self, user_id: u128) -> (r: Result<(), AppError>)
        requires
            old(self).repo.inv(),
        ensures
            final(self).repo.inv(),
            final(self).repo.users() == old(self).repo.users(),
            final(self).repo.events() == old(self).repo.events(),
            match r {
                Ok(_) => tokens_removed_user(
                    old(self).repo.tokens(),
                    final(self).repo.tokens(),
                    user_id,
                ),
                Err(e) => final(self).repo.tokens() == old(self).repo.tokens() && (e is Unavailable
                    || e is Internal),
            },
    {
        self.repo.delete_tokens_for_user(user_id)
    }

    /// Deletes the record matching a presented raw token; a token with
    /// no record is already logged out, which is success.
    pub fn logout(&mut self, raw_token: &str) -> (r: Result<(), AppError>)
        requires
            old(self).repo.inv(),
        ensures
            final(self).repo.inv(),
            final(self).repo.users() == old(self).repo.users(),
            final(self).repo.events() == old(self).repo.events(),
            match r {
                Ok(_) => {
                    if old(self).repo.tokens().contains_key(token_digest(raw_token@)) {
                        tokens_removed_id(
                            old(self).repo.tokens(),
                            final(self).repo.tokens(),
                            old(self).repo.tokens()[token_digest(raw_token@)].id,
                        )
                    } else {
                        final(self).repo.tokens() == old(self).repo.tokens()
                    }
                },
                Err(e) => (e is Unavailable || e is Internal) && final(self).repo.tokens() == old(
                    self,
                ).repo.tokens(),
            },
    {
        let token_hash = RefreshToken::hash(raw_token);
        match self.repo.find_refresh_token(token_hash.as_str()) {
            Err(e) => Err(e),
            Ok(None) => Ok(()),
            Ok(Some(token)) => {
                match self.repo.delete_refresh_token(token.id) {
                    Ok(_) => Ok(()),
                    Err(e) => Err(e),
                }
            },
        }
    }

    /// Materializes a session for an established identity: signs an
    /// access token, generates and stores a refresh token, and pairs a
    /// fresh CSRF token with it. Invoked after register, login and a
    /// valid refresh.
    pub fn issue_session(&mut self, user: &User, cfg: &AuthConfig, now: i64) -> (r: Result<
        IssuedSession,
        AppError,
    >)
        requires
            old(self).repo.inv(),
            now >= 0,
        ensures
            final(self).repo.inv(),
            final(self).repo.users() == old(self).repo.users(),
            final(self).repo.events() == old(self).repo.events(),
            match r {
                Ok(s) => {
                    &&& jwt_claims_of(s.access_token@, cfg.jwt_secret@) == Some(
                        (
                            user.id,
                            spec_role_str(user.role),
                            now as u64,
                            (now + cfg.access_token_ttl_minutes * 60) as u64,
                        ),
                    )
                    &&& now + cfg.access_token_ttl_minutes * 60 <= u64::MAX
                    &&& s.user.id == user.id && s.user.email == user.email && s.user.role
                        == user.role && s.user.created_at == user.created_at
                    &&& session_stored(
                        old(self).repo.tokens(),
                        final(self).repo.tokens(),
                        s.refresh_token@,
                        user.id,
                        cfg.refresh_token_ttl_days,
                        now,
                    )
                },
                Err(e) => {
                    &&& final(self).repo.tokens() == old(self).repo.tokens()
                    &&& (e is Internal || e is Unavailable)
                },
            },
    {
        let access_token = match sign_access_token(user.id, user.role, cfg, now as u64) {
            Ok(t) => t,
            Err(e) => {
                return Err(e);
            },
        };
        let refresh_raw = generate_refresh_token();
        if cfg.refresh_token_ttl_days > i64::MAX as u64 {
            return Err(AppError::Internal(String::from_str("refresh token lifetime overflows")));
        }
        let stored = match self.store_refresh_token(
            user.id,
            refresh_raw.as_str(),
            cfg.refresh_token_ttl_days as i64,
            now,
        ) {
            Ok(t) => t,
            Err(e) => {
                return Err(e);
            },
        };
        let csrf_token = generate_csrf_token();
        Ok(
            IssuedSession {
                access_token,
                refresh_token: refresh_raw,
                csrf_token,
                user: to_user_response(user),
            },
        )
    }

    /// The rotation algorithm: a presented raw token that is absent or
    /// expired fails `Unauthorized` (an expired record is deleted as
    /// passive cleanup); a valid one is deleted, and a brand-new access
    /// token, refresh token and CSRF token are issued. The old raw token
    /// is unusable the instant rotation succeeds.
    pub fn refresh(&mut self, raw_token: &str, cfg: &AuthConfig, now: i64) -> (r: Result<
        IssuedSession,
        AppError,
    >)
        requires
            old(self).repo.inv(),
            now >= 0,
        ensures
            final(self).repo.inv(),
            final(self).repo.users() == old(self).repo.users(),
            final(self).repo.events() == old(self).repo.events(),
            match r {
                Ok(s) => {
                    &&& old(self).repo.tokens().contains_key(token_digest(raw_token@))
                    &&& old(self).repo.tokens()[token_digest(raw_token@)].expires_at >= now
                    &&& s.user.id == old(self).repo.tokens()[token_digest(raw_token@)].user_id
                    &&& jwt_claims_of(s.access_token@, cfg.jwt_secret@) == Some(
                        (
                            s.user.id,
                            spec_role_str(s.user.role),
                            now as u64,
                            (now + cfg.access_token_ttl_minutes * 60) as u64,
                        ),
                    )
                    &&& exists|mid: Map<Seq<char>, RefreshToken>|
                        #[trigger] tokens_removed_id(
                            old(self).repo.tokens(),
                            mid,
                            old(self).repo.tokens()[token_digest(raw_token@)].id,
                        ) && session_stored(
                            mid,
                            final(self).repo.tokens(),
                            s.refresh_token@,
                            s.user.id,
                            cfg.refresh_token_ttl_days,
                            now,
                        )
                    &&& (token_digest(s.refresh_token@) != token_digest(raw_token@)
                        ==> !final(self).repo.tokens().contains_key(token_digest(raw_token@)))
                },
                Err(e) => {
                    &&& (e is Unauthorized || e is Unavailable || e is Internal)
                    // Unauthorized only for a dead session: the digest was
                    // never stored or already rotated away, the record
                    // expired, or its owner no longer exists.
                    &&& (e is Unauthorized ==> (!old(self).repo.tokens().contains_key(
                        token_digest(raw_token@),
                    ) || old(self).repo.tokens()[token_digest(raw_token@)].expires_at < now || (
                    forall|i: int|
                        0 <= i < old(self).repo.users().len() ==> (#[trigger] old(
                            self,
                        ).repo.users()[i]).id != old(self).repo.tokens()[token_digest(
                            raw_token@,
                        )].user_id)))
                    // Atomic from the caller's view: on failure the ledger
                    // is unchanged, except the passive cleanup of an
                    // expired record, except a storage failure between the
                    // delete and the store of a valid rotation.
                    &&& (final(self).repo.tokens() == old(self).repo.tokens() || (old(
                        self,
                    ).repo.tokens().contains_key(token_digest(raw_token@)) && tokens_removed_id(
                        old(self).repo.tokens(),
                        final(self).repo.tokens(),
                        old(self).repo.tokens()[token_digest(raw_token@)].id,
                    ) && (if old(self).repo.tokens()[token_digest(raw_token@)].expires_at < now {
                        e is Unauthorized
                    } else {
                        e is Unavailable || e is Internal
                    })))
                },
            },
            // A raw token whose digest is absent - never stored, already
            // rotated, or revoked - is always refused.
            !old(self).repo.tokens().contains_key(token_digest(raw_token@)) ==> r is Err,
            // An expired token is always refused.
            old(self).repo.tokens().contains_key(token_digest(raw_token@)) && old(
                self,
            ).repo.tokens()[token_digest(raw_token@)].expires_at < now ==> r is Err,
    {
        let old_record = match self.validate_refresh_token(raw_token, now) {
            Ok(t) => t,
            Err(e) => {
                return Err(e);
            },
        };
        // The owner must still exist before the old record is retired:
        // a failed lookup must not kill a still-valid session.
        let user = match self.repo.find_by_id(old_record.user_id) {
            Err(e) => {
                return Err(e);
            },
            Ok(None) => {
                return Err(AppError::Unauthorized);
            },
            Ok(Some(u)) => u,
        };
        // Rotate: the old record dies before the new session is minted.
        match self.logout(raw_token) {
            Ok(_) => {},
            Err(e) => {
                return Err(e);
            },
        }
        let ghost mid = self.repo.tokens();
        match self.issue_session(&user, cfg, now) {
            Ok(s) => {
                proof {
                    assert(tokens_removed_id(
                        old(self).repo.tokens(),
                        mid,
                        old(self).repo.tokens()[token_digest(raw_token@)].id,
                    ) && session_stored(
                        mid,
                        self.repo.tokens(),
                        s.refresh_token@,
                        s.user.id,
                        cfg.refresh_token_ttl_days,
                        now,
                    ));
                }
                Ok(s)
            },
            Err(e) => Err(e),
        }
    }

    /// Resolves a bearer access token to the user it asserts: checks
    /// signature and expiry, then looks the subject up. Every
    /// authentication failure is the same `Unauthorized`.
    pub fn me(&self, token: &str, cfg: &AuthConfig, now: i64) -> (r: Result<
        UserResponse,
        AppError,
    >)
        requires
            self.repo.inv(),
            now >= 0,
        ensures
            match r {
                Ok(ur) => {
                    &&& (match jwt_claims_of(token@, cfg.jwt_secret@) {
                        Some(c) => c.0 == ur.id && c.3 > now as u64,
                        None => false,
                    })
                    &&& exists|i: int|
                        0 <= i < self.repo.users().len() && (#[trigger] self.repo.users()[i]).id
                            == ur.id && ur.email == self.repo.users()[i].email && ur.role
                            == self.repo.users()[i].role && ur.created_at
                            == self.repo.users()[i].created_at
                },
                Err(e) => {
                    &&& (e is Unauthorized || e is Unavailable || e is Internal)
                    // Unauthorized only for a bad token: unverifiable,
                    // expired, an unrecognized role, or a subject that no
                    // longer exists.
                    &&& (e is Unauthorized ==> (match jwt_claims_of(token@, cfg.jwt_secret@) {
                        None => true,
                        Some(c) => c.3 <= now as u64 || (c.1 != "admin"@ && c.1 != "user"@) || (
                        forall|i: int|
                            0 <= i < self.repo.users().len() ==> (#[trigger] self.repo.users()[i]).id
                                != c.0),
                    }))
                },
            },
            jwt_claims_of(token@, cfg.jwt_secret@) is None ==> r is Err,
    {
        let claims = match crate::security::decode_access_token(token, cfg, now as u64) {
            Ok(c) => c,
            Err(_) => {
                return Err(AppError::Unauthorized);
            },
        };
        match self.repo.find_by_id(claims.sub) {
            Err(e) => Err(e),
            Ok(None) => Err(AppError::Unauthorized),
            Ok(Some(user)) => Ok(to_user_response(&user)),
        }
    }
}

} // verus!
