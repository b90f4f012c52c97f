use vstd::prelude::*;
use crate::error::AppError;
use crate::models::{NewUser, RefreshToken, User};
use crate::types::AuditEvent;

verus! {

// ---------------------------------------------------------------------------
// The mathematical model of the three storage capabilities
// ---------------------------------------------------------------------------

/// The user directory as a map from email to record, derived from the
/// storage order.
pub open spec fn user_map(s: Seq<User>) -> Map<Seq<char>, User>
    decreases s.len(),
{
    if s.len() == 0 {
        Map::<Seq<char>, User>::empty()
    } else {
        user_map(s.drop_last()).insert(s.last().email@, s.last())
    }
}

/// Email uniqueness, the directory's storage-level constraint.
pub open spec fn emails_unique(s: Seq<User>) -> bool {
    forall|i: int, j: int| 0 <= i < j < s.len() ==> s[i].email@ != s[j].email@
}

/// The ledger after deleting every record with the given id; all other
/// entries are untouched.
pub open spec fn tokens_removed_id(
    m_old: Map<Seq<char>, RefreshToken>,
    m_new: Map<Seq<char>, RefreshToken>,
    id: u128,
) -> bool {
    &&& forall|h: Seq<char>| #[trigger] m_new.contains_key(h) <==> m_old.contains_key(h)
        && m_old[h].id != id
    &&& forall|h: Seq<char>| #[trigger] m_new.contains_key(h) ==> m_new[h] == m_old[h]
}

/// The ledger after deleting every record owned by the given user.
pub open spec fn tokens_removed_user(
    m_old: Map<Seq<char>, RefreshToken>,
    m_new: Map<Seq<char>, RefreshToken>,
    user_id: u128,
) -> bool {
    &&& forall|h: Seq<char>| #[trigger] m_new.contains_key(h) <==> m_old.contains_key(h)
        && m_old[h].user_id != user_id
    &&& forall|h: Seq<char>| #[trigger] m_new.contains_key(h) ==> m_new[h] == m_old[h]
}

/// The ledger after an idempotent store of `rec`: a digest conflict only
/// refreshes the existing record's expiry, a fresh digest inserts the
/// record; nothing else changes.
pub open spec fn token_upserted(
    m_old: Map<Seq<char>, RefreshToken>,
    m_new: Map<Seq<char>, RefreshToken>,
    rec: RefreshToken,
) -> bool {
    &&& m_new.contains_key(rec.token_hash@)
    &&& if m_old.contains_key(rec.token_hash@) {
        m_new[rec.token_hash@] == RefreshToken { expires_at: rec.expires_at, ..m_old[rec.token_hash@] }
    } else {
        m_new[rec.token_hash@] == rec
    }
    &&& forall|k: Seq<char>|
        k != rec.token_hash@ ==> (#[trigger] m_new.contains_key(k) <==> m_old.contains_key(k))
    &&& forall|k: Seq<char>|
        k != rec.token_hash@ && #[trigger] m_new.contains_key(k) ==> m_new[k] == m_old[k]
}

/// Newest records first: the order a listing presents the directory in.
pub open spec fn sorted_by_created_desc(s: Seq<User>) -> bool {
    forall|i: int, j: int| 0 <= i < j < s.len() ==> s[i].created_at >= s[j].created_at
}

/// The slice of the directory that one page of a listing returns.
pub open spec fn page_slice(s: Seq<User>, page: i64, per_page: i64) -> Seq<User> {
    let off = if page >= 1 {
        (page - 1) * per_page
    } else {
        0int
    };
    let lo = if off > s.len() {
        s.len() as int
    } else {
        off
    };
    let hi = if off + per_page > s.len() {
        s.len() as int
    } else {
        off + per_page
    };
    s.subrange(lo, hi)
}

// ---------------------------------------------------------------------------
// The storage capability, one trait per repository
// ---------------------------------------------------------------------------

/// The abstract state every repository implementation exposes: the user
/// directory in storage order, the refresh ledger keyed by digest, the
/// audit record in append order, and the implementation's invariant.
pub trait RepoState: Sized {
    spec fn users(&self) -> Seq<User>;

    spec fn tokens(&self) -> Map<Seq<char>, RefreshToken>;

    spec fn events(&self) -> Seq<AuditEvent>;

    spec fn inv(&self) -> bool;
}

/// The user directory: creation and lookup of identity records, with
/// email uniqueness enforced by the store itself, not by callers.
pub trait UserRepository: RepoState {
    /// Inserts a record built from `new_user` with the given id and
    /// timestamps. A duplicate email is rejected atomically as `Conflict`;
    /// any failure leaves the store unchanged.
    fn create_user(&mut self, new_user: NewUser, id: u128, now: i64) -> (r: Result<
        User,
        AppError,
    >)
        requires
            old(self).inv(),
        ensures
            final(self).inv(),
            final(self).tokens() == old(self).tokens(),
            final(self).events() == old(self).events(),
            match r {
                Ok(u) => {
                    &&& !user_map(old(self).users()).contains_key(new_user.email@)
                    &&& u == (User {
                        id,
                        email: new_user.email,
                        password_hash: new_user.password_hash,
                        role: new_user.role,
                        created_at: now,
                        updated_at: now,
                    })
                    &&& final(self).users() == old(self).users().push(u)
                },
                Err(e) => {
                    &&& final(self).users() == old(self).users()
                    &&& (e is Conflict || e is Unavailable || e is Internal)
                    &&& (e is Conflict <==> user_map(old(self).users()).contains_key(
                        new_user.email@,
                    ))
                },
            },
            user_map(old(self).users()).contains_key(new_user.email@) ==> r is Err,
    ;

    /// Looks an identity record up by its exact, case-sensitive email.
    fn find_by_email(&self, email: &str) -> (r: Result<Option<User>, AppError>)
        requires
            self.inv(),
        ensures
            match r {
                Ok(Some(u)) => user_map(self.users()).contains_key(email@) && u == user_map(
                    self.users(),
                )[email@],
                Ok(None) => !user_map(self.users()).contains_key(email@),
                Err(e) => e is Unavailable || e is Internal,
            },
    ;

    /// Looks an identity record up by id.
    fn find_by_id(&self, id: u128) -> (r: Result<Option<User>, AppError>)
        requires
            self.inv(),
        ensures
            match r {
                Ok(Some(u)) => u.id == id && exists|i: int|
                    0 <= i < self.users().len() && self.users()[i] == u,
                Ok(None) => forall|i: int|
                    0 <= i < self.users().len() ==> (#[trigger] self.users()[i]).id != id,
                Err(e) => e is Unavailable || e is Internal,
            },
    ;

    /// One page of the directory, newest records first, together with
    /// the total number of records. The order among records created at
    /// the same instant is the store's choice.
    fn list_users(&self, page: i64, per_page: i64) -> (r: Result<(Vec<User>, i64), AppError>)
        requires
            self.inv(),
        ensures
            per_page < 0 ==> r is Err,
            match r {
                Ok(p) => {
                    &&& per_page >= 0
                    &&& self.users().len() <= i64::MAX
                    &&& p.1 == self.users().len() as i64
                    &&& exists|sorted: Seq<User>|
                        #![trigger page_slice(sorted, page, per_page)]
                        sorted.to_multiset() == self.users().to_multiset()
                            && sorted_by_created_desc(sorted) && p.0@ == page_slice(
                            sorted,
                            page,
                            per_page,
                        )
                },
                Err(e) => e is Unavailable || e is Internal,
            },
    ;
}

/// The refresh ledger: opaque token digests with expiry, under single
/// lookup-by-digest, delete-by-id and delete-all-for-user.
pub trait RefreshTokenRepository: RepoState {
    /// Stores a record idempotently: a digest conflict refreshes the
    /// existing record's expiry instead of failing, so retried writes
    /// cannot corrupt state.
    fn store_refresh_token(&mut self, token: &RefreshToken) -> (r: Result<(), AppError>)
        requires
            old(self).inv(),
        ensures
            final(self).inv(),
            final(self).users() == old(self).users(),
            final(self).events() == old(self).events(),
            match r {
                Ok(_) => token_upserted(old(self).tokens(), final(self).tokens(), *token),
                Err(e) => final(self).tokens() == old(self).tokens() && (e is Unavailable
                    || e is Internal),
            },
    ;

    /// Looks a record up by the digest of a presented raw token.
    fn find_refresh_token(&self, token_hash: &str) -> (r: Result<Option<RefreshToken>, AppError>)
        requires
            self.inv(),
        ensures
            match r {
                Ok(Some(t)) => self.tokens().contains_key(token_hash@) && t == self.tokens()[token_hash@],
                Ok(None) => !self.tokens().contains_key(token_hash@),
                Err(e) => e is Unavailable || e is Internal,
            },
    ;

    /// Deletes the record with the given id, if any.
    fn delete_refresh_token(&mut self, id: u128) -> (r: Result<(), AppError>)
        requires
            old(self).inv(),
        ensures
            final(self).inv(),
            final(self).users() == old(self).users(),
            final(self).events() == old(self).events(),
            match r {
                Ok(_) => tokens_removed_id(old(self).tokens(), final(self).tokens(), id),
                Err(e) => final(self).tokens() == old(self).tokens() && (e is Unavailable
                    || e is Internal),
            },
    ;

    /// Deletes every record owned by the given user ("log out
    /// everywhere").
    fn delete_tokens_for_user(&mut self, user_id: u128) -> (r: Result<(), AppError>)
        requires
            old(self).inv(),
        ensures
            final(self).inv(),
            final(self).users() == old(self).users(),
            final(self).events() == old(self).events(),
            match r {
                Ok(_) => tokens_removed_user(old(self).tokens(), final(self).tokens(), user_id),
                Err(e) => final(self).tokens() == old(self).tokens() && (e is Unavailable
                    || e is Internal),
            },
    ;
}

/// The audit recorder: append-only; a failed write changes nothing and is
/// the caller's to swallow.
pub trait AuditLogRepository: RepoState {
    fn log_event(&mut self, event: AuditEvent) -> (r: Result<(), AppError>)
        requires
            old(self).inv(),
        ensures
            final(self).inv(),
            final(self).users() == old(self).users(),
            final(self).tokens() == old(self).tokens(),
            match r {
                Ok(_) => final(self).events() == old(self).events().push(event),
                Err(e) => final(self).events() == old(self).events() && (e is Unavailable
                    || e is Internal),
            },
    ;
}

/// The full storage capability the session orchestrator needs; one
/// implementation may satisfy all three repositories at once.
pub trait AuthRepo: UserRepository + RefreshTokenRepository + AuditLogRepository {

}

} // verus!
