use vstd::prelude::*;
use crate::error::AppError;
use crate::models::{NewUser, RefreshToken, User};
use crate::ports::{
    emails_unique, page_slice, sorted_by_created_desc, token_upserted, tokens_removed_id,
    tokens_removed_user, user_map, AuditLogRepository, AuthRepo, RefreshTokenRepository,
    RepoState, UserRepository,
};
use crate::types::AuditEvent;
use crate::validate::str_eq;

verus! {

// ---------------------------------------------------------------------------
// Model helpers
// ---------------------------------------------------------------------------

/// The refresh ledger as a map from digest to record, derived from the
/// storage order.
pub open spec fn token_map(s: Seq<RefreshToken>) -> Map<Seq<char>, RefreshToken>
    decreases s.len(),
{
    if s.len() == 0 {
        Map::<Seq<char>, RefreshToken>::empty()
    } else {
        token_map(s.drop_last()).insert(s.last().token_hash@, s.last())
    }
}

/// Digest uniqueness, the ledger's storage-level constraint.
pub open spec fn hashes_unique(s: Seq<RefreshToken>) -> bool {
    forall|i: int, j: int| 0 <= i < j < s.len() ==> s[i].token_hash@ != s[j].token_hash@
}

/// How `user_map` relates to the record sequence it is built from: a key
/// is present exactly when some record carries it, and under email
/// uniqueness each record is found under its own email.
pub proof fn lemma_user_map_properties(s: Seq<User>)
    requires
        emails_unique(s),
    ensures
        forall|e: Seq<char>| #[trigger] user_map(s).contains_key(e) ==> exists|i: int|
            0 <= i < s.len() && s[i].email@ == e,
        forall|i: int|
            0 <= i < s.len() ==> user_map(s).contains_key((#[trigger] s[i]).email@) && user_map(
                s,
            )[s[i].email@] == s[i],
    decreases s.len(),
{
    if s.len() > 0 {
        let s0 = s.drop_last();
        assert(emails_unique(s0)) by {
            assert(forall|i: int| 0 <= i < s0.len() ==> s0[i] == s[i]);
        }
        lemma_user_map_properties(s0);
        assert forall|e: Seq<char>| #[trigger] user_map(s).contains_key(e) implies exists|i: int|
            0 <= i < s.len() && s[i].email@ == e by {
            if e == s.last().email@ {
                assert(s[s.len() - 1].email@ == e);
            } else {
                assert(user_map(s0).contains_key(e));
                let i = choose|i: int| 0 <= i < s0.len() && s0[i].email@ == e;
                assert(s[i].email@ == e);
            }
        }
        assert forall|i: int| 0 <= i < s.len() implies user_map(s).contains_key(
            (#[trigger] s[i]).email@,
        ) && user_map(s)[s[i].email@] == s[i] by {
            if i == s.len() - 1 {
                assert(s.last() == s[i]);
            } else {
                assert(s0[i] == s[i]);
                assert(user_map(s0).contains_key(s[i].email@) && user_map(s0)[s[i].email@]
                    == s[i]);
                assert(s[i].email@ != s.last().email@);
            }
        }
    }
}

/// The same relation for the refresh ledger, keyed by digest.
pub proof fn lemma_token_map_properties(s: Seq<RefreshToken>)
    requires
        hashes_unique(s),
    ensures
        forall|h: Seq<char>| #[trigger] token_map(s).contains_key(h) ==> exists|i: int|
            0 <= i < s.len() && s[i].token_hash@ == h,
        forall|i: int|
            0 <= i < s.len() ==> token_map(s).contains_key((#[trigger] s[i]).token_hash@)
                && token_map(s)[s[i].token_hash@] == s[i],
    decreases s.len(),
{
    if s.len() > 0 {
        let s0 = s.drop_last();
        assert(hashes_unique(s0)) by {
            assert(forall|i: int| 0 <= i < s0.len() ==> s0[i] == s[i]);
        }
        lemma_token_map_properties(s0);
        assert forall|h: Seq<char>| #[trigger] token_map(s).contains_key(h) implies exists|i: int|
            0 <= i < s.len() && s[i].token_hash@ == h by {
            if h == s.last().token_hash@ {
                assert(s[s.len() - 1].token_hash@ == h);
            } else {
                assert(token_map(s0).contains_key(h));
                let i = choose|i: int| 0 <= i < s0.len() && s0[i].token_hash@ == h;
                assert(s[i].token_hash@ == h);
            }
        }
        assert forall|i: int| 0 <= i < s.len() implies token_map(s).contains_key(
            (#[trigger] s[i]).token_hash@,
        ) && token_map(s)[s[i].token_hash@] == s[i] by {
            if i == s.len() - 1 {
                assert(s.last() == s[i]);
            } else {
                assert(s0[i] == s[i]);
                assert(token_map(s0).contains_key(s[i].token_hash@) && token_map(
                    s0,
                )[s[i].token_hash@] == s[i]);
                assert(s[i].token_hash@ != s.last().token_hash@);
            }
        }
    }
}

/// Inserting a record anywhere adds exactly one occurrence to the
/// record multiset.
proof fn lemma_insert_to_multiset(s: Seq<User>, i: int, x: User)
    requires
        0 <= i <= s.len(),
    ensures
        s.insert(i, x).to_multiset() == s.to_multiset().insert(x),
{
    broadcast use vstd::seq_lib::group_to_multiset_ensures;

    let a = s.take(i);
    let b = s.skip(i);
    assert(s =~= a + b);
    assert(s.insert(i, x) =~= a.push(x) + b);
    vstd::seq_lib::lemma_multiset_commutative(a, b);
    vstd::seq_lib::lemma_multiset_commutative(a.push(x), b);
    assert(s.insert(i, x).to_multiset() =~= s.to_multiset().insert(x));
}

/// Where a record of this age joins a newest-first sequence: the first
/// position already holding an older record.
fn insert_pos_desc(out: &Vec<User>, created_at: i64) -> (j: usize)
    requires
        sorted_by_created_desc(out@),
    ensures
        j <= out@.len(),
        forall|k: int| 0 <= k < j ==> (#[trigger] out@[k]).created_at >= created_at,
        j < out@.len() ==> out@[j as int].created_at < created_at,
{
    let m = out.len();
    let mut j: usize = 0;
    while j < m
        invariant
            m == out@.len(),
            j <= m,
            forall|k: int| 0 <= k < j ==> (#[trigger] out@[k]).created_at >= created_at,
        decreases m - j,
    {
        if out[j].created_at < created_at {
            return j;
        }
        j = j + 1;
    }
    j
}

/// A newest-first copy of the directory records: same records, sorted by
/// creation time descending.
fn sorted_copy_desc(src: &Vec<User>) -> (out: Vec<User>)
    ensures
        out@.len() == src@.len(),
        sorted_by_created_desc(out@),
        out@.to_multiset() == src@.to_multiset(),
{
    let n = src.len();
    let mut out: Vec<User> = Vec::new();
    proof {
        assert(out@ =~= src@.take(0));
    }
    let mut i: usize = 0;
    while i < n
        invariant
            n == src@.len(),
            i <= n,
            out@.len() == i,
            sorted_by_created_desc(out@),
            out@.to_multiset() == src@.take(i as int).to_multiset(),
        decreases n - i,
    {
        let x = src[i].clone();
        let j = insert_pos_desc(&out, x.created_at);
        let ghost before = out@;
        out.insert(j, x);
        proof {
            broadcast use vstd::seq_lib::group_to_multiset_ensures;

            assert(out@ == before.insert(j as int, x));
            lemma_insert_to_multiset(before, j as int, x);
            assert(src@.take(i + 1) =~= src@.take(i as int).push(src@[i as int]));
            assert(out@.to_multiset() =~= src@.take(i + 1).to_multiset());
            before.insert_ensures(j as int, x);
            assert forall|a: int, b: int|
                0 <= a < b < out@.len() implies out@[a].created_at >= out@[b].created_at by {
                if b < j {
                    assert(out@[a] == before[a] && out@[b] == before[b]);
                } else if b == j {
                    assert(out@[a] == before[a] && out@[b] == x);
                } else if a < j {
                    assert(out@[a] == before[a] && out@[b] == before[b - 1]);
                    assert(j <= b - 1);
                } else if a == j {
                    assert(out@[a] == x && out@[b] == before[b - 1]);
                    assert(before[j as int].created_at < x.created_at);
                    assert(before[b - 1].created_at <= before[j as int].created_at);
                } else {
                    assert(out@[a] == before[a - 1] && out@[b] == before[b - 1]);
                }
            }
        }
        i = i + 1;
    }
    proof {
        assert(src@.take(n as int) =~= src@);
    }
    out
}

// ---------------------------------------------------------------------------
// The in-memory store
// ---------------------------------------------------------------------------

/// An in-memory implementation of all three repository capabilities,
/// verified against the same contracts a durable store would have to
/// meet.
pub struct MemoryStore {
    user_vec: Vec<User>,
    token_vec: Vec<RefreshToken>,
    event_vec: Vec<AuditEvent>,
}

impl MemoryStore {
    pub fn new() -> (r: MemoryStore)
        ensures
            r.inv(),
            r.users() == Seq::<User>::empty(),
            r.tokens() == Map::<Seq<char>, RefreshToken>::empty(),
            r.events() == Seq::<AuditEvent>::empty(),
    {
        MemoryStore { user_vec: Vec::new(), token_vec: Vec::new(), event_vec: Vec::new() }
    }
}

impl RepoState for MemoryStore {
    closed spec fn users(&self) -> Seq<User> {
        self.user_vec@
    }

    closed spec fn tokens(&self) -> Map<Seq<char>, RefreshToken> {
        token_map(self.token_vec@)
    }

    closed spec fn events(&self) -> Seq<AuditEvent> {
        self.event_vec@
    }

    closed spec fn inv(&self) -> bool {
        emails_unique(self.user_vec@) && hashes_unique(self.token_vec@)
    }
}

impl UserRepository for MemoryStore {
    fn create_user(&mut self, new_user: NewUser, id: u128, now: i64) -> (r: Result<
        User,
        AppError,
    >) {
        let n = self.user_vec.len();
        let mut i: usize = 0;
        while i < n
            invariant
                n == self.user_vec@.len(),
                i <= n,
                self.inv(),
                self == old(self),
                forall|j: int| 0 <= j < i ==> (#[trigger] self.user_vec@[j]).email@ != new_user.email@,
            decreases n - i,
        {
            if str_eq(self.user_vec[i].email.as_str(), new_user.email.as_str()) {
                proof {
                    lemma_user_map_properties(self.user_vec@);
                }
                return Err(
                    AppError::Conflict(
                        String::from_str("user with email ").concat(new_user.email.as_str()).concat(
                            " already exists",
                        ),
                    ),
                );
            }
            i = i + 1;
        }
        proof {
            lemma_user_map_properties(self.user_vec@);
            if user_map(self.user_vec@).contains_key(new_user.email@) {
                let w = choose|w: int|
                    0 <= w < self.user_vec@.len() && self.user_vec@[w].email@ == new_user.email@;
                assert(false);
            }
        }
        let u = User {
            id,
            email: new_user.email,
            password_hash: new_user.password_hash,
            role: new_user.role,
            created_at: now,
            updated_at: now,
        };
        let ghost before = self.user_vec@;
        self.user_vec.push(u.clone());
        proof {
            assert forall|a: int, b: int|
                0 <= a < b < self.user_vec@.len() implies self.user_vec@[a].email@
                != self.user_vec@[b].email@ by {
                if b < before.len() {
                    assert(self.user_vec@[a] == before[a] && self.user_vec@[b] == before[b]);
                } else {
                    assert(self.user_vec@[a] == before[a]);
                    assert(self.user_vec@[b] == u);
                }
            }
        }
        Ok(u)
    }

    fn find_by_email(&self, email: &str) -> (r: Result<Option<User>, AppError>) {
        let n = self.user_vec.len();
        let mut i: usize = 0;
        while i < n
            invariant
                n == self.user_vec@.len(),
                i <= n,
                self.inv(),
                forall|j: int| 0 <= j < i ==> (#[trigger] self.user_vec@[j]).email@ != email@,
            decreases n - i,
        {
            if str_eq(self.user_vec[i].email.as_str(), email) {
                proof {
                    lemma_user_map_properties(self.user_vec@);
                }
                return Ok(Some(self.user_vec[i].clone()));
            }
            i = i + 1;
        }
        proof {
            lemma_user_map_properties(self.user_vec@);
            if user_map(self.user_vec@).contains_key(email@) {
                let w = choose|w: int|
                    0 <= w < self.user_vec@.len() && self.user_vec@[w].email@ == email@;
                assert(false);
            }
        }
        Ok(None)
    }

    fn find_by_id(&self, id: u128) -> (r: Result<Option<User>, AppError>) {
        let n = self.user_vec.len();
        let mut i: usize = 0;
        while i < n
            invariant
                n == self.user_vec@.len(),
                i <= n,
                forall|j: int| 0 <= j < i ==> (#[trigger] self.user_vec@[j]).id != id,
            decreases n - i,
        {
            if self.user_vec[i].id == id {
                return Ok(Some(self.user_vec[i].clone()));
            }
            i = i + 1;
        }
        Ok(None)
    }

    fn list_users(&self, page: i64, per_page: i64) -> (r: Result<(Vec<User>, i64), AppError>) {
        if per_page < 0 {
            return Err(AppError::Internal(String::from_str("negative page size")));
        }
        let total = self.user_vec.len();
        if total as u64 > i64::MAX as u64 {
            return Err(AppError::Internal(String::from_str("directory too large to count")));
        }
        proof {
            if page >= 1 {
                vstd::arithmetic::mul::lemma_mul_upper_bound(
                    (page - 1) as int,
                    i64::MAX as int,
                    per_page as int,
                    i64::MAX as int,
                );
            }
        }
        let off: u128 = if page >= 1 {
            (page - 1) as u128 * per_page as u128
        } else {
            0
        };
        let len128 = total as u128;
        let (lo128, hi128): (u128, u128) = if off > len128 {
            (len128, len128)
        } else {
            let hi_raw: u128 = off + per_page as u128;
            (off, if hi_raw > len128 {
                len128
            } else {
                hi_raw
            })
        };
        let lo = lo128 as usize;
        let hi = hi128 as usize;
        let sorted = sorted_copy_desc(&self.user_vec);
        let mut items: Vec<User> = Vec::new();
        let mut j = lo;
        while j < hi
            invariant
                lo <= j <= hi,
                hi <= sorted@.len(),
                lo <= hi,
                items@ == sorted@.subrange(lo as int, j as int),
            decreases hi - j,
        {
            items.push(sorted[j].clone());
            proof {
                assert(items@ =~= sorted@.subrange(lo as int, j + 1));
            }
            j = j + 1;
        }
        proof {
            assert(items@ == page_slice(sorted@, page, per_page)) by {
                assert(items@ == sorted@.subrange(lo as int, hi as int));
            }
        }
        Ok((items, total as i64))
    }
}

impl RefreshTokenRepository for MemoryStore {
    fn store_refresh_token(&mut self, token: &RefreshToken) -> (r: Result<(), AppError>) {
        let n = self.token_vec.len();
        let mut i: usize = 0;
        while i < n
            invariant
                n == self.token_vec@.len(),
                i <= n,
                self.inv(),
                self == old(self),
                forall|j: int|
                    0 <= j < i ==> (#[trigger] self.token_vec@[j]).token_hash@
                        != token.token_hash@,
            decreases n - i,
        {
            if str_eq(self.token_vec[i].token_hash.as_str(), token.token_hash.as_str()) {
                // Digest conflict: refresh the stored record's expiry only.
                let ghost before = self.token_vec@;
                let slot = vstd::std_specs::vec::vec_index_mut(&mut self.token_vec, i);
                slot.expires_at = token.expires_at;
                proof {
                    let after = self.token_vec@;
                    assert(after == before.update(i as int, after[i as int]));
                    assert(after[i as int].token_hash@ == token.token_hash@);
                    assert(hashes_unique(after)) by {
                        assert(forall|j: int|
                            0 <= j < after.len() ==> (#[trigger] after[j]).token_hash@
                                == before[j].token_hash@);
                    }
                    lemma_token_map_properties(before);
                    lemma_token_map_properties(after);
                    assert(token_upserted(token_map(before), token_map(after), *token)) by {
                        let h = token.token_hash@;
                        assert(token_map(after).contains_key(h) && token_map(after)[h]
                            == after[i as int]);
                        assert(token_map(before).contains_key(h) && token_map(before)[h]
                            == before[i as int]);
                        assert forall|k: Seq<char>|
                            k != h implies (#[trigger] token_map(after).contains_key(k)
                            <==> token_map(before).contains_key(k)) by {
                            if token_map(after).contains_key(k) {
                                let j = choose|j: int|
                                    0 <= j < after.len() && after[j].token_hash@ == k;
                                assert(j != i && before[j] == after[j]);
                            }
                            if token_map(before).contains_key(k) {
                                let j = choose|j: int|
                                    0 <= j < before.len() && before[j].token_hash@ == k;
                                assert(j != i && after[j] == before[j]);
                            }
                        }
                        assert forall|k: Seq<char>|
                            k != h && #[trigger] token_map(after).contains_key(k) implies token_map(
                            after,
                        )[k] == token_map(before)[k] by {
                            let j = choose|j: int|
                                0 <= j < after.len() && after[j].token_hash@ == k;
                            assert(j != i && after[j] == before[j]);
                            assert(token_map(after)[k] == after[j]);
                            assert(token_map(before)[before[j].token_hash@] == before[j]);
                        }
                    }
                }
                return Ok(());
            }
            i = i + 1;
        }
        // Fresh digest: append the record.
        let ghost before = self.token_vec@;
        proof {
            lemma_token_map_properties(before);
            if token_map(before).contains_key(token.token_hash@) {
                let w = choose|w: int|
                    0 <= w < before.len() && before[w].token_hash@ == token.token_hash@;
                assert(false);
            }
        }
        self.token_vec.push(token.clone());
        proof {
            let after = self.token_vec@;
            assert(after == before.push(*token));
            assert(hashes_unique(after)) by {
                assert forall|a: int, b: int|
                    0 <= a < b < after.len() implies after[a].token_hash@
                    != after[b].token_hash@ by {
                    if b < before.len() {
                        assert(after[a] == before[a] && after[b] == before[b]);
                    } else {
                        assert(after[a] == before[a] && after[b] == *token);
                    }
                }
            }
            lemma_token_map_properties(after);
            assert(token_upserted(token_map(before), token_map(after), *token)) by {
                let h = token.token_hash@;
                assert(after[after.len() - 1] == *token);
                assert(token_map(after).contains_key(h) && token_map(after)[h] == *token);
                assert forall|k: Seq<char>|
                    k != h implies (#[trigger] token_map(after).contains_key(k) <==> token_map(
                    before,
                ).contains_key(k)) by {
                    if token_map(after).contains_key(k) {
                        let j = choose|j: int| 0 <= j < after.len() && after[j].token_hash@ == k;
                        assert(j < before.len() && before[j] == after[j]);
                    }
                    if token_map(before).contains_key(k) {
                        let j = choose|j: int|
                            0 <= j < before.len() && before[j].token_hash@ == k;
                        assert(after[j] == before[j]);
                    }
                }
                assert forall|k: Seq<char>|
                    k != h && #[trigger] token_map(after).contains_key(k) implies token_map(
                    after,
                )[k] == token_map(before)[k] by {
                    let j = choose|j: int| 0 <= j < after.len() && after[j].token_hash@ == k;
                    assert(j < before.len() && after[j] == before[j]);
                    assert(token_map(after)[k] == after[j]);
                    assert(token_map(before)[before[j].token_hash@] == before[j]);
                }
            }
        }
        Ok(())
    }

    fn find_refresh_token(&self, token_hash: &str) -> (r: Result<Option<RefreshToken>, AppError>) {
        let n = self.token_vec.len();
        let mut i: usize = 0;
        while i < n
            invariant
                n == self.token_vec@.len(),
                i <= n,
                self.inv(),
                forall|j: int|
                    0 <= j < i ==> (#[trigger] self.token_vec@[j]).token_hash@ != token_hash@,
            decreases n - i,
        {
            if str_eq(self.token_vec[i].token_hash.as_str(), token_hash) {
                proof {
                    lemma_token_map_properties(self.token_vec@);
                }
                return Ok(Some(self.token_vec[i].clone()));
            }
            i = i + 1;
        }
        proof {
            lemma_token_map_properties(self.token_vec@);
            if token_map(self.token_vec@).contains_key(token_hash@) {
                let w = choose|w: int|
                    0 <= w < self.token_vec@.len() && self.token_vec@[w].token_hash@
                        == token_hash@;
                assert(false);
            }
        }
        Ok(None)
    }

    #[verifier::rlimit(30)]
    fn delete_refresh_token(&mut self, id: u128) -> (r: Result<(), AppError>) {
        let ghost s = self.token_vec@;
        let n = self.token_vec.len();
        let mut out: Vec<RefreshToken> = Vec::new();
        let mut i: usize = 0;
        while i < n
            invariant
                n == s.len(),
                i <= n,
                self == old(self),
                s == self.token_vec@,
                self.inv(),
                hashes_unique(out@),
                forall|j: int| 0 <= j < out@.len() ==> (#[trigger] out@[j]).id != id,
                forall|j: int|
                    0 <= j < out@.len() ==> exists|k: int| 0 <= k < i && #[trigger] out@[j] == s[k],
                forall|k: int|
                    0 <= k < i && (#[trigger] s[k]).id != id ==> exists|j: int|
                        0 <= j < out@.len() && out@[j] == s[k],
            decreases n - i,
        {
            let ghost out_before = out@;
            if self.token_vec[i].id != id {
                proof {
                    assert forall|j: int|
                        0 <= j < out@.len() implies (#[trigger] out@[j]).token_hash@
                        != s[i as int].token_hash@ by {
                        let k = choose|k: int| 0 <= k < i && out@[j] == s[k];
                        assert(s[k].token_hash@ != s[i as int].token_hash@);
                    }
                }
                out.push(self.token_vec[i].clone());
            }
            proof {
                assert forall|k: int|
                    0 <= k < i + 1 && (#[trigger] s[k]).id != id implies exists|j: int|
                    0 <= j < out@.len() && out@[j] == s[k] by {
                    if k == i as int {
                        assert(out@[out@.len() - 1] == s[k]);
                    } else {
                        let j = choose|j: int| 0 <= j < out_before.len() && out_before[j] == s[k];
                        assert(out@[j] == s[k]);
                    }
                }
            }
            i = i + 1;
        }
        proof {
            lemma_token_map_properties(s);
            lemma_token_map_properties(out@);
            assert(tokens_removed_id(token_map(s), token_map(out@), id)) by {
                assert forall|h: Seq<char>| #[trigger]
                    token_map(out@).contains_key(h) implies token_map(s).contains_key(h)
                    && token_map(s)[h].id != id && token_map(out@)[h] == token_map(s)[h] by {
                    let j = choose|j: int| 0 <= j < out@.len() && out@[j].token_hash@ == h;
                    let k = choose|k: int| 0 <= k < s.len() && out@[j] == s[k];
                    assert(s[k].token_hash@ == h);
                    assert(token_map(s)[h] == s[k]);
                    assert(token_map(out@)[h] == out@[j]);
                }
                assert forall|h: Seq<char>|
                    token_map(s).contains_key(h) && token_map(s)[h].id != id implies #[trigger]
                token_map(out@).contains_key(h) by {
                    let k = choose|k: int| 0 <= k < s.len() && s[k].token_hash@ == h;
                    assert(token_map(s)[h] == s[k]);
                    let j = choose|j: int| 0 <= j < out@.len() && out@[j] == s[k];
                    assert(out@[j].token_hash@ == h);
                }
            }
        }
        self.token_vec = out;
        Ok(())
    }

    #[verifier::rlimit(30)]
    fn delete_tokens_for_user(&mut self, user_id: u128) -> (r: Result<(), AppError>) {
        let ghost s = self.token_vec@;
        let n = self.token_vec.len();
        let mut out: Vec<RefreshToken> = Vec::new();
        let mut i: usize = 0;
        while i < n
            invariant
                n == s.len(),
                i <= n,
                self == old(self),
                s == self.token_vec@,
                self.inv(),
                hashes_unique(out@),
                forall|j: int| 0 <= j < out@.len() ==> (#[trigger] out@[j]).user_id != user_id,
                forall|j: int|
                    0 <= j < out@.len() ==> exists|k: int| 0 <= k < i && #[trigger] out@[j] == s[k],
                forall|k: int|
                    0 <= k < i && (#[trigger] s[k]).user_id != user_id ==> exists|j: int|
                        0 <= j < out@.len() && out@[j] == s[k],
            decreases n - i,
        {
            let ghost out_before = out@;
            if self.token_vec[i].user_id != user_id {
                proof {
                    assert forall|j: int|
                        0 <= j < out@.len() implies (#[trigger] out@[j]).token_hash@
                        != s[i as int].token_hash@ by {
                        let k = choose|k: int| 0 <= k < i && out@[j] == s[k];
                        assert(s[k].token_hash@ != s[i as int].token_hash@);
                    }
                }
                out.push(self.token_vec[i].clone());
            }
            proof {
                assert forall|k: int|
                    0 <= k < i + 1 && (#[trigger] s[k]).user_id != user_id implies exists|j: int|
                    0 <= j < out@.len() && out@[j] == s[k] by {
                    if k == i as int {
                        assert(out@[out@.len() - 1] == s[k]);
                    } else {
                        let j = choose|j: int| 0 <= j < out_before.len() && out_before[j] == s[k];
                        assert(out@[j] == s[k]);
                    }
                }
            }
            i = i + 1;
        }
        proof {
            lemma_token_map_properties(s);
            lemma_token_map_properties(out@);
            assert(tokens_removed_user(token_map(s), token_map(out@), user_id)) by {
                assert forall|h: Seq<char>| #[trigger]
                    token_map(out@).contains_key(h) implies token_map(s).contains_key(h)
                    && token_map(s)[h].user_id != user_id && token_map(out@)[h] == token_map(
                    s,
                )[h] by {
                    let j = choose|j: int| 0 <= j < out@.len() && out@[j].token_hash@ == h;
                    let k = choose|k: int| 0 <= k < s.len() && out@[j] == s[k];
                    assert(s[k].token_hash@ == h);
                    assert(token_map(s)[h] == s[k]);
                    assert(token_map(out@)[h] == out@[j]);
                }
                assert forall|h: Seq<char>|
                    token_map(s).contains_key(h) && token_map(s)[h].user_id != user_id implies #[trigger]
                token_map(out@).contains_key(h) by {
                    let k = choose|k: int| 0 <= k < s.len() && s[k].token_hash@ == h;
                    assert(token_map(s)[h] == s[k]);
                    let j = choose|j: int| 0 <= j < out@.len() && out@[j] == s[k];
                    assert(out@[j].token_hash@ == h);
                }
            }
        }
        self.token_vec = out;
        Ok(())
    }
}

impl AuditLogRepository for MemoryStore {
    fn log_event(&mut self, event: AuditEvent) -> (r: Result<(), AppError>) {
        self.event_vec.push(event);
        Ok(())
    }
}

impl AuthRepo for MemoryStore {

}

} // verus!
