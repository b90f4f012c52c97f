use vstd::prelude::*;

verus! {

// ---------------------------------------------------------------------------
// Character classes
// ---------------------------------------------------------------------------

pub open spec fn spec_is_digit(c: char) -> bool {
    48 <= c as u32 && c as u32 <= 57
}

pub open spec fn spec_is_alpha(c: char) -> bool {
    (65 <= c as u32 && c as u32 <= 90) || (97 <= c as u32 && c as u32 <= 122)
}

pub open spec fn spec_is_alnum(c: char) -> bool {
    spec_is_digit(c) || spec_is_alpha(c)
}

/// The characters accepted in the local part of an email address: the
/// alphanumerics and the usual unquoted special characters.
pub open spec fn spec_local_char_ok(c: char) -> bool {
    ||| spec_is_alnum(c)
    ||| c == '.' || c == '!' || c == '#' || c == '$' || c == '%' || c == '&'
    ||| c == '\'' || c == '*' || c == '+' || c == '-' || c == '/' || c == '='
    ||| c == '?' || c == '^' || c == '_' || c == '`' || c == '{' || c == '|'
    ||| c == '}' || c == '~'
}

/// The characters accepted in the domain part: alphanumerics, hyphens and
/// the dots separating labels.
pub open spec fn spec_domain_char_ok(c: char) -> bool {
    spec_is_alnum(c) || c == '-' || c == '.'
}

fn is_digit(c: char) -> (r: bool)
    ensures
        r == spec_is_digit(c),
{
    let u = c as u32;
    48 <= u && u <= 57
}

fn is_alpha(c: char) -> (r: bool)
    ensures
        r == spec_is_alpha(c),
{
    let u = c as u32;
    (65 <= u && u <= 90) || (97 <= u && u <= 122)
}

fn local_char_ok(c: char) -> (r: bool)
    ensures
        r == spec_local_char_ok(c),
{
    is_digit(c) || is_alpha(c) || c == '.' || c == '!' || c == '#' || c == '$'
        || c == '%' || c == '&' || c == '\'' || c == '*' || c == '+' || c == '-'
        || c == '/' || c == '=' || c == '?' || c == '^' || c == '_' || c == '`'
        || c == '{' || c == '|' || c == '}' || c == '~'
}

fn domain_char_ok(c: char) -> (r: bool)
    ensures
        r == spec_domain_char_ok(c),
{
    is_digit(c) || is_alpha(c) || c == '-' || c == '.'
}

// ---------------------------------------------------------------------------
// Email shape
// ---------------------------------------------------------------------------

/// A valid local part: non-empty, every character from the accepted set.
/// `@` is not in the set, so the split position of a valid address is
/// unique.
pub open spec fn spec_valid_local(s: Seq<char>) -> bool {
    &&& s.len() >= 1
    &&& forall|i: int| 0 <= i < s.len() ==> spec_local_char_ok(#[trigger] s[i])
}

/// A valid domain part: non-empty dot-separated labels of alphanumerics
/// and hyphens; no leading, trailing or doubled dot.
pub open spec fn spec_valid_domain(s: Seq<char>) -> bool {
    &&& s.len() >= 1
    &&& forall|i: int| 0 <= i < s.len() ==> spec_domain_char_ok(#[trigger] s[i])
    &&& s[0] != '.'
    &&& s[s.len() - 1] != '.'
    &&& forall|i: int| 0 < i < s.len() ==> !(#[trigger] s[i] == '.' && s[i - 1] == '.')
}

/// An RFC-shaped email address: a valid local part, one `@`, and a valid
/// domain part.
pub open spec fn spec_valid_email(s: Seq<char>) -> bool {
    exists|i: int|
        0 <= i < s.len() && #[trigger] s[i] == '@' && spec_valid_local(s.subrange(0, i))
            && spec_valid_domain(s.subrange(i + 1, s.len() as int))
}

/// The position of the first `@` in `s`, if any.
fn find_first_at(s: &str) -> (r: Option<usize>)
    ensures
        match r {
            Some(at) => at < s@.len() && s@[at as int] == '@' && forall|j: int|
                0 <= j < at ==> s@[j] != '@',
            None => forall|j: int| 0 <= j < s@.len() ==> s@[j] != '@',
        },
{
    let n = s.unicode_len();
    let mut i: usize = 0;
    while i < n
        invariant
            n == s@.len(),
            i <= n,
            forall|j: int| 0 <= j < i ==> s@[j] != '@',
        decreases n - i,
    {
        if s.get_char(i) == '@' {
            return Some(i);
        }
        i = i + 1;
    }
    None
}

/// Decides `spec_valid_local` on the first `at` characters of `s`.
fn check_local(s: &str, at: usize) -> (r: bool)
    requires
        at <= s@.len(),
    ensures
        r == spec_valid_local(s@.subrange(0, at as int)),
{
    let ghost local = s@.subrange(0, at as int);
    if at == 0 {
        return false;
    }
    let mut i: usize = 0;
    while i < at
        invariant
            0 < at <= s@.len(),
            i <= at,
            local == s@.subrange(0, at as int),
            forall|j: int| 0 <= j < i ==> spec_local_char_ok(#[trigger] local[j]),
        decreases at - i,
    {
        assert(local[i as int] == s@[i as int]);
        if !local_char_ok(s.get_char(i)) {
            assert(!spec_valid_local(local));
            return false;
        }
        i = i + 1;
    }
    true
}

/// Decides `spec_valid_domain` on the characters of `s` after position `at`.
fn check_domain(s: &str, at: usize) -> (r: bool)
    requires
        at < s@.len(),
    ensures
        r == spec_valid_domain(s@.subrange(at + 1, s@.len() as int)),
{
    let ghost domain = s@.subrange(at + 1, s@.len() as int);
    let n = s.unicode_len();
    if at + 1 == n {
        return false;
    }
    assert(domain[0] == s@[at + 1]);
    assert(domain[domain.len() - 1] == s@[n - 1]);
    if s.get_char(at + 1) == '.' {
        return false;
    }
    if s.get_char(n - 1) == '.' {
        return false;
    }
    let mut k: usize = at + 1;
    while k < n
        invariant
            n == s@.len(),
            at + 1 <= k <= n,
            at < n,
            domain == s@.subrange(at + 1, s@.len() as int),
            forall|j: int| 0 <= j < k - at - 1 ==> spec_domain_char_ok(#[trigger] domain[j]),
            forall|j: int|
                0 < j < k - at - 1 ==> !(#[trigger] domain[j] == '.' && domain[j - 1] == '.'),
        decreases n - k,
    {
        let c = s.get_char(k);
        assert(domain[k - at - 1] == s@[k as int]);
        if !domain_char_ok(c) {
            assert(!spec_valid_domain(domain));
            return false;
        }
        if c == '.' && k > at + 1 {
            assert(domain[k - at - 2] == s@[k - 1]);
            if s.get_char(k - 1) == '.' {
                assert(!spec_valid_domain(domain));
                return false;
            }
        }
        k = k + 1;
    }
    assert(domain[0] == s@[at + 1]);
    assert(domain[domain.len() - 1] == s@[n - 1]);
    true
}

/// Decides `spec_valid_email` on the address as submitted.
pub fn is_valid_email(s: &str) -> (r: bool)
    ensures
        r == spec_valid_email(s@),
{
    match find_first_at(s) {
        None => {
            assert(!spec_valid_email(s@));
            false
        },
        Some(at) => {
            let local_ok = check_local(s, at);
            let domain_ok = check_domain(s, at);
            let r = local_ok && domain_ok;
            proof {
                if r {
                    assert(spec_valid_email(s@)) by {
                        assert(s@[at as int] == '@' && spec_valid_local(
                            s@.subrange(0, at as int),
                        ) && spec_valid_domain(s@.subrange(at + 1, s@.len() as int)));
                    }
                } else {
                    // A valid split can only sit at the first `@`: the local
                    // part of any later split would contain `@` itself.
                    assert forall|i: int|
                        0 <= i < s@.len() && #[trigger] s@[i] == '@' implies !(spec_valid_local(
                        s@.subrange(0, i),
                    ) && spec_valid_domain(s@.subrange(i + 1, s@.len() as int))) by {
                        if i != at {
                            assert(i > at);
                            assert(s@.subrange(0, i)[at as int] == '@');
                            assert(!spec_local_char_ok('@'));
                        }
                    }
                }
            }
            r
        },
    }
}

// ---------------------------------------------------------------------------
// Password shape
// ---------------------------------------------------------------------------

pub const PASSWORD_MIN_CHARS: usize = 8;

pub const PASSWORD_MAX_CHARS: usize = 128;

/// A valid password: between 8 and 128 characters. Content is never
/// inspected.
pub open spec fn spec_valid_password(s: Seq<char>) -> bool {
    PASSWORD_MIN_CHARS <= s.len() && s.len() <= PASSWORD_MAX_CHARS
}

pub fn is_valid_password(s: &str) -> (r: bool)
    ensures
        r == spec_valid_password(s@),
{
    let n = s.unicode_len();
    PASSWORD_MIN_CHARS <= n && n <= PASSWORD_MAX_CHARS
}

// ---------------------------------------------------------------------------
// Generic string helpers
// ---------------------------------------------------------------------------

/// Character-wise string equality, usable on any two string slices.
pub fn str_eq(a: &str, b: &str) -> (r: bool)
    ensures
        r == (a@ == b@),
{
    let n = a.unicode_len();
    if n != b.unicode_len() {
        assert(a@ != b@);
        return false;
    }
    let mut i: usize = 0;
    while i < n
        invariant
            n == a@.len() && n == b@.len(),
            i <= n,
            forall|j: int| 0 <= j < i ==> a@[j] == b@[j],
        decreases n - i,
    {
        if a.get_char(i) != b.get_char(i) {
            return false;
        }
        i = i + 1;
    }
    proof {
        assert(a@ =~= b@);
    }
    true
}

/// Whether `s` begins with `prefix`, character for character.
pub open spec fn spec_starts_with(s: Seq<char>, prefix: Seq<char>) -> bool {
    s.len() >= prefix.len() && s.subrange(0, prefix.len() as int) == prefix
}

pub fn str_starts_with(s: &str, prefix: &str) -> (r: bool)
    ensures
        r == spec_starts_with(s@, prefix@),
{
    let np = prefix.unicode_len();
    if s.unicode_len() < np {
        return false;
    }
    let mut i: usize = 0;
    while i < np
        invariant
            np == prefix@.len(),
            s@.len() >= np,
            i <= np,
            forall|j: int| 0 <= j < i ==> s@[j] == prefix@[j],
        decreases np - i,
    {
        if s.get_char(i) != prefix.get_char(i) {
            assert(s@.subrange(0, np as int)[i as int] != prefix@[i as int]);
            return false;
        }
        i = i + 1;
    }
    proof {
        assert(s@.subrange(0, np as int) =~= prefix@);
    }
    true
}

/// The ASCII whitespace characters trimmed from configuration values.
pub open spec fn spec_is_space(c: char) -> bool {
    c == ' ' || c == '\t' || c == '\n' || c == '\r' || c == '\u{c}'
}

fn is_space(c: char) -> (r: bool)
    ensures
        r == spec_is_space(c),
{
    c == ' ' || c == '\t' || c == '\n' || c == '\r' || c == '\u{c}'
}

/// The first index at or after `i` holding a non-space character, or the
/// length if there is none.
pub open spec fn first_non_space(s: Seq<char>, i: int) -> int
    decreases s.len() - i,
{
    if i < 0 || i >= s.len() {
        i
    } else if spec_is_space(s[i]) {
        first_non_space(s, i + 1)
    } else {
        i
    }
}

/// The index one past the last non-space character strictly before `j`,
/// or zero if there is none.
pub open spec fn trim_end_idx(s: Seq<char>, j: int) -> int
    decreases j,
{
    if j <= 0 {
        0
    } else if spec_is_space(s[j - 1]) {
        trim_end_idx(s, j - 1)
    } else {
        j
    }
}

/// `s` with leading and trailing ASCII whitespace removed.
pub open spec fn spec_trim(s: Seq<char>) -> Seq<char> {
    let a = first_non_space(s, 0);
    let b = trim_end_idx(s, s.len() as int);
    if a <= b {
        s.subrange(a, b)
    } else {
        Seq::<char>::empty()
    }
}

/// Every character skipped by `first_non_space` is a space.
proof fn lemma_first_non_space_spaces(s: Seq<char>, i: int)
    requires
        0 <= i <= s.len(),
    ensures
        i <= first_non_space(s, i) <= s.len(),
        forall|k: int| i <= k < first_non_space(s, i) ==> spec_is_space(#[trigger] s[k]),
    decreases s.len() - i,
{
    if i < s.len() && spec_is_space(s[i]) {
        lemma_first_non_space_spaces(s, i + 1);
    }
}

/// If every character before `j` is a space, the right trim reaches zero.
proof fn lemma_trim_end_all_space(s: Seq<char>, j: int)
    requires
        0 <= j <= s.len(),
        forall|k: int| 0 <= k < j ==> spec_is_space(#[trigger] s[k]),
    ensures
        trim_end_idx(s, j) == 0,
    decreases j,
{
    if j > 0 {
        lemma_trim_end_all_space(s, j - 1);
    }
}

fn first_non_space_idx(s: &str) -> (a: usize)
    ensures
        a as int == first_non_space(s@, 0),
        a <= s@.len(),
        a < s@.len() ==> !spec_is_space(s@[a as int]),
{
    let n = s.unicode_len();
    let mut a: usize = 0;
    while a < n
        invariant
            n == s@.len(),
            a <= n,
            first_non_space(s@, 0) == first_non_space(s@, a as int),
        decreases n - a,
    {
        if !is_space(s.get_char(a)) {
            return a;
        }
        a = a + 1;
    }
    a
}

fn trim_end_index(s: &str, a: usize) -> (b: usize)
    requires
        a as int == first_non_space(s@, 0),
        a <= s@.len(),
        a < s@.len() ==> !spec_is_space(s@[a as int]),
    ensures
        a <= b <= s@.len(),
        a < s@.len() ==> b as int == trim_end_idx(s@, s@.len() as int) && b > a,
        a == s@.len() ==> b == a,
{
    let n = s.unicode_len();
    let mut b: usize = n;
    while b > a
        invariant
            n == s@.len(),
            a <= b <= n,
            a < n ==> !spec_is_space(s@[a as int]),
            trim_end_idx(s@, n as int) == trim_end_idx(s@, b as int),
            forall|k: int| b <= k < n ==> spec_is_space(#[trigger] s@[k]),
        decreases b,
    {
        if !is_space(s.get_char(b - 1)) {
            return b;
        }
        b = b - 1;
    }
    b
}

/// Returns the slice of `s` with leading and trailing ASCII whitespace
/// removed.
pub fn str_trim<'a>(s: &'a str) -> (r: &'a str)
    ensures
        r@ == spec_trim(s@),
{
    let a = first_non_space_idx(s);
    let b = trim_end_index(s, a);
    let r = s.substring_char(a, b);
    proof {
        if a < s@.len() {
            assert(r@ == s@.subrange(a as int, b as int));
        } else {
            lemma_first_non_space_spaces(s@, 0);
            lemma_trim_end_all_space(s@, s@.len() as int);
            assert(r@ =~= Seq::<char>::empty());
            if a <= trim_end_idx(s@, s@.len() as int) {
                assert(s@.subrange(a as int, trim_end_idx(s@, s@.len() as int)) =~= Seq::<
                    char,
                >::empty());
            }
        }
    }
    r
}

/// ASCII-lowercase comparison at the level of single code points.
pub open spec fn spec_lower_u32(u: u32) -> u32 {
    if 65 <= u && u <= 90 {
        (u + 32) as u32
    } else {
        u
    }
}

/// Whether two strings are equal up to ASCII case.
pub open spec fn spec_eq_ignore_ascii_case(a: Seq<char>, b: Seq<char>) -> bool {
    a.len() == b.len() && forall|i: int|
        0 <= i < a.len() ==> spec_lower_u32(#[trigger] a[i] as u32) == spec_lower_u32(b[i] as u32)
}

pub fn eq_ignore_ascii_case(a: &str, b: &str) -> (r: bool)
    ensures
        r == spec_eq_ignore_ascii_case(a@, b@),
{
    let n = a.unicode_len();
    if n != b.unicode_len() {
        return false;
    }
    let mut i: usize = 0;
    while i < n
        invariant
            n == a@.len() && n == b@.len(),
            i <= n,
            forall|j: int| 0 <= j < i ==> spec_lower_u32(#[trigger] a@[j] as u32) == spec_lower_u32(
                b@[j] as u32,
            ),
        decreases n - i,
    {
        let ua = a.get_char(i) as u32;
        let ub = b.get_char(i) as u32;
        let la = if 65 <= ua && ua <= 90 {
            ua + 32
        } else {
            ua
        };
        let lb = if 65 <= ub && ub <= 90 {
            ub + 32
        } else {
            ub
        };
        if la != lb {
            return false;
        }
        i = i + 1;
    }
    true
}

} // verus!
