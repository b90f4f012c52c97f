use vstd::prelude::*;

verus! {

// ---------------------------------------------------------------------------
// Credential digests (Argon2id)
// ---------------------------------------------------------------------------

/// Whether a stored digest parses as a well-formed PHC string, as
/// `argon2::password_hash::PasswordHash::new` decides it. A function of
/// the digest alone.
pub uninterp spec fn phc_valid(digest: Seq<char>) -> bool;

/// Whether a candidate password matches a stored digest, as
/// `argon2::Argon2::verify_password` decides it with the parameters and
/// salt embedded in the digest. A function of the two strings alone.
pub uninterp spec fn password_matches(digest: Seq<char>, candidate: Seq<char>) -> bool;

/// A digest that was freshly derived from `password`: well-formed, and
/// matched by that password and no other. The last clause leans on the
/// collision resistance of the memory-hard digest.
pub open spec fn fresh_digest_for(digest: Seq<char>, password: Seq<char>) -> bool {
    &&& phc_valid(digest)
    &&& password_matches(digest, password)
    &&& forall|other: Seq<char>| other != password ==> !password_matches(digest, other)
}

/// Relies on argon2::Argon2::hash_password with a fresh random salt: the
/// digest it returns verifies against the hashed password and, by
/// collision resistance, against no other.
#[verifier::external_body]
pub(crate) fn argon2_hash(password: &str) -> (r: Option<String>)
    ensures
        r matches Some(digest) ==> fresh_digest_for(digest@, password@),
{
    let mut salt = [0u8; 16];
    rand::RngCore::fill_bytes(&mut rand::thread_rng(), &mut salt);
    let salt = argon2::password_hash::SaltString::encode_b64(&salt).ok()?;
    argon2::password_hash::PasswordHasher::hash_password(
        &argon2::Argon2::default(),
        password.as_bytes(),
        &salt,
    )
        .map(|p| p.to_string())
        .ok()
}

/// Relies on argon2::password_hash::PasswordHash::new (parsing succeeds
/// exactly on well-formed digests) and argon2::Argon2::verify_password
/// (deterministic in digest and candidate).
#[verifier::external_body]
pub(crate) fn argon2_verify(digest: &str, candidate: &str) -> (r: Option<bool>)
    ensures
        r is Some <==> phc_valid(digest@),
        r matches Some(b) ==> b == password_matches(digest@, candidate@),
{
    let parsed = argon2::password_hash::PasswordHash::new(digest).ok()?;
    Some(
        argon2::password_hash::PasswordVerifier::verify_password(
            &argon2::Argon2::default(),
            candidate.as_bytes(),
            &parsed,
        ).is_ok(),
    )
}

// ---------------------------------------------------------------------------
// Token digests (SHA-256)
// ---------------------------------------------------------------------------

/// The lower-case hex SHA-256 digest of a raw token, as sha2::Sha256
/// computes it. Deterministic in the input alone.
pub uninterp spec fn token_digest(raw: Seq<char>) -> Seq<char>;

/// Relies on sha2::Sha256: the digest is a function of the input alone,
/// printed as 64 hex characters, and by collision resistance distinct
/// inputs give distinct digests.
#[verifier::external_body]
pub(crate) fn sha256_hex(raw: &str) -> (r: String)
    ensures
        r@ == token_digest(raw@),
        r@.len() == 64,
        forall|other: Seq<char>| other != raw@ ==> token_digest(other) != r@,
{
    let mut hasher = <sha2::Sha256 as sha2::Digest>::new();
    sha2::Digest::update(&mut hasher, raw.as_bytes());
    format!("{:x}", sha2::Digest::finalize(hasher))
}

// ---------------------------------------------------------------------------
// Random material
// ---------------------------------------------------------------------------

/// Relies on rand::thread_rng and base64's URL-safe alphabet: 32 bytes of
/// OS-seeded randomness, base64url-encoded without padding. Nothing is
/// promised of the value: it is random.
#[verifier::external_body]
pub(crate) fn random_token() -> (r: String)
{
    let mut buf = [0u8; 32];
    rand::RngCore::fill_bytes(&mut rand::thread_rng(), &mut buf);
    base64::Engine::encode(&base64::engine::general_purpose::URL_SAFE_NO_PAD, buf)
}

/// Relies on uuid::Uuid::new_v4: a freshly drawn random 128-bit
/// identifier. Nothing is promised of the value: it is random.
#[verifier::external_body]
pub(crate) fn fresh_id() -> (r: u128)
{
    uuid::Uuid::new_v4().as_u128()
}

// ---------------------------------------------------------------------------
// Laws
// ---------------------------------------------------------------------------

/// A freshly derived credential digest discriminates exactly: the hashed
/// password verifies against it, and any other candidate is refused.
pub proof fn lemma_fresh_digest_discriminates(
    digest: Seq<char>,
    password: Seq<char>,
    other: Seq<char>,
)
    requires
        fresh_digest_for(digest, password),
        other != password,
    ensures
        password_matches(digest, password),
        !password_matches(digest, other),
        phc_valid(digest),
{
}

} // verus!
