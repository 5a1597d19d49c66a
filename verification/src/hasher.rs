//! One-way password hashing and verification, backed by the bcrypt crate,
//! and the password-strength policy.

use vstd::prelude::*;

verus! {

/// Whether bcrypt accepts `digest` as a valid hash of `plaintext`, that is,
/// whether `bcrypt::verify(plaintext, digest)` returns `Ok(true)`.  For a
/// fixed pair of arguments that outcome is a pure function of the pair: the
/// cost and salt are embedded in the digest and the check recomputes the
/// hash from them.
pub uninterp spec fn bcrypt_matches(plaintext: Seq<char>, digest: Seq<char>) -> bool;

/// Work factor used for newly created hashes.
pub const DEFAULT_HASH_COST: u32 = 12;

/// Smallest work factor bcrypt accepts.
pub const MIN_HASH_COST: u32 = 4;

/// Largest work factor bcrypt accepts.
pub const MAX_HASH_COST: u32 = 31;

/// Minimum accepted password length.
pub const MIN_PASSWORD_LEN: usize = 8;

/// The password policy: non-empty and at least [`MIN_PASSWORD_LEN`]
/// characters.
pub open spec fn spec_password_ok(p: Seq<char>) -> bool {
    p.len() >= MIN_PASSWORD_LEN
}

pub fn password_meets_policy(p: &str) -> (r: bool)
    ensures
        r == spec_password_ok(p@),
{
    p.unicode_len() >= MIN_PASSWORD_LEN
}

/// Relies on `bcrypt::hash`: with a cost in bcrypt's accepted range it
/// produces, on success, a 60-character digest beginning with `'$'` that
/// `bcrypt::verify` accepts for the same plaintext.  The digest embeds a
/// random salt, so nothing relates digests of two separate calls.
#[verifier::external_body]
pub(crate) fn hash_password(plaintext: &str, cost: u32) -> (r: Option<String>)
    requires
        MIN_HASH_COST <= cost <= MAX_HASH_COST,
    ensures
        r matches Some(d) ==> bcrypt_matches(plaintext@, d@) && d@.len() == 60 && d@[0] == '$',
{
    match bcrypt::hash(plaintext, cost) {
        Ok(d) => Some(d),
        Err(_) => None,
    }
}

/// A digest some password verifies against.  Whether `bcrypt::verify`
/// answers at all depends on the digest alone (it parses the digest and
/// checks the embedded cost before ever touching the password), so such a
/// digest gets a definite answer for every password.
pub open spec fn spec_digest_ok(digest: Seq<char>) -> bool {
    exists|p: Seq<char>| bcrypt_matches(p, digest)
}

/// Relies on `bcrypt::verify`: it returns `Ok(bcrypt_matches(..))` for the
/// pair, and errors only on digests it cannot parse or whose embedded cost
/// is out of range -- conditions on the digest alone, which a digest that
/// any password verifies against has already passed.  An error is reported
/// as `None` so the caller can surface it as an internal failure rather
/// than as a wrong password.
#[verifier::external_body]
pub(crate) fn verify_password(plaintext: &str, digest: &str) -> (r: Option<bool>)
    ensures
        r matches Some(b) ==> b == bcrypt_matches(plaintext@, digest@),
        bcrypt_matches(plaintext@, digest@) ==> r == Some(true),
        spec_digest_ok(digest@) ==> r is Some,
{
    match bcrypt::verify(plaintext, digest) {
        Ok(b) => Some(b),
        Err(_) => None,
    }
}

} // verus!
