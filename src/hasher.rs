use vstd::prelude::*;
use crate::error::AuthError;

verus! {

/// The work factor used for new password hashes.
pub const DEFAULT_COST: u32 = 12;

/// The smallest work factor bcrypt accepts.
pub const MIN_COST: u32 = 4;

/// The largest work factor bcrypt accepts.
pub const MAX_COST: u32 = 31;

/// What bcrypt's verification answers for a password and a stored hash:
/// `Some(matches)`, or `None` where the hash is not a well-formed bcrypt hash.
pub uninterp spec fn bcrypt_verify_of(password: Seq<char>, hash: Seq<char>) -> Option<bool>;

/// `password` matches the stored `hash`.
pub open spec fn password_matches(password: Seq<char>, hash: Seq<char>) -> bool {
    bcrypt_verify_of(password, hash) == Some(true)
}

/// Relies on bcrypt::verify: it recomputes the hash of `password` with the
/// cost and salt embedded in `hash` and compares; its answer depends on the
/// two arguments alone. A malformed `hash` is an error, here `None`.
#[verifier::external_body]
fn bcrypt_verify(password: &str, hash: &str) -> (r: Option<bool>)
    ensures
        r == bcrypt_verify_of(password@, hash@),
{
    bcrypt::verify(password, hash).ok()
}

/// The `$2b$` prefix of the hashes bcrypt produces.
pub open spec fn bcrypt_2b_prefix() -> Seq<char> {
    seq!['$', '2', 'b', '$']
}

/// Relies on bcrypt::hash: on success it returns a hash with a fresh random
/// salt and the given cost, which bcrypt::verify accepts for the same password.
/// The hash is in the 60-character `$2b$` form.
#[verifier::external_body]
fn bcrypt_hash(password: &str, cost: u32) -> (r: Option<String>)
    ensures
        r matches Some(h) ==> bcrypt_verify_of(password@, h@) == Some(true),
        r matches Some(h) ==> h@.len() == 60 && h@.subrange(0, 4) == bcrypt_2b_prefix(),
{
    bcrypt::hash(password, cost).ok()
}

/// Hashes `password` with a random salt at work factor `cost`.
/// A hash that is returned always verifies against the same password.
pub fn hash_password(password: &str, cost: u32) -> (r: Result<String, AuthError>)
    ensures
        r matches Ok(h) ==> password_matches(password@, h@),
        r matches Ok(h) ==> h@.len() == 60 && h@.subrange(0, 4) == bcrypt_2b_prefix(),
        r matches Err(e) ==> e == AuthError::HashingError,
        !(MIN_COST <= cost <= MAX_COST) ==> r == Err::<String, AuthError>(AuthError::HashingError),
{
    if cost < MIN_COST || cost > MAX_COST {
        return Err(AuthError::HashingError);
    }
    match bcrypt_hash(password, cost) {
        Some(h) => Ok(h),
        None => Err(AuthError::HashingError),
    }
}

/// Checks `password` against a stored hash. A malformed hash never matches.
pub fn verify_password(password: &str, hash: &str) -> (r: bool)
    ensures
        r == password_matches(password@, hash@),
{
    match bcrypt_verify(password, hash) {
        Some(b) => b,
        None => false,
    }
}

} // verus!
