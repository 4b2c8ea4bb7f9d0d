use vstd::prelude::*;
use crate::error::BlogError;

verus! {

#[verifier::external_type_specification]
#[verifier::external_body]
pub struct ExBcryptError(bcrypt::BcryptError);

/// What `bcrypt::verify` makes of a password and a stored hash: whether the
/// password matches, or `None` where the hash is malformed. It depends on
/// the two texts alone.
pub uninterp spec fn bcrypt_check(password: Seq<char>, hash: Seq<char>) -> Option<bool>;

/// The work factor used when none is given (bcrypt's default).
pub const DEFAULT_COST: u32 = 12;

/// Relies on `bcrypt::hash`: it fails on a cost outside `4..=31`, and a hash
/// it returns verifies against the same password (salt and cost travel in
/// the hash text). The salt is random, so nothing more is known.
#[verifier::external_body]
fn bcrypt_hash(password: &str, cost: u32) -> (r: Result<String, bcrypt::BcryptError>)
    ensures
        cost < 4 || cost > 31 ==> r is Err,
        r is Ok ==> bcrypt_check(password@, r->Ok_0@) == Some(true),
{
    bcrypt::hash(password, cost)
}

/// Relies on `bcrypt::verify`: a function of the password and the hash text,
/// failing where the hash text is malformed.
#[verifier::external_body]
fn bcrypt_verify(password: &str, hash: &str) -> (r: Result<bool, bcrypt::BcryptError>)
    ensures
        match r {
            Ok(b) => bcrypt_check(password@, hash@) == Some(b),
            Err(_) => bcrypt_check(password@, hash@) is None,
        },
{
    bcrypt::verify(password, hash)
}

/// What verifying `password` against the stored `hash` returns.
pub open spec fn verify_outcome(password: Seq<char>, hash: Seq<char>) -> Result<bool, BlogError> {
    match bcrypt_check(password, hash) {
        Some(b) => Ok(b),
        None => Err(BlogError::Infrastructure),
    }
}

/// Hashes a password with a salted, slow, one-way function at the given
/// work factor. The result verifies against the password.
pub fn hash_password_with_cost(password: &str, cost: u32) -> (r: Result<String, BlogError>)
    ensures
        cost < 4 || cost > 31 ==> r == Err::<String, BlogError>(BlogError::Infrastructure),
        r is Err ==> r == Err::<String, BlogError>(BlogError::Infrastructure),
        r is Ok ==> verify_outcome(password@, r->Ok_0@) == Ok::<bool, BlogError>(true),
{
    match bcrypt_hash(password, cost) {
        Ok(h) => Ok(h),
        Err(_) => Err(BlogError::Infrastructure),
    }
}

/// Hashes a password at the default work factor. The result verifies
/// against the password.
pub fn hash_password(password: &str) -> (r: Result<String, BlogError>)
    ensures
        r is Err ==> r == Err::<String, BlogError>(BlogError::Infrastructure),
        r is Ok ==> verify_outcome(password@, r->Ok_0@) == Ok::<bool, BlogError>(true),
{
    hash_password_with_cost(password, DEFAULT_COST)
}

/// Whether `password` matches the stored `hash`; a malformed hash is an
/// `Infrastructure` error, a mismatch is `Ok(false)`.
pub fn verify_password(password: &str, hash: &str) -> (r: Result<bool, BlogError>)
    ensures
        r == verify_outcome(password@, hash@),
{
    match bcrypt_verify(password, hash) {
        Ok(b) => Ok(b),
        Err(_) => Err(BlogError::Infrastructure),
    }
}

} // verus!
