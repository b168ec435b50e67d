//! Password hashing with bcrypt.
//!
//! Hashing and checking are done by the `bcrypt` crate. This module gives
//! its calls contracts and adds the policy around them: a check never
//! fails, it answers `false`.

use vstd::prelude::*;

verus! {

/// The error type of the `bcrypt` crate, carried through unread.
#[verifier::external_type_specification]
#[verifier::external_body]
pub struct ExBcryptError(bcrypt::BcryptError);

/// What `bcrypt::verify` returns for a password and a hash string:
/// `Some` of its answer, or `None` where it returns an error.
pub uninterp spec fn bcrypt_verdict(password: Seq<char>, hashed: Seq<char>) -> Option<bool>;

/// Whether `hashed` is a bcrypt hash that `password` matches.
pub open spec fn password_matches(password: Seq<char>, hashed: Seq<char>) -> bool {
    bcrypt_verdict(password, hashed) == Some(true)
}

/// The smallest cost that bcrypt accepts.
pub const MIN_COST: u32 = 4;

/// The largest cost that bcrypt accepts.
pub const MAX_COST: u32 = 31;

/// Whether bcrypt accepts `cost` as its work factor.
pub open spec fn cost_allowed(cost: u32) -> bool {
    MIN_COST <= cost <= MAX_COST
}

/// Why a password could not be hashed.
#[derive(Debug, Clone, Copy, PartialEq, Eq, Structural)]
pub enum HashError {
    /// The cost lies outside `MIN_COST..=MAX_COST`.
    CostNotAllowed,
    /// The hashing backend failed, for want of randomness or of resources.
    Backend,
}

/// Calls `bcrypt::hash`. The salt is random, so the hash itself is not
/// determined by the arguments. Trusted: a hash that comes back is one
/// that `bcrypt::verify` accepts for the same password.
#[verifier::external_body]
fn bcrypt_hash(password: &str, cost: u32) -> (r: Result<String, bcrypt::BcryptError>)
    ensures
        r matches Ok(hashed) ==> password_matches(password@, hashed@),
{
    bcrypt::hash(password, cost)
}

/// Calls `bcrypt::verify`. Trusted: the outcome depends on the two
/// strings alone and is the one that `bcrypt_verdict` names.
#[verifier::external_body]
fn bcrypt_verify(password: &str, hashed: &str) -> (r: Result<bool, bcrypt::BcryptError>)
    ensures
        match r {
            Ok(answer) => bcrypt_verdict(password@, hashed@) == Some(answer),
            Err(_) => bcrypt_verdict(password@, hashed@) is None,
        },
{
    bcrypt::verify(password, hashed)
}

/// Reads `bcrypt::DEFAULT_COST`. Trusted: it is 12.
#[verifier::external_body]
fn bcrypt_default_cost() -> (cost: u32)
    ensures
        cost == 12,
{
    bcrypt::DEFAULT_COST
}

/// The result of a finished hashing call: the hash if there is one, and
/// otherwise a failure of the backend, whatever its error was.
pub fn hash_outcome<E>(outcome: Result<String, E>) -> (r: Result<String, HashError>)
    ensures
        match outcome {
            Ok(hashed) => r == Ok::<String, HashError>(hashed),
            Err(_) => r == Err::<String, HashError>(HashError::Backend),
        },
{
    match outcome {
        Ok(hashed) => Ok(hashed),
        Err(_) => Err(HashError::Backend),
    }
}

/// Hashes `secret` with a fresh random salt at the given cost.
///
/// A cost that bcrypt does not accept is refused before any work is done.
/// With an accepted cost the only failure left is the backend's own. A
/// hash that is returned always matches `secret`.
pub fn hash_with_cost(secret: &str, cost: u32) -> (r: Result<String, HashError>)
    ensures
        !cost_allowed(cost) ==> r == Err::<String, HashError>(HashError::CostNotAllowed),
        cost_allowed(cost) ==> r is Ok || r == Err::<String, HashError>(HashError::Backend),
        r matches Ok(hashed) ==> password_matches(secret@, hashed@),
{
    if cost < MIN_COST || cost > MAX_COST {
        return Err(HashError::CostNotAllowed);
    }
    hash_outcome(bcrypt_hash(secret, cost))
}

/// Hashes `secret` at bcrypt's default cost.
pub fn hash(secret: &str) -> (r: Result<String, HashError>)
    ensures
        r is Ok || r == Err::<String, HashError>(HashError::Backend),
        r matches Ok(hashed) ==> password_matches(secret@, hashed@),
{
    hash_with_cost(secret, bcrypt_default_cost())
}

/// The answer for a finished bcrypt check: `true` only if the check ran
/// and said yes. An error counts as a mismatch.
pub fn verdict_to_bool<E>(outcome: Result<bool, E>) -> (accepted: bool)
    ensures
        accepted == (outcome matches Ok(answer) && answer),
{
    match outcome {
        Ok(answer) => answer,
        Err(_) => false,
    }
}

/// Checks `secret` against a stored hash. Never fails: a hash that cannot
/// be read, or any other error of the backend, is a mismatch.
pub fn verify(secret: &str, hashed: &str) -> (accepted: bool)
    ensures
        accepted == password_matches(secret@, hashed@),
{
    verdict_to_bool(bcrypt_verify(secret, hashed))
}

} // verus!
