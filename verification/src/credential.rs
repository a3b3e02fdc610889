//! The credential subsystem's computational core: password hashing and
//! verification, and the decision taken on a worker pool's reply.
//!
//! Hashing is CPU-bound and must not run on the request-serving layer;
//! the surrounding process submits [`hash_password`] /
//! [`validate_password`] to its worker pool and hands the reply to
//! [`worker_reply`], which turns a closed completion channel into
//! `WorkerUnavailable`.
use vstd::prelude::*;

use crate::errors::{ApiResult, AppError};

verus! {

/// Whether bcrypt accepts `password` against `digest`: bcrypt
/// verification re-derives the hash from the password and the digest's
/// own salt and cost, so it depends on these two values alone.
pub uninterp spec fn bcrypt_verifies(password: Seq<char>, digest: Seq<char>) -> bool;

/// Whether `digest` is a well-formed bcrypt hash — the 60-character
/// form with a recognised version and an in-range cost that
/// `bcrypt::verify` parses without error. A function of the digest
/// alone: verification takes everything else it needs from the digest
/// itself.
pub uninterp spec fn bcrypt_digest_wf(digest: Seq<char>) -> bool;

/// Relies on `bcrypt::hash` with the crate's default cost: the digest is
/// salted from OS randomness, and `bcrypt::verify` re-derives exactly
/// that digest from the password and its embedded salt and cost, so
/// every digest this returns is a well-formed 60-character bcrypt hash
/// that verifies against the password it was made from. It fails only
/// when the random salt cannot be drawn.
#[verifier::external_body]
pub fn hash_password(password: &str) -> (r: ApiResult<String>)
    ensures
        r matches Ok(digest) ==> bcrypt_verifies(password@, digest@) && bcrypt_digest_wf(digest@)
            && digest@.len() == 60,
        r matches Err(e) ==> e == AppError::HashingFailure,
{
    match bcrypt::hash(password, bcrypt::DEFAULT_COST) {
        Ok(digest) => Ok(digest),
        Err(_) => Err(AppError::HashingFailure),
    }
}

/// Relies on `bcrypt::verify`: on a well-formed digest it always
/// returns the verification flag — true exactly when the password
/// matches the digest; on anything else it always fails. Which of the
/// two happens is a function of the digest alone.
#[verifier::external_body]
pub fn validate_password(password_input: &str, password_to_cmp: &str) -> (r: ApiResult<bool>)
    ensures
        r == (if bcrypt_digest_wf(password_to_cmp@) {
            Ok::<bool, AppError>(bcrypt_verifies(password_input@, password_to_cmp@))
        } else {
            Err::<bool, AppError>(AppError::HashingFailure)
        }),
{
    match bcrypt::verify(password_input, password_to_cmp) {
        Ok(b) => Ok(b),
        Err(_) => Err(AppError::HashingFailure),
    }
}

/// The decision on a worker round-trip: a reply is passed through as it
/// is, and a completion channel closed before any reply arrived — the
/// pool crashed or the request was abandoned — is `WorkerUnavailable`.
pub fn worker_reply<T>(reply: Option<ApiResult<T>>) -> (r: ApiResult<T>)
    ensures
        reply matches Some(inner) ==> r == inner,
        reply is None ==> r == Err::<T, AppError>(AppError::WorkerUnavailable),
{
    match reply {
        Some(inner) => inner,
        None => Err(AppError::WorkerUnavailable),
    }
}

} // verus!
