//! What is kept between requests, and what each store operation does to it.
//! A database performs the reads and writes; the functions here say which.
use vstd::prelude::*;

use crate::time::Timestamp;

pub mod login_attempts;
pub mod recovery_codes;
pub mod refresh_tokens;
pub mod token_families;
pub mod token_histories;
pub mod users;

verus! {

#[derive(Debug)]
pub enum StoreError {
    DuplicateEmail,
    /// The `jti` of a DPoP proof has been seen before: the proof is a replay.
    Replayed,
    /// No record exists under the presented identifier.
    NotFound,
    /// The record exists, but its time has passed.
    Expired,
    /// A refresh token that had been rotated away was presented again. Its
    /// whole family has been revoked.
    Reused,
    /// A second confirmation of an account whose enrollment was complete.
    MfaAlreadyEnrolled,
    Backend(String),
}

/// What a store error says in a log.
pub open spec fn store_error_message(error: StoreError) -> Seq<char> {
    match error {
        StoreError::DuplicateEmail => "email already registered"@,
        StoreError::Replayed => "DPoP proof jti already used"@,
        StoreError::NotFound => "record not found"@,
        StoreError::Expired => "record expired"@,
        StoreError::Reused => "refresh token reused; family revoked"@,
        StoreError::MfaAlreadyEnrolled => "MFA already enrolled for this account"@,
        StoreError::Backend(message) => "backend error: "@ + message@,
    }
}

impl StoreError {
    /// What the error says in a log.
    pub fn message(&self) -> (r: String)
        ensures
            r@ == store_error_message(*self),
    {
        match self {
            StoreError::DuplicateEmail => "email already registered".to_string(),
            StoreError::Replayed => "DPoP proof jti already used".to_string(),
            StoreError::NotFound => "record not found".to_string(),
            StoreError::Expired => "record expired".to_string(),
            StoreError::Reused => "refresh token reused; family revoked".to_string(),
            StoreError::MfaAlreadyEnrolled => "MFA already enrolled for this account".to_string(),
            StoreError::Backend(message) => {
                let mut text = "backend error: ".to_string();
                text.append(message.as_str());
                text
            },
        }
    }
}

/// Why a database refused to insert a new document.
pub enum InsertFailure {
    /// A document stands under that identifier.
    Conflict,
    Other(String),
}

/// Whether logins for an email address are accepted at the moment.
#[derive(Debug, Clone, Copy, PartialEq, Eq, Structural)]
pub enum LoginAttemptState {
    Allowed,
    Locked { retry_after: Timestamp },
}

/// What is kept of a DPoP proof, under its `jti`.
#[derive(Debug, Clone, Copy, PartialEq, Eq, Structural)]
pub struct DpopJtiRecord {
    pub expires_at: Timestamp,
}

/// The error of an attempt to record a `jti`: one that is there already marks
/// a replayed proof.
pub fn jti_insert_error(failure: InsertFailure) -> (r: StoreError)
    ensures
        r == (match failure {
            InsertFailure::Conflict => StoreError::Replayed,
            InsertFailure::Other(message) => StoreError::Backend(message),
        }),
{
    match failure {
        InsertFailure::Conflict => StoreError::Replayed,
        InsertFailure::Other(message) => StoreError::Backend(message),
    }
}

} // verus!
