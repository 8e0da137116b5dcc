//! Creating an account and confirming its enrollment.
use vstd::prelude::*;

use super::recovery_codes::RecoveryCodeRecord;
use super::{InsertFailure, StoreError};
use crate::time::{utc_now, utc_read, Timestamp};
use crate::user::{NewUser, User};

verus! {

/// The account that a registration leaves at that time: not enrolled yet.
pub open spec fn created_user(new_user: NewUser, now: Timestamp) -> User {
    User {
        user_id: new_user.user_id,
        email: new_user.email,
        password_hash: new_user.password_hash,
        created_at: now,
        mfa_secret: new_user.mfa_secret,
        mfa_enrolled: false,
    }
}

pub fn create_user_at(new_user: NewUser, now: Timestamp) -> (r: User)
    ensures
        r == created_user(new_user, now),
{
    User {
        user_id: new_user.user_id,
        email: new_user.email,
        password_hash: new_user.password_hash,
        created_at: now,
        mfa_secret: new_user.mfa_secret,
        mfa_enrolled: false,
    }
}

/// The account to insert for a registration that happens now.
pub fn create_user(new_user: NewUser) -> (r: User)
    ensures
        exists|now: Timestamp| now.valid() && utc_read(now) && r == #[trigger] created_user(new_user, now),
{
    let now = utc_now();
    create_user_at(new_user, now)
}

/// The error of an attempt to insert an account: one that is there already
/// has the email address.
pub fn user_insert_error(failure: InsertFailure) -> (r: StoreError)
    ensures
        r == (match failure {
            InsertFailure::Conflict => StoreError::DuplicateEmail,
            InsertFailure::Other(message) => StoreError::Backend(message),
        }),
{
    match failure {
        InsertFailure::Conflict => StoreError::DuplicateEmail,
        InsertFailure::Other(message) => StoreError::Backend(message),
    }
}

/// A record to insert under the hash of a recovery code.
pub struct RecoveryCodeEntry {
    pub code_hash: String,
    pub record: RecoveryCodeRecord,
}

/// What the transaction that confirms an enrollment writes.
pub enum ConfirmMfaOutcome {
    /// The account, now enrolled, in place of the one it stands for, and the
    /// recovery codes as new records, all of it or nothing.
    Confirmed { user: User, recovery_codes: Vec<RecoveryCodeEntry> },
    AlreadyEnrolled,
    NotFound,
}

/// Holds of the entries that keep these hashes for an account: one unused
/// code for each, in the same order.
pub open spec fn entries_for(
    entries: Seq<RecoveryCodeEntry>,
    email: Seq<char>,
    hashes: Seq<String>,
) -> bool {
    &&& entries.len() == hashes.len()
    &&& forall|i: int|
        0 <= i < hashes.len() ==> {
            &&& (#[trigger] entries[i]).code_hash@ == hashes[i]@
            &&& entries[i].record.user_email@ == email
            &&& !entries[i].record.consumed
        }
}

/// Whether an enrollment is confirmed, given the account that the transaction
/// read.
pub open spec fn confirmed(
    current: Option<User>,
    email: Seq<char>,
    hashes: Seq<String>,
    outcome: ConfirmMfaOutcome,
) -> bool {
    match current {
        None => outcome is NotFound,
        Some(user) => if user.mfa_enrolled {
            outcome is AlreadyEnrolled
        } else {
            outcome matches ConfirmMfaOutcome::Confirmed { user: enrolled, recovery_codes } && {
                &&& enrolled == (User { mfa_enrolled: true, ..user })
                &&& entries_for(recovery_codes@, email, hashes)
            }
        },
    }
}

/// The writes that confirm the enrollment of an account and keep its recovery
/// codes. A confirmed account without codes could not be recovered, so both
/// go into one transaction.
pub fn confirm_mfa_enrollment(
    current: Option<User>,
    email: &str,
    recovery_code_hashes: &Vec<String>,
) -> (r: ConfirmMfaOutcome)
    ensures
        confirmed(current, email@, recovery_code_hashes@, r),
{
    match current {
        None => ConfirmMfaOutcome::NotFound,
        Some(user) => {
            if user.mfa_enrolled {
                return ConfirmMfaOutcome::AlreadyEnrolled;
            }
            let mut enrolled = user;
            enrolled.mfa_enrolled = true;
            let mut recovery_codes: Vec<RecoveryCodeEntry> = Vec::new();
            let mut i: usize = 0;
            while i < recovery_code_hashes.len()
                invariant
                    i <= recovery_code_hashes@.len(),
                    entries_for(
                        recovery_codes@,
                        email@,
                        recovery_code_hashes@.take(i as int),
                    ),
                decreases recovery_code_hashes@.len() - i,
            {
                recovery_codes.push(
                    RecoveryCodeEntry {
                        code_hash: recovery_code_hashes[i].clone(),
                        record: RecoveryCodeRecord {
                            user_email: email.to_string(),
                            consumed: false,
                        },
                    },
                );
                i = i + 1;
            }
            assert(recovery_code_hashes@.take(i as int) == recovery_code_hashes@);
            ConfirmMfaOutcome::Confirmed { user: enrolled, recovery_codes }
        },
    }
}

/// What the caller of a confirmation is told.
pub fn confirm_mfa_result(outcome: ConfirmMfaOutcome) -> (r: Result<User, StoreError>)
    ensures
        r == (match outcome {
            ConfirmMfaOutcome::Confirmed { user, .. } => Ok(user),
            ConfirmMfaOutcome::AlreadyEnrolled => Err(StoreError::MfaAlreadyEnrolled),
            ConfirmMfaOutcome::NotFound => Err(StoreError::NotFound),
        }),
{
    match outcome {
        ConfirmMfaOutcome::Confirmed { user, .. } => Ok(user),
        ConfirmMfaOutcome::AlreadyEnrolled => Err(StoreError::MfaAlreadyEnrolled),
        ConfirmMfaOutcome::NotFound => Err(StoreError::NotFound),
    }
}

/// An enrollment is confirmed once. A second confirmation finds the account
/// enrolled and writes nothing, so no second set of codes is ever kept.
pub proof fn enrollment_is_confirmed_once(
    user: User,
    email: Seq<char>,
    hashes: Seq<String>,
    outcome: ConfirmMfaOutcome,
    later_hashes: Seq<String>,
    later: ConfirmMfaOutcome,
)
    requires
        !user.mfa_enrolled,
        confirmed(Some(user), email, hashes, outcome),
        confirmed(Some(outcome->user), email, later_hashes, later),
    ensures
        outcome is Confirmed,
        later is AlreadyEnrolled,
{
}

/// A new account cannot be enrolled before its confirmation.
pub proof fn new_accounts_are_not_enrolled(new_user: NewUser, now: Timestamp)
    ensures
        !created_user(new_user, now).mfa_enrolled,
{
}

/// An account is created with what the registration hands over, unchanged, at
/// the time given.
pub proof fn accounts_keep_what_they_are_given(new_user: NewUser, now: Timestamp)
    ensures
        created_user(new_user, now).user_id == new_user.user_id,
        created_user(new_user, now).email == new_user.email,
        created_user(new_user, now).password_hash == new_user.password_hash,
        created_user(new_user, now).mfa_secret == new_user.mfa_secret,
        created_user(new_user, now).created_at == now,
{
}

/// A confirmation succeeds exactly where there is an account that has not been
/// confirmed. It changes nothing of the account but that, and keeps one unused
/// code of the address for each hash, in the same order.
pub proof fn confirmations_change_the_enrollment_alone(
    current: Option<User>,
    email: Seq<char>,
    hashes: Seq<String>,
    outcome: ConfirmMfaOutcome,
)
    requires
        confirmed(current, email, hashes, outcome),
    ensures
        outcome is NotFound <==> current is None,
        outcome is AlreadyEnrolled <==> current is Some && current->0.mfa_enrolled,
        outcome is Confirmed <==> current is Some && !current->0.mfa_enrolled,
        outcome matches ConfirmMfaOutcome::Confirmed { user, recovery_codes } ==> {
            &&& user.mfa_enrolled
            &&& user.user_id == current->0.user_id
            &&& user.email == current->0.email
            &&& user.password_hash == current->0.password_hash
            &&& user.created_at == current->0.created_at
            &&& user.mfa_secret == current->0.mfa_secret
            &&& recovery_codes@.len() == hashes.len()
            &&& forall|i: int|
                0 <= i < hashes.len() ==> {
                    &&& (#[trigger] recovery_codes@[i]).code_hash@ == hashes[i]@
                    &&& recovery_codes@[i].record.user_email@ == email
                    &&& !recovery_codes@[i].record.consumed
                }
        },
{
}

} // verus!
