//! Single-use recovery codes.
use vstd::prelude::*;

verus! {

/// What is kept of a recovery code, under the hash of it.
#[derive(Debug)]
pub struct RecoveryCodeRecord {
    pub user_email: String,
    pub consumed: bool,
}

/// Holds of a code that the account may still use.
pub open spec fn redeemable(current: Option<RecoveryCodeRecord>, user_email: Seq<char>) -> bool {
    match current {
        Some(record) => !record.consumed && record.user_email@ == user_email,
        None => false,
    }
}

/// The record as it stands once its code has been used.
pub open spec fn as_consumed(record: RecoveryCodeRecord) -> RecoveryCodeRecord {
    RecoveryCodeRecord { consumed: true, ..record }
}

/// The record to write when an account presents a code, given the record that
/// the transaction read under the code's hash; nothing where the code is
/// unknown, used, or belongs to someone else, which are not told apart. The
/// code is accepted exactly where there is something to write.
pub fn redeem(current: Option<RecoveryCodeRecord>, user_email: &String) -> (r: Option<
    RecoveryCodeRecord,
>)
    ensures
        r == (if redeemable(current, user_email@) {
            Some(as_consumed(current->0))
        } else {
            None
        }),
{
    match current {
        None => None,
        Some(record) => {
            if record.consumed || record.user_email != *user_email {
                return None;
            }
            let mut consumed = record;
            consumed.consumed = true;
            Some(consumed)
        },
    }
}

/// A code that was accepted once is never accepted again, from anyone.
pub proof fn codes_are_single_use(
    record: RecoveryCodeRecord,
    user_email: Seq<char>,
    other_email: Seq<char>,
)
    requires
        redeemable(Some(record), user_email),
    ensures
        !redeemable(Some(as_consumed(record)), other_email),
{
}

/// A code is worth nothing to any account but its own.
pub proof fn codes_belong_to_one_account(
    record: RecoveryCodeRecord,
    user_email: Seq<char>,
    other_email: Seq<char>,
)
    requires
        redeemable(Some(record), user_email),
        other_email != user_email,
    ensures
        !redeemable(Some(record), other_email),
{
}

/// A code can be redeemed exactly where it is known, has not been used and
/// belongs to the account. Redeeming it marks it as used and changes nothing
/// else.
pub proof fn unused_codes_can_be_redeemed(
    record: RecoveryCodeRecord,
    user_email: Seq<char>,
)
    ensures
        redeemable(Some(record), user_email) <==> !record.consumed && record.user_email@
            == user_email,
        !redeemable(None, user_email),
        as_consumed(record).consumed,
        as_consumed(record).user_email == record.user_email,
{
}

} // verus!
