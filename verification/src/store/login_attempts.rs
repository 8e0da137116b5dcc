//! The count of failed logins per email address, and the lockout it leads to.
use vstd::prelude::*;

use super::LoginAttemptState;
use crate::time::{utc_now, utc_read, Timestamp, NANOS_PER_SECOND, SECONDS_PER_MINUTE};

verus! {

// Lenient enough not to lock out a user over a few typos, tight enough to
// blunt guessing that is spread over many source addresses.
pub const LOGIN_FAILURE_THRESHOLD: u32 = 10;

pub const LOGIN_ATTEMPT_WINDOW_MINUTES: i64 = 15;

pub const LOGIN_LOCKOUT_MINUTES: i64 = 15;

/// What is kept of the failed logins for one email address, whether or not
/// an account exists under it.
#[derive(Debug, Clone, Copy, PartialEq, Eq, Structural)]
pub struct LoginAttemptRecord {
    pub failure_count: u32,
    pub window_started_at: Timestamp,
    pub locked_until: Option<Timestamp>,
}

impl LoginAttemptRecord {
    /// Holds while the lockout lasts.
    pub open spec fn locked_at(self, now: Timestamp) -> bool {
        self.locked_until is Some && self.locked_until->0.nanos > now.nanos
    }

    /// Holds once the window in which failures are counted together is over.
    pub open spec fn window_over_at(self, now: Timestamp) -> bool {
        now.nanos - self.window_started_at.nanos > LOGIN_ATTEMPT_WINDOW_MINUTES
            * SECONDS_PER_MINUTE * NANOS_PER_SECOND
    }

    /// The record of a first failure.
    pub open spec fn first(now: Timestamp) -> LoginAttemptRecord {
        LoginAttemptRecord { failure_count: 1, window_started_at: now, locked_until: None }
    }
}

/// Whether the record locks logins out at that time, and until when.
pub open spec fn attempt_state(record: LoginAttemptRecord, now: Timestamp) -> LoginAttemptState {
    if record.locked_at(now) {
        LoginAttemptState::Locked { retry_after: record.locked_until->0 }
    } else {
        LoginAttemptState::Allowed
    }
}

pub fn login_attempt_state(record: &LoginAttemptRecord, now: Timestamp) -> (r: LoginAttemptState)
    ensures
        r == attempt_state(*record, now),
{
    match record.locked_until {
        Some(until) => if until.is_after(now) {
            LoginAttemptState::Locked { retry_after: until }
        } else {
            LoginAttemptState::Allowed
        },
        None => LoginAttemptState::Allowed,
    }
}

/// The state of an email address at that time: without a record nothing
/// stands against a login.
pub open spec fn checked_state(
    record: Option<LoginAttemptRecord>,
    now: Timestamp,
) -> LoginAttemptState {
    match record {
        Some(record) => attempt_state(record, now),
        None => LoginAttemptState::Allowed,
    }
}

pub fn check_at(record: Option<LoginAttemptRecord>, now: Timestamp) -> (r: LoginAttemptState)
    ensures
        r == checked_state(record, now),
{
    match record {
        Some(record) => login_attempt_state(&record, now),
        None => LoginAttemptState::Allowed,
    }
}

/// Whether a login may be tried now, given the record of the email address.
pub fn check(record: Option<LoginAttemptRecord>) -> (r: LoginAttemptState)
    ensures
        exists|now: Timestamp| now.valid() && utc_read(now) && r == #[trigger] checked_state(record, now),
{
    let now = utc_now();
    check_at(record, now)
}

/// The record after one more failure. A lockout that lasts is left as it is,
/// so that further guesses cannot prolong it.
pub open spec fn after_failure(
    current: Option<LoginAttemptRecord>,
    now: Timestamp,
) -> LoginAttemptRecord {
    match current {
        None => LoginAttemptRecord::first(now),
        Some(existing) => if existing.locked_at(now) {
            existing
        } else if existing.window_over_at(now) {
            LoginAttemptRecord::first(now)
        } else {
            LoginAttemptRecord {
                failure_count: (existing.failure_count + 1) as u32,
                window_started_at: existing.window_started_at,
                locked_until: if existing.failure_count + 1 >= LOGIN_FAILURE_THRESHOLD {
                    Some(
                        Timestamp {
                            nanos: now.after(LOGIN_LOCKOUT_MINUTES * SECONDS_PER_MINUTE) as i128,
                        },
                    )
                } else {
                    None
                },
            }
        },
    }
}

/// Holds where the counter of failures has room for one more, or is not
/// about to be raised.
pub open spec fn can_count(current: Option<LoginAttemptRecord>, now: Timestamp) -> bool {
    match current {
        Some(existing) => {
            &&& existing.window_started_at.valid()
            &&& existing.failure_count < u32::MAX || existing.locked_at(now)
                || existing.window_over_at(now)
        },
        None => true,
    }
}

/// The record to write in place of `current` after a failure at that time.
pub fn record_failure_at(current: Option<LoginAttemptRecord>, now: Timestamp) -> (r:
    LoginAttemptRecord)
    requires
        now.valid(),
        can_count(current, now),
    ensures
        r == after_failure(current, now),
{
    match current {
        None => LoginAttemptRecord {
            failure_count: 1,
            window_started_at: now,
            locked_until: None,
        },
        Some(existing) => {
            let still_locked: bool = match existing.locked_until {
                Some(until) => until.is_after(now),
                None => false,
            };
            let window_nanos: i128 = LOGIN_ATTEMPT_WINDOW_MINUTES as i128
                * SECONDS_PER_MINUTE as i128 * NANOS_PER_SECOND;
            let window_expired: bool = now.nanos - existing.window_started_at.nanos > window_nanos;
            if still_locked {
                existing
            } else if window_expired {
                LoginAttemptRecord { failure_count: 1, window_started_at: now, locked_until: None }
            } else {
                let failure_count: u32 = existing.failure_count + 1;
                let locked_until: Option<Timestamp> = if failure_count
                    >= LOGIN_FAILURE_THRESHOLD {
                    Some(now.plus_seconds(LOGIN_LOCKOUT_MINUTES * SECONDS_PER_MINUTE))
                } else {
                    None
                };
                LoginAttemptRecord {
                    failure_count,
                    window_started_at: existing.window_started_at,
                    locked_until,
                }
            }
        },
    }
}

/// The record to write in place of `current` after a failure now.
pub fn record_failure(current: Option<LoginAttemptRecord>) -> (r: LoginAttemptRecord)
    requires
        current matches Some(existing) ==> existing.window_started_at.valid()
            && existing.failure_count < u32::MAX,
    ensures
        exists|now: Timestamp| now.valid() && utc_read(now) && r == #[trigger] after_failure(current, now),
{
    let now = utc_now();
    record_failure_at(current, now)
}

/// The record after failures at the given times, counted from a clean slate.
pub open spec fn after_failures(times: Seq<Timestamp>) -> Option<LoginAttemptRecord>
    decreases times.len(),
{
    if times.len() == 0 {
        None
    } else {
        Some(after_failure(after_failures(times.drop_last()), times.last()))
    }
}

/// Holds of times that all fall within the window that the first one opens.
pub open spec fn within_one_window(times: Seq<Timestamp>) -> bool {
    forall|i: int|
        0 <= i < times.len() ==> (#[trigger] times[i]).nanos - times[0].nanos
            <= LOGIN_ATTEMPT_WINDOW_MINUTES * SECONDS_PER_MINUTE * NANOS_PER_SECOND
}

/// Failures within one window are counted together. Fewer than the threshold
/// lock nothing; the one that reaches it locks logins out from that moment
/// on, for as long as a lockout lasts.
pub proof fn threshold_failures_lock_out(times: Seq<Timestamp>)
    requires
        0 < times.len() <= LOGIN_FAILURE_THRESHOLD,
        within_one_window(times),
        forall|i: int| 0 <= i < times.len() ==> (#[trigger] times[i]).valid(),
    ensures
        after_failures(times) matches Some(record) && {
            &&& record.failure_count == times.len()
            &&& record.window_started_at == times[0]
            &&& times.len() < LOGIN_FAILURE_THRESHOLD ==> record.locked_until is None
            &&& times.len() == LOGIN_FAILURE_THRESHOLD ==> {
                &&& record.locked_until is Some
                &&& record.locked_until->0.nanos == times.last().after(
                    LOGIN_LOCKOUT_MINUTES * SECONDS_PER_MINUTE,
                )
                &&& checked_state(Some(record), times.last()) == (LoginAttemptState::Locked {
                    retry_after: record.locked_until->0,
                })
            }
        },
    decreases times.len(),
{
    let earlier = times.drop_last();
    if earlier.len() > 0 {
        assert(earlier[0] == times[0]);
        assert forall|i: int| 0 <= i < earlier.len() implies (#[trigger] earlier[i]).nanos
            - earlier[0].nanos <= LOGIN_ATTEMPT_WINDOW_MINUTES * SECONDS_PER_MINUTE
            * NANOS_PER_SECOND && earlier[i].valid() by {
            assert(earlier[i] == times[i]);
        }
        threshold_failures_lock_out(earlier);
        assert(times.last() == times[times.len() - 1]);
    } else {
        assert(after_failures(earlier) is None);
    }
}

/// Guesses during a lockout neither prolong it nor change anything else.
pub proof fn lockout_is_not_extended(record: LoginAttemptRecord, now: Timestamp)
    requires
        record.locked_at(now),
    ensures
        after_failure(Some(record), now) == record,
{
}

/// A lockout ends by itself: from the moment it names on, logins are
/// accepted again.
pub proof fn lockout_ends(record: LoginAttemptRecord, now: Timestamp)
    requires
        record.locked_until is Some,
        now.nanos >= record.locked_until->0.nanos,
    ensures
        checked_state(Some(record), now) == LoginAttemptState::Allowed,
{
}

/// With the record deleted, as a successful login does, failures count from
/// one again.
pub proof fn reset_clears_history(now: Timestamp)
    ensures
        checked_state(None, now) == LoginAttemptState::Allowed,
        after_failure(None, now) == LoginAttemptRecord::first(now),
        after_failure(None, now).failure_count == 1,
{
}

/// What holds of every record that a run of failures leaves, as long as the
/// clock does not run backwards: a lockout stands exactly from the threshold
/// on and outlasts the window, and the count stays far below its type's limit.
pub open spec fn well_formed(record: LoginAttemptRecord) -> bool {
    let window = LOGIN_ATTEMPT_WINDOW_MINUTES * SECONDS_PER_MINUTE * NANOS_PER_SECOND;
    &&& record.failure_count >= 1
    &&& record.locked_until is Some <==> record.failure_count >= LOGIN_FAILURE_THRESHOLD
    &&& record.failure_count == LOGIN_FAILURE_THRESHOLD ==> record.locked_until->0.nanos
        >= record.window_started_at.nanos + window
    &&& record.failure_count > LOGIN_FAILURE_THRESHOLD ==> record.failure_count
        == LOGIN_FAILURE_THRESHOLD + 1 && record.locked_until->0.nanos
        >= record.window_started_at.nanos + 2 * window
}

/// Recording a failure keeps records well formed, and can always count it.
pub proof fn failures_keep_records_well_formed(
    current: Option<LoginAttemptRecord>,
    now: Timestamp,
)
    requires
        now.valid(),
        current matches Some(existing) ==> {
            &&& well_formed(existing)
            &&& existing.window_started_at.valid()
            &&& existing.window_started_at.nanos <= now.nanos
        },
    ensures
        can_count(current, now),
        well_formed(after_failure(current, now)),
        after_failure(current, now).window_started_at.valid(),
        after_failure(current, now).window_started_at.nanos <= now.nanos,
{
}

/// A window is over fifteen minutes after the failure that opened it. The next
/// failure then counts as the first of a new one, however many there were
/// before.
pub proof fn failures_are_forgotten_after_their_window(
    existing: LoginAttemptRecord,
    now: Timestamp,
)
    requires
        existing.locked_until matches Some(until) ==> until.nanos <= now.nanos,
        now.nanos > existing.window_started_at.nanos + 900_000_000_000,
    ensures
        after_failure(Some(existing), now).failure_count == 1,
        after_failure(Some(existing), now).window_started_at == now,
        after_failure(Some(existing), now).locked_until is None,
{
}

/// Until then each failure counts as one more in the same window. From the
/// tenth on it locks logins out for fifteen minutes, and before that it locks
/// nothing.
pub proof fn failures_in_their_window_add_up(existing: LoginAttemptRecord, now: Timestamp)
    requires
        now.valid(),
        existing.locked_until matches Some(until) ==> until.nanos <= now.nanos,
        now.nanos <= existing.window_started_at.nanos + 900_000_000_000,
        existing.failure_count < u32::MAX,
    ensures
        ({
            let after = after_failure(Some(existing), now);
            &&& after.failure_count == existing.failure_count + 1
            &&& after.window_started_at == existing.window_started_at
            &&& existing.failure_count < 9 ==> after.locked_until is None
            &&& existing.failure_count >= 9 ==> {
                &&& after.locked_until is Some
                &&& after.locked_until->0.nanos == now.nanos + 900_000_000_000
            }
        }),
{
}

/// A lockout stands against logins up to the moment it names, and nothing else
/// does.
pub proof fn only_a_lasting_lockout_stands_in_the_way(
    record: Option<LoginAttemptRecord>,
    until: Timestamp,
    now: Timestamp,
)
    ensures
        checked_state(record, now) == (LoginAttemptState::Locked { retry_after: until }) <==> {
            &&& record is Some
            &&& record->0.locked_until == Some(until)
            &&& now.nanos < until.nanos
        },
        checked_state(record, now) == LoginAttemptState::Allowed <==> {
            ||| record is None
            ||| record->0.locked_until is None
            ||| record->0.locked_until->0.nanos <= now.nanos
        },
{
}

/// Holds of ten failures in a row that all lie within fifteen minutes of the
/// first of them.
pub open spec fn ten_within_a_quarter(times: Seq<Timestamp>, first: int) -> bool {
    &&& 0 <= first
    &&& first + 10 <= times.len()
    &&& forall|i: int|
        first <= i < first + 10 ==> (#[trigger] times[i]).nanos <= times[first].nanos
            + 900_000_000_000
}

/// What the failures so far tell of the record that they leave: below ten they
/// are the last ones, all within the window; from ten on there were ten within
/// one.
spec fn counted_since(times: Seq<Timestamp>, first: int, record: LoginAttemptRecord) -> bool {
    &&& 0 <= first < times.len()
    &&& record.window_started_at == times[first]
    &&& record.failure_count < 10 ==> {
        &&& record.locked_until is None
        &&& record.failure_count == times.len() - first
        &&& forall|i: int|
            first <= i < times.len() ==> (#[trigger] times[i]).nanos <= times[first].nanos
                + 900_000_000_000
    }
    &&& record.failure_count >= 10 ==> ten_within_a_quarter(times, first)
}

/// Every run of failures leaves a record that counts from one of them.
proof fn failures_are_counted_from_one_of_them(times: Seq<Timestamp>) -> (first: int)
    requires
        0 < times.len() <= u32::MAX,
    ensures
        after_failures(times) is Some,
        after_failures(times)->0.failure_count <= times.len(),
        counted_since(times, first, after_failures(times)->0),
    decreases times.len(),
{
    let earlier = times.drop_last();
    let last = times.len() - 1;
    assert(times.last() == times[last]);
    if earlier.len() == 0 {
        assert(after_failures(earlier) is None);
        0
    } else {
        let before = failures_are_counted_from_one_of_them(earlier);
        assert(forall|i: int| 0 <= i < earlier.len() ==> earlier[i] == #[trigger] times[i]);
        let existing = after_failures(earlier)->0;
        let now = times.last();
        if existing.locked_at(now) {
            assert(ten_within_a_quarter(earlier, before));
            assert(ten_within_a_quarter(times, before));
            before
        } else if now.nanos > existing.window_started_at.nanos + 900_000_000_000 {
            failures_are_forgotten_after_their_window(existing, now);
            last
        } else {
            if existing.failure_count >= 10 {
                assert(ten_within_a_quarter(earlier, before));
                assert(ten_within_a_quarter(times, before));
            }
            before
        }
    }
}

/// However failures follow one another, they lock an address out only where
/// ten of them in a row lie within fifteen minutes of the first of the ten.
pub proof fn lockouts_need_ten_failures_in_a_quarter(times: Seq<Timestamp>, now: Timestamp)
    requires
        times.len() <= u32::MAX,
        checked_state(after_failures(times), now) is Locked,
    ensures
        exists|first: int| ten_within_a_quarter(times, first),
{
    let first = failures_are_counted_from_one_of_them(times);
    assert(ten_within_a_quarter(times, first));
}

} // verus!
