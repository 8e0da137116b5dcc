//! Points in time and the clocks that are read.
use vstd::prelude::*;

verus! {

pub const NANOS_PER_SECOND: i128 = 1_000_000_000;

pub const SECONDS_PER_MINUTE: i64 = 60;

pub const SECONDS_PER_DAY: i64 = 86_400;

/// The first and the last second, counted from the Unix epoch, that a
/// calendar date of `chrono` can hold.
pub const MIN_UNIX_SECONDS: i64 = -8_334_601_228_800;

pub const MAX_UNIX_SECONDS: i64 = 8_210_266_876_799;

/// A point in time, in nanoseconds since the Unix epoch.
#[derive(Debug, Clone, Copy, PartialEq, Eq, Structural)]
pub struct Timestamp {
    pub nanos: i128,
}

impl Timestamp {
    /// Holds of every point in time that a calendar date can hold.
    pub open spec fn valid(self) -> bool {
        MIN_UNIX_SECONDS * NANOS_PER_SECOND <= self.nanos < (MAX_UNIX_SECONDS + 1)
            * NANOS_PER_SECOND
    }

    /// The time that is `seconds` later.
    pub open spec fn after(self, seconds: int) -> int {
        self.nanos + seconds * NANOS_PER_SECOND
    }

    /// The point in time `seconds` whole seconds and `nanos` nanoseconds
    /// after the Unix epoch.
    pub fn from_unix(seconds: i64, nanos: u32) -> (r: Timestamp)
        ensures
            r.nanos == seconds * NANOS_PER_SECOND + nanos,
    {
        Timestamp { nanos: seconds as i128 * NANOS_PER_SECOND + nanos as i128 }
    }

    pub fn plus_seconds(self, seconds: i64) -> (r: Timestamp)
        requires
            self.valid(),
        ensures
            r.nanos == self.after(seconds as int),
    {
        Timestamp { nanos: self.nanos + seconds as i128 * NANOS_PER_SECOND }
    }

    pub fn is_after(self, other: Timestamp) -> (r: bool)
        ensures
            r == (self.nanos > other.nanos),
    {
        self.nanos > other.nanos
    }

    pub fn earlier(self, other: Timestamp) -> (r: Timestamp)
        ensures
            r == (if self.nanos <= other.nanos { self } else { other }),
    {
        if self.nanos <= other.nanos {
            self
        } else {
            other
        }
    }
}

/// The whole seconds left from `now` until `until`; zero once it has passed.
pub open spec fn seconds_until(until: Timestamp, now: Timestamp) -> int {
    if until.nanos <= now.nanos {
        0
    } else {
        (until.nanos - now.nanos) / NANOS_PER_SECOND as int
    }
}

pub fn whole_seconds_until(until: Timestamp, now: Timestamp) -> (r: u64)
    requires
        until.valid(),
        now.valid(),
    ensures
        r == seconds_until(until, now),
{
    if until.nanos <= now.nanos {
        0
    } else {
        let left: i128 = until.nanos - now.nanos;
        let seconds: i128 = left / NANOS_PER_SECOND;
        seconds as u64
    }
}

/// `chrono::Utc::now`, as whole seconds since the Unix epoch and the
/// nanoseconds into that second. The system clock is not before the epoch,
/// or the call panics; what it says is within the calendar, with a fraction
/// below one second. Nothing else is known of it.
#[verifier::external_body]
fn utc_now_parts() -> (r: (i64, u32))
    ensures
        0 <= r.0 <= MAX_UNIX_SECONDS,
        r.1 < 1_000_000_000,
{
    let now = chrono::Utc::now();
    (now.timestamp(), now.timestamp_subsec_nanos())
}

/// Holds of a time of day that was read from the clock.
pub closed spec fn utc_read(time: Timestamp) -> bool {
    exists|parts: (i64, u32)| #[trigger]
        call_ensures(utc_now_parts, (), parts) && time.nanos == 1_000_000_000 * parts.0 + parts.1
}

/// The current time of day.
pub fn utc_now() -> (r: Timestamp)
    ensures
        r.valid(),
        r.nanos >= 0,
        utc_read(r),
{
    let (seconds, nanos): (i64, u32) = utc_now_parts();
    assert(call_ensures(utc_now_parts, (), (seconds, nanos)));
    Timestamp::from_unix(seconds, nanos)
}

/// `jsonwebtoken::get_current_timestamp`: the whole seconds since the Unix
/// epoch. It panics on a clock before the epoch; any count of seconds may
/// come back.
#[verifier::external_body]
fn current_timestamp() -> (r: u64) {
    jsonwebtoken::get_current_timestamp()
}

/// Holds of a count of seconds since the Unix epoch that was read from the
/// clock by which tokens are dated.
pub closed spec fn seconds_read(seconds: u64) -> bool {
    call_ensures(current_timestamp, (), seconds)
}

/// The current second, counted from the Unix epoch.
pub(crate) fn unix_now() -> (r: u64)
    ensures
        seconds_read(r),
{
    current_timestamp()
}

/// `SystemTime::elapsed` on the Unix epoch: the whole seconds since it, or
/// nothing where the clock stands before it. Nothing else is known of the
/// clock.
#[verifier::external_body]
fn system_seconds() -> (r: Option<u64>) {
    match std::time::UNIX_EPOCH.elapsed() {
        Ok(since) => Some(since.as_secs()),
        Err(_) => None,
    }
}

/// Holds of what was read from the system clock.
pub closed spec fn clock_read(clock: Option<u64>) -> bool {
    call_ensures(system_seconds, (), clock)
}

/// What the system clock shows: the whole seconds since the Unix epoch, or
/// nothing where it stands before it.
pub(crate) fn clock_now() -> (r: Option<u64>)
    ensures
        clock_read(r),
{
    system_seconds()
}

/// The time that is some seconds later lies that many thousand million
/// nanoseconds ahead.
pub proof fn seconds_are_counted_in_nanoseconds(time: Timestamp, seconds: int)
    ensures
        time.after(seconds) == time.nanos + 1_000_000_000 * seconds,
{
}

/// The whole seconds that are left are the most that fit before the time is
/// reached; none are once it has passed.
pub proof fn whole_seconds_fit_before_the_time(until: Timestamp, now: Timestamp)
    ensures
        until.nanos <= now.nanos ==> seconds_until(until, now) == 0,
        until.nanos > now.nanos ==> {
            &&& now.nanos + 1_000_000_000 * seconds_until(until, now) <= until.nanos
            &&& until.nanos < now.nanos + 1_000_000_000 * (seconds_until(until, now) + 1)
        },
{
}

/// A point in time is valid exactly between the first second that the calendar
/// holds and the end of the last.
pub proof fn valid_times_are_in_the_calendar(time: Timestamp)
    ensures
        time.valid() <==> -8_334_601_228_800_000_000_000 <= time.nanos
            < 8_210_266_876_800_000_000_000,
{
}

} // verus!
