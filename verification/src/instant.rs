//! Instants on the UTC time line, counted in nanoseconds since the Unix
//! epoch, and the look-back windows that the summary counts over.

use vstd::prelude::*;
use time::{Duration, OffsetDateTime};

verus! {

/// Nanoseconds in one day of 86 400 seconds.
pub const NANOS_PER_DAY: i128 = 86_400_000_000_000;

/// -9999-01-01T00:00:00Z, the first instant of the calendar.
pub const MIN_UNIX_NANOS: i128 = -377_705_116_800_000_000_000;

/// 9999-12-31T23:59:59.999999999Z, the last instant of the calendar.
pub const MAX_UNIX_NANOS: i128 = 253_402_300_799_999_999_999;

/// Days that the "today" window looks back.
pub const DAY_WINDOW_DAYS: u32 = 1;

/// Days that the "this week" window looks back.
pub const WEEK_WINDOW_DAYS: u32 = 7;

/// An instant, as nanoseconds since 1970-01-01T00:00:00Z.
#[derive(Clone, Copy, Debug, PartialEq, Eq, Structural)]
pub struct Timestamp {
    pub unix_nanos: i128,
}

impl View for Timestamp {
    type V = int;

    open spec fn view(&self) -> int {
        self.unix_nanos as int
    }
}

/// The instant lies within the calendar, years -9999 to 9999.
pub open spec fn in_calendar(unix_nanos: int) -> bool {
    MIN_UNIX_NANOS <= unix_nanos <= MAX_UNIX_NANOS
}

/// The instant `days` whole days before `unix_nanos`.
pub open spec fn days_before(unix_nanos: int, days: int) -> int {
    unix_nanos - days * NANOS_PER_DAY
}

/// Both look-back windows of an instant begin within the calendar.
pub open spec fn has_windows(now: int) -> bool {
    in_calendar(now) && in_calendar(days_before(now, WEEK_WINDOW_DAYS as int))
}

/// Subtracts whole days on the calendar of the `time` crate:
/// `OffsetDateTime::from_unix_timestamp_nanos`, then
/// `OffsetDateTime::checked_sub` of `Duration::days(days)`, then
/// `OffsetDateTime::unix_timestamp_nanos`.
///
/// Trusted: the first call fails exactly on a count outside the calendar;
/// the second yields the instant `days * 86 400` seconds earlier, with the
/// same time of day, and fails exactly where that instant is outside the
/// calendar; the third gives back the count of the instant it is handed.
#[verifier::external_body]
fn checked_days_before(unix_nanos: i128, days: u32) -> (earlier: Option<i128>)
    ensures
        earlier == (if in_calendar(unix_nanos as int) && in_calendar(
            days_before(unix_nanos as int, days as int),
        ) {
            Some(days_before(unix_nanos as int, days as int) as i128)
        } else {
            None::<i128>
        }),
{
    let at = OffsetDateTime::from_unix_timestamp_nanos(unix_nanos).ok()?;
    let earlier = at.checked_sub(Duration::days(i64::from(days)))?;
    Some(earlier.unix_timestamp_nanos())
}

impl Timestamp {
    /// The instant `unix_nanos` nanoseconds after the Unix epoch.
    pub fn from_unix_nanos(unix_nanos: i128) -> (at: Timestamp)
        ensures
            at@ == unix_nanos,
    {
        Timestamp { unix_nanos }
    }

    /// Nanoseconds from the Unix epoch to this instant.
    pub fn unix_nanos(&self) -> (n: i128)
        ensures
            n == self@,
    {
        self.unix_nanos
    }

    /// This instant is strictly later than `other`.
    pub fn is_after(&self, other: &Timestamp) -> (later: bool)
        ensures
            later == (self@ > other@),
    {
        self.unix_nanos > other.unix_nanos
    }

    /// The instant `days` whole days earlier, where both lie within the
    /// calendar.
    pub fn days_earlier(&self, days: u32) -> (earlier: Option<Timestamp>)
        ensures
            earlier is Some <==> in_calendar(self@) && in_calendar(days_before(self@, days as int)),
            earlier matches Some(at) ==> at@ == days_before(self@, days as int),
    {
        match checked_days_before(self.unix_nanos, days) {
            Some(unix_nanos) => Some(Timestamp { unix_nanos }),
            None => None,
        }
    }

    /// Decides whether the look-back windows of this instant can be formed.
    pub fn supports_windows(&self) -> (ok: bool)
        ensures
            ok == has_windows(self@),
    {
        self.unix_nanos <= MAX_UNIX_NANOS && self.unix_nanos >= MIN_UNIX_NANOS
            + WEEK_WINDOW_DAYS as i128 * NANOS_PER_DAY
    }
}

} // verus!
