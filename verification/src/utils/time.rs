//! Points in time, held as a UNIX timestamp, and the calls into `chrono`.

use chrono::{DateTime, TimeDelta, Utc};
use std::time::{SystemTime, UNIX_EPOCH};
use vstd::prelude::*;

verus! {

/// A point in time in UTC: whole seconds since the UNIX epoch and the
/// nanoseconds past that second.
#[derive(Clone, Copy, Debug, PartialEq, Eq, Structural, PartialOrd, Ord, Hash)]
pub struct UtcDateTime {
    pub seconds: i64,
    pub nanoseconds: u32,
}

/// Whether the nanoseconds lie within one second (no leap-second form).
pub open spec fn is_regular(at: UtcDateTime) -> bool {
    at.nanoseconds < 1_000_000_000
}

/// A reading of the system clock: the whole seconds and the nanoseconds
/// since the UNIX epoch, or none when the clock is set before it. Its field
/// is private and only `system_clock_since_epoch` makes one, so a reading
/// held anywhere else is one that the clock gave.
#[derive(Clone, Copy)]
pub struct ClockReading {
    since: Option<(u64, u32)>,
}

impl View for ClockReading {
    type V = Option<(u64, u32)>;

    closed spec fn view(&self) -> Option<(u64, u32)> {
        self.since
    }
}

/// Calls `SystemTime::now().duration_since(UNIX_EPOCH)`: the whole seconds
/// and the nanoseconds of the system clock since the UNIX epoch, or `None`
/// when the clock is set before the epoch. As std documents
/// `Duration::subsec_nanos`, the nanoseconds lie within a second; the
/// reading itself is whatever the clock says.
#[verifier::external_body]
pub(crate) fn system_clock_since_epoch() -> (reading: ClockReading)
    ensures
        reading@ matches Some((_, nanos)) ==> nanos < 1_000_000_000,
{
    ClockReading { since: SystemTime::now().duration_since(UNIX_EPOCH).ok().map(|d| (d.as_secs(), d.subsec_nanos())) }
}

impl ClockReading {
    /// The point in time of this reading (see `utc_of_reading`).
    pub fn utc(&self) -> (now: Option<UtcDateTime>)
        ensures
            now == utc_of_reading(self@),
    {
        utc_from_reading(self.since)
    }
}

/// The point in time of a reading of the system clock (whole seconds and
/// nanoseconds since the UNIX epoch): `None` when there is no reading or its
/// seconds do not fit a timestamp.
pub open spec fn utc_of_reading(since: Option<(u64, u32)>) -> Option<UtcDateTime> {
    match since {
        Some((seconds, nanoseconds)) => if seconds <= i64::MAX {
            Some(UtcDateTime { seconds: seconds as i64, nanoseconds })
        } else {
            None
        },
        None => None,
    }
}

/// Converts a reading of the system clock into a point in time.
pub fn utc_from_reading(since: Option<(u64, u32)>) -> (now: Option<UtcDateTime>)
    ensures
        now == utc_of_reading(since),
{
    match since {
        Some((seconds, nanoseconds)) => if seconds <= i64::MAX as u64 {
            Some(UtcDateTime { seconds: seconds as i64, nanoseconds })
        } else {
            None
        },
        None => None,
    }
}

/// The current time in UTC, read from the system clock as `chrono::Utc::now`
/// reads it; `None` when the clock is set before the UNIX epoch or beyond
/// what a timestamp can hold.
pub fn utc_now() -> (now: Option<UtcDateTime>)
    ensures
        exists|since: Option<(u64, u32)>|
            (since matches Some((_, nanos)) ==> nanos < 1_000_000_000) && now == #[trigger] utc_of_reading(since),
        now matches Some(at) ==> at.seconds >= 0 && is_regular(at),
{
    let reading = system_clock_since_epoch();
    reading.utc()
}

/// What `DateTime::<Utc>::checked_add_signed(TimeDelta::hours(hours))` gives
/// for the instant `at` (`None` when the instant or the sum is out of
/// `chrono`'s range).
pub uninterp spec fn chrono_checked_add_hours(at: UtcDateTime, hours: i64) -> Option<UtcDateTime>;

/// The greatest timestamp, in seconds, up to which this library relies on
/// `chrono` to represent an instant and one some hours later: well inside
/// its range, which ends in the year 262142 (about 8.2e12 seconds).
pub const CHRONO_SAFE_SECONDS: i64 = 8_000_000_000_000;

/// Calls `DateTime::<Utc>::from_timestamp` and `checked_add_signed` with
/// `TimeDelta::hours`. Besides the name of the result, the contract states
/// what `chrono` documents and its source shows for an instant that is not a
/// leap second: a sum, when there is one, is `hours` hours later with the same
/// nanoseconds; and for an instant from the epoch up to
/// `CHRONO_SAFE_SECONDS` and up to a million hours there is one, as both the
/// instant and the sum lie within the years `chrono` represents. Where else
/// the sum is out of range is left to `chrono`.
#[verifier::external_body]
pub(crate) fn checked_add_hours(at: UtcDateTime, hours: i64) -> (res: Option<UtcDateTime>)
    requires
        -1_000_000_000 <= hours <= 1_000_000_000,
    ensures
        res == chrono_checked_add_hours(at, hours),
        is_regular(at) ==> (res matches Some(later) ==> later.seconds == at.seconds + 3600 * hours
            && later.nanoseconds == at.nanoseconds),
        is_regular(at) && 0 <= at.seconds <= CHRONO_SAFE_SECONDS && 0 <= hours <= 1_000_000 ==> res is Some,
{
    match DateTime::<Utc>::from_timestamp(at.seconds, at.nanoseconds) {
        Some(start) => match start.checked_add_signed(TimeDelta::hours(hours)) {
            Some(end) => Some(UtcDateTime { seconds: end.timestamp(), nanoseconds: end.timestamp_subsec_nanos() }),
            None => None,
        },
        None => None,
    }
}

} // verus!
