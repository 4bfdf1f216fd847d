use vstd::prelude::*;
use crate::error::Error;

verus! {

/// Nanoseconds in one second.
pub const NANOS_PER_SECOND: u32 = 1_000_000_000;

/// The first second of the calendar that dates are written in: the first
/// second of the year 262144 BCE.
pub const FIRST_CALENDAR_SECOND: i64 = -8_334_601_228_800;

/// The last second of the calendar that dates are written in: the last
/// second of the year 262142.
pub const LAST_CALENDAR_SECOND: i64 = 8_210_266_876_799;

/// Whether a second, counted from the epoch, lies inside the calendar.
pub open spec fn in_calendar(epoch_seconds: int) -> bool {
    FIRST_CALENDAR_SECOND <= epoch_seconds <= LAST_CALENDAR_SECOND
}

/// Whether an instant is one that the clock can show: not before the epoch,
/// and not after the last second of the calendar.
pub open spec fn clock_range(now: Instant) -> bool {
    0 <= now.secs <= LAST_CALENDAR_SECOND
}

/// A point in time, in UTC: whole seconds since 1970-01-01T00:00:00Z, and the
/// nanoseconds that have passed within that second.
#[derive(Debug, Clone, Copy, PartialEq, Eq, Structural)]
pub struct Instant {
    pub secs: i64,
    pub nanos: u32,
}

impl Instant {
    /// The nanoseconds stay below one second.
    pub open spec fn wf(self) -> bool {
        self.nanos < NANOS_PER_SECOND
    }

    /// What `new` gives for each pair of numbers.
    pub open spec fn new_spec(secs: i64, nanos: u32) -> Option<Instant> {
        if nanos < NANOS_PER_SECOND {
            Some(Instant { secs, nanos })
        } else {
            None
        }
    }

    /// Makes an instant from its seconds and nanoseconds; `None` unless the
    /// nanoseconds stay below one second.
    pub fn new(secs: i64, nanos: u32) -> (made: Option<Instant>)
        ensures
            made == Instant::new_spec(secs, nanos),
            made matches Some(instant) ==> instant.wf(),
    {
        if nanos < NANOS_PER_SECOND {
            Some(Instant { secs, nanos })
        } else {
            None
        }
    }

    /// Makes an instant from the seconds and nanoseconds of a clock that counts
    /// a leap second as nanoseconds beyond one second: such nanoseconds are
    /// taken as the last nanosecond of the second.
    pub fn clamped(secs: i64, nanos: u32) -> (made: Instant)
        ensures
            made.wf(),
            made.secs == secs,
            made.nanos == if nanos < NANOS_PER_SECOND {
                nanos
            } else {
                (NANOS_PER_SECOND - 1) as u32
            },
    {
        if nanos < NANOS_PER_SECOND {
            Instant { secs, nanos }
        } else {
            Instant { secs, nanos: NANOS_PER_SECOND - 1 }
        }
    }

    /// The instant as one number: nanoseconds since the epoch.
    pub open spec fn nanos_since_epoch(self) -> int {
        self.secs * 1_000_000_000 + self.nanos
    }

    /// The instant a number of seconds later, if it can still be counted in 64
    /// bits.
    pub open spec fn plus_seconds_spec(self, seconds: u64) -> Option<Instant> {
        if self.secs + seconds <= i64::MAX {
            Some(Instant { secs: (self.secs + seconds) as i64, nanos: self.nanos })
        } else {
            None
        }
    }

    /// Moves an instant forward by whole seconds. `None` where the result
    /// would lie beyond the last second that 64 bits can count.
    pub fn plus_seconds(self, seconds: u64) -> (later: Option<Instant>)
        ensures
            later == self.plus_seconds_spec(seconds),
    {
        let sum: i128 = (self.secs as i128) + (seconds as i128);
        if sum > i64::MAX as i128 {
            None
        } else {
            Some(Instant { secs: sum as i64, nanos: self.nanos })
        }
    }

    /// The current time, read from the system clock.
    pub fn now() -> (now: Instant)
        ensures
            now.wf(),
            clock_range(now),
    {
        clock_now()
    }

    /// The instant written as an RFC 3339 date and time in UTC, to the second;
    /// `TimestampOutOfRange` where the calendar cannot hold it.
    pub fn to_rfc3339(self) -> (text: Result<String, Error>)
        ensures
            rfc3339_result(self.secs as int, text),
    {
        epoch_to_rfc3339(self.secs)
    }
}

/// The whole seconds that lie between two instants, whichever comes first.
pub open spec fn whole_seconds_between(a: Instant, b: Instant) -> int {
    let gap = a.nanos_since_epoch() - b.nanos_since_epoch();
    (if gap < 0 {
        -gap
    } else {
        gap
    }) / 1_000_000_000
}

/// Counts the whole seconds between two instants, whichever comes first.
pub fn seconds_between(a: Instant, b: Instant) -> (seconds: u64)
    requires
        a.wf(),
        b.wf(),
    ensures
        seconds == whole_seconds_between(a, b),
{
    let a_nanos: i128 = (a.secs as i128) * 1_000_000_000 + (a.nanos as i128);
    let b_nanos: i128 = (b.secs as i128) * 1_000_000_000 + (b.nanos as i128);
    let gap: i128 = a_nanos - b_nanos;
    let distance: i128 = if gap < 0 {
        -gap
    } else {
        gap
    };
    let whole: i128 = distance / 1_000_000_000;
    whole as u64
}

/// The distance between two instants does not depend on their order.
pub proof fn lemma_seconds_between_symmetric(a: Instant, b: Instant)
    ensures
        whole_seconds_between(a, b) == whole_seconds_between(b, a),
{
}

/// An instant moved forward by whole seconds lies exactly that many seconds
/// from where it started.
pub proof fn lemma_seconds_between_after_plus(start: Instant, seconds: u64)
    requires
        start.plus_seconds_spec(seconds) is Some,
    ensures
        whole_seconds_between(start.plus_seconds_spec(seconds)->0, start) == seconds,
        whole_seconds_between(start, start.plus_seconds_spec(seconds)->0) == seconds,
{
    let later = start.plus_seconds_spec(seconds)->0;
    assert(later.nanos_since_epoch() - start.nanos_since_epoch() == seconds * 1_000_000_000);
    assert((seconds * 1_000_000_000) / 1_000_000_000 == seconds as int);
}

/// The RFC 3339 text, in UTC and to the second (`1970-01-01T00:00:00Z`), of
/// the instant that lies a number of seconds after the epoch, as `chrono`
/// writes it; `None` for an instant outside the years `chrono` can hold.
pub uninterp spec fn rfc3339_utc_seconds(epoch_seconds: int) -> Option<Seq<char>>;

/// What writing an instant as a date gives: the text where there is one, and
/// `TimestampOutOfRange` where there is none. Inside the calendar there is
/// always one.
pub open spec fn rfc3339_result(epoch_seconds: int, text: Result<String, Error>) -> bool {
    &&& match rfc3339_utc_seconds(epoch_seconds) {
        Some(expected) => text matches Ok(t) && t@ == expected,
        None => text matches Err(Error::TimestampOutOfRange),
    }
    &&& in_calendar(epoch_seconds) ==> text is Ok
}

/// Reads the system clock.
///
/// Trusted: this is `chrono::Utc::now`, taken apart by `DateTime::timestamp`
/// and `DateTime::timestamp_subsec_nanos`. `chrono` takes the time that has
/// passed since the epoch and makes a date of it, so a reading has less than
/// a second of nanoseconds, is not before the epoch and not after the last
/// second of the calendar; nothing else is claimed, and two calls may differ.
/// `chrono` stops the process where the system clock stands outside that
/// range.
#[verifier::external_body]
fn clock_now() -> (now: Instant)
    ensures
        now.wf(),
        clock_range(now),
{
    let moment = chrono::Utc::now();
    Instant { secs: moment.timestamp(), nanos: moment.timestamp_subsec_nanos() }
}

/// Writes an instant, given in seconds since the epoch, as a date.
///
/// Trusted: `chrono::DateTime::from_timestamp` makes the date, and gives
/// nothing for seconds outside the years it can hold;
/// `DateTime::to_rfc3339_opts`, asked for whole seconds and for `Z` as the
/// offset, writes it. The text depends on the number of seconds alone, and
/// for every second from the first day of `chrono`'s first year to the last
/// day of its last year there is one.
#[verifier::external_body]
fn chrono_rfc3339(epoch_seconds: i64) -> (text: Option<String>)
    ensures
        match text {
            Some(t) => rfc3339_utc_seconds(epoch_seconds as int) == Some(t@),
            None => rfc3339_utc_seconds(epoch_seconds as int) is None,
        },
        in_calendar(epoch_seconds as int) ==> text is Some,
{
    let moment = chrono::DateTime::from_timestamp(epoch_seconds, 0)?;
    Some(moment.to_rfc3339_opts(chrono::SecondsFormat::Secs, true))
}

/// Writes seconds since the epoch as an RFC 3339 date and time in UTC, to the
/// second; `TimestampOutOfRange` where the calendar cannot hold them.
pub fn epoch_to_rfc3339(epoch_seconds: i64) -> (text: Result<String, Error>)
    ensures
        rfc3339_result(epoch_seconds as int, text),
{
    match chrono_rfc3339(epoch_seconds) {
        Some(text) => Ok(text),
        None => Err(Error::TimestampOutOfRange),
    }
}

} // verus!
