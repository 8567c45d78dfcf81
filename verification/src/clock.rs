//! Instants of time as plain numbers, and the two things only the calendar
//! library can tell: what time it is, and how an instant reads as text.

use vstd::prelude::*;

verus! {

/// An instant in UTC: whole seconds since the start of 1970, and the
/// nanoseconds past that second.
#[derive(Debug, Clone, Copy, PartialEq, Eq, Structural)]
pub struct Timestamp {
    pub secs: i64,
    pub nanos: u32,
}

impl Timestamp {
    /// `self` is strictly later than `other`.
    pub open spec fn later_than(self, other: Timestamp) -> bool {
        self.secs > other.secs || (self.secs == other.secs && self.nanos > other.nanos)
    }

    /// Whether `self` is strictly later than `other`.
    pub fn is_later_than(&self, other: &Timestamp) -> (r: bool)
        ensures
            r == self.later_than(*other),
    {
        self.secs > other.secs || (self.secs == other.secs && self.nanos > other.nanos)
    }
}

/// The instant written as year, month, day, hour and minute in UTC
/// (`2015-05-15 00:00`), or `None` for an instant outside the calendar's
/// range.
pub uninterp spec fn utc_minute_text(secs: i64, nanos: u32) -> Option<Seq<char>>;

impl Timestamp {
    /// The instant lies in the calendar's range, so that it has a text.
    pub open spec fn in_calendar(self) -> bool {
        utc_minute_text(self.secs, self.nanos) is Some
    }
}

/// The current time: the system clock's reading, turned into a date-time by
/// chrono's conversion from `std::time::SystemTime`, which takes readings
/// before 1970 as well as after. Nothing is claimed of which instant comes
/// back, only that it is one of the calendar, so that it has a text: chrono
/// documents that the seconds and nanoseconds of a date-time give that
/// date-time back. The conversion does not return for a clock that stands
/// outside chrono's calendar, more than 262 thousand years from 1970.
#[verifier::external_body]
pub(crate) fn now_utc() -> (r: Timestamp)
    ensures
        utc_minute_text(r.secs, r.nanos) is Some,
{
    let t = chrono::DateTime::<chrono::Utc>::from(std::time::SystemTime::now());
    Timestamp { secs: t.timestamp(), nanos: t.timestamp_subsec_nanos() }
}

/// Text of an instant, made by `chrono::DateTime::format` with the pattern
/// `%Y-%m-%d %H:%M` on the date-time that `chrono::DateTime::from_timestamp`
/// gives. The two depend on the numbers alone, so the result is the named
/// text of those numbers; `None` comes back exactly when `from_timestamp`
/// finds them out of range.
#[verifier::external_body]
pub(crate) fn format_minute(t: Timestamp) -> (r: Option<String>)
    ensures
        match r {
            Some(text) => utc_minute_text(t.secs, t.nanos) == Some(text@),
            None => utc_minute_text(t.secs, t.nanos) is None,
        },
{
    match chrono::DateTime::from_timestamp(t.secs, t.nanos) {
        Some(at) => Some(at.format("%Y-%m-%d %H:%M").to_string()),
        None => None,
    }
}

} // verus!
