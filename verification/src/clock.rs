//! Points in time, and their rendering as text.
//!
//! The library never reads a clock. Whoever drives it hands over the reading
//! as a plain value: whole seconds since the Unix epoch and the nanoseconds
//! into the second.

use vstd::prelude::*;

verus! {

/// The pattern for the time component of file names: date and time of day,
/// digits only, joined by an underscore.
pub const FILE_STAMP_PATTERN: &'static str = "%Y%m%d_%H%M%S";

/// The pattern for the time of day shown next to a transcript segment.
pub const SEGMENT_CLOCK_PATTERN: &'static str = "%H:%M:%S";

/// The pattern for the date and time in the header of an exported transcript.
pub const HEADER_TIME_PATTERN: &'static str = "%Y-%m-%d %H:%M:%S UTC";

/// A point in time on the UTC time line.
#[derive(Clone, Copy, Debug, PartialEq, Eq, Structural)]
pub struct Timestamp {
    /// Whole seconds since 1970-01-01 00:00:00 UTC; negative before it.
    pub secs: i64,
    /// Nanoseconds since the last whole second.
    pub nanos: u32,
}

/// The view of a text that may be missing.
pub open spec fn text_view(text: Option<String>) -> Option<Seq<char>> {
    match text {
        Some(t) => Some(t@),
        None => None,
    }
}

/// What the calendar library writes for the UTC date and time that lies
/// `secs` seconds and `nanos` nanoseconds after the Unix epoch, under the
/// strftime-like `pattern`; `None` where it has no such date or rejects the
/// pattern.
pub uninterp spec fn utc_text(secs: int, nanos: int, pattern: Seq<char>) -> Option<Seq<char>>;

/// Renders a point in time through `chrono`.
///
/// Calls `chrono::DateTime::from_timestamp` on the two numbers, then
/// `DateTime::format` with the pattern, and collects what
/// `DelayedFormat::write_to` writes. The contract gives that text a name and
/// claims nothing about its content. `from_timestamp` answers `None` for
/// seconds outside chrono's range of dates and for a nanosecond count it does
/// not accept; `write_to` fails on a pattern that chrono cannot parse. In both
/// cases the result is `None`.
#[verifier::external_body]
fn format_utc(secs: i64, nanos: u32, pattern: &str) -> (text: Option<String>)
    ensures
        text_view(text) == utc_text(secs as int, nanos as int, pattern@),
{
    let mut text = String::new();
    match chrono::DateTime::from_timestamp(secs, nanos) {
        Some(moment) => match moment.format(pattern).write_to(&mut text) {
            Ok(()) => Some(text),
            Err(_) => None,
        },
        None => None,
    }
}

/// The whole seconds that the calendar library counts from the UTC time
/// `earlier` to the UTC time `later`, each given as seconds and nanoseconds
/// after the Unix epoch; negative where `earlier` is in fact the later one.
/// `None` where the calendar library has no date for one of the two.
pub uninterp spec fn utc_seconds_between(
    earlier_secs: int,
    earlier_nanos: int,
    later_secs: int,
    later_nanos: int,
) -> Option<int>;

/// The view of a count of seconds that may be missing.
pub open spec fn seconds_view(seconds: Option<i64>) -> Option<int> {
    match seconds {
        Some(s) => Some(s as int),
        None => None,
    }
}

/// Measures the time between two points through `chrono`.
///
/// Calls `chrono::DateTime::from_timestamp` on each pair of numbers, then
/// `DateTime::signed_duration_since` on the two dates, and reads the
/// difference with `TimeDelta::num_seconds`. The contract gives that number a
/// name and claims nothing about its value. Where `from_timestamp` answers
/// `None` for either pair, the result is `None`.
#[verifier::external_body]
fn seconds_between_utc(
    earlier_secs: i64,
    earlier_nanos: u32,
    later_secs: i64,
    later_nanos: u32,
) -> (seconds: Option<i64>)
    ensures
        seconds_view(seconds) == utc_seconds_between(
            earlier_secs as int,
            earlier_nanos as int,
            later_secs as int,
            later_nanos as int,
        ),
{
    let earlier = chrono::DateTime::from_timestamp(earlier_secs, earlier_nanos);
    let later = chrono::DateTime::from_timestamp(later_secs, later_nanos);
    match (earlier, later) {
        (Some(earlier), Some(later)) => Some(later.signed_duration_since(earlier).num_seconds()),
        _ => None,
    }
}

impl Timestamp {
    /// This point in time written under `pattern`.
    pub open spec fn text(self, pattern: Seq<char>) -> Option<Seq<char>> {
        utc_text(self.secs as int, self.nanos as int, pattern)
    }

    /// Whole seconds from `earlier` to this point in time.
    pub open spec fn since(self, earlier: Timestamp) -> Option<int> {
        utc_seconds_between(
            earlier.secs as int,
            earlier.nanos as int,
            self.secs as int,
            self.nanos as int,
        )
    }

    /// Whole seconds from `earlier` to this point in time, or `None` where the
    /// calendar library has no date for one of the two.
    pub fn seconds_since(&self, earlier: &Timestamp) -> (seconds: Option<i64>)
        ensures
            seconds_view(seconds) == self.since(*earlier),
    {
        seconds_between_utc(earlier.secs, earlier.nanos, self.secs, self.nanos)
    }

    /// This point in time written under `pattern`, or `None` where the
    /// calendar library cannot write it.
    pub fn format(&self, pattern: &str) -> (text: Option<String>)
        ensures
            text_view(text) == self.text(pattern@),
    {
        format_utc(self.secs, self.nanos, pattern)
    }
}

} // verus!
