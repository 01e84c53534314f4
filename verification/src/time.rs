//! Timestamps, and the boundary to `chrono`: where the text of a timestamp
//! is read. What `parse_rfc3339` claims of `rfc3339` is believed, not proved.

use chrono::DateTime;
use vstd::prelude::*;

verus! {

/// An instant with the offset of its time zone: seconds since the Unix epoch
/// in UTC, the nanoseconds within that second, and the zone's offset east of
/// UTC in seconds.
#[derive(Clone, Copy, Debug, PartialEq, Eq, Structural)]
pub struct Timestamp {
    pub seconds: i64,
    pub nanos: u32,
    pub offset_seconds: i32,
}

/// What `DateTime::parse_from_rfc3339` makes of a text: `None` where it
/// reports an error, else what `timestamp`, `timestamp_subsec_nanos` and the
/// offset's `local_minus_utc` say of the date and time that it returns.
pub uninterp spec fn rfc3339(text: Seq<char>) -> Option<(i64, u32, i32)>;

/// The timestamp that a text in RFC 3339 syntax denotes, if it denotes one.
pub open spec fn timestamp_of(text: Seq<char>) -> Option<Timestamp> {
    match rfc3339(text) {
        Some((seconds, nanos, offset_seconds)) => Some(
            Timestamp { seconds, nanos, offset_seconds },
        ),
        None => None,
    }
}

/// Calls `DateTime::parse_from_rfc3339`, and reads the result with
/// `timestamp`, `timestamp_subsec_nanos` and `local_minus_utc`. The result is
/// a function of the text alone; the error's detail is dropped.
#[verifier::external_body]
pub(crate) fn parse_rfc3339(text: &str) -> (r: Option<Timestamp>)
    ensures
        match r {
            Some(t) => rfc3339(text@) == Some((t.seconds, t.nanos, t.offset_seconds)),
            None => rfc3339(text@) is None,
        },
{
    match DateTime::parse_from_rfc3339(text) {
        Ok(t) => Some(
            Timestamp {
                seconds: t.timestamp(),
                nanos: t.timestamp_subsec_nanos(),
                offset_seconds: t.offset().local_minus_utc(),
            },
        ),
        Err(_) => None,
    }
}

} // verus!
