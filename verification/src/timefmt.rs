//! Dates and times as text, done by the `chrono` crate.
//!
//! The contracts of this file are believed, not proved: they name what the
//! crate computes.

use vstd::prelude::*;

verus! {

/// The UTC calendar date of the second `secs` after the Unix epoch, written
/// as year, month and day without separators, such as `20240131`; `None`
/// where the crate cannot represent the date.
pub uninterp spec fn spec_utc_date(secs: int) -> Option<Seq<char>>;

/// The instant that an RFC 3339 text names, in nanoseconds since the Unix
/// epoch; `None` where the text is malformed or the number does not fit 64
/// bits.
pub uninterp spec fn spec_rfc3339_nanos(text: Seq<char>) -> Option<int>;

/// `chrono::DateTime::from_timestamp`, then `format("%Y%m%d")`: the UTC
/// date of a Unix time, or `None` where the crate refuses the time as out
/// of range.
#[verifier::external_body]
pub(crate) fn utc_date(secs: i64) -> (r: Option<String>)
    ensures
        match r {
            Some(d) => spec_utc_date(secs as int) == Some(d@),
            None => spec_utc_date(secs as int) is None,
        },
{
    match chrono::DateTime::from_timestamp(secs, 0) {
        Some(t) => Some(t.format("%Y%m%d").to_string()),
        None => None,
    }
}

/// `chrono::DateTime::parse_from_rfc3339`, then `timestamp_nanos_opt`: the
/// nanoseconds since the Unix epoch of the instant that the text names.
#[verifier::external_body]
pub(crate) fn rfc3339_nanos(text: &str) -> (r: Option<i64>)
    ensures
        match r {
            Some(n) => spec_rfc3339_nanos(text@) == Some(n as int),
            None => spec_rfc3339_nanos(text@) is None,
        },
{
    match chrono::DateTime::parse_from_rfc3339(text) {
        Ok(t) => t.timestamp_nanos_opt(),
        Err(_) => None,
    }
}

} // verus!
