//! The wall clock and timestamp parsing, both taken from `chrono`.
//!
//! Time enters the library as milliseconds since the Unix epoch. Nothing in
//! this file is proved: each function states what `chrono` documents.

use vstd::prelude::*;

verus! {

/// The instant that `chrono::DateTime::parse_from_rfc3339` reads from `text`,
/// in milliseconds since the Unix epoch, or `None` where it rejects `text`.
pub uninterp spec fn rfc3339_millis(text: Seq<char>) -> Option<i64>;

/// No reading of the clock is later than this, in milliseconds since the
/// Unix epoch: 300 000 years of 366 days.
pub const MAX_CLOCK_MILLIS: i64 = 9_486_720_000_000_000;

/// Calls `chrono::Utc::now` and hands back its `timestamp_millis`.
///
/// The value is whatever the system clock says. The claim is its range
/// only: `Utc::now` panics where the clock stands before 1970, and the
/// latest date that `chrono` can hold lies in the year 262142.
#[verifier::external_body]
pub(crate) fn now_millis() -> (now_ms: i64)
    ensures
        0 <= now_ms <= MAX_CLOCK_MILLIS,
{
    chrono::Utc::now().timestamp_millis()
}

/// Calls `chrono::DateTime::parse_from_rfc3339` and hands back the
/// `timestamp_millis` of what it read.
///
/// The claim is only that the result depends on `text` alone.
#[verifier::external_body]
pub(crate) fn parse_rfc3339_millis(text: &str) -> (millis: Option<i64>)
    ensures
        millis == rfc3339_millis(text@),
{
    match chrono::DateTime::parse_from_rfc3339(text) {
        Ok(instant) => Some(instant.timestamp_millis()),
        Err(_) => None,
    }
}

} // verus!
