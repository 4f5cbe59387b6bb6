//! Reading a date and time from text, by the `chrono` crate.

use crate::mint_window::DATE_FORMAT;
use chrono::{TimeZone, Utc};
use vstd::prelude::*;

verus! {

/// The instant that `chrono` reads from `text` by the pattern `format`, taken
/// as UTC, in milliseconds since the start of 1970; `None` where `chrono`
/// rejects the text.
pub uninterp spec fn utc_millis(text: Seq<char>, format: Seq<char>) -> Option<i64>;

/// Calls `TimeZone::datetime_from_str` of `chrono` on `Utc`, and
/// `DateTime::timestamp_millis` on what it parsed.
///
/// Trusted: the result depends on the two texts alone; a text that `chrono`
/// rejects gives `None`. The precondition keeps to the one pattern that the
/// registry reads dates by: with it `chrono` builds the instant from a
/// calendar date and a time of day, and returns an error for whatever it
/// cannot read.
#[verifier::external_body]
#[allow(deprecated)]
pub(crate) fn parse_utc_millis(text: &str, format: &str) -> (r: Option<i64>)
    requires
        format@ == DATE_FORMAT@,
    ensures
        r == utc_millis(text@, format@),
{
    match Utc.datetime_from_str(text, format) {
        Ok(instant) => Some(instant.timestamp_millis()),
        Err(_) => None,
    }
}

} // verus!
