//! The terms of the public mint: a valid URI, the current time inside the
//! window, the recipient on the whitelist.

use crate::clock::{parse_utc_millis, utc_millis};
use vstd::prelude::*;

verus! {

/// Why a public mint was refused.
#[derive(Debug, Clone, Copy, PartialEq, Eq, Structural)]
pub enum ConstrainedError {
    /// The URI is not a valid one, or the recipient is not on the whitelist.
    Unauthorized,
    /// The current time is outside the mint window.
    TimeError,
}

/// The time during which the public may mint, in milliseconds since the
/// start of 1970. Both ends belong to the window.
#[derive(Debug, Clone, Copy, PartialEq, Eq, Structural)]
pub struct MintWindow {
    pub begin: i64,
    pub end: i64,
}

impl MintWindow {
    /// The instant `now` lies in the window.
    pub open spec fn covers(self, now: i64) -> bool {
        self.begin <= now <= self.end
    }

    /// Whether the instant `now` lies in the window.
    pub fn contains(&self, now: i64) -> (r: bool)
        ensures
            r == self.covers(now),
    {
        self.begin <= now && now <= self.end
    }
}

/// The pattern in which the two dates of the window are written: year,
/// month and day, then hour, minute and second.
pub const DATE_FORMAT: &'static str = "%Y-%m-%d %H:%M:%S";

/// The window that two date texts stand for, where both can be read.
pub open spec fn window_of(begin_date: Seq<char>, end_date: Seq<char>) -> Option<MintWindow> {
    match (utc_millis(begin_date, DATE_FORMAT@), utc_millis(end_date, DATE_FORMAT@)) {
        (Some(begin), Some(end)) => Some(MintWindow { begin, end }),
        _ => None,
    }
}

/// Reads the window from its two date texts.
pub fn read_window(begin_date: &str, end_date: &str) -> (r: Option<MintWindow>)
    ensures
        r == window_of(begin_date@, end_date@),
{
    match parse_utc_millis(begin_date, DATE_FORMAT) {
        Some(begin) => match parse_utc_millis(end_date, DATE_FORMAT) {
            Some(end) => Some(MintWindow { begin, end }),
            None => None,
        },
        None => None,
    }
}

/// Whether a public mint may go ahead. The URI is looked at first, then the
/// time, then the whitelist.
pub open spec fn permit(
    uri_ok: bool,
    window: MintWindow,
    now: i64,
    listed: bool,
) -> Result<(), ConstrainedError> {
    if !uri_ok {
        Err(ConstrainedError::Unauthorized)
    } else if !window.covers(now) {
        Err(ConstrainedError::TimeError)
    } else if !listed {
        Err(ConstrainedError::Unauthorized)
    } else {
        Ok(())
    }
}

/// Decides a public mint from what was found out about it: whether the URI
/// is valid, what time it is, and whether the recipient is on the whitelist.
pub fn decide(
    uri_ok: bool,
    window: MintWindow,
    now: i64,
    listed: bool,
) -> (r: Result<(), ConstrainedError>)
    ensures
        r == permit(uri_ok, window, now, listed),
{
    if !uri_ok {
        Err(ConstrainedError::Unauthorized)
    } else if !window.contains(now) {
        Err(ConstrainedError::TimeError)
    } else if !listed {
        Err(ConstrainedError::Unauthorized)
    } else {
        Ok(())
    }
}

} // verus!
