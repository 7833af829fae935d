//! The wall clock, read in one place, and what a reading of it is worth.
//!
//! A reading is a count of seconds since the Unix epoch as the clock gave it.
//! A clock set before 1970 gives a negative one, which is no usable time: the
//! functions that need the time report an internal failure on it.

use chrono::{DateTime, Utc};
use std::time::SystemTime;
use vstd::prelude::*;

verus! {

/// Reads the system clock with `SystemTime::now`, converts it with chrono's
/// `DateTime::<Utc>::from` and returns its `timestamp`: the seconds since the
/// Unix epoch, negative for a clock set before 1970. Nothing is claimed of the
/// value, which every call may change.
///
/// The conversion returns on every time within the years that chrono can
/// tell, some 262,000 to either side of the epoch.
#[verifier::external_body]
pub(crate) fn unix_time_now() -> (seconds: i64) {
    DateTime::<Utc>::from(SystemTime::now()).timestamp()
}

/// The time that a reading of the clock stands for, where it stands for one.
pub open spec fn reading_time(reading: i64) -> Option<u64> {
    if reading < 0 {
        None
    } else {
        Some(reading as u64)
    }
}

/// Turns a reading of the clock into a time, or into `None` where the clock
/// was set before the epoch.
pub fn time_of_reading(reading: i64) -> (time: Option<u64>)
    ensures
        time == reading_time(reading),
{
    if reading < 0 {
        None
    } else {
        Some(reading as u64)
    }
}

} // verus!
