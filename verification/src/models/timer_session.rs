//! Rows of the `timer_sessions` table.
use vstd::prelude::*;

use crate::date::{format_utc_timestamp, utc_timestamp_text, Stamp};
use crate::kinds::phase::{phase_db_str, Phase};

verus! {

/// Row of the `timer_sessions` table.
#[derive(Clone, Debug)]
pub struct Model {
    /// Primary key.
    pub id: i32,
    /// Phase identifier.
    pub phase: String,
    /// Duration in seconds.
    pub duration_secs: i32,
    /// UTC timestamp of completion (`YYYY-MM-DDTHH:MM:SSZ`).
    pub completed_at: String,
}

/// The values of a new `timer_sessions` row (everything but the key) for a
/// phase of `duration_millis` milliseconds completed at `completed` (a UTC time).
pub fn new_row(phase: &Phase, duration_millis: u32, completed: &Stamp) -> (r: (String, i32, String))
    ensures
        r.0@ == phase_db_str(*phase),
        r.1 == duration_millis / 1000,
        r.2@ == utc_timestamp_text(completed@),
{
    (String::from_str(phase.to_db_str()), (duration_millis / 1000) as i32, format_utc_timestamp(completed))
}

} // verus!
