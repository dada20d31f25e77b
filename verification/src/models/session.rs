//! Completed pomodoro sessions and the statistics derived from them.
use vstd::prelude::*;

use crate::date::now_utc_str;
use crate::kinds::phase::{phase_db_str, Phase};
use crate::text::str_eq;

verus! {

/// Row of the `sessions` table.
#[derive(Clone, Debug)]
pub struct Model {
    /// Primary key.
    pub id: i32,
    /// Phase identifier (`work`, `break`, `long_break`).
    pub phase: String,
    /// Duration in seconds.
    pub duration_secs: i32,
    /// UTC timestamp of completion, if completed.
    pub completed_at: Option<String>,
    /// Associated todo id, if any.
    pub todo_id: Option<i32>,
}

/// Aggregated work session statistics for a single todo.
#[derive(Clone, Copy, Debug)]
pub struct Stat {
    /// Number of completed work sessions.
    pub completed_sessions: u32,
    /// Total time spent in seconds across all completed work sessions.
    pub completed_secs: u32,
}

impl Stat {
    /// Builds statistics from a session count and a total number of seconds.
    pub fn new(completed_sessions: u32, completed_secs: u32) -> (r: Self)
        ensures
            r.completed_sessions == completed_sessions,
            r.completed_secs == completed_secs,
    {
        Self { completed_sessions, completed_secs }
    }
}

/// A single pomodoro session record.
#[derive(Clone, Debug)]
pub struct Session {
    /// Database primary key, `None` before the record is saved.
    pub id: Option<i32>,
    /// Phase identifier stored as a string (e.g. `"work"`, `"break"`).
    pub phase: String,
    /// Duration of the session in seconds.
    pub duration_secs: u32,
    /// ISO 8601 UTC timestamp of when the session was completed, `None` if not yet completed.
    pub completed_at: Option<String>,
    /// Associated todo id, if any.
    pub todo_id: Option<i32>,
}

/// A session counts towards the statistics when it is a completed work session.
pub open spec fn counts_as_work(s: Session) -> bool {
    s.completed_at is Some && s.phase@ == "work"@
}

/// Number of completed work sessions in a list.
pub open spec fn work_count(s: Seq<Session>) -> nat
    decreases s.len(),
{
    if s.len() == 0 {
        0
    } else {
        work_count(s.drop_last()) + if counts_as_work(s.last()) {
            1nat
        } else {
            0nat
        }
    }
}

/// Total seconds of the completed work sessions in a list.
pub open spec fn work_secs(s: Seq<Session>) -> nat
    decreases s.len(),
{
    if s.len() == 0 {
        0
    } else {
        work_secs(s.drop_last()) + if counts_as_work(s.last()) {
            s.last().duration_secs as nat
        } else {
            0nat
        }
    }
}

/// Total seconds never decrease as sessions are added.
pub proof fn lemma_work_secs_prefix(s: Seq<Session>, i: int)
    requires
        0 <= i <= s.len(),
    ensures
        work_secs(s.take(i)) <= work_secs(s),
    decreases s.len() - i,
{
    if i < s.len() {
        lemma_work_secs_prefix(s, i + 1);
        assert(s.take(i + 1).drop_last() =~= s.take(i));
    } else {
        assert(s.take(i) =~= s);
    }
}

impl Session {
    /// Creates a new completed session for the given phase and duration,
    /// stamped with the current UTC time.
    pub fn new(phase: &Phase, duration_millis: u32, todo_id: Option<i32>) -> (r: Self)
        ensures
            r.id is None,
            r.phase@ == phase_db_str(*phase),
            r.duration_secs == duration_millis / 1000,
            r.completed_at is Some,
            r.todo_id == todo_id,
    {
        Self {
            id: None,
            phase: String::from_str(phase.to_db_str()),
            duration_secs: duration_millis / 1000,
            completed_at: Some(now_utc_str()),
            todo_id,
        }
    }
}

impl Stat {
    /// Aggregates the completed work sessions of a list: how many there are and
    /// how many seconds they add up to.
    pub fn of_sessions(sessions: &Vec<Session>) -> (r: Stat)
        requires
            work_secs(sessions@) <= u32::MAX,
        ensures
            r.completed_sessions == #[verifier::truncate] (work_count(sessions@) as u32),
            r.completed_secs == work_secs(sessions@),
    {
        let mut count: usize = 0;
        let mut secs: u32 = 0;
        let mut i: usize = 0;
        while i < sessions.len()
            invariant
                i <= sessions.len(),
                count == work_count(sessions@.take(i as int)),
                count <= i,
                secs == work_secs(sessions@.take(i as int)),
                work_secs(sessions@) <= u32::MAX,
            decreases sessions.len() - i,
        {
            let s = &sessions[i];
            proof {
                assert(sessions@.take(i + 1).drop_last() =~= sessions@.take(i as int));
                lemma_work_secs_prefix(sessions@, i + 1);
            }
            if s.completed_at.is_some() && str_eq(s.phase.as_str(), "work") {
                count = count + 1;
                secs = secs + s.duration_secs;
            }
            i = i + 1;
        }
        proof {
            assert(sessions@.take(sessions@.len() as int) =~= sessions@);
        }
        Stat::new(#[verifier::truncate] (count as u32), secs)
    }
}

impl From<Model> for Session {
    /// Converts a stored row into a session, reading a negative duration as 0.
    fn from(m: Model) -> (r: Self) {
        Self {
            id: Some(m.id),
            phase: m.phase,
            duration_secs: if m.duration_secs < 0 {
                0
            } else {
                m.duration_secs as u32
            },
            completed_at: m.completed_at,
            todo_id: m.todo_id,
        }
    }
}

impl vstd::std_specs::convert::FromSpecImpl<Model> for Session {
    open spec fn obeys_from_spec() -> bool {
        true
    }

    open spec fn from_spec(m: Model) -> Session {
        Session {
            id: Some(m.id),
            phase: m.phase,
            duration_secs: if m.duration_secs < 0 {
                0
            } else {
                m.duration_secs as u32
            },
            completed_at: m.completed_at,
            todo_id: m.todo_id,
        }
    }
}

} // verus!
