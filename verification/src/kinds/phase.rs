//! Pomodoro phase types, display metadata, and duration helpers.
use vstd::prelude::*;

use crate::config::TimerConfig;
use crate::kinds::accent::Accent;

verus! {

/// A phase in the pomodoro cycle.
#[derive(Clone, Copy, Debug, PartialEq, Eq, Structural)]
pub enum Phase {
    /// A focused work session.
    Work,
    /// A short break between work sessions.
    Break,
    /// A longer break after completing a full interval of work sessions.
    LongBreak,
}

/// The database identifier of a phase.
pub open spec fn phase_db_str(p: Phase) -> Seq<char> {
    match p {
        Phase::Work => "work"@,
        Phase::Break => "break"@,
        Phase::LongBreak => "long_break"@,
    }
}

/// The phase whose database identifier is `s`, if any.
pub open spec fn phase_from_db(s: Seq<char>) -> Option<Phase> {
    if s == "work"@ {
        Some(Phase::Work)
    } else if s == "break"@ {
        Some(Phase::Break)
    } else if s == "long_break"@ {
        Some(Phase::LongBreak)
    } else {
        None
    }
}

/// The accent color of a phase: red for work, green for a short break, cyan
/// for a long break.
pub open spec fn phase_accent(p: Phase) -> Accent {
    match p {
        Phase::Work => Accent::Red,
        Phase::Break => Accent::Green,
        Phase::LongBreak => Accent::Cyan,
    }
}

/// The configured length of a phase in milliseconds.
pub open spec fn phase_millis(c: TimerConfig, p: Phase) -> int {
    match p {
        Phase::Work => c.work_minutes_spec() * 60_000,
        Phase::Break => c.break_minutes_spec() * 60_000,
        Phase::LongBreak => c.long_break_minutes_spec() * 60_000,
    }
}

impl Phase {
    /// Returns the human-readable label for the phase.
    pub fn label(&self) -> (r: &'static str)
        ensures
            r@ == (match *self {
                Phase::Work => "Work Session"@,
                Phase::Break => "Short Break"@,
                Phase::LongBreak => "Long Break"@,
            }),
    {
        match self {
            Phase::Work => "Work Session",
            Phase::Break => "Short Break",
            Phase::LongBreak => "Long Break",
        }
    }

    /// Returns the accent color for the phase.
    pub fn color(&self) -> (r: Accent)
        ensures
            r == phase_accent(*self),
    {
        match self {
            Phase::Work => Accent::Red,
            Phase::Break => Accent::Green,
            Phase::LongBreak => Accent::Cyan,
        }
    }

    /// Returns the database string identifier for the phase.
    pub fn to_db_str(&self) -> (r: &'static str)
        ensures
            r@ == phase_db_str(*self),
    {
        match self {
            Phase::Work => "work",
            Phase::Break => "break",
            Phase::LongBreak => "long_break",
        }
    }

    /// Parses a database string into a `Phase`, returning `None` if unrecognized.
    pub fn from_db_str(s: &str) -> (r: Option<Phase>)
        ensures
            r == phase_from_db(s@),
    {
        if crate::text::str_eq(s, "work") {
            Some(Phase::Work)
        } else if crate::text::str_eq(s, "break") {
            Some(Phase::Break)
        } else if crate::text::str_eq(s, "long_break") {
            Some(Phase::LongBreak)
        } else {
            None
        }
    }

    /// Returns the configured duration for this phase in milliseconds.
    pub fn duration(&self, timer_config: &TimerConfig) -> (r: u32)
        ensures
            r == phase_millis(*timer_config, *self),
    {
        match self {
            Phase::Work => timer_config.work_duration(),
            Phase::Break => timer_config.break_duration(),
            Phase::LongBreak => timer_config.long_break_duration(),
        }
    }
}

/// Reading back the database identifier of a phase gives the phase.
pub proof fn lemma_phase_db_round_trip(p: Phase)
    ensures
        phase_from_db(phase_db_str(p)) == Some(p),
{
    reveal_strlit("work");
    reveal_strlit("break");
    reveal_strlit("long_break");
    assert("work"@.len() != "break"@.len());
    assert("work"@.len() != "long_break"@.len());
    assert("break"@.len() != "long_break"@.len());
}

/// Every string that parses as a phase is that phase's identifier.
pub proof fn lemma_phase_db_parse_exact(s: Seq<char>)
    ensures
        phase_from_db(s) matches Some(p) ==> phase_db_str(p) == s,
{
}

} // verus!
