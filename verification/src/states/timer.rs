//! Runtime state of the pomodoro timer.
//!
//! The countdown is anchored to a monotonic clock: while running, the time
//! left is the time left at the last resume minus the milliseconds elapsed
//! since. Clock readings (`now`, in milliseconds) are passed in by the caller.
use vstd::prelude::*;

use crate::config::TimerConfig;
use crate::date::now_utc_str;
use crate::kinds::phase::{phase_db_str, phase_millis, Phase};
use crate::models::session::Session;

verus! {

/// Milliseconds elapsed from clock reading `start` to clock reading `now`, as a
/// monotonic clock reports them (never negative), kept to 32 bits.
pub open spec fn elapsed_millis(start: u64, now: u64) -> u32 {
    let e: u64 = if now >= start {
        (now - start) as u64
    } else {
        0
    };
    #[verifier::truncate]
    (e as u32)
}

/// The time left, given the time left at the last resume and the clock reading
/// of that resume (`None` while paused).
pub open spec fn current_spec(remaining: u32, started_at: Option<u64>, now: u64) -> u32 {
    match started_at {
        Some(t) => if remaining >= elapsed_millis(t, now) {
            (remaining - elapsed_millis(t, now)) as u32
        } else {
            0
        },
        None => remaining,
    }
}

/// The phase and completed work sessions after the current phase ends: a work
/// session counts as completed and is followed by a long break every
/// `long_break_interval` sessions and by a short break otherwise; a break is
/// followed by work.
pub open spec fn next_phase(c: TimerConfig, phase: Phase, sessions: int) -> (Phase, int) {
    match phase {
        Phase::Work => {
            let n = sessions + 1;
            if n % c.interval_spec() == 0 {
                (Phase::LongBreak, n)
            } else {
                (Phase::Break, n)
            }
        },
        _ => (Phase::Work, sessions),
    }
}

/// `k` phase ends in a row.
pub open spec fn next_phase_n(c: TimerConfig, phase: Phase, sessions: int, k: nat) -> (Phase, int)
    decreases k,
{
    if k == 0 {
        (phase, sessions)
    } else {
        let (p, s) = next_phase(c, phase, sessions);
        next_phase_n(c, p, s, (k - 1) as nat)
    }
}

/// Runtime state for the pomodoro timer.
pub struct TimerState {
    /// Timer configuration (durations, intervals, display options).
    config: TimerConfig,
    /// Whether the timer is actively counting down.
    is_running: bool,
    /// Remaining time captured at the last pause or resume.
    remaining_millis: u32,
    /// Clock reading when the timer was last resumed, `None` when paused.
    started_at: Option<u64>,
    /// UTC timestamp of when the current phase was first started, `None` before first resume.
    phase_started_at: Option<String>,
    /// Current phase of the pomodoro cycle (work, break, or long break).
    cycle_phase: Phase,
    /// Number of completed work sessions since the timer started.
    sessions_count: u32,
    /// The currently selected todo id, used to associate sessions.
    todo_id: Option<i32>,
    /// Whether to display milliseconds on the clock, toggleable at runtime.
    show_millis: bool,
}

impl TimerState {
    /// The configuration.
    pub closed spec fn config_spec(&self) -> TimerConfig {
        self.config
    }

    /// Whether the countdown runs.
    pub closed spec fn running_spec(&self) -> bool {
        self.is_running
    }

    /// Time left captured at the last pause or resume.
    pub closed spec fn remaining_spec(&self) -> u32 {
        self.remaining_millis
    }

    /// Clock reading of the last resume while running.
    pub closed spec fn started_at_spec(&self) -> Option<u64> {
        self.started_at
    }

    /// Whether the current phase has been started.
    pub closed spec fn phase_started_spec(&self) -> bool {
        self.phase_started_at is Some
    }

    /// The current phase.
    pub closed spec fn phase_spec(&self) -> Phase {
        self.cycle_phase
    }

    /// Completed work sessions.
    pub closed spec fn sessions_spec(&self) -> u32 {
        self.sessions_count
    }

    /// The associated todo.
    pub closed spec fn todo_id_spec(&self) -> Option<i32> {
        self.todo_id
    }

    /// Whether milliseconds are shown.
    pub closed spec fn show_millis_spec(&self) -> bool {
        self.show_millis
    }

    /// Creates a new `TimerState` in the initial paused work phase.
    pub fn new(config: TimerConfig) -> (s: Self)
        ensures
            s.config_spec() == config,
            s.phase_spec() == Phase::Work,
            s.remaining_spec() == phase_millis(config, Phase::Work),
            s.started_at_spec() is None,
            !s.phase_started_spec(),
            s.sessions_spec() == 0,
            !s.running_spec(),
            s.todo_id_spec() is None,
            s.show_millis_spec() == config.show_millis_spec(),
    {
        let show_millis = config.show_millis();
        let remaining_millis = config.work_duration();
        Self {
            cycle_phase: Phase::Work,
            remaining_millis,
            started_at: None,
            phase_started_at: None,
            sessions_count: 0,
            is_running: false,
            config,
            todo_id: None,
            show_millis,
        }
    }

    /// Returns the currently associated todo id, if any.
    pub fn todo_id(&self) -> (r: Option<i32>)
        ensures
            r == self.todo_id_spec(),
    {
        self.todo_id
    }

    /// Returns the current phase of the pomodoro cycle.
    pub fn cycle_phase(&self) -> (r: &Phase)
        ensures
            *r == self.phase_spec(),
    {
        &self.cycle_phase
    }

    /// Returns the number of completed work sessions since the timer started.
    pub fn sessions_count(&self) -> (r: u32)
        ensures
            r == self.sessions_spec(),
    {
        self.sessions_count
    }

    /// Returns whether the timer is actively counting down.
    pub fn is_running(&self) -> (r: bool)
        ensures
            r == self.running_spec(),
    {
        self.is_running
    }

    /// Returns whether milliseconds are shown on the clock.
    pub fn show_millis(&self) -> (r: bool)
        ensures
            r == self.show_millis_spec(),
    {
        self.show_millis
    }

    /// Returns the number of work sessions before a long break.
    pub fn long_break_interval(&self) -> (r: u32)
        ensures
            r == self.config_spec().interval_spec(),
    {
        self.config.long_break_interval()
    }

    /// Returns the target of work sessions per day.
    pub fn daily_session_goal(&self) -> (r: u32)
        ensures
            r == self.config_spec().goal_spec(),
    {
        self.config.daily_session_goal()
    }

    /// Sets the currently associated todo on the timer state.
    pub fn set_todo_id(&mut self, todo_id: Option<i32>)
        ensures
            final(self).todo_id_spec() == todo_id,
            final(self).config_spec() == old(self).config_spec(),
            final(self).running_spec() == old(self).running_spec(),
            final(self).remaining_spec() == old(self).remaining_spec(),
            final(self).started_at_spec() == old(self).started_at_spec(),
            final(self).phase_spec() == old(self).phase_spec(),
            final(self).sessions_spec() == old(self).sessions_spec(),
            final(self).show_millis_spec() == old(self).show_millis_spec(),
            final(self).phase_started_spec() == old(self).phase_started_spec(),
    {
        self.todo_id = todo_id;
    }

    /// Returns the current remaining time at clock reading `now`.
    pub fn current_millis(&self, now: u64) -> (r: u32)
        ensures
            r == current_spec(self.remaining_spec(), self.started_at_spec(), now),
    {
        match self.started_at {
            Some(t) => {
                let e: u64 = if now >= t {
                    now - t
                } else {
                    0
                };
                let e32: u32 = #[verifier::truncate]
                (e as u32);
                if self.remaining_millis >= e32 {
                    self.remaining_millis - e32
                } else {
                    0
                }
            },
            None => self.remaining_millis,
        }
    }

    /// Toggles between running and paused at clock reading `now`: pausing keeps
    /// the time left, resuming anchors the countdown to `now` and, the first
    /// time in a phase, records when the phase started.
    pub fn toggle_running(&mut self, now: u64)
        ensures
            final(self).running_spec() == !old(self).running_spec(),
            old(self).running_spec() ==> {
                &&& final(self).remaining_spec() == current_spec(
                    old(self).remaining_spec(),
                    old(self).started_at_spec(),
                    now,
                )
                &&& final(self).started_at_spec() is None
                &&& final(self).phase_started_spec() == old(self).phase_started_spec()
            },
            !old(self).running_spec() ==> {
                &&& final(self).remaining_spec() == old(self).remaining_spec()
                &&& final(self).started_at_spec() == Some(now)
                &&& final(self).phase_started_spec()
            },
            final(self).config_spec() == old(self).config_spec(),
            final(self).phase_spec() == old(self).phase_spec(),
            final(self).sessions_spec() == old(self).sessions_spec(),
            final(self).todo_id_spec() == old(self).todo_id_spec(),
            final(self).show_millis_spec() == old(self).show_millis_spec(),
    {
        if self.is_running {
            self.remaining_millis = self.current_millis(now);
            self.started_at = None;
            self.is_running = false;
        } else {
            if self.phase_started_at.is_none() {
                self.phase_started_at = Some(now_utc_str());
            }
            self.started_at = Some(now);
            self.is_running = true;
        }
    }

    /// Toggles whether milliseconds are shown on the clock.
    pub fn toggle_show_millis(&mut self)
        ensures
            final(self).show_millis_spec() == !old(self).show_millis_spec(),
            final(self).config_spec() == old(self).config_spec(),
            final(self).running_spec() == old(self).running_spec(),
            final(self).remaining_spec() == old(self).remaining_spec(),
            final(self).started_at_spec() == old(self).started_at_spec(),
            final(self).phase_spec() == old(self).phase_spec(),
            final(self).sessions_spec() == old(self).sessions_spec(),
            final(self).todo_id_spec() == old(self).todo_id_spec(),
            final(self).phase_started_spec() == old(self).phase_started_spec(),
    {
        self.show_millis = !self.show_millis;
    }

    /// Resets the timer to the full duration of the current phase without
    /// advancing, paused.
    pub fn reset(&mut self)
        ensures
            final(self).remaining_spec() == phase_millis(old(self).config_spec(), old(self).phase_spec()),
            final(self).started_at_spec() is None,
            !final(self).phase_started_spec(),
            !final(self).running_spec(),
            final(self).config_spec() == old(self).config_spec(),
            final(self).phase_spec() == old(self).phase_spec(),
            final(self).sessions_spec() == old(self).sessions_spec(),
            final(self).todo_id_spec() == old(self).todo_id_spec(),
            final(self).show_millis_spec() == old(self).show_millis_spec(),
    {
        self.remaining_millis = self.cycle_phase.duration(&self.config);
        self.started_at = None;
        self.phase_started_at = None;
        self.is_running = false;
    }

    /// Called every tick at clock reading `now`: when a running countdown has
    /// reached zero, ends the phase and returns the session to record.
    pub fn tick(&mut self, now: u64) -> (r: Option<Session>)
        requires
            old(self).running_spec() && current_spec(
                old(self).remaining_spec(),
                old(self).started_at_spec(),
                now,
            ) == 0 && old(self).phase_spec() == Phase::Work ==> old(self).sessions_spec() < u32::MAX,
        ensures
            r is Some <==> (old(self).running_spec() && current_spec(
                old(self).remaining_spec(),
                old(self).started_at_spec(),
                now,
            ) == 0),
            r is None ==> *final(self) == *old(self),
            r matches Some(s) ==> advanced(*old(self), *final(self), s),
    {
        if self.is_running && self.current_millis(now) == 0 {
            Some(self.advance())
        } else {
            None
        }
    }

    /// Records the current session and moves to the next phase, paused with the
    /// full length of that phase; returns the session to record (the caller
    /// saves it and drops cached statistics).
    pub fn advance(&mut self) -> (r: Session)
        requires
            old(self).phase_spec() == Phase::Work ==> old(self).sessions_spec() < u32::MAX,
        ensures
            advanced(*old(self), *final(self), r),
    {
        let duration = self.cycle_phase.duration(&self.config);
        let _started_at = self.phase_started_at.take();
        let session = Session::new(&self.cycle_phase, duration, self.todo_id);
        match self.cycle_phase {
            Phase::Work => {
                self.sessions_count = self.sessions_count + 1;
                self.cycle_phase = if self.sessions_count % self.config.long_break_interval() == 0 {
                    Phase::LongBreak
                } else {
                    Phase::Break
                };
            },
            Phase::Break | Phase::LongBreak => {
                self.cycle_phase = Phase::Work;
            },
        }
        self.remaining_millis = self.cycle_phase.duration(&self.config);
        self.started_at = None;
        self.phase_started_at = None;
        self.is_running = false;
        session
    }
}

/// `after` is `before` once its phase ended, and `s` the session recorded for
/// that phase.
pub open spec fn advanced(before: TimerState, after: TimerState, s: Session) -> bool {
    &&& (after.phase_spec(), after.sessions_spec() as int) == next_phase(
        before.config_spec(),
        before.phase_spec(),
        before.sessions_spec() as int,
    )
    &&& after.remaining_spec() == phase_millis(before.config_spec(), after.phase_spec())
    &&& after.started_at_spec() is None
    &&& !after.phase_started_spec()
    &&& !after.running_spec()
    &&& after.config_spec() == before.config_spec()
    &&& after.todo_id_spec() == before.todo_id_spec()
    &&& after.show_millis_spec() == before.show_millis_spec()
    &&& s.phase@ == phase_db_str(before.phase_spec())
    &&& s.duration_secs == phase_millis(before.config_spec(), before.phase_spec()) / 1000
    &&& s.todo_id == before.todo_id_spec()
    &&& s.completed_at is Some
    &&& s.id is None
}

/// Resuming at clock reading `t0` and pausing at `t1` takes the elapsed
/// milliseconds off the time left (down to zero), while a pause and a resume
/// with no time running in between keep it.
pub proof fn lemma_resume_pause(remaining: u32, t0: u64, t1: u64)
    requires
        t0 <= t1,
        t1 - t0 <= u32::MAX,
    ensures
        current_spec(remaining, Some(t0), t1) == (if remaining >= t1 - t0 {
            remaining - (t1 - t0)
        } else {
            0
        }),
        current_spec(remaining, None, t1) == remaining,
{
    let e: u64 = (t1 - t0) as u64;
    assert((#[verifier::truncate] (e as u32)) == e) by (bit_vector)
        requires
            e <= 0xffff_ffffu64,
    ;
}

/// Starting a cycle with a work session (after a multiple of the interval of
/// completed sessions), the phases alternate work and break, and the `k`-th
/// break is long exactly when `k` is the configured interval.
pub proof fn lemma_cycle(c: TimerConfig, sessions: int, k: nat)
    requires
        c.inv(),
        sessions >= 0,
        sessions % c.interval_spec() == 0,
        1 <= k <= c.interval_spec(),
    ensures
        next_phase_n(c, Phase::Work, sessions, (2 * k - 1) as nat) == (if k == c.interval_spec() {
            (Phase::LongBreak, sessions + k)
        } else {
            (Phase::Break, sessions + k)
        }),
        next_phase_n(c, Phase::Work, sessions, (2 * k) as nat) == (Phase::Work, sessions + k),
    decreases k,
{
    reveal_with_fuel(next_phase_n, 3);
    crate::timer::lemma_mod_step(sessions, k as int, c.interval_spec());
    if k > 1 {
        lemma_cycle(c, sessions, (k - 1) as nat);
        lemma_next_phase_n_split(c, Phase::Work, sessions, (2 * k - 2) as nat, 1);
        lemma_next_phase_n_split(c, Phase::Work, sessions, (2 * k - 2) as nat, 2);
        assert((2 * k - 2) as nat + 1 == (2 * k - 1) as nat);
        assert((2 * k - 2) as nat + 2 == (2 * k) as nat);
    }
}

/// `a + b` phase ends are `a` of them and then `b` more.
proof fn lemma_next_phase_n_split(c: TimerConfig, phase: Phase, sessions: int, a: nat, b: nat)
    ensures
        next_phase_n(c, phase, sessions, a + b) == ({
            let (p, s) = next_phase_n(c, phase, sessions, a);
            next_phase_n(c, p, s, b)
        }),
    decreases a,
{
    if a > 0 {
        let (p, s) = next_phase(c, phase, sessions);
        lemma_next_phase_n_split(c, p, s, (a - 1) as nat, b);
        assert(next_phase_n(c, phase, sessions, a + b) == next_phase_n(c, p, s, (a - 1 + b) as nat));
    }
}

/// When a phase of the runtime timer ends, the next one starts paused with its
/// full configured length: a work session (which counts as completed and is
/// recorded with the work length) is followed by a long break after every
/// `interval`-th completed session and by a short break otherwise; a break is
/// followed by work.
pub proof fn lemma_advanced_full_length(before: TimerState, after: TimerState, s: Session)
    requires
        advanced(before, after, s),
    ensures
        after.phase_spec() == Phase::Work ==> after.remaining_spec() == before.config_spec().work_minutes_spec()
            * 60_000,
        after.phase_spec() == Phase::Break ==> after.remaining_spec()
            == before.config_spec().break_minutes_spec() * 60_000,
        after.phase_spec() == Phase::LongBreak ==> after.remaining_spec()
            == before.config_spec().long_break_minutes_spec() * 60_000,
        before.phase_spec() == Phase::Work ==> {
            &&& after.sessions_spec() == before.sessions_spec() + 1
            &&& after.phase_spec() != Phase::Work
            &&& (after.phase_spec() == Phase::LongBreak <==> (before.sessions_spec() + 1)
                % before.config_spec().interval_spec() == 0)
            &&& s.duration_secs == before.config_spec().work_minutes_spec() * 60
        },
        before.phase_spec() != Phase::Work ==> after.phase_spec() == Phase::Work
            && after.sessions_spec() == before.sessions_spec(),
        !after.running_spec(),
{
}

} // verus!
