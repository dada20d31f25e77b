//! The standalone pomodoro timer: a countdown in seconds that cycles through
//! work sessions, short breaks and long breaks.
use vstd::prelude::*;

use crate::config::Config;
use crate::kinds::key::{Key, KeyCode};
use crate::state::State;

verus! {

/// A phase of the standalone timer.
#[derive(Clone, Copy, Debug, PartialEq, Eq, Structural)]
pub enum Phase {
    /// A focused work session.
    Work,
    /// A short break between work sessions.
    Break,
    /// A longer break after a full interval of work sessions.
    LongBreak,
}

impl Phase {
    /// Returns the display label of the phase.
    pub fn label(&self) -> (r: &'static str)
        ensures
            r@ == (match *self {
                Phase::Work => "Work"@,
                Phase::Break => "Short Break"@,
                Phase::LongBreak => "Long Break"@,
            }),
    {
        match self {
            Phase::Work => "Work",
            Phase::Break => "Short Break",
            Phase::LongBreak => "Long Break",
        }
    }
}

/// Whether the countdown is running.
#[derive(Clone, Copy, Debug, PartialEq, Eq, Structural)]
pub enum TimerState {
    /// Counting down.
    Running,
    /// Stopped.
    Paused,
}

/// The other state.
pub open spec fn toggled(s: TimerState) -> TimerState {
    match s {
        TimerState::Running => TimerState::Paused,
        TimerState::Paused => TimerState::Running,
    }
}

/// Length of a phase in seconds.
pub open spec fn phase_secs(c: Config, p: Phase) -> int {
    match p {
        Phase::Work => c.work_session_duration * 60,
        Phase::Break => c.break_session_duration * 60,
        Phase::LongBreak => c.long_break_session_duration * 60,
    }
}

/// The phase, remaining seconds and completed work sessions after the current
/// phase ends: a work session counts as completed and is followed by a long
/// break every `long_break_session_interval` sessions and by a short break
/// otherwise; a break is followed by work.
pub open spec fn advance_spec(c: Config, phase: Phase, sessions: int) -> (Phase, int, int) {
    match phase {
        Phase::Work => {
            let n = sessions + 1;
            if n % (c.long_break_session_interval as int) == 0 {
                (Phase::LongBreak, phase_secs(c, Phase::LongBreak), n)
            } else {
                (Phase::Break, phase_secs(c, Phase::Break), n)
            }
        },
        _ => (Phase::Work, phase_secs(c, Phase::Work), sessions),
    }
}

/// `k` phase ends in a row.
pub open spec fn advance_n(c: Config, phase: Phase, sessions: int, k: nat) -> (Phase, int, int)
    decreases k,
{
    if k == 0 {
        (phase, phase_secs(c, phase), sessions)
    } else {
        let (p, _, s) = advance_spec(c, phase, sessions);
        advance_n(c, p, s, (k - 1) as nat)
    }
}

/// The standalone pomodoro timer.
pub struct Timer {
    /// The current phase.
    pub phase: Phase,
    /// Whether the countdown runs.
    pub state: TimerState,
    /// Seconds left in the current phase.
    pub remaining_secs: u64,
    /// Work sessions completed so far.
    pub sessions_completed: u32,
    /// The session lengths and long break interval.
    pub config: Config,
}

impl Timer {
    /// Creates a paused timer, resuming a saved state when there is one and
    /// starting a work session otherwise.
    pub fn new(config: Config, saved: Option<State>) -> (t: Self)
        requires
            config.valid(),
        ensures
            t.config == config,
            t.state == TimerState::Paused,
            match saved {
                Some(s) => t.phase == s.phase && t.remaining_secs == s.remaining_secs
                    && t.sessions_completed == s.sessions_completed,
                None => t.phase == Phase::Work && t.remaining_secs == config.work_session_duration
                    * 60 && t.sessions_completed == 0,
            },
    {
        let (phase, remaining_secs, sessions_completed) = match saved {
            Some(s) => (s.phase, s.remaining_secs, s.sessions_completed),
            None => (Phase::Work, config.work_session_duration * 60, 0),
        };
        Self { phase, state: TimerState::Paused, remaining_secs, sessions_completed, config }
    }

    /// One second passes: a running countdown loses a second, and a running
    /// countdown at zero ends its phase.
    pub fn tick(&mut self)
        requires
            old(self).config.valid(),
            old(self).state == TimerState::Running && old(self).remaining_secs == 0
                && old(self).phase == Phase::Work ==> old(self).sessions_completed < u32::MAX,
        ensures
            final(self).config == old(self).config,
            old(self).state != TimerState::Running ==> *final(self) == *old(self),
            old(self).state == TimerState::Running && old(self).remaining_secs > 0 ==> {
                &&& final(self).remaining_secs == old(self).remaining_secs - 1
                &&& final(self).phase == old(self).phase
                &&& final(self).state == TimerState::Running
                &&& final(self).sessions_completed == old(self).sessions_completed
            },
            old(self).state == TimerState::Running && old(self).remaining_secs == 0 ==> {
                &&& (final(self).phase, final(self).remaining_secs as int, final(self).sessions_completed as int)
                    == advance_spec(old(self).config, old(self).phase, old(self).sessions_completed as int)
                &&& final(self).state == TimerState::Paused
            },
    {
        if self.state != TimerState::Running {
            return ;
        }
        if self.remaining_secs > 0 {
            self.remaining_secs = self.remaining_secs - 1;
        } else {
            self.advance();
        }
    }

    /// Switches between running and paused.
    pub fn toggle_pause(&mut self)
        ensures
            final(self).state == toggled(old(self).state),
            final(self).phase == old(self).phase,
            final(self).remaining_secs == old(self).remaining_secs,
            final(self).sessions_completed == old(self).sessions_completed,
            final(self).config == old(self).config,
    {
        self.state = match self.state {
            TimerState::Running => TimerState::Paused,
            TimerState::Paused => TimerState::Running,
        };
    }

    /// Ends the current phase now.
    pub fn skip(&mut self)
        requires
            old(self).config.valid(),
            old(self).phase == Phase::Work ==> old(self).sessions_completed < u32::MAX,
        ensures
            (final(self).phase, final(self).remaining_secs as int, final(self).sessions_completed as int)
                == advance_spec(old(self).config, old(self).phase, old(self).sessions_completed as int),
            final(self).state == TimerState::Paused,
            final(self).config == old(self).config,
    {
        self.advance();
    }

    /// Restarts the current phase from its full length, paused.
    pub fn reset(&mut self)
        requires
            old(self).config.valid(),
        ensures
            final(self).remaining_secs == phase_secs(old(self).config, old(self).phase),
            final(self).state == TimerState::Paused,
            final(self).phase == old(self).phase,
            final(self).sessions_completed == old(self).sessions_completed,
            final(self).config == old(self).config,
    {
        self.remaining_secs = self.phase_duration();
        self.state = TimerState::Paused;
    }

    fn advance(&mut self)
        requires
            old(self).config.valid(),
            old(self).phase == Phase::Work ==> old(self).sessions_completed < u32::MAX,
        ensures
            (final(self).phase, final(self).remaining_secs as int, final(self).sessions_completed as int)
                == advance_spec(old(self).config, old(self).phase, old(self).sessions_completed as int),
            final(self).state == TimerState::Paused,
            final(self).config == old(self).config,
    {
        match self.phase {
            Phase::Work => {
                self.sessions_completed = self.sessions_completed + 1;
                if self.sessions_completed % self.config.long_break_session_interval == 0 {
                    self.phase = Phase::LongBreak;
                    self.remaining_secs = self.config.long_break_session_duration * 60;
                } else {
                    self.phase = Phase::Break;
                    self.remaining_secs = self.config.break_session_duration * 60;
                }
            },
            Phase::Break | Phase::LongBreak => {
                self.phase = Phase::Work;
                self.remaining_secs = self.config.work_session_duration * 60;
            },
        }
        self.state = TimerState::Paused;
    }

    fn phase_duration(&self) -> (r: u64)
        requires
            self.config.valid(),
        ensures
            r == phase_secs(self.config, self.phase),
    {
        match self.phase {
            Phase::Work => self.config.work_session_duration * 60,
            Phase::Break => self.config.break_session_duration * 60,
            Phase::LongBreak => self.config.long_break_session_duration * 60,
        }
    }

    /// Handles a key press of the standalone timer and returns whether to quit:
    /// `q` or Ctrl-`c` quit, Space pauses or resumes, `s` skips to the next
    /// phase and `r` restarts the current one.
    pub fn handle_key(&mut self, key: Key) -> (quit: bool)
        requires
            old(self).config.valid(),
            key.code == KeyCode::Char('s') && old(self).phase == Phase::Work
                ==> old(self).sessions_completed < u32::MAX,
        ensures
            quit == (key.code == KeyCode::Char('q') || (key.code == KeyCode::Char('c') && key.ctrl)),
            quit ==> *final(self) == *old(self),
            !quit && key.code == KeyCode::Char(' ') ==> final(self).state == toggled(old(self).state)
                && final(self).phase == old(self).phase && final(self).remaining_secs
                == old(self).remaining_secs && final(self).sessions_completed
                == old(self).sessions_completed,
            !quit && key.code == KeyCode::Char('s') ==> (
                final(self).phase,
                final(self).remaining_secs as int,
                final(self).sessions_completed as int,
            ) == advance_spec(old(self).config, old(self).phase, old(self).sessions_completed as int)
                && final(self).state == TimerState::Paused,
            !quit && key.code == KeyCode::Char('r') ==> final(self).remaining_secs == phase_secs(
                old(self).config,
                old(self).phase,
            ) && final(self).state == TimerState::Paused && final(self).phase == old(self).phase
                && final(self).sessions_completed == old(self).sessions_completed,
            !quit && key.code != KeyCode::Char(' ') && key.code != KeyCode::Char('s')
                && key.code != KeyCode::Char('r') ==> *final(self) == *old(self),
            final(self).config == old(self).config,
    {
        match key.code {
            KeyCode::Char('q') => return true,
            KeyCode::Char('c') => {
                if key.ctrl {
                    return true;
                }
            },
            KeyCode::Char(' ') => self.toggle_pause(),
            KeyCode::Char('s') => self.skip(),
            KeyCode::Char('r') => self.reset(),
            _ => {},
        }
        false
    }

    /// The full length of the current phase in seconds.
    pub fn total_secs(&self) -> (r: u64)
        requires
            self.config.valid(),
        ensures
            r == phase_secs(self.config, self.phase),
    {
        self.phase_duration()
    }
}

impl State {
    /// The part of a timer that is saved.
    pub fn of_timer(timer: &Timer) -> (s: State)
        ensures
            s.phase == timer.phase,
            s.remaining_secs == timer.remaining_secs,
            s.sessions_completed == timer.sessions_completed,
    {
        State {
            phase: timer.phase,
            remaining_secs: timer.remaining_secs,
            sessions_completed: timer.sessions_completed,
        }
    }
}

/// Pausing twice leaves the state as it was.
pub proof fn lemma_toggle_twice(s: TimerState)
    ensures
        toggled(toggled(s)) == s,
{
}

/// Starting a cycle with a work session (after a multiple of the interval of
/// completed sessions), the phases alternate work and break; the `k`-th break
/// is long exactly when `k` is the interval, and after each break a new work
/// session starts with its full length.
pub proof fn lemma_cycle(c: Config, sessions: int, k: nat)
    requires
        c.valid(),
        sessions >= 0,
        sessions % (c.long_break_session_interval as int) == 0,
        1 <= k <= c.long_break_session_interval,
    ensures
        advance_n(c, Phase::Work, sessions, (2 * k - 1) as nat) == (if k
            == c.long_break_session_interval {
            (Phase::LongBreak, phase_secs(c, Phase::LongBreak), sessions + k)
        } else {
            (Phase::Break, phase_secs(c, Phase::Break), sessions + k)
        }),
        advance_n(c, Phase::Work, sessions, (2 * k) as nat) == (
            Phase::Work,
            phase_secs(c, Phase::Work),
            sessions + k,
        ),
    decreases k,
{
    let i = c.long_break_session_interval as int;
    reveal_with_fuel(advance_n, 3);
    lemma_mod_step(sessions, k as int, i);
    if k > 1 {
        lemma_cycle(c, sessions, (k - 1) as nat);
        lemma_advance_n_split(c, Phase::Work, sessions, (2 * k - 2) as nat, 1);
        lemma_advance_n_split(c, Phase::Work, sessions, (2 * k - 2) as nat, 2);
        assert((2 * k - 2) as nat + 1 == (2 * k - 1) as nat);
        assert((2 * k - 2) as nat + 2 == (2 * k) as nat);
    }
}

/// `(s + k) % i == 0` for `1 <= k <= i` exactly when `k == i`, when `s` is a
/// multiple of `i`.
pub(crate) proof fn lemma_mod_step(s: int, k: int, i: int)
    requires
        s >= 0,
        i > 0,
        s % i == 0,
        1 <= k <= i,
    ensures
        ((s + k) % i == 0) == (k == i),
{
    vstd::arithmetic::div_mod::lemma_fundamental_div_mod(s, i);
    vstd::arithmetic::div_mod::lemma_mod_add_multiples_vanish(k, i);
    let q = s / i;
    vstd::arithmetic::div_mod::lemma_mod_multiples_vanish(q, k, i);
    assert(s + k == i * q + k);
    if k < i {
        vstd::arithmetic::div_mod::lemma_small_mod(k as nat, i as nat);
    } else {
        vstd::arithmetic::div_mod::lemma_mod_self_0(i);
    }
}

/// `a + b` phase ends are `a` of them and then `b` more.
proof fn lemma_advance_n_split(c: Config, phase: Phase, sessions: int, a: nat, b: nat)
    ensures
        advance_n(c, phase, sessions, a + b) == ({
            let (p, _, s) = advance_n(c, phase, sessions, a);
            advance_n(c, p, s, b)
        }),
    decreases a,
{
    if a > 0 {
        let (p, _, s) = advance_spec(c, phase, sessions);
        lemma_advance_n_split(c, p, s, (a - 1) as nat, b);
        assert(advance_n(c, phase, sessions, a + b) == advance_n(c, p, s, (a - 1 + b) as nat));
    }
}

/// When a phase ends, the next one starts with its full configured length: a
/// work session is followed by a long break of `long_break_session_duration`
/// minutes when it completes a multiple of `long_break_session_interval`
/// sessions and by a short break of `break_session_duration` minutes
/// otherwise, and counts as completed; a break is followed by
/// `work_session_duration` minutes of work, and the count stays.
pub proof fn lemma_advance_full_length(c: Config, phase: Phase, sessions: int)
    requires
        c.valid(),
    ensures
        ({
            let (p, secs, n) = advance_spec(c, phase, sessions);
            &&& p == Phase::LongBreak ==> secs == c.long_break_session_duration * 60
            &&& p == Phase::Break ==> secs == c.break_session_duration * 60
            &&& p == Phase::Work ==> secs == c.work_session_duration * 60
            &&& phase == Phase::Work ==> {
                &&& n == sessions + 1
                &&& p != Phase::Work
                &&& (p == Phase::LongBreak <==> (sessions + 1) % (c.long_break_session_interval as int)
                    == 0)
            }
            &&& phase != Phase::Work ==> n == sessions && p == Phase::Work
        }),
{
}

} // verus!
