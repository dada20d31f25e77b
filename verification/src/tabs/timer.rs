//! The timer tab: its timer state, the todo picker and reduce-time dialog
//! overlays, and the keys that control the timer.
use vstd::prelude::*;

use crate::config::TimerConfig;
use crate::kinds::accent::Accent;
use crate::kinds::key::{Key, KeyCode};
use crate::kinds::phase::{phase_accent, phase_millis, Phase};
use crate::models::session::Session;
use crate::states::timer::{advanced, current_spec, TimerState};

verus! {

/// `after` is `before` toggled between running and paused at clock reading
/// `now` (see `TimerState::toggle_running`).
pub open spec fn toggled_at(before: TimerState, after: TimerState, now: u64) -> bool {
    &&& after.running_spec() == !before.running_spec()
    &&& before.running_spec() ==> {
        &&& after.remaining_spec() == current_spec(
            before.remaining_spec(),
            before.started_at_spec(),
            now,
        )
        &&& after.started_at_spec() is None
        &&& after.phase_started_spec() == before.phase_started_spec()
    }
    &&& !before.running_spec() ==> {
        &&& after.remaining_spec() == before.remaining_spec()
        &&& after.started_at_spec() == Some(now)
        &&& after.phase_started_spec()
    }
    &&& after.config_spec() == before.config_spec()
    &&& after.phase_spec() == before.phase_spec()
    &&& after.sessions_spec() == before.sessions_spec()
    &&& after.todo_id_spec() == before.todo_id_spec()
    &&& after.show_millis_spec() == before.show_millis_spec()
}

/// `after` is `before` back at the full length of its phase, paused (see
/// `TimerState::reset`).
pub open spec fn reset_of(before: TimerState, after: TimerState) -> bool {
    &&& after.remaining_spec() == phase_millis(before.config_spec(), before.phase_spec())
    &&& after.started_at_spec() is None
    &&& !after.phase_started_spec()
    &&& !after.running_spec()
    &&& after.config_spec() == before.config_spec()
    &&& after.phase_spec() == before.phase_spec()
    &&& after.sessions_spec() == before.sessions_spec()
    &&& after.todo_id_spec() == before.todo_id_spec()
    &&& after.show_millis_spec() == before.show_millis_spec()
}

/// `after` is `before` with the associated todo set to `todo_id`, or with
/// milliseconds shown or hidden when `flip_millis`.
pub open spec fn with_display(
    before: TimerState,
    after: TimerState,
    todo_id: Option<i32>,
    flip_millis: bool,
) -> bool {
    &&& after.todo_id_spec() == todo_id
    &&& after.show_millis_spec() == (before.show_millis_spec() != flip_millis)
    &&& after.config_spec() == before.config_spec()
    &&& after.running_spec() == before.running_spec()
    &&& after.remaining_spec() == before.remaining_spec()
    &&& after.started_at_spec() == before.started_at_spec()
    &&& after.phase_spec() == before.phase_spec()
    &&& after.sessions_spec() == before.sessions_spec()
    &&& after.phase_started_spec() == before.phase_started_spec()
}

/// What the caller must do after a key press in the timer tab.
#[derive(Debug)]
pub enum TimerTabEffect {
    /// Nothing.
    NoEffect,
    /// The todo picker is open: hand the key to it, then call
    /// `picker_select` or `picker_cancel` on its answer.
    ForPicker,
    /// The reduce-time dialog is open: hand the key to it.
    ForReduce,
    /// The todo picker was opened: fill it from the cache.
    OpenPicker,
    /// A session ended early: save it and drop cached statistics.
    Skipped(Session),
}

/// The timer tab.
pub struct TimerTab {
    state: TimerState,
    picker_open: bool,
    reduce_open: bool,
}

impl TimerTab {
    /// The timer state.
    pub closed spec fn state_spec(&self) -> TimerState {
        self.state
    }

    /// Whether the todo picker is open.
    pub closed spec fn picker_open_spec(&self) -> bool {
        self.picker_open
    }

    /// Whether the reduce-time dialog is open.
    pub closed spec fn reduce_open_spec(&self) -> bool {
        self.reduce_open
    }

    /// A tab with a fresh timer and no overlay open.
    pub fn new(config: TimerConfig) -> (t: Self)
        ensures
            t.state_spec().config_spec() == config,
            t.state_spec().phase_spec() == Phase::Work,
            t.state_spec().remaining_spec() == phase_millis(config, Phase::Work),
            t.state_spec().started_at_spec() is None,
            !t.state_spec().phase_started_spec(),
            !t.state_spec().running_spec(),
            t.state_spec().sessions_spec() == 0,
            t.state_spec().todo_id_spec() is None,
            t.state_spec().show_millis_spec() == config.show_millis_spec(),
            !t.picker_open_spec(),
            !t.reduce_open_spec(),
    {
        Self { state: TimerState::new(config), picker_open: false, reduce_open: false }
    }

    /// The label of the tab in the tab bar.
    pub fn name(&self) -> (r: &'static str)
        ensures
            r@ == "Timer [^y]"@,
    {
        "Timer [^y]"
    }

    /// The accent color of the tab: that of the current phase.
    pub fn color(&self) -> (r: Accent)
        ensures
            r == phase_accent(self.state_spec().phase_spec()),
    {
        self.state.cycle_phase().color()
    }

    /// The timer state.
    pub fn state(&self) -> (r: &TimerState)
        ensures
            *r == self.state_spec(),
    {
        &self.state
    }

    /// Whether the todo picker is open.
    pub fn picker_open(&self) -> (r: bool)
        ensures
            r == self.picker_open_spec(),
    {
        self.picker_open
    }

    /// Whether the reduce-time dialog is open.
    pub fn reduce_open(&self) -> (r: bool)
        ensures
            r == self.reduce_open_spec(),
    {
        self.reduce_open
    }

    /// Associates the picked todo with the timer and closes the picker.
    pub fn picker_select(&mut self, id: i32)
        ensures
            with_display(old(self).state_spec(), final(self).state_spec(), Some(id), false),
            !final(self).picker_open_spec(),
            final(self).reduce_open_spec() == old(self).reduce_open_spec(),
    {
        self.state.set_todo_id(Some(id));
        self.picker_open = false;
    }

    /// Closes the picker without changing the associated todo.
    pub fn picker_cancel(&mut self)
        ensures
            final(self).state_spec() == old(self).state_spec(),
            !final(self).picker_open_spec(),
            final(self).reduce_open_spec() == old(self).reduce_open_spec(),
    {
        self.picker_open = false;
    }

    /// Closes the reduce-time dialog without applying it.
    pub fn reduce_picker_cancel(&mut self)
        ensures
            final(self).state_spec() == old(self).state_spec(),
            final(self).picker_open_spec() == old(self).picker_open_spec(),
            !final(self).reduce_open_spec(),
    {
        self.reduce_open = false;
    }

    /// Handles a key press at clock reading `now`. An open overlay takes the
    /// key. Otherwise Space starts or pauses the timer, `r` resets the phase,
    /// `n` ends it early, `t` opens the todo picker, `T` clears the
    /// associated todo, `m` shows or hides milliseconds and `d` opens the
    /// reduce-time dialog.
    pub fn handle(&mut self, key: Key, now: u64) -> (r: TimerTabEffect)
        requires
            !old(self).picker_open_spec() && !old(self).reduce_open_spec() && key.code
                == KeyCode::Char('n') && old(self).state_spec().phase_spec() == Phase::Work
                ==> old(self).state_spec().sessions_spec() < u32::MAX,
        ensures
            old(self).picker_open_spec() ==> r is ForPicker && *final(self) == *old(self),
            !old(self).picker_open_spec() && old(self).reduce_open_spec() ==> r is ForReduce
                && *final(self) == *old(self),
            !old(self).picker_open_spec() && !old(self).reduce_open_spec() ==> {
                let s0 = old(self).state_spec();
                let s1 = final(self).state_spec();
                &&& match key.code {
                    KeyCode::Char(' ') => toggled_at(s0, s1, now) && r is NoEffect,
                    KeyCode::Char('r') => reset_of(s0, s1) && r is NoEffect,
                    KeyCode::Char('n') => r matches TimerTabEffect::Skipped(s) && advanced(s0, s1, s),
                    KeyCode::Char('T') => with_display(s0, s1, None, false) && r is NoEffect,
                    KeyCode::Char('m') => with_display(s0, s1, s0.todo_id_spec(), true)
                        && r is NoEffect,
                    KeyCode::Char('t') => s1 == s0 && r is OpenPicker,
                    _ => s1 == s0 && r is NoEffect,
                }
                &&& final(self).picker_open_spec() == (key.code == KeyCode::Char('t'))
                &&& final(self).reduce_open_spec() == (key.code == KeyCode::Char('d'))
            },
    {
        if self.picker_open {
            return TimerTabEffect::ForPicker;
        }
        if self.reduce_open {
            return TimerTabEffect::ForReduce;
        }
        match key.code {
            KeyCode::Char(' ') => {
                self.state.toggle_running(now);
                TimerTabEffect::NoEffect
            },
            KeyCode::Char('r') => {
                self.state.reset();
                TimerTabEffect::NoEffect
            },
            KeyCode::Char('n') => TimerTabEffect::Skipped(self.state.advance()),
            KeyCode::Char('t') => {
                self.picker_open = true;
                TimerTabEffect::OpenPicker
            },
            KeyCode::Char('T') => {
                self.state.set_todo_id(None);
                TimerTabEffect::NoEffect
            },
            KeyCode::Char('m') => {
                self.state.toggle_show_millis();
                TimerTabEffect::NoEffect
            },
            KeyCode::Char('d') => {
                self.reduce_open = true;
                TimerTabEffect::NoEffect
            },
            _ => TimerTabEffect::NoEffect,
        }
    }
}

} // verus!
