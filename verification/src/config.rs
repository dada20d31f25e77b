//! Timer configuration, as the `[timer]` section of the configuration file
//! describes it.
use vstd::prelude::*;

verus! {

/// The documented bounds of each setting, in minutes or sessions.
pub open spec fn timer_config_in_range(
    work: int,
    short_break: int,
    long_break: int,
    interval: int,
    goal: int,
) -> bool {
    &&& 1 <= work <= 120
    &&& 1 <= short_break <= 60
    &&& 1 <= long_break <= 60
    &&& 1 <= interval <= 10
    &&& 1 <= goal <= 24
}

/// Pomodoro timer settings: session lengths (in minutes) and when long breaks
/// are triggered.
#[derive(Clone, Copy, Debug)]
pub struct TimerConfig {
    show_millis: bool,
    work_duration: u32,
    break_duration: u32,
    long_break_duration: u32,
    long_break_interval: u32,
    daily_session_goal: u32,
}

impl TimerConfig {
    /// Every configuration respects the documented bounds.
    #[verifier::type_invariant]
    pub open spec fn inv(&self) -> bool {
        timer_config_in_range(
            self.work_minutes_spec(),
            self.break_minutes_spec(),
            self.long_break_minutes_spec(),
            self.interval_spec(),
            self.goal_spec(),
        )
    }

    /// Whether milliseconds are shown on the clock at startup.
    pub closed spec fn show_millis_spec(&self) -> bool {
        self.show_millis
    }

    /// Work session length in minutes.
    pub closed spec fn work_minutes_spec(&self) -> int {
        self.work_duration as int
    }

    /// Short break length in minutes.
    pub closed spec fn break_minutes_spec(&self) -> int {
        self.break_duration as int
    }

    /// Long break length in minutes.
    pub closed spec fn long_break_minutes_spec(&self) -> int {
        self.long_break_duration as int
    }

    /// Work sessions before a long break.
    pub closed spec fn interval_spec(&self) -> int {
        self.long_break_interval as int
    }

    /// Target work sessions per day.
    pub closed spec fn goal_spec(&self) -> int {
        self.daily_session_goal as int
    }

    /// The configuration with the documented defaults: 25 minutes of work,
    /// 5 minutes of short break, 15 of long break, a long break every 4 work
    /// sessions, a goal of 16 sessions, milliseconds hidden.
    pub fn default_config() -> (c: TimerConfig)
        ensures
            !c.show_millis_spec(),
            c.work_minutes_spec() == 25,
            c.break_minutes_spec() == 5,
            c.long_break_minutes_spec() == 15,
            c.interval_spec() == 4,
            c.goal_spec() == 16,
    {
        TimerConfig {
            show_millis: false,
            work_duration: 25,
            break_duration: 5,
            long_break_duration: 15,
            long_break_interval: 4,
            daily_session_goal: 16,
        }
    }

    /// Builds a configuration from its settings, or `None` when one is outside
    /// its documented bounds.
    pub fn new(
        show_millis: bool,
        work_duration: u32,
        break_duration: u32,
        long_break_duration: u32,
        long_break_interval: u32,
        daily_session_goal: u32,
    ) -> (r: Option<TimerConfig>)
        ensures
            r is Some <==> timer_config_in_range(
                work_duration as int,
                break_duration as int,
                long_break_duration as int,
                long_break_interval as int,
                daily_session_goal as int,
            ),
            r matches Some(c) ==> {
                &&& c.show_millis_spec() == show_millis
                &&& c.work_minutes_spec() == work_duration
                &&& c.break_minutes_spec() == break_duration
                &&& c.long_break_minutes_spec() == long_break_duration
                &&& c.interval_spec() == long_break_interval
                &&& c.goal_spec() == daily_session_goal
            },
    {
        if 1 <= work_duration && work_duration <= 120 && 1 <= break_duration && break_duration
            <= 60 && 1 <= long_break_duration && long_break_duration <= 60 && 1
            <= long_break_interval && long_break_interval <= 10 && 1 <= daily_session_goal
            && daily_session_goal <= 24 {
            Some(
                TimerConfig {
                    show_millis,
                    work_duration,
                    break_duration,
                    long_break_duration,
                    long_break_interval,
                    daily_session_goal,
                },
            )
        } else {
            None
        }
    }

    /// Whether to show milliseconds in the timer display.
    pub fn show_millis(&self) -> (r: bool)
        ensures
            r == self.show_millis_spec(),
    {
        self.show_millis
    }

    /// Work session length in milliseconds.
    pub fn work_duration(&self) -> (r: u32)
        ensures
            r == self.work_minutes_spec() * 60_000,
    {
        proof {
            use_type_invariant(self);
        }
        self.work_duration * 60_000
    }

    /// Short break length in milliseconds.
    pub fn break_duration(&self) -> (r: u32)
        ensures
            r == self.break_minutes_spec() * 60_000,
    {
        proof {
            use_type_invariant(self);
        }
        self.break_duration * 60_000
    }

    /// Long break length in milliseconds.
    pub fn long_break_duration(&self) -> (r: u32)
        ensures
            r == self.long_break_minutes_spec() * 60_000,
    {
        proof {
            use_type_invariant(self);
        }
        self.long_break_duration * 60_000
    }

    /// Work sessions before a long break.
    pub fn long_break_interval(&self) -> (r: u32)
        ensures
            r == self.interval_spec(),
            r >= 1,
    {
        proof {
            use_type_invariant(self);
        }
        self.long_break_interval
    }

    /// Target work sessions to complete per day.
    pub fn daily_session_goal(&self) -> (r: u32)
        ensures
            r == self.goal_spec(),
    {
        self.daily_session_goal
    }
}

/// Settings of the standalone timer: session lengths in minutes and the number
/// of work sessions between long breaks.
#[derive(Clone, Copy, Debug)]
pub struct Config {
    /// Work session length in minutes.
    pub work_session_duration: u64,
    /// Short break length in minutes.
    pub break_session_duration: u64,
    /// Long break length in minutes.
    pub long_break_session_duration: u64,
    /// Work sessions before a long break.
    pub long_break_session_interval: u32,
}

impl Config {
    /// The lengths can be written in seconds as `u64`, and a long break comes
    /// after a positive number of work sessions.
    pub open spec fn valid(&self) -> bool {
        &&& self.work_session_duration * 60 <= u64::MAX
        &&& self.break_session_duration * 60 <= u64::MAX
        &&& self.long_break_session_duration * 60 <= u64::MAX
        &&& self.long_break_session_interval > 0
    }
}

} // verus!
