//! Records of todos and pomodoro sessions.
pub mod session;
pub mod timer_session;
pub mod todo;
