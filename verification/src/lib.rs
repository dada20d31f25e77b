//! Orivo: a terminal pomodoro timer and todo list.
//!
//! The library holds the application's rules: the todo pages and their
//! navigation, the pomodoro phases and timer state machines, repeat rules for
//! todos, date arithmetic, pagination of the todo list, and the small text
//! parsers and formatters used by the terminal interface.
pub mod config;
pub mod date;
pub mod kinds;
pub mod models;
pub mod state;
pub mod tabs;
pub mod states;
pub mod timer;
pub mod ui;
pub mod widgets;
pub mod text;
