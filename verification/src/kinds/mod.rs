//! Shared enums used across the application.
pub mod accent;
pub mod page;
pub mod phase;
pub mod repeat;
pub mod todos_mode;
pub mod key;
