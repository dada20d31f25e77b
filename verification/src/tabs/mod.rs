//! Top-level tabs of the terminal interface.
pub mod timer;
pub mod todos;
pub mod active;
