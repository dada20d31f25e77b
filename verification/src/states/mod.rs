//! Runtime state containers backing the interactive tabs.
pub mod todos;
pub mod timer;
pub mod timer_cache;
