//! The saved state of the standalone timer.
use vstd::prelude::*;

use crate::timer::Phase;

verus! {

/// What is saved of the standalone timer between runs.
#[derive(Clone, Copy, Debug)]
pub struct State {
    /// The current phase.
    pub phase: Phase,
    /// Seconds left in the current phase.
    pub remaining_secs: u64,
    /// Work sessions completed so far.
    pub sessions_completed: u32,
}

} // verus!
