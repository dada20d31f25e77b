//! The actions of the todo input.
use vstd::prelude::*;

verus! {

/// What a key press in the todo input asks for.
#[derive(Clone, Copy, Debug, PartialEq, Eq, Structural)]
pub enum TodoInputAction {
    /// The input is submitted.
    Confirm,
    /// The input is dropped.
    Cancel,
    /// Nothing to do.
    NoAction,
}

/// The todo input (it holds no state of its own).
#[derive(Clone, Copy, Debug)]
pub struct TodoInput {}

} // verus!
