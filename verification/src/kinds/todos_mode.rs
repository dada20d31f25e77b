//! Input modes of the todos tab.
use vstd::prelude::*;

verus! {

/// Current UI mode for the todos tab.
#[derive(Clone, Copy, Debug, PartialEq, Eq, Structural)]
pub enum TodosMode {
    /// Default browsing mode for navigating and acting on todos.
    Normal,
    /// Input mode for creating a new todo.
    Adding,
    /// Input mode for editing the selected todo.
    Editing,
    /// Search mode for filtering todos by text on the current page.
    Searching,
}

} // verus!
