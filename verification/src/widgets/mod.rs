//! Interactive widgets of the terminal interface: their state and how they
//! answer key presses.
pub mod repeat_picker;
pub mod calendar_popup;
pub mod input_area;
pub mod todo_input;
