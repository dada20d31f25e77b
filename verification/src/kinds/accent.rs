//! Accent colors of the interface.
use vstd::prelude::*;

verus! {

/// A terminal accent color used by tabs, phases and widgets.
#[derive(Clone, Copy, Debug, PartialEq, Eq, Structural)]
pub enum Accent {
    /// Red.
    Red,
    /// Green.
    Green,
    /// Cyan.
    Cyan,
    /// Blue.
    Blue,
    /// Yellow.
    Yellow,
    /// Magenta.
    Magenta,
    /// White.
    White,
    /// Dark gray.
    DarkGray,
}

} // verus!
