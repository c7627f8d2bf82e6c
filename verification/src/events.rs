//! The key events the frame loops recognize. The terminal layer drains
//! its input queue without blocking and translates each key press to one
//! of these before handing it to a mode's transition function.

use vstd::prelude::*;

verus! {

/// One recognized key press.
#[derive(Clone, Copy, PartialEq, Eq, Structural, Debug)]
pub enum Key {
    /// The designated interrupt combination: quit the loop.
    CtrlC,
    /// Pause or resume the active state machine.
    Space,
    /// Reset the active state machine.
    CharR,
    /// Record a lap (chronometer mode only).
    CharL,
    /// Scroll the lap list down one entry.
    Down,
    /// Scroll the lap list up one entry.
    Up,
    /// Scroll the lap list to its end.
    PageDown,
    /// Scroll the lap list back to its start.
    PageUp,
    /// Any other key: ignored.
    Other,
}

} // verus!
