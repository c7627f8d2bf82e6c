//! Per-mode state and frame computation: the decisions of each frame loop
//! (key handling, state transitions, what to draw where), kept apart from
//! the terminal I/O that surrounds them.

pub mod chrono;
pub mod clock;
pub mod countdown;
