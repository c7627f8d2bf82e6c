//! Verified core of a full-screen terminal clock: timing state machines
//! (chronometer and countdown), a cyclic color/gradient engine, and the
//! block-digit glyph layout with screen clipping.

pub mod chronometer;
pub mod color;
pub mod config;
pub mod countdown;
pub mod duration;
pub mod events;
pub mod gradient;
pub mod modes;
pub mod rendering;
pub mod symbols;
pub mod utils;
