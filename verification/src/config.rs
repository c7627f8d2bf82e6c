//! The plain configuration record the core receives at startup, already
//! fully resolved by the configuration loader at the edge of the system.

use vstd::prelude::*;

use crate::color::ComputableColor;

verus! {

/// Resolved configuration: the core never reads configuration files
/// itself.
pub struct Config {
    pub be_polite: bool,
    pub fps: u64,
    pub color: ComputableColor,
    pub time_format: String,
    pub date_format: String,
}

impl Config {
    /// A valid configuration has a positive frame rate and a non-empty
    /// color scheme; the loader rejects anything else before the core
    /// runs.
    pub open spec fn wf(self) -> bool {
        &&& self.fps >= 1
        &&& self.color.wf()
    }

    /// Milliseconds the frame loop sleeps between frames.
    pub fn frame_interval_ms(&self) -> (r: u64)
        requires
            self.fps >= 1,
        ensures
            r == 1000u64 / self.fps,
    {
        1000 / self.fps
    }
}

} // verus!
