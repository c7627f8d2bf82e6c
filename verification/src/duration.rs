//! Elapsed-time values and monotonic timestamps, counted in nanoseconds.
//!
//! `Duration` is a non-negative span of time; `Instant` is a point on a
//! monotonic clock. Callers obtain the current `Instant` from the clock at
//! the edge of the system and pass it in, so everything here is a pure
//! function of its arguments.

use vstd::prelude::*;

verus! {

/// Nanoseconds in one second, the unit conversions below rely on.
pub const NANOS_PER_SEC: u128 = 1_000_000_000;

/// A non-negative span of time, counted in whole nanoseconds.
#[derive(Clone, Copy, PartialEq, Eq, Structural, Debug)]
pub struct Duration {
    pub nanos: u128,
}

impl Duration {
    /// The zero-length span.
    pub fn zero() -> (r: Duration)
        ensures
            r.nanos == 0,
    {
        Duration { nanos: 0 }
    }

    /// A span of exactly `secs` whole seconds.
    pub fn from_secs(secs: u64) -> (r: Duration)
        ensures
            r.nanos == secs * 1_000_000_000,
    {
        Duration { nanos: secs as u128 * 1_000_000_000 }
    }

    /// A span of exactly `nanos` nanoseconds.
    pub fn from_nanos(nanos: u128) -> (r: Duration)
        ensures
            r.nanos == nanos,
    {
        Duration { nanos }
    }

    /// The span in nanoseconds.
    pub fn as_nanos(&self) -> (r: u128)
        ensures
            r == self.nanos,
    {
        self.nanos
    }

    /// The number of whole seconds in this span.
    pub open spec fn spec_secs(self) -> int {
        self.nanos as int / 1_000_000_000
    }

    /// The span truncated to whole seconds, as displayed on screen.
    pub fn as_secs(&self) -> (r: u64)
        ensures
            self.spec_secs() <= u64::MAX ==> r == self.spec_secs(),
            self.spec_secs() > u64::MAX ==> r == u64::MAX,
    {
        let s: u128 = self.nanos / NANOS_PER_SEC;
        if s > u64::MAX as u128 {
            u64::MAX
        } else {
            s as u64
        }
    }

    /// Exact sum of two spans.
    pub fn add_duration(self, rhs: Duration) -> (r: Duration)
        requires
            self.nanos + rhs.nanos <= u128::MAX,
        ensures
            r.nanos == self.nanos + rhs.nanos,
    {
        Duration { nanos: self.nanos + rhs.nanos }
    }

    /// Difference of two spans, saturating at zero when `rhs` is larger.
    pub fn saturating_sub(self, rhs: Duration) -> (r: Duration)
        ensures
            r.nanos == if self.nanos >= rhs.nanos {
                self.nanos - rhs.nanos
            } else {
                0
            },
    {
        if self.nanos >= rhs.nanos {
            Duration { nanos: self.nanos - rhs.nanos }
        } else {
            Duration { nanos: 0 }
        }
    }
}

/// A point on a monotonic clock, as nanoseconds since an arbitrary epoch.
/// The clock never regresses: of two observations the later one is the
/// larger value.
#[derive(Clone, Copy, PartialEq, Eq, Structural, Debug)]
pub struct Instant {
    pub nanos: u128,
}

impl Instant {
    /// The timestamp `nanos` nanoseconds after the epoch.
    pub fn from_nanos(nanos: u128) -> (r: Instant)
        ensures
            r.nanos == nanos,
    {
        Instant { nanos }
    }

    /// The timestamp `d` after this one.
    pub fn add_duration(self, d: Duration) -> (r: Instant)
        requires
            self.nanos + d.nanos <= u128::MAX,
        ensures
            r.nanos == self.nanos + d.nanos,
    {
        Instant { nanos: self.nanos + d.nanos }
    }

    /// The span from `earlier` up to this timestamp.
    pub fn duration_since(self, earlier: Instant) -> (r: Duration)
        requires
            self.nanos >= earlier.nanos,
        ensures
            r.nanos == self.nanos - earlier.nanos,
    {
        Duration { nanos: self.nanos - earlier.nanos }
    }

    /// The span from `earlier` up to this timestamp, or zero when `earlier`
    /// is in fact the later of the two.
    pub fn saturating_duration_since(self, earlier: Instant) -> (r: Duration)
        ensures
            r.nanos == if self.nanos >= earlier.nanos {
                self.nanos - earlier.nanos
            } else {
                0
            },
    {
        if self.nanos >= earlier.nanos {
            Duration { nanos: self.nanos - earlier.nanos }
        } else {
            Duration { nanos: 0 }
        }
    }
}

} // verus!
