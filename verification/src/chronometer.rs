//! Count-up stopwatch state machine with pause/resume/reset, and the lap
//! records a caller keeps beside it.
//!
//! The chronometer never reads a clock itself: every operation that depends
//! on the current time takes the observed `now` as an argument. A monotonic
//! clock never regresses, so an observation is never earlier than the stored
//! start instant; `valid_observation` states exactly that, together with the
//! machine-width bound on the accumulated total.

use vstd::prelude::*;

use crate::duration::{Duration, Instant};

verus! {

/// Count-up stopwatch: running while `start_time` is `Some`, paused while
/// it is `None`. `paused_duration` holds the running time accumulated by
/// earlier run/pause rounds.
pub struct Chronometer {
    pub start_time: Option<Instant>,
    pub paused_duration: Duration,
}

impl Chronometer {
    pub open spec fn spec_is_running(self) -> bool {
        self.start_time is Some
    }

    /// Total running time as of the observation `now`.
    pub open spec fn spec_elapsed(self, now: Instant) -> int {
        if self.start_time is Some {
            now.nanos - self.start_time->0.nanos + self.paused_duration.nanos
        } else {
            self.paused_duration.nanos as int
        }
    }

    /// `now` comes from the same monotonic clock that produced the stored
    /// start instant, so it does not precede it; and the elapsed total fits
    /// the machine word.
    pub open spec fn valid_observation(self, now: Instant) -> bool {
        self.start_time is Some ==> {
            &&& self.start_time->0.nanos <= now.nanos
            &&& now.nanos - self.start_time->0.nanos + self.paused_duration.nanos <= u128::MAX
        }
    }

    /// A fresh chronometer: paused at zero.
    pub fn new() -> (r: Chronometer)
        ensures
            !r.spec_is_running(),
            r.paused_duration.nanos == 0,
    {
        Chronometer { start_time: None, paused_duration: Duration::zero() }
    }

    /// Begin running from `now`; only meaningful on a fresh chronometer.
    pub fn start(&mut self, now: Instant)
        ensures
            final(self).start_time == Some(now),
            final(self).paused_duration == old(self).paused_duration,
    {
        self.start_time = Some(now);
    }

    /// Discard all accumulated time: back to a fresh paused chronometer.
    pub fn reset(&mut self)
        ensures
            !final(self).spec_is_running(),
            final(self).paused_duration.nanos == 0,
    {
        self.start_time = None;
        self.paused_duration = Duration::zero();
    }

    /// The state after a `toggle_pause` observed at `now`.
    pub open spec fn spec_toggled(self, now: Instant) -> Chronometer {
        if self.start_time is Some {
            Chronometer {
                start_time: None,
                paused_duration: Duration {
                    nanos: (now.nanos - self.start_time->0.nanos
                        + self.paused_duration.nanos) as u128,
                },
            }
        } else {
            Chronometer { start_time: Some(now), paused_duration: self.paused_duration }
        }
    }

    /// Running folds the elapsed running time into `paused_duration` and
    /// pauses; paused resumes from `now` without losing accumulated time.
    /// Either way the elapsed total observed at `now` is unchanged.
    pub fn toggle_pause(&mut self, now: Instant)
        requires
            old(self).valid_observation(now),
        ensures
            *final(self) == old(self).spec_toggled(now),
            final(self).spec_is_running() == !old(self).spec_is_running(),
            final(self).spec_elapsed(now) == old(self).spec_elapsed(now),
    {
        match self.start_time {
            Some(start_time) => {
                self.paused_duration =
                    self.paused_duration.add_duration(now.duration_since(start_time));
                self.start_time = None;
            },
            None => {
                self.start_time = Some(now);
            },
        }
    }

    pub fn is_paused(&self) -> (r: bool)
        ensures
            r == !self.spec_is_running(),
    {
        self.start_time.is_none()
    }

    /// Total running time as of `now`: the current run plus what earlier
    /// rounds accumulated, or the frozen total while paused.
    pub fn elapsed(&self, now: Instant) -> (r: Duration)
        requires
            self.valid_observation(now),
        ensures
            r.nanos == self.spec_elapsed(now),
    {
        match self.start_time {
            Some(start_time) => now.duration_since(start_time).add_duration(self.paused_duration),
            None => self.paused_duration,
        }
    }
}

/// While running, the elapsed total only ever increases with the
/// observation: time read later is never smaller.
pub proof fn lemma_elapsed_monotonic_while_running(c: Chronometer, n1: Instant, n2: Instant)
    requires
        c.spec_is_running(),
        c.valid_observation(n1),
        c.valid_observation(n2),
        n1.nanos <= n2.nanos,
    ensures
        c.spec_elapsed(n1) <= c.spec_elapsed(n2),
{
}

/// While paused, the elapsed total is frozen: it does not depend on the
/// observation at all, however much real time passes.
pub proof fn lemma_elapsed_frozen_while_paused(c: Chronometer, n1: Instant, n2: Instant)
    requires
        !c.spec_is_running(),
    ensures
        c.spec_elapsed(n1) == c.spec_elapsed(n2),
{
}

/// One recorded lap: `time` is the cumulative elapsed total at the moment
/// of recording, `delta` the span since the previous lap (or equal to
/// `time` for the first lap).
#[derive(Clone, Copy, PartialEq, Eq, Structural, Debug)]
pub struct Lapse {
    pub time: Duration,
    pub delta: Duration,
}

/// Law over a lap list: the first delta equals its time, and every later
/// delta is the difference from the previous lap's time (differences of
/// `Duration`s saturate at zero).
pub open spec fn lapse_deltas_consistent(laps: Seq<Lapse>) -> bool {
    &&& laps.len() > 0 ==> laps[0].delta == laps[0].time
    &&& forall|i: int|
        1 <= i < laps.len() ==> #[trigger] laps[i].delta.nanos == if laps[i].time.nanos
            >= laps[i - 1].time.nanos {
            laps[i].time.nanos - laps[i - 1].time.nanos
        } else {
            0
        }
}

/// Append a lap recorded at cumulative elapsed total `time`. The delta is
/// computed here, so a list grown only by this function always satisfies
/// `lapse_deltas_consistent`.
pub fn record_lap(laps: &mut Vec<Lapse>, time: Duration)
    ensures
        final(laps)@.len() == old(laps)@.len() + 1,
        final(laps)@.subrange(0, old(laps)@.len() as int) == old(laps)@,
        final(laps)@.last().time == time,
        final(laps)@.last().delta.nanos == if old(laps)@.len() == 0 {
            time.nanos as int
        } else {
            if time.nanos >= old(laps)@.last().time.nanos {
                time.nanos - old(laps)@.last().time.nanos
            } else {
                0int
            }
        },
        lapse_deltas_consistent(old(laps)@) ==> lapse_deltas_consistent(final(laps)@),
{
    let delta = match laps.last() {
        Some(last) => time.saturating_sub(last.time),
        None => time,
    };
    laps.push(Lapse { time, delta });
    proof {
        assert(final(laps)@.subrange(0, old(laps)@.len() as int) =~= old(laps)@);
    }
}

/// Clamp a lap-list scroll offset so it never exceeds
/// `max(0, lapse_count - visible_rows)`.
pub fn clamp_scroll_offset(offset: usize, lapse_count: usize, visible_rows: usize) -> (r: usize)
    ensures
        r == if lapse_count <= visible_rows {
            0usize
        } else {
            if offset <= lapse_count - visible_rows {
                offset
            } else {
                (lapse_count - visible_rows) as usize
            }
        },
{
    if lapse_count <= visible_rows {
        0
    } else if offset > lapse_count - visible_rows {
        lapse_count - visible_rows
    } else {
        offset
    }
}

} // verus!
