//! Count-down-to-zero state machine with pause/resume/reset. The same
//! mechanics back both the countdown mode and the fixed-duration timer
//! mode, so `Timer` is an alias of `Countdown`.
//!
//! As with the chronometer, every time-dependent operation takes the
//! observed `now` explicitly; the clock is monotonic, so an observation is
//! never earlier than an instant stored before it.

use vstd::prelude::*;

use crate::duration::{Duration, Instant};

verus! {

/// Countdown toward a deadline: running while `end_time` is `Some`, paused
/// while it is `None` with the remaining span held in `paused_duration`.
/// `duration` keeps the originally requested span for reset.
pub struct Countdown {
    pub duration: Duration,
    pub end_time: Option<Instant>,
    pub paused_duration: Duration,
}

/// The timer mode uses the identical mechanics under another name.
pub type Timer = Countdown;

impl Countdown {
    /// While running, the remaining time lives entirely in the deadline:
    /// nothing is parked in `paused_duration`.
    pub open spec fn wf(self) -> bool {
        self.end_time is Some ==> self.paused_duration.nanos == 0
    }

    /// Remaining time as of the observation `now`: the span up to the
    /// deadline, saturating at zero once the deadline has passed; frozen
    /// while paused.
    pub open spec fn spec_time_left(self, now: Instant) -> int {
        if self.end_time is Some {
            if self.end_time->0.nanos >= now.nanos {
                self.end_time->0.nanos - now.nanos
            } else {
                0
            }
        } else {
            self.paused_duration.nanos as int
        }
    }

    pub open spec fn spec_is_running(self) -> bool {
        self.end_time is Some
    }

    /// Finished means the displayed, whole-second-truncated remaining time
    /// is zero.
    pub open spec fn spec_is_finished(self, now: Instant) -> bool {
        self.spec_time_left(now) < 1_000_000_000
    }

    /// The state `new` constructs: running, with the deadline one second
    /// past `now + duration`. The extra second compensates display
    /// rounding, so the first rendered frame shows the full requested
    /// duration instead of visibly skipping one second down.
    pub open spec fn spec_new(duration: Duration, now: Instant) -> Countdown {
        Countdown {
            duration,
            end_time: Some(
                Instant { nanos: (now.nanos + duration.nanos + 1_000_000_000) as u128 },
            ),
            paused_duration: Duration { nanos: 0 },
        }
    }

    /// Immediately running toward `now + duration` plus the one-second
    /// display-rounding pad.
    pub fn new(duration: Duration, now: Instant) -> (r: Countdown)
        requires
            now.nanos + duration.nanos + 1_000_000_000 <= u128::MAX,
        ensures
            r == Self::spec_new(duration, now),
            r.wf(),
    {
        let end_time = Some(now.add_duration(duration).add_duration(Duration::from_nanos(
            1_000_000_000,
        )));
        Countdown { duration, end_time, paused_duration: Duration::zero() }
    }

    /// The state after a `toggle_pause` observed at `now`.
    pub open spec fn spec_toggled(self, now: Instant) -> Countdown {
        if self.end_time is Some {
            Countdown {
                duration: self.duration,
                end_time: None,
                paused_duration: Duration {
                    nanos: if self.end_time->0.nanos >= now.nanos {
                        (self.end_time->0.nanos - now.nanos) as u128
                    } else {
                        0
                    },
                },
            }
        } else {
            Countdown {
                duration: self.duration,
                end_time: Some(Instant { nanos: (now.nanos + self.paused_duration.nanos) as u128 }),
                paused_duration: Duration { nanos: 0 },
            }
        }
    }

    /// Running folds the remaining time into `paused_duration` and pauses;
    /// paused re-establishes the deadline `now + paused_duration` and
    /// resumes. Either way the remaining time observed at `now` is
    /// unchanged.
    pub fn toggle_pause(&mut self, now: Instant)
        requires
            old(self).wf(),
            !old(self).spec_is_running() ==> now.nanos + old(self).paused_duration.nanos
                <= u128::MAX,
        ensures
            *final(self) == old(self).spec_toggled(now),
            final(self).wf(),
            final(self).spec_is_running() == !old(self).spec_is_running(),
            final(self).spec_time_left(now) == old(self).spec_time_left(now),
            final(self).duration == old(self).duration,
    {
        match self.end_time {
            Some(end_time) => {
                self.paused_duration = end_time.saturating_duration_since(now);
                self.end_time = None;
            },
            None => {
                self.end_time = Some(now.add_duration(self.paused_duration));
                self.paused_duration = Duration::zero();
            },
        }
    }

    /// Remaining time, saturating at zero once the deadline passes; never
    /// negative.
    pub fn time_left(&self, now: Instant) -> (r: Duration)
        ensures
            r.nanos == self.spec_time_left(now),
    {
        match self.end_time {
            Some(end_time) => end_time.saturating_duration_since(now),
            None => self.paused_duration,
        }
    }

    /// True once the displayed (whole-second-truncated) remaining time
    /// reaches zero.
    pub fn is_finished(&self, now: Instant) -> (r: bool)
        ensures
            r == self.spec_is_finished(now),
    {
        let left = self.time_left(now);
        let secs = left.as_secs();
        proof {
            if left.nanos < 1_000_000_000 {
                vstd::arithmetic::div_mod::lemma_basic_div(left.nanos as int, 1_000_000_000);
            } else {
                vstd::arithmetic::div_mod::lemma_div_non_zero(left.nanos as int, 1_000_000_000);
            }
        }
        secs == 0
    }

    pub fn is_paused(&self) -> (r: bool)
        ensures
            r == !self.spec_is_running(),
    {
        self.end_time.is_none()
    }

    /// Re-arm at the full original duration and immediately pause: after a
    /// reset the countdown is paused, the remaining time equals the
    /// requested duration exactly (the display-rounding pad is consumed
    /// internally and is not observable here), and an explicit resume is
    /// required to restart it.
    pub fn reset(&mut self, now: Instant)
        requires
            old(self).wf(),
            now.nanos + old(self).duration.nanos <= u128::MAX,
        ensures
            final(self).wf(),
            !final(self).spec_is_running(),
            final(self).duration == old(self).duration,
            final(self).paused_duration == old(self).duration,
            final(self).spec_time_left(now) == old(self).duration.nanos,
    {
        self.end_time = Some(now.add_duration(self.duration));
        self.paused_duration = Duration::zero();
        self.toggle_pause(now);
    }
}

/// While running, the remaining time never increases with the observation:
/// time read later leaves less on the clock.
pub proof fn lemma_time_left_monotonic_while_running(c: Countdown, n1: Instant, n2: Instant)
    requires
        c.spec_is_running(),
        n1.nanos <= n2.nanos,
    ensures
        c.spec_time_left(n2) <= c.spec_time_left(n1),
{
}

/// While paused, the remaining time is frozen: it does not depend on the
/// observation at all.
pub proof fn lemma_time_left_frozen_while_paused(c: Countdown, n1: Instant, n2: Instant)
    requires
        !c.spec_is_running(),
    ensures
        c.spec_time_left(n1) == c.spec_time_left(n2),
{
}

/// Once finished, a running countdown stays finished at every later
/// observation (only a reset can un-finish it).
pub proof fn lemma_finished_stays_finished(c: Countdown, n1: Instant, n2: Instant)
    requires
        c.spec_is_running(),
        n1.nanos <= n2.nanos,
        c.spec_is_finished(n1),
    ensures
        c.spec_is_finished(n2),
{
    lemma_time_left_monotonic_while_running(c, n1, n2);
}

/// What `parse_duration::parse` yields for a given string: the parsed span
/// in whole nanoseconds, or `None` where the string is not a valid
/// duration expression. The result depends on the string alone.
pub uninterp spec fn parsed_duration_nanos(s: Seq<char>) -> Option<u128>;

/// Relies on `parse_duration::parse`: it turns a free-text span such as
/// "5m 30s" into a duration, as a pure function of the string, rounding to
/// whole nanoseconds; an unparseable string yields an error.
#[verifier::external_body]
fn parse_duration_str(s: &str) -> (r: Option<Duration>)
    ensures
        match r {
            Some(d) => parsed_duration_nanos(s@) == Some(d.nanos),
            None => parsed_duration_nanos(s@) is None,
        },
{
    match parse_duration::parse(s) {
        Ok(d) => Some(Duration { nanos: d.as_nanos() }),
        Err(_) => None,
    }
}

/// Parse a free-text duration and start a countdown from it at `now`.
/// `None` exactly when the string does not parse, or when the parsed span
/// is so large that the padded deadline would not fit the clock's range.
pub fn countdown_from_str(s: &str, now: Instant) -> (r: Option<Countdown>)
    ensures
        match parsed_duration_nanos(s@) {
            Some(n) => {
                if now.nanos + n + 1_000_000_000 <= u128::MAX {
                    r == Some(Countdown::spec_new(Duration { nanos: n }, now))
                } else {
                    r is None
                }
            },
            None => r is None,
        },
        r matches Some(c) ==> c.wf(),
{
    match parse_duration_str(s) {
        Some(d) => {
            if now.nanos <= u128::MAX - 1_000_000_000 && d.nanos <= u128::MAX - 1_000_000_000
                - now.nanos {
                Some(Countdown::new(d, now))
            } else {
                None
            }
        },
        None => None,
    }
}

} // verus!
