//! Tests of the timing state machines: chronometer pause/resume, lap
//! recording, countdown/timer semantics, and duration parsing.

use tlock::chronometer::{clamp_scroll_offset, record_lap, Chronometer, Lapse};
use tlock::countdown::{countdown_from_str, Countdown, Timer};
use tlock::duration::{Duration, Instant};

fn at(nanos: u128) -> Instant {
    Instant::from_nanos(nanos)
}

fn secs(s: u64) -> u128 {
    s as u128 * 1_000_000_000
}

#[test]
fn duration_basics() {
    let d = Duration::from_secs(5);
    assert_eq!(d.nanos, 5_000_000_000);
    assert_eq!(d.as_secs(), 5);
    assert_eq!(d.as_nanos(), 5_000_000_000);
    let e = d.add_duration(Duration::from_nanos(999_999_999));
    assert_eq!(e.as_secs(), 5);
    assert_eq!(Duration::zero().as_secs(), 0);
    // subtraction saturates at zero
    let small = Duration::from_secs(1);
    assert_eq!(small.saturating_sub(d).nanos, 0);
    assert_eq!(d.saturating_sub(small).nanos, secs(4));
}

#[test]
fn chronometer_starts_paused_at_zero() {
    let c = Chronometer::new();
    assert!(c.is_paused());
    assert_eq!(c.elapsed(at(12345)).nanos, 0);
}

#[test]
fn chronometer_runs_and_freezes_on_pause() {
    let mut c = Chronometer::new();
    c.start(at(100));
    assert!(!c.is_paused());
    assert_eq!(c.elapsed(at(150)).nanos, 50);
    // elapsed only grows while running
    assert_eq!(c.elapsed(at(175)).nanos, 75);

    c.toggle_pause(at(150));
    assert!(c.is_paused());
    // frozen: later observations change nothing
    assert_eq!(c.elapsed(at(150)).nanos, 50);
    assert_eq!(c.elapsed(at(999_999)).nanos, 50);

    // resume keeps accumulated time
    c.toggle_pause(at(200));
    assert!(!c.is_paused());
    assert_eq!(c.elapsed(at(200)).nanos, 50);
    assert_eq!(c.elapsed(at(230)).nanos, 80);
}

#[test]
fn chronometer_toggle_preserves_elapsed_at_toggle_instant() {
    let mut c = Chronometer::new();
    c.start(at(0));
    let before = c.elapsed(at(1_000)).nanos;
    c.toggle_pause(at(1_000));
    assert_eq!(c.elapsed(at(1_000)).nanos, before);
    c.toggle_pause(at(5_000));
    assert_eq!(c.elapsed(at(5_000)).nanos, before);
}

#[test]
fn chronometer_reset_discards_everything() {
    let mut c = Chronometer::new();
    c.start(at(100));
    c.toggle_pause(at(500));
    c.reset();
    assert!(c.is_paused());
    assert_eq!(c.elapsed(at(10_000)).nanos, 0);
}

#[test]
fn lap_deltas_follow_the_lap_law() {
    let mut laps: Vec<Lapse> = Vec::new();
    record_lap(&mut laps, Duration::from_secs(10));
    record_lap(&mut laps, Duration::from_secs(25));
    record_lap(&mut laps, Duration::from_secs(26));
    assert_eq!(laps.len(), 3);
    // first delta equals its time
    assert_eq!(laps[0].delta.nanos, secs(10));
    assert_eq!(laps[0].time.nanos, secs(10));
    // later deltas are the difference from the previous lap
    assert_eq!(laps[1].delta.nanos, secs(15));
    assert_eq!(laps[2].delta.nanos, secs(1));
    assert_eq!(laps[2].time.nanos, secs(26));
}

#[test]
fn scroll_offset_clamps_to_window() {
    assert_eq!(clamp_scroll_offset(5, 3, 10), 0);
    assert_eq!(clamp_scroll_offset(5, 20, 10), 5);
    assert_eq!(clamp_scroll_offset(15, 20, 10), 10);
    assert_eq!(clamp_scroll_offset(0, 0, 0), 0);
}

#[test]
fn countdown_first_frame_shows_requested_duration() {
    // the one-second pad makes the first rendered frame display the
    // requested five seconds despite sub-second latency
    let c = Countdown::new(Duration::from_secs(5), at(0));
    assert!(!c.is_paused());
    // a blink after construction, five seconds remain on the display
    let shortly = at(1_000_000);
    assert_eq!(c.time_left(shortly).as_secs(), 5);
    assert!(!c.is_finished(shortly));
}

#[test]
fn countdown_time_left_saturates_and_finishes() {
    let c = Countdown::new(Duration::from_secs(2), at(0));
    // deadline is at 3s (2s requested + 1s pad)
    assert_eq!(c.time_left(at(secs(1))).nanos, secs(2));
    assert_eq!(c.time_left(at(secs(3))).nanos, 0);
    // long past the deadline: still zero, never negative
    assert_eq!(c.time_left(at(secs(50))).nanos, 0);
    // finished exactly when the truncated seconds reach zero
    assert!(!c.is_finished(at(secs(1))));
    assert!(c.is_finished(at(secs(2) + 500_000_000)));
    assert!(c.is_finished(at(secs(10))));
}

#[test]
fn countdown_monotonic_while_running_frozen_while_paused() {
    let mut c = Countdown::new(Duration::from_secs(10), at(0));
    let l1 = c.time_left(at(secs(1))).nanos;
    let l2 = c.time_left(at(secs(4))).nanos;
    assert!(l2 <= l1);

    c.toggle_pause(at(secs(4)));
    assert!(c.is_paused());
    let frozen = c.time_left(at(secs(4))).nanos;
    assert_eq!(frozen, l2);
    assert_eq!(c.time_left(at(secs(1000))).nanos, frozen);

    // resume: remaining time unchanged at the toggle instant
    c.toggle_pause(at(secs(6)));
    assert!(!c.is_paused());
    assert_eq!(c.time_left(at(secs(6))).nanos, frozen);
}

#[test]
fn countdown_reset_pauses_at_original_duration() {
    let mut c = Countdown::new(Duration::from_secs(30), at(0));
    c.toggle_pause(at(secs(12)));
    c.reset(at(secs(13)));
    // paused, holding exactly the requested duration: the pad is not
    // observable after a reset
    assert!(c.is_paused());
    assert_eq!(c.time_left(at(secs(13))).nanos, secs(30));
    assert_eq!(c.time_left(at(secs(99))).nanos, secs(30));
    assert_eq!(c.time_left(at(secs(13))).as_secs(), 30);
}

#[test]
fn timer_is_the_same_machine() {
    let t: Timer = Timer::new(Duration::from_secs(1), at(0));
    assert!(!t.is_paused());
    assert_eq!(t.time_left(at(0)).nanos, secs(2));
}

#[test]
fn parse_duration_strings() {
    let now = at(secs(100));
    // "5m 30s" parses to 330 seconds; plus the one-second pad
    let c = countdown_from_str("5m 30s", now).expect("should parse");
    assert_eq!(c.time_left(now).nanos, secs(331));

    let c2 = countdown_from_str("15 days 20 seconds", now).expect("should parse");
    assert_eq!(c2.time_left(now).nanos, secs(15 * 86_400 + 20 + 1));

    // an unparseable duration is rejected, not panicked over
    assert!(countdown_from_str("not a duration", now).is_none());
    assert!(countdown_from_str("", now).is_none());
}
