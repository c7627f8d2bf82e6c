//! The countdown and timer modes: key handling and per-frame drawing
//! decisions around a `Countdown` state machine.

use vstd::prelude::*;

use crate::countdown::Countdown;
use crate::duration::{Duration, Instant};
use crate::events::Key;
use crate::rendering;
use crate::rendering::{FrameOps, TextOp};
use crate::utils::{lemma_format_hms_len, spec_displayed_secs, spec_format_hms};

verus! {

/// The loop state of a countdown or timer mode: the state machine and
/// the quit flag.
pub struct CountdownState {
    pub countdown: Countdown,
    pub quit: bool,
}

impl CountdownState {
    pub fn new(countdown: Countdown) -> (r: CountdownState)
        ensures
            r.countdown == countdown,
            !r.quit,
    {
        CountdownState { countdown, quit: false }
    }

    /// Apply one recognized key: the interrupt combination sets the quit
    /// flag, space toggles pause, `r` resets, anything else is ignored.
    pub fn handle_key(&mut self, key: Key, now: Instant)
        requires
            old(self).countdown.wf(),
            key == Key::Space && !old(self).countdown.spec_is_running() ==> now.nanos + old(
                self,
            ).countdown.paused_duration.nanos <= u128::MAX,
            key == Key::CharR ==> now.nanos + old(self).countdown.duration.nanos <= u128::MAX,
        ensures
            final(self).countdown.wf(),
            match key {
                Key::CtrlC => final(self).countdown == old(self).countdown && final(self).quit,
                Key::Space => {
                    &&& final(self).countdown == old(self).countdown.spec_toggled(now)
                    &&& final(self).quit == old(self).quit
                },
                Key::CharR => {
                    &&& !final(self).countdown.spec_is_running()
                    &&& final(self).countdown.duration == old(self).countdown.duration
                    &&& final(self).countdown.paused_duration == old(self).countdown.duration
                    &&& final(self).quit == old(self).quit
                },
                _ => *final(self) == *old(self),
            },
    {
        match key {
            Key::CtrlC => {
                self.quit = true;
            },
            Key::Space => {
                self.countdown.toggle_pause(now);
            },
            Key::CharR => {
                self.countdown.reset(now);
            },
            _ => {},
        }
    }
}

/// The `HH:MM:SS` line a countdown displays at the observation `now`.
pub open spec fn spec_time_left_text(c: Countdown, now: Instant) -> Seq<char> {
    spec_format_hms(spec_displayed_secs(Duration { nanos: c.spec_time_left(now) as u128 }))
}

/// Compute one frame of the countdown display: the big-digit remaining
/// time, centered, plus a `[PAUSE]` or `[FINISHED]` status line above it
/// when the countdown is paused or has run out.
pub fn render_frame(countdown: &Countdown, width: i16, height: i16, now: Instant) -> (ops:
    FrameOps)
    requires
        0 <= width,
        0 <= height,
    ensures
        forall|k: int|
            0 <= k < ops.cells@.len() ==> rendering::time_cell_lit(
                spec_time_left_text(*countdown, now),
                width as int,
                height as int,
                #[trigger] ops.cells@[k].x as int,
                ops.cells@[k].y as int,
            ),
        forall|i: int, cx: int, cy: int|
            0 <= i < spec_time_left_text(*countdown, now).len() && #[trigger] rendering::glyph_cell_lit(
                spec_time_left_text(*countdown, now)[i],
                rendering::glyph_left(spec_time_left_text(*countdown, now), width as int, i),
                rendering::glyph_top(height as int),
                width as int,
                height as int,
                cx,
                cy,
            ) ==> ops.cells@.contains(rendering::Cell { x: cx as u16, y: cy as u16 }),
        !countdown.spec_is_running() ==> {
            &&& ops.texts@.len() == 1
            &&& ops.texts@[0].y as int == height as int / 2 - 3
            &&& ops.texts@[0].x as int == if width as int / 2 - 3 < 0 {
                0int
            } else {
                width as int / 2 - 3
            }
            &&& ops.texts@[0].text@ == "[PAUSE]"@.subrange(
                rendering::text_clip_start("[PAUSE]"@, width as int / 2 - 3),
                rendering::text_clip_end("[PAUSE]"@, width as int / 2 - 3, width as int),
            )
        },
        countdown.spec_is_running() && countdown.spec_is_finished(now) ==> {
            &&& ops.texts@.len() == 1
            &&& ops.texts@[0].y as int == height as int / 2 - 3
            &&& ops.texts@[0].x as int == if width as int / 2 - 5 < 0 {
                0int
            } else {
                width as int / 2 - 5
            }
            &&& ops.texts@[0].text@ == "[FINISHED]"@.subrange(
                rendering::text_clip_start("[FINISHED]"@, width as int / 2 - 5),
                rendering::text_clip_end("[FINISHED]"@, width as int / 2 - 5, width as int),
            )
        },
        countdown.spec_is_running() && !countdown.spec_is_finished(now) ==> ops.texts@.len() == 0,
{
    let left = countdown.time_left(now);
    let remaining = crate::utils::format_duration(left);
    proof {
        lemma_format_hms_len(spec_displayed_secs(left));
    }
    let cells = rendering::draw_time(remaining.as_str(), width, height);

    let mut texts: Vec<TextOp> = Vec::new();
    let y: i16 = height / 2 + 5 / 2 + 2;
    if countdown.is_paused() {
        let text = "[PAUSE]";
        proof {
            reveal_strlit("[PAUSE]");
        }
        let l = text.unicode_len();
        let x: i16 = width / 2 - (l as i16) / 2;
        let op = rendering::draw_text(text, x, y - 5 - 5 / 2, width);
        texts.push(op);
    } else if countdown.is_finished(now) {
        let text = "[FINISHED]";
        proof {
            reveal_strlit("[FINISHED]");
        }
        let l = text.unicode_len();
        let x: i16 = width / 2 - (l as i16) / 2;
        let op = rendering::draw_text(text, x, y - 5 - 5 / 2, width);
        texts.push(op);
    }
    FrameOps { cells, texts }
}

} // verus!
