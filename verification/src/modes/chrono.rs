//! The chronometer mode: key handling over the stopwatch, its lap list
//! and scroll offset, and the per-frame drawing decisions.

use vstd::prelude::*;

use crate::chronometer::{
    clamp_scroll_offset,
    lapse_deltas_consistent,
    record_lap,
    Chronometer,
    Lapse,
};
use crate::duration::{Duration, Instant};
use crate::events::Key;
use crate::rendering;
use crate::rendering::{FrameOps, TextOp};
use crate::utils::{
    format_duration,
    lemma_format_hms_len,
    lemma_pad2_len,
    pad2_str,
    spec_displayed_secs,
    spec_format_hms,
    spec_pad2,
};

verus! {

/// The loop state of the chronometer mode: the stopwatch, the recorded
/// laps with their scroll offset, and the quit flag.
pub struct ChronoState {
    pub chronometer: Chronometer,
    pub lapses: Vec<Lapse>,
    pub scroll_offset: usize,
    pub quit: bool,
}

impl ChronoState {
    /// The scroll offset never points past the lap list.
    pub open spec fn wf(self) -> bool {
        self.scroll_offset <= self.lapses@.len()
    }

    /// A fresh mode state: the chronometer starts running at `now`, no
    /// laps, no scroll, not quitting.
    pub fn new(now: Instant) -> (r: ChronoState)
        ensures
            r.chronometer.start_time == Some(now),
            r.chronometer.paused_duration.nanos == 0,
            r.lapses@.len() == 0,
            r.scroll_offset == 0,
            !r.quit,
            r.wf(),
    {
        let mut chronometer = Chronometer::new();
        chronometer.start(now);
        ChronoState { chronometer, lapses: Vec::new(), scroll_offset: 0, quit: false }
    }

    /// Apply one recognized key: quit, pause/resume, reset (clearing the
    /// laps), record a lap, or move the lap-list scroll offset.
    pub fn handle_key(&mut self, key: Key, now: Instant)
        requires
            old(self).wf(),
            old(self).chronometer.valid_observation(now),
        ensures
            final(self).wf(),
            match key {
                Key::CtrlC => {
                    &&& final(self).chronometer == old(self).chronometer
                    &&& final(self).lapses@ == old(self).lapses@
                    &&& final(self).scroll_offset == old(self).scroll_offset
                    &&& final(self).quit
                },
                Key::Space => {
                    &&& final(self).chronometer == old(self).chronometer.spec_toggled(now)
                    &&& final(self).lapses@ == old(self).lapses@
                    &&& final(self).scroll_offset == old(self).scroll_offset
                    &&& final(self).quit == old(self).quit
                },
                Key::CharR => {
                    &&& !final(self).chronometer.spec_is_running()
                    &&& final(self).chronometer.paused_duration.nanos == 0
                    &&& final(self).lapses@.len() == 0
                    &&& final(self).scroll_offset == 0
                    &&& final(self).quit == old(self).quit
                },
                Key::CharL => {
                    &&& final(self).chronometer == old(self).chronometer
                    &&& final(self).scroll_offset == 0
                    &&& final(self).quit == old(self).quit
                    &&& final(self).lapses@.len() == old(self).lapses@.len() + 1
                    &&& final(self).lapses@.subrange(0, old(self).lapses@.len() as int) == old(
                        self,
                    ).lapses@
                    &&& final(self).lapses@.last().time.nanos == old(
                        self,
                    ).chronometer.spec_elapsed(now)
                    &&& final(self).lapses@.last().delta.nanos == if old(self).lapses@.len()
                        == 0 {
                        old(self).chronometer.spec_elapsed(now)
                    } else {
                        if old(self).chronometer.spec_elapsed(now) >= old(
                            self,
                        ).lapses@.last().time.nanos {
                            old(self).chronometer.spec_elapsed(now) - old(
                                self,
                            ).lapses@.last().time.nanos
                        } else {
                            0int
                        }
                    }
                    &&& (lapse_deltas_consistent(old(self).lapses@) ==> lapse_deltas_consistent(
                        final(self).lapses@,
                    ))
                },
                Key::Down => {
                    &&& final(self).scroll_offset == if old(self).scroll_offset + 1 <= old(
                        self,
                    ).lapses@.len() {
                        old(self).scroll_offset + 1
                    } else {
                        old(self).lapses@.len() as int
                    }
                    &&& final(self).chronometer == old(self).chronometer
                    &&& final(self).lapses@ == old(self).lapses@
                    &&& final(self).quit == old(self).quit
                },
                Key::Up => {
                    &&& final(self).scroll_offset == if old(self).scroll_offset == 0 {
                        0int
                    } else {
                        old(self).scroll_offset - 1
                    }
                    &&& final(self).chronometer == old(self).chronometer
                    &&& final(self).lapses@ == old(self).lapses@
                    &&& final(self).quit == old(self).quit
                },
                Key::PageDown => {
                    &&& final(self).scroll_offset == old(self).lapses@.len()
                    &&& final(self).chronometer == old(self).chronometer
                    &&& final(self).lapses@ == old(self).lapses@
                    &&& final(self).quit == old(self).quit
                },
                Key::PageUp => {
                    &&& final(self).scroll_offset == 0
                    &&& final(self).chronometer == old(self).chronometer
                    &&& final(self).lapses@ == old(self).lapses@
                    &&& final(self).quit == old(self).quit
                },
                Key::Other => *final(self) == *old(self),
            },
    {
        match key {
            Key::CtrlC => {
                self.quit = true;
            },
            Key::Space => {
                self.chronometer.toggle_pause(now);
            },
            Key::CharR => {
                self.chronometer.reset();
                self.lapses.clear();
                self.scroll_offset = 0;
            },
            Key::CharL => {
                let time = self.chronometer.elapsed(now);
                record_lap(&mut self.lapses, time);
                self.scroll_offset = 0;
            },
            Key::Down => {
                if self.scroll_offset < self.lapses.len() {
                    self.scroll_offset = self.scroll_offset + 1;
                } else {
                    self.scroll_offset = self.lapses.len();
                }
            },
            Key::Up => {
                if self.scroll_offset > 0 {
                    self.scroll_offset = self.scroll_offset - 1;
                }
            },
            Key::PageDown => {
                self.scroll_offset = self.lapses.len();
            },
            Key::PageUp => {
                self.scroll_offset = 0;
            },
            Key::Other => {},
        }
    }
}

/// The `HH:MM:SS` line the chronometer displays at the observation
/// `now`.
pub open spec fn spec_elapsed_text(c: Chronometer, now: Instant) -> Seq<char> {
    spec_format_hms(spec_displayed_secs(Duration { nanos: c.spec_elapsed(now) as u128 }))
}

/// One lap list line: `#NN  --  +DELTA  --  TIME`.
pub open spec fn spec_lapse_line(index: int, lap: Lapse) -> Seq<char> {
    seq!['#'] + spec_pad2(index) + seq![' ', ' ', '-', '-', ' ', ' ', '+'] + spec_format_hms(
        spec_displayed_secs(lap.delta),
    ) + seq![' ', ' ', '-', '-', ' ', ' '] + spec_format_hms(spec_displayed_secs(lap.time))
}

/// A lap line is 32 to 86 characters.
pub proof fn lemma_lapse_line_len(index: int, lap: Lapse)
    requires
        0 <= index <= u64::MAX,
    ensures
        32 <= spec_lapse_line(index, lap).len() <= 86,
{
    lemma_pad2_len(index);
    lemma_format_hms_len(spec_displayed_secs(lap.delta));
    lemma_format_hms_len(spec_displayed_secs(lap.time));
}

/// Format one lap list line.
fn lapse_line(index: u64, lap: &Lapse) -> (r: String)
    ensures
        r@ == spec_lapse_line(index as int, *lap),
{
    let mut s = String::from_str("#");
    let p = pad2_str(index);
    s.append(p.as_str());
    s.append("  --  +");
    let d = format_duration(lap.delta);
    s.append(d.as_str());
    s.append("  --  ");
    let t = format_duration(lap.time);
    s.append(t.as_str());
    proof {
        reveal_strlit("#");
        reveal_strlit("  --  +");
        reveal_strlit("  --  ");
        assert(s@ =~= spec_lapse_line(index as int, *lap));
    }
    s
}

/// Lap list rows that fit on screen below the big digits: at most ten,
/// fewer on a short screen, none when there is no room at all.
pub open spec fn spec_visible_rows(height: int) -> int {
    let raw = height - (height / 2 + 4) - 1;
    if raw < 0 {
        0
    } else if raw > 10 {
        10
    } else {
        raw
    }
}

/// The scroll offset clamped so it never exceeds the lap count less the
/// visible rows.
pub open spec fn spec_clamped_offset(offset: int, count: int, visible: int) -> int {
    if count <= visible {
        0
    } else if offset <= count - visible {
        offset
    } else {
        count - visible
    }
}

/// How many lap lines a frame shows: the visible rows, or the laps that
/// remain past the scroll offset if fewer.
pub open spec fn spec_shown_lines(count: int, off: int, visible: int) -> int {
    if visible <= count - off {
        visible
    } else {
        count - off
    }
}

/// Compute one frame of the chronometer display: the big-digit elapsed
/// time, the visible window of the lap list (latest lap first, shifted
/// by the clamped scroll offset), and a `[PAUSE]` line while paused.
pub fn render_frame(
    chronometer: &Chronometer,
    lapses: &Vec<Lapse>,
    scroll_offset: &mut usize,
    width: i16,
    height: i16,
    now: Instant,
) -> (ops: FrameOps)
    requires
        chronometer.valid_observation(now),
        0 <= width,
        0 <= height,
    ensures
        *final(scroll_offset) == spec_clamped_offset(
            *old(scroll_offset) as int,
            lapses@.len() as int,
            spec_visible_rows(height as int),
        ),
        forall|k: int|
            0 <= k < ops.cells@.len() ==> rendering::time_cell_lit(
                spec_elapsed_text(*chronometer, now),
                width as int,
                height as int,
                #[trigger] ops.cells@[k].x as int,
                ops.cells@[k].y as int,
            ),
        forall|i: int, cx: int, cy: int|
            0 <= i < spec_elapsed_text(*chronometer, now).len() && #[trigger] rendering::glyph_cell_lit(
                spec_elapsed_text(*chronometer, now)[i],
                rendering::glyph_left(spec_elapsed_text(*chronometer, now), width as int, i),
                rendering::glyph_top(height as int),
                width as int,
                height as int,
                cx,
                cy,
            ) ==> ops.cells@.contains(rendering::Cell { x: cx as u16, y: cy as u16 }),
        ({
            let count = lapses@.len() as int;
            let off = spec_clamped_offset(
                *old(scroll_offset) as int,
                count,
                spec_visible_rows(height as int),
            );
            let shown = spec_shown_lines(count, off, spec_visible_rows(height as int));
            &&& ops.texts@.len() == shown + if chronometer.spec_is_running() {
                0int
            } else {
                1int
            }
            &&& forall|i: int|
                0 <= i < shown ==> {
                    let line = spec_lapse_line(count - i - off, lapses@[count - 1 - off - i]);
                    let xi = width as int / 2 - line.len() as int / 2;
                    &&& (#[trigger] ops.texts@[i]).y as int == height as int / 2 + 4 + i
                    &&& ops.texts@[i].x as int == if xi < 0 {
                        0int
                    } else {
                        xi
                    }
                    &&& ops.texts@[i].text@ == line.subrange(
                        rendering::text_clip_start(line, xi),
                        rendering::text_clip_end(line, xi, width as int),
                    )
                }
            &&& !chronometer.spec_is_running() ==> {
                &&& ops.texts@[shown].y as int == height as int / 2 + 2
                &&& ops.texts@[shown].x as int == if width as int / 2 - 4 < 0 {
                    0int
                } else {
                    width as int / 2 - 4
                }
                &&& ops.texts@[shown].text@ == "[PAUSE]"@.subrange(
                    rendering::text_clip_start("[PAUSE]"@, width as int / 2 - 4),
                    rendering::text_clip_end("[PAUSE]"@, width as int / 2 - 4, width as int),
                )
            }
        }),
{
    let elapsed = chronometer.elapsed(now);
    let text = format_duration(elapsed);
    proof {
        lemma_format_hms_len(spec_displayed_secs(elapsed));
    }
    let cells = rendering::draw_time(text.as_str(), width, height);

    let y0: i16 = height / 2 + 5 / 2 + 2;
    let raw: i16 = height - y0 - 1;
    let visible: usize = if raw < 0 {
        0
    } else if raw > 10 {
        10
    } else {
        raw as usize
    };
    let count = lapses.len();
    let off = clamp_scroll_offset(*scroll_offset, count, visible);
    *scroll_offset = off;
    let shown: usize = if visible <= count - off {
        visible
    } else {
        count - off
    };

    let mut texts: Vec<TextOp> = Vec::new();
    let mut i: usize = 0;
    while i < shown
        invariant
            i <= shown,
            count == lapses@.len(),
            off + shown <= count,
            shown <= visible <= 10,
            0 <= width,
            0 <= height,
            y0 == height as int / 2 + 4,
            texts@.len() == i,
            forall|j: int|
                0 <= j < i ==> {
                    let line = spec_lapse_line(
                        count - j - off,
                        lapses@[count as int - 1 - off - j],
                    );
                    let xj = width as int / 2 - line.len() as int / 2;
                    &&& (#[trigger] texts@[j]).y as int == height as int / 2 + 4 + j
                    &&& texts@[j].x as int == if xj < 0 {
                        0int
                    } else {
                        xj
                    }
                    &&& texts@[j].text@ == line.subrange(
                        rendering::text_clip_start(line, xj),
                        rendering::text_clip_end(line, xj, width as int),
                    )
                },
        decreases shown - i,
    {
        let lap = lapses[count - 1 - off - i];
        let line = lapse_line((count - i - off) as u64, &lap);
        proof {
            lemma_lapse_line_len(count as int - i - off, lap);
        }
        let l = line.unicode_len();
        let x: i16 = width / 2 - (l as i16) / 2;
        let yt: i16 = y0 + i as i16;
        let op = rendering::draw_text(line.as_str(), x, yt, width);
        texts.push(op);
        i = i + 1;
    }

    if chronometer.is_paused() {
        let text = "[PAUSE]";
        proof {
            reveal_strlit("[PAUSE]");
        }
        let l = text.unicode_len();
        let x: i16 = width / 2 - (l as i16) / 2 - 1;
        let yt: i16 = y0 - 5 + 5 / 2 + 1;
        let op = rendering::draw_text(text, x, yt, width);
        texts.push(op);
    }
    FrameOps { cells, texts }
}

} // verus!
