//! The clock mode: per-frame drawing decisions for the current wall-clock
//! time and date. The strings themselves are formatted by the wall-clock
//! collaborator at the edge of the system and passed in.

use vstd::prelude::*;

use crate::rendering;
use crate::rendering::{FrameOps, TextOp};

verus! {

/// Compute one frame of the clock display: the big-digit time, centered,
/// with the date line centered beneath it.
pub fn render_frame(time: &str, date: &str, width: i16, height: i16) -> (ops: FrameOps)
    requires
        7 * time@.len() <= 32767,
        date@.len() <= 32767,
        0 <= width,
        0 <= height,
    ensures
        forall|k: int|
            0 <= k < ops.cells@.len() ==> rendering::time_cell_lit(
                time@,
                width as int,
                height as int,
                #[trigger] ops.cells@[k].x as int,
                ops.cells@[k].y as int,
            ),
        forall|i: int, cx: int, cy: int|
            0 <= i < time@.len() && #[trigger] rendering::glyph_cell_lit(
                time@[i],
                rendering::glyph_left(time@, width as int, i),
                rendering::glyph_top(height as int),
                width as int,
                height as int,
                cx,
                cy,
            ) ==> ops.cells@.contains(rendering::Cell { x: cx as u16, y: cy as u16 }),
        ops.texts@.len() == 1,
        ops.texts@[0].y as int == height as int / 2 + 3,
        ops.texts@[0].x as int == if width as int / 2 - date@.len() as int / 2 < 0 {
            0int
        } else {
            width as int / 2 - date@.len() as int / 2
        },
        ops.texts@[0].text@ == date@.subrange(
            rendering::text_clip_start(date@, width as int / 2 - date@.len() as int / 2),
            rendering::text_clip_end(
                date@,
                width as int / 2 - date@.len() as int / 2,
                width as int,
            ),
        ),
{
    let cells = rendering::draw_time(time, width, height);

    let l = date.unicode_len();
    let x: i16 = width / 2 - (l as i16) / 2;
    let y: i16 = height / 2 + 5 / 2 + 2;
    let op = rendering::draw_text(date, x, y - 1, width);
    let mut texts: Vec<TextOp> = Vec::new();
    texts.push(op);
    FrameOps { cells, texts }
}

} // verus!
