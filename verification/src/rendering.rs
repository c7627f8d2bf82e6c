//! Layout of the big-digit time display and of plain text lines, with
//! screen-bounds clipping.
//!
//! Nothing here touches a terminal: drawing a glyph yields the exact set
//! of screen cells whose background the terminal layer is to fill, and
//! drawing text yields the clipped string with its final position. A cell
//! whose coordinate falls outside the screen is silently skipped, never an
//! error.

use vstd::prelude::*;

use crate::symbols::{glyph, symbol_to_render_data};

verus! {

/// One screen cell to fill with the active color (the "colored background
/// plus blank character" technique renders solid blocks).
#[derive(Clone, Copy, PartialEq, Eq, Structural, Debug)]
pub struct Cell {
    pub x: u16,
    pub y: u16,
}

/// A clipped text line: write `text` in bold at column `x`, row `y`.
pub struct TextOp {
    pub x: u16,
    pub y: i16,
    pub text: String,
}

/// Everything one frame draws: cells to fill with the active color, then
/// text lines in the same color. The terminal layer executes them in
/// order after clearing the screen.
pub struct FrameOps {
    pub cells: Vec<Cell>,
    pub texts: Vec<TextOp>,
}

/// Horizontal advance of one character of the big-digit display: a colon
/// is narrower than the other glyphs.
pub open spec fn symbol_advance(c: char) -> int {
    if c == ':' {
        5
    } else {
        7
    }
}

/// Sum of the horizontal advances of a string.
pub open spec fn total_advance(s: Seq<char>) -> int
    decreases s.len(),
{
    if s.len() == 0 {
        0
    } else {
        total_advance(s.drop_last()) + symbol_advance(s.last())
    }
}

/// Each advance is between five and seven columns.
pub proof fn lemma_total_advance_bounds(s: Seq<char>)
    ensures
        5 * s.len() <= total_advance(s) <= 7 * s.len(),
    decreases s.len(),
{
    if s.len() > 0 {
        lemma_total_advance_bounds(s.drop_last());
    }
}

/// Exact bounding width of the big-digit rendering of `s`: the advances,
/// minus the trailing compensation (one column for a single character,
/// two otherwise).
pub open spec fn spec_time_width(s: Seq<char>) -> int {
    if s.len() == 0 {
        0
    } else if s.len() == 1 {
        total_advance(s) - 1
    } else {
        total_advance(s) - 2
    }
}

/// Width in columns that the big-digit rendering of `time` occupies.
pub fn draw_time_width(time: &str) -> (r: i16)
    requires
        7 * time@.len() <= 32767,
    ensures
        r == spec_time_width(time@),
{
    let len = time.unicode_len();
    if len == 0 {
        return 0;
    }
    let mut w: i16 = 0;
    let mut i: usize = 0;
    while i < len
        invariant
            i <= len,
            len == time@.len(),
            7 * len <= 32767,
            w == total_advance(time@.take(i as int)),
            0 <= w <= 7 * i,
        decreases len - i,
    {
        let c = time.get_char(i);
        proof {
            assert(time@.take(i + 1).drop_last() =~= time@.take(i as int));
            assert(time@.take(i + 1).last() == c);
        }
        w = w + if c == ':' { 5 } else { 7 };
        i = i + 1;
    }
    proof {
        assert(time@.take(len as int) =~= time@);
        lemma_total_advance_bounds(time@);
    }
    w - (if len == 1 { 1 } else { 2 })
}

/// Whether drawing the glyph of `sym` with its top-left corner at
/// `(x, y)` on a `width` by `height` screen lights the cell `(cx, cy)`.
pub open spec fn glyph_cell_lit(
    sym: char,
    x: int,
    y: int,
    width: int,
    height: int,
    cx: int,
    cy: int,
) -> bool {
    exists|ox: int, oy: int|
        {
            &&& 0 <= ox < 6
            &&& 0 <= oy < 5
            &&& #[trigger] glyph(sym)[oy][ox]
            &&& cx == x + ox
            &&& cy == y + oy
            &&& 0 <= cx < width
            &&& 0 <= cy < height
        }
}

/// Screen-clipping: a glyph whose cells all fall outside the screen
/// lights nothing at all.
pub proof fn lemma_glyph_fully_offscreen(
    sym: char,
    x: int,
    y: int,
    width: int,
    height: int,
    cx: int,
    cy: int,
)
    requires
        x + 6 <= 0 || x >= width || y + 5 <= 0 || y >= height,
    ensures
        !glyph_cell_lit(sym, x, y, width, height, cx, cy),
{
}

/// The cells lit by drawing the glyph of `symbol` at `(x, y)`: every on
/// cell of its grid whose absolute coordinate is on the screen, and
/// nothing else. A glyph that falls fully outside the screen produces no
/// cells.
pub fn draw_time_symbol(symbol: char, x: i32, y: i32, width: i32, height: i32) -> (cells: Vec<
    Cell,
>)
    requires
        width <= u16::MAX,
        height <= u16::MAX,
    ensures
        forall|k: int|
            0 <= k < cells@.len() ==> glyph_cell_lit(
                symbol,
                x as int,
                y as int,
                width as int,
                height as int,
                #[trigger] cells@[k].x as int,
                cells@[k].y as int,
            ),
        forall|ox: int, oy: int|
            {
                &&& 0 <= ox < 6
                &&& 0 <= oy < 5
                &&& #[trigger] glyph(symbol)[oy][ox]
                &&& 0 <= x + ox < width
                &&& 0 <= y + oy < height
            } ==> cells@.contains(Cell { x: (x + ox) as u16, y: (y + oy) as u16 }),
        (x + 6 <= 0 || x >= width || y + 5 <= 0 || y >= height) ==> cells@.len() == 0,
{
    let data = symbol_to_render_data(symbol);
    let mut cells: Vec<Cell> = Vec::new();
    let mut oy: usize = 0;
    while oy < 5
        invariant
            oy <= 5,
            forall|row: int, col: int|
                0 <= row < 5 && 0 <= col < 6 ==> data@[row]@[col] == glyph(symbol)[row][col],
            width <= u16::MAX,
            height <= u16::MAX,
            forall|k: int|
                0 <= k < cells@.len() ==> glyph_cell_lit(
                    symbol,
                    x as int,
                    y as int,
                    width as int,
                    height as int,
                    #[trigger] cells@[k].x as int,
                    cells@[k].y as int,
                ),
            forall|ox2: int, oy2: int|
                {
                    &&& 0 <= ox2 < 6
                    &&& 0 <= oy2 < oy
                    &&& #[trigger] glyph(symbol)[oy2][ox2]
                    &&& 0 <= x + ox2 < width
                    &&& 0 <= y + oy2 < height
                } ==> cells@.contains(Cell { x: (x + ox2) as u16, y: (y + oy2) as u16 }),
            (x + 6 <= 0 || x >= width || y + 5 <= 0 || y >= height) ==> cells@.len() == 0,
        decreases 5 - oy,
    {
        let mut ox: usize = 0;
        while ox < 6
            invariant
                oy < 5,
                ox <= 6,
                forall|row: int, col: int|
                    0 <= row < 5 && 0 <= col < 6 ==> data@[row]@[col] == glyph(symbol)[row][col],
                width <= u16::MAX,
                height <= u16::MAX,
                forall|k: int|
                    0 <= k < cells@.len() ==> glyph_cell_lit(
                        symbol,
                        x as int,
                        y as int,
                        width as int,
                        height as int,
                        #[trigger] cells@[k].x as int,
                        cells@[k].y as int,
                    ),
                forall|ox2: int, oy2: int|
                    {
                        &&& 0 <= ox2 < 6
                        &&& 0 <= oy2 < 5
                        &&& (oy2 < oy || (oy2 == oy && ox2 < ox))
                        &&& #[trigger] glyph(symbol)[oy2][ox2]
                        &&& 0 <= x + ox2 < width
                        &&& 0 <= y + oy2 < height
                    } ==> cells@.contains(Cell { x: (x + ox2) as u16, y: (y + oy2) as u16 }),
                (x + 6 <= 0 || x >= width || y + 5 <= 0 || y >= height) ==> cells@.len() == 0,
            decreases 6 - ox,
        {
            if data[oy][ox] {
                proof {
                    assert(glyph(symbol)[oy as int][ox as int]);
                }
                let cx = x as i64 + ox as i64;
                let cy = y as i64 + oy as i64;
                if cx >= 0 && cx < width as i64 && cy >= 0 && cy < height as i64 {
                    let cell = Cell { x: cx as u16, y: cy as u16 };
                    let ghost prev = cells@;
                    cells.push(cell);
                    proof {
                        assert forall|ox2: int, oy2: int|
                            {
                                &&& 0 <= ox2 < 6
                                &&& 0 <= oy2 < 5
                                &&& (oy2 < oy || (oy2 == oy && ox2 < ox + 1))
                                &&& #[trigger] glyph(symbol)[oy2][ox2]
                                &&& 0 <= x + ox2 < width
                                &&& 0 <= y + oy2 < height
                            } implies cells@.contains(
                            Cell { x: (x + ox2) as u16, y: (y + oy2) as u16 },
                        ) by {
                            let target = Cell { x: (x + ox2) as u16, y: (y + oy2) as u16 };
                            if oy2 == oy as int && ox2 == ox as int {
                                assert(cells@[prev.len() as int] == cell);
                                assert(target == cell);
                            } else {
                                assert(prev.contains(target));
                                let j = choose|j: int| 0 <= j < prev.len() && prev[j] == target;
                                assert(cells@[j] == target);
                            }
                        }
                    }
                }
            }
            ox = ox + 1;
        }
        oy = oy + 1;
    }
    cells
}

/// Vertical position of the top row of the big-digit display: centered
/// for the five-row glyph height.
pub open spec fn glyph_top(height: int) -> int {
    height / 2 - 5int / 2 - 1
}

/// Column where the cursor stands before drawing character `i` of the
/// big-digit display: the centered start, advanced seven columns per
/// character, two fewer around each colon.
pub open spec fn cursor_x(s: Seq<char>, width: int, i: int) -> int
    decreases i,
{
    if i <= 0 {
        width / 2 - spec_time_width(s) / 2 - 1
    } else {
        cursor_x(s, width, i - 1) + 7 - (if s[i - 1] == ':' {
            2int
        } else {
            0int
        })
    }
}

/// Column where the glyph of character `i` is actually drawn: a colon is
/// nudged one column left to tighten its narrow footprint against its
/// neighbors.
pub open spec fn glyph_left(s: Seq<char>, width: int, i: int) -> int {
    cursor_x(s, width, i) - (if s[i] == ':' {
        1int
    } else {
        0int
    })
}

/// Whether the big-digit rendering of `s` lights the cell `(cx, cy)`.
pub open spec fn time_cell_lit(s: Seq<char>, width: int, height: int, cx: int, cy: int) -> bool {
    exists|i: int|
        0 <= i < s.len() && #[trigger] glyph_cell_lit(
            s[i],
            glyph_left(s, width, i),
            glyph_top(height),
            width,
            height,
            cx,
            cy,
        )
}

proof fn lemma_contains_concat_left<T>(a: Seq<T>, b: Seq<T>, x: T)
    requires
        a.contains(x),
    ensures
        (a + b).contains(x),
{
    let j = choose|j: int| 0 <= j < a.len() && a[j] == x;
    assert((a + b)[j] == x);
}

proof fn lemma_contains_concat_right<T>(a: Seq<T>, b: Seq<T>, x: T)
    requires
        b.contains(x),
    ensures
        (a + b).contains(x),
{
    let j = choose|j: int| 0 <= j < b.len() && b[j] == x;
    assert((a + b)[a.len() + j] == x);
}

/// The cells of the whole big-digit time display, centered on a `width`
/// by `height` screen: exactly the on-screen cells of each character's
/// glyph at its layout position.
pub fn draw_time(time: &str, width: i16, height: i16) -> (cells: Vec<Cell>)
    requires
        7 * time@.len() <= 32767,
        0 <= width,
        0 <= height,
    ensures
        forall|k: int|
            0 <= k < cells@.len() ==> time_cell_lit(
                time@,
                width as int,
                height as int,
                #[trigger] cells@[k].x as int,
                cells@[k].y as int,
            ),
        forall|i: int, cx: int, cy: int|
            0 <= i < time@.len() && #[trigger] glyph_cell_lit(
                time@[i],
                glyph_left(time@, width as int, i),
                glyph_top(height as int),
                width as int,
                height as int,
                cx,
                cy,
            ) ==> cells@.contains(Cell { x: cx as u16, y: cy as u16 }),
{
    let len = time.unicode_len();
    let text_width = draw_time_width(time);
    let text_height: i16 = 5;
    let mut x: i32 = width as i32 / 2 - text_width as i32 / 2 - 1;
    let y: i32 = height as i32 / 2 - text_height as i32 / 2 - 1;
    let mut cells: Vec<Cell> = Vec::new();
    let mut i: usize = 0;
    proof {
        lemma_total_advance_bounds(time@);
    }
    while i < len
        invariant
            i <= len,
            len == time@.len(),
            7 * len <= 32767,
            0 <= width,
            0 <= height,
            y == glyph_top(height as int),
            x == cursor_x(time@, width as int, i as int),
            width as int / 2 - 16385 <= x <= width as int / 2 + 7 * i + 1,
            forall|k: int|
                0 <= k < cells@.len() ==> time_cell_lit(
                    time@,
                    width as int,
                    height as int,
                    #[trigger] cells@[k].x as int,
                    cells@[k].y as int,
                ),
            forall|i2: int, cx: int, cy: int|
                0 <= i2 < i && #[trigger] glyph_cell_lit(
                    time@[i2],
                    glyph_left(time@, width as int, i2),
                    glyph_top(height as int),
                    width as int,
                    height as int,
                    cx,
                    cy,
                ) ==> cells@.contains(Cell { x: cx as u16, y: cy as u16 }),
        decreases len - i,
    {
        let c = time.get_char(i);
        if c == ':' {
            x = x - 1;
        }
        let mut sub = draw_time_symbol(c, x, y, width as i32, height as i32);
        proof {
            assert(x == glyph_left(time@, width as int, i as int));
        }
        let ghost old_cells = cells@;
        let ghost sub_seq = sub@;
        cells.append(&mut sub);
        proof {
            assert forall|k: int| 0 <= k < cells@.len() implies time_cell_lit(
                time@,
                width as int,
                height as int,
                #[trigger] cells@[k].x as int,
                cells@[k].y as int,
            ) by {
                if k < old_cells.len() {
                    assert(cells@[k] == old_cells[k]);
                } else {
                    assert(cells@[k] == sub_seq[k - old_cells.len()]);
                    assert(glyph_cell_lit(
                        time@[i as int],
                        glyph_left(time@, width as int, i as int),
                        glyph_top(height as int),
                        width as int,
                        height as int,
                        cells@[k].x as int,
                        cells@[k].y as int,
                    ));
                }
            }
            assert forall|i2: int, cx: int, cy: int|
                0 <= i2 < i + 1 && #[trigger] glyph_cell_lit(
                    time@[i2],
                    glyph_left(time@, width as int, i2),
                    glyph_top(height as int),
                    width as int,
                    height as int,
                    cx,
                    cy,
                ) implies cells@.contains(Cell { x: cx as u16, y: cy as u16 }) by {
                if i2 < i {
                    lemma_contains_concat_left(
                        old_cells,
                        sub_seq,
                        Cell { x: cx as u16, y: cy as u16 },
                    );
                } else {
                    let (ox, oy): (int, int) = choose|ox: int, oy: int|
                        {
                            &&& 0 <= ox < 6
                            &&& 0 <= oy < 5
                            &&& #[trigger] glyph(time@[i2])[oy][ox]
                            &&& cx == glyph_left(time@, width as int, i2) + ox
                            &&& cy == glyph_top(height as int) + oy
                            &&& 0 <= cx < width
                            &&& 0 <= cy < height
                        };
                    assert(sub_seq.contains(Cell { x: cx as u16, y: cy as u16 }));
                    lemma_contains_concat_right(
                        old_cells,
                        sub_seq,
                        Cell { x: cx as u16, y: cy as u16 },
                    );
                }
            }
        }
        x = x + 7;
        if c == ':' {
            x = x - 1;
        }
        i = i + 1;
    }
    cells
}

/// Start of the visible part of a text line placed at column `x`: text
/// overflowing the left edge has that many leading characters trimmed.
pub open spec fn text_clip_start(s: Seq<char>, x: int) -> int {
    let off = if x < 0 {
        -x
    } else {
        0
    };
    if off <= s.len() {
        off
    } else {
        s.len() as int
    }
}

/// End of the visible part of a text line: trailing characters past the
/// right screen edge are trimmed.
pub open spec fn text_clip_end(s: Seq<char>, x: int, width: int) -> int {
    let off = if x < 0 {
        -x
    } else {
        0
    };
    if off + width <= s.len() {
        off + width
    } else {
        s.len() as int
    }
}

/// Clip a text line against the screen edges: the start column is clamped
/// to zero, leading characters that would fall left of the screen and
/// trailing characters past column `width` are trimmed.
pub fn draw_text(string: &str, x: i16, y: i16, width: i16) -> (op: TextOp)
    requires
        0 <= width,
    ensures
        op.x as int == if x < 0 {
            0
        } else {
            x as int
        },
        op.y == y,
        op.text@ == string@.subrange(
            text_clip_start(string@, x as int),
            text_clip_end(string@, x as int, width as int),
        ),
{
    let len = string.unicode_len();
    let off: usize = if x < 0 {
        (-(x as i32)) as usize
    } else {
        0
    };
    let col: u16 = if x < 0 {
        0
    } else {
        x as u16
    };
    let start: usize = if off <= len {
        off
    } else {
        len
    };
    let end: usize = if off + width as usize <= len {
        off + width as usize
    } else {
        len
    };
    let piece = string.substring_char(start, end);
    TextOp { x: col, y, text: piece.to_owned() }
}

} // verus!
