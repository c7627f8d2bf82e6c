//! The block-digit font: a fixed 6-wide, 5-tall on/off grid per supported
//! character. Characters outside the supported set map to a distinct
//! fallback ("error") glyph. The data is immutable and compiled in.

use vstd::prelude::*;

verus! {

/// Width of one glyph in terminal cells.
pub const SYMBOL_WIDTH: usize = 6;

/// Height of one glyph in terminal cells.
pub const SYMBOL_HEIGHT: usize = 5;

/// An off cell of a glyph grid.
pub const O: bool = false;

/// An on cell of a glyph grid.
pub const X: bool = true;

/// The on/off grid of the glyph for `ch`, rows outermost.
pub open spec fn glyph(ch: char) -> Seq<Seq<bool>> {
    if ch == '1' {
        seq![
            seq![O, O, O, O, X, X],
            seq![O, O, O, O, X, X],
            seq![O, O, O, O, X, X],
            seq![O, O, O, O, X, X],
            seq![O, O, O, O, X, X],
        ]
    } else if ch == '2' {
        seq![
            seq![X, X, X, X, X, X],
            seq![O, O, O, O, X, X],
            seq![X, X, X, X, X, X],
            seq![X, X, O, O, O, O],
            seq![X, X, X, X, X, X],
        ]
    } else if ch == '3' {
        seq![
            seq![X, X, X, X, X, X],
            seq![O, O, O, O, X, X],
            seq![X, X, X, X, X, X],
            seq![O, O, O, O, X, X],
            seq![X, X, X, X, X, X],
        ]
    } else if ch == '4' {
        seq![
            seq![X, X, O, O, X, X],
            seq![X, X, O, O, X, X],
            seq![X, X, X, X, X, X],
            seq![O, O, O, O, X, X],
            seq![O, O, O, O, X, X],
        ]
    } else if ch == '5' {
        seq![
            seq![X, X, X, X, X, X],
            seq![X, X, O, O, O, O],
            seq![X, X, X, X, X, X],
            seq![O, O, O, O, X, X],
            seq![X, X, X, X, X, X],
        ]
    } else if ch == '6' {
        seq![
            seq![X, X, X, X, X, X],
            seq![X, X, O, O, O, O],
            seq![X, X, X, X, X, X],
            seq![X, X, O, O, X, X],
            seq![X, X, X, X, X, X],
        ]
    } else if ch == '7' {
        seq![
            seq![X, X, X, X, X, X],
            seq![O, O, O, O, X, X],
            seq![O, O, O, O, X, X],
            seq![O, O, O, O, X, X],
            seq![O, O, O, O, X, X],
        ]
    } else if ch == '8' {
        seq![
            seq![X, X, X, X, X, X],
            seq![X, X, O, O, X, X],
            seq![X, X, X, X, X, X],
            seq![X, X, O, O, X, X],
            seq![X, X, X, X, X, X],
        ]
    } else if ch == '9' {
        seq![
            seq![X, X, X, X, X, X],
            seq![X, X, O, O, X, X],
            seq![X, X, X, X, X, X],
            seq![O, O, O, O, X, X],
            seq![X, X, X, X, X, X],
        ]
    } else if ch == '0' {
        seq![
            seq![X, X, X, X, X, X],
            seq![X, X, O, O, X, X],
            seq![X, X, O, O, X, X],
            seq![X, X, O, O, X, X],
            seq![X, X, X, X, X, X],
        ]
    } else if ch == ':' {
        seq![
            seq![O, O, O, O, O, O],
            seq![O, O, X, X, O, O],
            seq![O, O, O, O, O, O],
            seq![O, O, X, X, O, O],
            seq![O, O, O, O, O, O],
        ]
    } else if ch == '-' {
        seq![
            seq![O, O, O, O, O, O],
            seq![O, O, O, O, O, O],
            seq![O, X, X, X, X, O],
            seq![O, O, O, O, O, O],
            seq![O, O, O, O, O, O],
        ]
    } else if ch == ' ' {
        seq![
            seq![O, O, O, O, O, O],
            seq![O, O, O, O, O, O],
            seq![O, O, O, O, O, O],
            seq![O, O, O, O, O, O],
            seq![O, O, O, O, O, O],
        ]
    } else if ch == 'A' {
        seq![
            seq![X, X, X, X, X, X],
            seq![X, X, O, O, X, X],
            seq![X, X, X, X, X, X],
            seq![X, X, O, O, X, X],
            seq![X, X, O, O, X, X],
        ]
    } else if ch == 'P' {
        seq![
            seq![X, X, X, X, X, X],
            seq![X, X, O, O, X, X],
            seq![X, X, X, X, X, X],
            seq![X, X, O, O, O, O],
            seq![X, X, O, O, O, O],
        ]
    } else if ch == 'M' {
        seq![
            seq![X, X, X, X, X, X],
            seq![X, X, O, X, O, X],
            seq![X, X, O, X, O, X],
            seq![X, X, O, X, O, X],
            seq![X, X, O, X, O, X],
        ]
    } else {
        seq![
            seq![X, X, O, O, X, X],
            seq![O, X, X, X, X, O],
            seq![O, O, X, X, O, O],
            seq![O, X, X, X, X, O],
            seq![X, X, O, O, X, X],
        ]
    }
}

/// The glyph grid for `ch` as render data.
pub fn symbol_to_render_data(ch: char) -> (r: [[bool; 6]; 5])
    ensures
        forall|row: int, col: int|
            0 <= row < 5 && 0 <= col < 6 ==> r@[row]@[col] == glyph(ch)[row][col],
{
    match ch {
        '1' => [
            [O, O, O, O, X, X],
            [O, O, O, O, X, X],
            [O, O, O, O, X, X],
            [O, O, O, O, X, X],
            [O, O, O, O, X, X],
        ],
        '2' => [
            [X, X, X, X, X, X],
            [O, O, O, O, X, X],
            [X, X, X, X, X, X],
            [X, X, O, O, O, O],
            [X, X, X, X, X, X],
        ],
        '3' => [
            [X, X, X, X, X, X],
            [O, O, O, O, X, X],
            [X, X, X, X, X, X],
            [O, O, O, O, X, X],
            [X, X, X, X, X, X],
        ],
        '4' => [
            [X, X, O, O, X, X],
            [X, X, O, O, X, X],
            [X, X, X, X, X, X],
            [O, O, O, O, X, X],
            [O, O, O, O, X, X],
        ],
        '5' => [
            [X, X, X, X, X, X],
            [X, X, O, O, O, O],
            [X, X, X, X, X, X],
            [O, O, O, O, X, X],
            [X, X, X, X, X, X],
        ],
        '6' => [
            [X, X, X, X, X, X],
            [X, X, O, O, O, O],
            [X, X, X, X, X, X],
            [X, X, O, O, X, X],
            [X, X, X, X, X, X],
        ],
        '7' => [
            [X, X, X, X, X, X],
            [O, O, O, O, X, X],
            [O, O, O, O, X, X],
            [O, O, O, O, X, X],
            [O, O, O, O, X, X],
        ],
        '8' => [
            [X, X, X, X, X, X],
            [X, X, O, O, X, X],
            [X, X, X, X, X, X],
            [X, X, O, O, X, X],
            [X, X, X, X, X, X],
        ],
        '9' => [
            [X, X, X, X, X, X],
            [X, X, O, O, X, X],
            [X, X, X, X, X, X],
            [O, O, O, O, X, X],
            [X, X, X, X, X, X],
        ],
        '0' => [
            [X, X, X, X, X, X],
            [X, X, O, O, X, X],
            [X, X, O, O, X, X],
            [X, X, O, O, X, X],
            [X, X, X, X, X, X],
        ],
        ':' => [
            [O, O, O, O, O, O],
            [O, O, X, X, O, O],
            [O, O, O, O, O, O],
            [O, O, X, X, O, O],
            [O, O, O, O, O, O],
        ],
        '-' => [
            [O, O, O, O, O, O],
            [O, O, O, O, O, O],
            [O, X, X, X, X, O],
            [O, O, O, O, O, O],
            [O, O, O, O, O, O],
        ],
        ' ' => [
            [O, O, O, O, O, O],
            [O, O, O, O, O, O],
            [O, O, O, O, O, O],
            [O, O, O, O, O, O],
            [O, O, O, O, O, O],
        ],
        'A' => [
            [X, X, X, X, X, X],
            [X, X, O, O, X, X],
            [X, X, X, X, X, X],
            [X, X, O, O, X, X],
            [X, X, O, O, X, X],
        ],
        'P' => [
            [X, X, X, X, X, X],
            [X, X, O, O, X, X],
            [X, X, X, X, X, X],
            [X, X, O, O, O, O],
            [X, X, O, O, O, O],
        ],
        'M' => [
            [X, X, X, X, X, X],
            [X, X, O, X, O, X],
            [X, X, O, X, O, X],
            [X, X, O, X, O, X],
            [X, X, O, X, O, X],
        ],
        _ => [
            [X, X, O, O, X, X],
            [O, X, X, X, X, O],
            [O, O, X, X, O, O],
            [O, X, X, X, X, O],
            [X, X, O, O, X, X],
        ],
    }
}

} // verus!
