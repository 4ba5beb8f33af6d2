//! Canvas sizing: glyph-buffer dimensions from the terminal size.
//!
//! One terminal cell carries a 4-wide, 8-tall block of glyphs, compensating
//! for the cell's aspect ratio. The canvas is always square: in a landscape
//! terminal it spans the rows (`rows * 8` a side), otherwise the columns
//! (`cols * 4` a side).

use vstd::prelude::*;

verus! {

/// The side of the square canvas for a `cols x rows` terminal.
pub open spec fn canvas_side(cols: u16, rows: u16) -> int {
    if cols > rows {
        rows as int * 8
    } else {
        cols as int * 4
    }
}

/// Compute the canvas dimensions `(width, height)` for a terminal size.
pub fn canvas_size(cols: u16, rows: u16) -> (wh: (u32, u32))
    ensures
        wh.0 == canvas_side(cols, rows),
        wh.1 == canvas_side(cols, rows),
        wh.0 <= 524280,
{
    if cols > rows {
        let side: u32 = rows as u32 * 8;
        (side, side)
    } else {
        let side: u32 = cols as u32 * 4;
        (side, side)
    }
}

/// The computed canvas is square, its side is a whole number of glyph
/// columns (a multiple of 4), and in a landscape terminal also a whole
/// number of glyph rows (a multiple of 8); it is nonempty whenever the
/// terminal is.
pub proof fn lemma_canvas_size_packed(cols: u16, rows: u16)
    ensures
        canvas_side(cols, rows) % 4 == 0,
        cols > rows ==> canvas_side(cols, rows) % 8 == 0,
        cols > 0 && rows > 0 ==> canvas_side(cols, rows) > 0,
{
}

} // verus!
