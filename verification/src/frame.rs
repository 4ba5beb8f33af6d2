//! Frame layout: how a rendered canvas is streamed to the terminal.
//!
//! The canvas packs a 4x8 block of glyphs into each terminal cell, so a
//! frame prints `height / 8` lines of `width / 4` glyphs each. In a
//! terminal much wider than it is tall (more than twice as many columns as
//! rows) the cursor is afterwards recentered on a fixed column.

use vstd::prelude::*;

verus! {

/// How to stream one frame: how many lines, how many glyphs per line, and
/// the column to park the cursor at afterwards, if any.
#[derive(Clone, Copy, PartialEq, Eq, Structural, Debug)]
pub struct FrameLayout {
    /// Lines printed per frame: one per 8 glyph rows.
    pub lines: usize,
    /// Glyphs printed per line: one per 4 glyph columns.
    pub glyphs_per_line: usize,
    /// Column to move the cursor to after the frame, in a wide terminal.
    pub recenter_col: Option<u16>,
}

/// A terminal counts as wide when it has more than twice as many columns
/// as rows (integer division, as the loop computes it).
pub open spec fn wide_terminal(term_cols: u16, term_rows: u16) -> bool {
    term_cols as int / 2 > term_rows as int
}

/// The column the cursor is parked at after a frame in a wide terminal:
/// three quarters of an eighth of the canvas width.
pub open spec fn recenter_column(canvas_w: int) -> int {
    canvas_w / 8 - (canvas_w / 8) / 4
}

/// Compute the layout for streaming a `canvas_w x canvas_h` canvas to a
/// `term_cols x term_rows` terminal.
pub fn frame_layout(canvas_w: u32, canvas_h: u32, term_cols: u16, term_rows: u16) -> (l:
    FrameLayout)
    requires
        canvas_w <= 524280,
    ensures
        l.lines == canvas_h as int / 8,
        l.glyphs_per_line == canvas_w as int / 4,
        wide_terminal(term_cols, term_rows) ==> l.recenter_col == Some(
            recenter_column(canvas_w as int) as u16,
        ),
        !wide_terminal(term_cols, term_rows) ==> l.recenter_col is None,
{
    let recenter_col: Option<u16> = if term_cols / 2 > term_rows {
        let eighth: u32 = canvas_w / 8;
        Some((eighth - eighth / 4) as u16)
    } else {
        None
    };
    FrameLayout {
        lines: (canvas_h / 8) as usize,
        glyphs_per_line: (canvas_w / 4) as usize,
        recenter_col,
    }
}

} // verus!
