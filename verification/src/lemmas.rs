//! Proved statements about the driver as a whole: what a run of
//! printable bytes does, what a scroll does, how a newline behaves at
//! the bottom of the grid, what image a cleared grid presents, and that
//! the cursor-shape setup is idempotent.

use vstd::prelude::*;
use crate::buffer::{
    blank_screen, lemma_write_seq_snoc, spec_scroll, spec_write_byte, spec_write_seq, Screen,
    NEWLINE,
};
use crate::cell::{blank_cell, spec_default_color, ColorCode, VgaCell};
use crate::hardware::{
    screen_bytes, spec_initialize_cursor, CrtController, CONSOLE_COLS, CONSOLE_ROWS, GRID_CELLS,
    VIDEO_MEMORY_BYTES,
};

verus! {

/// A run of printable bytes that fits before the end of the grid
/// advances the position by exactly its length, stores each byte in
/// order with the active color, and leaves every other cell unchanged.
pub proof fn lemma_write_printable_run(s: Screen, bytes: Seq<u8>, color: ColorCode)
    requires
        s.wf(),
        s.pos + bytes.len() <= GRID_CELLS,
        forall|i: int| 0 <= i < bytes.len() ==> bytes[i] != NEWLINE,
    ensures
        spec_write_seq(s, bytes, color).wf(),
        spec_write_seq(s, bytes, color).pos == s.pos + bytes.len(),
        forall|i: int| 0 <= i < bytes.len() ==> spec_write_seq(s, bytes, color).cells[s.pos + i]
            == (VgaCell { character: bytes[i], color: color }),
        forall|j: int|
            0 <= j < GRID_CELLS && !(s.pos <= j < s.pos + bytes.len()) ==> spec_write_seq(
                s,
                bytes,
                color,
            ).cells[j] == s.cells[j],
    decreases bytes.len(),
{
    if bytes.len() > 0 {
        let first = VgaCell { character: bytes[0], color: color };
        let s1 = spec_write_byte(s, bytes[0], color);
        assert(s1.cells == s.cells.update(s.pos, first));
        assert(s1.pos == s.pos + 1);
        assert(forall|i: int| 0 <= i < bytes.skip(1).len() ==> bytes.skip(1)[i] == bytes[i + 1]);
        lemma_write_printable_run(s1, bytes.skip(1), color);
        let t = spec_write_seq(s, bytes, color);
        assert(t == spec_write_seq(s1, bytes.skip(1), color));
        assert forall|i: int| 0 <= i < bytes.len() implies t.cells[s.pos + i] == (VgaCell {
            character: bytes[i],
            color: color,
        }) by {
            if i == 0 {
                assert(t.cells[s1.pos - 1] == s1.cells[s1.pos - 1]);
                assert(s1.cells[s.pos] == first);
            } else {
                assert(t.cells[s1.pos + (i - 1)] == (VgaCell {
                    character: bytes.skip(1)[i - 1],
                    color: color,
                }));
            }
        }
        assert forall|j: int|
            0 <= j < GRID_CELLS && !(s.pos <= j < s.pos + bytes.len()) implies t.cells[j]
            == s.cells[j] by {
            assert(t.cells[j] == s1.cells[j]);
            assert(s1.cells[j] == s.cells[j]);
        }
    }
}

/// One scroll moves every surviving cell up one row, blanks the whole
/// last row, and puts the position at the start of the last row; the
/// previous top row is gone.
pub proof fn lemma_scroll_shifts(s: Screen)
    requires
        s.wf(),
    ensures
        spec_scroll(s).wf(),
        spec_scroll(s).pos == GRID_CELLS - CONSOLE_COLS,
        forall|i: int| 0 <= i < GRID_CELLS - CONSOLE_COLS ==> spec_scroll(s).cells[i]
            == s.cells[i + CONSOLE_COLS],
        forall|j: int| GRID_CELLS - CONSOLE_COLS <= j < GRID_CELLS ==> spec_scroll(s).cells[j]
            == blank_cell(),
{
}

/// Filling the last row and then writing one more printable byte
/// scrolls exactly once: every surviving cell takes the value one row
/// below it, the extra byte opens the new last row, the rest of that
/// row is blank, and the position is one past the start of the last
/// row.
pub proof fn lemma_fill_row_then_scroll(s: Screen, bytes: Seq<u8>, extra: u8, color: ColorCode)
    requires
        s.wf(),
        s.pos == GRID_CELLS - CONSOLE_COLS,
        bytes.len() == CONSOLE_COLS,
        forall|i: int| 0 <= i < bytes.len() ==> bytes[i] != NEWLINE,
        extra != NEWLINE,
    ensures
        ({
            let mid = spec_write_seq(s, bytes, color);
            let t = spec_write_seq(s, bytes.push(extra), color);
            &&& mid.pos == GRID_CELLS
            &&& t.pos == GRID_CELLS - CONSOLE_COLS + 1
            &&& t.cells[GRID_CELLS - CONSOLE_COLS] == (VgaCell { character: extra, color: color })
            &&& forall|i: int| 0 <= i < GRID_CELLS - CONSOLE_COLS ==> t.cells[i] == mid.cells[i
                + CONSOLE_COLS]
            &&& forall|j: int| GRID_CELLS - CONSOLE_COLS < j < GRID_CELLS ==> t.cells[j]
                == blank_cell()
        }),
{
    lemma_write_printable_run(s, bytes, color);
    lemma_write_seq_snoc(s, bytes, extra, color);
    let mid = spec_write_seq(s, bytes, color);
    let t = spec_write_seq(s, bytes.push(extra), color);
    assert(t == spec_write_byte(mid, extra, color));
    assert(t.cells == spec_scroll(mid).cells.update(
        GRID_CELLS - CONSOLE_COLS,
        VgaCell { character: extra, color: color },
    ));
    lemma_scroll_shifts(mid);
}

/// A newline written on the second-to-last line moves the position to
/// the start of the last line without changing any cell or scrolling; a
/// newline written on the last line scrolls instead, leaving the
/// position at the start of the now-blank last row.
pub proof fn lemma_newline_at_bottom(s: Screen, color: ColorCode)
    requires
        s.wf(),
    ensures
        s.pos / (CONSOLE_COLS as int) == CONSOLE_ROWS - 2 ==> spec_write_byte(s, NEWLINE, color)
            == (Screen { cells: s.cells, pos: (CONSOLE_ROWS - 1) * (CONSOLE_COLS as int) }),
        s.pos / (CONSOLE_COLS as int) == CONSOLE_ROWS - 1 ==> spec_write_byte(s, NEWLINE, color)
            == spec_scroll(s),
        s.pos / (CONSOLE_COLS as int) == CONSOLE_ROWS - 1 ==> spec_write_byte(
            s,
            NEWLINE,
            color,
        ).pos == GRID_CELLS - CONSOLE_COLS,
        s.pos / (CONSOLE_COLS as int) == CONSOLE_ROWS - 1 ==> forall|j: int|
            GRID_CELLS - CONSOLE_COLS <= j < GRID_CELLS ==> spec_write_byte(
                s,
                NEWLINE,
                color,
            ).cells[j] == blank_cell(),
{
}

/// After a clear, the video-memory image pairs a space glyph with the
/// default attribute in every cell slot.
pub proof fn lemma_blank_screen_image()
    ensures
        screen_bytes(blank_screen().cells).len() == VIDEO_MEMORY_BYTES,
        forall|i: int| 0 <= i < VIDEO_MEMORY_BYTES ==> screen_bytes(blank_screen().cells)[i] == (
        if i % 2 == 0 {
            32u8
        } else {
            spec_default_color().0
        }),
{
}

/// Setting up the cursor shape twice leaves the controller exactly as
/// one setup leaves it.
pub proof fn lemma_initialize_cursor_idempotent(c: CrtController)
    ensures
        spec_initialize_cursor(spec_initialize_cursor(c)) == spec_initialize_cursor(c),
{
}

} // verus!
