//! The buffer engine: the grid of cells, the linear write position, and
//! the write-advance, newline, scroll and clear operations over them,
//! together with the mathematical model they are specified against.

use vstd::prelude::*;
use crate::cell::{blank_cell, ColorCode, VgaCell};
use crate::hardware::{
    screen_bytes, set_cursor, spec_set_cursor, CrtController, VideoMemory, CONSOLE_COLS,
    CONSOLE_ROWS, GRID_CELLS,
};

verus! {

/// The newline control code: the one byte written specially.
pub const NEWLINE: u8 = 0x0A;

/// Mathematical state of the buffer engine: the grid contents in
/// row-major order, and the linear write position.
pub ghost struct Screen {
    /// The grid cells, row-major: index = row * columns + column.
    pub cells: Seq<VgaCell>,
    /// The next write index, between 0 and the grid size inclusive.
    pub pos: int,
}

impl Screen {
    /// The grid is fully allocated and the position lies within it.
    pub open spec fn wf(self) -> bool {
        &&& self.cells.len() == GRID_CELLS
        &&& 0 <= self.pos <= GRID_CELLS
    }
}

/// The all-blank screen with the write position at the top left.
pub open spec fn blank_screen() -> Screen {
    Screen { cells: Seq::new(GRID_CELLS as nat, |i: int| blank_cell()), pos: 0 }
}

/// One row scrolled away: every cell takes the value one row below it,
/// the last row becomes blank, and the position moves to the start of
/// the last row. The top row is discarded.
pub open spec fn spec_scroll(s: Screen) -> Screen {
    Screen {
        cells: Seq::new(GRID_CELLS as nat, |i: int|
            if i < GRID_CELLS - CONSOLE_COLS {
                s.cells[i + CONSOLE_COLS]
            } else {
                blank_cell()
            }),
        pos: GRID_CELLS - CONSOLE_COLS,
    }
}

/// State after one byte is written. A newline moves the position to the
/// start of the next line, scrolling instead when the next line would
/// exceed the row count; any other byte scrolls first if the grid is
/// exhausted, then lands at the position, which advances by one. The two
/// scroll triggers are deliberately distinct: one is a line-boundary
/// check, the other a cell-count check.
pub open spec fn spec_write_byte(s: Screen, byte: u8, color: ColorCode) -> Screen {
    if byte == NEWLINE {
        let line = s.pos / (CONSOLE_COLS as int);
        if line + 1 >= CONSOLE_ROWS {
            spec_scroll(s)
        } else {
            Screen { cells: s.cells, pos: (line + 1) * (CONSOLE_COLS as int) }
        }
    } else {
        let t = if s.pos >= GRID_CELLS { spec_scroll(s) } else { s };
        Screen {
            cells: t.cells.update(t.pos, VgaCell { character: byte, color: color }),
            pos: t.pos + 1,
        }
    }
}

/// State after a sequence of bytes is written, one byte at a time.
pub open spec fn spec_write_seq(s: Screen, bytes: Seq<u8>, color: ColorCode) -> Screen
    decreases bytes.len(),
{
    if bytes.len() == 0 {
        s
    } else {
        spec_write_seq(spec_write_byte(s, bytes[0], color), bytes.skip(1), color)
    }
}

/// Writing one more byte after a sequence is the same as writing the
/// sequence with that byte appended.
pub proof fn lemma_write_seq_snoc(s: Screen, bytes: Seq<u8>, byte: u8, color: ColorCode)
    ensures
        spec_write_seq(s, bytes.push(byte), color) == spec_write_byte(
            spec_write_seq(s, bytes, color),
            byte,
            color,
        ),
    decreases bytes.len(),
{
    if bytes.len() == 0 {
        assert(bytes.push(byte)[0] == byte);
        assert(bytes.push(byte).skip(1) =~= Seq::<u8>::empty());
        assert(spec_write_seq(spec_write_byte(s, byte, color), Seq::<u8>::empty(), color)
            == spec_write_byte(s, byte, color));
    } else {
        assert(bytes.push(byte)[0] == bytes[0]);
        assert(bytes.push(byte).skip(1) =~= bytes.skip(1).push(byte));
        lemma_write_seq_snoc(spec_write_byte(s, bytes[0], color), bytes.skip(1), byte, color);
    }
}

/// The character-cell buffer: the grid, allocated once at full size, and
/// the linear write position.
pub struct VgaBuffer {
    buffer: Vec<VgaCell>,
    position: usize,
}

impl View for VgaBuffer {
    type V = Screen;

    closed spec fn view(&self) -> Screen {
        Screen { cells: self.buffer@, pos: self.position as int }
    }
}

impl VgaBuffer {
    /// The buffer invariant: full grid allocated, position inside it.
    pub open spec fn wf(&self) -> bool {
        self@.wf()
    }

    /// A buffer of all blank cells with the position at the top left.
    pub fn new() -> (b: VgaBuffer)
        ensures
            b.wf(),
            b@ == blank_screen(),
    {
        let mut cells: Vec<VgaCell> = Vec::new();
        let mut i: usize = 0;
        while i < GRID_CELLS
            invariant
                i <= GRID_CELLS,
                cells@.len() == i,
                forall|j: int| 0 <= j < i ==> cells@[j] == blank_cell(),
            decreases GRID_CELLS - i,
        {
            cells.push(VgaCell::blank());
            i = i + 1;
        }
        let b = VgaBuffer { buffer: cells, position: 0 };
        proof {
            assert(b@.cells =~= blank_screen().cells);
        }
        b
    }

    /// The next write index into the grid.
    pub fn position(&self) -> (p: usize)
        ensures
            p == self@.pos,
    {
        self.position
    }

    /// The cell at one grid index.
    pub fn cell_at(&self, i: usize) -> (c: VgaCell)
        requires
            self.wf(),
            i < GRID_CELLS,
        ensures
            c == self@.cells[i as int],
    {
        self.buffer[i]
    }

    /// Whether the buffer invariant holds; lets an unverified caller
    /// check it before handing the buffer to the engine.
    pub fn is_well_formed(&self) -> (r: bool)
        ensures
            r == self.wf(),
    {
        self.buffer.len() == GRID_CELLS && self.position <= GRID_CELLS
    }

    /// Writes one byte and moves the hardware cursor to the new position.
    pub fn write_byte(&mut self, byte: u8, color: ColorCode, crt: &mut CrtController)
        requires
            old(self).wf(),
        ensures
            final(self).wf(),
            final(self)@ == spec_write_byte(old(self)@, byte, color),
            *final(crt) == spec_set_cursor(*old(crt), final(self)@.pos as u16),
    {
        if byte == NEWLINE {
            let current_line: usize = self.position / CONSOLE_COLS;
            if current_line + 1 >= CONSOLE_ROWS {
                self.scroll_up();
            } else {
                self.position = (current_line + 1) * CONSOLE_COLS;
            }
        } else {
            if self.position >= GRID_CELLS {
                self.scroll_up();
            }
            self.buffer.set(self.position, VgaCell { character: byte, color: color });
            self.position = self.position + 1;
        }
        set_cursor(crt, self.position as u16);
    }

    /// Shifts every row up by one, blanks the last row, and moves the
    /// position to the start of the now-blank last row.
    pub fn scroll_up(&mut self)
        requires
            old(self).wf(),
        ensures
            final(self).wf(),
            final(self)@ == spec_scroll(old(self)@),
    {
        let ghost orig: Screen = self@;
        let mut i: usize = CONSOLE_COLS;
        while i < GRID_CELLS
            invariant
                CONSOLE_COLS <= i <= GRID_CELLS,
                self.buffer@.len() == GRID_CELLS,
                forall|j: int| 0 <= j < i - CONSOLE_COLS ==> self.buffer@[j] == orig.cells[j
                    + CONSOLE_COLS],
                forall|j: int| i - CONSOLE_COLS <= j < GRID_CELLS ==> self.buffer@[j]
                    == orig.cells[j],
            decreases GRID_CELLS - i,
        {
            let cell = self.buffer[i];
            self.buffer.set(i - CONSOLE_COLS, cell);
            i = i + 1;
        }
        let mut k: usize = GRID_CELLS - CONSOLE_COLS;
        while k < GRID_CELLS
            invariant
                GRID_CELLS - CONSOLE_COLS <= k <= GRID_CELLS,
                self.buffer@.len() == GRID_CELLS,
                forall|j: int| 0 <= j < GRID_CELLS - CONSOLE_COLS ==> self.buffer@[j]
                    == orig.cells[j + CONSOLE_COLS],
                forall|j: int| GRID_CELLS - CONSOLE_COLS <= j < k ==> self.buffer@[j]
                    == blank_cell(),
            decreases GRID_CELLS - k,
        {
            self.buffer.set(k, VgaCell::blank());
            k = k + 1;
        }
        self.position = GRID_CELLS - CONSOLE_COLS;
        proof {
            assert(self@.cells =~= spec_scroll(orig).cells);
        }
    }

    /// Moves the write position and the hardware cursor to the top left.
    pub fn reset_position(&mut self, crt: &mut CrtController)
        requires
            old(self).wf(),
        ensures
            final(self).wf(),
            final(self)@ == (Screen { cells: old(self)@.cells, pos: 0 }),
            *final(crt) == spec_set_cursor(*old(crt), 0),
    {
        self.position = 0;
        set_cursor(crt, 0);
    }

    /// Copies the whole grid, two bytes per cell in row-major order, into
    /// the video-memory region.
    pub fn flush(&self, vmem: &mut VideoMemory)
        requires
            self.wf(),
            old(vmem).wf(),
        ensures
            final(vmem).wf(),
            final(vmem)@ == screen_bytes(self@.cells),
    {
        let mut i: usize = 0;
        while i < GRID_CELLS
            invariant
                i <= GRID_CELLS,
                self.wf(),
                vmem.wf(),
                forall|j: int| 0 <= j < 2 * i ==> vmem@[j] == screen_bytes(self@.cells)[j],
            decreases GRID_CELLS - i,
        {
            let cell = self.buffer[i];
            vmem.write_cell(i, cell);
            i = i + 1;
        }
        proof {
            assert(vmem@ =~= screen_bytes(self@.cells));
        }
    }

    /// Blanks every cell, homes the position and the hardware cursor, and
    /// immediately makes the blank grid visible.
    pub fn clear(&mut self, crt: &mut CrtController, vmem: &mut VideoMemory)
        requires
            old(self).wf(),
            old(vmem).wf(),
        ensures
            final(self).wf(),
            final(vmem).wf(),
            final(self)@ == blank_screen(),
            *final(crt) == spec_set_cursor(*old(crt), 0),
            final(vmem)@ == screen_bytes(blank_screen().cells),
    {
        let mut i: usize = 0;
        while i < GRID_CELLS
            invariant
                i <= GRID_CELLS,
                self.buffer@.len() == GRID_CELLS,
                self.position <= GRID_CELLS,
                forall|j: int| 0 <= j < i ==> self.buffer@[j] == blank_cell(),
            decreases GRID_CELLS - i,
        {
            self.buffer.set(i, VgaCell::blank());
            i = i + 1;
        }
        self.reset_position(crt);
        proof {
            assert(self@.cells =~= blank_screen().cells);
        }
        self.flush(vmem);
    }

    /// Writes each byte of a sequence in order with one color; the
    /// hardware cursor follows every single byte, not just the last.
    pub fn write_bytes(&mut self, bytes: &[u8], color: ColorCode, crt: &mut CrtController)
        requires
            old(self).wf(),
        ensures
            final(self).wf(),
            final(self)@ == spec_write_seq(old(self)@, bytes@, color),
            bytes@.len() > 0 ==> *final(crt) == spec_set_cursor(
                *old(crt),
                final(self)@.pos as u16,
            ),
            bytes@.len() == 0 ==> *final(crt) == *old(crt),
    {
        let ghost orig: Screen = self@;
        let ghost crt0: CrtController = *crt;
        let mut i: usize = 0;
        while i < bytes.len()
            invariant
                i <= bytes@.len(),
                self.wf(),
                self@ == spec_write_seq(orig, bytes@.take(i as int), color),
                i > 0 ==> *crt == spec_set_cursor(crt0, self@.pos as u16),
                i == 0 ==> *crt == crt0,
            decreases bytes@.len() - i,
        {
            let byte = bytes[i];
            self.write_byte(byte, color, crt);
            proof {
                assert(bytes@.take(i as int + 1) =~= bytes@.take(i as int).push(byte));
                lemma_write_seq_snoc(orig, bytes@.take(i as int), byte, color);
            }
            i = i + 1;
        }
        proof {
            assert(bytes@.take(bytes@.len() as int) =~= bytes@);
        }
    }
}

} // verus!
