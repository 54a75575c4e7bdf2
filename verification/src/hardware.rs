//! The hardware model: the fixed grid dimensions, the CRT controller
//! registers reached through an index/data port pair (cursor shape and
//! cursor location), and the memory-mapped video region that displays the
//! grid as interleaved glyph/attribute bytes.

use vstd::prelude::*;
use crate::cell::VgaCell;

verus! {

/// Columns of the text-mode grid.
pub const CONSOLE_COLS: usize = 80;

/// Rows of the text-mode grid.
pub const CONSOLE_ROWS: usize = 25;

/// Cells in the grid: rows times columns.
pub const GRID_CELLS: usize = CONSOLE_ROWS * CONSOLE_COLS;

/// Bytes in the video-memory region: two per cell.
pub const VIDEO_MEMORY_BYTES: usize = 2 * GRID_CELLS;

/// Register index selecting the cursor-shape start register
/// (bits 0-4: first cursor scanline; bit 5: visibility, clear = visible).
pub const CURSOR_START_INDEX: u8 = 0x0A;

/// Register index selecting the cursor-shape end register
/// (bits 0-4: last cursor scanline).
pub const CURSOR_END_INDEX: u8 = 0x0B;

/// Register index selecting the high byte of the cursor location.
pub const CURSOR_HIGH_INDEX: u8 = 0x0E;

/// Register index selecting the low byte of the cursor location.
pub const CURSOR_LOW_INDEX: u8 = 0x0F;

/// Model of the CRT controller as this driver reaches it: the register
/// index last written to the index port, and the four registers the
/// driver programs through the data port.
#[derive(Copy, Clone, PartialEq, Eq, Structural, Debug)]
pub struct CrtController {
    /// The register index last written to the index port.
    pub index: u8,
    /// The cursor-shape start register.
    pub cursor_start: u8,
    /// The cursor-shape end register.
    pub cursor_end: u8,
    /// The high byte of the cursor location.
    pub cursor_high: u8,
    /// The low byte of the cursor location.
    pub cursor_low: u8,
}

/// Controller state after one write to the index port: the index changes,
/// every register keeps its value.
pub open spec fn spec_select(c: CrtController, v: u8) -> CrtController {
    CrtController { index: v, ..c }
}

/// Controller state after one write to the data port: the register the
/// current index selects takes the value; an index this driver never
/// selects leaves the model unchanged.
pub open spec fn spec_write_data(c: CrtController, v: u8) -> CrtController {
    if c.index == CURSOR_START_INDEX {
        CrtController { cursor_start: v, ..c }
    } else if c.index == CURSOR_END_INDEX {
        CrtController { cursor_end: v, ..c }
    } else if c.index == CURSOR_HIGH_INDEX {
        CrtController { cursor_high: v, ..c }
    } else if c.index == CURSOR_LOW_INDEX {
        CrtController { cursor_low: v, ..c }
    } else {
        c
    }
}

/// Controller state after programming the cursor location to `position`:
/// low byte then high byte through the index/data pair.
pub open spec fn spec_set_cursor(c: CrtController, position: u16) -> CrtController {
    CrtController {
        index: CURSOR_HIGH_INDEX,
        cursor_low: (position % 256) as u8,
        cursor_high: (position / 256) as u8,
        ..c
    }
}

/// Controller state after the one-time cursor-shape setup: a visible
/// block cursor spanning scanlines 0 through 15.
pub open spec fn spec_initialize_cursor(c: CrtController) -> CrtController {
    CrtController { index: CURSOR_END_INDEX, cursor_start: 0x00, cursor_end: 0x0F, ..c }
}

impl CrtController {
    /// A controller model with every register cleared.
    pub fn new() -> (c: CrtController)
        ensures
            c == (CrtController {
                index: 0,
                cursor_start: 0,
                cursor_end: 0,
                cursor_high: 0,
                cursor_low: 0,
            }),
    {
        CrtController { index: 0, cursor_start: 0, cursor_end: 0, cursor_high: 0, cursor_low: 0 }
    }

    /// One write to the index port: selects a register.
    pub fn write_index_port(&mut self, v: u8)
        ensures
            *final(self) == spec_select(*old(self), v),
    {
        self.index = v;
    }

    /// One write to the data port: stores into the selected register.
    pub fn write_data_port(&mut self, v: u8)
        ensures
            *final(self) == spec_write_data(*old(self), v),
    {
        if self.index == CURSOR_START_INDEX {
            self.cursor_start = v;
        } else if self.index == CURSOR_END_INDEX {
            self.cursor_end = v;
        } else if self.index == CURSOR_HIGH_INDEX {
            self.cursor_high = v;
        } else if self.index == CURSOR_LOW_INDEX {
            self.cursor_low = v;
        }
    }
}

/// Programs the cursor location register pair with the low and high bytes
/// of the 16-bit linear position, index-then-data for each byte.
pub fn set_cursor(crt: &mut CrtController, position: u16)
    ensures
        *final(crt) == spec_set_cursor(*old(crt), position),
{
    crt.write_index_port(CURSOR_LOW_INDEX);
    crt.write_data_port((position % 256) as u8);
    crt.write_index_port(CURSOR_HIGH_INDEX);
    crt.write_data_port((position / 256) as u8);
}

/// One-time setup of the cursor shape registers: selects a visible block
/// cursor from scanline 0 to scanline 15. Calling it again rewrites the
/// same values.
pub fn initialize_cursor(crt: &mut CrtController)
    ensures
        *final(crt) == spec_initialize_cursor(*old(crt)),
{
    crt.write_index_port(CURSOR_START_INDEX);
    crt.write_data_port(0x00);
    crt.write_index_port(CURSOR_END_INDEX);
    crt.write_data_port(0x0F);
}

/// The byte image of a grid: for each cell in row-major order, its glyph
/// byte immediately followed by its attribute byte.
pub open spec fn screen_bytes(cells: Seq<VgaCell>) -> Seq<u8> {
    Seq::new(2 * cells.len(), |i: int|
        if i % 2 == 0 {
            cells[i / 2].character
        } else {
            cells[i / 2].color.0
        })
}

/// Model of the fixed memory-mapped text-mode video region: exactly two
/// bytes per grid cell, glyph and attribute interleaved.
pub struct VideoMemory {
    bytes: Vec<u8>,
}

impl View for VideoMemory {
    type V = Seq<u8>;

    closed spec fn view(&self) -> Seq<u8> {
        self.bytes@
    }
}

impl VideoMemory {
    /// The region has its fixed size.
    pub open spec fn wf(&self) -> bool {
        self@.len() == VIDEO_MEMORY_BYTES
    }

    /// A video-memory model of the fixed size, zero-filled.
    pub fn new() -> (m: VideoMemory)
        ensures
            m.wf(),
            forall|i: int| 0 <= i < VIDEO_MEMORY_BYTES ==> m@[i] == 0u8,
    {
        let mut bytes: Vec<u8> = Vec::new();
        let mut i: usize = 0;
        while i < VIDEO_MEMORY_BYTES
            invariant
                i <= VIDEO_MEMORY_BYTES,
                bytes@.len() == i,
                forall|j: int| 0 <= j < i ==> bytes@[j] == 0u8,
            decreases VIDEO_MEMORY_BYTES - i,
        {
            bytes.push(0);
            i = i + 1;
        }
        VideoMemory { bytes }
    }

    /// Whether the region invariant holds; lets an unverified caller
    /// check it before reading the image out.
    pub fn is_well_formed(&self) -> (r: bool)
        ensures
            r == self.wf(),
    {
        self.bytes.len() == VIDEO_MEMORY_BYTES
    }

    /// The byte at one offset of the region.
    pub fn byte_at(&self, i: usize) -> (b: u8)
        requires
            self.wf(),
            i < VIDEO_MEMORY_BYTES,
        ensures
            b == self@[i as int],
    {
        self.bytes[i]
    }

    /// Stores one cell's two bytes at the cell's slot.
    pub fn write_cell(&mut self, i: usize, cell: VgaCell)
        requires
            old(self).wf(),
            i < GRID_CELLS,
        ensures
            final(self).wf(),
            final(self)@ == old(self)@.update(2 * i, cell.character).update(2 * i + 1, cell.color.0),
    {
        self.bytes.set(2 * i, cell.character);
        self.bytes.set(2 * i + 1, cell.color.0);
    }
}

} // verus!
