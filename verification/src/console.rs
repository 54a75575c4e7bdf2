//! Caller-facing console operations: each takes an already-rendered byte
//! sequence, drives the buffer engine, and ends with a flush so the
//! change is visible on screen. The caller supplies the one buffer, the
//! controller model and the video-memory model, and is expected to hold
//! them under one lock for the whole call.

use vstd::prelude::*;
use crate::buffer::{
    blank_screen, lemma_write_seq_snoc, spec_write_seq, Screen, VgaBuffer, NEWLINE,
};
use crate::cell::{default_color, spec_default_color};
use crate::hardware::{screen_bytes, spec_set_cursor, CrtController, VideoMemory};

verus! {

/// Writes a byte sequence in the default color and flushes: the bytes
/// land in the grid (wrapping and scrolling as the engine says), the
/// hardware cursor follows every byte, and the final grid is copied to
/// video memory.
pub fn write(b: &mut VgaBuffer, crt: &mut CrtController, vmem: &mut VideoMemory, bytes: &[u8])
    requires
        old(b).wf(),
        old(vmem).wf(),
    ensures
        final(b).wf(),
        final(vmem).wf(),
        final(b)@ == spec_write_seq(old(b)@, bytes@, spec_default_color()),
        final(vmem)@ == screen_bytes(final(b)@.cells),
        bytes@.len() > 0 ==> *final(crt) == spec_set_cursor(*old(crt), final(b)@.pos as u16),
        bytes@.len() == 0 ==> *final(crt) == *old(crt),
{
    let color = default_color();
    b.write_bytes(bytes, color, crt);
    b.flush(vmem);
}

/// Writes a byte sequence followed by a newline, then flushes. The
/// appended newline means the hardware cursor is always reprogrammed,
/// even for an empty sequence.
pub fn write_line(b: &mut VgaBuffer, crt: &mut CrtController, vmem: &mut VideoMemory, bytes: &[u8])
    requires
        old(b).wf(),
        old(vmem).wf(),
    ensures
        final(b).wf(),
        final(vmem).wf(),
        final(b)@ == spec_write_seq(old(b)@, bytes@.push(NEWLINE), spec_default_color()),
        final(vmem)@ == screen_bytes(final(b)@.cells),
        *final(crt) == spec_set_cursor(*old(crt), final(b)@.pos as u16),
{
    let ghost orig: Screen = b@;
    let color = default_color();
    b.write_bytes(bytes, color, crt);
    b.write_byte(NEWLINE, color, crt);
    proof {
        lemma_write_seq_snoc(orig, bytes@, NEWLINE, spec_default_color());
    }
    b.flush(vmem);
}

/// Clears the console: blanks the whole grid, homes the position and the
/// hardware cursor, and makes the blank grid visible at once.
pub fn clear_console(b: &mut VgaBuffer, crt: &mut CrtController, vmem: &mut VideoMemory)
    requires
        old(b).wf(),
        old(vmem).wf(),
    ensures
        final(b).wf(),
        final(vmem).wf(),
        final(b)@ == blank_screen(),
        *final(crt) == spec_set_cursor(*old(crt), 0),
        final(vmem)@ == screen_bytes(blank_screen().cells),
{
    b.clear(crt, vmem);
}

} // verus!
