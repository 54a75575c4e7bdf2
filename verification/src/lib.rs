//! A text-mode display driver: an in-memory model of an 80x25 character
//! grid, a linear write cursor with wrap and scroll, and the register and
//! video-memory programming that makes the grid visible on screen.

pub mod buffer;
pub mod cell;
pub mod console;
pub mod hardware;
pub mod lemmas;

pub use buffer::VgaBuffer;
pub use console::{clear_console, write_line};
pub use cell::{Color, ColorCode, VgaCell, default_color};
pub use hardware::{
    CrtController, VideoMemory, set_cursor, initialize_cursor, CONSOLE_COLS, CONSOLE_ROWS,
    GRID_CELLS, VIDEO_MEMORY_BYTES,
};
