use vga::{default_color, Color, ColorCode, CrtController, VgaBuffer, VideoMemory};

fn fresh() -> (VgaBuffer, CrtController, VideoMemory) {
    (VgaBuffer::new(), CrtController::new(), VideoMemory::new())
}

const COLS: usize = 80;
const ROWS: usize = 25;
const CELLS: usize = ROWS * COLS;
const LAST_ROW: usize = CELLS - COLS;

#[test]
fn color_attribute_packing() {
    assert_eq!(ColorCode::new(Color::LightGreen, Color::Black).0, 10);
    assert_eq!(ColorCode::new(Color::White, Color::Blue).0, 0x1F);
    assert_eq!(ColorCode::new(Color::Black, Color::White).0, 0xF0);
    assert_eq!(default_color().0, 10);
}

#[test]
fn short_run_advances_position() {
    let (mut b, mut crt, mut vmem) = fresh();
    vga::console::write(&mut b, &mut crt, &mut vmem, b"Hi ok");
    assert_eq!(b.position(), 5);
    let expected = b"Hi ok";
    for i in 0..5 {
        let cell = b.cell_at(i);
        assert_eq!(cell.character, expected[i]);
        assert_eq!(cell.color.0, 10);
    }
    assert_eq!(b.cell_at(5).character, b' ');
}

#[test]
fn write_then_newline_then_write() {
    let (mut b, mut crt, mut vmem) = fresh();
    vga::console::write(&mut b, &mut crt, &mut vmem, b"AB\nCD");
    assert_eq!(b.cell_at(0).character, b'A');
    assert_eq!(b.cell_at(1).character, b'B');
    assert_eq!(b.cell_at(COLS).character, b'C');
    assert_eq!(b.cell_at(COLS + 1).character, b'D');
    assert_eq!(b.position(), COLS + 2);
}

#[test]
fn fill_row_then_one_scrolls() {
    let (mut b, mut crt, mut vmem) = fresh();
    vga::console::write(&mut b, &mut crt, &mut vmem, b"TOP");
    // move to the start of the last row
    for _ in 0..(ROWS - 1) {
        b.write_byte(b'\n', default_color(), &mut crt);
    }
    assert_eq!(b.position(), LAST_ROW);
    for _ in 0..COLS {
        b.write_byte(b'A', default_color(), &mut crt);
    }
    assert_eq!(b.position(), CELLS);
    b.write_byte(b'B', default_color(), &mut crt);
    // exactly one scroll: the row of 'A's moved up one row, 'B' opens the
    // new last row, the old top row is gone
    assert_eq!(b.position(), LAST_ROW + 1);
    assert_eq!(b.cell_at(LAST_ROW).character, b'B');
    for i in (LAST_ROW + 1)..CELLS {
        assert_eq!(b.cell_at(i).character, b' ');
    }
    for i in (LAST_ROW - COLS)..LAST_ROW {
        assert_eq!(b.cell_at(i).character, b'A');
    }
    assert_eq!(b.cell_at(0).character, b' ');
}

#[test]
fn newline_on_second_to_last_line_does_not_scroll() {
    let (mut b, mut crt, mut vmem) = fresh();
    vga::console::clear_console(&mut b, &mut crt, &mut vmem);
    b.write_byte(b'M', default_color(), &mut crt);
    // reach the second-to-last line
    for _ in 0..(ROWS - 2) {
        b.write_byte(b'\n', default_color(), &mut crt);
    }
    assert_eq!(b.position() / COLS, ROWS - 2);
    b.write_byte(b'\n', default_color(), &mut crt);
    // no scroll: the marker is still on the top row
    assert_eq!(b.position(), LAST_ROW);
    assert_eq!(b.cell_at(0).character, b'M');
}

#[test]
fn newline_on_last_line_scrolls() {
    let (mut b, mut crt, mut vmem) = fresh();
    vga::console::clear_console(&mut b, &mut crt, &mut vmem);
    b.write_byte(b'M', default_color(), &mut crt);
    for _ in 0..(ROWS - 1) {
        b.write_byte(b'\n', default_color(), &mut crt);
    }
    assert_eq!(b.position() / COLS, ROWS - 1);
    b.write_byte(b'\n', default_color(), &mut crt);
    // scrolled: the top row (with the marker) is gone, the position is at
    // the start of the blank last row
    assert_eq!(b.position(), LAST_ROW);
    assert_eq!(b.cell_at(0).character, b' ');
    for i in LAST_ROW..CELLS {
        assert_eq!(b.cell_at(i).character, b' ');
    }
}

#[test]
fn clear_yields_blank_image() {
    let (mut b, mut crt, mut vmem) = fresh();
    vga::console::write(&mut b, &mut crt, &mut vmem, b"something on screen\nmore");
    vga::console::clear_console(&mut b, &mut crt, &mut vmem);
    b.flush(&mut vmem);
    for i in 0..CELLS {
        assert_eq!(vmem.byte_at(2 * i), b' ');
        assert_eq!(vmem.byte_at(2 * i + 1), 10);
    }
    assert_eq!(b.position(), 0);
    assert_eq!(crt.cursor_low, 0);
    assert_eq!(crt.cursor_high, 0);
}

#[test]
fn initialize_cursor_idempotent() {
    let mut crt = CrtController::new();
    vga::initialize_cursor(&mut crt);
    let once = crt;
    vga::initialize_cursor(&mut crt);
    assert_eq!(crt, once);
    assert_eq!(crt.cursor_start, 0x00);
    assert_eq!(crt.cursor_end, 0x0F);
}

#[test]
fn set_cursor_splits_position() {
    let mut crt = CrtController::new();
    vga::set_cursor(&mut crt, 0x1234);
    assert_eq!(crt.cursor_low, 0x34);
    assert_eq!(crt.cursor_high, 0x12);
    assert_eq!(crt.index, 0x0E);
}

#[test]
fn cursor_follows_each_write() {
    let (mut b, mut crt, _vmem) = fresh();
    b.write_byte(b'A', default_color(), &mut crt);
    assert_eq!(crt.cursor_low, 1);
    assert_eq!(crt.cursor_high, 0);
    b.write_byte(b'\n', default_color(), &mut crt);
    assert_eq!(crt.cursor_low, 80);
    assert_eq!(crt.cursor_high, 0);
}

#[test]
fn grid_exhaustion_scrolls() {
    let (mut b, mut crt, _vmem) = fresh();
    for _ in 0..CELLS {
        b.write_byte(b'X', default_color(), &mut crt);
    }
    assert_eq!(b.position(), CELLS);
    b.write_byte(b'Y', default_color(), &mut crt);
    assert_eq!(b.position(), LAST_ROW + 1);
    assert_eq!(b.cell_at(LAST_ROW).character, b'Y');
    for i in (LAST_ROW - COLS)..LAST_ROW {
        assert_eq!(b.cell_at(i).character, b'X');
    }
    for i in (LAST_ROW + 1)..CELLS {
        assert_eq!(b.cell_at(i).character, b' ');
    }
}

#[test]
fn newline_at_grid_end_scrolls() {
    let (mut b, mut crt, _vmem) = fresh();
    for _ in 0..CELLS {
        b.write_byte(b'X', default_color(), &mut crt);
    }
    assert_eq!(b.position(), CELLS);
    // the position sits one past the last line, so a newline scrolls
    b.write_byte(b'\n', default_color(), &mut crt);
    assert_eq!(b.position(), LAST_ROW);
    for i in LAST_ROW..CELLS {
        assert_eq!(b.cell_at(i).character, b' ');
    }
    assert_eq!(b.cell_at(LAST_ROW - 1).character, b'X');
}

#[test]
fn flush_interleaves_bytes() {
    let (mut b, mut crt, mut vmem) = fresh();
    b.write_byte(b'A', ColorCode::new(Color::Yellow, Color::Red), &mut crt);
    b.write_byte(b'Z', default_color(), &mut crt);
    b.flush(&mut vmem);
    assert_eq!(vmem.byte_at(0), b'A');
    assert_eq!(vmem.byte_at(1), (4 << 4) | 14);
    assert_eq!(vmem.byte_at(2), b'Z');
    assert_eq!(vmem.byte_at(3), 10);
    assert_eq!(vmem.byte_at(4), b' ');
    assert_eq!(vmem.byte_at(5), 10);
}

#[test]
fn write_line_appends_newline() {
    let (mut b, mut crt, mut vmem) = fresh();
    vga::write_line(&mut b, &mut crt, &mut vmem, b"AB");
    assert_eq!(b.cell_at(0).character, b'A');
    assert_eq!(b.cell_at(1).character, b'B');
    assert_eq!(b.position(), COLS);
    assert_eq!(crt.cursor_low, 80);
    assert_eq!(vmem.byte_at(0), b'A');
    assert_eq!(vmem.byte_at(2), b'B');
}

#[test]
fn reset_position_homes_cursor() {
    let (mut b, mut crt, mut vmem) = fresh();
    vga::console::write(&mut b, &mut crt, &mut vmem, b"abc");
    b.reset_position(&mut crt);
    assert_eq!(b.position(), 0);
    assert_eq!(crt.cursor_low, 0);
    assert_eq!(crt.cursor_high, 0);
    // the cells are untouched by a position reset
    assert_eq!(b.cell_at(0).character, b'a');
}

#[test]
fn buffer_starts_blank_and_well_formed() {
    let (b, _crt, _vmem) = fresh();
    assert!(b.is_well_formed());
    assert_eq!(b.position(), 0);
    for i in 0..CELLS {
        let cell = b.cell_at(i);
        assert_eq!(cell.character, b' ');
        assert_eq!(cell.color.0, 10);
    }
}
