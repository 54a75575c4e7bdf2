//! The cell model: the sixteen-color palette, the packed color attribute
//! byte, and the character cell that pairs a glyph byte with an attribute.

use vstd::prelude::*;

verus! {

/// The sixteen colors of the text-mode palette, in palette order.
#[derive(Copy, Clone, PartialEq, Eq, Structural, Debug)]
pub enum Color {
    Black,
    Blue,
    Green,
    Cyan,
    Red,
    Magenta,
    Brown,
    LightGray,
    DarkGray,
    LightBlue,
    LightGreen,
    LightCyan,
    LightRed,
    LightMagenta,
    Yellow,
    White,
}

/// The palette index of a color, 0 through 15.
pub open spec fn spec_color_number(c: Color) -> u8 {
    match c {
        Color::Black => 0,
        Color::Blue => 1,
        Color::Green => 2,
        Color::Cyan => 3,
        Color::Red => 4,
        Color::Magenta => 5,
        Color::Brown => 6,
        Color::LightGray => 7,
        Color::DarkGray => 8,
        Color::LightBlue => 9,
        Color::LightGreen => 10,
        Color::LightCyan => 11,
        Color::LightRed => 12,
        Color::LightMagenta => 13,
        Color::Yellow => 14,
        Color::White => 15,
    }
}

impl Color {
    /// The palette index of this color, 0 through 15.
    pub fn number(self) -> (n: u8)
        ensures
            n == spec_color_number(self),
            n < 16,
    {
        match self {
            Color::Black => 0,
            Color::Blue => 1,
            Color::Green => 2,
            Color::Cyan => 3,
            Color::Red => 4,
            Color::Magenta => 5,
            Color::Brown => 6,
            Color::LightGray => 7,
            Color::DarkGray => 8,
            Color::LightBlue => 9,
            Color::LightGreen => 10,
            Color::LightCyan => 11,
            Color::LightRed => 12,
            Color::LightMagenta => 13,
            Color::Yellow => 14,
            Color::White => 15,
        }
    }
}

/// The packed attribute byte for a foreground/background pair: the
/// background palette index in the high nibble, the foreground in the low.
pub open spec fn spec_attribute(foreground: Color, background: Color) -> u8 {
    (spec_color_number(background) << 4) | spec_color_number(foreground)
}

/// A packed color attribute byte: 4-bit background in the high nibble,
/// 4-bit foreground in the low nibble.
#[derive(Copy, Clone, PartialEq, Eq, Structural, Debug)]
pub struct ColorCode(pub u8);

impl ColorCode {
    /// Packs a foreground and a background color into one attribute byte.
    pub fn new(foreground: Color, background: Color) -> (c: ColorCode)
        ensures
            c.0 == spec_attribute(foreground, background),
    {
        ColorCode((background.number() << 4) | foreground.number())
    }
}

/// The attribute used for every write in this driver: light green on black.
pub open spec fn spec_default_color() -> ColorCode {
    ColorCode(spec_attribute(Color::LightGreen, Color::Black))
}

/// The default attribute byte, light green on black.
pub fn default_color() -> (c: ColorCode)
    ensures
        c == spec_default_color(),
{
    ColorCode::new(Color::LightGreen, Color::Black)
}

/// One character position: a glyph byte (a hardware glyph-table code,
/// not necessarily ASCII) followed by its color attribute byte.
#[derive(Copy, Clone, PartialEq, Eq, Structural, Debug)]
pub struct VgaCell {
    pub character: u8,
    pub color: ColorCode,
}

/// A blank cell: a space glyph in the default color.
pub open spec fn blank_cell() -> VgaCell {
    VgaCell { character: 32, color: spec_default_color() }
}

impl VgaCell {
    /// A blank cell: a space glyph in the default color.
    pub fn blank() -> (c: VgaCell)
        ensures
            c == blank_cell(),
    {
        VgaCell { character: 32, color: default_color() }
    }
}

} // verus!
