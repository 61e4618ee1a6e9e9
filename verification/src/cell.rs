//! The renderable content of one grid position: a character and the colors
//! it is drawn with.

use vstd::prelude::*;

verus! {

/// A true color: explicit red, green and blue components.
#[derive(Clone, Copy, Debug, PartialEq, Eq, Structural)]
pub struct Rgb {
    pub r: u8,
    pub g: u8,
    pub b: u8,
}

/// One of the colors of the standard terminal palette, addressed by name.
#[derive(Clone, Copy, Debug, PartialEq, Eq, Structural)]
pub enum NamedColor {
    Black,
    Red,
    Green,
    Yellow,
    Blue,
    Magenta,
    Cyan,
    White,
    BrightBlack,
    BrightRed,
    BrightGreen,
    BrightYellow,
    BrightBlue,
    BrightMagenta,
    BrightCyan,
    BrightWhite,
    Foreground,
    Background,
    Cursor,
    DimBlack,
    DimRed,
    DimGreen,
    DimYellow,
    DimBlue,
    DimMagenta,
    DimCyan,
    DimWhite,
    BrightForeground,
    DimForeground,
}

impl NamedColor {
    /// The numeric code of this named color: the sixteen palette colors count
    /// up from 0, and the special colors count up from 256.
    pub open spec fn spec_code(self) -> u16 {
        match self {
            NamedColor::Black => 0,
            NamedColor::Red => 1,
            NamedColor::Green => 2,
            NamedColor::Yellow => 3,
            NamedColor::Blue => 4,
            NamedColor::Magenta => 5,
            NamedColor::Cyan => 6,
            NamedColor::White => 7,
            NamedColor::BrightBlack => 8,
            NamedColor::BrightRed => 9,
            NamedColor::BrightGreen => 10,
            NamedColor::BrightYellow => 11,
            NamedColor::BrightBlue => 12,
            NamedColor::BrightMagenta => 13,
            NamedColor::BrightCyan => 14,
            NamedColor::BrightWhite => 15,
            NamedColor::Foreground => 256,
            NamedColor::Background => 257,
            NamedColor::Cursor => 258,
            NamedColor::DimBlack => 259,
            NamedColor::DimRed => 260,
            NamedColor::DimGreen => 261,
            NamedColor::DimYellow => 262,
            NamedColor::DimBlue => 263,
            NamedColor::DimMagenta => 264,
            NamedColor::DimCyan => 265,
            NamedColor::DimWhite => 266,
            NamedColor::BrightForeground => 267,
            NamedColor::DimForeground => 268,
        }
    }

    /// Returns the numeric code of this named color.
    pub fn code(&self) -> (code: u16)
        ensures
            code == self.spec_code(),
    {
        match self {
            NamedColor::Black => 0,
            NamedColor::Red => 1,
            NamedColor::Green => 2,
            NamedColor::Yellow => 3,
            NamedColor::Blue => 4,
            NamedColor::Magenta => 5,
            NamedColor::Cyan => 6,
            NamedColor::White => 7,
            NamedColor::BrightBlack => 8,
            NamedColor::BrightRed => 9,
            NamedColor::BrightGreen => 10,
            NamedColor::BrightYellow => 11,
            NamedColor::BrightBlue => 12,
            NamedColor::BrightMagenta => 13,
            NamedColor::BrightCyan => 14,
            NamedColor::BrightWhite => 15,
            NamedColor::Foreground => 256,
            NamedColor::Background => 257,
            NamedColor::Cursor => 258,
            NamedColor::DimBlack => 259,
            NamedColor::DimRed => 260,
            NamedColor::DimGreen => 261,
            NamedColor::DimYellow => 262,
            NamedColor::DimBlue => 263,
            NamedColor::DimMagenta => 264,
            NamedColor::DimCyan => 265,
            NamedColor::DimWhite => 266,
            NamedColor::BrightForeground => 267,
            NamedColor::DimForeground => 268,
        }
    }
}

/// A cell color: named, indexed into the 256-color palette, or a true color.
#[derive(Clone, Copy, Debug, PartialEq, Eq, Structural)]
pub enum Color {
    Named(NamedColor),
    Spec(Rgb),
    Indexed(u8),
}

/// Offset added to an indexed palette slot when a color is flattened to its
/// numeric code: indexed slots are placed right after the first named code.
pub const INDEXED_CODE_BASE: u16 = 1;

impl Color {
    /// The 16-bit numeric code a color is flattened to at the host boundary:
    /// named colors keep their own code, indexed colors are shifted up by
    /// `INDEXED_CODE_BASE`, and true colors collapse to the sentinel 0 (their
    /// components have no numeric encoding at this layer).
    pub open spec fn spec_to_u16(self) -> u16 {
        match self {
            Color::Named(named) => named.spec_code(),
            Color::Spec(_) => 0,
            Color::Indexed(index) => (INDEXED_CODE_BASE as int + index as int) as u16,
        }
    }

    /// Flattens this color to its 16-bit numeric code.
    pub fn to_u16(&self) -> (code: u16)
        ensures
            code == self.spec_to_u16(),
    {
        match self {
            Color::Named(named) => named.code(),
            Color::Spec(_) => 0,
            Color::Indexed(index) => INDEXED_CODE_BASE + (*index as u16),
        }
    }
}

/// The renderable content of one grid position.
#[derive(Clone, Copy, Debug, PartialEq, Eq, Structural)]
pub struct Cell {
    pub c: char,
    pub fg: Color,
    pub bg: Color,
}

impl Cell {
    /// The blank cell every position starts as: a space drawn in the default
    /// foreground color over the default background color.
    pub open spec fn default_spec() -> Cell {
        Cell { c: ' ', fg: Color::Named(NamedColor::Foreground), bg: Color::Named(
            NamedColor::Background,
        ) }
    }

    /// Restores this cell to the blank state.
    pub fn reset(&mut self)
        ensures
            *final(self) == Cell::default_spec(),
    {
        *self = Cell::default();
    }
}

impl Default for Cell {
    fn default() -> (cell: Cell)
        ensures
            cell == Cell::default_spec(),
    {
        Cell {
            c: ' ',
            fg: Color::Named(NamedColor::Foreground),
            bg: Color::Named(NamedColor::Background),
        }
    }
}

} // verus!
