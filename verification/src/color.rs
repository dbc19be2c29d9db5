//! Terminal colors: the sixteen named colors, 24-bit RGB and palette indices.

use vstd::prelude::*;

verus! {

/// Standard colors, by name. The order is that of the ANSI palette, so that
/// [`NamedColor::index`] is the position of a color in a palette table.
#[allow(missing_docs)]
#[derive(Debug, Copy, Clone, PartialEq, Eq, PartialOrd, Ord, Structural)]
pub enum NamedColor {
    Black,
    Red,
    Green,
    Yellow,
    Blue,
    Magenta,
    Cyan,
    White,
    BrightBlack,
    BrightRed,
    BrightGreen,
    BrightYellow,
    BrightBlue,
    BrightMagenta,
    BrightCyan,
    BrightWhite,
}

impl NamedColor {
    /// The palette index of a named color, from 0 (black) to 15 (bright white).
    pub open spec fn spec_index(self) -> u8 {
        match self {
            NamedColor::Black => 0,
            NamedColor::Red => 1,
            NamedColor::Green => 2,
            NamedColor::Yellow => 3,
            NamedColor::Blue => 4,
            NamedColor::Magenta => 5,
            NamedColor::Cyan => 6,
            NamedColor::White => 7,
            NamedColor::BrightBlack => 8,
            NamedColor::BrightRed => 9,
            NamedColor::BrightGreen => 10,
            NamedColor::BrightYellow => 11,
            NamedColor::BrightBlue => 12,
            NamedColor::BrightMagenta => 13,
            NamedColor::BrightCyan => 14,
            NamedColor::BrightWhite => 15,
        }
    }

    /// The palette index of a named color.
    #[verifier::when_used_as_spec(spec_index)]
    pub fn index(self) -> (i: u8)
        ensures
            i == self.spec_index(),
            i < 16,
    {
        match self {
            NamedColor::Black => 0,
            NamedColor::Red => 1,
            NamedColor::Green => 2,
            NamedColor::Yellow => 3,
            NamedColor::Blue => 4,
            NamedColor::Magenta => 5,
            NamedColor::Cyan => 6,
            NamedColor::White => 7,
            NamedColor::BrightBlack => 8,
            NamedColor::BrightRed => 9,
            NamedColor::BrightGreen => 10,
            NamedColor::BrightYellow => 11,
            NamedColor::BrightBlue => 12,
            NamedColor::BrightMagenta => 13,
            NamedColor::BrightCyan => 14,
            NamedColor::BrightWhite => 15,
        }
    }

    /// The named color at a palette index below 16, `None` above.
    pub open spec fn spec_from_index(i: u8) -> Option<NamedColor> {
        if i == 0 {
            Some(NamedColor::Black)
        } else if i == 1 {
            Some(NamedColor::Red)
        } else if i == 2 {
            Some(NamedColor::Green)
        } else if i == 3 {
            Some(NamedColor::Yellow)
        } else if i == 4 {
            Some(NamedColor::Blue)
        } else if i == 5 {
            Some(NamedColor::Magenta)
        } else if i == 6 {
            Some(NamedColor::Cyan)
        } else if i == 7 {
            Some(NamedColor::White)
        } else if i == 8 {
            Some(NamedColor::BrightBlack)
        } else if i == 9 {
            Some(NamedColor::BrightRed)
        } else if i == 10 {
            Some(NamedColor::BrightGreen)
        } else if i == 11 {
            Some(NamedColor::BrightYellow)
        } else if i == 12 {
            Some(NamedColor::BrightBlue)
        } else if i == 13 {
            Some(NamedColor::BrightMagenta)
        } else if i == 14 {
            Some(NamedColor::BrightCyan)
        } else if i == 15 {
            Some(NamedColor::BrightWhite)
        } else {
            None
        }
    }

    /// The named color at a palette index below 16, `None` above.
    #[verifier::when_used_as_spec(spec_from_index)]
    pub fn from_index(i: u8) -> (r: Option<NamedColor>)
        ensures
            r == NamedColor::spec_from_index(i),
            i < 16 ==> r.is_some() && r.unwrap().spec_index() == i,
            i >= 16 ==> r.is_none(),
    {
        match i {
            0 => Some(NamedColor::Black),
            1 => Some(NamedColor::Red),
            2 => Some(NamedColor::Green),
            3 => Some(NamedColor::Yellow),
            4 => Some(NamedColor::Blue),
            5 => Some(NamedColor::Magenta),
            6 => Some(NamedColor::Cyan),
            7 => Some(NamedColor::White),
            8 => Some(NamedColor::BrightBlack),
            9 => Some(NamedColor::BrightRed),
            10 => Some(NamedColor::BrightGreen),
            11 => Some(NamedColor::BrightYellow),
            12 => Some(NamedColor::BrightBlue),
            13 => Some(NamedColor::BrightMagenta),
            14 => Some(NamedColor::BrightCyan),
            15 => Some(NamedColor::BrightWhite),
            _ => None,
        }
    }
}

/// A 24-bit color: eight bits each of red, green and blue.
#[derive(Debug, Copy, Clone, PartialEq, Eq, Structural)]
pub struct Rgb888 {
    pub r: u8,
    pub g: u8,
    pub b: u8,
}

impl Rgb888 {
    /// A color from its three channels.
    pub fn new(r: u8, g: u8, b: u8) -> (c: Rgb888)
        ensures
            c == (Rgb888 { r, g, b }),
    {
        Rgb888 { r, g, b }
    }

    /// The red channel.
    pub fn r(&self) -> (v: u8)
        ensures
            v == self.r,
    {
        self.r
    }

    /// The green channel.
    pub fn g(&self) -> (v: u8)
        ensures
            v == self.g,
    {
        self.g
    }

    /// The blue channel.
    pub fn b(&self) -> (v: u8)
        ensures
            v == self.b,
    {
        self.b
    }
}

/// A color. Can take the form of a named color, a specific RGB color, or an
/// index into the 256-entry palette. Which pixel value a color stands for is
/// decided when a cell is drawn.
#[derive(Debug, Copy, Clone, PartialEq, Eq, Structural)]
pub enum Color {
    /// A named color.
    Named(NamedColor),
    /// A specific RGB color.
    RGB(Rgb888),
    /// An indexed color.
    Indexed(u8),
}

} // verus!
