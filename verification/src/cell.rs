//! A single styled character slot of the screen, and its attribute flags.

use crate::color::{Color, NamedColor};
use vstd::prelude::*;

verus! {

/// Bit flags for graphical rendition: a set of attributes, held as the bits
/// of a `u16`. The associated constants are the masks of the single flags and
/// of two unions of them; the methods take such masks.
#[derive(Debug, Copy, Clone, PartialEq, Eq, Structural)]
pub struct Flags {
    pub bits: u16,
}

/// The union of all the bits that name a flag.
pub const ALL_FLAG_BITS: u16 = 0x0fff;

impl Flags {
    /// Invert foreground and background colors.
    pub const INVERSE: u16 = 0x0001;

    /// Bold text.
    pub const BOLD: u16 = 0x0002;

    /// Italic text.
    pub const ITALIC: u16 = 0x0004;

    /// Bold and italic text.
    pub const BOLD_ITALIC: u16 = Flags::BOLD | Flags::ITALIC;

    /// Underline text.
    pub const UNDERLINE: u16 = 0x0008;

    /// Wrap line.
    pub const WRAPLINE: u16 = 0x0010;

    /// Wide character.
    pub const WIDE_CHAR: u16 = 0x0020;

    /// Spacer for wide characters.
    pub const WIDE_CHAR_SPACER: u16 = 0x0040;

    /// Dim text.
    pub const DIM: u16 = 0x0080;

    /// Dim and bold text.
    pub const DIM_BOLD: u16 = Flags::DIM | Flags::BOLD;

    /// Hidden text.
    pub const HIDDEN: u16 = 0x0100;

    /// Strikeout text.
    pub const STRIKEOUT: u16 = 0x0200;

    /// Leading wide character spacer.
    pub const LEADING_WIDE_CHAR_SPACER: u16 = 0x0400;

    /// Double underline text.
    pub const DOUBLE_UNDERLINE: u16 = 0x0800;

    /// The bits of the set.
    pub open spec fn view(&self) -> u16 {
        self.bits
    }

    /// Whether every bit of `mask` is in the set.
    pub open spec fn spec_contains(self, mask: u16) -> bool {
        self@ & mask == mask
    }

    /// The set with no flag.
    pub fn empty() -> (f: Flags)
        ensures
            f@ == 0,
    {
        Flags { bits: 0 }
    }

    /// The set of every flag.
    pub fn all() -> (f: Flags)
        ensures
            f@ == ALL_FLAG_BITS,
    {
        Flags { bits: ALL_FLAG_BITS }
    }

    /// The bits of the set.
    pub fn bits(&self) -> (b: u16)
        ensures
            b == self@,
    {
        self.bits
    }

    /// The set with exactly the given bits, where each of them names a flag.
    pub fn from_bits(bits: u16) -> (r: Option<Flags>)
        ensures
            bits & !ALL_FLAG_BITS == 0 ==> r.is_some() && r.unwrap()@ == bits,
            bits & !ALL_FLAG_BITS != 0 ==> r.is_none(),
    {
        if bits & !ALL_FLAG_BITS == 0 {
            Some(Flags { bits })
        } else {
            None
        }
    }

    /// The set of the given bits that name a flag; the others are dropped.
    pub fn from_bits_truncate(bits: u16) -> (f: Flags)
        ensures
            f@ == bits & ALL_FLAG_BITS,
    {
        Flags { bits: bits & ALL_FLAG_BITS }
    }

    /// Whether the set holds no flag.
    pub fn is_empty(&self) -> (r: bool)
        ensures
            r == (self@ == 0),
    {
        self.bits == 0
    }

    /// Whether every flag of `mask` is in the set.
    #[verifier::when_used_as_spec(spec_contains)]
    pub fn contains(self, mask: u16) -> (r: bool)
        ensures
            r == self.spec_contains(mask),
    {
        self.bits & mask == mask
    }

    /// Adds the flags of `mask` to the set.
    pub fn insert(&mut self, mask: u16)
        ensures
            final(self)@ == old(self)@ | mask,
    {
        self.bits = self.bits | mask;
    }

    /// Takes the flags of `mask` out of the set.
    pub fn remove(&mut self, mask: u16)
        ensures
            final(self)@ == old(self)@ & !mask,
    {
        self.bits = self.bits & !mask;
    }
}

/// Adding the flags of `mask` sets them and leaves every other flag as it is.
pub proof fn lemma_insert_touches_only_mask(bits: u16, mask: u16, other: u16)
    by (bit_vector)
    requires
        other & mask == 0,
    ensures
        (bits | mask) & mask == mask,
        (bits | mask) & other == bits & other,
{
}

/// Taking the flags of `mask` out clears them and leaves every other flag as
/// it is.
pub proof fn lemma_remove_touches_only_mask(bits: u16, mask: u16, other: u16)
    by (bit_vector)
    requires
        other & mask == 0,
    ensures
        (bits & !mask) & mask == 0,
        (bits & !mask) & other == bits & other,
{
}

/// The two unions among the masks are those of their parts, and no mask
/// names a bit outside the flags.
pub proof fn lemma_composite_masks()
    ensures
        Flags::BOLD_ITALIC == 0x0006,
        Flags::DIM_BOLD == 0x0082,
        ALL_FLAG_BITS == Flags::INVERSE | Flags::BOLD | Flags::ITALIC | Flags::UNDERLINE
            | Flags::WRAPLINE | Flags::WIDE_CHAR | Flags::WIDE_CHAR_SPACER | Flags::DIM
            | Flags::HIDDEN | Flags::STRIKEOUT | Flags::LEADING_WIDE_CHAR_SPACER
            | Flags::DOUBLE_UNDERLINE,
{
    assert(0x0002u16 | 0x0004u16 == 0x0006u16) by (bit_vector);
    assert(0x0080u16 | 0x0002u16 == 0x0082u16) by (bit_vector);
    assert(0x0fffu16 == 0x0001u16 | 0x0002u16 | 0x0004u16 | 0x0008u16 | 0x0010u16 | 0x0020u16
        | 0x0040u16 | 0x0080u16 | 0x0100u16 | 0x0200u16 | 0x0400u16 | 0x0800u16) by (bit_vector);
}

/// A character on the screen, with its colors and attributes.
///
/// `dirty` says that the cell has changed since it was last drawn. It is
/// bookkeeping for the renderer and no part of a cell's value: two cells are
/// equal when character, colors and flags are.
#[derive(Debug, Copy, Clone)]
pub struct Cell {
    pub c: char,
    pub fg: Color,
    pub bg: Color,
    pub flags: Flags,
    pub dirty: bool,
}

impl Cell {
    /// The cell that an untouched screen is made of: a blank in bright white
    /// on black, with no flag, still to be drawn.
    pub open spec fn spec_default() -> Cell {
        Cell {
            c: ' ',
            fg: Color::Named(NamedColor::BrightWhite),
            bg: Color::Named(NamedColor::Black),
            flags: Flags { bits: 0 },
            dirty: true,
        }
    }

    /// The blank cell that keeps only this cell's background.
    pub open spec fn spec_just_bg(&self) -> Cell {
        Cell { bg: self.bg, ..Cell::spec_default() }
    }

    /// Whether two cells show the same: `dirty` is left out.
    pub open spec fn same_content(self, other: Cell) -> bool {
        &&& self.c == other.c
        &&& self.fg == other.fg
        &&& self.bg == other.bg
        &&& self.flags == other.flags
    }

    /// This cell, marked as still to be drawn.
    pub open spec fn spec_touched(self) -> Cell {
        Cell { dirty: true, ..self }
    }

    /// The blank cell that keeps only this cell's background: what an erased
    /// position is filled with.
    #[verifier::when_used_as_spec(spec_just_bg)]
    pub fn just_bg(&self) -> (r: Cell)
        ensures
            r == self.spec_just_bg(),
    {
        Cell {
            c: ' ',
            fg: Color::Named(NamedColor::BrightWhite),
            bg: self.bg,
            flags: Flags::empty(),
            dirty: true,
        }
    }

    /// The colors that the cell is drawn in, foreground first: those of the
    /// cell, swapped where the cell is inverse.
    pub open spec fn spec_effective_colors(&self) -> (Color, Color) {
        if self.flags.spec_contains(Flags::INVERSE) {
            (self.bg, self.fg)
        } else {
            (self.fg, self.bg)
        }
    }

    /// The colors that the cell is drawn in, foreground first.
    #[verifier::when_used_as_spec(spec_effective_colors)]
    pub fn effective_colors(&self) -> (r: (Color, Color))
        ensures
            r == self.spec_effective_colors(),
    {
        if self.flags.contains(Flags::INVERSE) {
            (self.bg, self.fg)
        } else {
            (self.fg, self.bg)
        }
    }
}

impl Default for Cell {
    fn default() -> (r: Cell)
        ensures
            r == Cell::spec_default(),
    {
        Cell {
            c: ' ',
            fg: Color::Named(NamedColor::BrightWhite),
            bg: Color::Named(NamedColor::Black),
            flags: Flags::empty(),
            dirty: true,
        }
    }
}

impl PartialEq for Cell {
    fn eq(&self, other: &Cell) -> (r: bool) {
        self.c == other.c && self.fg == other.fg && self.bg == other.bg && self.flags
            == other.flags
    }
}

impl vstd::std_specs::cmp::PartialEqSpecImpl for Cell {
    open spec fn obeys_eq_spec() -> bool {
        true
    }

    open spec fn eq_spec(&self, other: &Cell) -> bool {
        self.same_content(*other)
    }
}

impl Eq for Cell {

}

} // verus!
