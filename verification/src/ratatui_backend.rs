//! A console behind the interface of a text-UI framework: cells, colors
//! and modifiers as such a framework gives them, turned into those of the
//! console.

use crate::ansi::{ClearMode, LineClearMode};
use crate::cell::{Cell, Flags};
use crate::color::{Color, NamedColor, Rgb888};
use crate::console::Console;
use crate::screen::Screen;
use crate::style::DrawCell;
use vstd::prelude::*;

verus! {

/// A trait for displays that can be flushed: renderers that keep what was
/// drawn until they are told to show it.
pub trait FlushableDisplay: DrawCell {
    /// Flush the display.
    fn flush(&mut self) -> Result<(), Self::Error>;
}

/// Errors that can occur when using the [`EmbeddedTemuBackend`].
#[derive(Debug)]
pub enum BackendError<E> {
    /// The cursor position is out of bounds.
    CursorPositionOutOfBounds,
    /// Drawing or flushing failed.
    FlushError(E),
}

/// The part of the screen that a framework asks to be cleared.
#[derive(Debug, Copy, Clone, PartialEq, Eq, Structural)]
pub enum ClearType {
    /// The whole screen.
    All,
    /// From the cursor to the end of the screen.
    AfterCursor,
    /// From the start of the screen to the cursor.
    BeforeCursor,
    /// The cursor's line.
    CurrentLine,
    /// From the cursor to the end of its line.
    UntilNewLine,
}

/// A color as a text-UI framework names it.
#[derive(Debug, Copy, Clone, PartialEq, Eq, Structural)]
pub enum RatatuiColor {
    /// The terminal's own foreground or background.
    Reset,
    Black,
    Red,
    Green,
    Yellow,
    Blue,
    Magenta,
    Cyan,
    Gray,
    DarkGray,
    LightRed,
    LightGreen,
    LightYellow,
    LightBlue,
    LightMagenta,
    LightCyan,
    White,
    /// A color by its channels.
    Rgb(u8, u8, u8),
    /// A color of the 256-entry palette.
    Indexed(u8),
}

/// The bit of a framework's modifier set that stands for bold.
pub const MODIFIER_BOLD: u16 = 0x0001;

/// The bit for dim.
pub const MODIFIER_DIM: u16 = 0x0002;

/// The bit for italic.
pub const MODIFIER_ITALIC: u16 = 0x0004;

/// The bit for underlined.
pub const MODIFIER_UNDERLINED: u16 = 0x0008;

/// The bit for slow blink.
pub const MODIFIER_SLOW_BLINK: u16 = 0x0010;

/// The bit for rapid blink.
pub const MODIFIER_RAPID_BLINK: u16 = 0x0020;

/// The bit for reversed.
pub const MODIFIER_REVERSED: u16 = 0x0040;

/// The bit for hidden.
pub const MODIFIER_HIDDEN: u16 = 0x0080;

/// The bit for crossed out.
pub const MODIFIER_CROSSED_OUT: u16 = 0x0100;

/// The console's color for a framework's color. `Reset` stands for the
/// default of the side in question: black as a background, bright white as
/// a foreground. The framework's white is the bright one, its gray the
/// console's white, its dark gray the console's bright black.
pub open spec fn spec_ratatui_color_to_color(color: RatatuiColor, bg: bool) -> Color {
    match color {
        RatatuiColor::Reset => if bg {
            Color::Named(NamedColor::Black)
        } else {
            Color::Named(NamedColor::BrightWhite)
        },
        RatatuiColor::Black => Color::Named(NamedColor::Black),
        RatatuiColor::Red => Color::Named(NamedColor::Red),
        RatatuiColor::Green => Color::Named(NamedColor::Green),
        RatatuiColor::Yellow => Color::Named(NamedColor::Yellow),
        RatatuiColor::Blue => Color::Named(NamedColor::Blue),
        RatatuiColor::Magenta => Color::Named(NamedColor::Magenta),
        RatatuiColor::Cyan => Color::Named(NamedColor::Cyan),
        RatatuiColor::White => Color::Named(NamedColor::BrightWhite),
        RatatuiColor::Gray => Color::Named(NamedColor::White),
        RatatuiColor::DarkGray => Color::Named(NamedColor::BrightBlack),
        RatatuiColor::LightRed => Color::Named(NamedColor::BrightRed),
        RatatuiColor::LightGreen => Color::Named(NamedColor::BrightGreen),
        RatatuiColor::LightYellow => Color::Named(NamedColor::BrightYellow),
        RatatuiColor::LightBlue => Color::Named(NamedColor::BrightBlue),
        RatatuiColor::LightMagenta => Color::Named(NamedColor::BrightMagenta),
        RatatuiColor::LightCyan => Color::Named(NamedColor::BrightCyan),
        RatatuiColor::Rgb(r, g, b) => Color::RGB(Rgb888 { r, g, b }),
        RatatuiColor::Indexed(i) => Color::Indexed(i),
    }
}

/// The console's color for a framework's color, as a foreground or, with
/// `bg`, as a background.
#[verifier::when_used_as_spec(spec_ratatui_color_to_color)]
pub fn ratatui_color_to_color(color: RatatuiColor, bg: bool) -> (r: Color)
    ensures
        r == spec_ratatui_color_to_color(color, bg),
{
    match color {
        RatatuiColor::Reset => {
            if bg {
                Color::Named(NamedColor::Black)
            } else {
                Color::Named(NamedColor::BrightWhite)
            }
        },
        RatatuiColor::Black => Color::Named(NamedColor::Black),
        RatatuiColor::Red => Color::Named(NamedColor::Red),
        RatatuiColor::Green => Color::Named(NamedColor::Green),
        RatatuiColor::Yellow => Color::Named(NamedColor::Yellow),
        RatatuiColor::Blue => Color::Named(NamedColor::Blue),
        RatatuiColor::Magenta => Color::Named(NamedColor::Magenta),
        RatatuiColor::Cyan => Color::Named(NamedColor::Cyan),
        RatatuiColor::White => Color::Named(NamedColor::BrightWhite),
        RatatuiColor::Gray => Color::Named(NamedColor::White),
        RatatuiColor::DarkGray => Color::Named(NamedColor::BrightBlack),
        RatatuiColor::LightRed => Color::Named(NamedColor::BrightRed),
        RatatuiColor::LightGreen => Color::Named(NamedColor::BrightGreen),
        RatatuiColor::LightYellow => Color::Named(NamedColor::BrightYellow),
        RatatuiColor::LightBlue => Color::Named(NamedColor::BrightBlue),
        RatatuiColor::LightMagenta => Color::Named(NamedColor::BrightMagenta),
        RatatuiColor::LightCyan => Color::Named(NamedColor::BrightCyan),
        RatatuiColor::Rgb(r, g, b) => Color::RGB(Rgb888::new(r, g, b)),
        RatatuiColor::Indexed(i) => Color::Indexed(i),
    }
}

/// `flag` where `modifier` has the bit `bit`, nothing where it has not.
pub open spec fn flag_if(modifier: u16, bit: u16, flag: u16) -> u16 {
    if modifier & bit == bit {
        flag
    } else {
        0
    }
}

/// The console's flags for a framework's modifiers: bold, dim, italic,
/// underlined, reversed, hidden and crossed out have one each; the blinks
/// have none.
pub open spec fn spec_ratatui_modifier_to_flags(modifier: u16) -> u16 {
    flag_if(modifier, MODIFIER_BOLD, Flags::BOLD) | flag_if(modifier, MODIFIER_DIM, Flags::DIM)
        | flag_if(modifier, MODIFIER_ITALIC, Flags::ITALIC) | flag_if(
        modifier,
        MODIFIER_UNDERLINED,
        Flags::UNDERLINE,
    ) | flag_if(modifier, MODIFIER_REVERSED, Flags::INVERSE) | flag_if(
        modifier,
        MODIFIER_HIDDEN,
        Flags::HIDDEN,
    ) | flag_if(modifier, MODIFIER_CROSSED_OUT, Flags::STRIKEOUT)
}

/// `flag` where `modifier` has the bit `bit`, nothing where it has not.
fn pick(modifier: u16, bit: u16, flag: u16) -> (r: u16)
    ensures
        r == flag_if(modifier, bit, flag),
{
    if modifier & bit == bit {
        flag
    } else {
        0
    }
}

/// The console's flags for the bits of a framework's modifiers.
pub fn ratatui_modifier_to_flags(modifier: u16) -> (flags: Flags)
    ensures
        flags@ == spec_ratatui_modifier_to_flags(modifier),
{
    let bits: u16 = pick(modifier, MODIFIER_BOLD, Flags::BOLD) | pick(
        modifier,
        MODIFIER_DIM,
        Flags::DIM,
    ) | pick(modifier, MODIFIER_ITALIC, Flags::ITALIC) | pick(
        modifier,
        MODIFIER_UNDERLINED,
        Flags::UNDERLINE,
    ) | pick(modifier, MODIFIER_REVERSED, Flags::INVERSE) | pick(
        modifier,
        MODIFIER_HIDDEN,
        Flags::HIDDEN,
    ) | pick(modifier, MODIFIER_CROSSED_OUT, Flags::STRIKEOUT);
    Flags { bits }
}

/// The console's cell for a framework's cell, given by the first character
/// of its symbol, its two colors and the bits of its modifiers. The cell is
/// still to be drawn.
pub fn ratatui_cell_to_cell(c: char, fg: RatatuiColor, bg: RatatuiColor, modifier: u16) -> (cell:
    Cell)
    ensures
        cell == (Cell {
            c,
            fg: spec_ratatui_color_to_color(fg, false),
            bg: spec_ratatui_color_to_color(bg, true),
            flags: Flags { bits: spec_ratatui_modifier_to_flags(modifier) },
            dirty: true,
        }),
{
    Cell {
        c,
        fg: ratatui_color_to_color(fg, false),
        bg: ratatui_color_to_color(bg, true),
        flags: ratatui_modifier_to_flags(modifier),
        dirty: true,
    }
}

/// Whether the framework's position `(x, y)`, column first, is refused: it
/// lies beyond the width or the height, each taken as a `u16`.
pub open spec fn out_of_bounds(screen: Screen, x: u16, y: u16) -> bool {
    x > (screen.cols as u16) || y > (screen.rows as u16)
}

/// The screen after the framework put `cell` at column `x` and row `y`: the
/// cell is there, the cursor is placed with `x` as its row and `y` as its
/// column, and the pen is the cell shown at that place.
pub open spec fn placed(screen: Screen, x: u16, y: u16, cell: Cell) -> Screen {
    screen.put(y as int, x as int, cell).set_cursor_position(x as int, y as int)
}

/// The screen after the framework put each of `content` in turn.
pub open spec fn placed_all(screen: Screen, content: Seq<(u16, u16, Cell)>) -> Screen
    decreases content.len(),
{
    if content.len() == 0 {
        screen
    } else {
        let last = content.last();
        placed(placed_all(screen, content.drop_last()), last.0, last.1, last.2)
    }
}

/// The screen after the framework asked for a part of it to be cleared.
pub open spec fn cleared(screen: Screen, clear_type: ClearType) -> Screen {
    match clear_type {
        ClearType::All => screen.clear_screen(ClearMode::All),
        ClearType::AfterCursor => screen.clear_screen(ClearMode::Below),
        ClearType::BeforeCursor => screen.clear_screen(ClearMode::Above),
        ClearType::CurrentLine => screen.clear_line(LineClearMode::All),
        ClearType::UntilNewLine => screen.clear_line(LineClearMode::Right),
    }
}

/// A console together with the display that it is drawn on, with the
/// operations that a text-UI framework asks of a backend.
pub struct EmbeddedTemuBackend<FD: FlushableDisplay> {
    console: Console,
    display: FD,
}

impl<FD: FlushableDisplay> EmbeddedTemuBackend<FD> {
    /// The screen of the console.
    pub closed spec fn view(&self) -> Screen {
        self.console@
    }

    /// The console is in order.
    pub closed spec fn wf(&self) -> bool {
        self.console.wf()
    }

    /// The display that the console is drawn on.
    pub closed spec fn spec_display(&self) -> FD {
        self.display
    }

    /// Create a new [`EmbeddedTemuBackend`].
    pub fn new(console: Console, display: FD) -> (r: Self)
        requires
            console.wf(),
        ensures
            r.wf(),
            r@ == console@,
            r.spec_display() == display,
    {
        EmbeddedTemuBackend { console, display }
    }

    /// The console.
    pub fn console(&self) -> (c: &Console)
        requires
            self.wf(),
        ensures
            c.wf(),
            c@ == self@,
    {
        &self.console
    }

    /// The display.
    pub fn display(&self) -> (d: &FD)
        ensures
            *d == self.spec_display(),
    {
        &self.display
    }

    /// Put one cell at column `x` and row `y`, and place the cursor.
    pub fn draw_one(&mut self, x: u16, y: u16, cell: Cell) -> (r: Result<
        (),
        BackendError<FD::Error>,
    >)
        requires
            old(self).wf(),
        ensures
            final(self).wf(),
            r.is_ok() <==> !out_of_bounds(old(self)@, x, y),
            r.is_ok() ==> final(self)@ == placed(old(self)@, x, y, cell),
            r.is_err() ==> r.unwrap_err() is CursorPositionOutOfBounds && final(self)@ == old(self)@,
    {
        let rows: usize = self.console.rows();
        let cols: usize = self.console.columns();
        let max_x: u16 = #[verifier::truncate]
        (cols as u16);
        let max_y: u16 = #[verifier::truncate]
        (rows as u16);
        if x > max_x || y > max_y {
            return Err(BackendError::CursorPositionOutOfBounds);
        }
        self.console.set_cell(y as usize, x as usize, cell);
        self.console.set_cursor_position(x as usize, y as usize);
        Ok(())
    }

    /// Put the cells of `content` in turn, each given with its column and
    /// its row. The first position out of bounds ends the drawing with an
    /// error: the cells before it are put, it and those after it are not.
    pub fn draw(&mut self, content: &Vec<(u16, u16, Cell)>) -> (r: Result<
        (),
        BackendError<FD::Error>,
    >)
        requires
            old(self).wf(),
        ensures
            final(self).wf(),
            r.is_ok() <==> forall|i: int|
                0 <= i < content@.len() ==> !out_of_bounds(
                    old(self)@,
                    (#[trigger] content@[i]).0,
                    content@[i].1,
                ),
            match r {
                Ok(_) => final(self)@ == placed_all(old(self)@, content@),
                Err(e) => e is CursorPositionOutOfBounds && exists|k: int|
                    {
                        &&& 0 <= k < content@.len()
                        &&& final(self)@ == #[trigger] placed_all(old(self)@, content@.take(k))
                        &&& out_of_bounds(old(self)@, content@[k].0, content@[k].1)
                        &&& forall|i: int|
                            0 <= i < k ==> !out_of_bounds(
                                old(self)@,
                                (#[trigger] content@[i]).0,
                                content@[i].1,
                            )
                    },
            },
    {
        let mut i: usize = 0;
        proof {
            assert(content@.take(0) =~= Seq::empty());
        }
        while i < content.len()
            invariant
                self.wf(),
                i <= content@.len(),
                self@ == placed_all(old(self)@, content@.take(i as int)),
                self@.rows == old(self)@.rows,
                self@.cols == old(self)@.cols,
                forall|j: int|
                    0 <= j < i ==> !out_of_bounds(
                        old(self)@,
                        (#[trigger] content@[j]).0,
                        content@[j].1,
                    ),
            decreases content@.len() - i,
        {
            let item = content[i];
            match self.draw_one(item.0, item.1, item.2) {
                Ok(_) => {},
                Err(_) => {
                    proof {
                        assert(out_of_bounds(old(self)@, content@[i as int].0, content@[i as int].1));
                    }
                    return Err(BackendError::CursorPositionOutOfBounds);
                },
            }
            proof {
                let next = content@.take(i as int + 1);
                assert(next.drop_last() =~= content@.take(i as int));
                assert(next.last() == content@[i as int]);
            }
            i += 1;
        }
        proof {
            assert(content@.take(content@.len() as int) =~= content@);
        }
        Ok(())
    }

    /// The cursor position as a framework counts it: column first, each
    /// taken as a `u16`.
    pub fn get_cursor_position(&self) -> (p: (u16, u16))
        requires
            self.wf(),
        ensures
            p.0 == self@.col as u16,
            p.1 == self@.row as u16,
    {
        let (row, col) = self.console.get_cursor_position();
        (#[verifier::truncate]
        (col as u16), #[verifier::truncate]
        (row as u16))
    }

    /// Place the cursor for a framework's position `(x, y)`.
    pub fn set_cursor_position(&mut self, x: u16, y: u16) -> (r: Result<
        (),
        BackendError<FD::Error>,
    >)
        requires
            old(self).wf(),
        ensures
            final(self).wf(),
            r.is_ok() <==> !out_of_bounds(old(self)@, x, y),
            r.is_ok() ==> final(self)@ == old(self)@.set_cursor_position(x as int, y as int),
            r.is_err() ==> r.unwrap_err() is CursorPositionOutOfBounds && final(self)@ == old(self)@,
    {
        let rows: usize = self.console.rows();
        let cols: usize = self.console.columns();
        let max_x: u16 = #[verifier::truncate]
        (cols as u16);
        let max_y: u16 = #[verifier::truncate]
        (rows as u16);
        if x > max_x || y > max_y {
            return Err(BackendError::CursorPositionOutOfBounds);
        }
        self.console.set_cursor_position(x as usize, y as usize);
        Ok(())
    }

    /// Clear the whole screen.
    pub fn clear(&mut self)
        requires
            old(self).wf(),
        ensures
            final(self).wf(),
            final(self)@ == old(self)@.clear_screen(ClearMode::All),
    {
        self.console.clear_screen(ClearMode::All);
    }

    /// Clear a part of the screen.
    pub fn clear_region(&mut self, clear_type: ClearType)
        requires
            old(self).wf(),
        ensures
            final(self).wf(),
            final(self)@ == cleared(old(self)@, clear_type),
    {
        match clear_type {
            ClearType::All => self.console.clear_screen(ClearMode::All),
            ClearType::AfterCursor => self.console.clear_screen(ClearMode::Below),
            ClearType::BeforeCursor => self.console.clear_screen(ClearMode::Above),
            ClearType::CurrentLine => self.console.clear_line(LineClearMode::All),
            ClearType::UntilNewLine => self.console.clear_line(LineClearMode::Right),
        }
    }

    /// The size of the screen in characters: columns first, each taken as a
    /// `u16`.
    pub fn size(&self) -> (s: (u16, u16))
        requires
            self.wf(),
        ensures
            s.0 == self@.cols as u16,
            s.1 == self@.rows as u16,
    {
        (#[verifier::truncate]
        (self.console.columns() as u16), #[verifier::truncate]
        (self.console.rows() as u16))
    }

    /// Draw what has changed, then flush the display.
    ///
    /// An error of the display is handed on. Where drawing failed, the cells
    /// before the failing one are drawn; where flushing failed, all are.
    pub fn flush(&mut self) -> (r: Result<(), BackendError<FD::Error>>)
        requires
            old(self).wf(),
        ensures
            final(self).wf(),
            r.is_ok() ==> final(self)@ == old(self)@.drawn(),
            r.is_err() ==> r.unwrap_err() is FlushError && (final(self)@ == old(self)@.drawn()
                || exists|row: int, col: int|
                {
                    &&& old(self)@.has(row, col)
                    &&& old(self)@.cells[row][col].dirty
                    &&& final(self)@ == #[trigger] old(self)@.drawn_before(row, col)
                }),
    {
        match self.console.draw(&mut self.display) {
            Ok(_) => {},
            Err(e) => {
                return Err(BackendError::FlushError(e));
            },
        }
        match self.display.flush() {
            Ok(_) => Ok(()),
            Err(e) => Err(BackendError::FlushError(e)),
        }
    }
}

} // verus!
