//! The vocabulary of terminal control: graphic-rendition attributes, modes
//! and the ways of clearing a line or the screen.

use crate::color::Color;
use vstd::prelude::*;

verus! {

/// Mode for clearing a line. Relative to the cursor.
#[derive(Debug, Copy, Clone, PartialEq, Eq, Structural)]
pub enum LineClearMode {
    /// Clear right of the cursor, the cursor's column included.
    Right,
    /// Clear left of the cursor, the cursor's column included.
    Left,
    /// Clear the entire line.
    All,
}

/// Mode for clearing the terminal. Relative to the cursor.
#[derive(Debug, Copy, Clone, PartialEq, Eq, Structural)]
pub enum ClearMode {
    /// Clear from the cursor to the end of the screen.
    Below,
    /// Clear from the start of the screen up to the cursor.
    Above,
    /// Clear the entire terminal.
    All,
    /// Clear the saved lines. The terminal keeps none: nothing is cleared.
    Saved,
}

/// Terminal modes that a control sequence can set or unset.
#[derive(Debug, Copy, Clone, PartialEq, Eq, Structural)]
pub enum Mode {
    /// ?1
    CursorKeys,
    /// ?3
    ColumnMode,
    /// 4
    Insert,
    /// ?6
    Origin,
    /// ?7
    LineWrap,
    /// ?12
    BlinkingCursor,
    /// 20
    LineFeedNewLine,
    /// ?25
    ShowCursor,
    /// ?1000
    ReportMouseClicks,
    /// ?1002
    ReportCellMouseMotion,
    /// ?1003
    ReportAllMouseMotion,
    /// ?1004
    ReportFocusInOut,
    /// ?1005
    Utf8Mouse,
    /// ?1006
    SgrMouse,
    /// ?1007
    AlternateScroll,
    /// ?1049
    SwapScreenAndSetRestoreCursor,
    /// ?2004
    BracketedPaste,
}

impl Mode {
    /// The mode that a number names, among the private modes (those written
    /// with `?`) or among the others.
    pub open spec fn spec_from_primitive(private: bool, num: u16) -> Option<Mode> {
        if private {
            if num == 1 {
                Some(Mode::CursorKeys)
            } else if num == 3 {
                Some(Mode::ColumnMode)
            } else if num == 6 {
                Some(Mode::Origin)
            } else if num == 7 {
                Some(Mode::LineWrap)
            } else if num == 12 {
                Some(Mode::BlinkingCursor)
            } else if num == 25 {
                Some(Mode::ShowCursor)
            } else if num == 1000 {
                Some(Mode::ReportMouseClicks)
            } else if num == 1002 {
                Some(Mode::ReportCellMouseMotion)
            } else if num == 1003 {
                Some(Mode::ReportAllMouseMotion)
            } else if num == 1004 {
                Some(Mode::ReportFocusInOut)
            } else if num == 1005 {
                Some(Mode::Utf8Mouse)
            } else if num == 1006 {
                Some(Mode::SgrMouse)
            } else if num == 1007 {
                Some(Mode::AlternateScroll)
            } else if num == 1049 {
                Some(Mode::SwapScreenAndSetRestoreCursor)
            } else if num == 2004 {
                Some(Mode::BracketedPaste)
            } else {
                None
            }
        } else {
            if num == 4 {
                Some(Mode::Insert)
            } else if num == 20 {
                Some(Mode::LineFeedNewLine)
            } else {
                None
            }
        }
    }

    /// The mode that a number names, `None` where it names none.
    #[verifier::when_used_as_spec(spec_from_primitive)]
    pub fn from_primitive(private: bool, num: u16) -> (r: Option<Mode>)
        ensures
            r == Mode::spec_from_primitive(private, num),
    {
        if private {
            match num {
                1 => Some(Mode::CursorKeys),
                3 => Some(Mode::ColumnMode),
                6 => Some(Mode::Origin),
                7 => Some(Mode::LineWrap),
                12 => Some(Mode::BlinkingCursor),
                25 => Some(Mode::ShowCursor),
                1000 => Some(Mode::ReportMouseClicks),
                1002 => Some(Mode::ReportCellMouseMotion),
                1003 => Some(Mode::ReportAllMouseMotion),
                1004 => Some(Mode::ReportFocusInOut),
                1005 => Some(Mode::Utf8Mouse),
                1006 => Some(Mode::SgrMouse),
                1007 => Some(Mode::AlternateScroll),
                1049 => Some(Mode::SwapScreenAndSetRestoreCursor),
                2004 => Some(Mode::BracketedPaste),
                _ => None,
            }
        } else {
            match num {
                4 => Some(Mode::Insert),
                20 => Some(Mode::LineFeedNewLine),
                _ => None,
            }
        }
    }
}

/// Display attributes that a select-graphic-rendition sequence gives.
#[derive(Debug, Copy, Clone, PartialEq, Eq, Structural)]
pub enum Attr {
    /// Clear all special abilities.
    Reset,
    /// Bold text.
    Bold,
    /// Dim or secondary color.
    Dim,
    /// Italic text.
    Italic,
    /// Underline text.
    Underline,
    /// Blink cursor slowly.
    BlinkSlow,
    /// Blink cursor fast.
    BlinkFast,
    /// Invert colors.
    Reverse,
    /// Do not display characters.
    Hidden,
    /// Strikeout text.
    Strike,
    /// Cancel bold.
    CancelBold,
    /// Cancel bold and dim.
    CancelBoldDim,
    /// Cancel italic.
    CancelItalic,
    /// Cancel underline.
    CancelUnderline,
    /// Cancel blink.
    CancelBlink,
    /// Cancel inversion.
    CancelReverse,
    /// Cancel text hiding.
    CancelHidden,
    /// Cancel strikeout.
    CancelStrike,
    /// Set the foreground color.
    Foreground(Color),
    /// Set the background color.
    Background(Color),
}

/// One operation of the terminal, as a control sequence or a typed
/// character asks for it.
#[derive(Debug, Copy, Clone, PartialEq, Eq, Structural)]
pub enum Command {
    /// Type a character.
    Input(char),
    /// Move the cursor to a row and a column.
    Goto(usize, usize),
    /// Move the cursor to a row.
    GotoLine(usize),
    /// Move the cursor to a column.
    GotoCol(usize),
    /// Move the cursor up by a number of rows.
    MoveUp(usize),
    /// Move the cursor down by a number of rows.
    MoveDown(usize),
    /// Move the cursor right by a number of columns.
    MoveForward(usize),
    /// Move the cursor left by a number of columns.
    MoveBackward(usize),
    /// Move the cursor down and to the first column.
    MoveDownAndCr(usize),
    /// Move the cursor up and to the first column.
    MoveUpAndCr(usize),
    /// Put a number of tabs.
    PutTab(u16),
    /// Move the cursor one column back.
    Backspace,
    /// Move the cursor to the first column.
    CarriageReturn,
    /// Move the cursor to the next line.
    Linefeed,
    /// Scroll the text up.
    ScrollUp(usize),
    /// Scroll the text down.
    ScrollDown(usize),
    /// Erase a number of characters.
    EraseChars(usize),
    /// Delete a number of characters.
    DeleteChars(usize),
    /// Save the cursor position.
    SaveCursorPosition,
    /// Restore the cursor position.
    RestoreCursorPosition,
    /// Clear a part of the cursor's line.
    ClearLine(LineClearMode),
    /// Clear a part of the screen.
    ClearScreen(ClearMode),
    /// Change the pen.
    TerminalAttribute(Attr),
    /// Set a mode.
    SetMode(Mode),
    /// Unset a mode.
    UnsetMode(Mode),
    /// Set the scrolling region, from a top row to a bottom row.
    SetScrollingRegion(usize, Option<usize>),
    /// Ask for a device status report.
    DeviceStatus(usize),
}

} // verus!
