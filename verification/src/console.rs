//! The console: the terminal's state and the operations that control
//! sequences and typed characters perform on it.

use crate::ansi::{Attr, ClearMode, Command, LineClearMode, Mode};
use crate::cell::{Cell, Flags};
use crate::decode::{
    advance, events_commands, new_parser, reported, tokenizer_state, Performer,
};
use crate::screen::{before, cursor_report, decimal, ok_report, tab_target, Screen};
use crate::style::DrawCell;
use crate::text_buffer::TextBuffer;
use std::collections::VecDeque;
use vstd::string::StringSliceAdditionalSpecFns;
use vstd::prelude::*;

verus! {

/// A position on the screen, counted from the top left.
#[derive(Debug, Default, Clone, Copy)]
pub struct Cursor {
    pub row: usize,
    pub col: usize,
}

/// The primary interface to the terminal emulator.
///
/// A console holds the grid of cells, the cursor and the saved cursor, the
/// pen, the wrap mode and the replies that wait to be read. Its view is the
/// [`Screen`] that it stands for; every operation says which screen follows.
pub struct Console {
    /// The tokenizer that cuts the bytes written to the console into
    /// characters and control sequences.
    parser: vte::Parser,
    /// The cursor.
    cursor: Cursor,
    /// The saved cursor.
    saved_cursor: Cursor,
    /// The pen: the attribute template of what is written next.
    temp: Cell,
    /// The cells.
    buf: TextBuffer,
    /// Whether writing past the last column goes on in the next line.
    auto_wrap: bool,
    /// The replies to device status requests, not yet read.
    report: VecDeque<u8>,
}

/// Why a console cannot be made.
#[derive(Debug, Copy, Clone, PartialEq, Eq, Structural)]
pub enum SizeError {
    /// The width or the height is 0.
    Empty,
    /// The number of cells is more than the machine can count.
    TooLarge,
}

/// Appends the decimal digits of `n` to the queue.
fn push_decimal(queue: &mut VecDeque<u8>, n: u128)
    ensures
        final(queue)@ == old(queue)@ + decimal(n as nat),
    decreases n,
{
    if n >= 10 {
        push_decimal(queue, n / 10);
    }
    let digit: u8 = (n % 10) as u8;
    queue.push_back(48 + digit);
    proof {
        assert(queue@ =~= old(queue)@ + decimal(n as nat));
    }
}

impl Console {
    /// The screen that the console stands for.
    pub closed spec fn view(&self) -> Screen {
        Screen {
            rows: self.buf.spec_height() as int,
            cols: self.buf.spec_width() as int,
            row: self.cursor.row as int,
            col: self.cursor.col as int,
            saved_row: self.saved_cursor.row as int,
            saved_col: self.saved_cursor.col as int,
            pen: self.temp,
            auto_wrap: self.auto_wrap,
            report: self.report@,
            tokenizer: tokenizer_state(self.parser),
            cells: self.buf@,
        }
    }

    /// The store behind the screen is in order.
    pub closed spec fn store_ok(&self) -> bool {
        self.buf.wf()
    }

    /// The console is in order: its store is, and so is its screen.
    pub open spec fn wf(&self) -> bool {
        self.store_ok() && self@.wf()
    }

    /// Create a new console with a given width and height in characters.
    ///
    /// A width or height of 0 is reported as [`SizeError::Empty`], and a
    /// number of cells that is no `usize` as [`SizeError::TooLarge`]; every
    /// other size gives a blank console.
    pub fn new(width: usize, height: usize) -> (r: Result<Console, SizeError>)
        ensures
            match r {
                Ok(console) => {
                    &&& TextBuffer::valid_size(width, height)
                    &&& console.wf()
                    &&& console@ == Screen::blank(height as int, width as int)
                },
                Err(SizeError::Empty) => width == 0 || height == 0,
                Err(SizeError::TooLarge) => width > 0 && height > 0 && width * height
                    > usize::MAX,
            },
    {
        if width == 0 || height == 0 {
            return Err(SizeError::Empty);
        }
        if width.checked_mul(height).is_none() {
            return Err(SizeError::TooLarge);
        }
        let console = Console {
            parser: new_parser(),
            cursor: Cursor { row: 0, col: 0 },
            saved_cursor: Cursor { row: 0, col: 0 },
            temp: Cell::default(),
            buf: TextBuffer::new(width, height),
            auto_wrap: true,
            report: VecDeque::new(),
        };
        proof {
            assert(console@.cells =~~= Screen::blank(height as int, width as int).cells);
        }
        Ok(console)
    }

    /// Write a single `byte` to the console.
    ///
    /// The byte goes to the tokenizer. Where it completes a character or a
    /// control sequence, the operations that this stands for are performed;
    /// which these are depends on the bytes written before. A byte that
    /// completes nothing, or something that this terminal does not know,
    /// leaves the screen as it is, but for the state of the tokenizer.
    pub fn write_byte(&mut self, byte: u8)
        requires
            old(self).wf(),
        ensures
            final(self).wf(),
            final(self)@ == old(self)@.write_byte(byte),
    {
        let mut performer = Performer::new();
        advance(&mut self.parser, &mut performer, byte);
        proof {
            assert(performer.commands@ =~= events_commands(reported(old(self)@.tokenizer, byte)));
        }
        self.perform_all(&performer.commands);
    }

    /// Write the bytes of `text` to the console, one after the other.
    pub fn write_bytes(&mut self, text: &[u8])
        requires
            old(self).wf(),
        ensures
            final(self).wf(),
            final(self)@ == old(self)@.write_all(text@),
    {
        let mut i: usize = 0;
        proof {
            assert(text@.take(0) =~= Seq::empty());
        }
        while i < text.len()
            invariant
                self.wf(),
                i <= text@.len(),
                self@ == old(self)@.write_all(text@.take(i as int)),
            decreases text@.len() - i,
        {
            self.write_byte(text[i]);
            proof {
                let next = text@.take(i as int + 1);
                assert(next.drop_last() =~= text@.take(i as int));
                assert(next.last() == text@[i as int]);
            }
            i += 1;
        }
        proof {
            assert(text@.take(text@.len() as int) =~= text@);
        }
    }

    /// Write the text to the console: its bytes, one after the other.
    pub fn write_str(&mut self, text: &str)
        requires
            old(self).wf(),
        ensures
            final(self).wf(),
            final(self)@ == old(self)@.write_all(text.spec_bytes()),
    {
        self.write_bytes(text.as_bytes());
    }

    /// Read the next byte of the replies to device status requests, oldest
    /// first.
    pub fn pop_report(&mut self) -> (r: Option<u8>)
        requires
            old(self).wf(),
        ensures
            final(self).wf(),
            old(self)@.report.len() == 0 ==> r.is_none() && final(self)@ == old(self)@,
            old(self)@.report.len() > 0 ==> r == Some(old(self)@.report[0]) && final(self)@ == (
            Screen { report: old(self)@.report.drop_first(), ..old(self)@ }),
    {
        let r = self.report.pop_front();
        proof {
            if old(self)@.report.len() > 0 {
                assert(self.report@ =~= old(self)@.report.drop_first());
            } else {
                assert(self.report@ =~= old(self)@.report);
            }
        }
        r
    }

    /// Number of rows.
    pub fn rows(&self) -> (n: usize)
        requires
            self.wf(),
        ensures
            n == self@.rows,
    {
        self.buf.height()
    }

    /// Number of columns.
    pub fn columns(&self) -> (n: usize)
        requires
            self.wf(),
        ensures
            n == self@.cols,
    {
        self.buf.width()
    }

    /// Get the current cursor position, row first.
    pub fn get_cursor_position(&self) -> (p: (usize, usize))
        requires
            self.wf(),
        ensures
            p.0 == self@.row,
            p.1 == self@.col,
    {
        (self.cursor.row, self.cursor.col)
    }

    /// Get the saved cursor position, row first.
    pub fn get_saved_cursor_position(&self) -> (p: (usize, usize))
        requires
            self.wf(),
        ensures
            p.0 == self@.saved_row,
            p.1 == self@.saved_col,
    {
        (self.saved_cursor.row, self.saved_cursor.col)
    }

    /// The pen: the colors and flags of what is written next.
    pub fn pen(&self) -> (p: Cell)
        requires
            self.wf(),
        ensures
            p == self@.pen,
    {
        self.temp
    }

    /// Whether a character written past the last column goes to the next
    /// line.
    pub fn auto_wrap(&self) -> (b: bool)
        requires
            self.wf(),
        ensures
            b == self@.auto_wrap,
    {
        self.auto_wrap
    }

    /// The cell shown at `(row, col)`; the default cell outside the screen.
    pub fn cell(&self, row: usize, col: usize) -> (cell: Cell)
        requires
            self.wf(),
        ensures
            cell == self@.cell(row as int, col as int),
    {
        self.buf.read(row, col)
    }

    /// Move the cursor to `(row, col)`, or as near as the screen allows.
    pub fn goto(&mut self, row: usize, col: usize)
        requires
            old(self).wf(),
        ensures
            final(self).wf(),
            final(self)@ == old(self)@.goto(row as int, col as int),
    {
        let height: usize = self.buf.height();
        let width: usize = self.buf.width();
        self.cursor.row = if row < height {
            row
        } else {
            height - 1
        };
        self.cursor.col = if col < width {
            col
        } else {
            width
        };
    }

    /// Move the cursor to another row.
    pub fn goto_line(&mut self, row: usize)
        requires
            old(self).wf(),
        ensures
            final(self).wf(),
            final(self)@ == old(self)@.goto_line(row as int),
    {
        let col: usize = self.cursor.col;
        self.goto(row, col)
    }

    /// Move the cursor to another column.
    pub fn goto_col(&mut self, col: usize)
        requires
            old(self).wf(),
        ensures
            final(self).wf(),
            final(self)@ == old(self)@.goto_col(col as int),
    {
        let row: usize = self.cursor.row;
        self.goto(row, col)
    }

    /// Move the cursor up.
    pub fn move_up(&mut self, rows: usize)
        requires
            old(self).wf(),
        ensures
            final(self).wf(),
            final(self)@ == old(self)@.move_up(rows as int),
    {
        self.cursor.row = self.cursor.row.saturating_sub(rows);
    }

    /// Move the cursor down.
    pub fn move_down(&mut self, rows: usize)
        requires
            old(self).wf(),
        ensures
            final(self).wf(),
            final(self)@ == old(self)@.move_down(rows as int),
    {
        let last: usize = self.buf.height() - 1;
        let room: usize = last - self.cursor.row;
        self.cursor.row = if rows >= room {
            last
        } else {
            self.cursor.row + rows
        };
    }

    /// Move the cursor forward.
    pub fn move_forward(&mut self, cols: usize)
        requires
            old(self).wf(),
        ensures
            final(self).wf(),
            final(self)@ == old(self)@.move_forward(cols as int),
    {
        let last: usize = self.buf.width() - 1;
        self.cursor.col = if self.cursor.col >= last || cols >= last - self.cursor.col {
            last
        } else {
            self.cursor.col + cols
        };
    }

    /// Move the cursor backward.
    pub fn move_backward(&mut self, cols: usize)
        requires
            old(self).wf(),
        ensures
            final(self).wf(),
            final(self)@ == old(self)@.move_backward(cols as int),
    {
        self.cursor.col = self.cursor.col.saturating_sub(cols);
    }

    /// Move the cursor down and to the first column.
    pub fn move_down_and_cr(&mut self, rows: usize)
        requires
            old(self).wf(),
        ensures
            final(self).wf(),
            final(self)@ == old(self)@.move_down_and_cr(rows as int),
    {
        self.move_down(rows);
        self.cursor.col = 0;
    }

    /// Move the cursor up and to the first column.
    pub fn move_up_and_cr(&mut self, rows: usize)
        requires
            old(self).wf(),
        ensures
            final(self).wf(),
            final(self)@ == old(self)@.move_up_and_cr(rows as int),
    {
        self.move_up(rows);
        self.cursor.col = 0;
    }

    /// Move the cursor one column back. It stays in its row.
    pub fn backspace(&mut self)
        requires
            old(self).wf(),
        ensures
            final(self).wf(),
            final(self)@ == old(self)@.backspace(),
    {
        if self.cursor.col > 0 {
            self.cursor.col -= 1;
        }
    }

    /// Move the cursor to the first column.
    pub fn carriage_return(&mut self)
        requires
            old(self).wf(),
        ensures
            final(self).wf(),
            final(self)@ == old(self)@.carriage_return(),
    {
        self.cursor.col = 0;
    }

    /// Save the current cursor position.
    pub fn save_cursor_position(&mut self)
        requires
            old(self).wf(),
        ensures
            final(self).wf(),
            final(self)@ == old(self)@.save_cursor_position(),
    {
        self.saved_cursor = self.cursor;
    }

    /// Restore the cursor position.
    pub fn restore_cursor_position(&mut self)
        requires
            old(self).wf(),
        ensures
            final(self).wf(),
            final(self)@ == old(self)@.restore_cursor_position(),
    {
        self.cursor = self.saved_cursor;
    }

    /// Scroll the text up. Not done by this terminal: nothing changes.
    pub fn scroll_up(&mut self, rows: usize)
        requires
            old(self).wf(),
        ensures
            final(self).wf(),
            final(self)@ == old(self)@,
    {
    }

    /// Scroll the text down. Not done by this terminal: nothing changes.
    pub fn scroll_down(&mut self, rows: usize)
        requires
            old(self).wf(),
        ensures
            final(self).wf(),
            final(self)@ == old(self)@,
    {
    }

    /// Set the scrolling region. Not done by this terminal: nothing changes.
    pub fn set_scrolling_region(&mut self, top: usize, bottom: Option<usize>)
        requires
            old(self).wf(),
        ensures
            final(self).wf(),
            final(self)@ == old(self)@,
    {
    }

    /// Set a mode. Only the line wrap is a mode of this terminal.
    pub fn set_mode(&mut self, mode: Mode)
        requires
            old(self).wf(),
        ensures
            final(self).wf(),
            final(self)@ == old(self)@.set_mode(mode),
    {
        if mode == Mode::LineWrap {
            self.auto_wrap = true;
        }
    }

    /// Unset a mode. Only the line wrap is a mode of this terminal.
    pub fn unset_mode(&mut self, mode: Mode)
        requires
            old(self).wf(),
        ensures
            final(self).wf(),
            final(self)@ == old(self)@.unset_mode(mode),
    {
        if mode == Mode::LineWrap {
            self.auto_wrap = false;
        }
    }

    /// Change the pen by a graphic-rendition attribute. The blink
    /// attributes are not known to this terminal and change nothing.
    pub fn terminal_attribute(&mut self, attr: Attr)
        requires
            old(self).wf(),
        ensures
            final(self).wf(),
            final(self)@ == old(self)@.terminal_attribute(attr),
    {
        match attr {
            Attr::Foreground(color) => self.temp.fg = color,
            Attr::Background(color) => self.temp.bg = color,
            Attr::Reset => self.temp = Cell::default(),
            Attr::Reverse => self.temp.flags.insert(Flags::INVERSE),
            Attr::CancelReverse => self.temp.flags.remove(Flags::INVERSE),
            Attr::Bold => self.temp.flags.insert(Flags::BOLD),
            Attr::CancelBold => self.temp.flags.remove(Flags::BOLD),
            Attr::Dim => self.temp.flags.insert(Flags::DIM),
            Attr::CancelBoldDim => self.temp.flags.remove(Flags::BOLD | Flags::DIM),
            Attr::Italic => self.temp.flags.insert(Flags::ITALIC),
            Attr::CancelItalic => self.temp.flags.remove(Flags::ITALIC),
            Attr::Underline => self.temp.flags.insert(Flags::UNDERLINE),
            Attr::CancelUnderline => self.temp.flags.remove(Flags::UNDERLINE),
            Attr::Hidden => self.temp.flags.insert(Flags::HIDDEN),
            Attr::CancelHidden => self.temp.flags.remove(Flags::HIDDEN),
            Attr::Strike => self.temp.flags.insert(Flags::STRIKEOUT),
            Attr::CancelStrike => self.temp.flags.remove(Flags::STRIKEOUT),
            Attr::BlinkSlow | Attr::BlinkFast | Attr::CancelBlink => {},
        }
    }

    /// Answer a device status request: 5 asks whether the terminal is well,
    /// 6 where the cursor is. The reply waits to be read by
    /// [`Console::pop_report`]. Other requests get none.
    pub fn device_status(&mut self, arg: usize)
        requires
            old(self).wf(),
        ensures
            final(self).wf(),
            final(self)@ == old(self)@.device_status(arg as int),
    {
        if arg == 5 {
            self.report.push_back(0x1b);
            self.report.push_back(0x5b);
            self.report.push_back(0x30);
            self.report.push_back(0x6e);
            proof {
                assert(self.report@ =~= old(self)@.report + ok_report());
            }
        } else if arg == 6 {
            let row: u128 = self.cursor.row as u128 + 1;
            let col: u128 = self.cursor.col as u128 + 1;
            self.report.push_back(0x1b);
            self.report.push_back(0x5b);
            push_decimal(&mut self.report, row);
            self.report.push_back(0x3b);
            push_decimal(&mut self.report, col);
            self.report.push_back(0x52);
            proof {
                assert(self.report@ =~= old(self)@.report + cursor_report(
                    old(self)@.row,
                    old(self)@.col,
                ));
            }
        }
    }

    /// Move the cursor to the start of the next line. On the last row the
    /// screen scrolls up by a line instead.
    pub fn linefeed(&mut self)
        requires
            old(self).wf(),
        ensures
            final(self).wf(),
            final(self)@ == old(self)@.linefeed(),
    {
        self.cursor.col = 0;
        if self.cursor.row < self.buf.height() - 1 {
            self.cursor.row += 1;
        } else {
            let bg = self.temp.just_bg();
            self.buf.new_line(bg);
            proof {
                assert(self@.cells =~~= old(self)@.linefeed().cells);
            }
        }
    }

    /// Type a character: it is written at the cursor in the pen's colors and
    /// flags, and the cursor moves right. Past the last column the character
    /// goes to the next line, or is dropped where wrapping is off.
    pub fn input(&mut self, c: char)
        requires
            old(self).wf(),
        ensures
            final(self).wf(),
            final(self)@ == old(self)@.input(c),
    {
        if self.cursor.col >= self.buf.width() {
            if !self.auto_wrap {
                return ;
            }
            self.linefeed();
        }
        let stamp = Cell {
            c,
            fg: self.temp.fg,
            bg: self.temp.bg,
            flags: self.temp.flags,
            dirty: true,
        };
        self.buf.write(self.cursor.row, self.cursor.col, stamp);
        self.cursor.col += 1;
        proof {
            assert(self@.cells =~~= old(self)@.input(c).cells);
        }
    }

    /// Put `count` tabs: the cells from the cursor up to the tab stop are
    /// blanked, and the cursor moves there.
    pub fn put_tab(&mut self, count: u16)
        requires
            old(self).wf(),
        ensures
            final(self).wf(),
            final(self)@ == old(self)@.put_tab(count as int),
    {
        let width: usize = self.buf.width();
        let col: usize = self.cursor.col;
        if col >= width || count == 0 {
            proof {
                assert(self@.cells =~~= old(self)@.put_tab(count as int).cells);
            }
            return ;
        }
        let stops: usize = col / 8 + count as usize;
        let target: usize = if stops > width / 8 {
            width
        } else {
            stops * 8
        };
        assert(target == tab_target(col as int, count as int, width as int));
        let bg = self.temp.just_bg();
        self.buf.fill_span(self.cursor.row, col, target, bg);
        self.cursor.col = target;
        proof {
            assert(self@.cells =~~= old(self)@.put_tab(count as int).cells);
        }
    }

    /// Erase `count` characters from the cursor on. The cursor stays.
    pub fn erase_chars(&mut self, count: usize)
        requires
            old(self).wf(),
        ensures
            final(self).wf(),
            final(self)@ == old(self)@.erase_chars(count as int),
    {
        let start: usize = self.cursor.col;
        let end: usize = start.saturating_add(count);
        let bg = self.temp.just_bg();
        self.buf.fill_span(self.cursor.row, start, end, bg);
        proof {
            assert(self@.cells =~~= old(self)@.erase_chars(count as int).cells);
        }
    }

    /// Delete `count` characters at the cursor: the rest of the line moves
    /// left, and blanks follow it. Where nothing can be shifted, nothing
    /// changes.
    pub fn delete_chars(&mut self, count: usize)
        requires
            old(self).wf(),
        ensures
            final(self).wf(),
            final(self)@ == old(self)@.delete_chars(count as int),
    {
        let columns: usize = self.buf.width();
        let row: usize = self.cursor.row;
        let start: usize = self.cursor.col;
        let room: usize = if columns - start <= 1 {
            0
        } else {
            columns - start - 1
        };
        let n: usize = if count < room {
            count
        } else {
            room
        };
        assert(n == old(self)@.delete_shift(count as int));
        if n == 0 {
            return ;
        }
        let bg = self.temp.just_bg();
        let mut i: usize = start;
        while i < columns
            invariant
                self.wf(),
                self@.rows == old(self)@.rows,
                self@.cols == old(self)@.cols,
                self@.cols == columns,
                self@.row == old(self)@.row,
                self@.col == old(self)@.col,
                self@.saved_row == old(self)@.saved_row,
                self@.saved_col == old(self)@.saved_col,
                self@.pen == old(self)@.pen,
                self@.auto_wrap == old(self)@.auto_wrap,
                self@.report == old(self)@.report,
                self@.tokenizer == old(self)@.tokenizer,
                row == old(self)@.row,
                start == old(self)@.col,
                bg == old(self)@.blank_cell(),
                n == old(self)@.delete_shift(count as int),
                n > 0,
                start <= i,
                i <= columns || i == start,
                forall|r: int, c: int|
                    old(self)@.has(r, c) ==> #[trigger] self@.cells[r][c] == if r == row && c < i {
                        old(self)@.delete_chars(count as int).cells[r][c]
                    } else {
                        old(self)@.cells[r][c]
                    },
            decreases columns - i,
        {
            let ghost prev = self@;
            if i < columns - n {
                let moved = self.buf.read(row, i + n);
                assert(moved == prev.cells[row as int][i + n]);
                self.buf.write(
                    row,
                    i,
                    Cell { c: moved.c, fg: moved.fg, bg: moved.bg, flags: moved.flags, dirty: true },
                );
            } else {
                self.buf.write(row, i, bg);
            }
            assert forall|r: int, c: int| old(self)@.has(r, c) implies #[trigger] self@.cells[r][c]
                == if r == row && c < i + 1 {
                old(self)@.delete_chars(count as int).cells[r][c]
            } else {
                old(self)@.cells[r][c]
            } by {
                if !(r == row && c == i) {
                    assert(self@.cells[r][c] == prev.cells[r][c]);
                }
            }
            i += 1;
        }
        proof {
            assert(self@.cells =~~= old(self)@.delete_chars(count as int).cells);
        }
    }

    /// Clear a part of the cursor's line.
    pub fn clear_line(&mut self, mode: LineClearMode)
        requires
            old(self).wf(),
        ensures
            final(self).wf(),
            final(self)@ == old(self)@.clear_line(mode),
    {
        let bg = self.temp.just_bg();
        let row: usize = self.cursor.row;
        let col: usize = self.cursor.col;
        let width: usize = self.buf.width();
        match mode {
            LineClearMode::Right => {
                self.buf.fill_span(row, col, width, bg);
            },
            LineClearMode::Left => {
                self.buf.fill_span(row, 0, col.saturating_add(1), bg);
            },
            LineClearMode::All => {
                self.buf.fill_span(row, 0, width, bg);
            },
        }
        proof {
            assert(self@.cells =~~= old(self)@.clear_line(mode).cells);
        }
    }

    /// Clear a part of the screen, or all of it.
    pub fn clear_screen(&mut self, mode: ClearMode)
        requires
            old(self).wf(),
        ensures
            final(self).wf(),
            final(self)@ == old(self)@.clear_screen(mode),
    {
        let bg = self.temp.just_bg();
        let row: usize = self.cursor.row;
        let col: usize = self.cursor.col;
        let width: usize = self.buf.width();
        let height: usize = self.buf.height();
        match mode {
            ClearMode::Above => {
                self.buf.fill_rows(0, row, bg);
                self.buf.fill_span(row, 0, col, bg);
            },
            ClearMode::Below => {
                self.buf.fill_span(row, col, width, bg);
                self.buf.fill_rows(row + 1, height, bg);
            },
            ClearMode::All => {
                self.buf.clear(bg);
                self.cursor = Cursor { row: 0, col: 0 };
            },
            ClearMode::Saved => {},
        }
        proof {
            assert(self@.cells =~~= old(self)@.clear_screen(mode).cells);
        }
    }

    /// Perform one operation.
    pub fn perform(&mut self, command: Command)
        requires
            old(self).wf(),
        ensures
            final(self).wf(),
            final(self)@ == old(self)@.perform(command),
    {
        match command {
            Command::Input(c) => self.input(c),
            Command::Goto(row, col) => self.goto(row, col),
            Command::GotoLine(row) => self.goto_line(row),
            Command::GotoCol(col) => self.goto_col(col),
            Command::MoveUp(rows) => self.move_up(rows),
            Command::MoveDown(rows) => self.move_down(rows),
            Command::MoveForward(cols) => self.move_forward(cols),
            Command::MoveBackward(cols) => self.move_backward(cols),
            Command::MoveDownAndCr(rows) => self.move_down_and_cr(rows),
            Command::MoveUpAndCr(rows) => self.move_up_and_cr(rows),
            Command::PutTab(count) => self.put_tab(count),
            Command::Backspace => self.backspace(),
            Command::CarriageReturn => self.carriage_return(),
            Command::Linefeed => self.linefeed(),
            Command::ScrollUp(rows) => self.scroll_up(rows),
            Command::ScrollDown(rows) => self.scroll_down(rows),
            Command::EraseChars(count) => self.erase_chars(count),
            Command::DeleteChars(count) => self.delete_chars(count),
            Command::SaveCursorPosition => self.save_cursor_position(),
            Command::RestoreCursorPosition => self.restore_cursor_position(),
            Command::ClearLine(mode) => self.clear_line(mode),
            Command::ClearScreen(mode) => self.clear_screen(mode),
            Command::TerminalAttribute(attr) => self.terminal_attribute(attr),
            Command::SetMode(mode) => self.set_mode(mode),
            Command::UnsetMode(mode) => self.unset_mode(mode),
            Command::SetScrollingRegion(top, bottom) => self.set_scrolling_region(top, bottom),
            Command::DeviceStatus(arg) => self.device_status(arg),
        }
    }

    /// Perform the operations of `commands`, one after the other.
    pub fn perform_all(&mut self, commands: &Vec<Command>)
        requires
            old(self).wf(),
        ensures
            final(self).wf(),
            final(self)@ == old(self)@.perform_all(commands@),
    {
        let mut i: usize = 0;
        proof {
            assert(commands@.take(0) =~= Seq::empty());
        }
        while i < commands.len()
            invariant
                self.wf(),
                i <= commands@.len(),
                self@ == old(self)@.perform_all(commands@.take(i as int)),
            decreases commands@.len() - i,
        {
            self.perform(commands[i]);
            proof {
                let next = commands@.take(i as int + 1);
                assert(next.drop_last() =~= commands@.take(i as int));
                assert(next.last() == commands@[i as int]);
            }
            i += 1;
        }
        proof {
            assert(commands@.take(commands@.len() as int) =~= commands@);
        }
    }

    /// Place the cursor at `(row, col)`, or as near as the screen allows,
    /// and take the cell shown at `(row, col)` as the pen.
    pub fn set_cursor_position(&mut self, row: usize, col: usize)
        requires
            old(self).wf(),
        ensures
            final(self).wf(),
            final(self)@ == old(self)@.set_cursor_position(row as int, col as int),
    {
        self.goto(row, col);
        self.temp = self.buf.read(row, col);
    }

    /// Put `cell` at `(row, col)`. Outside the screen nothing is written.
    pub fn set_cell(&mut self, row: usize, col: usize, cell: Cell)
        requires
            old(self).wf(),
        ensures
            final(self).wf(),
            final(self)@ == old(self)@.put(row as int, col as int, cell),
    {
        self.buf.write(row, col, cell);
        proof {
            assert(self@.cells =~~= old(self)@.put(row as int, col as int, cell).cells);
        }
    }

    /// The first cell still to be drawn among those at `(row, col)` and after
    /// it in reading order: `None` where there is none.
    pub fn next_dirty(&self, row: usize, col: usize) -> (found: Option<(usize, usize)>)
        requires
            self.wf(),
        ensures
            match found {
                Some((r, c)) => self@.next_dirty_is(row as int, col as int, r as int, c as int),
                None => self@.none_dirty_from(row as int, col as int),
            },
    {
        let height: usize = self.buf.height();
        let width: usize = self.buf.width();
        let mut r: usize = row;
        let mut c: usize = col;
        while r < height
            invariant
                self.wf(),
                height == self@.rows,
                width == self@.cols,
                !before(r as int, c as int, row as int, col as int),
                forall|i: int, j: int|
                    self@.has(i, j) && !before(i, j, row as int, col as int) && before(
                        i,
                        j,
                        r as int,
                        c as int,
                    ) ==> !(#[trigger] self@.cells[i][j]).dirty,
            decreases height - r,
        {
            while c < width
                invariant
                    self.wf(),
                    height == self@.rows,
                    width == self@.cols,
                    r < height,
                    !before(r as int, c as int, row as int, col as int),
                    forall|i: int, j: int|
                        self@.has(i, j) && !before(i, j, row as int, col as int) && before(
                            i,
                            j,
                            r as int,
                            c as int,
                        ) ==> !(#[trigger] self@.cells[i][j]).dirty,
                decreases width - c,
            {
                if self.buf.read(r, c).dirty {
                    return Some((r, c));
                }
                c += 1;
            }
            r += 1;
            c = 0;
        }
        None
    }

    /// Take note of how the drawing of the cell at `(row, col)` went.
    ///
    /// After a drawing that went through, the cell is no more to be drawn.
    /// After one that failed, the cell is as it was, and the error is handed
    /// back as it came.
    pub fn drawn_cell<E>(&mut self, row: usize, col: usize, result: Result<(), E>) -> (r: Result<
        (),
        E,
    >)
        requires
            old(self).wf(),
            old(self)@.has(row as int, col as int),
        ensures
            final(self).wf(),
            result is Ok ==> r is Ok && final(self)@ == old(self)@.put(
                row as int,
                col as int,
                (Cell { dirty: false, ..old(self)@.cell(row as int, col as int) }),
            ),
            result matches Err(e) ==> r == Err::<(), E>(e) && final(self)@ == old(self)@,
    {
        match result {
            Ok(_) => {
                let cell = self.buf.read(row, col);
                self.buf.write(
                    row,
                    col,
                    Cell { c: cell.c, fg: cell.fg, bg: cell.bg, flags: cell.flags, dirty: false },
                );
                proof {
                    assert(self@.cells =~~= old(self)@.put(
                        row as int,
                        col as int,
                        (Cell { dirty: false, ..old(self)@.cell(row as int, col as int) }),
                    ).cells);
                }
                Ok(())
            },
            Err(e) => Err(e),
        }
    }

    /// Draw the console: each cell that is still to be drawn is handed to the
    /// renderer with its place, in reading order as [`Console::next_dirty`]
    /// finds them, and what the renderer answers is taken note of as
    /// [`Console::drawn_cell`] does. The other cells are not handed over.
    ///
    /// Where the renderer fails, its error is returned at once. The cells
    /// before the failing one are drawn; that one and those after it are as
    /// they were, so that the next call goes on with them.
    pub fn draw<R: DrawCell>(&mut self, renderer: &mut R) -> (r: Result<(), R::Error>)
        requires
            old(self).wf(),
        ensures
            final(self).wf(),
            match r {
                Ok(_) => final(self)@ == old(self)@.drawn(),
                Err(_) => exists|row: int, col: int|
                    {
                        &&& old(self)@.has(row, col)
                        &&& old(self)@.cells[row][col].dirty
                        &&& final(self)@ == #[trigger] old(self)@.drawn_before(row, col)
                    },
            },
            old(self)@.clean() ==> r.is_ok(),
    {
        let ghost rows = self@.rows;
        let ghost cols = self@.cols;
        let mut row: usize = 0;
        let mut col: usize = 0;
        proof {
            assert(self@.cells =~~= old(self)@.drawn_before(0, 0).cells);
        }
        loop
            invariant
                self.wf(),
                rows == self@.rows,
                cols == self@.cols,
                row <= rows,
                col <= cols,
                self@ == old(self)@.drawn_before(row as int, col as int),
            decreases rows - row, cols - col,
        {
            let ghost seen = self@;
            match self.next_dirty(row, col) {
                None => {
                    proof {
                        assert(self@.cells =~~= old(self)@.drawn().cells);
                    }
                    return Ok(());
                },
                Some((r, c)) => {
                    proof {
                        assert(seen.cells =~~= old(self)@.drawn_before(r as int, c as int).cells);
                        assert(old(self)@.cells[r as int][c as int].dirty);
                    }
                    let cell = self.buf.read(r, c);
                    let answer = renderer.draw_cell(&cell, r, c);
                    match self.drawn_cell(r, c, answer) {
                        Ok(_) => {},
                        Err(e) => {
                            return Err(e);
                        },
                    }
                    proof {
                        let next = old(self)@.drawn_before(r as int, c as int + 1);
                        assert forall|i: int, j: int| seen.has(i, j) implies #[trigger] self@.cells[i][j]
                            == next.cells[i][j] by {
                            if !(i == r && j == c) {
                                assert(self@.cells[i][j] == seen.cells[i][j]);
                            }
                        }
                        assert(self@.cells =~~= next.cells);
                    }
                    row = r;
                    col = c + 1;
                },
            }
        }
    }
}

} // verus!
