//! The terminal as a mathematical value.
//!
//! A [`Screen`] is what a console stands for in contracts: the size, the
//! cursor and the saved cursor, the pen, the wrap mode, the pending report,
//! the state of the tokenizer and the grid of cells. Each operation of the
//! terminal, and the writing of a byte, is a function from one screen to the
//! next.

use crate::ansi::{Attr, ClearMode, Command, LineClearMode, Mode};
use crate::cell::{Cell, Flags};
use crate::decode::{events_commands, reported, state_after};
use vstd::prelude::*;

verus! {

/// The smaller of two integers.
pub open spec fn min_int(a: int, b: int) -> int {
    if a <= b {
        a
    } else {
        b
    }
}

/// Whether `(r, c)` comes before `(row, col)` in reading order: in a row
/// above, or in the same row further left.
pub open spec fn before(r: int, c: int, row: int, col: int) -> bool {
    r < row || (r == row && c < col)
}

/// The decimal digits of a number, in ASCII, most significant first.
pub open spec fn decimal(n: nat) -> Seq<u8>
    decreases n,
{
    if n < 10 {
        seq![(48 + n) as u8]
    } else {
        decimal(n / 10).push((48 + n % 10) as u8)
    }
}

/// The reply to "are you OK": `ESC [ 0 n`.
pub open spec fn ok_report() -> Seq<u8> {
    seq![0x1bu8, 0x5bu8, 0x30u8, 0x6eu8]
}

/// The reply to "report cursor position" for a cursor at `(row, col)`,
/// counted from 0: `ESC [ row+1 ; col+1 R`.
pub open spec fn cursor_report(row: int, col: int) -> Seq<u8> {
    seq![0x1bu8, 0x5bu8] + decimal((row + 1) as nat) + seq![0x3bu8] + decimal((col + 1) as nat)
        + seq![0x52u8]
}

/// The column that `count` tabs lead to from `col` on a line of `width`
/// columns, tab stops being at the multiples of 8: the `count`-th stop after
/// `col`, or the end of the line if that comes first.
pub open spec fn tab_target(col: int, count: int, width: int) -> int {
    if col >= width || count <= 0 {
        col
    } else {
        min_int(width, (col / 8 + count) * 8)
    }
}

/// The pen after a graphic-rendition attribute.
pub open spec fn pen_after(pen: Cell, attr: Attr) -> Cell {
    match attr {
        Attr::Foreground(color) => Cell { fg: color, ..pen },
        Attr::Background(color) => Cell { bg: color, ..pen },
        Attr::Reset => Cell::spec_default(),
        Attr::Reverse => Cell { flags: Flags { bits: pen.flags@ | Flags::INVERSE }, ..pen },
        Attr::CancelReverse => Cell { flags: Flags { bits: pen.flags@ & !Flags::INVERSE }, ..pen },
        Attr::Bold => Cell { flags: Flags { bits: pen.flags@ | Flags::BOLD }, ..pen },
        Attr::CancelBold => Cell { flags: Flags { bits: pen.flags@ & !Flags::BOLD }, ..pen },
        Attr::Dim => Cell { flags: Flags { bits: pen.flags@ | Flags::DIM }, ..pen },
        Attr::CancelBoldDim => Cell {
            flags: Flags { bits: pen.flags@ & !(Flags::BOLD | Flags::DIM) },
            ..pen
        },
        Attr::Italic => Cell { flags: Flags { bits: pen.flags@ | Flags::ITALIC }, ..pen },
        Attr::CancelItalic => Cell { flags: Flags { bits: pen.flags@ & !Flags::ITALIC }, ..pen },
        Attr::Underline => Cell { flags: Flags { bits: pen.flags@ | Flags::UNDERLINE }, ..pen },
        Attr::CancelUnderline => Cell {
            flags: Flags { bits: pen.flags@ & !Flags::UNDERLINE },
            ..pen
        },
        Attr::Hidden => Cell { flags: Flags { bits: pen.flags@ | Flags::HIDDEN }, ..pen },
        Attr::CancelHidden => Cell { flags: Flags { bits: pen.flags@ & !Flags::HIDDEN }, ..pen },
        Attr::Strike => Cell { flags: Flags { bits: pen.flags@ | Flags::STRIKEOUT }, ..pen },
        Attr::CancelStrike => Cell { flags: Flags { bits: pen.flags@ & !Flags::STRIKEOUT }, ..pen },
        Attr::BlinkSlow | Attr::BlinkFast | Attr::CancelBlink => pen,
    }
}

/// The state of a terminal.
pub struct Screen {
    /// The number of rows.
    pub rows: int,
    /// The number of columns.
    pub cols: int,
    /// The cursor's row, from 0.
    pub row: int,
    /// The cursor's column, from 0. It is `cols` after a character was
    /// written in the last column: the next one wraps, or is dropped.
    pub col: int,
    /// The saved cursor's row.
    pub saved_row: int,
    /// The saved cursor's column.
    pub saved_col: int,
    /// The pen: colors and flags of what is written next, and the background
    /// of what is erased.
    pub pen: Cell,
    /// Whether a character written past the last column goes to the next
    /// line.
    pub auto_wrap: bool,
    /// The bytes of the replies not yet read, oldest first.
    pub report: Seq<u8>,
    /// The state of the tokenizer, given as a run of bytes that brings a new
    /// tokenizer into it. It decides what the next byte written completes:
    /// a character, a control sequence, or nothing yet.
    pub tokenizer: Seq<u8>,
    /// The cells, as rows from the top.
    pub cells: Seq<Seq<Cell>>,
}

impl Screen {
    /// The screen has a row and a column at least, as many cells as its size
    /// says, and both cursors on it.
    pub open spec fn wf(self) -> bool {
        &&& self.rows > 0
        &&& self.cols > 0
        &&& 0 <= self.row < self.rows
        &&& 0 <= self.col <= self.cols
        &&& 0 <= self.saved_row < self.rows
        &&& 0 <= self.saved_col <= self.cols
        &&& self.cells.len() == self.rows
        &&& forall|r: int| 0 <= r < self.rows ==> (#[trigger] self.cells[r]).len() == self.cols
    }

    /// Whether `(row, col)` is a position of the screen.
    pub open spec fn has(self, row: int, col: int) -> bool {
        0 <= row < self.rows && 0 <= col < self.cols
    }

    /// The cell at `(row, col)`; the default cell outside the screen.
    pub open spec fn cell(self, row: int, col: int) -> Cell {
        if self.has(row, col) {
            self.cells[row][col]
        } else {
            Cell::spec_default()
        }
    }

    /// The grid of the screen's size that holds `f(row, col)` at each
    /// position.
    pub open spec fn grid(self, f: spec_fn(int, int) -> Cell) -> Seq<Seq<Cell>> {
        Seq::new(self.rows as nat, |r: int| Seq::new(self.cols as nat, |c: int| f(r, c)))
    }

    /// The screen with `fill` at the positions of `region` and as before at
    /// the others.
    pub open spec fn fill(self, region: spec_fn(int, int) -> bool, fill: Cell) -> Screen {
        Screen {
            cells: self.grid(
                |r: int, c: int|
                    if region(r, c) {
                        fill
                    } else {
                        self.cells[r][c]
                    },
            ),
            ..self
        }
    }

    /// The screen with `cell` at `(row, col)`. Outside the screen nothing is
    /// written.
    pub open spec fn put(self, row: int, col: int, cell: Cell) -> Screen {
        self.fill(|r: int, c: int| r == row && c == col, cell)
    }

    /// The screen scrolled up by a line: each row holds what the one below
    /// held, marks included, and the last one is filled with `fill`.
    pub open spec fn scroll(self, fill: Cell) -> Screen {
        Screen {
            cells: self.grid(
                |r: int, c: int|
                    if r == self.rows - 1 {
                        fill
                    } else {
                        self.cells[r + 1][c]
                    },
            ),
            ..self
        }
    }

    /// A new terminal: default cells, both cursors at the top left, the
    /// default pen, wrapping on, nothing to report, the tokenizer in its
    /// ground state.
    pub open spec fn blank(rows: int, cols: int) -> Screen {
        Screen {
            rows,
            cols,
            row: 0,
            col: 0,
            saved_row: 0,
            saved_col: 0,
            pen: Cell::spec_default(),
            auto_wrap: true,
            report: Seq::empty(),
            tokenizer: Seq::empty(),
            cells: Seq::new(
                rows as nat,
                |r: int| Seq::new(cols as nat, |c: int| Cell::spec_default()),
            ),
        }
    }

    /// The cell that erasing leaves: a blank on the pen's background.
    pub open spec fn blank_cell(self) -> Cell {
        self.pen.spec_just_bg()
    }

    /// The cell that writing `c` leaves: `c` in the pen's colors and flags,
    /// still to be drawn.
    pub open spec fn stamp(self, c: char) -> Cell {
        Cell { c, fg: self.pen.fg, bg: self.pen.bg, flags: self.pen.flags, dirty: true }
    }

    /// The cursor at `(row, col)`, brought back to the last row and to the
    /// column after the last where it lies beyond.
    pub open spec fn goto(self, row: int, col: int) -> Screen {
        Screen { row: min_int(row, self.rows - 1), col: min_int(col, self.cols), ..self }
    }

    /// The cursor in another row of its column.
    pub open spec fn goto_line(self, row: int) -> Screen {
        self.goto(row, self.col)
    }

    /// The cursor in another column of its row.
    pub open spec fn goto_col(self, col: int) -> Screen {
        self.goto(self.row, col)
    }

    /// The cursor `rows` higher, at most in the first row.
    pub open spec fn move_up(self, rows: int) -> Screen {
        Screen {
            row: if rows >= self.row {
                0
            } else {
                self.row - rows
            },
            ..self
        }
    }

    /// The cursor `rows` lower, at most in the last row.
    pub open spec fn move_down(self, rows: int) -> Screen {
        Screen { row: min_int(self.row + rows, self.rows - 1), ..self }
    }

    /// The cursor `cols` to the right, at most in the last column.
    pub open spec fn move_forward(self, cols: int) -> Screen {
        Screen { col: min_int(self.col + cols, self.cols - 1), ..self }
    }

    /// The cursor `cols` to the left, at most in the first column.
    pub open spec fn move_backward(self, cols: int) -> Screen {
        Screen {
            col: if cols >= self.col {
                0
            } else {
                self.col - cols
            },
            ..self
        }
    }

    /// The cursor `rows` lower, in the first column.
    pub open spec fn move_down_and_cr(self, rows: int) -> Screen {
        Screen { col: 0, ..self.move_down(rows) }
    }

    /// The cursor `rows` higher, in the first column.
    pub open spec fn move_up_and_cr(self, rows: int) -> Screen {
        Screen { col: 0, ..self.move_up(rows) }
    }

    /// The cursor one column to the left, unless it is in the first.
    pub open spec fn backspace(self) -> Screen {
        self.move_backward(1)
    }

    /// The cursor in the first column.
    pub open spec fn carriage_return(self) -> Screen {
        Screen { col: 0, ..self }
    }

    /// The cursor at the start of the next line. On the last row the screen
    /// scrolls instead, and the new last row is blank.
    pub open spec fn linefeed(self) -> Screen {
        if self.row < self.rows - 1 {
            Screen { row: self.row + 1, col: 0, ..self }
        } else {
            Screen { col: 0, ..self.scroll(self.blank_cell()) }
        }
    }

    /// The screen after the character `c` was typed.
    ///
    /// With the cursor on the line, `c` is written there and the cursor moves
    /// right. With the cursor past the last column, `c` is dropped where
    /// wrapping is off, and written at the start of the next line where it is
    /// on.
    pub open spec fn input(self, c: char) -> Screen {
        if self.col < self.cols {
            Screen { col: self.col + 1, ..self.put(self.row, self.col, self.stamp(c)) }
        } else if self.auto_wrap {
            let next = self.linefeed();
            Screen { col: 1, ..next.put(next.row, 0, self.stamp(c)) }
        } else {
            self
        }
    }

    /// The screen after `count` tabs: blank from the cursor up to the column
    /// that the tabs lead to, and the cursor there.
    pub open spec fn put_tab(self, count: int) -> Screen {
        let target = tab_target(self.col, count, self.cols);
        Screen {
            col: target,
            ..self.fill(|r: int, c: int| r == self.row && self.col <= c < target, self.blank_cell())
        }
    }

    /// The screen with `count` cells blank from the cursor on, as far as the
    /// line goes.
    pub open spec fn erase_chars(self, count: int) -> Screen {
        self.fill(
            |r: int, c: int| r == self.row && self.col <= c < self.col + count,
            self.blank_cell(),
        )
    }

    /// The number of cells that deleting `count` characters shifts by: at
    /// most the cells right of the cursor but one.
    pub open spec fn delete_shift(self, count: int) -> int {
        if self.col + 1 >= self.cols {
            0
        } else {
            min_int(count, self.cols - self.col - 1)
        }
    }

    /// The screen after `count` characters were deleted at the cursor: the
    /// rest of the line moves left by the shift, marked as still to be
    /// drawn, and the line is blank behind it. With a shift of 0 nothing
    /// changes.
    pub open spec fn delete_chars(self, count: int) -> Screen {
        let n = self.delete_shift(count);
        if n <= 0 {
            self
        } else {
            Screen {
                cells: self.grid(
                    |r: int, c: int|
                        if r == self.row && self.col <= c {
                            if c + n < self.cols {
                                self.cells[r][c + n].spec_touched()
                            } else {
                                self.blank_cell()
                            }
                        } else {
                            self.cells[r][c]
                        },
                ),
                ..self
            }
        }
    }

    /// The cursor kept as the saved cursor.
    pub open spec fn save_cursor_position(self) -> Screen {
        Screen { saved_row: self.row, saved_col: self.col, ..self }
    }

    /// The cursor back where it was saved.
    pub open spec fn restore_cursor_position(self) -> Screen {
        Screen { row: self.saved_row, col: self.saved_col, ..self }
    }

    /// The screen with a part of the cursor's line blank.
    pub open spec fn clear_line(self, mode: LineClearMode) -> Screen {
        match mode {
            LineClearMode::Right => self.fill(
                |r: int, c: int| r == self.row && self.col <= c,
                self.blank_cell(),
            ),
            LineClearMode::Left => self.fill(
                |r: int, c: int| r == self.row && c <= self.col,
                self.blank_cell(),
            ),
            LineClearMode::All => self.fill(|r: int, c: int| r == self.row, self.blank_cell()),
        }
    }

    /// The screen with a part of it blank: what comes before the cursor,
    /// what comes from the cursor on, or all of it, the cursor then going to
    /// the top left.
    pub open spec fn clear_screen(self, mode: ClearMode) -> Screen {
        match mode {
            ClearMode::Above => self.fill(
                |r: int, c: int| before(r, c, self.row, self.col),
                self.blank_cell(),
            ),
            ClearMode::Below => self.fill(
                |r: int, c: int| !before(r, c, self.row, self.col),
                self.blank_cell(),
            ),
            ClearMode::All => Screen {
                row: 0,
                col: 0,
                ..self.fill(|r: int, c: int| true, self.blank_cell())
            },
            ClearMode::Saved => self,
        }
    }

    /// The screen with the pen changed by an attribute.
    pub open spec fn terminal_attribute(self, attr: Attr) -> Screen {
        Screen { pen: pen_after(self.pen, attr), ..self }
    }

    /// The screen with a mode set. Only the wrap mode has an effect.
    pub open spec fn set_mode(self, mode: Mode) -> Screen {
        if mode == Mode::LineWrap {
            Screen { auto_wrap: true, ..self }
        } else {
            self
        }
    }

    /// The screen with a mode unset. Only the wrap mode has an effect.
    pub open spec fn unset_mode(self, mode: Mode) -> Screen {
        if mode == Mode::LineWrap {
            Screen { auto_wrap: false, ..self }
        } else {
            self
        }
    }

    /// The screen after a device status request: 5 asks whether the terminal
    /// is well, 6 where the cursor is; the reply joins the pending report.
    /// Another request has no reply.
    pub open spec fn device_status(self, arg: int) -> Screen {
        if arg == 5 {
            Screen { report: self.report + ok_report(), ..self }
        } else if arg == 6 {
            Screen { report: self.report + cursor_report(self.row, self.col), ..self }
        } else {
            self
        }
    }

    /// The screen after the cursor was placed by a host: the cursor goes to
    /// `(row, col)` and the pen becomes the cell shown there.
    pub open spec fn set_cursor_position(self, row: int, col: int) -> Screen {
        Screen { pen: self.cell(row, col), ..self.goto(row, col) }
    }

    /// The screen after the cells before `(row, col)`, in reading order, were
    /// drawn: none of them is still to be drawn.
    pub open spec fn drawn_before(self, row: int, col: int) -> Screen {
        Screen {
            cells: self.grid(
                |r: int, c: int|
                    if before(r, c, row, col) {
                        Cell { dirty: false, ..self.cells[r][c] }
                    } else {
                        self.cells[r][c]
                    },
            ),
            ..self
        }
    }

    /// The screen after every cell was drawn.
    pub open spec fn drawn(self) -> Screen {
        self.drawn_before(self.rows, 0)
    }

    /// Whether no cell is still to be drawn.
    pub open spec fn clean(self) -> bool {
        forall|r: int, c: int| self.has(r, c) ==> !(#[trigger] self.cells[r][c]).dirty
    }
}

impl Screen {
    /// The screen after the characters of `text` were typed one after the
    /// other.
    pub open spec fn type_all(self, text: Seq<char>) -> Screen
        decreases text.len(),
    {
        if text.len() == 0 {
            self
        } else {
            self.type_all(text.drop_last()).input(text.last())
        }
    }

    /// The screen after the cursor went to each of `targets` in turn, each
    /// a row and a column.
    pub open spec fn goto_all(self, targets: Seq<(int, int)>) -> Screen
        decreases targets.len(),
    {
        if targets.len() == 0 {
            self
        } else {
            let last = targets.last();
            self.goto_all(targets.drop_last()).goto(last.0, last.1)
        }
    }

    /// The screen after each of `attrs` changed the pen in turn.
    pub open spec fn attribute_all(self, attrs: Seq<Attr>) -> Screen
        decreases attrs.len(),
    {
        if attrs.len() == 0 {
            self
        } else {
            self.attribute_all(attrs.drop_last()).terminal_attribute(attrs.last())
        }
    }

    /// The screen after one operation.
    pub open spec fn perform(self, command: Command) -> Screen {
        match command {
            Command::Input(c) => self.input(c),
            Command::Goto(row, col) => self.goto(row as int, col as int),
            Command::GotoLine(row) => self.goto_line(row as int),
            Command::GotoCol(col) => self.goto_col(col as int),
            Command::MoveUp(rows) => self.move_up(rows as int),
            Command::MoveDown(rows) => self.move_down(rows as int),
            Command::MoveForward(cols) => self.move_forward(cols as int),
            Command::MoveBackward(cols) => self.move_backward(cols as int),
            Command::MoveDownAndCr(rows) => self.move_down_and_cr(rows as int),
            Command::MoveUpAndCr(rows) => self.move_up_and_cr(rows as int),
            Command::PutTab(count) => self.put_tab(count as int),
            Command::Backspace => self.backspace(),
            Command::CarriageReturn => self.carriage_return(),
            Command::Linefeed => self.linefeed(),
            Command::ScrollUp(_) => self,
            Command::ScrollDown(_) => self,
            Command::EraseChars(count) => self.erase_chars(count as int),
            Command::DeleteChars(count) => self.delete_chars(count as int),
            Command::SaveCursorPosition => self.save_cursor_position(),
            Command::RestoreCursorPosition => self.restore_cursor_position(),
            Command::ClearLine(mode) => self.clear_line(mode),
            Command::ClearScreen(mode) => self.clear_screen(mode),
            Command::TerminalAttribute(attr) => self.terminal_attribute(attr),
            Command::SetMode(mode) => self.set_mode(mode),
            Command::UnsetMode(mode) => self.unset_mode(mode),
            Command::SetScrollingRegion(_, _) => self,
            Command::DeviceStatus(arg) => self.device_status(arg as int),
        }
    }

    /// The screen after the operations of `commands`, one after the other.
    pub open spec fn perform_all(self, commands: Seq<Command>) -> Screen
        decreases commands.len(),
    {
        if commands.len() == 0 {
            self
        } else {
            self.perform_all(commands.drop_last()).perform(commands.last())
        }
    }

    /// The screen after `byte` was written to the terminal: the tokenizer
    /// goes to its next state, and the operations are performed that stand
    /// for what it reports for the byte.
    pub open spec fn write_byte(self, byte: u8) -> Screen {
        (Screen { tokenizer: state_after(self.tokenizer, byte), ..self }).perform_all(
            events_commands(reported(self.tokenizer, byte)),
        )
    }

    /// The screen after the bytes of `bytes` were written, one after the
    /// other.
    pub open spec fn write_all(self, bytes: Seq<u8>) -> Screen
        decreases bytes.len(),
    {
        if bytes.len() == 0 {
            self
        } else {
            self.write_all(bytes.drop_last()).write_byte(bytes.last())
        }
    }

    /// Whether `(r, c)` is the first cell still to be drawn among those at
    /// `(row, col)` and after it in reading order.
    pub open spec fn next_dirty_is(self, row: int, col: int, r: int, c: int) -> bool {
        &&& self.has(r, c)
        &&& !before(r, c, row, col)
        &&& self.cells[r][c].dirty
        &&& forall|i: int, j: int|
            self.has(i, j) && !before(i, j, row, col) && before(i, j, r, c) ==> !(
            #[trigger] self.cells[i][j]).dirty
    }

    /// Whether no cell at `(row, col)` or after it in reading order is still
    /// to be drawn.
    pub open spec fn none_dirty_from(self, row: int, col: int) -> bool {
        forall|i: int, j: int|
            self.has(i, j) && !before(i, j, row, col) ==> !(#[trigger] self.cells[i][j]).dirty
    }

    /// Where a typed character lands: at the cursor, or at the start of the
    /// line that the cursor wraps to.
    pub open spec fn landing(self) -> (int, int) {
        if self.col < self.cols {
            (self.row, self.col)
        } else {
            (self.linefeed().row, 0)
        }
    }

    /// Performing one list of operations and then another is performing
    /// the two joined.
    pub proof fn perform_all_joins(self, first: Seq<Command>, second: Seq<Command>)
        ensures
            self.perform_all(first).perform_all(second) == self.perform_all(first + second),
        decreases second.len(),
    {
        if second.len() == 0 {
            assert(first + second =~= first);
        } else {
            self.perform_all_joins(first, second.drop_last());
            assert((first + second).drop_last() =~= first + second.drop_last());
            assert((first + second).last() == second.last());
        }
    }

    /// An operation keeps a screen in order and leaves its size alone.
    pub proof fn perform_keeps_size(self, command: Command)
        requires
            self.wf(),
        ensures
            self.perform(command).wf(),
            self.perform(command).rows == self.rows,
            self.perform(command).cols == self.cols,
    {
    }

    /// Any number of operations keep a screen in order and leave its size
    /// alone.
    pub proof fn perform_all_keeps_size(self, commands: Seq<Command>)
        requires
            self.wf(),
        ensures
            self.perform_all(commands).wf(),
            self.perform_all(commands).rows == self.rows,
            self.perform_all(commands).cols == self.cols,
        decreases commands.len(),
    {
        if commands.len() > 0 {
            self.perform_all_keeps_size(commands.drop_last());
            self.perform_all(commands.drop_last()).perform_keeps_size(commands.last());
        }
    }

    /// An operation leaves the tokenizer in its state.
    pub proof fn perform_keeps_tokenizer(self, command: Command)
        ensures
            self.perform(command).tokenizer == self.tokenizer,
    {
    }

    /// Any number of operations leave the tokenizer in its state.
    pub proof fn perform_all_keeps_tokenizer(self, commands: Seq<Command>)
        ensures
            self.perform_all(commands).tokenizer == self.tokenizer,
        decreases commands.len(),
    {
        if commands.len() > 0 {
            self.perform_all_keeps_tokenizer(commands.drop_last());
            self.perform_all(commands.drop_last()).perform_keeps_tokenizer(commands.last());
        }
    }

    /// Writing a byte keeps the screen in order and leaves its size alone.
    pub proof fn write_byte_keeps_size(self, byte: u8)
        requires
            self.wf(),
        ensures
            self.write_byte(byte).wf(),
            self.write_byte(byte).rows == self.rows,
            self.write_byte(byte).cols == self.cols,
    {
        let noted = Screen { tokenizer: state_after(self.tokenizer, byte), ..self };
        noted.perform_all_keeps_size(events_commands(reported(self.tokenizer, byte)));
    }

    /// Writing bytes keeps the screen in order and leaves its size alone.
    pub proof fn write_all_keeps_size(self, bytes: Seq<u8>)
        requires
            self.wf(),
        ensures
            self.write_all(bytes).wf(),
            self.write_all(bytes).rows == self.rows,
            self.write_all(bytes).cols == self.cols,
        decreases bytes.len(),
    {
        if bytes.len() > 0 {
            self.write_all_keeps_size(bytes.drop_last());
            self.write_all(bytes.drop_last()).write_byte_keeps_size(bytes.last());
        }
    }

    /// Writing one run of bytes and then another is writing the two joined.
    pub proof fn write_all_joins(self, first: Seq<u8>, second: Seq<u8>)
        ensures
            self.write_all(first).write_all(second) == self.write_all(first + second),
        decreases second.len(),
    {
        if second.len() == 0 {
            assert(first + second =~= first);
        } else {
            self.write_all_joins(first, second.drop_last());
            assert((first + second).drop_last() =~= first + second.drop_last());
            assert((first + second).last() == second.last());
        }
    }

    /// Typing keeps a screen in order.
    pub proof fn input_keeps_wf(self, c: char)
        requires
            self.wf(),
        ensures
            self.input(c).wf(),
            self.input(c).rows == self.rows,
            self.input(c).cols == self.cols,
    {
    }

    /// A character typed with the cursor on the line is read back at the
    /// place where the cursor was, in the pen's colors and flags.
    pub proof fn input_reads_back(self, c: char)
        requires
            self.wf(),
            self.col < self.cols,
        ensures
            self.input(c).cell(self.row, self.col) == self.stamp(c),
            self.stamp(c).c == c,
            self.stamp(c).fg == self.pen.fg,
            self.stamp(c).bg == self.pen.bg,
            self.stamp(c).flags == self.pen.flags,
    {
    }

    /// With wrapping on, a character typed past the last column of a row
    /// above the last goes to the start of the next row, and the cursor
    /// stands behind it.
    pub proof fn input_wraps_to_next_line(self, c: char)
        requires
            self.wf(),
            self.auto_wrap,
            self.col >= self.cols,
            self.row < self.rows - 1,
        ensures
            self.input(c).row == self.row + 1,
            self.input(c).col == 1,
            self.input(c).cell(self.row + 1, 0) == self.stamp(c),
            forall|r: int, k: int|
                self.has(r, k) && !(r == self.row + 1 && k == 0) ==> #[trigger] self.input(
                    c,
                ).cells[r][k] == self.cells[r][k],
    {
    }

    /// With wrapping off, a character typed past the last column is dropped:
    /// the screen stays as it is.
    pub proof fn input_dropped_without_wrap(self, c: char)
        requires
            self.wf(),
            !self.auto_wrap,
            self.col >= self.cols,
        ensures
            self.input(c) == self,
    {
    }

    /// With wrapping off, typed text fills the cursor's line from the cursor
    /// on and stops at its end: the cursor stays in its row and goes no
    /// further than the column after the last, the characters that fit are
    /// on the line, and nothing else has changed.
    pub proof fn text_stays_on_line_without_wrap(self, text: Seq<char>)
        requires
            self.wf(),
            !self.auto_wrap,
        ensures
            self.type_all(text).wf(),
            self.type_all(text).rows == self.rows,
            self.type_all(text).cols == self.cols,
            self.type_all(text).row == self.row,
            self.type_all(text).col == min_int(self.col + text.len(), self.cols),
            self.type_all(text).pen == self.pen,
            !self.type_all(text).auto_wrap,
            forall|r: int, c: int|
                self.has(r, c) ==> #[trigger] self.type_all(text).cells[r][c] == if r == self.row
                    && self.col <= c < self.col + text.len() {
                    self.stamp(text[c - self.col])
                } else {
                    self.cells[r][c]
                },
        decreases text.len(),
    {
        if text.len() > 0 {
            let init = text.drop_last();
            self.text_stays_on_line_without_wrap(init);
            let mid = self.type_all(init);
            assert(mid.stamp(text.last()) == self.stamp(text.last()));
            assert forall|r: int, c: int| self.has(r, c) implies #[trigger] self.type_all(
                text,
            ).cells[r][c] == if r == self.row && self.col <= c < self.col + text.len() {
                self.stamp(text[c - self.col])
            } else {
                self.cells[r][c]
            } by {
                assert(mid.cells[r][c] == if r == self.row && self.col <= c < self.col
                    + init.len() {
                    self.stamp(init[c - self.col])
                } else {
                    self.cells[r][c]
                });
            }
        }
    }

    /// A line feed on the last row scrolls: the size stays, each row holds
    /// what the row below held, so that the former top row is gone, and the
    /// last row is blank on the pen's background.
    pub proof fn linefeed_on_last_row_scrolls(self)
        requires
            self.wf(),
            self.row == self.rows - 1,
        ensures
            self.linefeed().wf(),
            self.linefeed().rows == self.rows,
            self.linefeed().cols == self.cols,
            self.linefeed().row == self.row,
            self.linefeed().col == 0,
            forall|r: int, c: int|
                0 <= r < self.rows - 1 && 0 <= c < self.cols ==> #[trigger] self.linefeed().cells[r][c]
                    == self.cells[r + 1][c],
            forall|c: int|
                0 <= c < self.cols ==> #[trigger] self.linefeed().cells[self.rows - 1][c]
                    == self.pen.spec_just_bg(),
    {
    }

    /// A line feed above the last row moves the cursor down and leaves the
    /// cells alone.
    pub proof fn linefeed_above_last_row_moves(self)
        requires
            self.wf(),
            self.row < self.rows - 1,
        ensures
            self.linefeed() == (Screen { row: self.row + 1, col: 0, ..self }),
    {
    }

    /// After a reset the pen is the default cell, whatever attributes came
    /// before.
    pub proof fn reset_restores_pen(self, attrs: Seq<Attr>)
        ensures
            self.attribute_all(attrs.push(Attr::Reset)).pen == Cell::spec_default(),
            self.attribute_all(attrs).terminal_attribute(Attr::Reset).pen == Cell::spec_default(),
    {
        let all = attrs.push(Attr::Reset);
        assert(all.drop_last() =~= attrs);
        assert(all.last() == Attr::Reset);
    }

    /// Going to places does not touch the saved cursor.
    pub proof fn goto_all_keeps_saved(self, targets: Seq<(int, int)>)
        ensures
            self.goto_all(targets).saved_row == self.saved_row,
            self.goto_all(targets).saved_col == self.saved_col,
        decreases targets.len(),
    {
        if targets.len() > 0 {
            self.goto_all_keeps_saved(targets.drop_last());
        }
    }

    /// Saving the cursor, going anywhere any number of times, and restoring
    /// it brings the cursor back to exactly where it was saved.
    pub proof fn save_then_restore_returns(self, targets: Seq<(int, int)>)
        requires
            self.wf(),
        ensures
            self.save_cursor_position().goto_all(targets).restore_cursor_position().row
                == self.row,
            self.save_cursor_position().goto_all(targets).restore_cursor_position().col
                == self.col,
    {
        self.save_cursor_position().goto_all_keeps_saved(targets);
    }

    /// Clearing the whole screen leaves the blank cell of the pen's
    /// background everywhere, each cell still to be drawn, and the cursor at
    /// the top left.
    pub proof fn clear_all_blanks_screen(self)
        requires
            self.wf(),
        ensures
            self.clear_screen(ClearMode::All).wf(),
            self.clear_screen(ClearMode::All).row == 0,
            self.clear_screen(ClearMode::All).col == 0,
            forall|r: int, c: int|
                self.has(r, c) ==> #[trigger] self.clear_screen(ClearMode::All).cells[r][c]
                    == self.pen.spec_just_bg(),
            forall|r: int, c: int|
                self.has(r, c) ==> (#[trigger] self.clear_screen(ClearMode::All).cells[r][c]).dirty,
    {
    }

    /// After a drawing that went through, no cell is still to be drawn, and
    /// each cell shows what it showed.
    pub proof fn drawn_is_clean(self)
        requires
            self.wf(),
        ensures
            self.drawn().wf(),
            self.drawn().clean(),
            forall|r: int, c: int|
                self.has(r, c) ==> (#[trigger] self.drawn().cells[r][c]).same_content(
                    self.cells[r][c],
                ),
    {
    }

    /// On a screen with no cell to draw, a typed character makes exactly one
    /// cell due: the one it lands on. This is so wherever the character is
    /// written and no line is blanked for it: with the cursor on the line,
    /// or wrapping to a line below; on the last row only where a row is one
    /// cell wide.
    pub proof fn input_dirties_one_cell(self, c: char)
        requires
            self.wf(),
            self.clean(),
            self.col < self.cols || (self.auto_wrap && (self.row < self.rows - 1 || self.cols
                == 1)),
        ensures
            forall|r: int, k: int|
                self.has(r, k) ==> ((#[trigger] self.input(c).cells[r][k]).dirty <==> (r, k)
                    == self.landing()),
            self.input(c).cell(self.landing().0, self.landing().1) == self.stamp(c),
    {
        let t = self.input(c);
        assert forall|r: int, k: int| self.has(r, k) implies ((#[trigger] t.cells[r][k]).dirty <==> (
        r,
        k,
        ) == self.landing()) by {
            if self.col < self.cols {
                if !(r == self.row && k == self.col) {
                    assert(t.cells[r][k] == self.cells[r][k]);
                }
            } else if self.row < self.rows - 1 {
                if !(r == self.row + 1 && k == 0) {
                    assert(t.cells[r][k] == self.cells[r][k]);
                }
            } else {
                if r < self.rows - 1 {
                    assert(t.cells[r][k] == self.cells[r + 1][k]);
                }
            }
        }
    }
}

} // verus!
