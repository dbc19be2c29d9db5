use embedded_term::ansi::{Attr, ClearMode, LineClearMode, Mode};
use embedded_term::cell::{Cell, Flags};
use embedded_term::color::{Color, NamedColor};
use embedded_term::console::{Console, SizeError};
use embedded_term::style::DrawCell;

/// A renderer that notes what it is asked to draw, and fails at one call if
/// told to.
struct Recorder {
    drawn: Vec<(usize, usize, char)>,
    fail_at: Option<usize>,
    calls: usize,
}

impl Recorder {
    fn new() -> Recorder {
        Recorder { drawn: Vec::new(), fail_at: None, calls: 0 }
    }

    fn failing_at(call: usize) -> Recorder {
        Recorder { drawn: Vec::new(), fail_at: Some(call), calls: 0 }
    }
}

impl DrawCell for Recorder {
    type Error = String;

    fn draw_cell(&mut self, cell: &Cell, row: usize, col: usize) -> Result<(), String> {
        let call = self.calls;
        self.calls += 1;
        if self.fail_at == Some(call) {
            return Err(format!("no drawing at ({}, {})", row, col));
        }
        self.drawn.push((row, col, cell.c));
        Ok(())
    }
}

fn type_str(console: &mut Console, text: &str) {
    for c in text.chars() {
        console.input(c);
    }
}

fn row_text(console: &Console, row: usize) -> String {
    let mut text = String::new();
    for col in 0..console.columns() {
        text.push(console.cell(row, col).c);
    }
    text
}

fn dirty_cells(console: &Console) -> Vec<(usize, usize)> {
    let mut cells = Vec::new();
    for row in 0..console.rows() {
        for col in 0..console.columns() {
            if console.cell(row, col).dirty {
                cells.push((row, col));
            }
        }
    }
    cells
}

fn drain_report(console: &mut Console) -> Vec<u8> {
    let mut bytes = Vec::new();
    while let Some(b) = console.pop_report() {
        bytes.push(b);
    }
    bytes
}

#[test]
fn new_console_is_blank() {
    let console = Console::new(80, 24).unwrap();
    assert_eq!(console.columns(), 80);
    assert_eq!(console.rows(), 24);
    assert_eq!(console.get_cursor_position(), (0, 0));
    assert_eq!(console.get_saved_cursor_position(), (0, 0));
    assert!(console.auto_wrap());
    let pen = console.pen();
    assert_eq!(pen.c, ' ');
    assert_eq!(pen.fg, Color::Named(NamedColor::BrightWhite));
    assert_eq!(pen.bg, Color::Named(NamedColor::Black));
    assert!(pen.flags.is_empty());
    for row in 0..24 {
        for col in 0..80 {
            let cell = console.cell(row, col);
            assert_eq!(cell, Cell::default());
            assert!(cell.dirty);
        }
    }
}

#[test]
fn new_reports_empty_and_huge_sizes() {
    assert_eq!(Console::new(0, 5).err(), Some(SizeError::Empty));
    assert_eq!(Console::new(5, 0).err(), Some(SizeError::Empty));
    assert_eq!(Console::new(0, 0).err(), Some(SizeError::Empty));
    assert_eq!(Console::new(0, usize::MAX).err(), Some(SizeError::Empty));
    assert_eq!(Console::new(usize::MAX, 2).err(), Some(SizeError::TooLarge));
    assert_eq!(Console::new(usize::MAX, usize::MAX).err(), Some(SizeError::TooLarge));
    let console = Console::new(3, 2).ok().unwrap();
    assert_eq!((console.columns(), console.rows()), (3, 2));
    assert_eq!(console.get_cursor_position(), (0, 0));
    assert!(console.auto_wrap());
    let mut console = Console::new(1, 1).ok().unwrap();
    assert_eq!(console.pop_report(), None);
}

#[test]
fn written_character_is_read_back_with_pen() {
    let mut console = Console::new(80, 24).unwrap();
    console.terminal_attribute(Attr::Bold);
    console.terminal_attribute(Attr::Foreground(Color::Named(NamedColor::Red)));
    console.terminal_attribute(Attr::Background(Color::Indexed(17)));
    console.goto(2, 3);
    console.input('x');
    let cell = console.cell(2, 3);
    assert_eq!(cell.c, 'x');
    assert_eq!(cell.fg, Color::Named(NamedColor::Red));
    assert_eq!(cell.bg, Color::Indexed(17));
    assert_eq!(cell.flags.bits(), Flags::BOLD);
    assert!(cell.dirty);
    assert_eq!(console.get_cursor_position(), (2, 4));
    // the neighbours are untouched
    assert_eq!(console.cell(2, 2), Cell::default());
    assert_eq!(console.cell(2, 4), Cell::default());
}

#[test]
fn auto_wrap_puts_the_81st_character_on_the_next_line() {
    let mut console = Console::new(80, 24).unwrap();
    for _ in 0..80 {
        console.input('a');
    }
    assert_eq!(console.get_cursor_position(), (0, 80));
    console.input('b');
    assert_eq!(console.get_cursor_position(), (1, 1));
    assert_eq!(console.cell(1, 0).c, 'b');
    assert_eq!(console.cell(0, 79).c, 'a');
    assert_eq!(console.cell(1, 1).c, ' ');
}

#[test]
fn without_wrap_excess_characters_are_dropped() {
    let mut console = Console::new(80, 24).unwrap();
    console.unset_mode(Mode::LineWrap);
    assert!(!console.auto_wrap());
    for i in 0..85u32 {
        console.input(char::from_u32('0' as u32 + i % 10).unwrap());
    }
    assert_eq!(console.get_cursor_position(), (0, 80));
    assert_eq!(console.cell(0, 79).c, '9');
    assert_eq!(console.cell(0, 0).c, '0');
    assert_eq!(row_text(&console, 1), " ".repeat(80));
    // one more makes no difference
    console.input('!');
    assert_eq!(console.get_cursor_position(), (0, 80));
    assert_eq!(console.cell(0, 79).c, '9');
    // and wrapping can be set again
    console.set_mode(Mode::LineWrap);
    console.input('!');
    assert_eq!(console.get_cursor_position(), (1, 1));
    assert_eq!(console.cell(1, 0).c, '!');
}

#[test]
fn other_modes_change_nothing() {
    let mut console = Console::new(4, 2).unwrap();
    console.unset_mode(Mode::ShowCursor);
    assert!(console.auto_wrap());
    console.unset_mode(Mode::LineWrap);
    console.set_mode(Mode::Insert);
    assert!(!console.auto_wrap());
}

#[test]
fn linefeed_on_last_row_scrolls() {
    let mut console = Console::new(4, 3).unwrap();
    type_str(&mut console, "AAAA");
    console.goto(1, 0);
    type_str(&mut console, "BBBB");
    console.goto(2, 0);
    type_str(&mut console, "CC");
    console.terminal_attribute(Attr::Background(Color::Named(NamedColor::Blue)));
    console.terminal_attribute(Attr::Underline);
    console.linefeed();
    assert_eq!(console.rows(), 3);
    assert_eq!(console.columns(), 4);
    assert_eq!(console.get_cursor_position(), (2, 0));
    assert_eq!(row_text(&console, 0), "BBBB");
    assert_eq!(row_text(&console, 1), "CC  ");
    assert_eq!(row_text(&console, 2), "    ");
    for col in 0..4 {
        let cell = console.cell(2, col);
        assert_eq!(cell.bg, Color::Named(NamedColor::Blue));
        assert_eq!(cell.fg, Color::Named(NamedColor::BrightWhite));
        assert!(cell.flags.is_empty());
        assert!(cell.dirty);
    }
    // a second scroll goes on the same way
    console.linefeed();
    assert_eq!(row_text(&console, 0), "CC  ");
    assert_eq!(row_text(&console, 1), "    ");
    assert_eq!(row_text(&console, 2), "    ");
    assert_eq!(console.cell(0, 0).bg, Color::Named(NamedColor::Black));
    assert_eq!(console.cell(1, 0).bg, Color::Named(NamedColor::Blue));
}

#[test]
fn linefeed_above_last_row_moves_down() {
    let mut console = Console::new(4, 3).unwrap();
    type_str(&mut console, "AB");
    console.linefeed();
    assert_eq!(console.get_cursor_position(), (1, 0));
    assert_eq!(row_text(&console, 0), "AB  ");
}

#[test]
fn scrolling_many_times_keeps_the_last_lines() {
    let mut console = Console::new(2, 3).unwrap();
    for i in 0..10u32 {
        let c = char::from_u32('0' as u32 + i).unwrap();
        console.input(c);
        console.input(c);
        console.linefeed();
    }
    assert_eq!(row_text(&console, 0), "88");
    assert_eq!(row_text(&console, 1), "99");
    assert_eq!(row_text(&console, 2), "  ");
    assert_eq!(console.get_cursor_position(), (2, 0));
}

#[test]
fn wrap_on_last_row_scrolls_and_writes() {
    let mut console = Console::new(2, 2).unwrap();
    type_str(&mut console, "abcd");
    assert_eq!(console.get_cursor_position(), (1, 2));
    console.input('e');
    assert_eq!(row_text(&console, 0), "cd");
    assert_eq!(row_text(&console, 1), "e ");
    assert_eq!(console.get_cursor_position(), (1, 1));
}

#[test]
fn sgr_reset_restores_the_default_pen() {
    let mut console = Console::new(80, 24).unwrap();
    console.terminal_attribute(Attr::Bold);
    console.terminal_attribute(Attr::Foreground(Color::Named(NamedColor::Red)));
    let pen = console.pen();
    assert_eq!(pen.flags.bits(), Flags::BOLD);
    assert_eq!(pen.fg, Color::Named(NamedColor::Red));
    console.terminal_attribute(Attr::Reset);
    let pen = console.pen();
    let default = Cell::default();
    assert_eq!(pen.fg, default.fg);
    assert_eq!(pen.bg, default.bg);
    assert_eq!(pen.flags, default.flags);
    assert_eq!(pen.fg, Color::Named(NamedColor::BrightWhite));
    assert_eq!(pen.bg, Color::Named(NamedColor::Black));
    assert!(pen.flags.is_empty());
}

#[test]
fn attributes_set_and_cancel_flags() {
    let mut console = Console::new(8, 2).unwrap();
    console.terminal_attribute(Attr::Reverse);
    console.terminal_attribute(Attr::Bold);
    console.terminal_attribute(Attr::Dim);
    console.terminal_attribute(Attr::Italic);
    console.terminal_attribute(Attr::Underline);
    console.terminal_attribute(Attr::Hidden);
    console.terminal_attribute(Attr::Strike);
    assert_eq!(
        console.pen().flags.bits(),
        Flags::INVERSE
            | Flags::BOLD
            | Flags::DIM
            | Flags::ITALIC
            | Flags::UNDERLINE
            | Flags::HIDDEN
            | Flags::STRIKEOUT
    );
    assert_eq!(console.pen().flags.bits(), 0x038f);
    console.terminal_attribute(Attr::CancelBold);
    assert_eq!(console.pen().flags.bits(), 0x038d);
    console.terminal_attribute(Attr::Bold);
    console.terminal_attribute(Attr::CancelBoldDim);
    assert_eq!(console.pen().flags.bits(), 0x030d);
    console.terminal_attribute(Attr::CancelReverse);
    console.terminal_attribute(Attr::CancelItalic);
    assert_eq!(console.pen().flags.bits(), 0x0308);
    console.terminal_attribute(Attr::CancelUnderline);
    console.terminal_attribute(Attr::CancelHidden);
    assert_eq!(console.pen().flags.bits(), 0x0200);
    console.terminal_attribute(Attr::CancelStrike);
    assert!(console.pen().flags.is_empty());
    // blinking is not known
    console.terminal_attribute(Attr::BlinkSlow);
    console.terminal_attribute(Attr::BlinkFast);
    console.terminal_attribute(Attr::CancelBlink);
    assert!(console.pen().flags.is_empty());
    assert_eq!(console.pen().fg, Color::Named(NamedColor::BrightWhite));
}

#[test]
fn save_and_restore_cursor_round_trip() {
    let mut console = Console::new(80, 24).unwrap();
    console.goto(7, 13);
    console.save_cursor_position();
    console.goto(0, 0);
    console.goto(23, 79);
    console.goto(500, 500);
    console.goto(3, 3);
    console.restore_cursor_position();
    assert_eq!(console.get_cursor_position(), (7, 13));
    assert_eq!(console.get_saved_cursor_position(), (7, 13));
    // restoring twice is the same
    console.goto(1, 1);
    console.restore_cursor_position();
    assert_eq!(console.get_cursor_position(), (7, 13));
}

#[test]
fn cursor_position_report() {
    let mut console = Console::new(80, 24).unwrap();
    console.goto(3, 5);
    console.device_status(6);
    assert_eq!(drain_report(&mut console), b"\x1b[4;6R".to_vec());
    assert_eq!(console.pop_report(), None);
}

#[test]
fn cursor_position_report_with_many_digits() {
    let mut console = Console::new(200, 50).unwrap();
    console.goto(11, 122);
    console.device_status(6);
    assert_eq!(drain_report(&mut console), b"\x1b[12;123R".to_vec());
    console.goto(9, 99);
    console.device_status(6);
    assert_eq!(drain_report(&mut console), b"\x1b[10;100R".to_vec());
    console.goto(0, 0);
    console.device_status(6);
    assert_eq!(drain_report(&mut console), b"\x1b[1;1R".to_vec());
}

#[test]
fn status_report_and_unknown_requests() {
    let mut console = Console::new(80, 24).unwrap();
    console.device_status(5);
    assert_eq!(console.pop_report(), Some(0x1b));
    assert_eq!(console.pop_report(), Some(b'['));
    assert_eq!(console.pop_report(), Some(b'0'));
    assert_eq!(console.pop_report(), Some(b'n'));
    assert_eq!(console.pop_report(), None);
    console.device_status(0);
    console.device_status(7);
    console.device_status(usize::MAX);
    assert_eq!(console.pop_report(), None);
}

#[test]
fn reports_queue_in_order() {
    let mut console = Console::new(80, 24).unwrap();
    console.device_status(5);
    console.goto(1, 2);
    console.device_status(6);
    assert_eq!(drain_report(&mut console), b"\x1b[0n\x1b[2;3R".to_vec());
}

#[test]
fn clear_all_blanks_every_cell_and_homes_the_cursor() {
    let mut console = Console::new(10, 4).unwrap();
    type_str(&mut console, "hello");
    console.terminal_attribute(Attr::Background(Color::Named(NamedColor::Green)));
    console.terminal_attribute(Attr::Bold);
    console.goto(3, 5);
    console.clear_screen(ClearMode::All);
    assert_eq!(console.get_cursor_position(), (0, 0));
    let blank = console.pen().just_bg();
    assert_eq!(blank.bg, Color::Named(NamedColor::Green));
    for row in 0..4 {
        for col in 0..10 {
            let cell = console.cell(row, col);
            assert_eq!(cell, blank);
            assert_eq!(cell.c, ' ');
            assert_eq!(cell.bg, Color::Named(NamedColor::Green));
            assert_eq!(cell.fg, Color::Named(NamedColor::BrightWhite));
            assert!(cell.flags.is_empty());
            assert!(cell.dirty);
        }
    }
}

#[test]
fn clear_all_after_scroll_shows_blank_rows_in_place() {
    let mut console = Console::new(2, 2).unwrap();
    type_str(&mut console, "abcde");
    console.clear_screen(ClearMode::All);
    type_str(&mut console, "xy");
    assert_eq!(row_text(&console, 0), "xy");
    assert_eq!(row_text(&console, 1), "  ");
}

#[test]
fn dirty_tracking() {
    let mut console = Console::new(6, 3).unwrap();
    let mut first = Recorder::new();
    assert_eq!(console.draw(&mut first), Ok(()));
    assert_eq!(first.drawn.len(), 18);
    console.clear_screen(ClearMode::All);
    assert_eq!(dirty_cells(&console).len(), 18);
    let mut second = Recorder::new();
    assert_eq!(console.draw(&mut second), Ok(()));
    assert_eq!(second.drawn.len(), 18);
    assert_eq!(second.drawn[0], (0, 0, ' '));
    assert_eq!(second.drawn[7], (1, 1, ' '));
    assert_eq!(second.drawn[17], (2, 5, ' '));
    assert!(dirty_cells(&console).is_empty());
    console.goto(1, 4);
    console.input('z');
    assert_eq!(dirty_cells(&console), vec![(1, 4)]);
    let mut third = Recorder::new();
    assert_eq!(console.draw(&mut third), Ok(()));
    assert_eq!(third.drawn, vec![(1, 4, 'z')]);
    assert!(dirty_cells(&console).is_empty());
    // with nothing to draw the renderer is not called
    let mut fourth = Recorder::failing_at(0);
    assert_eq!(console.draw(&mut fourth), Ok(()));
    assert_eq!(fourth.calls, 0);
}

#[test]
fn drawing_keeps_what_the_cells_show() {
    let mut console = Console::new(3, 1).unwrap();
    console.terminal_attribute(Attr::Italic);
    type_str(&mut console, "ab");
    let before = [console.cell(0, 0), console.cell(0, 1), console.cell(0, 2)];
    let mut renderer = Recorder::new();
    assert_eq!(console.draw(&mut renderer), Ok(()));
    assert_eq!(renderer.drawn, vec![(0, 0, 'a'), (0, 1, 'b'), (0, 2, ' ')]);
    for col in 0..3 {
        let cell = console.cell(0, col);
        assert_eq!(cell, before[col]);
        assert_eq!(cell.flags, before[col].flags);
        assert!(!cell.dirty);
    }
}

#[test]
fn failed_drawing_leaves_the_rest_for_the_next_call() {
    let mut console = Console::new(3, 2).unwrap();
    type_str(&mut console, "abcdef");
    let mut failing = Recorder::failing_at(4);
    assert_eq!(console.draw(&mut failing), Err("no drawing at (1, 1)".to_string()));
    assert_eq!(failing.drawn, vec![(0, 0, 'a'), (0, 1, 'b'), (0, 2, 'c'), (1, 0, 'd')]);
    assert_eq!(dirty_cells(&console), vec![(1, 1), (1, 2)]);
    let mut next = Recorder::new();
    assert_eq!(console.draw(&mut next), Ok(()));
    assert_eq!(next.drawn, vec![(1, 1, 'e'), (1, 2, 'f')]);
    assert!(dirty_cells(&console).is_empty());
}

#[test]
fn goto_clamps_to_the_screen() {
    let mut console = Console::new(80, 24).unwrap();
    console.goto(100, 100);
    assert_eq!(console.get_cursor_position(), (23, 80));
    console.goto(24, 80);
    assert_eq!(console.get_cursor_position(), (23, 80));
    console.goto(23, 79);
    assert_eq!(console.get_cursor_position(), (23, 79));
    console.goto(usize::MAX, usize::MAX);
    assert_eq!(console.get_cursor_position(), (23, 80));
    console.goto(5, 6);
    console.goto_line(7);
    assert_eq!(console.get_cursor_position(), (7, 6));
    console.goto_col(9);
    assert_eq!(console.get_cursor_position(), (7, 9));
    console.goto_line(1000);
    assert_eq!(console.get_cursor_position(), (23, 9));
    console.goto_col(1000);
    assert_eq!(console.get_cursor_position(), (23, 80));
}

#[test]
fn moves_saturate() {
    let mut console = Console::new(80, 24).unwrap();
    console.goto(3, 10);
    console.move_up(2);
    assert_eq!(console.get_cursor_position(), (1, 10));
    console.move_up(100);
    assert_eq!(console.get_cursor_position(), (0, 10));
    console.move_up(usize::MAX);
    assert_eq!(console.get_cursor_position(), (0, 10));
    console.move_down(5);
    assert_eq!(console.get_cursor_position(), (5, 10));
    console.move_down(18);
    assert_eq!(console.get_cursor_position(), (23, 10));
    console.move_down(usize::MAX);
    assert_eq!(console.get_cursor_position(), (23, 10));
    console.move_forward(3);
    assert_eq!(console.get_cursor_position(), (23, 13));
    console.move_forward(66);
    assert_eq!(console.get_cursor_position(), (23, 79));
    console.move_forward(usize::MAX);
    assert_eq!(console.get_cursor_position(), (23, 79));
    console.move_backward(9);
    assert_eq!(console.get_cursor_position(), (23, 70));
    console.move_backward(usize::MAX);
    assert_eq!(console.get_cursor_position(), (23, 0));
    console.goto(10, 10);
    console.move_down_and_cr(2);
    assert_eq!(console.get_cursor_position(), (12, 0));
    console.goto(10, 10);
    console.move_down_and_cr(200);
    assert_eq!(console.get_cursor_position(), (23, 0));
    console.goto(10, 10);
    console.move_up_and_cr(3);
    assert_eq!(console.get_cursor_position(), (7, 0));
    console.goto(10, 10);
    console.move_up_and_cr(30);
    assert_eq!(console.get_cursor_position(), (0, 0));
}

#[test]
fn move_forward_from_past_the_last_column() {
    let mut console = Console::new(4, 2).unwrap();
    type_str(&mut console, "abcd");
    assert_eq!(console.get_cursor_position(), (0, 4));
    console.move_forward(0);
    assert_eq!(console.get_cursor_position(), (0, 3));
}

#[test]
fn backspace_and_carriage_return() {
    let mut console = Console::new(80, 24).unwrap();
    console.goto(4, 2);
    console.backspace();
    assert_eq!(console.get_cursor_position(), (4, 1));
    console.backspace();
    console.backspace();
    assert_eq!(console.get_cursor_position(), (4, 0));
    console.goto(4, 40);
    console.carriage_return();
    assert_eq!(console.get_cursor_position(), (4, 0));
}

#[test]
fn tabs_blank_up_to_the_stop() {
    let mut console = Console::new(20, 2).unwrap();
    type_str(&mut console, "abcdefghijklmnopqrst");
    console.terminal_attribute(Attr::Background(Color::Named(NamedColor::Cyan)));
    console.goto(0, 3);
    console.put_tab(1);
    assert_eq!(console.get_cursor_position(), (0, 8));
    assert_eq!(row_text(&console, 0), "abc     ijklmnopqrst");
    for col in 3..8 {
        assert_eq!(console.cell(0, col).bg, Color::Named(NamedColor::Cyan));
    }
    assert_eq!(console.cell(0, 8).bg, Color::Named(NamedColor::Black));
    // from a stop, a tab goes to the next one
    console.put_tab(1);
    assert_eq!(console.get_cursor_position(), (0, 16));
    assert_eq!(row_text(&console, 0), "abc             qrst");
    // the line ends before the next stop
    console.put_tab(1);
    assert_eq!(console.get_cursor_position(), (0, 20));
    assert_eq!(row_text(&console, 0), "abc                 ");
    // at the end of the line a tab does nothing
    console.put_tab(3);
    assert_eq!(console.get_cursor_position(), (0, 20));
}

#[test]
fn several_tabs_and_none() {
    let mut console = Console::new(40, 1).unwrap();
    console.goto(0, 1);
    console.put_tab(0);
    assert_eq!(console.get_cursor_position(), (0, 1));
    console.put_tab(3);
    assert_eq!(console.get_cursor_position(), (0, 24));
    console.put_tab(u16::MAX);
    assert_eq!(console.get_cursor_position(), (0, 40));
    let mut narrow = Console::new(10, 1).unwrap();
    narrow.goto(0, 3);
    narrow.put_tab(2);
    assert_eq!(narrow.get_cursor_position(), (0, 10));
}

#[test]
fn erase_chars_blanks_and_keeps_the_cursor() {
    let mut console = Console::new(10, 2).unwrap();
    type_str(&mut console, "0123456789");
    console.terminal_attribute(Attr::Background(Color::Named(NamedColor::Red)));
    console.goto(0, 2);
    console.erase_chars(3);
    assert_eq!(row_text(&console, 0), "01   56789");
    assert_eq!(console.get_cursor_position(), (0, 2));
    assert_eq!(console.cell(0, 2).bg, Color::Named(NamedColor::Red));
    assert_eq!(console.cell(0, 4).bg, Color::Named(NamedColor::Red));
    assert_eq!(console.cell(0, 5).bg, Color::Named(NamedColor::Black));
    console.erase_chars(0);
    assert_eq!(row_text(&console, 0), "01   56789");
    console.goto(0, 7);
    console.erase_chars(100);
    assert_eq!(row_text(&console, 0), "01   56   ");
    console.goto(0, 6);
    console.erase_chars(usize::MAX);
    assert_eq!(row_text(&console, 0), "01   5    ");
    assert_eq!(row_text(&console, 1), "          ");
}

#[test]
fn delete_chars_shifts_the_rest_left() {
    let mut console = Console::new(10, 2).unwrap();
    type_str(&mut console, "0123456789");
    let mut renderer = Recorder::new();
    assert_eq!(console.draw(&mut renderer), Ok(()));
    console.terminal_attribute(Attr::Background(Color::Named(NamedColor::Yellow)));
    console.goto(0, 2);
    console.delete_chars(3);
    assert_eq!(row_text(&console, 0), "0156789   ");
    assert_eq!(console.get_cursor_position(), (0, 2));
    for col in 7..10 {
        assert_eq!(console.cell(0, col).bg, Color::Named(NamedColor::Yellow));
    }
    assert_eq!(console.cell(0, 6).bg, Color::Named(NamedColor::Black));
    // what moved or was blanked is to be drawn again, the rest is not
    assert_eq!(
        dirty_cells(&console),
        vec![(0, 2), (0, 3), (0, 4), (0, 5), (0, 6), (0, 7), (0, 8), (0, 9)]
    );
}

#[test]
fn delete_chars_is_clipped() {
    let mut console = Console::new(10, 1).unwrap();
    type_str(&mut console, "0123456789");
    console.goto(0, 6);
    // at most the cells right of the cursor but one are shifted
    console.delete_chars(100);
    assert_eq!(row_text(&console, 0), "0123459   ");
    console.goto(0, 5);
    console.delete_chars(4);
    assert_eq!(row_text(&console, 0), "01234     ");
}

#[test]
fn delete_chars_with_nothing_to_shift_changes_nothing() {
    let mut console = Console::new(5, 1).unwrap();
    type_str(&mut console, "abcde");
    let mut renderer = Recorder::new();
    assert_eq!(console.draw(&mut renderer), Ok(()));
    // a count of 0
    console.goto(0, 1);
    console.delete_chars(0);
    assert_eq!(row_text(&console, 0), "abcde");
    // in the last column the shift is clipped to 0
    console.goto(0, 4);
    console.delete_chars(1);
    assert_eq!(row_text(&console, 0), "abcde");
    console.delete_chars(usize::MAX);
    assert_eq!(row_text(&console, 0), "abcde");
    // past the last column nothing is there to delete
    console.goto(0, 5);
    assert_eq!(console.get_cursor_position(), (0, 5));
    console.delete_chars(2);
    assert_eq!(row_text(&console, 0), "abcde");
    assert!(dirty_cells(&console).is_empty());
    assert_eq!(console.get_cursor_position(), (0, 5));
    // one column before the last, one cell is shifted
    console.goto(0, 3);
    console.delete_chars(7);
    assert_eq!(row_text(&console, 0), "abce ");
    assert_eq!(dirty_cells(&console), vec![(0, 3), (0, 4)]);
}

#[test]
fn clear_line_modes() {
    let mut console = Console::new(6, 3).unwrap();
    for row in 0..3 {
        console.goto(row, 0);
        type_str(&mut console, "abcdef");
    }
    console.terminal_attribute(Attr::Background(Color::Named(NamedColor::Magenta)));
    console.goto(0, 2);
    console.clear_line(LineClearMode::Right);
    assert_eq!(row_text(&console, 0), "ab    ");
    assert_eq!(console.cell(0, 2).bg, Color::Named(NamedColor::Magenta));
    console.goto(1, 2);
    console.clear_line(LineClearMode::Left);
    assert_eq!(row_text(&console, 1), "   def");
    assert_eq!(console.cell(1, 2).bg, Color::Named(NamedColor::Magenta));
    assert_eq!(console.cell(1, 3).bg, Color::Named(NamedColor::Black));
    console.goto(2, 4);
    console.clear_line(LineClearMode::All);
    assert_eq!(row_text(&console, 2), "      ");
    assert_eq!(console.get_cursor_position(), (2, 4));
    assert_eq!(row_text(&console, 0), "ab    ");
}

#[test]
fn clear_line_left_with_cursor_past_the_end() {
    let mut console = Console::new(3, 1).unwrap();
    type_str(&mut console, "abc");
    assert_eq!(console.get_cursor_position(), (0, 3));
    console.clear_line(LineClearMode::Right);
    assert_eq!(row_text(&console, 0), "abc");
    console.clear_line(LineClearMode::Left);
    assert_eq!(row_text(&console, 0), "   ");
}

#[test]
fn clear_screen_above_and_below() {
    let mut console = Console::new(4, 3).unwrap();
    for row in 0..3 {
        console.goto(row, 0);
        type_str(&mut console, "abcd");
    }
    console.goto(1, 2);
    console.clear_screen(ClearMode::Above);
    assert_eq!(row_text(&console, 0), "    ");
    assert_eq!(row_text(&console, 1), "  cd");
    assert_eq!(row_text(&console, 2), "abcd");
    assert_eq!(console.get_cursor_position(), (1, 2));

    let mut console = Console::new(4, 3).unwrap();
    for row in 0..3 {
        console.goto(row, 0);
        type_str(&mut console, "abcd");
    }
    console.goto(1, 2);
    console.clear_screen(ClearMode::Below);
    assert_eq!(row_text(&console, 0), "abcd");
    assert_eq!(row_text(&console, 1), "ab  ");
    assert_eq!(row_text(&console, 2), "    ");
    assert_eq!(console.get_cursor_position(), (1, 2));
    console.clear_screen(ClearMode::Saved);
    assert_eq!(row_text(&console, 0), "abcd");
    assert_eq!(row_text(&console, 1), "ab  ");
}

#[test]
fn unimplemented_operations_change_nothing() {
    let mut console = Console::new(4, 3).unwrap();
    type_str(&mut console, "abcdefgh");
    console.goto(1, 1);
    console.scroll_up(2);
    console.scroll_down(1);
    console.set_scrolling_region(1, Some(2));
    console.set_scrolling_region(0, None);
    assert_eq!(row_text(&console, 0), "abcd");
    assert_eq!(row_text(&console, 1), "efgh");
    assert_eq!(row_text(&console, 2), "    ");
    assert_eq!(console.get_cursor_position(), (1, 1));
    assert_eq!(console.pop_report(), None);
}

#[test]
fn reading_outside_the_screen_gives_the_default_cell() {
    let mut console = Console::new(4, 3).unwrap();
    console.terminal_attribute(Attr::Background(Color::Named(NamedColor::Red)));
    console.clear_screen(ClearMode::All);
    assert_eq!(console.cell(3, 0).bg, Color::Named(NamedColor::Black));
    assert_eq!(console.cell(0, 4).bg, Color::Named(NamedColor::Black));
    assert_eq!(console.cell(usize::MAX, usize::MAX), Cell::default());
    assert_eq!(console.cell(2, 3).bg, Color::Named(NamedColor::Red));
}

#[test]
fn set_cell_and_set_cursor_position() {
    let mut console = Console::new(4, 3).unwrap();
    let cell = Cell {
        c: 'q',
        fg: Color::Indexed(3),
        bg: Color::Indexed(4),
        flags: Flags::from_bits_truncate(Flags::ITALIC),
        dirty: true,
    };
    console.set_cell(1, 2, cell);
    assert_eq!(console.cell(1, 2), cell);
    console.set_cell(9, 9, cell);
    console.set_cursor_position(1, 2);
    assert_eq!(console.get_cursor_position(), (1, 2));
    assert_eq!(console.pen(), cell);
    console.set_cursor_position(7, 9);
    assert_eq!(console.get_cursor_position(), (2, 4));
    assert_eq!(console.pen(), Cell::default());
}

#[test]
fn next_dirty_goes_in_reading_order() {
    let mut console = Console::new(6, 3).unwrap();
    assert_eq!(console.next_dirty(0, 0), Some((0, 0)));
    assert_eq!(console.next_dirty(0, 5), Some((0, 5)));
    assert_eq!(console.next_dirty(0, 6), Some((1, 0)));
    assert_eq!(console.next_dirty(2, 5), Some((2, 5)));
    assert_eq!(console.next_dirty(2, 6), None);
    assert_eq!(console.next_dirty(3, 0), None);
    let mut renderer = Recorder::new();
    assert_eq!(console.draw(&mut renderer), Ok(()));
    assert_eq!(console.next_dirty(0, 0), None);
    console.goto(1, 4);
    console.input('z');
    console.goto(2, 1);
    console.input('y');
    console.goto(0, 3);
    console.input('x');
    assert_eq!(console.next_dirty(0, 0), Some((0, 3)));
    assert_eq!(console.next_dirty(0, 3), Some((0, 3)));
    assert_eq!(console.next_dirty(0, 4), Some((1, 4)));
    assert_eq!(console.next_dirty(1, 0), Some((1, 4)));
    assert_eq!(console.next_dirty(1, 5), Some((2, 1)));
    assert_eq!(console.next_dirty(1, 99), Some((2, 1)));
    assert_eq!(console.next_dirty(2, 2), None);
    assert_eq!(console.next_dirty(usize::MAX, usize::MAX), None);
    assert_eq!(console.next_dirty(usize::MAX, 0), None);
    assert_eq!(console.next_dirty(0, usize::MAX), Some((1, 4)));
}

#[test]
fn drawing_hands_over_the_dirty_cells_and_no_others() {
    let mut console = Console::new(6, 3).unwrap();
    let mut renderer = Recorder::new();
    assert_eq!(console.draw(&mut renderer), Ok(()));
    console.goto(2, 5);
    console.input('c');
    console.goto(0, 0);
    console.input('a');
    console.goto(1, 3);
    console.input('b');
    let mut renderer = Recorder::new();
    assert_eq!(console.draw(&mut renderer), Ok(()));
    assert_eq!(renderer.drawn, vec![(0, 0, 'a'), (1, 3, 'b'), (2, 5, 'c')]);
    assert_eq!(renderer.calls, 3);
    assert_eq!(console.next_dirty(0, 0), None);
    // a failure at the second of them leaves the second and the third
    console.goto(2, 5);
    console.input('f');
    console.goto(0, 0);
    console.input('d');
    console.goto(1, 3);
    console.input('e');
    let mut failing = Recorder::failing_at(1);
    assert_eq!(console.draw(&mut failing), Err("no drawing at (1, 3)".to_string()));
    assert_eq!(failing.drawn, vec![(0, 0, 'd')]);
    assert_eq!(failing.calls, 2);
    assert_eq!(dirty_cells(&console), vec![(1, 3), (2, 5)]);
    assert_eq!(console.next_dirty(0, 0), Some((1, 3)));
}

#[test]
fn noting_how_a_drawing_went() {
    let mut console = Console::new(4, 2).unwrap();
    console.goto(1, 2);
    console.input('k');
    let before = console.cell(1, 2);
    // a failed drawing leaves the cell to be drawn and hands the error back
    assert_eq!(console.drawn_cell(1, 2, Err("broken")), Err("broken"));
    assert!(console.cell(1, 2).dirty);
    assert_eq!(console.cell(1, 2), before);
    // a drawing that went through marks the cell, and that one alone
    assert_eq!(console.drawn_cell(1, 2, Ok::<(), &str>(())), Ok(()));
    let after = console.cell(1, 2);
    assert!(!after.dirty);
    assert_eq!((after.c, after.fg, after.bg, after.flags), (before.c, before.fg, before.bg, before.flags));
    assert_eq!(dirty_cells(&console).len(), 7);
    assert_eq!(console.get_cursor_position(), (1, 3));
    // a cell already drawn stays drawn
    assert_eq!(console.drawn_cell(1, 2, Ok::<(), &str>(())), Ok(()));
    assert!(!console.cell(1, 2).dirty);
    assert_eq!(console.drawn_cell(1, 2, Err(7u8)), Err(7u8));
    assert!(!console.cell(1, 2).dirty);
}

#[test]
fn first_failure_ends_the_drawing_with_its_error() {
    let mut console = Console::new(3, 2).unwrap();
    let mut failing = Recorder::failing_at(0);
    assert_eq!(console.draw(&mut failing), Err("no drawing at (0, 0)".to_string()));
    assert_eq!(failing.calls, 1);
    assert!(failing.drawn.is_empty());
    assert_eq!(dirty_cells(&console).len(), 6);
    let mut failing = Recorder::failing_at(5);
    assert_eq!(console.draw(&mut failing), Err("no drawing at (1, 2)".to_string()));
    assert_eq!(failing.calls, 6);
    assert_eq!(dirty_cells(&console), vec![(1, 2)]);
}
