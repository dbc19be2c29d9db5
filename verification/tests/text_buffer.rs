use embedded_term::cell::Cell;
use embedded_term::color::{Color, NamedColor};
use embedded_term::text_buffer::TextBuffer;

fn cell_of(c: char) -> Cell {
    let mut cell = Cell::default();
    cell.c = c;
    cell
}

fn rows_of(buffer: &TextBuffer) -> Vec<String> {
    let mut rows = Vec::new();
    for row in 0..buffer.height() {
        let mut text = String::new();
        for col in 0..buffer.width() {
            text.push(buffer.read(row, col).c);
        }
        rows.push(text);
    }
    rows
}

#[test]
fn new_buffer_holds_default_cells() {
    let buffer = TextBuffer::new(3, 2);
    assert_eq!(buffer.width(), 3);
    assert_eq!(buffer.height(), 2);
    for row in 0..2 {
        for col in 0..3 {
            assert_eq!(buffer.read(row, col), Cell::default());
            assert!(buffer.read(row, col).dirty);
        }
    }
}

#[test]
fn try_new_checks_the_size() {
    assert!(TextBuffer::try_new(0, 1).is_none());
    assert!(TextBuffer::try_new(1, 0).is_none());
    assert!(TextBuffer::try_new(usize::MAX, usize::MAX).is_none());
    assert!(TextBuffer::try_new(2, 2).is_some());
}

#[test]
fn write_then_read() {
    let mut buffer = TextBuffer::new(3, 2);
    buffer.write(1, 2, cell_of('x'));
    assert_eq!(buffer.read(1, 2).c, 'x');
    assert_eq!(rows_of(&buffer), vec!["   ", "  x"]);
}

#[test]
fn outside_the_buffer_reads_default_and_writes_nothing() {
    let mut buffer = TextBuffer::new(3, 2);
    buffer.write(2, 0, cell_of('x'));
    buffer.write(0, 3, cell_of('y'));
    buffer.write(usize::MAX, usize::MAX, cell_of('z'));
    assert_eq!(rows_of(&buffer), vec!["   ", "   "]);
    let mut red = Cell::default();
    red.bg = Color::Named(NamedColor::Red);
    buffer.clear(red);
    assert_eq!(buffer.read(2, 0), Cell::default());
    assert_eq!(buffer.read(0, 3), Cell::default());
    assert_eq!(buffer.read(1, 2), red);
}

#[test]
fn new_line_scrolls_up() {
    let mut buffer = TextBuffer::new(2, 3);
    buffer.write(0, 0, cell_of('a'));
    buffer.write(1, 0, cell_of('b'));
    buffer.write(2, 0, cell_of('c'));
    buffer.new_line(cell_of('-'));
    assert_eq!(rows_of(&buffer), vec!["b ", "c ", "--"]);
    buffer.write(2, 1, cell_of('d'));
    buffer.new_line(cell_of('+'));
    assert_eq!(rows_of(&buffer), vec!["c ", "-d", "++"]);
    buffer.new_line(cell_of('*'));
    buffer.new_line(cell_of('/'));
    assert_eq!(rows_of(&buffer), vec!["++", "**", "//"]);
    assert_eq!(buffer.height(), 3);
    assert_eq!(buffer.width(), 2);
}

#[test]
fn new_line_on_one_row() {
    let mut buffer = TextBuffer::new(2, 1);
    buffer.write(0, 0, cell_of('a'));
    buffer.new_line(cell_of('-'));
    assert_eq!(rows_of(&buffer), vec!["--"]);
}

#[test]
fn clear_fills_and_forgets_the_scroll() {
    let mut buffer = TextBuffer::new(2, 2);
    buffer.write(0, 0, cell_of('a'));
    buffer.new_line(cell_of('-'));
    buffer.clear(cell_of('.'));
    assert_eq!(rows_of(&buffer), vec!["..", ".."]);
    buffer.write(0, 1, cell_of('x'));
    assert_eq!(rows_of(&buffer), vec![".x", ".."]);
}

#[test]
fn fill_span_and_rows_are_clipped() {
    let mut buffer = TextBuffer::new(4, 3);
    buffer.fill_span(1, 1, 3, cell_of('x'));
    assert_eq!(rows_of(&buffer), vec!["    ", " xx ", "    "]);
    buffer.fill_span(0, 2, 100, cell_of('y'));
    assert_eq!(rows_of(&buffer), vec!["  yy", " xx ", "    "]);
    buffer.fill_span(0, 3, 1, cell_of('z'));
    buffer.fill_span(5, 0, 4, cell_of('z'));
    buffer.fill_span(2, 7, 9, cell_of('z'));
    assert_eq!(rows_of(&buffer), vec!["  yy", " xx ", "    "]);
    buffer.fill_rows(1, 100, cell_of('r'));
    assert_eq!(rows_of(&buffer), vec!["  yy", "rrrr", "rrrr"]);
    buffer.fill_rows(2, 1, cell_of('q'));
    buffer.fill_rows(3, 5, cell_of('q'));
    assert_eq!(rows_of(&buffer), vec!["  yy", "rrrr", "rrrr"]);
    buffer.fill_rows(0, 1, cell_of('t'));
    assert_eq!(rows_of(&buffer), vec!["tttt", "rrrr", "rrrr"]);
}

#[test]
fn row_offset_follows_the_scrolls() {
    let mut buffer = TextBuffer::new(2, 3);
    assert_eq!(buffer.row_offset(), 0);
    buffer.write(1, 1, cell_of('a'));
    buffer.write(9, 9, cell_of('b'));
    buffer.fill_span(0, 0, 2, cell_of('c'));
    buffer.fill_rows(2, 3, cell_of('d'));
    assert_eq!(buffer.row_offset(), 0);
    buffer.new_line(cell_of('-'));
    assert_eq!(buffer.row_offset(), 1);
    buffer.write(0, 0, cell_of('e'));
    buffer.write(3, 0, cell_of('f'));
    assert_eq!(buffer.row_offset(), 1);
    buffer.new_line(cell_of('-'));
    assert_eq!(buffer.row_offset(), 2);
    buffer.new_line(cell_of('-'));
    assert_eq!(buffer.row_offset(), 0);
    buffer.new_line(cell_of('-'));
    assert_eq!(buffer.row_offset(), 1);
    buffer.clear(cell_of('.'));
    assert_eq!(buffer.row_offset(), 0);
    assert_eq!(rows_of(&buffer), vec!["..", "..", ".."]);
    let mut one = TextBuffer::new(4, 1);
    one.new_line(cell_of('-'));
    assert_eq!(one.row_offset(), 0);
    assert_eq!(TextBuffer::try_new(2, 2).map(|b| b.row_offset()), Some(0));
}
