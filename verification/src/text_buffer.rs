//! The grid of cells behind the screen.
//!
//! The buffer has a fixed width and height. Positions are given by screen row
//! and column, the top left being `(0, 0)`. Scrolling does not move the rows
//! in memory: the buffer keeps the index of the stored row that is the top of
//! the screen, and a scroll blanks that row and makes it the bottom one.

use crate::cell::Cell;
use vstd::prelude::*;

verus! {

/// A 2D array of [`Cell`] to render on screen.
pub struct TextBuffer {
    /// The cells, stored row after row.
    buf: Vec<Cell>,
    /// The stored row that is shown as the top row of the screen.
    row_offset: usize,
    width: usize,
    height: usize,
}

/// The stored row that is shown as screen row `row`.
pub open spec fn stored_row(row: int, offset: int, height: int) -> int {
    if row + offset >= height {
        row + offset - height
    } else {
        row + offset
    }
}

/// A position inside a grid has an index inside the flat store.
pub proof fn lemma_index_in_store(p: int, c: int, w: int, h: int)
    requires
        0 <= p < h,
        0 <= c < w,
    ensures
        0 <= p * w + c < w * h,
        p * w + w <= w * h,
        0 <= p * w,
{
    assert(p * w + w <= w * h) by (nonlinear_arith)
        requires
            0 <= p < h,
            0 < w,
    ;
    assert(0 <= p * w) by (nonlinear_arith)
        requires
            0 <= p,
            0 < w,
    ;
}

/// Two positions with the same index in the flat store are the same.
pub proof fn lemma_index_injective(p: int, c: int, q: int, d: int, w: int)
    requires
        0 <= c < w,
        0 <= d < w,
        0 <= p,
        0 <= q,
        p * w + c == q * w + d,
    ensures
        p == q,
        c == d,
{
    if p < q {
        assert(q * w >= p * w + w) by (nonlinear_arith)
            requires
                p < q,
                0 < w,
        ;
    } else if q < p {
        assert(p * w >= q * w + w) by (nonlinear_arith)
            requires
                q < p,
                0 < w,
        ;
    }
}

impl TextBuffer {
    /// The number of columns.
    pub closed spec fn spec_width(&self) -> usize {
        self.width
    }

    /// The number of rows.
    pub closed spec fn spec_height(&self) -> usize {
        self.height
    }

    /// The stored row that is shown as the top row of the screen: 0 in a new
    /// buffer, one further, around the height, with each scroll.
    pub closed spec fn spec_row_offset(&self) -> usize {
        self.row_offset
    }

    /// The buffer holds `width * height` cells, neither of the two being 0.
    pub closed spec fn wf(&self) -> bool {
        &&& self.width > 0
        &&& self.height > 0
        &&& self.width * self.height <= usize::MAX
        &&& self.buf@.len() == self.width * self.height
        &&& self.row_offset < self.height
    }

    /// The cell at screen row `row` and column `col`, for a position on the
    /// screen.
    pub closed spec fn cell_at(&self, row: int, col: int) -> Cell {
        self.buf@[stored_row(row, self.row_offset as int, self.height as int) * self.width + col]
    }

    /// The cell shown at `(row, col)`: the one of the screen, or the default
    /// cell for a position outside it.
    pub open spec fn shown(&self, row: int, col: int) -> Cell {
        if 0 <= row < self.spec_height() && 0 <= col < self.spec_width() {
            self.cell_at(row, col)
        } else {
            Cell::spec_default()
        }
    }

    /// The screen as rows of cells, top row first.
    pub open spec fn view(&self) -> Seq<Seq<Cell>> {
        Seq::new(
            self.spec_height() as nat,
            |r: int| Seq::new(self.spec_width() as nat, |c: int| self.cell_at(r, c)),
        )
    }

    /// Whether `width * height` cells can be held: neither is 0, and the
    /// product is a `usize`.
    pub open spec fn valid_size(width: usize, height: usize) -> bool {
        width > 0 && height > 0 && width * height <= usize::MAX
    }

    /// Create a new text buffer, every cell being the default cell.
    pub fn new(width: usize, height: usize) -> (r: TextBuffer)
        requires
            TextBuffer::valid_size(width, height),
        ensures
            r.wf(),
            r.spec_width() == width,
            r.spec_height() == height,
            r.spec_row_offset() == 0,
            forall|row: int, col: int|
                0 <= row < height && 0 <= col < width ==> #[trigger] r.cell_at(row, col)
                    == Cell::spec_default(),
    {
        let n: usize = width * height;
        let mut buf: Vec<Cell> = Vec::new();
        let mut i: usize = 0;
        while i < n
            invariant
                i <= n,
                buf@.len() == i,
                forall|k: int| 0 <= k < i ==> buf@[k] == Cell::spec_default(),
            decreases n - i,
        {
            buf.push(Cell::default());
            i += 1;
        }
        let r = TextBuffer { buf, row_offset: 0, width, height };
        proof {
            assert forall|row: int, col: int|
                0 <= row < height && 0 <= col < width implies #[trigger] r.cell_at(row, col)
                == Cell::spec_default() by {
                lemma_index_in_store(row, col, width as int, height as int);
            }
        }
        r
    }

    /// Create a new text buffer where the size allows it: `None` where a
    /// side is 0 or the number of cells is no `usize`.
    pub fn try_new(width: usize, height: usize) -> (r: Option<TextBuffer>)
        ensures
            r.is_some() == TextBuffer::valid_size(width, height),
            r.is_some() ==> {
                let b = r.unwrap();
                &&& b.wf()
                &&& b.spec_width() == width
                &&& b.spec_height() == height
                &&& b.spec_row_offset() == 0
                &&& forall|row: int, col: int|
                    0 <= row < height && 0 <= col < width ==> #[trigger] b.cell_at(row, col)
                        == Cell::spec_default()
            },
    {
        if width == 0 || height == 0 {
            return None;
        }
        match width.checked_mul(height) {
            Some(_) => Some(TextBuffer::new(width, height)),
            None => None,
        }
    }

    /// The number of columns.
    #[verifier::when_used_as_spec(spec_width)]
    pub fn width(&self) -> (w: usize)
        ensures
            w == self.spec_width(),
    {
        self.width
    }

    /// The number of rows.
    #[verifier::when_used_as_spec(spec_height)]
    pub fn height(&self) -> (h: usize)
        ensures
            h == self.spec_height(),
    {
        self.height
    }

    /// The stored row that is shown as the top row of the screen.
    #[verifier::when_used_as_spec(spec_row_offset)]
    pub fn row_offset(&self) -> (offset: usize)
        requires
            self.wf(),
        ensures
            offset == self.spec_row_offset(),
            offset < self.spec_height(),
    {
        self.row_offset
    }

    /// The index in the store of the cell at a position on the screen.
    fn index_of(&self, row: usize, col: usize) -> (i: usize)
        requires
            self.wf(),
            row < self.height,
            col < self.width,
        ensures
            i == stored_row(row as int, self.row_offset as int, self.height as int) * self.width
                + col,
            i < self.buf@.len(),
    {
        let gap: usize = self.height - self.row_offset;
        let p: usize = if row >= gap {
            row - gap
        } else {
            row + self.row_offset
        };
        proof {
            lemma_index_in_store(p as int, col as int, self.width as int, self.height as int);
        }
        p * self.width + col
    }

    /// Read the cell at `(row, col)`. A position outside the screen reads as
    /// the default cell.
    pub fn read(&self, row: usize, col: usize) -> (cell: Cell)
        requires
            self.wf(),
        ensures
            cell == self.shown(row as int, col as int),
    {
        if row >= self.height || col >= self.width {
            return Cell::default();
        }
        let i: usize = self.index_of(row, col);
        self.buf[i]
    }

    /// Write `cell` at `(row, col)`. A position outside the screen is left
    /// out: nothing changes then.
    pub fn write(&mut self, row: usize, col: usize, cell: Cell)
        requires
            old(self).wf(),
        ensures
            final(self).wf(),
            final(self).spec_width() == old(self).spec_width(),
            final(self).spec_height() == old(self).spec_height(),
            final(self).spec_row_offset() == old(self).spec_row_offset(),
            forall|r: int, c: int|
                0 <= r < old(self).spec_height() && 0 <= c < old(self).spec_width()
                    ==> #[trigger] final(self).cell_at(r, c) == if r == row && c == col {
                    cell
                } else {
                    old(self).cell_at(r, c)
                },
    {
        if row >= self.height || col >= self.width {
            return ;
        }
        let i: usize = self.index_of(row, col);
        self.buf.set(i, cell);
        proof {
            let w = self.width as int;
            let h = self.height as int;
            let o = self.row_offset as int;
            assert forall|r: int, c: int| 0 <= r < h && 0 <= c < w implies #[trigger] self.cell_at(
                r,
                c,
            ) == if r == row && c == col {
                cell
            } else {
                old(self).cell_at(r, c)
            } by {
                lemma_index_in_store(stored_row(r, o, h), c, w, h);
                if !(r == row && c == col) {
                    if stored_row(r, o, h) * w + c == i {
                        lemma_index_injective(
                            stored_row(r, o, h),
                            c,
                            stored_row(row as int, o, h),
                            col as int,
                            w,
                        );
                    }
                }
            }
        }
    }

    /// Write `cell` in row `row` at the columns from `from` up to, not
    /// including, `to`, as far as they are on the screen.
    pub fn fill_span(&mut self, row: usize, from: usize, to: usize, cell: Cell)
        requires
            old(self).wf(),
        ensures
            final(self).wf(),
            final(self).spec_width() == old(self).spec_width(),
            final(self).spec_height() == old(self).spec_height(),
            final(self).spec_row_offset() == old(self).spec_row_offset(),
            forall|r: int, c: int|
                0 <= r < old(self).spec_height() && 0 <= c < old(self).spec_width()
                    ==> #[trigger] final(self).cell_at(r, c) == if r == row && from <= c < to {
                    cell
                } else {
                    old(self).cell_at(r, c)
                },
    {
        if row >= self.height {
            return ;
        }
        let end: usize = if to < self.width {
            to
        } else {
            self.width
        };
        let mut col: usize = from;
        while col < end
            invariant
                self.wf(),
                self.spec_width() == old(self).spec_width(),
                self.spec_height() == old(self).spec_height(),
                self.spec_row_offset() == old(self).spec_row_offset(),
                row < self.spec_height(),
                end <= self.spec_width(),
                end <= to,
                end == to || end == self.spec_width(),
                from <= col,
                col <= end || col == from,
                forall|r: int, c: int|
                    0 <= r < old(self).spec_height() && 0 <= c < old(self).spec_width()
                        ==> #[trigger] self.cell_at(r, c) == if r == row && from <= c < col {
                        cell
                    } else {
                        old(self).cell_at(r, c)
                    },
            decreases end - col,
        {
            self.write(row, col, cell);
            col += 1;
        }
    }

    /// Write `cell` at every column of the rows from `from` up to, not
    /// including, `to`, as far as they are on the screen.
    pub fn fill_rows(&mut self, from: usize, to: usize, cell: Cell)
        requires
            old(self).wf(),
        ensures
            final(self).wf(),
            final(self).spec_width() == old(self).spec_width(),
            final(self).spec_height() == old(self).spec_height(),
            final(self).spec_row_offset() == old(self).spec_row_offset(),
            forall|r: int, c: int|
                0 <= r < old(self).spec_height() && 0 <= c < old(self).spec_width()
                    ==> #[trigger] final(self).cell_at(r, c) == if from <= r < to {
                    cell
                } else {
                    old(self).cell_at(r, c)
                },
    {
        let end: usize = if to < self.height {
            to
        } else {
            self.height
        };
        let width: usize = self.width;
        let mut row: usize = from;
        while row < end
            invariant
                self.wf(),
                self.spec_width() == old(self).spec_width(),
                self.spec_height() == old(self).spec_height(),
                self.spec_row_offset() == old(self).spec_row_offset(),
                width == self.spec_width(),
                end <= self.spec_height(),
                end <= to,
                end == to || end == self.spec_height(),
                from <= row,
                row <= end || row == from,
                forall|r: int, c: int|
                    0 <= r < old(self).spec_height() && 0 <= c < old(self).spec_width()
                        ==> #[trigger] self.cell_at(r, c) == if from <= r < row {
                        cell
                    } else {
                        old(self).cell_at(r, c)
                    },
            decreases end - row,
        {
            self.fill_span(row, 0, width, cell);
            row += 1;
        }
    }

    /// Scroll up one line: the top row leaves the screen, every other row
    /// moves up by one, and the bottom row is filled with `cell`. No row is
    /// moved in the store: the row offset goes one further, around the
    /// height.
    ///
    /// Only the cells of one row are written, whatever the height. The cells
    /// that move keep their marks: one that was drawn before the scroll is
    /// not marked to be drawn again at its new place.
    pub fn new_line(&mut self, cell: Cell)
        requires
            old(self).wf(),
        ensures
            final(self).wf(),
            final(self).spec_width() == old(self).spec_width(),
            final(self).spec_height() == old(self).spec_height(),
            final(self).spec_row_offset() == (old(self).spec_row_offset() + 1) % (
            old(self).spec_height() as int),
            forall|r: int, c: int|
                0 <= r < old(self).spec_height() && 0 <= c < old(self).spec_width()
                    ==> #[trigger] final(self).cell_at(r, c) == if r == old(self).spec_height() - 1 {
                    cell
                } else {
                    old(self).cell_at(r + 1, c)
                },
    {
        let w: usize = self.width;
        let h: usize = self.height;
        let top: usize = self.row_offset;
        proof {
            lemma_index_in_store(top as int, 0, w as int, h as int);
        }
        let base: usize = top * w;
        let mut col: usize = 0;
        while col < w
            invariant
                self.wf(),
                self.width == w,
                self.height == h,
                self.row_offset == top,
                base == top * w,
                base + w <= self.buf@.len(),
                col <= w,
                self.buf@.len() == old(self).buf@.len(),
                forall|k: int|
                    0 <= k < self.buf@.len() ==> #[trigger] self.buf@[k] == if base <= k < base
                        + col {
                        cell
                    } else {
                        old(self).buf@[k]
                    },
            decreases w - col,
        {
            self.buf.set(base + col, cell);
            col += 1;
        }
        self.row_offset = if top + 1 == h {
            0
        } else {
            top + 1
        };
        proof {
            if top + 1 == h {
                assert((top + 1) % (h as int) == 0) by (nonlinear_arith)
                    requires
                        top + 1 == h,
                        h > 0,
                ;
            } else {
                assert((top + 1) % (h as int) == top + 1) by (nonlinear_arith)
                    requires
                        0 <= top + 1 < h,
                ;
            }
        }
        proof {
            let wi = w as int;
            let hi = h as int;
            let o = top as int;
            let o2 = self.row_offset as int;
            assert forall|r: int, c: int| 0 <= r < hi && 0 <= c < wi implies #[trigger] self.cell_at(
                r,
                c,
            ) == if r == hi - 1 {
                cell
            } else {
                old(self).cell_at(r + 1, c)
            } by {
                let p = stored_row(r, o2, hi);
                lemma_index_in_store(p, c, wi, hi);
                if r == hi - 1 {
                    assert(p == o);
                } else {
                    assert(p == stored_row(r + 1, o, hi));
                    assert(p != o);
                    if base <= p * wi + c < base + wi {
                        lemma_index_injective(p, c, o, p * wi + c - base, wi);
                    }
                }
            }
        }
    }

    /// Fill the whole screen with `cell`, and set the row offset back to 0.
    pub fn clear(&mut self, cell: Cell)
        requires
            old(self).wf(),
        ensures
            final(self).wf(),
            final(self).spec_width() == old(self).spec_width(),
            final(self).spec_height() == old(self).spec_height(),
            final(self).spec_row_offset() == 0,
            forall|r: int, c: int|
                0 <= r < old(self).spec_height() && 0 <= c < old(self).spec_width()
                    ==> #[trigger] final(self).cell_at(r, c) == cell,
    {
        self.row_offset = 0;
        let n: usize = self.buf.len();
        let mut i: usize = 0;
        while i < n
            invariant
                self.wf(),
                self.width == old(self).width,
                self.height == old(self).height,
                self.row_offset == 0,
                n == self.buf@.len(),
                i <= n,
                forall|k: int| 0 <= k < i ==> self.buf@[k] == cell,
            decreases n - i,
        {
            self.buf.set(i, cell);
            i += 1;
        }
        proof {
            assert forall|r: int, c: int|
                0 <= r < self.height && 0 <= c < self.width implies #[trigger] self.cell_at(r, c)
                == cell by {
                lemma_index_in_store(r, c, self.width as int, self.height as int);
            }
        }
    }
}

} // verus!
