//! Fonts of grey-scale glyphs: fixed-size glyph bitmaps in 8-bit levels,
//! where they come from a rasterizer and what is drawn of them.

use crate::text_buffer::lemma_index_in_store;
use embedded_graphics::mono_font::mapping::{GlyphMapping, StrGlyphMapping};
use vstd::prelude::*;

verus! {

/// The index that a glyph mapping gives a character: its place among the
/// characters that the mapping string `glyphs` lists, or `replacement` where
/// the string does not list it.
pub uninterp spec fn glyph_position(glyphs: Seq<char>, replacement: usize, c: char) -> usize;

/// The index of the glyph for `c`.
///
/// Not verified: this is `StrGlyphMapping::new(glyphs, replacement)
/// .index(c)` of embedded-graphics. It is taken to depend on the mapping
/// string, the replacement index and the character alone, and nothing more is
/// claimed of it.
#[verifier::external_body]
fn glyph_index(glyphs: &'static str, replacement: usize, c: char) -> (index: usize)
    ensures
        index == glyph_position(glyphs@, replacement, c),
{
    StrGlyphMapping::new(glyphs, replacement).index(c)
}

/// The level at column `i` and row `j` of a glyph cell, when a rasterized
/// bitmap of `width` by `height` levels is laid into the cell with its left
/// edge at column `left` and its top edge at row `top`: the level of the
/// bitmap where it covers the place, 0 elsewhere.
pub open spec fn placed_level(
    bitmap: Seq<u8>,
    width: int,
    height: int,
    left: int,
    top: int,
    i: int,
    j: int,
) -> u8 {
    if 0 <= i - left < width && 0 <= j - top < height {
        bitmap[(j - top) * width + (i - left)]
    } else {
        0
    }
}

/// The row of a glyph cell where the top of a bitmap lies, for a bitmap of
/// `height` rows whose lowest row is `ymin` rows above the base line, the
/// base line being `baseline` rows below the top of the cell.
pub open spec fn glyph_top(baseline: int, ymin: int, height: int) -> int {
    baseline - ymin - height
}

/// Lay a bitmap into a glyph cell with its left edge at column `left` and
/// its top edge at row `top` of the cell.
fn place_at(
    bitmap: &Vec<u8>,
    width: usize,
    height: usize,
    left: i64,
    top: i128,
    cell_width: usize,
    cell_height: usize,
) -> (cell: Vec<u8>)
    requires
        bitmap@.len() == width * height,
        -0x1_0000_0000_0000_0000_0000 <= top <= 0x1_0000_0000_0000_0000_0000,
    ensures
        cell@.len() == cell_width * cell_height,
        forall|i: int, j: int|
            0 <= i < cell_width && 0 <= j < cell_height ==> cell@[j * cell_width + i]
                == #[trigger] placed_level(
                bitmap@,
                width as int,
                height as int,
                left as int,
                top as int,
                i,
                j,
            ),
{
    let total: usize = bitmap.len();
    let mut cell: Vec<u8> = Vec::new();
    let mut j: usize = 0;
    assert(0 * cell_width == 0);
    while j < cell_height
        invariant
            total == width * height,
            total == bitmap@.len(),
            -0x1_0000_0000_0000_0000_0000 <= top <= 0x1_0000_0000_0000_0000_0000,
            j <= cell_height,
            cell@.len() == j * cell_width,
            forall|i: int, jj: int|
                0 <= i < cell_width && 0 <= jj < j ==> cell@[jj * cell_width + i]
                    == #[trigger] placed_level(
                    bitmap@,
                    width as int,
                    height as int,
                    left as int,
                    top as int,
                    i,
                    jj,
                ),
        decreases cell_height - j,
    {
        let ghost base = cell@.len() as int;
        let ghost before = cell@;
        let mut i: usize = 0;
        while i < cell_width
            invariant
                total == width * height,
                total == bitmap@.len(),
                -0x1_0000_0000_0000_0000_0000 <= top <= 0x1_0000_0000_0000_0000_0000,
                j < cell_height,
                i <= cell_width,
                base == j * cell_width,
                cell@.len() == base + i,
                before.len() == base,
                forall|k: int| 0 <= k < base ==> cell@[k] == before[k],
                forall|ii: int|
                    0 <= ii < i ==> cell@[base + ii] == #[trigger] placed_level(
                        bitmap@,
                        width as int,
                        height as int,
                        left as int,
                        top as int,
                        ii,
                        j as int,
                    ),
            decreases cell_width - i,
        {
            let x: i128 = i as i128 - left as i128;
            let y: i128 = j as i128 - top;
            let level: u8 = if 0 <= x && x < width as i128 && 0 <= y && y < height as i128 {
                proof {
                    lemma_index_in_store(y as int, x as int, width as int, height as int);
                }
                bitmap[y as usize * width + x as usize]
            } else {
                0
            };
            cell.push(level);
            i += 1;
        }
        proof {
            assert((j + 1) * cell_width == j * cell_width + cell_width) by (nonlinear_arith);
            assert forall|i: int, jj: int| 0 <= i < cell_width && 0 <= jj < j + 1 implies cell@[jj
                * cell_width + i] == #[trigger] placed_level(
                bitmap@,
                width as int,
                height as int,
                left as int,
                top as int,
                i,
                jj,
            ) by {
                if jj < j {
                    lemma_index_in_store(jj, i, cell_width as int, j as int);
                    assert(cell_width * j == j * cell_width) by (nonlinear_arith);
                    assert(cell@[jj * cell_width + i] == before[jj * cell_width + i]);
                }
            }
        }
        j += 1;
    }
    assert(cell_height * cell_width == cell_width * cell_height) by (nonlinear_arith);
    cell
}

/// Lay a rasterized bitmap into a glyph cell of `cell_width` by
/// `cell_height` levels. The bitmap has `width` by `height` levels, row
/// after row; `xmin` is the column of the cell where its left edge lies, and
/// `ymin` the height of its lowest row over the base line, which is
/// `baseline` rows below the top of the cell. What lies outside the cell is
/// cut off.
pub fn place_glyph(
    bitmap: &Vec<u8>,
    width: usize,
    height: usize,
    xmin: i32,
    ymin: i32,
    baseline: i32,
    cell_width: usize,
    cell_height: usize,
) -> (cell: Vec<u8>)
    requires
        bitmap@.len() == width * height,
    ensures
        cell@.len() == cell_width * cell_height,
        forall|i: int, j: int|
            0 <= i < cell_width && 0 <= j < cell_height ==> cell@[j * cell_width + i]
                == #[trigger] placed_level(
                bitmap@,
                width as int,
                height as int,
                xmin as int,
                glyph_top(baseline as int, ymin as int, height as int),
                i,
                j,
            ),
{
    let top: i128 = baseline as i128 - ymin as i128 - height as i128;
    place_at(bitmap, width, height, xmin as i64, top, cell_width, cell_height)
}

/// One level of a glyph with its place in the glyph cell. It is drawn in
/// the color between the background and the text color that the level
/// stands for: 0 is the background, 255 the text color.
#[derive(Debug, Copy, Clone, PartialEq, Eq, Structural)]
pub struct GlyphPixel {
    /// The column in the glyph cell.
    pub col: u32,
    /// The row in the glyph cell.
    pub row: u32,
    /// The level.
    pub level: u8,
}

/// The index that a glyph mapping gives to a character that it does not
/// list: that of the question mark in a mapping that starts at the blank.
pub const REPLACEMENT_GLYPH: usize = 31;

/// A font of glyphs in 8-bit grey levels, all of one size, as a rasterizer
/// made them.
pub struct Mono8BitFont {
    /// The levels of the glyphs, one glyph cell after the other.
    rasterized: Vec<u8>,
    width: u32,
    height: u32,
    /// The characters that the font has glyphs for, as a mapping string.
    glyphs: &'static str,
    baseline: u32,
    glyph_bytes: usize,
}

impl Mono8BitFont {
    /// The mapping string of the ASCII characters.
    pub const DEFAULT_GLYPHS: &'static str = "\0\u{20}\u{7f}";

    /// The levels that were put into the font, glyph cell after glyph cell.
    pub closed spec fn view(&self) -> Seq<u8> {
        self.rasterized@
    }

    /// The width of a glyph cell.
    pub closed spec fn spec_width(&self) -> u32 {
        self.width
    }

    /// The height of a glyph cell.
    pub closed spec fn spec_height(&self) -> u32 {
        self.height
    }

    /// The row of the base line in a glyph cell.
    pub closed spec fn spec_baseline(&self) -> u32 {
        self.baseline
    }

    /// The mapping string of the font.
    pub closed spec fn spec_glyphs(&self) -> Seq<char> {
        self.glyphs@
    }

    /// The number of levels of a glyph cell.
    pub open spec fn cell_len(&self) -> int {
        self.spec_width() * self.spec_height()
    }

    /// The font knows the size of its glyph cells.
    pub closed spec fn wf(&self) -> bool {
        &&& self.glyph_bytes == self.width * self.height
    }

    /// A font without glyphs yet, for glyph cells of `width` by `height`
    /// levels with the base line at row `baseline`. `None` where the number
    /// of levels of a cell is no `usize`.
    pub fn new(glyphs: &'static str, width: u32, height: u32, baseline: u32) -> (r: Option<
        Mono8BitFont,
    >)
        ensures
            r.is_some() <==> width * height <= usize::MAX,
            r.is_some() ==> {
                let font = r.unwrap();
                &&& font.wf()
                &&& font@ == Seq::<u8>::empty()
                &&& font.spec_width() == width
                &&& font.spec_height() == height
                &&& font.spec_baseline() == baseline
                &&& font.spec_glyphs() == glyphs@
            },
    {
        assert(width * height <= u32::MAX * u32::MAX) by (nonlinear_arith)
            requires
                0 <= width <= u32::MAX,
                0 <= height <= u32::MAX,
        ;
        let bytes: u64 = width as u64 * height as u64;
        if bytes > usize::MAX as u64 {
            return None;
        }
        Some(
            Mono8BitFont {
                rasterized: Vec::new(),
                width,
                height,
                glyphs,
                baseline,
                glyph_bytes: bytes as usize,
            },
        )
    }

    /// Get the size of the characters in the font: width, then height.
    pub fn character_size(&self) -> (size: (u32, u32))
        ensures
            size.0 == self.spec_width(),
            size.1 == self.spec_height(),
    {
        (self.width, self.height)
    }

    /// The row of the base line in a glyph cell.
    pub fn baseline(&self) -> (row: u32)
        ensures
            row == self.spec_baseline(),
    {
        self.baseline
    }

    /// The levels of the glyphs, one glyph cell after the other.
    pub fn rasterized(&self) -> (levels: &Vec<u8>)
        ensures
            levels@ == self@,
    {
        &self.rasterized
    }

    /// Add the glyph of the next character of the mapping: its rasterized
    /// bitmap of `width` by `height` levels is laid into a glyph cell, as
    /// [`place_glyph`] does, for a base line `baseline` rows below the top of
    /// the cell. A bitmap that has not `width * height` levels is refused:
    /// the result is `false` and the font is as before.
    pub fn push_glyph(
        &mut self,
        bitmap: &Vec<u8>,
        width: usize,
        height: usize,
        xmin: i32,
        ymin: i32,
        baseline: i32,
    ) -> (done: bool)
        requires
            old(self).wf(),
        ensures
            final(self).wf(),
            final(self).spec_width() == old(self).spec_width(),
            final(self).spec_height() == old(self).spec_height(),
            final(self).spec_baseline() == old(self).spec_baseline(),
            final(self).spec_glyphs() == old(self).spec_glyphs(),
            done <==> bitmap@.len() == width * height,
            !done ==> final(self)@ == old(self)@,
            done ==> final(self)@.len() == old(self)@.len() + old(self).cell_len(),
            done ==> final(self)@.subrange(0, old(self)@.len() as int) == old(self)@,
            done ==> forall|i: int, j: int|
                0 <= i < old(self).spec_width() && 0 <= j < old(self).spec_height() ==> final(self)@[
                    old(self)@.len() + j * old(self).spec_width() + i
                ] == #[trigger] placed_level(
                    bitmap@,
                    width as int,
                    height as int,
                    xmin as int,
                    glyph_top(baseline as int, ymin as int, height as int),
                    i,
                    j,
                ),
    {
        let total: usize = bitmap.len();
        let fits = match width.checked_mul(height) {
            Some(n) => n == total,
            None => false,
        };
        if !fits {
            return false;
        }
        let top: i128 = baseline as i128 - ymin as i128 - height as i128;
        let cell = place_at(
            bitmap,
            width,
            height,
            xmin as i64,
            top,
            self.width as usize,
            self.height as usize,
        );
        let mut k: usize = 0;
        while k < cell.len()
            invariant
                self.wf(),
                self.spec_width() == old(self).spec_width(),
                self.spec_height() == old(self).spec_height(),
                self.spec_baseline() == old(self).spec_baseline(),
                self.spec_glyphs() == old(self).spec_glyphs(),
                k <= cell@.len(),
                self@ == old(self)@ + cell@.take(k as int),
            decreases cell@.len() - k,
        {
            self.rasterized.push(cell[k]);
            proof {
                assert(cell@.take(k as int + 1) =~= cell@.take(k as int).push(cell@[k as int]));
                assert(self@ =~= old(self)@ + cell@.take(k as int + 1));
            }
            k += 1;
        }
        proof {
            assert(cell@.take(cell@.len() as int) =~= cell@);
            assert(self@.subrange(0, old(self)@.len() as int) =~= old(self)@);
            assert forall|i: int, j: int|
                0 <= i < old(self).spec_width() && 0 <= j < old(self).spec_height() implies self@[
                    old(self)@.len() + j * old(self).spec_width() + i
                ] == #[trigger] placed_level(
                bitmap@,
                width as int,
                height as int,
                xmin as int,
                glyph_top(baseline as int, ymin as int, height as int),
                i,
                j,
            ) by {
                lemma_index_in_store(i, 0, 1, self.width as int);
                lemma_index_in_store(j, i, self.width as int, self.height as int);
                assert(self@[old(self)@.len() + j * self.width + i] == cell@[j * self.width + i]);
            }
        }
        true
    }

    /// Where the glyph cell with the index `index` begins among the levels of
    /// the font: `None` where the font holds no glyph at that index.
    pub fn glyph_start_at(&self, index: usize) -> (r: Option<usize>)
        requires
            self.wf(),
        ensures
            r.is_some() <==> (index + 1) * self.cell_len() <= self@.len(),
            r.is_some() ==> r.unwrap() == index * self.cell_len(),
    {
        let bytes: usize = self.glyph_bytes;
        let total: usize = self.rasterized.len();
        if bytes == 0 {
            assert((index + 1) * 0 == 0);
            assert(index * 0 == 0);
            return Some(0);
        }
        let held: usize = total / bytes;
        if index < held {
            assert((index + 1) * bytes <= total) by (nonlinear_arith)
                requires
                    index + 1 <= total / bytes,
                    bytes > 0,
            ;
            assert(index * bytes <= (index + 1) * bytes) by (nonlinear_arith)
                requires
                    bytes > 0,
                    index >= 0,
            ;
            Some(index * bytes)
        } else {
            assert((index + 1) * bytes > total) by (nonlinear_arith)
                requires
                    index + 1 > total / bytes,
                    bytes > 0,
                    total >= 0,
            ;
            None
        }
    }

    /// Where the glyph cell of `c` begins among the levels of the font:
    /// `None` where the font holds no glyph at the index that the mapping
    /// gives `c`.
    pub fn glyph_start(&self, c: char) -> (r: Option<usize>)
        requires
            self.wf(),
        ensures
            ({
                let index = glyph_position(self.spec_glyphs(), REPLACEMENT_GLYPH, c);
                &&& r.is_some() <==> (index + 1) * self.cell_len() <= self@.len()
                &&& r.is_some() ==> r.unwrap() == index * self.cell_len()
            }),
    {
        let index: usize = glyph_index(self.glyphs, REPLACEMENT_GLYPH, c);
        self.glyph_start_at(index)
    }

    /// The glyph of `c` as it is drawn: one pixel for each level of the
    /// glyph cell, row after row, each with its place in the cell. `None`
    /// where the font holds no glyph for `c`.
    pub fn glyph_pixels(&self, c: char) -> (r: Option<Vec<GlyphPixel>>)
        requires
            self.wf(),
        ensures
            ({
                let index = glyph_position(self.spec_glyphs(), REPLACEMENT_GLYPH, c);
                &&& r.is_some() <==> (index + 1) * self.cell_len() <= self@.len()
                &&& r.is_some() ==> {
                    let pixels = r.unwrap()@;
                    &&& pixels.len() == self.cell_len()
                    &&& forall|i: int, j: int|
                        0 <= i < self.spec_width() && 0 <= j < self.spec_height()
                            ==> #[trigger] pixels[j * self.spec_width() + i] == (GlyphPixel {
                            col: i as u32,
                            row: j as u32,
                            level: self@[index * self.cell_len() + j * self.spec_width() + i],
                        })
                }
            }),
    {
        let start: usize = match self.glyph_start(c) {
            Some(start) => start,
            None => {
                return None;
            },
        };
        let total: usize = self.rasterized.len();
        let ghost index = glyph_position(self.spec_glyphs(), REPLACEMENT_GLYPH, c);
        assert(start + self.cell_len() <= self@.len()) by (nonlinear_arith)
            requires
                start == index * self.cell_len(),
                (index + 1) * self.cell_len() <= self@.len(),
        ;
        let mut pixels: Vec<GlyphPixel> = Vec::new();
        let mut row: u32 = 0;
        assert(0 * self.width == 0);
        while row < self.height
            invariant
                self.wf(),
                total == self@.len(),
                start + self.cell_len() <= self@.len(),
                row <= self.height,
                pixels@.len() == row * self.width,
                forall|i: int, j: int|
                    0 <= i < self.width && 0 <= j < row ==> #[trigger] pixels@[j * self.width + i]
                        == (GlyphPixel {
                        col: i as u32,
                        row: j as u32,
                        level: self@[start + j * self.width + i],
                    }),
            decreases self.height - row,
        {
            let ghost base = pixels@.len() as int;
            let ghost before = pixels@;
            let mut col: u32 = 0;
            while col < self.width
                invariant
                    self.wf(),
                    total == self@.len(),
                    start + self.cell_len() <= self@.len(),
                    row < self.height,
                    col <= self.width,
                    base == row * self.width,
                    before.len() == base,
                    pixels@.len() == base + col,
                    forall|k: int| 0 <= k < base ==> pixels@[k] == before[k],
                    forall|i: int|
                        0 <= i < col ==> #[trigger] pixels@[base + i] == (GlyphPixel {
                            col: i as u32,
                            row,
                            level: self@[start + base + i],
                        }),
                decreases self.width - col,
            {
                proof {
                    lemma_index_in_store(
                        row as int,
                        col as int,
                        self.width as int,
                        self.height as int,
                    );
                }
                let level: u8 = self.rasterized[start + (row as usize * self.width as usize
                    + col as usize)];
                pixels.push(GlyphPixel { col, row, level });
                col += 1;
            }
            proof {
                assert((row + 1) * self.width == row * self.width + self.width)
                    by (nonlinear_arith);
                assert forall|i: int, j: int|
                    0 <= i < self.width && 0 <= j < row + 1 implies #[trigger] pixels@[j
                    * self.width + i] == (GlyphPixel {
                    col: i as u32,
                    row: j as u32,
                    level: self@[start + j * self.width + i],
                }) by {
                    if j < row {
                        lemma_index_in_store(j, i, self.width as int, row as int);
                        assert(self.width * row == row * self.width) by (nonlinear_arith);
                        assert(pixels@[j * self.width + i] == before[j * self.width + i]);
                    } else {
                        assert(pixels@[base + i].col == i);
                    }
                }
            }
            row += 1;
        }
        assert(self.height * self.width == self.width * self.height) by (nonlinear_arith);
        Some(pixels)
    }
}

/// The line of a character cell that a text position refers to.
#[derive(Debug, Copy, Clone, PartialEq, Eq, Structural)]
pub enum Baseline {
    /// The top edge.
    Top,
    /// The bottom edge.
    Bottom,
    /// The middle between the two.
    Middle,
    /// The base line of the letters.
    Alphabetic,
}

/// The color of an underline or a strike-through.
#[derive(Debug)]
pub enum DecorationColor<C> {
    /// There is no such line.
    Unset,
    /// The line has the color of the text.
    TextColor,
    /// The line has a color of its own.
    Custom(C),
}

/// The box that a text takes up, and where the next text begins.
#[derive(Debug, Copy, Clone, PartialEq, Eq, Structural)]
pub struct TextMetrics {
    /// The left edge of the box.
    pub x: i32,
    /// The top edge of the box.
    pub y: i32,
    /// The width of the box.
    pub width: u32,
    /// The height of the box.
    pub height: u32,
    /// The column where the next text begins.
    pub next_x: i32,
    /// The row where the next text begins.
    pub next_y: i32,
}

/// The rows between the top of a glyph cell of `height` rows, with its base
/// line at row `baseline`, and the line that a text position refers to.
pub open spec fn spec_baseline_offset(height: u32, baseline: u32, line: Baseline) -> int {
    match line {
        Baseline::Top => 0,
        Baseline::Bottom => if height == 0 {
            0
        } else {
            height - 1
        },
        Baseline::Middle => if height == 0 {
            0
        } else {
            (height - 1) / 2
        },
        Baseline::Alphabetic => baseline as int,
    }
}

/// A style for rendering text with a [`Mono8BitFont`].
pub struct Mono8BitTextStyle<'a, C> {
    pub font: &'a Mono8BitFont,
    pub text_color: C,
    pub background_color: C,
    pub underline_color: DecorationColor<C>,
    pub strikethrough_color: DecorationColor<C>,
}

impl<'a, C> Mono8BitTextStyle<'a, C> {
    /// Create a new [`Mono8BitTextStyle`] with a [`Mono8BitFont`] and a text
    /// and background color. The text is neither underlined nor struck
    /// through.
    pub fn new(font: &'a Mono8BitFont, text_color: C, background_color: C) -> (style: Self)
        ensures
            style.font == font,
            style.text_color == text_color,
            style.background_color == background_color,
            style.underline_color is Unset,
            style.strikethrough_color is Unset,
    {
        Mono8BitTextStyle {
            font,
            text_color,
            background_color,
            underline_color: DecorationColor::Unset,
            strikethrough_color: DecorationColor::Unset,
        }
    }

    /// The vertical offset between the line position and the top edge of
    /// the bounding box: `None` where it is no `i32`.
    pub fn baseline_offset(&self, baseline: Baseline) -> (r: Option<i32>)
        ensures
            ({
                let offset = spec_baseline_offset(
                    self.font.spec_height(),
                    self.font.spec_baseline(),
                    baseline,
                );
                &&& r.is_some() <==> offset <= i32::MAX
                &&& r.is_some() ==> r.unwrap() == offset
            }),
    {
        let height: u32 = self.font.character_size().1;
        let offset: u32 = match baseline {
            Baseline::Top => 0,
            Baseline::Bottom => height.saturating_sub(1),
            Baseline::Middle => height.saturating_sub(1) / 2,
            Baseline::Alphabetic => self.font.baseline(),
        };
        if offset <= 0x7fff_ffff {
            Some(offset as i32)
        } else {
            None
        }
    }

    /// The height of a line of text.
    pub fn line_height(&self) -> (h: u32)
        ensures
            h == self.font.spec_height(),
    {
        self.font.character_size().1
    }

    /// Set the color of the text. `None` leaves it as it is.
    pub fn set_text_color(&mut self, color: Option<C>)
        ensures
            final(self).font == old(self).font,
            final(self).background_color == old(self).background_color,
            final(self).underline_color == old(self).underline_color,
            final(self).strikethrough_color == old(self).strikethrough_color,
            final(self).text_color == match color {
                Some(c) => c,
                None => old(self).text_color,
            },
    {
        if let Some(c) = color {
            self.text_color = c;
        }
    }

    /// Set the color of the background. `None` leaves it as it is.
    pub fn set_background_color(&mut self, color: Option<C>)
        ensures
            final(self).font == old(self).font,
            final(self).text_color == old(self).text_color,
            final(self).underline_color == old(self).underline_color,
            final(self).strikethrough_color == old(self).strikethrough_color,
            final(self).background_color == match color {
                Some(c) => c,
                None => old(self).background_color,
            },
    {
        if let Some(c) = color {
            self.background_color = c;
        }
    }

    /// Set the color of the underline.
    pub fn set_underline_color(&mut self, color: DecorationColor<C>)
        ensures
            final(self).font == old(self).font,
            final(self).text_color == old(self).text_color,
            final(self).background_color == old(self).background_color,
            final(self).strikethrough_color == old(self).strikethrough_color,
            final(self).underline_color == color,
    {
        self.underline_color = color;
    }

    /// Set the color of the strike-through.
    pub fn set_strikethrough_color(&mut self, color: DecorationColor<C>)
        ensures
            final(self).font == old(self).font,
            final(self).text_color == old(self).text_color,
            final(self).background_color == old(self).background_color,
            final(self).underline_color == old(self).underline_color,
            final(self).strikethrough_color == color,
    {
        self.strikethrough_color = color;
    }

    /// The box of a text of `count` characters whose line position is
    /// `(x, y)`, and the place where the next text begins.
    ///
    /// The box lies at `x`, with its top raised from `y` by the baseline
    /// offset; it is `count` glyph cells wide and one high, or of height 0
    /// where the text is underlined. The next text begins `count` cells to
    /// the right. `None` where one of these numbers cannot be held.
    pub fn measure_string(&self, count: usize, x: i32, y: i32, baseline: Baseline) -> (r: Option<
        TextMetrics,
    >)
        ensures
            ({
                let offset = spec_baseline_offset(
                    self.font.spec_height(),
                    self.font.spec_baseline(),
                    baseline,
                );
                let width = count * self.font.spec_width();
                &&& r.is_some() <==> offset <= i32::MAX && y - offset >= i32::MIN && width
                    <= u32::MAX && x + width <= i32::MAX
                &&& r.is_some() ==> r.unwrap() == (TextMetrics {
                    x,
                    y: (y - offset) as i32,
                    width: width as u32,
                    height: if self.underline_color is Unset {
                        self.font.spec_height()
                    } else {
                        0
                    },
                    next_x: (x + width) as i32,
                    next_y: y,
                })
            }),
    {
        let size = self.font.character_size();
        let ghost wide = count * self.font.spec_width();
        assert(wide >= 0) by (nonlinear_arith)
            requires
                wide == count * self.font.spec_width(),
        ;
        let offset: i32 = match self.baseline_offset(baseline) {
            Some(offset) => offset,
            None => {
                return None;
            },
        };
        let top: i64 = y as i64 - offset as i64;
        if top < -0x8000_0000 {
            return None;
        }
        let width: u32 = if size.0 == 0 || count == 0 {
            assert(wide == 0) by (nonlinear_arith)
                requires
                    wide == count * self.font.spec_width(),
                    self.font.spec_width() == 0 || count == 0,
            ;
            0
        } else {
            let most: u32 = 0xffff_ffff / size.0;
            if count > most as usize {
                assert(wide > u32::MAX) by (nonlinear_arith)
                    requires
                        wide == count * size.0,
                        count > 0xffff_ffffint / (size.0 as int),
                        size.0 > 0,
                ;
                return None;
            }
            assert(wide <= u32::MAX) by (nonlinear_arith)
                requires
                    wide == count * size.0,
                    count <= 0xffff_ffffint / (size.0 as int),
                    size.0 > 0,
                    count >= 0,
            ;
            count as u32 * size.0
        };
        let next: i64 = x as i64 + width as i64;
        if next > 0x7fff_ffff {
            return None;
        }
        let height: u32 = match self.underline_color {
            DecorationColor::Unset => size.1,
            _ => 0,
        };
        Some(TextMetrics { x, y: top as i32, width, height, next_x: next as i32, next_y: y })
    }
}

} // verus!
