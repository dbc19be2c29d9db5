//! Drawing: the interface to a renderer, what a renderer is told of a cell,
//! and the default colors.

use crate::cell::{Cell, Flags};
use crate::color::{Color, NamedColor, Rgb888};
use std::marker::PhantomData;
use vstd::prelude::*;

verus! {

/// A renderer: something that can draw one cell at its place on a display.
///
/// The console calls it for each cell that has changed. What it draws, and
/// whether it succeeds, is its own matter.
pub trait DrawCell {
    /// What a failed drawing reports.
    type Error;

    /// Draw `cell` at row `row` and column `col` of the screen.
    fn draw_cell(&mut self, cell: &Cell, row: usize, col: usize) -> Result<(), Self::Error>;
}

/// Pixel colors that can be mixed: what a renderer of grey-scale glyphs
/// needs.
pub trait ColorInterpolate: Sized + Copy {
    /// Interpolate between two colors by the amount specified in the value.
    /// 0 is fully background color, 255 is fully foreground color.
    fn interpolate(fg: Self, bg: Self, value: u8) -> Self;
}

/// The value between `a` and `b` that lies `value` 255ths of the way from
/// `a` to `b`, rounded to the nearest.
pub open spec fn spec_interpolate_8bit_values(a: u8, b: u8, value: u8) -> int {
    if a > b {
        a - ((a - b) * value + 127) / 255
    } else {
        a + ((b - a) * value + 127) / 255
    }
}

/// The interpolated value lies between its two ends, and is the end itself
/// for the values 0 and 255.
pub proof fn lemma_interpolate_bounds(a: u8, b: u8, value: u8)
    ensures
        a <= b ==> a <= spec_interpolate_8bit_values(a, b, value) <= b,
        a > b ==> b <= spec_interpolate_8bit_values(a, b, value) <= a,
        spec_interpolate_8bit_values(a, b, 0) == a,
        spec_interpolate_8bit_values(a, b, 255) == b,
{
    let d: int = if a > b {
        a - b
    } else {
        b - a
    };
    assert(0 <= d * value <= d * 255) by (nonlinear_arith)
        requires
            0 <= d,
            0 <= value <= 255,
    ;
    assert(d * 0 == 0);
}

/// Interpolate between two 8-bit values by the amount specified in the
/// value. 0 is fully `a`, the background; 255 is fully `b`, the foreground.
pub fn interpolate_8bit_values(a: u8, b: u8, value: u8) -> (r: u8)
    ensures
        r == spec_interpolate_8bit_values(a, b, value),
{
    proof {
        lemma_interpolate_bounds(a, b, value);
    }
    let a16: u16 = a as u16;
    let b16: u16 = b as u16;
    let v16: u16 = value as u16;
    let result: u16 = if a16 > b16 {
        let d: u16 = a16 - b16;
        assert(0 <= d * v16 <= 255 * 255) by (nonlinear_arith)
            requires
                0 <= d <= 255,
                0 <= v16 <= 255,
        ;
        a16 - (d * v16 + 127) / 255
    } else {
        let d: u16 = b16 - a16;
        assert(0 <= d * v16 <= 255 * 255) by (nonlinear_arith)
            requires
                0 <= d <= 255,
                0 <= v16 <= 255,
        ;
        a16 + (d * v16 + 127) / 255
    };
    result as u8
}

/// The color between `bg` and `fg` that `value` stands for: each channel
/// interpolated by itself.
pub open spec fn mix_rgb(fg: Rgb888, bg: Rgb888, value: u8) -> Rgb888 {
    Rgb888 {
        r: spec_interpolate_8bit_values(bg.r, fg.r, value) as u8,
        g: spec_interpolate_8bit_values(bg.g, fg.g, value) as u8,
        b: spec_interpolate_8bit_values(bg.b, fg.b, value) as u8,
    }
}

impl ColorInterpolate for Rgb888 {
    fn interpolate(fg: Self, bg: Self, value: u8) -> (r: Self)
        ensures
            r == mix_rgb(fg, bg, value),
    {
        let r = interpolate_8bit_values(bg.r(), fg.r(), value);
        let g = interpolate_8bit_values(bg.g(), fg.g(), value);
        let b = interpolate_8bit_values(bg.b(), fg.b(), value);
        Rgb888::new(r, g, b)
    }
}

/// The dimmed form of a color: a third of each channel.
pub open spec fn spec_dim_rgb(color: Rgb888) -> Rgb888 {
    Rgb888 { r: color.r / 3, g: color.g / 3, b: color.b / 3 }
}

/// A default function to dim a [`Rgb888`].
#[verifier::when_used_as_spec(spec_dim_rgb)]
pub fn dim_rgb(color: Rgb888) -> (r: Rgb888)
    ensures
        r == spec_dim_rgb(color),
{
    Rgb888::new(color.r() / 3, color.g() / 3, color.b() / 3)
}

/// The brightness of a step of the color cube, from 0 to 5.
pub open spec fn cube_level(step: int) -> int {
    if step == 0 {
        0
    } else {
        step * 40 + 55
    }
}

/// The color of a named color in the default palette.
pub open spec fn named_rgb(name: NamedColor) -> Rgb888 {
    match name {
        NamedColor::Black => Rgb888 { r: 0, g: 0, b: 0 },
        NamedColor::Red => Rgb888 { r: 194, g: 54, b: 33 },
        NamedColor::Green => Rgb888 { r: 37, g: 188, b: 36 },
        NamedColor::Yellow => Rgb888 { r: 173, g: 173, b: 39 },
        NamedColor::Blue => Rgb888 { r: 73, g: 46, b: 225 },
        NamedColor::Magenta => Rgb888 { r: 211, g: 56, b: 211 },
        NamedColor::Cyan => Rgb888 { r: 51, g: 187, b: 200 },
        NamedColor::White => Rgb888 { r: 203, g: 204, b: 205 },
        NamedColor::BrightBlack => Rgb888 { r: 129, g: 131, b: 131 },
        NamedColor::BrightRed => Rgb888 { r: 252, g: 57, b: 31 },
        NamedColor::BrightGreen => Rgb888 { r: 49, g: 231, b: 34 },
        NamedColor::BrightYellow => Rgb888 { r: 234, g: 236, b: 35 },
        NamedColor::BrightBlue => Rgb888 { r: 88, g: 51, b: 255 },
        NamedColor::BrightMagenta => Rgb888 { r: 249, g: 53, b: 248 },
        NamedColor::BrightCyan => Rgb888 { r: 20, g: 240, b: 240 },
        NamedColor::BrightWhite => Rgb888 { r: 233, g: 235, b: 235 },
    }
}

/// The default palette of 256 colors.
///
/// | Indices  | Description                                   |
/// | -------- | --------------------------------------------- |
/// | 0..16    | Named ANSI colors                             |
/// | 16..232  | Color cube, six steps each of red, green, blue |
/// | 232..256 | Grayscale ramp                                |
pub open spec fn spec_palette(index: u8) -> Rgb888 {
    if index < 16 {
        if index == 0 {
            named_rgb(NamedColor::Black)
        } else if index == 1 {
            named_rgb(NamedColor::Red)
        } else if index == 2 {
            named_rgb(NamedColor::Green)
        } else if index == 3 {
            named_rgb(NamedColor::Yellow)
        } else if index == 4 {
            named_rgb(NamedColor::Blue)
        } else if index == 5 {
            named_rgb(NamedColor::Magenta)
        } else if index == 6 {
            named_rgb(NamedColor::Cyan)
        } else if index == 7 {
            named_rgb(NamedColor::White)
        } else if index == 8 {
            named_rgb(NamedColor::BrightBlack)
        } else if index == 9 {
            named_rgb(NamedColor::BrightRed)
        } else if index == 10 {
            named_rgb(NamedColor::BrightGreen)
        } else if index == 11 {
            named_rgb(NamedColor::BrightYellow)
        } else if index == 12 {
            named_rgb(NamedColor::BrightBlue)
        } else if index == 13 {
            named_rgb(NamedColor::BrightMagenta)
        } else if index == 14 {
            named_rgb(NamedColor::BrightCyan)
        } else {
            named_rgb(NamedColor::BrightWhite)
        }
    } else if index < 232 {
        let j = index - 16;
        Rgb888 {
            r: cube_level(j / 36) as u8,
            g: cube_level((j / 6) % 6) as u8,
            b: cube_level(j % 6) as u8,
        }
    } else {
        let level = ((index - 232) * 10 + 8) as u8;
        Rgb888 { r: level, g: level, b: level }
    }
}

/// The entry of the color cube for the steps `r`, `g` and `b` stands at
/// index `16 + 36 r + 6 g + b`; a named color stands at its own index.
pub proof fn lemma_palette_layout(r: u8, g: u8, b: u8, name: NamedColor)
    requires
        r < 6,
        g < 6,
        b < 6,
    ensures
        spec_palette((16 + 36 * r + 6 * g + b) as u8) == (Rgb888 {
            r: cube_level(r as int) as u8,
            g: cube_level(g as int) as u8,
            b: cube_level(b as int) as u8,
        }),
        spec_palette(name.spec_index()) == named_rgb(name),
{
}

/// One step of the color cube as a channel value.
fn cube_channel(step: u8) -> (v: u8)
    requires
        step < 6,
    ensures
        v == cube_level(step as int),
{
    if step == 0 {
        0
    } else {
        step * 40 + 55
    }
}

/// The color of a named color in the default palette.
fn named_to_rgb(name: NamedColor) -> (c: Rgb888)
    ensures
        c == named_rgb(name),
{
    match name {
        NamedColor::Black => Rgb888::new(0, 0, 0),
        NamedColor::Red => Rgb888::new(194, 54, 33),
        NamedColor::Green => Rgb888::new(37, 188, 36),
        NamedColor::Yellow => Rgb888::new(173, 173, 39),
        NamedColor::Blue => Rgb888::new(73, 46, 225),
        NamedColor::Magenta => Rgb888::new(211, 56, 211),
        NamedColor::Cyan => Rgb888::new(51, 187, 200),
        NamedColor::White => Rgb888::new(203, 204, 205),
        NamedColor::BrightBlack => Rgb888::new(129, 131, 131),
        NamedColor::BrightRed => Rgb888::new(252, 57, 31),
        NamedColor::BrightGreen => Rgb888::new(49, 231, 34),
        NamedColor::BrightYellow => Rgb888::new(234, 236, 35),
        NamedColor::BrightBlue => Rgb888::new(88, 51, 255),
        NamedColor::BrightMagenta => Rgb888::new(249, 53, 248),
        NamedColor::BrightCyan => Rgb888::new(20, 240, 240),
        NamedColor::BrightWhite => Rgb888::new(233, 235, 235),
    }
}

/// The color at an index of the default palette.
#[verifier::when_used_as_spec(spec_palette)]
pub fn palette(index: u8) -> (c: Rgb888)
    ensures
        c == spec_palette(index),
{
    match NamedColor::from_index(index) {
        Some(name) => named_to_rgb(name),
        None => {
            if index < 232 {
                let j: u8 = index - 16;
                Rgb888::new(cube_channel(j / 36), cube_channel((j / 6) % 6), cube_channel(j % 6))
            } else {
                let level: u8 = (index - 232) * 10 + 8;
                Rgb888::new(level, level, level)
            }
        },
    }
}

/// The RGB color that a color stands for with the default palette.
pub open spec fn spec_color_to_rgb(color: Color) -> Rgb888 {
    match color {
        Color::RGB(rgb) => rgb,
        Color::Named(name) => spec_palette(name.spec_index()),
        Color::Indexed(index) => spec_palette(index),
    }
}

/// A default function to convert a [`Color`] to [`Rgb888`].
///
/// You can create your own styles with your own color mapping.
#[verifier::when_used_as_spec(spec_color_to_rgb)]
pub fn color_to_rgb(color: Color) -> (r: Rgb888)
    ensures
        r == spec_color_to_rgb(color),
{
    match color {
        Color::RGB(rgb) => rgb,
        Color::Named(name) => palette(name.index()),
        Color::Indexed(index) => palette(index),
    }
}

/// What a renderer is told of a cell: the character, the colors to draw it
/// in, and which of the attributes that change the drawing it has.
#[derive(Debug, Copy, Clone, PartialEq, Eq, Structural)]
pub struct CellPlan {
    /// The character.
    pub c: char,
    /// The color of the character: the cell's foreground, or its background
    /// where the cell is inverse.
    pub fg: Color,
    /// The color behind the character.
    pub bg: Color,
    /// Whether both colors are to be dimmed.
    pub dim: bool,
    /// Whether the bold font is to be used.
    pub bold: bool,
    /// Whether the character is struck out.
    pub strikethrough: bool,
    /// Whether the character is underlined.
    pub underline: bool,
}

impl CellPlan {
    /// What a renderer is told of `cell`.
    pub open spec fn spec_of(cell: Cell) -> CellPlan {
        CellPlan {
            c: cell.c,
            fg: cell.spec_effective_colors().0,
            bg: cell.spec_effective_colors().1,
            dim: cell.flags.spec_contains(Flags::DIM),
            bold: cell.flags.spec_contains(Flags::BOLD),
            strikethrough: cell.flags.spec_contains(Flags::STRIKEOUT),
            underline: cell.flags.spec_contains(Flags::UNDERLINE),
        }
    }

    /// What a renderer is told of `cell`.
    pub fn of(cell: &Cell) -> (plan: CellPlan)
        ensures
            plan == CellPlan::spec_of(*cell),
    {
        let colors = cell.effective_colors();
        CellPlan {
            c: cell.c,
            fg: colors.0,
            bg: colors.1,
            dim: cell.flags.contains(Flags::DIM),
            bold: cell.flags.contains(Flags::BOLD),
            strikethrough: cell.flags.contains(Flags::STRIKEOUT),
            underline: cell.flags.contains(Flags::UNDERLINE),
        }
    }
}

/// A style for drawing the console: the fonts, and how the colors of a
/// cell become pixel colors.
///
/// `F` is the type of the fonts and `C` that of the pixel colors; `M` maps a
/// color to a pixel color and `D` dims a pixel color.
pub struct Style<'a, C, F, M, D> {
    /// The base font to use for the cell.
    pub font: &'a F,
    /// The bold font to use for the cell.
    pub font_bold: &'a F,
    /// A function to convert a [`Color`] to a pixel color.
    pub color_to_pixel: M,
    /// A function to dim a pixel color.
    pub dim_color: D,
    /// Pixel amount to offset all cells by.
    pub offset: (u32, u32),
    /// The pixel colors that the style draws in.
    pub pixel: PhantomData<C>,
}

impl<'a, C, F, M: Fn(Color) -> C, D: Fn(C) -> C> Style<'a, C, F, M, D> {
    /// Both functions of the style take every color.
    pub open spec fn total(&self) -> bool {
        &&& forall|color: Color| call_requires(self.color_to_pixel, (color,))
        &&& forall|pixel: C| call_requires(self.dim_color, (pixel,))
    }

    /// Whether `drawn` are the pixel colors that `cell` is drawn in,
    /// foreground first: those that the color function gives for the colors
    /// of the cell, swapped where the cell is inverse, each then dimmed
    /// where the cell is dim.
    pub open spec fn draws(&self, cell: Cell, drawn: (C, C)) -> bool {
        let plan = CellPlan::spec_of(cell);
        exists|fg: C, bg: C|
            {
                &&& call_ensures(self.color_to_pixel, (plan.fg,), fg)
                &&& call_ensures(self.color_to_pixel, (plan.bg,), bg)
                &&& if plan.dim {
                    &&& call_ensures(self.dim_color, (fg,), drawn.0)
                    &&& call_ensures(self.dim_color, (bg,), drawn.1)
                } else {
                    drawn == (fg, bg)
                }
            }
    }

    /// Create a new [`Style`], with no offset.
    pub fn new(font: &'a F, font_bold: &'a F, color_to_pixel: M, dim_color: D) -> (style: Self)
        ensures
            style.font == font,
            style.font_bold == font_bold,
            style.color_to_pixel == color_to_pixel,
            style.dim_color == dim_color,
            style.offset == (0u32, 0u32),
    {
        Style { font, font_bold, color_to_pixel, dim_color, offset: (0, 0), pixel: PhantomData }
    }

    /// Call the `color_to_pixel` function.
    pub fn color_to_pixel(&self, color: Color) -> (pixel: C)
        requires
            call_requires(self.color_to_pixel, (color,)),
        ensures
            call_ensures(self.color_to_pixel, (color,), pixel),
    {
        (self.color_to_pixel)(color)
    }

    /// Call the `dim_color` function.
    pub fn dim_color(&self, color: C) -> (pixel: C)
        requires
            call_requires(self.dim_color, (color,)),
        ensures
            call_ensures(self.dim_color, (color,), pixel),
    {
        (self.dim_color)(color)
    }

    /// The font that `cell` is drawn in: the bold one for a bold cell.
    pub fn font_of(&self, cell: &Cell) -> (font: &'a F)
        ensures
            font == if cell.flags.spec_contains(Flags::BOLD) {
                self.font_bold
            } else {
                self.font
            },
    {
        if cell.flags.contains(Flags::BOLD) {
            self.font_bold
        } else {
            self.font
        }
    }

    /// The pixel colors that `cell` is drawn in, foreground first.
    pub fn colors_of(&self, cell: &Cell) -> (drawn: (C, C))
        requires
            self.total(),
        ensures
            self.draws(*cell, drawn),
    {
        let plan = CellPlan::of(cell);
        let fg = (self.color_to_pixel)(plan.fg);
        let bg = (self.color_to_pixel)(plan.bg);
        if plan.dim {
            let ghost witness = (fg, bg);
            let dimmed = ((self.dim_color)(fg), (self.dim_color)(bg));
            proof {
                assert(call_ensures(self.color_to_pixel, (plan.fg,), witness.0));
            }
            dimmed
        } else {
            (fg, bg)
        }
    }
}

/// The pixel where the cell at `index` along one axis begins, for cells of
/// `size` pixels that start `offset` pixels in.
pub open spec fn pixel_start(index: int, size: int, offset: int) -> int {
    index * size + offset
}

/// The pixel where the cell at `(row, col)` begins, as `(x, y)`, for cells
/// `width` pixels wide and `height` pixels high on a screen that starts
/// `offset` pixels in. `None` where a coordinate is no `i32`.
pub fn cell_origin(row: usize, col: usize, width: u32, height: u32, offset: (u32, u32)) -> (r:
    Option<(i32, i32)>)
    ensures
        r.is_some() <==> pixel_start(col as int, width as int, offset.0 as int) <= i32::MAX
            && pixel_start(row as int, height as int, offset.1 as int) <= i32::MAX,
        r.is_some() ==> r.unwrap().0 == pixel_start(col as int, width as int, offset.0 as int)
            && r.unwrap().1 == pixel_start(row as int, height as int, offset.1 as int),
{
    let x = axis_start(col, width, offset.0);
    let y = axis_start(row, height, offset.1);
    match (x, y) {
        (Some(x), Some(y)) => Some((x, y)),
        _ => None,
    }
}

/// The pixel where the cell at `index` along one axis begins; `None` where
/// it is no `i32`.
fn axis_start(index: usize, size: u32, offset: u32) -> (r: Option<i32>)
    ensures
        r.is_some() <==> pixel_start(index as int, size as int, offset as int) <= i32::MAX,
        r.is_some() ==> r.unwrap() == pixel_start(index as int, size as int, offset as int),
{
    let limit: u64 = 0x7fff_ffff;
    if offset as u64 > limit {
        assert(index * size >= 0) by (nonlinear_arith)
            requires
                index >= 0,
                size >= 0,
        ;
        return None;
    }
    if size == 0 || index == 0 {
        assert(index * size == 0) by (nonlinear_arith)
            requires
                index == 0 || size == 0,
        ;
        return Some(offset as i32);
    }
    let room: u64 = limit - offset as u64;
    if index as u64 > room / (size as u64) {
        assert(index * size > room) by (nonlinear_arith)
            requires
                index > room / (size as u64),
                size > 0,
                room >= 0,
        ;
        return None;
    }
    assert(index * size <= room) by (nonlinear_arith)
        requires
            index <= room / (size as u64),
            size > 0,
            index >= 0,
    ;
    let start: u64 = index as u64 * size as u64 + offset as u64;
    Some(start as i32)
}

} // verus!
