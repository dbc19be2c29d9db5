//! From a byte stream to the operations of the terminal.
//!
//! The tokenizer of `vte` cuts the byte stream into printable characters,
//! control bytes, escape sequences and control sequences (CSI), the last
//! with their numeric parameters. The functions here say which operations
//! each of them stands for; the [`Performer`] gathers these as the tokenizer
//! reports what it finds. What this terminal does not know stands for no
//! operation.

use crate::ansi::{Attr, ClearMode, Command, LineClearMode, Mode};
use crate::color::{Color, NamedColor, Rgb888};
use vstd::prelude::*;

verus! {

/// The parameters of a control sequence: each one a sequence of numbers, the
/// parameter itself and the sub-parameters that follow it after colons.
pub open spec fn params_view(params: &Vec<Vec<u16>>) -> Seq<Seq<u16>> {
    Seq::new(params@.len(), |i: int| params@[i]@)
}

/// The number that a parameter gives: its first value, 0 where it is empty.
pub open spec fn first_value(param: Seq<u16>) -> u16 {
    if param.len() > 0 {
        param[0]
    } else {
        0
    }
}

/// The number of the parameter at `index`, or `default` where there is no
/// such parameter or it is 0.
pub open spec fn param_or(params: Seq<Seq<u16>>, index: int, default: u16) -> u16 {
    if 0 <= index < params.len() && first_value(params[index]) != 0 {
        first_value(params[index])
    } else {
        default
    }
}

/// The operation that a control byte stands for: backspace, tab, the three
/// line feeds and carriage return.
pub open spec fn control_command(byte: u8) -> Option<Command> {
    if byte == 0x08 {
        Some(Command::Backspace)
    } else if byte == 0x09 {
        Some(Command::PutTab(1))
    } else if byte == 0x0a || byte == 0x0b || byte == 0x0c {
        Some(Command::Linefeed)
    } else if byte == 0x0d {
        Some(Command::CarriageReturn)
    } else {
        None
    }
}

/// The operations that an escape sequence stands for, given by its
/// intermediate bytes and its final byte: `ESC D` is a line feed, `ESC E` a
/// line feed and a carriage return, `ESC 7` saves the cursor and `ESC 8`
/// restores it.
pub open spec fn escape_commands(intermediates: Seq<u8>, byte: u8) -> Seq<Command> {
    if intermediates.len() != 0 {
        Seq::empty()
    } else if byte == 0x44 {
        seq![Command::Linefeed]
    } else if byte == 0x45 {
        seq![Command::Linefeed, Command::CarriageReturn]
    } else if byte == 0x37 {
        seq![Command::SaveCursorPosition]
    } else if byte == 0x38 {
        seq![Command::RestoreCursorPosition]
    } else {
        Seq::empty()
    }
}

/// The palette color of a number, where it is a byte.
pub open spec fn indexed_color(n: u16) -> Option<Color> {
    if n <= 255 {
        Some(Color::Indexed(n as u8))
    } else {
        None
    }
}

/// The color of three channels, where each is a byte.
pub open spec fn rgb_color(r: u16, g: u16, b: u16) -> Option<Color> {
    if r <= 255 && g <= 255 && b <= 255 {
        Some(Color::RGB(Rgb888 { r: r as u8, g: g as u8, b: b as u8 }))
    } else {
        None
    }
}

/// The named color of the palette index `i`, black where there is none.
pub open spec fn named_color(i: u8) -> Color {
    match NamedColor::spec_from_index(i) {
        Some(name) => Color::Named(name),
        None => Color::Named(NamedColor::Black),
    }
}

/// The attribute that a graphic-rendition number without sub-parameters
/// stands for.
pub open spec fn simple_attr(code: u16) -> Option<Attr> {
    if code == 0 {
        Some(Attr::Reset)
    } else if code == 1 {
        Some(Attr::Bold)
    } else if code == 2 {
        Some(Attr::Dim)
    } else if code == 3 {
        Some(Attr::Italic)
    } else if code == 4 {
        Some(Attr::Underline)
    } else if code == 5 {
        Some(Attr::BlinkSlow)
    } else if code == 6 {
        Some(Attr::BlinkFast)
    } else if code == 7 {
        Some(Attr::Reverse)
    } else if code == 8 {
        Some(Attr::Hidden)
    } else if code == 9 {
        Some(Attr::Strike)
    } else if code == 21 {
        Some(Attr::CancelBold)
    } else if code == 22 {
        Some(Attr::CancelBoldDim)
    } else if code == 23 {
        Some(Attr::CancelItalic)
    } else if code == 24 {
        Some(Attr::CancelUnderline)
    } else if code == 25 {
        Some(Attr::CancelBlink)
    } else if code == 27 {
        Some(Attr::CancelReverse)
    } else if code == 28 {
        Some(Attr::CancelHidden)
    } else if code == 29 {
        Some(Attr::CancelStrike)
    } else if 30 <= code <= 37 {
        Some(Attr::Foreground(named_color((code - 30) as u8)))
    } else if code == 39 {
        Some(Attr::Foreground(Color::Named(NamedColor::BrightWhite)))
    } else if 40 <= code <= 47 {
        Some(Attr::Background(named_color((code - 40) as u8)))
    } else if code == 49 {
        Some(Attr::Background(Color::Named(NamedColor::Black)))
    } else if 90 <= code <= 97 {
        Some(Attr::Foreground(named_color((code - 90 + 8) as u8)))
    } else if 100 <= code <= 107 {
        Some(Attr::Background(named_color((code - 100 + 8) as u8)))
    } else {
        None
    }
}

/// The color that the sub-parameters of a 38 or 48 give: `38:5:n` is a
/// palette color, `38:2:r:g:b` an RGB color, which may have a color space
/// before the channels.
pub open spec fn colon_color(param: Seq<u16>) -> Option<Color> {
    if param.len() >= 3 && param[1] == 5 {
        indexed_color(param[2])
    } else if param.len() == 5 && param[1] == 2 {
        rgb_color(param[2], param[3], param[4])
    } else if param.len() >= 6 && param[1] == 2 {
        rgb_color(param[3], param[4], param[5])
    } else {
        None
    }
}

/// The color that the parameters after a 38 or 48 at `index` give: `5 ; n`
/// is a palette color, `2 ; r ; g ; b` an RGB color.
pub open spec fn following_color(params: Seq<Seq<u16>>, index: int) -> Option<Color> {
    if index + 1 >= params.len() {
        None
    } else if first_value(params[index + 1]) == 5 {
        if index + 2 < params.len() {
            indexed_color(first_value(params[index + 2]))
        } else {
            None
        }
    } else if first_value(params[index + 1]) == 2 {
        if index + 4 < params.len() {
            rgb_color(
                first_value(params[index + 2]),
                first_value(params[index + 3]),
                first_value(params[index + 4]),
            )
        } else {
            None
        }
    } else {
        None
    }
}

/// How many parameters the attribute at `index` takes up: one, but for a 38
/// or 48 without sub-parameters, which takes the color's parameters too.
pub open spec fn rendition_width(params: Seq<Seq<u16>>, index: int) -> int {
    let code = first_value(params[index]);
    if (code == 38 || code == 48) && params[index].len() <= 1 {
        if index + 1 >= params.len() {
            1
        } else if first_value(params[index + 1]) == 5 {
            if index + 2 < params.len() {
                3
            } else {
                2
            }
        } else if first_value(params[index + 1]) == 2 {
            if index + 4 < params.len() {
                5
            } else {
                params.len() - index
            }
        } else {
            2
        }
    } else {
        1
    }
}

/// The attribute that the graphic-rendition parameter at `index` stands
/// for.
pub open spec fn rendition_at(params: Seq<Seq<u16>>, index: int) -> Option<Attr> {
    let param = params[index];
    let code = first_value(param);
    if code == 38 || code == 48 {
        let color = if param.len() > 1 {
            colon_color(param)
        } else {
            following_color(params, index)
        };
        match color {
            Some(c) => if code == 38 {
                Some(Attr::Foreground(c))
            } else {
                Some(Attr::Background(c))
            },
            None => None,
        }
    } else if param.len() > 1 {
        if code == 4 {
            if param[1] == 0 {
                Some(Attr::CancelUnderline)
            } else {
                Some(Attr::Underline)
            }
        } else {
            None
        }
    } else {
        simple_attr(code)
    }
}

/// The pen changes that the graphic-rendition parameters from `index` on
/// stand for.
pub open spec fn rendition_commands(params: Seq<Seq<u16>>, index: int) -> Seq<Command>
    decreases params.len() - index,
{
    if index < 0 || index >= params.len() {
        Seq::empty()
    } else {
        let rest = rendition_commands(params, index + rendition_width(params, index));
        match rendition_at(params, index) {
            Some(attr) => seq![Command::TerminalAttribute(attr)] + rest,
            None => rest,
        }
    }
}

/// The mode changes that the parameters stand for: one for each parameter
/// that names a mode, among the private modes or among the others; `set`
/// tells whether the modes are set or unset.
pub open spec fn mode_commands(params: Seq<Seq<u16>>, private: bool, set: bool) -> Seq<Command>
    decreases params.len(),
{
    if params.len() == 0 {
        Seq::empty()
    } else {
        let before = mode_commands(params.drop_last(), private, set);
        match Mode::spec_from_primitive(private, first_value(params.last())) {
            Some(mode) => before.push(
                if set {
                    Command::SetMode(mode)
                } else {
                    Command::UnsetMode(mode)
                },
            ),
            None => before,
        }
    }
}

/// The way of clearing the screen that a number names.
pub open spec fn clear_mode(n: u16) -> Option<ClearMode> {
    if n == 0 {
        Some(ClearMode::Below)
    } else if n == 1 {
        Some(ClearMode::Above)
    } else if n == 2 {
        Some(ClearMode::All)
    } else if n == 3 {
        Some(ClearMode::Saved)
    } else {
        None
    }
}

/// The way of clearing a line that a number names.
pub open spec fn line_clear_mode(n: u16) -> Option<LineClearMode> {
    if n == 0 {
        Some(LineClearMode::Right)
    } else if n == 1 {
        Some(LineClearMode::Left)
    } else if n == 2 {
        Some(LineClearMode::All)
    } else {
        None
    }
}

/// The operations that a control sequence without intermediate bytes stands
/// for, given by its parameters and its final character.
///
/// A count is the first parameter, 1 where it is missing or 0. Rows and
/// columns are counted from 1 in a sequence and from 0 in an operation.
pub open spec fn plain_commands(params: Seq<Seq<u16>>, action: char) -> Seq<Command> {
    let count = param_or(params, 0, 1) as usize;
    if action == 'A' {
        seq![Command::MoveUp(count)]
    } else if action == 'B' || action == 'e' {
        seq![Command::MoveDown(count)]
    } else if action == 'C' || action == 'a' {
        seq![Command::MoveForward(count)]
    } else if action == 'D' {
        seq![Command::MoveBackward(count)]
    } else if action == 'E' {
        seq![Command::MoveDownAndCr(count)]
    } else if action == 'F' {
        seq![Command::MoveUpAndCr(count)]
    } else if action == 'G' || action == '`' {
        seq![Command::GotoCol((count - 1) as usize)]
    } else if action == 'd' {
        seq![Command::GotoLine((count - 1) as usize)]
    } else if action == 'H' || action == 'f' {
        seq![
            Command::Goto(
                (param_or(params, 0, 1) - 1) as usize,
                (param_or(params, 1, 1) - 1) as usize,
            ),
        ]
    } else if action == 'J' {
        match clear_mode(param_or(params, 0, 0)) {
            Some(mode) => seq![Command::ClearScreen(mode)],
            None => Seq::empty(),
        }
    } else if action == 'K' {
        match line_clear_mode(param_or(params, 0, 0)) {
            Some(mode) => seq![Command::ClearLine(mode)],
            None => Seq::empty(),
        }
    } else if action == 'P' {
        seq![Command::DeleteChars(count)]
    } else if action == 'X' {
        seq![Command::EraseChars(count)]
    } else if action == 'S' {
        seq![Command::ScrollUp(count)]
    } else if action == 'T' {
        seq![Command::ScrollDown(count)]
    } else if action == 's' {
        seq![Command::SaveCursorPosition]
    } else if action == 'u' {
        seq![Command::RestoreCursorPosition]
    } else if action == 'n' {
        seq![Command::DeviceStatus(param_or(params, 0, 0) as usize)]
    } else if action == 'r' {
        seq![
            Command::SetScrollingRegion(
                count,
                if param_or(params, 1, 0) != 0 {
                    Some(param_or(params, 1, 0) as usize)
                } else {
                    None
                },
            ),
        ]
    } else if action == 'h' {
        mode_commands(params, false, true)
    } else if action == 'l' {
        mode_commands(params, false, false)
    } else if action == 'm' {
        if params.len() == 0 {
            seq![Command::TerminalAttribute(Attr::Reset)]
        } else {
            rendition_commands(params, 0)
        }
    } else {
        Seq::empty()
    }
}

/// The operations that a control sequence stands for, given by its
/// parameters, its intermediate bytes, whether the tokenizer had to drop
/// some of these, and its final character. With the intermediate byte `?`
/// only the private modes can be set and unset; other intermediate bytes
/// give nothing.
pub open spec fn csi_commands(
    params: Seq<Seq<u16>>,
    intermediates: Seq<u8>,
    ignore: bool,
    action: char,
) -> Seq<Command> {
    if ignore || intermediates.len() > 1 {
        Seq::empty()
    } else if intermediates.len() == 1 {
        if intermediates[0] == 0x3f && action == 'h' {
            mode_commands(params, true, true)
        } else if intermediates[0] == 0x3f && action == 'l' {
            mode_commands(params, true, false)
        } else {
            Seq::empty()
        }
    } else {
        plain_commands(params, action)
    }
}

/// The lone command as a list.
fn single(command: Command) -> (list: Vec<Command>)
    ensures
        list@ == seq![command],
{
    let mut list: Vec<Command> = Vec::new();
    list.push(command);
    assert(list@ =~= seq![command]);
    list
}

/// The number that a parameter gives.
fn first_of(param: &Vec<u16>) -> (v: u16)
    ensures
        v == first_value(param@),
{
    if param.len() > 0 {
        param[0]
    } else {
        0
    }
}

/// The number of the parameter at `index`, or `default`.
fn param_at(params: &Vec<Vec<u16>>, index: usize, default: u16) -> (v: u16)
    ensures
        v == param_or(params_view(params), index as int, default),
{
    if index < params.len() {
        let v = first_of(&params[index]);
        if v != 0 {
            return v;
        }
    }
    default
}

/// The operation that a control byte stands for, `None` where this terminal
/// knows none for it.
pub fn decode_execute(byte: u8) -> (r: Option<Command>)
    ensures
        r == control_command(byte),
{
    if byte == 0x08 {
        Some(Command::Backspace)
    } else if byte == 0x09 {
        Some(Command::PutTab(1))
    } else if byte == 0x0a || byte == 0x0b || byte == 0x0c {
        Some(Command::Linefeed)
    } else if byte == 0x0d {
        Some(Command::CarriageReturn)
    } else {
        None
    }
}

/// The operations that an escape sequence stands for.
pub fn decode_esc(intermediates: &Vec<u8>, byte: u8) -> (list: Vec<Command>)
    ensures
        list@ == escape_commands(intermediates@, byte),
{
    if intermediates.len() != 0 {
        Vec::new()
    } else if byte == 0x44 {
        single(Command::Linefeed)
    } else if byte == 0x45 {
        let mut list = single(Command::Linefeed);
        list.push(Command::CarriageReturn);
        assert(list@ =~= seq![Command::Linefeed, Command::CarriageReturn]);
        list
    } else if byte == 0x37 {
        single(Command::SaveCursorPosition)
    } else if byte == 0x38 {
        single(Command::RestoreCursorPosition)
    } else {
        Vec::new()
    }
}

/// The palette color of a number, where it is a byte.
fn indexed(n: u16) -> (r: Option<Color>)
    ensures
        r == indexed_color(n),
{
    if n <= 255 {
        Some(Color::Indexed(n as u8))
    } else {
        None
    }
}

/// The color of three channels, where each is a byte.
fn rgb(r: u16, g: u16, b: u16) -> (c: Option<Color>)
    ensures
        c == rgb_color(r, g, b),
{
    if r <= 255 && g <= 255 && b <= 255 {
        Some(Color::RGB(Rgb888::new(r as u8, g as u8, b as u8)))
    } else {
        None
    }
}

/// The named color of a palette index.
fn named(i: u8) -> (c: Color)
    ensures
        c == named_color(i),
{
    match NamedColor::from_index(i) {
        Some(name) => Color::Named(name),
        None => Color::Named(NamedColor::Black),
    }
}

/// The attribute that a graphic-rendition number stands for.
fn simple(code: u16) -> (r: Option<Attr>)
    ensures
        r == simple_attr(code),
{
    if code == 0 {
        Some(Attr::Reset)
    } else if code == 1 {
        Some(Attr::Bold)
    } else if code == 2 {
        Some(Attr::Dim)
    } else if code == 3 {
        Some(Attr::Italic)
    } else if code == 4 {
        Some(Attr::Underline)
    } else if code == 5 {
        Some(Attr::BlinkSlow)
    } else if code == 6 {
        Some(Attr::BlinkFast)
    } else if code == 7 {
        Some(Attr::Reverse)
    } else if code == 8 {
        Some(Attr::Hidden)
    } else if code == 9 {
        Some(Attr::Strike)
    } else if code == 21 {
        Some(Attr::CancelBold)
    } else if code == 22 {
        Some(Attr::CancelBoldDim)
    } else if code == 23 {
        Some(Attr::CancelItalic)
    } else if code == 24 {
        Some(Attr::CancelUnderline)
    } else if code == 25 {
        Some(Attr::CancelBlink)
    } else if code == 27 {
        Some(Attr::CancelReverse)
    } else if code == 28 {
        Some(Attr::CancelHidden)
    } else if code == 29 {
        Some(Attr::CancelStrike)
    } else if 30 <= code && code <= 37 {
        Some(Attr::Foreground(named((code - 30) as u8)))
    } else if code == 39 {
        Some(Attr::Foreground(Color::Named(NamedColor::BrightWhite)))
    } else if 40 <= code && code <= 47 {
        Some(Attr::Background(named((code - 40) as u8)))
    } else if code == 49 {
        Some(Attr::Background(Color::Named(NamedColor::Black)))
    } else if 90 <= code && code <= 97 {
        Some(Attr::Foreground(named((code - 90 + 8) as u8)))
    } else if 100 <= code && code <= 107 {
        Some(Attr::Background(named((code - 100 + 8) as u8)))
    } else {
        None
    }
}

/// The color in the sub-parameters of a 38 or 48.
fn color_of_sub_params(param: &Vec<u16>) -> (r: Option<Color>)
    ensures
        r == colon_color(param@),
{
    let n: usize = param.len();
    if n >= 3 && param[1] == 5 {
        indexed(param[2])
    } else if n == 5 && param[1] == 2 {
        rgb(param[2], param[3], param[4])
    } else if n >= 6 && param[1] == 2 {
        rgb(param[3], param[4], param[5])
    } else {
        None
    }
}

/// The color in the parameters after a 38 or 48, and how many parameters
/// the whole takes up.
fn color_of_params(params: &Vec<Vec<u16>>, index: usize) -> (r: (Option<Color>, usize))
    requires
        index < params@.len(),
        params@[index as int]@.len() <= 1,
        first_value(params@[index as int]@) == 38 || first_value(params@[index as int]@) == 48,
    ensures
        r.0 == following_color(params_view(params), index as int),
        r.1 == rendition_width(params_view(params), index as int),
        1 <= r.1 <= params@.len() - index,
{
    let n: usize = params.len();
    if n - index <= 1 {
        return (None, 1);
    }
    let kind = first_of(&params[index + 1]);
    if kind == 5 {
        if n - index > 2 {
            (indexed(first_of(&params[index + 2])), 3)
        } else {
            (None, 2)
        }
    } else if kind == 2 {
        if n - index > 4 {
            (
                rgb(
                    first_of(&params[index + 2]),
                    first_of(&params[index + 3]),
                    first_of(&params[index + 4]),
                ),
                5,
            )
        } else {
            (None, n - index)
        }
    } else {
        (None, 2)
    }
}

/// The attribute of the graphic-rendition parameter at `index`, and how
/// many parameters it takes up.
fn rendition(params: &Vec<Vec<u16>>, index: usize) -> (r: (Option<Attr>, usize))
    requires
        index < params@.len(),
    ensures
        r.0 == rendition_at(params_view(params), index as int),
        r.1 == rendition_width(params_view(params), index as int),
        1 <= r.1 <= params@.len() - index,
{
    let param = &params[index];
    let code = first_of(param);
    if code == 38 || code == 48 {
        let (color, width) = if param.len() > 1 {
            (color_of_sub_params(param), 1)
        } else {
            color_of_params(params, index)
        };
        let attr = match color {
            Some(c) => if code == 38 {
                Some(Attr::Foreground(c))
            } else {
                Some(Attr::Background(c))
            },
            None => None,
        };
        (attr, width)
    } else if param.len() > 1 {
        if code == 4 {
            if param[1] == 0 {
                (Some(Attr::CancelUnderline), 1)
            } else {
                (Some(Attr::Underline), 1)
            }
        } else {
            (None, 1)
        }
    } else {
        (simple(code), 1)
    }
}

/// The pen changes that graphic-rendition parameters stand for.
fn decode_rendition(params: &Vec<Vec<u16>>) -> (list: Vec<Command>)
    ensures
        list@ == rendition_commands(params_view(params), 0),
{
    let ghost all = params_view(params);
    let mut list: Vec<Command> = Vec::new();
    let mut i: usize = 0;
    assert(list@ + rendition_commands(all, 0) =~= rendition_commands(all, 0));
    while i < params.len()
        invariant
            all == params_view(params),
            i <= params@.len(),
            list@ + rendition_commands(all, i as int) == rendition_commands(all, 0),
        decreases params@.len() - i,
    {
        let ghost before = list@;
        let (attr, width) = rendition(params, i);
        match attr {
            Some(a) => {
                list.push(Command::TerminalAttribute(a));
            },
            None => {},
        }
        proof {
            let rest = rendition_commands(all, i as int + width as int);
            assert(list@ + rest =~= before + rendition_commands(all, i as int));
        }
        i += width;
    }
    assert(list@ + rendition_commands(all, i as int) =~= list@);
    list
}

/// The mode changes that parameters stand for.
fn decode_modes(params: &Vec<Vec<u16>>, private: bool, set: bool) -> (list: Vec<Command>)
    ensures
        list@ == mode_commands(params_view(params), private, set),
{
    let ghost all = params_view(params);
    let mut list: Vec<Command> = Vec::new();
    let mut i: usize = 0;
    assert(all.take(0) =~= Seq::empty());
    while i < params.len()
        invariant
            all == params_view(params),
            i <= params@.len(),
            list@ == mode_commands(all.take(i as int), private, set),
        decreases params@.len() - i,
    {
        let num = first_of(&params[i]);
        proof {
            let next = all.take(i as int + 1);
            assert(next.drop_last() =~= all.take(i as int));
            assert(next.last() == params@[i as int]@);
        }
        match Mode::from_primitive(private, num) {
            Some(mode) => {
                list.push(
                    if set {
                        Command::SetMode(mode)
                    } else {
                        Command::UnsetMode(mode)
                    },
                );
            },
            None => {},
        }
        i += 1;
    }
    assert(all.take(all.len() as int) =~= all);
    list
}

/// The operations that a control sequence without intermediate bytes stands
/// for.
fn decode_plain(params: &Vec<Vec<u16>>, action: char) -> (list: Vec<Command>)
    ensures
        list@ == plain_commands(params_view(params), action),
{
    let first: u16 = param_at(params, 0, 1);
    let count: usize = first as usize;
    if action == 'A' {
        single(Command::MoveUp(count))
    } else if action == 'B' || action == 'e' {
        single(Command::MoveDown(count))
    } else if action == 'C' || action == 'a' {
        single(Command::MoveForward(count))
    } else if action == 'D' {
        single(Command::MoveBackward(count))
    } else if action == 'E' {
        single(Command::MoveDownAndCr(count))
    } else if action == 'F' {
        single(Command::MoveUpAndCr(count))
    } else if action == 'G' || action == '`' {
        single(Command::GotoCol(count - 1))
    } else if action == 'd' {
        single(Command::GotoLine(count - 1))
    } else if action == 'H' || action == 'f' {
        let col: u16 = param_at(params, 1, 1);
        single(Command::Goto(count - 1, col as usize - 1))
    } else if action == 'J' {
        let n = param_at(params, 0, 0);
        if n == 0 {
            single(Command::ClearScreen(ClearMode::Below))
        } else if n == 1 {
            single(Command::ClearScreen(ClearMode::Above))
        } else if n == 2 {
            single(Command::ClearScreen(ClearMode::All))
        } else if n == 3 {
            single(Command::ClearScreen(ClearMode::Saved))
        } else {
            Vec::new()
        }
    } else if action == 'K' {
        let n = param_at(params, 0, 0);
        if n == 0 {
            single(Command::ClearLine(LineClearMode::Right))
        } else if n == 1 {
            single(Command::ClearLine(LineClearMode::Left))
        } else if n == 2 {
            single(Command::ClearLine(LineClearMode::All))
        } else {
            Vec::new()
        }
    } else if action == 'P' {
        single(Command::DeleteChars(count))
    } else if action == 'X' {
        single(Command::EraseChars(count))
    } else if action == 'S' {
        single(Command::ScrollUp(count))
    } else if action == 'T' {
        single(Command::ScrollDown(count))
    } else if action == 's' {
        single(Command::SaveCursorPosition)
    } else if action == 'u' {
        single(Command::RestoreCursorPosition)
    } else if action == 'n' {
        single(Command::DeviceStatus(param_at(params, 0, 0) as usize))
    } else if action == 'r' {
        let bottom: u16 = param_at(params, 1, 0);
        single(
            Command::SetScrollingRegion(
                count,
                if bottom != 0 {
                    Some(bottom as usize)
                } else {
                    None
                },
            ),
        )
    } else if action == 'h' {
        decode_modes(params, false, true)
    } else if action == 'l' {
        decode_modes(params, false, false)
    } else if action == 'm' {
        if params.len() == 0 {
            single(Command::TerminalAttribute(Attr::Reset))
        } else {
            decode_rendition(params)
        }
    } else {
        Vec::new()
    }
}

/// The operations that a control sequence stands for: none where this
/// terminal does not know the sequence.
pub fn decode_csi(params: &Vec<Vec<u16>>, intermediates: &Vec<u8>, ignore: bool, action: char) -> (list:
    Vec<Command>)
    ensures
        list@ == csi_commands(params_view(params), intermediates@, ignore, action),
{
    if ignore || intermediates.len() > 1 {
        Vec::new()
    } else if intermediates.len() == 1 {
        if intermediates[0] == 0x3f && action == 'h' {
            decode_modes(params, true, true)
        } else if intermediates[0] == 0x3f && action == 'l' {
            decode_modes(params, true, false)
        } else {
            Vec::new()
        }
    } else {
        decode_plain(params, action)
    }
}

/// What the tokenizer reports when a byte completes something: a printable
/// character, a control byte, a control sequence with its parameters, its
/// intermediate bytes, whether some of these had to be dropped, and its final
/// character, or an escape sequence with its intermediate bytes, the same
/// mark, and its final byte.
pub enum Event {
    /// A printable character.
    Print(char),
    /// A control byte.
    Execute(u8),
    /// A control sequence.
    Csi(Seq<Seq<u16>>, Seq<u8>, bool, char),
    /// An escape sequence.
    Esc(Seq<u8>, bool, u8),
}

/// The operations that one event stands for.
pub open spec fn event_commands(event: Event) -> Seq<Command> {
    match event {
        Event::Print(c) => seq![Command::Input(c)],
        Event::Execute(byte) => match control_command(byte) {
            Some(command) => seq![command],
            None => Seq::empty(),
        },
        Event::Csi(params, intermediates, ignore, action) => csi_commands(
            params,
            intermediates,
            ignore,
            action,
        ),
        Event::Esc(intermediates, _, byte) => escape_commands(intermediates, byte),
    }
}

/// The operations that the events stand for, in their order.
pub open spec fn events_commands(events: Seq<Event>) -> Seq<Command>
    decreases events.len(),
{
    if events.len() == 0 {
        Seq::empty()
    } else {
        events_commands(events.drop_last()) + event_commands(events.last())
    }
}

/// The events of these four kinds that the tokenizer reports, in their
/// order, when it is fed `byte` in the state that the bytes of `state` bring
/// it into from its ground state.
pub uninterp spec fn reported(state: Seq<u8>, byte: u8) -> Seq<Event>;

/// The state of a tokenizer, given as one run of bytes that brings a new
/// tokenizer into it: the empty run for the ground state of a new one. Two
/// tokenizers in the same state have the same run, whatever they were fed.
pub uninterp spec fn tokenizer_state(parser: vte::Parser) -> Seq<u8>;

/// The state that a tokenizer in the state `state` goes to when it is fed
/// `byte`, given as [`tokenizer_state`] gives it.
pub uninterp spec fn state_after(state: Seq<u8>, byte: u8) -> Seq<u8>;

/// The numbers that the parameters of a control sequence hold: for each
/// parameter its own number and those of its sub-parameters.
pub uninterp spec fn params_numbers(params: vte::Params) -> Seq<Seq<u16>>;

/// The tokenizer of `vte`: a state machine that is fed bytes. Its state is
/// spoken of through [`tokenizer_state`] alone.
#[verifier::external_type_specification]
#[verifier::external_body]
pub struct ExParser<const OSC_RAW_BUF_SIZE: usize>(vte::Parser<OSC_RAW_BUF_SIZE>);

/// The parameters of a control sequence as `vte` hands them over.
#[verifier::external_type_specification]
#[verifier::external_body]
pub struct ExParams(vte::Params);

/// A tokenizer in its ground state.
///
/// Not verified: this is `vte::Parser::new`. The claim is that the new
/// tokenizer is in its ground state, which the empty run of bytes stands
/// for.
#[verifier::external_body]
pub(crate) fn new_parser() -> (parser: vte::Parser)
    ensures
        tokenizer_state(parser) == Seq::<u8>::empty(),
{
    vte::Parser::new()
}

/// The parameters of a control sequence as lists of numbers, one list for
/// each parameter.
///
/// Not verified: this walks `vte::Params::iter` and copies each parameter
/// that it yields. The claim is that the lists hold the numbers of the
/// parameters, which is what [`params_numbers`] names.
#[verifier::external_body]
fn params_to_vec(params: &vte::Params) -> (numbers: Vec<Vec<u16>>)
    ensures
        params_view(&numbers) == params_numbers(*params),
{
    params.iter().map(|param| param.to_vec()).collect()
}

/// Feed one byte to the tokenizer, which reports what the byte completes to
/// the performer.
///
/// Not verified: this is `vte::Parser::advance`. The tokenizer is a state
/// machine: the state that it goes to and what it reports for a byte depend
/// on its state and the byte alone, which [`state_after`] and [`reported`]
/// name. The claims are that the tokenizer is in that next state, and that
/// the performer was called once for each reported event, in their order, so
/// that it has gathered the operations that its four methods add for them.
#[verifier::external_body]
pub(crate) fn advance(parser: &mut vte::Parser, performer: &mut Performer, byte: u8)
    ensures
        tokenizer_state(*final(parser)) == state_after(tokenizer_state(*old(parser)), byte),
        final(performer).commands@ == old(performer).commands@ + events_commands(
            reported(tokenizer_state(*old(parser)), byte),
        ),
{
    parser.advance(performer, byte)
}

/// What the tokenizer reports to: it gathers the operations that the
/// reported events stand for, in their order.
pub struct Performer {
    /// The operations gathered so far.
    pub commands: Vec<Command>,
}

impl Performer {
    /// A performer that has gathered nothing.
    pub fn new() -> (performer: Performer)
        ensures
            performer.commands@ == Seq::<Command>::empty(),
    {
        Performer { commands: Vec::new() }
    }

    /// Gather the operations of `list`.
    fn gather(&mut self, list: Vec<Command>)
        ensures
            final(self).commands@ == old(self).commands@ + list@,
    {
        let mut i: usize = 0;
        assert(self.commands@ =~= old(self).commands@ + list@.take(0));
        while i < list.len()
            invariant
                i <= list@.len(),
                self.commands@ == old(self).commands@ + list@.take(i as int),
            decreases list@.len() - i,
        {
            self.commands.push(list[i]);
            assert(self.commands@ =~= old(self).commands@ + list@.take(i as int + 1));
            i += 1;
        }
        assert(list@.take(list@.len() as int) =~= list@);
    }
}

impl vte::Perform for Performer {
    /// A printable character: it is typed.
    fn print(&mut self, c: char)
        ensures
            final(self).commands@ == old(self).commands@ + event_commands(Event::Print(c)),
    {
        self.commands.push(Command::Input(c));
        assert(self.commands@ =~= old(self).commands@ + seq![Command::Input(c)]);
    }

    /// A control byte.
    fn execute(&mut self, byte: u8)
        ensures
            final(self).commands@ == old(self).commands@ + event_commands(Event::Execute(byte)),
    {
        match decode_execute(byte) {
            Some(command) => {
                self.commands.push(command);
                assert(self.commands@ =~= old(self).commands@ + seq![command]);
            },
            None => {
                assert(self.commands@ =~= old(self).commands@ + Seq::<Command>::empty());
            },
        }
    }

    /// A control sequence.
    fn csi_dispatch(&mut self, params: &vte::Params, intermediates: &[u8], ignore: bool, action: char)
        ensures
            final(self).commands@ == old(self).commands@ + event_commands(
                Event::Csi(params_numbers(*params), intermediates@, ignore, action),
            ),
    {
        let numbers = params_to_vec(params);
        let marks = vstd::slice::slice_to_vec(intermediates);
        let list = decode_csi(&numbers, &marks, ignore, action);
        self.gather(list);
    }

    /// An escape sequence.
    fn esc_dispatch(&mut self, intermediates: &[u8], ignore: bool, byte: u8)
        ensures
            final(self).commands@ == old(self).commands@ + event_commands(
                Event::Esc(intermediates@, ignore, byte),
            ),
    {
        let marks = vstd::slice::slice_to_vec(intermediates);
        let list = decode_esc(&marks, byte);
        self.gather(list);
    }
}

} // verus!
