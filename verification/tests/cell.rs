use embedded_term::cell::{Cell, Flags, ALL_FLAG_BITS};
use embedded_term::color::{Color, NamedColor, Rgb888};

#[test]
fn default_cell() {
    let cell = Cell::default();
    assert_eq!(cell.c, ' ');
    assert_eq!(cell.fg, Color::Named(NamedColor::BrightWhite));
    assert_eq!(cell.bg, Color::Named(NamedColor::Black));
    assert_eq!(cell.flags.bits(), 0);
    assert!(cell.dirty);
}

#[test]
fn equality_leaves_dirty_out() {
    let a = Cell::default();
    let mut b = Cell::default();
    b.dirty = false;
    assert_eq!(a, b);
    b.c = 'x';
    assert_ne!(a, b);
    let mut c = Cell::default();
    c.fg = Color::Named(NamedColor::Red);
    assert_ne!(a, c);
    let mut d = Cell::default();
    d.bg = Color::RGB(Rgb888::new(0, 0, 0));
    assert_ne!(a, d);
    let mut e = Cell::default();
    e.flags.insert(Flags::BOLD);
    assert_ne!(a, e);
}

#[test]
fn just_bg_keeps_only_the_background() {
    let cell = Cell {
        c: 'x',
        fg: Color::Named(NamedColor::Green),
        bg: Color::Indexed(200),
        flags: Flags::from_bits_truncate(Flags::BOLD | Flags::UNDERLINE),
        dirty: false,
    };
    let blank = cell.just_bg();
    assert_eq!(blank.c, ' ');
    assert_eq!(blank.fg, Color::Named(NamedColor::BrightWhite));
    assert_eq!(blank.bg, Color::Indexed(200));
    assert!(blank.flags.is_empty());
    assert!(blank.dirty);
}

#[test]
fn effective_colors_swap_when_inverse() {
    let mut cell = Cell::default();
    cell.fg = Color::Named(NamedColor::Red);
    cell.bg = Color::Named(NamedColor::Blue);
    assert_eq!(
        cell.effective_colors(),
        (Color::Named(NamedColor::Red), Color::Named(NamedColor::Blue))
    );
    cell.flags.insert(Flags::INVERSE);
    assert_eq!(
        cell.effective_colors(),
        (Color::Named(NamedColor::Blue), Color::Named(NamedColor::Red))
    );
}

#[test]
fn flag_masks() {
    assert_eq!(Flags::INVERSE, 0b0000_0000_0000_0001);
    assert_eq!(Flags::BOLD, 0b0000_0000_0000_0010);
    assert_eq!(Flags::ITALIC, 0b0000_0000_0000_0100);
    assert_eq!(Flags::BOLD_ITALIC, 0b0000_0000_0000_0110);
    assert_eq!(Flags::UNDERLINE, 0b0000_0000_0000_1000);
    assert_eq!(Flags::WRAPLINE, 0b0000_0000_0001_0000);
    assert_eq!(Flags::WIDE_CHAR, 0b0000_0000_0010_0000);
    assert_eq!(Flags::WIDE_CHAR_SPACER, 0b0000_0000_0100_0000);
    assert_eq!(Flags::DIM, 0b0000_0000_1000_0000);
    assert_eq!(Flags::DIM_BOLD, 0b0000_0000_1000_0010);
    assert_eq!(Flags::HIDDEN, 0b0000_0001_0000_0000);
    assert_eq!(Flags::STRIKEOUT, 0b0000_0010_0000_0000);
    assert_eq!(Flags::LEADING_WIDE_CHAR_SPACER, 0b0000_0100_0000_0000);
    assert_eq!(Flags::DOUBLE_UNDERLINE, 0b0000_1000_0000_0000);
    assert_eq!(Flags::BOLD_ITALIC, Flags::BOLD | Flags::ITALIC);
    assert_eq!(Flags::DIM_BOLD, Flags::DIM | Flags::BOLD);
    assert_eq!(ALL_FLAG_BITS, 0x0fff);
    assert_eq!(Flags::all().bits(), 0x0fff);
}

#[test]
fn flags_toggle_independently() {
    let mut flags = Flags::empty();
    assert!(flags.is_empty());
    assert!(flags.contains(0));
    flags.insert(Flags::BOLD);
    flags.insert(Flags::DIM);
    assert!(flags.contains(Flags::BOLD));
    assert!(flags.contains(Flags::DIM));
    assert!(flags.contains(Flags::DIM_BOLD));
    assert!(!flags.contains(Flags::ITALIC));
    assert!(!flags.contains(Flags::BOLD_ITALIC));
    flags.insert(Flags::ITALIC);
    assert!(flags.contains(Flags::BOLD_ITALIC));
    flags.remove(Flags::BOLD);
    assert_eq!(flags.bits(), Flags::DIM | Flags::ITALIC);
    assert!(!flags.contains(Flags::DIM_BOLD));
    flags.remove(Flags::BOLD);
    assert_eq!(flags.bits(), 0x0084);
    flags.remove(Flags::DIM_BOLD);
    assert_eq!(flags.bits(), Flags::ITALIC);
}

#[test]
fn flags_from_bits() {
    assert_eq!(Flags::from_bits(0x0003).map(|f| f.bits()), Some(3));
    assert_eq!(Flags::from_bits(0x0fff).map(|f| f.bits()), Some(0x0fff));
    assert_eq!(Flags::from_bits(0x1000), None);
    assert_eq!(Flags::from_bits(0xffff), None);
    assert_eq!(Flags::from_bits_truncate(0xffff).bits(), 0x0fff);
    assert_eq!(Flags::from_bits_truncate(0x1002).bits(), 0x0002);
}

#[test]
fn named_colors_have_their_palette_index() {
    assert_eq!(NamedColor::Black.index(), 0);
    assert_eq!(NamedColor::Red.index(), 1);
    assert_eq!(NamedColor::White.index(), 7);
    assert_eq!(NamedColor::BrightBlack.index(), 8);
    assert_eq!(NamedColor::BrightWhite.index(), 15);
    for i in 0..16u8 {
        assert_eq!(NamedColor::from_index(i).map(|n| n.index()), Some(i));
    }
    assert_eq!(NamedColor::from_index(16), None);
    assert_eq!(NamedColor::from_index(255), None);
    assert!(NamedColor::Red < NamedColor::Green);
}

#[test]
fn rgb_channels() {
    let c = Rgb888::new(1, 2, 3);
    assert_eq!((c.r(), c.g(), c.b()), (1, 2, 3));
    assert_eq!(c, Rgb888 { r: 1, g: 2, b: 3 });
}
