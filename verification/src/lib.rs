//! A terminal emulation engine: an interpreter for ANSI/VT100 control
//! sequences over a grid of styled character cells.
//!
//! The console keeps the cursor, the pen and the cell grid; a renderer draws
//! the cells that changed since they were last drawn.

pub mod ansi;
pub mod cell;
pub mod color;
pub mod console;
pub mod decode;
pub mod ratatui_backend;
pub mod screen;
pub mod style;
pub mod text;
pub mod text_buffer;
pub mod util;

pub use cell::{Cell, Flags};
pub use color::{Color, NamedColor, Rgb888};
pub use console::Console;
pub use ratatui_backend::{BackendError, EmbeddedTemuBackend, FlushableDisplay};
pub use style::{color_to_rgb, dim_rgb, ColorInterpolate, DrawCell, Style};
pub use text::{Mono8BitFont, Mono8BitTextStyle};
pub use text_buffer::TextBuffer;
