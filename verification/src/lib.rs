//! A snapshot bridge over a terminal emulation engine.
//!
//! The engine keeps the screen; this crate feeds it bytes and hands out what
//! it shows as flat records: one [`CCell`] per character position, with its
//! colors resolved to 24-bit RGB and its attributes packed into four bits.

pub mod cell;
pub mod color;
pub mod engine;
pub mod terminal;

pub use cell::{cell_to_ccell, CCell};
pub use color::{resolve_color, resolve_flags, ColorSpec, NamedColor, Rgb, Role};
pub use engine::{RawCell, RawColor};
pub use terminal::{
    dimensions_valid, terminal_free, terminal_get_cell, terminal_get_cursor, terminal_get_line,
    terminal_get_size, terminal_new, terminal_process_bytes, terminal_resize, CTermSize,
    CTerminal, Snapshot,
};
