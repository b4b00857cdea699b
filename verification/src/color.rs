//! Colors and attributes: from what a cell carries to what a caller is shown.
//!
//! A cell names its colors in one of three ways (by ANSI name, by palette
//! index, or as an RGB triple) and holds its attributes as a bit set. The
//! resolver turns each color into a fixed RGB triple and the attributes into
//! the four output flag bits. It is total: every input has a result.

use crate::engine::{
    RawColor, ATTR_BOLD, ATTR_INVERSE, ATTR_ITALIC, ATTR_UNDERLINE, NAMED_BACKGROUND,
    NAMED_FOREGROUND,
};
use vstd::prelude::*;

verus! {

/// Output flag: bold.
pub const FLAG_BOLD: u16 = 1;

/// Output flag: italic.
pub const FLAG_ITALIC: u16 = 2;

/// Output flag: underline.
pub const FLAG_UNDERLINE: u16 = 4;

/// Output flag: inverse video.
pub const FLAG_INVERSE: u16 = 8;

/// A 24-bit color.
#[derive(Clone, Copy, Debug, PartialEq, Eq)]
pub struct Rgb {
    pub r: u8,
    pub g: u8,
    pub b: u8,
}

/// Whether a color paints the glyph or what lies behind it.
#[derive(Clone, Copy, Debug, PartialEq, Eq)]
pub enum Role {
    Foreground,
    Background,
}

/// The sixteen ANSI colors and the two aliases for the default text and
/// default backdrop color.
#[derive(Clone, Copy, Debug, PartialEq, Eq)]
pub enum NamedColor {
    Black,
    Red,
    Green,
    Yellow,
    Blue,
    Magenta,
    Cyan,
    White,
    BrightBlack,
    BrightRed,
    BrightGreen,
    BrightYellow,
    BrightBlue,
    BrightMagenta,
    BrightCyan,
    BrightWhite,
    Foreground,
    Background,
}

/// How a cell names one of its colors.
#[derive(Clone, Copy, Debug, PartialEq, Eq)]
pub enum ColorSpec {
    /// One of the ANSI names or default-color aliases.
    Named(NamedColor),
    /// An entry of the 256-color palette.
    Indexed(u8),
    /// A color given directly.
    Rgb(Rgb),
    /// Anything else the engine may come up with.
    Unrecognized,
}

impl Rgb {
    /// Every channel off.
    pub open spec fn black() -> Rgb {
        Rgb { r: 0, g: 0, b: 0 }
    }

    /// Every channel at half.
    pub open spec fn gray() -> Rgb {
        Rgb { r: 128, g: 128, b: 128 }
    }

    /// Every channel full.
    pub open spec fn white() -> Rgb {
        Rgb { r: 255, g: 255, b: 255 }
    }
}

/// The colors of the first sixteen palette entries: eight base colors, then
/// their bright variants.
pub open spec fn palette() -> Seq<Rgb> {
    seq![
        Rgb { r: 0, g: 0, b: 0 },
        Rgb { r: 255, g: 0, b: 0 },
        Rgb { r: 0, g: 255, b: 0 },
        Rgb { r: 255, g: 255, b: 0 },
        Rgb { r: 0, g: 0, b: 255 },
        Rgb { r: 255, g: 0, b: 255 },
        Rgb { r: 0, g: 255, b: 255 },
        Rgb { r: 255, g: 255, b: 255 },
        Rgb { r: 128, g: 128, b: 128 },
        Rgb { r: 255, g: 128, b: 128 },
        Rgb { r: 128, g: 255, b: 128 },
        Rgb { r: 255, g: 255, b: 128 },
        Rgb { r: 128, g: 128, b: 255 },
        Rgb { r: 255, g: 128, b: 255 },
        Rgb { r: 128, g: 255, b: 255 },
        Rgb { r: 255, g: 255, b: 255 },
    ]
}

/// The color a role falls back to when a palette index is beyond the table.
pub open spec fn extended_fallback(role: Role) -> Rgb {
    match role {
        Role::Foreground => Rgb::gray(),
        Role::Background => Rgb::black(),
    }
}

/// The color a role falls back to when the color is not recognized at all.
pub open spec fn unrecognized_fallback(role: Role) -> Rgb {
    match role {
        Role::Foreground => Rgb::white(),
        Role::Background => Rgb::black(),
    }
}

impl NamedColor {
    /// The sixteen ANSI names in palette order: the eight base colors, then
    /// their bright variants.
    pub open spec fn ansi() -> Seq<NamedColor> {
        seq![
            NamedColor::Black,
            NamedColor::Red,
            NamedColor::Green,
            NamedColor::Yellow,
            NamedColor::Blue,
            NamedColor::Magenta,
            NamedColor::Cyan,
            NamedColor::White,
            NamedColor::BrightBlack,
            NamedColor::BrightRed,
            NamedColor::BrightGreen,
            NamedColor::BrightYellow,
            NamedColor::BrightBlue,
            NamedColor::BrightMagenta,
            NamedColor::BrightCyan,
            NamedColor::BrightWhite,
        ]
    }

    /// The RGB triple of a name. The aliases do not look at the role: the
    /// default text color is white and the default backdrop black, wherever
    /// they are used.
    pub open spec fn rgb(self) -> Rgb {
        match self {
            NamedColor::Black => Rgb { r: 0, g: 0, b: 0 },
            NamedColor::Red => Rgb { r: 255, g: 0, b: 0 },
            NamedColor::Green => Rgb { r: 0, g: 255, b: 0 },
            NamedColor::Yellow => Rgb { r: 255, g: 255, b: 0 },
            NamedColor::Blue => Rgb { r: 0, g: 0, b: 255 },
            NamedColor::Magenta => Rgb { r: 255, g: 0, b: 255 },
            NamedColor::Cyan => Rgb { r: 0, g: 255, b: 255 },
            NamedColor::White => Rgb { r: 255, g: 255, b: 255 },
            NamedColor::BrightBlack => Rgb { r: 128, g: 128, b: 128 },
            NamedColor::BrightRed => Rgb { r: 255, g: 128, b: 128 },
            NamedColor::BrightGreen => Rgb { r: 128, g: 255, b: 128 },
            NamedColor::BrightYellow => Rgb { r: 255, g: 255, b: 128 },
            NamedColor::BrightBlue => Rgb { r: 128, g: 128, b: 255 },
            NamedColor::BrightMagenta => Rgb { r: 255, g: 128, b: 255 },
            NamedColor::BrightCyan => Rgb { r: 128, g: 255, b: 255 },
            NamedColor::BrightWhite => Rgb { r: 255, g: 255, b: 255 },
            NamedColor::Foreground => Rgb::white(),
            NamedColor::Background => Rgb::black(),
        }
    }

    /// The ANSI name at a palette position below sixteen.
    pub fn from_index(index: u8) -> (name: NamedColor)
        requires
            index < 16,
        ensures
            name == NamedColor::ansi()[index as int],
    {
        match index {
            0 => NamedColor::Black,
            1 => NamedColor::Red,
            2 => NamedColor::Green,
            3 => NamedColor::Yellow,
            4 => NamedColor::Blue,
            5 => NamedColor::Magenta,
            6 => NamedColor::Cyan,
            7 => NamedColor::White,
            8 => NamedColor::BrightBlack,
            9 => NamedColor::BrightRed,
            10 => NamedColor::BrightGreen,
            11 => NamedColor::BrightYellow,
            12 => NamedColor::BrightBlue,
            13 => NamedColor::BrightMagenta,
            14 => NamedColor::BrightCyan,
            _ => NamedColor::BrightWhite,
        }
    }

    /// Gives the RGB triple of a name.
    pub fn resolve(self) -> (rgb: Rgb)
        ensures
            rgb == self.rgb(),
    {
        match self {
            NamedColor::Black => Rgb { r: 0, g: 0, b: 0 },
            NamedColor::Red => Rgb { r: 255, g: 0, b: 0 },
            NamedColor::Green => Rgb { r: 0, g: 255, b: 0 },
            NamedColor::Yellow => Rgb { r: 255, g: 255, b: 0 },
            NamedColor::Blue => Rgb { r: 0, g: 0, b: 255 },
            NamedColor::Magenta => Rgb { r: 255, g: 0, b: 255 },
            NamedColor::Cyan => Rgb { r: 0, g: 255, b: 255 },
            NamedColor::White => Rgb { r: 255, g: 255, b: 255 },
            NamedColor::BrightBlack => Rgb { r: 128, g: 128, b: 128 },
            NamedColor::BrightRed => Rgb { r: 255, g: 128, b: 128 },
            NamedColor::BrightGreen => Rgb { r: 128, g: 255, b: 128 },
            NamedColor::BrightYellow => Rgb { r: 255, g: 255, b: 128 },
            NamedColor::BrightBlue => Rgb { r: 128, g: 128, b: 255 },
            NamedColor::BrightMagenta => Rgb { r: 255, g: 128, b: 255 },
            NamedColor::BrightCyan => Rgb { r: 128, g: 255, b: 255 },
            NamedColor::BrightWhite => Rgb { r: 255, g: 255, b: 255 },
            NamedColor::Foreground => Rgb { r: 255, g: 255, b: 255 },
            NamedColor::Background => Rgb { r: 0, g: 0, b: 0 },
        }
    }
}

impl ColorSpec {
    /// The color that a raw color of the engine stands for. A name is known
    /// by its number: the sixteen ANSI names come first, in palette order,
    /// and the two default-color aliases have numbers of their own. Any
    /// other name is not recognized.
    pub open spec fn of_raw(raw: RawColor) -> ColorSpec {
        match raw {
            RawColor::Named(number) => if number == NAMED_FOREGROUND {
                ColorSpec::Named(NamedColor::Foreground)
            } else if number == NAMED_BACKGROUND {
                ColorSpec::Named(NamedColor::Background)
            } else if number < 16 {
                ColorSpec::Named(NamedColor::ansi()[number as int])
            } else {
                ColorSpec::Unrecognized
            },
            RawColor::Spec(r, g, b) => ColorSpec::Rgb(Rgb { r, g, b }),
            RawColor::Indexed(index) => ColorSpec::Indexed(index),
        }
    }

    /// Tells the three kinds of raw color apart, and the names by their
    /// numbers.
    pub fn from_raw(raw: RawColor) -> (color: ColorSpec)
        ensures
            color == ColorSpec::of_raw(raw),
    {
        match raw {
            RawColor::Named(number) => {
                if number < 16 {
                    ColorSpec::Named(NamedColor::from_index(number as u8))
                } else if number == NAMED_FOREGROUND {
                    ColorSpec::Named(NamedColor::Foreground)
                } else if number == NAMED_BACKGROUND {
                    ColorSpec::Named(NamedColor::Background)
                } else {
                    ColorSpec::Unrecognized
                }
            },
            RawColor::Spec(r, g, b) => ColorSpec::Rgb(Rgb { r, g, b }),
            RawColor::Indexed(index) => ColorSpec::Indexed(index),
        }
    }
}

/// The RGB triple that a color stands for in a role.
pub open spec fn resolved_color(color: ColorSpec, role: Role) -> Rgb {
    match color {
        ColorSpec::Named(name) => name.rgb(),
        ColorSpec::Indexed(index) => if index < 16 {
            NamedColor::ansi()[index as int].rgb()
        } else {
            extended_fallback(role)
        },
        ColorSpec::Rgb(rgb) => rgb,
        ColorSpec::Unrecognized => unrecognized_fallback(role),
    }
}

/// A palette index below sixteen resolves, in either role, to its entry of
/// the palette, and so does the ANSI name at that position. Every index
/// from sixteen on resolves to the fallback of the role: gray as a
/// foreground, black as a background.
pub proof fn lemma_indexed_colors(index: u8, role: Role)
    ensures
        index < 16 ==> resolved_color(ColorSpec::Indexed(index), role) == palette()[index as int],
        index < 16 ==> resolved_color(ColorSpec::Named(NamedColor::ansi()[index as int]), role)
            == palette()[index as int],
        index >= 16 ==> resolved_color(ColorSpec::Indexed(index), Role::Foreground) == Rgb::gray(),
        index >= 16 ==> resolved_color(ColorSpec::Indexed(index), Role::Background) == Rgb::black(),
{
}

/// Resolves a color to its RGB triple. Never fails.
pub fn resolve_color(color: ColorSpec, role: Role) -> (rgb: Rgb)
    ensures
        rgb == resolved_color(color, role),
{
    match color {
        ColorSpec::Named(name) => name.resolve(),
        ColorSpec::Indexed(index) => {
            if index < 16 {
                NamedColor::from_index(index).resolve()
            } else {
                match role {
                    Role::Foreground => Rgb { r: 128, g: 128, b: 128 },
                    Role::Background => Rgb { r: 0, g: 0, b: 0 },
                }
            }
        },
        ColorSpec::Rgb(rgb) => rgb,
        ColorSpec::Unrecognized => match role {
            Role::Foreground => Rgb { r: 255, g: 255, b: 255 },
            Role::Background => Rgb { r: 0, g: 0, b: 0 },
        },
    }
}

/// Whether an attribute set holds every bit of `mask`.
pub open spec fn has_attr(attrs: u16, mask: u16) -> bool {
    attrs & mask == mask
}

/// The value that one attribute adds to the output flags.
pub open spec fn flag_if(attrs: u16, mask: u16, flag: u16) -> int {
    if has_attr(attrs, mask) {
        flag as int
    } else {
        0
    }
}

/// The output flags of an attribute set: bold in bit 0, italic in bit 1,
/// underline in bit 2, inverse in bit 3. Every other attribute is dropped.
pub open spec fn resolved_flags(attrs: u16) -> int {
    flag_if(attrs, ATTR_BOLD, FLAG_BOLD) + flag_if(attrs, ATTR_ITALIC, FLAG_ITALIC) + flag_if(
        attrs,
        ATTR_UNDERLINE,
        FLAG_UNDERLINE,
    ) + flag_if(attrs, ATTR_INVERSE, FLAG_INVERSE)
}

/// Packs the attributes of a cell into the output flags. Never fails.
pub fn resolve_flags(attrs: u16) -> (flags: u16)
    ensures
        flags == resolved_flags(attrs),
        flags <= 15,
{
    let mut flags: u16 = 0;
    if attrs & ATTR_BOLD == ATTR_BOLD {
        assert(0u16 | 1u16 == 1u16) by (bit_vector);
        flags |= FLAG_BOLD;
    }
    if attrs & ATTR_ITALIC == ATTR_ITALIC {
        assert(flags | 2u16 == flags + 2) by (bit_vector)
            requires
                flags < 2,
        ;
        flags |= FLAG_ITALIC;
    }
    if attrs & ATTR_UNDERLINE == ATTR_UNDERLINE {
        assert(flags | 4u16 == flags + 4) by (bit_vector)
            requires
                flags < 4,
        ;
        flags |= FLAG_UNDERLINE;
    }
    if attrs & ATTR_INVERSE == ATTR_INVERSE {
        assert(flags | 8u16 == flags + 8) by (bit_vector)
            requires
                flags < 8,
        ;
        flags |= FLAG_INVERSE;
    }
    flags
}

} // verus!
