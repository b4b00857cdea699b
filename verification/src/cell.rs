//! The cell record handed to callers, and how it is made from a cell of the
//! engine.

use crate::color::{
    has_attr, resolve_color, resolve_flags, resolved_color, resolved_flags, ColorSpec, Role,
};
use crate::engine::RawCell;
use vstd::prelude::*;

verus! {

/// One character position of the screen, fully resolved: the code point, the
/// two colors as RGB triples, and the flag bits (bit 0 bold, bit 1 italic,
/// bit 2 underline, bit 3 inverse video).
#[derive(Clone, Copy, Debug, PartialEq, Eq)]
pub struct CCell {
    pub c: u32,
    pub fg_r: u8,
    pub fg_g: u8,
    pub fg_b: u8,
    pub bg_r: u8,
    pub bg_g: u8,
    pub bg_b: u8,
    pub flags: u16,
}

impl CCell {
    /// The blank cell: a space, white on black, no flag set.
    pub open spec fn blank() -> CCell {
        CCell { c: 32, fg_r: 255, fg_g: 255, fg_b: 255, bg_r: 0, bg_g: 0, bg_b: 0, flags: 0 }
    }
}

impl Default for CCell {
    fn default() -> (cell: CCell)
        ensures
            cell == CCell::blank(),
    {
        CCell { c: 32, fg_r: 255, fg_g: 255, fg_b: 255, bg_r: 0, bg_g: 0, bg_b: 0, flags: 0 }
    }
}

/// The record shown for a cell of the engine.
pub open spec fn resolved_cell(raw: RawCell) -> CCell {
    let fg = resolved_color(ColorSpec::of_raw(raw.fg), Role::Foreground);
    let bg = resolved_color(ColorSpec::of_raw(raw.bg), Role::Background);
    CCell {
        c: raw.c as u32,
        fg_r: fg.r,
        fg_g: fg.g,
        fg_b: fg.b,
        bg_r: bg.r,
        bg_g: bg.g,
        bg_b: bg.b,
        flags: resolved_flags(raw.flags) as u16,
    }
}

/// Makes the record for a cell of the engine: the character's code point,
/// both colors resolved in their roles, and the attributes packed into the
/// flag bits.
pub fn cell_to_ccell(cell: &RawCell) -> (out: CCell)
    ensures
        out == resolved_cell(*cell),
{
    let fg = resolve_color(ColorSpec::from_raw(cell.fg), Role::Foreground);
    let bg = resolve_color(ColorSpec::from_raw(cell.bg), Role::Background);
    let flags = resolve_flags(cell.flags);
    CCell {
        c: cell.c as u32,
        fg_r: fg.r,
        fg_g: fg.g,
        fg_b: fg.b,
        bg_r: bg.r,
        bg_g: bg.g,
        bg_b: bg.b,
        flags,
    }
}

/// An untouched cell of the engine is shown as the blank cell.
pub proof fn lemma_blank_cell_resolves_to_blank()
    ensures
        resolved_cell(RawCell::blank()) == CCell::blank(),
{
    assert(!has_attr(0u16, 1u16)) by (bit_vector);
    assert(!has_attr(0u16, 2u16)) by (bit_vector);
    assert(!has_attr(0u16, 4u16)) by (bit_vector);
    assert(!has_attr(0u16, 8u16)) by (bit_vector);
}

} // verus!
