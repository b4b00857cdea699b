//! The terminal emulation engine, as far as the bridge relies on it.
//!
//! The engine is `alacritty_terminal`'s `Term`. Nothing in it is verified
//! here. This module declares its type, names what the bridge reads from it
//! and what its operations yield, and wraps the five operations the bridge
//! performs. Each wrapper's contract is taken on trust from the engine's
//! source; everything else in the crate is proved from these contracts.

use alacritty_terminal::event::VoidListener;
use alacritty_terminal::index::{Column, Line, Point};
use alacritty_terminal::term::test::TermSize;
use alacritty_terminal::term::Config;
use alacritty_terminal::vte::ansi::{Color, Handler};
use alacritty_terminal::Term;
use vstd::prelude::*;

verus! {

/// Fewest columns a terminal can have: the engine cannot build a row
/// without a cell.
pub const MIN_COLUMNS: u32 = 1;

/// Fewest screen lines a terminal can have: the engine writes at its cursor,
/// which needs a line to stand on.
pub const MIN_SCREEN_LINES: u32 = 1;

/// Most columns or lines a terminal may have: the engine keeps line numbers
/// in 32 signed bits, and the bridge reports counts in as many.
pub const MAX_DIMENSION: u32 = 0x7fff_ffff;

/// `alacritty_terminal::Term`, the engine. Nothing inside it is seen here.
#[verifier::external_type_specification]
#[verifier::external_body]
#[verifier::reject_recursive_types(T)]
pub struct ExTerm<T>(Term<T>);

/// `alacritty_terminal::event::VoidListener`, the listener that drops every
/// event of the engine.
#[verifier::external_type_specification]
#[verifier::external_body]
pub struct ExVoidListener(VoidListener);

/// A color as a cell of the engine holds it, in plain values.
#[derive(Clone, Copy, Debug, PartialEq, Eq)]
pub enum RawColor {
    /// A named color, by the number the engine gives the name.
    Named(u16),
    /// Red, green and blue.
    Spec(u8, u8, u8),
    /// A palette index.
    Indexed(u8),
}

/// What the bridge reads of one cell of the engine's grid.
#[derive(Clone, Copy, Debug, PartialEq, Eq)]
pub struct RawCell {
    /// The character shown.
    pub c: char,
    /// Color of the glyph.
    pub fg: RawColor,
    /// Color behind the glyph.
    pub bg: RawColor,
    /// The attribute bits.
    pub flags: u16,
}

/// Number the engine gives the default text color.
pub const NAMED_FOREGROUND: u16 = 256;

/// Number the engine gives the default backdrop color.
pub const NAMED_BACKGROUND: u16 = 257;

/// Attribute bit the engine sets on a cell in inverse video.
pub const ATTR_INVERSE: u16 = 0x0001;

/// Attribute bit the engine sets on a bold cell.
pub const ATTR_BOLD: u16 = 0x0002;

/// Attribute bit the engine sets on an italic cell.
pub const ATTR_ITALIC: u16 = 0x0004;

/// Attribute bit the engine sets on an underlined cell.
pub const ATTR_UNDERLINE: u16 = 0x0008;

impl RawCell {
    /// The cell of an untouched grid: a space in the default colors with no
    /// attribute set.
    pub open spec fn blank() -> RawCell {
        RawCell {
            c: ' ',
            fg: RawColor::Named(NAMED_FOREGROUND),
            bg: RawColor::Named(NAMED_BACKGROUND),
            flags: 0,
        }
    }
}

/// Dimensions the engine can be given: at least one column and one line,
/// and of neither more than 31 bits hold.
pub open spec fn valid_dimensions(columns: u32, lines: u32) -> bool {
    MIN_COLUMNS <= columns <= MAX_DIMENSION && MIN_SCREEN_LINES <= lines <= MAX_DIMENSION
}

/// A grid of `lines` rows with `columns` cells each.
pub open spec fn has_shape(grid: Seq<Seq<RawCell>>, columns: u32, lines: u32) -> bool {
    grid.len() == lines && forall|line: int| 0 <= line < lines ==> (#[trigger] grid[line]).len() == columns
}

/// Two grids with as many rows, and as many cells in each row.
pub open spec fn same_shape(a: Seq<Seq<RawCell>>, b: Seq<Seq<RawCell>>) -> bool {
    a.len() == b.len() && forall|line: int|
        #![trigger a[line]]
        #![trigger b[line]]
        0 <= line < a.len() ==> a[line].len() == b[line].len()
}

/// A grid of some shape that the engine can have.
pub open spec fn well_shaped(grid: Seq<Seq<RawCell>>) -> bool {
    exists|columns: u32, lines: u32| valid_dimensions(columns, lines) && #[trigger] has_shape(grid, columns, lines)
}

/// The visible screen of an engine: its lines from the top, each with its
/// cells from the left.
pub uninterp spec fn screen_cells(engine: Term<VoidListener>) -> Seq<Seq<RawCell>>;

/// Where the engine's cursor stands: line first, then column.
pub uninterp spec fn cursor_point(engine: Term<VoidListener>) -> (int, int);

/// The engine that `Term::new` builds for given dimensions.
pub uninterp spec fn fresh_engine(columns: u32, lines: u32) -> Term<VoidListener>;

/// The engine after `Handler::input` has taken one byte as a character.
pub uninterp spec fn engine_after_input(engine: Term<VoidListener>, byte: u8) -> Term<VoidListener>;

/// The engine after `Term::resize` to new dimensions.
pub uninterp spec fn engine_after_resize(engine: Term<VoidListener>, columns: u32, lines: u32) -> Term<
    VoidListener,
>;

/// The engine after it has taken a run of bytes, first to last.
pub open spec fn engine_after_bytes(engine: Term<VoidListener>, bytes: Seq<u8>) -> Term<VoidListener>
    decreases bytes.len(),
{
    if bytes.len() == 0 {
        engine
    } else {
        engine_after_input(engine_after_bytes(engine, bytes.drop_last()), bytes.last())
    }
}

/// Feeding one run of bytes and then another is feeding both in one run.
pub proof fn lemma_engine_after_concat(engine: Term<VoidListener>, first: Seq<u8>, second: Seq<u8>)
    ensures
        engine_after_bytes(engine, first + second) == engine_after_bytes(
            engine_after_bytes(engine, first),
            second,
        ),
    decreases second.len(),
{
    if second.len() == 0 {
        assert(first + second =~= first);
    } else {
        lemma_engine_after_concat(engine, first, second.drop_last());
        assert((first + second).drop_last() =~= first + second.drop_last());
        assert((first + second).last() == second.last());
    }
}

/// Calls `Term::new` with the default configuration, the dimensions in the
/// engine's own `TermSize`, and a listener that drops every event.
///
/// Taken on trust: for dimensions that the engine can be given, the result
/// depends on the dimensions alone; its screen has `lines` rows of `columns`
/// cells, each of them the engine's default cell; its cursor stands in the
/// top left corner.
#[verifier::external_body]
pub(crate) fn engine_new(columns: u32, lines: u32) -> (engine: Term<VoidListener>)
    requires
        valid_dimensions(columns, lines),
    ensures
        engine == fresh_engine(columns, lines),
        has_shape(screen_cells(engine), columns, lines),
        forall|line: int, column: int|
            0 <= line < lines && 0 <= column < columns ==> #[trigger] screen_cells(engine)[line][column]
                == RawCell::blank(),
        cursor_point(engine) == (0int, 0int),
{
    Term::new(Config::default(), &TermSize::new(columns as usize, lines as usize), VoidListener)
}

/// Calls `Handler::input` on the engine with the byte taken as a character.
///
/// Taken on trust: on a screen with at least one cell, the engine
/// afterwards depends on the engine before and on the byte alone, and its
/// screen keeps its shape. A byte is a character below U+0100, which is
/// never two cells wide, so one column is room enough.
#[verifier::external_body]
pub(crate) fn engine_input(engine: &mut Term<VoidListener>, byte: u8)
    requires
        well_shaped(screen_cells(*old(engine))),
    ensures
        *final(engine) == engine_after_input(*old(engine), byte),
        same_shape(screen_cells(*old(engine)), screen_cells(*final(engine))),
{
    engine.input(byte as char);
}

/// Calls `Term::resize` on the engine, with the dimensions in the engine's
/// own `TermSize`.
///
/// Taken on trust: the engine afterwards depends on the engine before and
/// on the new dimensions alone; its screen has the new shape; and where the
/// screen had that shape already, nothing in the engine has changed.
#[verifier::external_body]
pub(crate) fn engine_resize(engine: &mut Term<VoidListener>, columns: u32, lines: u32)
    requires
        well_shaped(screen_cells(*old(engine))),
        valid_dimensions(columns, lines),
    ensures
        *final(engine) == engine_after_resize(*old(engine), columns, lines),
        has_shape(screen_cells(*final(engine)), columns, lines),
        has_shape(screen_cells(*old(engine)), columns, lines) ==> *final(engine) == *old(engine),
{
    engine.resize(TermSize::new(columns as usize, lines as usize));
}

/// Reads one cell of the engine's grid through `Term::grid` and the grid's
/// index operator, and copies out its character, colors and attribute bits.
///
/// Taken on trust: within the screen the read succeeds and yields the cell
/// at that place.
#[verifier::external_body]
pub(crate) fn engine_cell(engine: &Term<VoidListener>, line: u32, column: u32) -> (cell: RawCell)
    requires
        line <= MAX_DIMENSION,
        line < screen_cells(*engine).len(),
        column < screen_cells(*engine)[line as int].len(),
    ensures
        cell == screen_cells(*engine)[line as int][column as int],
{
    let cell = &engine.grid()[Point::new(Line(line as i32), Column(column as usize))];
    let plain = |color: Color| match color {
        Color::Named(name) => RawColor::Named(name as u16),
        Color::Spec(rgb) => RawColor::Spec(rgb.r, rgb.g, rgb.b),
        Color::Indexed(index) => RawColor::Indexed(index),
    };
    RawCell { c: cell.c, fg: plain(cell.fg), bg: plain(cell.bg), flags: cell.flags.bits() }
}

/// Reads the cursor position kept in the engine's grid.
///
/// Taken on trust: the engine keeps its cursor on the screen, so the line
/// is below the number of rows and the column below the length of that row.
#[verifier::external_body]
pub(crate) fn engine_cursor(engine: &Term<VoidListener>) -> (point: (i32, usize))
    requires
        well_shaped(screen_cells(*engine)),
    ensures
        (point.0 as int, point.1 as int) == cursor_point(*engine),
        0 <= point.0 < screen_cells(*engine).len(),
        point.1 < screen_cells(*engine)[point.0 as int].len(),
{
    let point = engine.grid().cursor.point;
    (point.line.0, point.column.0)
}

} // verus!
