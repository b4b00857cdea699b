//! Terminal handles: their life, the bytes they take, and the snapshots they
//! give.
//!
//! A handle that a caller may or may not have is an `Option` of a reference
//! or of a box, and so is every buffer and output place. A missing one is
//! answered with the error sentinel, or with the blank cell where a cell is
//! asked for. No operation fails in any other way.

use crate::cell::{cell_to_ccell, lemma_blank_cell_resolves_to_blank, resolved_cell, CCell};
use crate::engine::{
    cursor_point, engine_after_bytes, engine_after_resize, engine_cell, engine_cursor,
    engine_input, engine_new, engine_resize, fresh_engine, has_shape, lemma_engine_after_concat,
    screen_cells,
    valid_dimensions, RawCell, MAX_DIMENSION, MIN_COLUMNS, MIN_SCREEN_LINES,
};
use alacritty_terminal::event::VoidListener;
use alacritty_terminal::Term;
use vstd::prelude::*;

verus! {

/// Returned where a handle, a buffer or an output place is missing, or a row
/// is asked for that the screen does not have.
pub const ERROR: i32 = -1;

/// Returned by an operation that has nothing else to report.
pub const OK: i32 = 0;

/// The size of a terminal. The rows are all there is: no scrollback is
/// counted apart from the screen.
#[derive(Clone, Copy, Debug, PartialEq, Eq)]
pub struct CTermSize {
    pub columns: u32,
    pub screen_lines: u32,
}

impl CTermSize {
    /// Width in columns.
    pub fn columns(&self) -> (count: usize)
        ensures
            count == self.columns,
    {
        self.columns as usize
    }

    /// Height of the screen in lines.
    pub fn screen_lines(&self) -> (count: usize)
        ensures
            count == self.screen_lines,
    {
        self.screen_lines as usize
    }

    /// Lines in all, which are those of the screen.
    pub fn total_lines(&self) -> (count: usize)
        ensures
            count == self.screen_lines,
    {
        self.screen_lines as usize
    }
}

/// What a terminal shows: its size, every cell as the record a caller gets
/// for it, and the cursor.
pub struct Snapshot {
    pub columns: nat,
    pub rows: nat,
    /// The screen by rows: `cells[y][x]` is the cell in row `y`, column `x`.
    pub cells: Seq<Seq<CCell>>,
    pub cursor_x: int,
    pub cursor_y: int,
}

/// The records shown for a row of the engine's grid.
pub open spec fn resolved_row(row: Seq<RawCell>) -> Seq<CCell> {
    row.map_values(|cell: RawCell| resolved_cell(cell))
}

/// The records shown for the engine's grid.
pub open spec fn resolved_grid(grid: Seq<Seq<RawCell>>) -> Seq<Seq<CCell>> {
    grid.map_values(|row: Seq<RawCell>| resolved_row(row))
}

/// One terminal: an engine and the size it was last given.
pub struct CTerminal {
    term: Term<VoidListener>,
    size: CTermSize,
}

impl View for CTerminal {
    type V = Snapshot;

    open spec fn view(&self) -> Snapshot {
        Snapshot {
            columns: self.size().columns as nat,
            rows: self.size().screen_lines as nat,
            cells: resolved_grid(screen_cells(self.engine())),
            cursor_x: cursor_point(self.engine()).1,
            cursor_y: cursor_point(self.engine()).0,
        }
    }
}

impl CTerminal {
    /// The engine that the handle owns.
    pub closed spec fn engine(&self) -> Term<VoidListener> {
        self.term
    }

    /// The size that the handle holds.
    pub closed spec fn size(&self) -> CTermSize {
        self.size
    }

    /// A handle is well formed when its size is one the engine can have and
    /// the engine's screen has that size.
    pub open spec fn wf(&self) -> bool {
        &&& valid_dimensions(self.size().columns, self.size().screen_lines)
        &&& has_shape(screen_cells(self.engine()), self.size().columns, self.size().screen_lines)
    }

    /// The cell that a query for column `x`, row `y` answers with: the cell
    /// shown there, or the blank cell where the screen has no such place.
    pub open spec fn cell_at(&self, x: int, y: int) -> CCell {
        if 0 <= x < self@.columns && 0 <= y < self@.rows {
            self@.cells[y][x]
        } else {
            CCell::blank()
        }
    }

    /// The first `count` cells of row `y`, left to right.
    pub open spec fn line_prefix(&self, y: int, count: int) -> Seq<CCell> {
        self@.cells[y].take(count)
    }

    /// How many cells a line query writes into room for `capacity` of them.
    pub open spec fn line_count(&self, capacity: int) -> int {
        if self@.columns <= capacity {
            self@.columns as int
        } else {
            capacity
        }
    }

    /// Whether `after` is this handle once it has taken `bytes`: the size
    /// is the same, and the engine has been fed each byte in turn.
    pub open spec fn feeds_into(&self, after: CTerminal, bytes: Seq<u8>) -> bool {
        &&& after.size() == self.size()
        &&& after.engine() == engine_after_bytes(self.engine(), bytes)
    }

    /// Whether `after` is this handle once it has been resized: the size is
    /// the new one, and the engine has been resized to it, or left alone
    /// where the size is not new.
    pub open spec fn resizes_into(&self, after: CTerminal, columns: u32, rows: u32) -> bool {
        &&& after.size() == (CTermSize { columns, screen_lines: rows })
        &&& after.engine() == if self.size() == (CTermSize { columns, screen_lines: rows }) {
            self.engine()
        } else {
            engine_after_resize(self.engine(), columns, rows)
        }
    }

    /// Reads and resolves one cell of the screen.
    fn cell(&self, x: u32, y: u32) -> (cell: CCell)
        requires
            self.wf(),
            x < self.size().columns,
            y < self.size().screen_lines,
        ensures
            cell == self@.cells[y as int][x as int],
    {
        let raw = engine_cell(&self.term, y, x);
        cell_to_ccell(&raw)
    }
}

/// Tells whether a terminal can have these dimensions: at least one column
/// and one row, and neither above what 31 bits hold.
pub fn dimensions_valid(cols: u32, rows: u32) -> (valid: bool)
    ensures
        valid == valid_dimensions(cols, rows),
{
    MIN_COLUMNS <= cols && cols <= MAX_DIMENSION && MIN_SCREEN_LINES <= rows && rows
        <= MAX_DIMENSION
}

/// Creates a terminal of the given size, with a fresh engine behind it.
/// Every cell of it is blank and the cursor stands in the top left corner.
pub fn terminal_new(cols: u32, rows: u32) -> (terminal: Box<CTerminal>)
    requires
        valid_dimensions(cols, rows),
    ensures
        terminal.wf(),
        terminal.size() == (CTermSize { columns: cols, screen_lines: rows }),
        terminal.engine() == fresh_engine(cols, rows),
        terminal@.cursor_x == 0,
        terminal@.cursor_y == 0,
        forall|x: int, y: int| #[trigger] terminal.cell_at(x, y) == CCell::blank(),
{
    let term = engine_new(cols, rows);
    let terminal = CTerminal { term, size: CTermSize { columns: cols, screen_lines: rows } };
    proof {
        lemma_blank_cell_resolves_to_blank();
        assert forall|x: int, y: int| #[trigger] terminal.cell_at(x, y) == CCell::blank() by {
            if 0 <= x < cols && 0 <= y < rows {
                assert(screen_cells(terminal.engine())[y][x] == RawCell::blank());
            }
        }
    }
    Box::new(terminal)
}

/// Releases a terminal and its engine. Without a handle nothing happens.
pub fn terminal_free(terminal: Option<Box<CTerminal>>) {
    match terminal {
        Some(handle) => {
            let _released: Box<CTerminal> = handle;
        },
        None => {},
    }
}

/// Feeds the bytes to the terminal's engine, first to last, each as one
/// character. Answers with the number of rows, as a sign that any of them may
/// have changed. Without a handle or without a buffer it answers `ERROR` and
/// changes nothing.
pub fn terminal_process_bytes(terminal: Option<&mut CTerminal>, input: Option<&[u8]>) -> (rows: i32)
    requires
        terminal matches Some(handle) ==> handle.wf(),
    ensures
        terminal is None || input is None ==> rows == ERROR,
        terminal matches Some(handle) ==> final(handle).wf(),
        terminal matches Some(handle) ==> input is None ==> *final(handle) == *handle,
        terminal matches Some(handle) ==> (input matches Some(bytes) ==> rows
            == handle.size().screen_lines && handle.feeds_into(*final(handle), bytes@)),
{
    match (terminal, input) {
        (Some(handle), Some(bytes)) => {
            let ghost before = *handle;
            let mut fed: usize = 0;
            while fed < bytes.len()
                invariant
                    fed <= bytes.len(),
                    handle.size == before.size,
                    before.wf(),
                    has_shape(
                        screen_cells(handle.term),
                        handle.size.columns,
                        handle.size.screen_lines,
                    ),
                    handle.term == engine_after_bytes(before.term, bytes@.take(fed as int)),
                decreases bytes.len() - fed,
            {
                engine_input(&mut handle.term, bytes[fed]);
                proof {
                    let taken = bytes@.take(fed + 1);
                    assert(taken.drop_last() == bytes@.take(fed as int));
                    assert(taken.last() == bytes@[fed as int]);
                }
                fed += 1;
            }
            proof {
                assert(bytes@.take(fed as int) == bytes@);
            }
            handle.size.screen_lines as i32
        },
        _ => ERROR,
    }
}

/// Gives the cell in column `x` of row `y`. Outside the screen, and without
/// a handle, it gives the blank cell.
pub fn terminal_get_cell(terminal: Option<&CTerminal>, x: u32, y: u32) -> (cell: CCell)
    requires
        terminal matches Some(handle) ==> handle.wf(),
    ensures
        terminal is None ==> cell == CCell::blank(),
        terminal matches Some(handle) ==> cell == handle.cell_at(x as int, y as int),
        terminal matches Some(handle) ==> (x >= handle.size().columns || y
            >= handle.size().screen_lines) ==> cell == CCell::blank(),
{
    match terminal {
        Some(handle) => {
            if x >= handle.size.columns || y >= handle.size.screen_lines {
                CCell::default()
            } else {
                handle.cell(x, y)
            }
        },
        None => CCell::default(),
    }
}

/// Copies row `y` into the buffer from its start: as many cells as the row
/// has, or as the buffer holds if those are fewer. Answers with the number
/// of cells written; the rest of the buffer stays as it was. Without a
/// handle or a buffer, or for a row that the screen does not have, it
/// answers `ERROR` and writes nothing.
pub fn terminal_get_line(
    terminal: Option<&CTerminal>,
    y: u32,
    output_cells: Option<&mut [CCell]>,
) -> (written: i32)
    requires
        terminal matches Some(handle) ==> handle.wf(),
    ensures
        terminal is None || output_cells is None ==> written == ERROR,
        terminal matches Some(handle) ==> y >= handle.size().screen_lines ==> written == ERROR,
        written == ERROR ==> (output_cells matches Some(buffer) ==> final(buffer)@ == buffer@),
        terminal matches Some(handle) ==> (output_cells matches Some(buffer) ==> y
            < handle.size().screen_lines ==> written == handle.line_count(buffer@.len() as int)),
        terminal matches Some(handle) ==> (output_cells matches Some(buffer) ==> y
            < handle.size().screen_lines ==> final(buffer)@ == handle.line_prefix(
            y as int,
            written as int,
        ) + buffer@.skip(written as int)),
{
    match (terminal, output_cells) {
        (Some(handle), Some(buffer)) => {
            if y >= handle.size.screen_lines {
                return ERROR;
            }
            let columns: usize = handle.size.columns();
            let count: usize = if columns <= buffer.len() {
                columns
            } else {
                buffer.len()
            };
            let ghost before = buffer@;
            let mut x: usize = 0;
            while x < count
                invariant
                    x <= count,
                    count <= handle.size.columns,
                    count <= buffer@.len(),
                    buffer@.len() == before.len(),
                    handle.wf(),
                    y < handle.size.screen_lines,
                    forall|i: int| 0 <= i < x ==> buffer@[i] == handle@.cells[y as int][i],
                    forall|i: int| x <= i < buffer@.len() ==> buffer@[i] == before[i],
                decreases count - x,
            {
                buffer[x] = handle.cell(x as u32, y);
                x += 1;
            }
            proof {
                assert(buffer@ =~= handle.line_prefix(y as int, count as int) + before.skip(
                    count as int,
                ));
            }
            count as i32
        },
        _ => ERROR,
    }
}

/// Gives the terminal a new size and has the engine take it. How what is on
/// the screen moves is the engine's affair. Answers `OK`, or `ERROR` without
/// a handle.
pub fn terminal_resize(terminal: Option<&mut CTerminal>, cols: u32, rows: u32) -> (status: i32)
    requires
        terminal matches Some(handle) ==> handle.wf() && valid_dimensions(cols, rows),
    ensures
        terminal is None ==> status == ERROR,
        terminal matches Some(handle) ==> status == OK && final(handle).wf()
            && handle.resizes_into(*final(handle), cols, rows),
{
    match terminal {
        Some(handle) => {
            handle.size.columns = cols;
            handle.size.screen_lines = rows;
            engine_resize(&mut handle.term, cols, rows);
            OK
        },
        None => ERROR,
    }
}

/// Writes the terminal's size to the two places given. Answers `OK`. Where
/// the handle or either place is missing, it answers `ERROR` and writes
/// nothing.
pub fn terminal_get_size(
    terminal: Option<&CTerminal>,
    cols: Option<&mut u32>,
    rows: Option<&mut u32>,
) -> (status: i32)
    ensures
        terminal is Some && cols is Some && rows is Some ==> status == OK,
        terminal is None || cols is None || rows is None ==> status == ERROR,
        status == OK ==> (cols matches Some(place) ==> *final(place)
            == terminal->0.size().columns),
        status == OK ==> (rows matches Some(place) ==> *final(place)
            == terminal->0.size().screen_lines),
        status == ERROR ==> (cols matches Some(place) ==> *final(place) == *place),
        status == ERROR ==> (rows matches Some(place) ==> *final(place) == *place),
{
    match (terminal, cols, rows) {
        (Some(handle), Some(cols_place), Some(rows_place)) => {
            *cols_place = handle.size.columns;
            *rows_place = handle.size.screen_lines;
            OK
        },
        _ => ERROR,
    }
}

/// Writes the cursor's column and row to the two places given. Answers `OK`.
/// Where the handle or either place is missing, it answers `ERROR` and
/// writes nothing.
pub fn terminal_get_cursor(
    terminal: Option<&CTerminal>,
    x: Option<&mut u32>,
    y: Option<&mut u32>,
) -> (status: i32)
    requires
        terminal matches Some(handle) ==> handle.wf(),
    ensures
        terminal is Some && x is Some && y is Some ==> status == OK,
        terminal is None || x is None || y is None ==> status == ERROR,
        status == OK ==> (x matches Some(place) ==> *final(place) == terminal->0@.cursor_x),
        status == OK ==> (y matches Some(place) ==> *final(place) == terminal->0@.cursor_y),
        status == OK ==> 0 <= terminal->0@.cursor_x < terminal->0@.columns,
        status == OK ==> 0 <= terminal->0@.cursor_y < terminal->0@.rows,
        status == ERROR ==> (x matches Some(place) ==> *final(place) == *place),
        status == ERROR ==> (y matches Some(place) ==> *final(place) == *place),
{
    match (terminal, x, y) {
        (Some(handle), Some(x_place), Some(y_place)) => {
            let point = engine_cursor(&handle.term);
            *x_place = point.1 as u32;
            *y_place = point.0 as u32;
            OK
        },
        _ => ERROR,
    }
}

/// A line query and a cell query agree: the cell that a line query writes
/// at place `x` of its buffer is the cell that a cell query gives for
/// column `x` of that row.
pub proof fn lemma_line_agrees_with_cells(terminal: CTerminal, y: int, capacity: int, x: int)
    requires
        terminal.wf(),
        0 <= y < terminal@.rows,
        0 <= capacity,
        0 <= x < terminal.line_count(capacity),
    ensures
        terminal.line_prefix(y, terminal.line_count(capacity))[x] == terminal.cell_at(x, y),
{
    let grid = screen_cells(terminal.engine());
    assert(grid[y].len() == terminal@.columns);
    assert(terminal@.cells[y] == resolved_row(grid[y]));
}

/// Resizing is idempotent: a second resize to the same size leaves the
/// terminal as the first one left it, and its size is the one asked for.
pub proof fn lemma_resize_idempotent(
    before: CTerminal,
    once: CTerminal,
    twice: CTerminal,
    columns: u32,
    rows: u32,
)
    requires
        before.resizes_into(once, columns, rows),
        once.resizes_into(twice, columns, rows),
    ensures
        twice == once,
        twice.size() == (CTermSize { columns, screen_lines: rows }),
{
}

/// Bytes fed in two runs are bytes fed in one: what the terminal is after
/// the first run and then the second, it is after both in one piece.
pub proof fn lemma_feed_in_pieces(
    before: CTerminal,
    between: CTerminal,
    after: CTerminal,
    first: Seq<u8>,
    second: Seq<u8>,
)
    requires
        before.feeds_into(between, first),
        between.feeds_into(after, second),
    ensures
        before.feeds_into(after, first + second),
{
    lemma_engine_after_concat(before.engine(), first, second);
}

} // verus!
