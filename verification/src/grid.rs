//! Cell-grid model of a terminal screen.
//!
//! The byte-stream-to-grid parser is an external collaborator; the engine
//! only ever reads a screen through this narrow model: one cell per
//! row/column position (glyph text, style, wide-continuation flag),
//! the cursor position, and a handful of mode flags.

use vstd::prelude::*;

verus! {

/// A terminal color: the default, a palette index, or a direct RGB value.
#[derive(Clone, Copy, PartialEq, Eq, Structural, Debug)]
pub enum Color {
    Default,
    Idx(u8),
    Rgb(u8, u8, u8),
}

/// The visual attributes of one cell.
#[derive(Clone, Copy, PartialEq, Eq, Structural, Debug)]
pub struct CellStyle {
    pub fg: Color,
    pub bg: Color,
    pub bold: bool,
    pub italic: bool,
    pub underline: bool,
    pub inverse: bool,
}

/// The style of a cell nothing has drawn to: default colors, no attributes.
pub open spec fn default_style() -> CellStyle {
    CellStyle {
        fg: Color::Default,
        bg: Color::Default,
        bold: false,
        italic: false,
        underline: false,
        inverse: false,
    }
}

impl CellStyle {
    /// The default style as a runtime value.
    pub fn default_cell() -> (s: CellStyle)
        ensures
            s == default_style(),
    {
        CellStyle {
            fg: Color::Default,
            bg: Color::Default,
            bold: false,
            italic: false,
            underline: false,
            inverse: false,
        }
    }
}

/// One cell of the grid.  `text` holds the glyph (empty for a blank cell,
/// possibly several code points for a combined glyph); a wide glyph
/// occupies its leading cell and marks the following cell as a
/// continuation.
#[derive(Debug)]
pub struct Cell {
    pub text: String,
    pub wide_continuation: bool,
    pub style: CellStyle,
}

/// Whether two cells hold the same glyph, style and continuation flag.
pub open spec fn cell_matches(a: Cell, b: Cell) -> bool {
    a.text@ == b.text@ && a.wide_continuation == b.wide_continuation && a.style == b.style
}

impl Cell {
    /// A blank cell in the default style.
    pub fn blank() -> (c: Cell)
        ensures
            c.text@ == Seq::<char>::empty(),
            !c.wide_continuation,
            c.style == default_style(),
    {
        Cell { text: String::new(), wide_continuation: false, style: CellStyle::default_cell() }
    }

    /// An exact copy of this cell.
    pub fn duplicate(&self) -> (c: Cell)
        ensures
            cell_matches(*self, c),
    {
        Cell {
            text: self.text.clone(),
            wide_continuation: self.wide_continuation,
            style: self.style,
        }
    }

    /// Whether this cell holds the same glyph, style and continuation flag
    /// as `other`.
    pub fn same_as(&self, other: &Cell) -> (r: bool)
        ensures
            r == cell_matches(*self, *other),
    {
        self.text == other.text && self.wide_continuation == other.wide_continuation
            && self.style == other.style
    }
}

/// A snapshot of a terminal screen: a `rows x cols` grid of cells in
/// row-major order, plus the cursor and the mode flags the engine reads.
#[derive(Debug)]
pub struct Grid {
    pub rows: u16,
    pub cols: u16,
    pub cells: Vec<Cell>,
    pub cursor_row: u16,
    pub cursor_col: u16,
    pub hide_cursor: bool,
    pub application_cursor: bool,
    pub alternate_screen: bool,
    pub bracketed_paste: bool,
}

impl Grid {
    /// Well-formed: the cell vector holds exactly one cell per position.
    pub open spec fn wf(&self) -> bool {
        self.cells@.len() == self.rows as int * self.cols as int
    }

    /// The cell at `(row, col)`, as a mathematical value.
    pub open spec fn spec_cell(&self, row: int, col: int) -> Cell {
        self.cells@[row * self.cols as int + col]
    }

    /// A blank grid of the given size, cursor at the origin, all flags off.
    pub fn blank(rows: u16, cols: u16) -> (g: Grid)
        ensures
            g.wf(),
            g.rows == rows,
            g.cols == cols,
            g.cursor_row == 0,
            g.cursor_col == 0,
            !g.hide_cursor,
            !g.application_cursor,
            !g.alternate_screen,
            !g.bracketed_paste,
            forall|r: int, c: int|
                0 <= r < rows && 0 <= c < cols ==> is_blank_cell(#[trigger] g.spec_cell(r, c)),
    {
        proof {
            lemma_grid_area_bound(rows as int, cols as int);
        }
        let total: usize = rows as usize * cols as usize;
        let mut cells: Vec<Cell> = Vec::new();
        let mut i: usize = 0;
        while i < total
            invariant
                i <= total,
                total == rows as int * cols as int,
                cells@.len() == i,
                forall|j: int| 0 <= j < i ==> is_blank_cell(#[trigger] cells@[j]),
            decreases total - i,
        {
            cells.push(Cell::blank());
            i = i + 1;
        }
        let g = Grid {
            rows,
            cols,
            cells,
            cursor_row: 0,
            cursor_col: 0,
            hide_cursor: false,
            application_cursor: false,
            alternate_screen: false,
            bracketed_paste: false,
        };
        proof {
            assert forall|r: int, c: int| 0 <= r < rows && 0 <= c < cols implies is_blank_cell(
                #[trigger] g.spec_cell(r, c),
            ) by {
                lemma_grid_index(r, c, rows as int, cols as int);
            }
        }
        g
    }

    /// Read the cell at `(row, col)`.
    pub fn cell(&self, row: u16, col: u16) -> (c: &Cell)
        requires
            self.wf(),
            row < self.rows,
            col < self.cols,
        ensures
            *c == self.spec_cell(row as int, col as int),
    {
        proof {
            lemma_grid_index(row as int, col as int, self.rows as int, self.cols as int);
            lemma_grid_area_bound(self.rows as int, self.cols as int);
        }
        &self.cells[row as usize * self.cols as usize + col as usize]
    }

    /// Replace the cell at `(row, col)`.
    pub fn set_cell(&mut self, row: u16, col: u16, cell: Cell)
        requires
            old(self).wf(),
            row < old(self).rows,
            col < old(self).cols,
        ensures
            final(self).wf(),
            final(self).rows == old(self).rows,
            final(self).cols == old(self).cols,
            final(self).cursor_row == old(self).cursor_row,
            final(self).cursor_col == old(self).cursor_col,
            final(self).hide_cursor == old(self).hide_cursor,
            final(self).application_cursor == old(self).application_cursor,
            final(self).alternate_screen == old(self).alternate_screen,
            final(self).bracketed_paste == old(self).bracketed_paste,
            final(self).spec_cell(row as int, col as int) == cell,
            forall|r: int, c: int|
                0 <= r < old(self).rows && 0 <= c < old(self).cols && !(r == row && c == col)
                    ==> #[trigger] final(self).spec_cell(r, c) == old(self).spec_cell(r, c),
    {
        proof {
            lemma_grid_index(row as int, col as int, self.rows as int, self.cols as int);
            lemma_grid_area_bound(self.rows as int, self.cols as int);
        }
        let idx: usize = row as usize * self.cols as usize + col as usize;
        self.cells.set(idx, cell);
        proof {
            assert forall|r: int, c: int|
                0 <= r < self.rows && 0 <= c < self.cols && !(r == row && c == col) implies #[trigger] self
                .spec_cell(r, c) == old(self).spec_cell(r, c) by {
                lemma_grid_index(r, c, self.rows as int, self.cols as int);
                lemma_grid_index_distinct(r, c, row as int, col as int, self.cols as int);
            }
        }
    }
}

/// Whether a cell is blank: no glyph, no continuation, default style.
pub open spec fn is_blank_cell(c: Cell) -> bool {
    c.text@ == Seq::<char>::empty() && !c.wide_continuation && c.style == default_style()
}

/// A row-major index stays inside a `rows x cols` grid.
pub proof fn lemma_grid_index(row: int, col: int, rows: int, cols: int)
    requires
        0 <= row < rows,
        0 <= col < cols,
    ensures
        0 <= row * cols + col < rows * cols,
{
    assert(0 <= row * cols + col < rows * cols) by (nonlinear_arith)
        requires
            0 <= row < rows,
            0 <= col < cols,
    ;
}

/// The area of a grid with `u16` dimensions fits in 32 bits, and so in a
/// `usize`.
pub proof fn lemma_grid_area_bound(rows: int, cols: int)
    requires
        0 <= rows <= 0xffff,
        0 <= cols <= 0xffff,
    ensures
        rows * cols <= 0xffff * 0xffff,
{
    assert(rows * cols <= 0xffff * 0xffff) by (nonlinear_arith)
        requires
            0 <= rows <= 0xffff,
            0 <= cols <= 0xffff,
    ;
}

/// Distinct positions have distinct row-major indices.
pub proof fn lemma_grid_index_distinct(r1: int, c1: int, r2: int, c2: int, cols: int)
    requires
        0 <= c1 < cols,
        0 <= c2 < cols,
        0 <= r1,
        0 <= r2,
        !(r1 == r2 && c1 == c2),
    ensures
        r1 * cols + c1 != r2 * cols + c2,
{
    assert(r1 * cols + c1 != r2 * cols + c2) by (nonlinear_arith)
        requires
            0 <= c1 < cols,
            0 <= c2 < cols,
            0 <= r1,
            0 <= r2,
            !(r1 == r2 && c1 == c2),
    ;
}

} // verus!
