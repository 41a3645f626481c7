//! Mouse text selection: normalization of a dragged region, the
//! highlight overlay, and extraction of the selected text.

use vstd::prelude::*;
use vstd::utf8::encode_utf8;

use crate::grid::CellStyle;
use crate::grid::Color;
use crate::grid::Grid;
use crate::render::cup_bytes;
use crate::render::glyph_bytes;
use crate::render::min_int;
use crate::render::push_cup;
use crate::render::push_reset;
use crate::render::reset_bytes;
use crate::render::sgr_bytes;
use crate::render::write_sgr;

verus! {

/// A selection in pane-local cell coordinates, as the mouse reported
/// it: `start` is where the button went down, `end` where it is now.
#[derive(Clone, Copy, PartialEq, Eq, Structural, Debug)]
pub struct PaneSelection {
    pub start_row: u16,
    pub start_col: u16,
    pub end_row: u16,
    pub end_col: u16,
}

/// The selection corners ordered so that start comes first in row-major
/// order: `(start_row, start_col, end_row, end_col)`.
pub open spec fn spec_normalized(s: PaneSelection) -> (u16, u16, u16, u16) {
    if s.start_row < s.end_row || (s.start_row == s.end_row && s.start_col <= s.end_col) {
        (s.start_row, s.start_col, s.end_row, s.end_col)
    } else {
        (s.end_row, s.end_col, s.start_row, s.start_col)
    }
}

/// The same selection dragged in the opposite direction.
pub open spec fn spec_swapped(s: PaneSelection) -> PaneSelection {
    PaneSelection {
        start_row: s.end_row,
        start_col: s.end_col,
        end_row: s.start_row,
        end_col: s.start_col,
    }
}

impl PaneSelection {
    /// Normalize so that start <= end in row-major order.
    pub fn normalized(&self) -> (r: (u16, u16, u16, u16))
        ensures
            r == spec_normalized(*self),
            r.0 < r.2 || (r.0 == r.2 && r.1 <= r.3),
    {
        if self.start_row < self.end_row || (self.start_row == self.end_row && self.start_col
            <= self.end_col) {
            (self.start_row, self.start_col, self.end_row, self.end_col)
        } else {
            (self.end_row, self.end_col, self.start_row, self.start_col)
        }
    }

    /// Whether the selection covers at least one cell boundary; a
    /// selection whose ends coincide is empty.
    pub fn is_non_empty(&self) -> (r: bool)
        ensures
            r == (self.start_row != self.end_row || self.start_col != self.end_col),
    {
        self.start_row != self.end_row || self.start_col != self.end_col
    }
}

/// Normalization ignores the drag direction.
pub proof fn lemma_normalized_symmetric(s: PaneSelection)
    ensures
        spec_normalized(spec_swapped(s)) == spec_normalized(s),
{
}

/// The characters the cells of `row` from `col` to `end` contribute:
/// each cell's text, a single space for a blank cell.
pub open spec fn row_chars(g: Grid, row: int, col: int, end: int) -> Seq<char>
    decreases end - col,
{
    if col >= end {
        Seq::<char>::empty()
    } else {
        let c = g.spec_cell(row, col);
        (if c.text@.len() == 0 {
            seq![' ']
        } else {
            c.text@
        }) + row_chars(g, row, col + 1, end)
    }
}

/// Whether a character has the Unicode White_Space property — the
/// fixed set of twenty-five code points that whitespace trimming
/// removes.
pub open spec fn is_whitespace_char(c: char) -> bool {
    let u = c as u32;
    u == 0x09 || u == 0x0a || u == 0x0b || u == 0x0c || u == 0x0d || u == 0x20 || u == 0x85
        || u == 0xa0 || u == 0x1680 || (0x2000 <= u && u <= 0x200a) || u == 0x2028 || u == 0x2029
        || u == 0x202f || u == 0x205f || u == 0x3000
}

/// Whether a character is whitespace.
pub fn char_is_whitespace(c: char) -> (r: bool)
    ensures
        r == is_whitespace_char(c),
{
    let u = c as u32;
    u == 0x09 || u == 0x0a || u == 0x0b || u == 0x0c || u == 0x0d || u == 0x20 || u == 0x85
        || u == 0xa0 || u == 0x1680 || (0x2000 <= u && u <= 0x200a) || u == 0x2028 || u == 0x2029
        || u == 0x202f || u == 0x205f || u == 0x3000
}

/// `s` with its trailing whitespace removed.
pub open spec fn trim_trailing_whitespace(s: Seq<char>) -> Seq<char>
    decreases s.len(),
{
    if s.len() > 0 && is_whitespace_char(s.last()) {
        trim_trailing_whitespace(s.drop_last())
    } else {
        s
    }
}

/// The last row of the selection that is drawn: the selection's end
/// row, clamped to the viewport and to the grid.
pub open spec fn sel_max_row(er: int, inner_h: int, rows: int) -> int {
    min_int(er, min_int(sat_dec(inner_h), sat_dec(rows)))
}

/// `n - 1`, stopping at zero.
pub open spec fn sat_dec(n: int) -> int {
    if n >= 1 {
        n - 1
    } else {
        0
    }
}

/// The first and last selected column of `row`, inclusive: the anchor
/// columns on the selection's own rows, the full width in between, all
/// clamped to the viewport and the grid.
pub open spec fn sel_col_range(
    row: int,
    sr: int,
    sc: int,
    er: int,
    ec: int,
    inner_w: int,
    cols: int,
) -> (int, int) {
    let cs = if row == sr {
        sc
    } else {
        0
    };
    let ce0 = if row == er {
        ec
    } else {
        sat_dec(inner_w)
    };
    let ce = min_int(ce0, min_int(sat_dec(inner_w), sat_dec(cols)));
    (cs, ce)
}

/// The text of the selected rows from `row` to `max_row`: each row's
/// characters with trailing whitespace trimmed, rows joined by newlines.
pub open spec fn extract_rows(
    g: Grid,
    row: int,
    max_row: int,
    sr: int,
    sc: int,
    er: int,
    ec: int,
    inner_w: int,
) -> Seq<char>
    decreases max_row - row + 1,
{
    if row > max_row {
        Seq::<char>::empty()
    } else {
        let (cs, ce) = sel_col_range(row, sr, sc, er, ec, inner_w, g.cols as int);
        let line = if row < g.rows as int && g.cols > 0 {
            trim_trailing_whitespace(row_chars(g, row, cs, ce + 1))
        } else {
            Seq::<char>::empty()
        };
        line + (if row < max_row {
            seq!['\n']
        } else {
            Seq::<char>::empty()
        }) + extract_rows(g, row + 1, max_row, sr, sc, er, ec, inner_w)
    }
}

/// The full text a selection extracts from a grid.
pub open spec fn extract_spec(g: Grid, s: PaneSelection, inner_w: u16, inner_h: u16) -> Seq<
    char,
> {
    let (sr, sc, er, ec) = spec_normalized(s);
    extract_rows(
        g,
        sr as int,
        sel_max_row(er as int, inner_h as int, g.rows as int),
        sr as int,
        sc as int,
        er as int,
        ec as int,
        inner_w as int,
    )
}

/// Selection extraction does not depend on the drag direction: the
/// same region dragged either way yields the same text.
pub proof fn lemma_extract_direction_irrelevant(
    g: Grid,
    s: PaneSelection,
    inner_w: u16,
    inner_h: u16,
)
    ensures
        extract_spec(g, spec_swapped(s), inner_w, inner_h) == extract_spec(g, s, inner_w,
            inner_h),
{
    lemma_normalized_symmetric(s);
}

/// Extract the selected text: read each selected cell's glyph, trim
/// trailing whitespace per row, and join the rows with newlines.  The first
/// row starts at the selection's start column and the last row ends at
/// its end column; rows in between span the viewport width.
pub fn extract_selection_text(g: &Grid, sel: &PaneSelection, inner_w: u16, inner_h: u16) -> (out:
    String)
    requires
        g.wf(),
    ensures
        out@ == extract_spec(*g, *sel, inner_w, inner_h),
{
    let (sr, sc, er, ec) = sel.normalized();
    let rows_cap: u16 = if g.rows >= 1 {
        g.rows - 1
    } else {
        0
    };
    let h_cap: u16 = if inner_h >= 1 {
        inner_h - 1
    } else {
        0
    };
    let inner_cap: u16 = if h_cap < rows_cap {
        h_cap
    } else {
        rows_cap
    };
    let max_row: u16 = if er < inner_cap {
        er
    } else {
        inner_cap
    };
    let ghost max_row_i = sel_max_row(er as int, inner_h as int, g.rows as int);
    assert(max_row as int == max_row_i);

    let mut out: String = String::new();
    if sr > max_row {
        return out;
    }
    let mut row: u16 = sr;
    loop
        invariant_except_break
            out@ + extract_rows(*g, row as int, max_row_i, sr as int, sc as int, er as int,
                ec as int, inner_w as int) == extract_rows(*g, sr as int, max_row_i, sr as int,
                sc as int, er as int, ec as int, inner_w as int),
        invariant
            sr <= row <= max_row,
            max_row as int == max_row_i,
            g.wf(),
        ensures
            out@ == extract_rows(*g, sr as int, max_row_i, sr as int, sc as int, er as int,
                ec as int, inner_w as int),
        decreases max_row - row,
    {
        let cs: u16 = if row == sr {
            sc
        } else {
            0
        };
        let w_cap: u16 = if inner_w >= 1 {
            inner_w - 1
        } else {
            0
        };
        let ce0: u16 = if row == er {
            ec
        } else {
            w_cap
        };
        let cols_cap: u16 = if g.cols >= 1 {
            g.cols - 1
        } else {
            0
        };
        let ce1: u16 = if w_cap < cols_cap {
            w_cap
        } else {
            cols_cap
        };
        let ce: u16 = if ce0 < ce1 {
            ce0
        } else {
            ce1
        };
        proof {
            assert((cs as int, ce as int) == sel_col_range(row as int, sr as int, sc as int,
                er as int, ec as int, inner_w as int, g.cols as int));
        }

        if row < g.rows && g.cols > 0 {
            // Collect this row's characters, then trim trailing whitespace.
            let mut line: Vec<char> = Vec::new();
            if cs <= ce {
                let mut col: u32 = cs as u32;
                let end32: u32 = ce as u32 + 1;
                while col < end32
                    invariant
                        cs as int <= col <= end32,
                        end32 == ce as int + 1,
                        ce < g.cols,
                        row < g.rows,
                        g.wf(),
                        line@ + row_chars(*g, row as int, col as int, end32 as int) == row_chars(
                            *g,
                            row as int,
                            cs as int,
                            end32 as int,
                        ),
                    decreases end32 - col,
                {
                    let cell = g.cell(row, col as u16);
                    if cell.text.as_str().is_empty() {
                        line.push(' ');
                    } else {
                        push_str_chars(&mut line, cell.text.as_str());
                    }
                    col = col + 1;
                }
            } else {
                proof {
                    assert(row_chars(*g, row as int, cs as int, ce + 1) =~= Seq::<char>::empty());
                }
            }
            trim_vec_trailing_whitespace(&mut line);
            crate::strutil::push_chars(&mut out, &line);
        }
        if row == max_row {
            proof {
                assert(extract_rows(*g, max_row_i + 1, max_row_i, sr as int, sc as int, er as int,
                    ec as int, inner_w as int) =~= Seq::<char>::empty());
            }
            break;
        }
        crate::strutil::push_char(&mut out, '\n');
        row = row + 1;
    }
    out
}

/// A cell's style under the selection highlight: a fixed background,
/// reverse video off, everything else kept.
pub open spec fn overlay_style(s: CellStyle) -> CellStyle {
    CellStyle {
        fg: s.fg,
        bg: Color::Rgb(60, 70, 100),
        bold: s.bold,
        italic: s.italic,
        underline: s.underline,
        inverse: false,
    }
}

/// The bytes the highlighted cells of one row contribute, with the
/// usual style run-length compression and wide-continuation skipping.
pub open spec fn sel_cells_bytes(
    g: Grid,
    row: int,
    col: int,
    end: int,
    prev: Option<CellStyle>,
) -> Seq<u8>
    decreases end - col,
{
    if col >= end {
        Seq::<u8>::empty()
    } else {
        let c = g.spec_cell(row, col);
        if c.wide_continuation {
            sel_cells_bytes(g, row, col + 1, end, prev)
        } else {
            let st = overlay_style(c.style);
            (if prev == Some(st) {
                Seq::<u8>::empty()
            } else {
                sgr_bytes(st)
            }) + glyph_bytes(c) + sel_cells_bytes(g, row, col + 1, end, Some(st))
        }
    }
}

/// The bytes one selected row contributes: nothing when its column
/// range is empty, else a cursor move to its first selected cell and
/// the highlighted cells that lie inside the grid.
pub open spec fn sel_row_render(
    g: Grid,
    row: int,
    sr: int,
    sc: int,
    er: int,
    ec: int,
    inner_x: u16,
    inner_y: u16,
    inner_w: u16,
) -> Seq<u8> {
    let (cs, ce) = sel_col_range(row, sr, sc, er, ec, inner_w as int, g.cols as int);
    if cs > ce {
        Seq::<u8>::empty()
    } else {
        cup_bytes((inner_y + row + 1) as u16, (inner_x + cs + 1) as u16) + (if row < g.rows as int {
            sel_cells_bytes(g, row, cs, min_int(ce + 1, g.cols as int), Option::None)
        } else {
            Seq::<u8>::empty()
        })
    }
}

/// The selected rows from `row` to `max_row`, concatenated.
pub open spec fn sel_rows_render(
    g: Grid,
    row: int,
    max_row: int,
    sr: int,
    sc: int,
    er: int,
    ec: int,
    inner_x: u16,
    inner_y: u16,
    inner_w: u16,
) -> Seq<u8>
    decreases max_row - row + 1,
{
    if row > max_row {
        Seq::<u8>::empty()
    } else {
        sel_row_render(g, row, sr, sc, er, ec, inner_x, inner_y, inner_w) + sel_rows_render(
            g,
            row + 1,
            max_row,
            sr,
            sc,
            er,
            ec,
            inner_x,
            inner_y,
            inner_w,
        )
    }
}

/// The full selection overlay: the highlighted rows, then a style
/// reset, or nothing when no cell is highlighted.
pub open spec fn selection_output(
    g: Grid,
    s: PaneSelection,
    inner_x: u16,
    inner_y: u16,
    inner_w: u16,
    inner_h: u16,
) -> Seq<u8> {
    let (sr, sc, er, ec) = spec_normalized(s);
    let body = sel_rows_render(
        g,
        sr as int,
        sel_max_row(er as int, inner_h as int, g.rows as int),
        sr as int,
        sc as int,
        er as int,
        ec as int,
        inner_x,
        inner_y,
        inner_w,
    );
    if body.len() == 0 {
        body
    } else {
        body + reset_bytes()
    }
}

/// Overlay the selected cells with the fixed highlight background,
/// emitting exactly the bytes `selection_output` describes.
pub fn render_selection(
    g: &Grid,
    sel: &PaneSelection,
    inner_x: u16,
    inner_y: u16,
    inner_w: u16,
    inner_h: u16,
) -> (out: Vec<u8>)
    requires
        g.wf(),
        inner_x as int + inner_w < 0xffff,
        inner_y as int + inner_h < 0xffff,
        inner_x as int + g.cols < 0xffff,
    ensures
        out@ == selection_output(*g, *sel, inner_x, inner_y, inner_w, inner_h),
{
    let (sr, sc, er, ec) = sel.normalized();
    let rows_cap: u16 = if g.rows >= 1 {
        g.rows - 1
    } else {
        0
    };
    let h_cap: u16 = if inner_h >= 1 {
        inner_h - 1
    } else {
        0
    };
    let inner_cap: u16 = if h_cap < rows_cap {
        h_cap
    } else {
        rows_cap
    };
    let max_row: u16 = if er < inner_cap {
        er
    } else {
        inner_cap
    };
    let ghost max_row_i = sel_max_row(er as int, inner_h as int, g.rows as int);
    assert(max_row as int == max_row_i);

    let mut buf: Vec<u8> = Vec::new();
    if sr > max_row {
        return buf;
    }
    let mut row: u16 = sr;
    loop
        invariant_except_break
            buf@ + sel_rows_render(*g, row as int, max_row_i, sr as int, sc as int, er as int,
                ec as int, inner_x, inner_y, inner_w) == sel_rows_render(*g, sr as int, max_row_i,
                sr as int, sc as int, er as int, ec as int, inner_x, inner_y, inner_w),
        invariant
            sr <= row <= max_row,
            max_row as int == max_row_i,
            g.wf(),
            inner_x as int + inner_w < 0xffff,
            inner_y as int + inner_h < 0xffff,
            inner_x as int + g.cols < 0xffff,
            inner_y as int + max_row_i + 1 <= 0xffff,
        ensures
            buf@ == sel_rows_render(*g, sr as int, max_row_i, sr as int, sc as int, er as int,
                ec as int, inner_x, inner_y, inner_w),
        decreases max_row - row,
    {
        let cs: u16 = if row == sr {
            sc
        } else {
            0
        };
        let w_cap: u16 = if inner_w >= 1 {
            inner_w - 1
        } else {
            0
        };
        let ce0: u16 = if row == er {
            ec
        } else {
            w_cap
        };
        let cols_cap: u16 = if g.cols >= 1 {
            g.cols - 1
        } else {
            0
        };
        let ce1: u16 = if w_cap < cols_cap {
            w_cap
        } else {
            cols_cap
        };
        let ce: u16 = if ce0 < ce1 {
            ce0
        } else {
            ce1
        };
        proof {
            assert((cs as int, ce as int) == sel_col_range(row as int, sr as int, sc as int,
                er as int, ec as int, inner_w as int, g.cols as int));
        }

        if cs <= ce {
            let ghost row_pre = buf@;
            push_cup(&mut buf, inner_y + row + 1, inner_x + cs + 1);
            if row < g.rows {
                let end: u16 = if g.cols < ce + 1 {
                    g.cols
                } else {
                    ce + 1
                };
                let ghost cells_pre = buf@;
                let mut prev_style: Option<CellStyle> = Option::None;
                let mut col: u16 = cs;
                while col < end
                    invariant
                        cs <= col <= end || (col == cs && cs >= end),
                        end as int == min_int(ce as int + 1, g.cols as int),
                        end <= g.cols,
                        row < g.rows,
                        g.wf(),
                        buf@ + sel_cells_bytes(*g, row as int, col as int, end as int, prev_style)
                            == cells_pre + sel_cells_bytes(*g, row as int, cs as int, end as int,
                            Option::None),
                    decreases end - col,
                {
                    let cell = g.cell(row, col);
                    if !cell.wide_continuation {
                        let st = CellStyle {
                            fg: cell.style.fg,
                            bg: Color::Rgb(60, 70, 100),
                            bold: cell.style.bold,
                            italic: cell.style.italic,
                            underline: cell.style.underline,
                            inverse: false,
                        };
                        let style_matches = match prev_style {
                            Option::Some(ref ps) => *ps == st,
                            Option::None => false,
                        };
                        if !style_matches {
                            write_sgr(&mut buf, &st);
                        }
                        if cell.text.as_str().is_empty() {
                            buf.push(0x20);
                        } else {
                            crate::render::push_bytes(&mut buf, cell.text.as_str().as_bytes());
                        }
                        prev_style = Option::Some(st);
                    }
                    col = col + 1;
                }
            }
            proof {
                assert(buf@ == row_pre + sel_row_render(*g, row as int, sr as int, sc as int,
                    er as int, ec as int, inner_x, inner_y, inner_w));
            }
        }
        if row == max_row {
            proof {
                assert(sel_rows_render(*g, max_row_i + 1, max_row_i, sr as int, sc as int,
                    er as int, ec as int, inner_x, inner_y, inner_w) =~= Seq::<u8>::empty());
            }
            break;
        }
        row = row + 1;
    }
    if !buf.is_empty() {
        push_reset(&mut buf);
    }
    buf
}

/// Append every character of `s`.
fn push_str_chars(line: &mut Vec<char>, s: &str)
    ensures
        final(line)@ == old(line)@ + s@,
{
    let n = s.unicode_len();
    let mut i: usize = 0;
    while i < n
        invariant
            i <= n,
            n == s@.len(),
            line@ == old(line)@ + s@.take(i as int),
        decreases n - i,
    {
        let c = s.get_char(i);
        proof {
            assert(s@.take(i + 1) =~= s@.take(i as int).push(s@[i as int]));
        }
        line.push(c);
        i = i + 1;
    }
    proof {
        assert(s@.take(n as int) =~= s@);
    }
}

/// Remove trailing whitespace in place.
pub fn trim_vec_trailing_whitespace(line: &mut Vec<char>)
    ensures
        final(line)@ == trim_trailing_whitespace(old(line)@),
{
    loop
        invariant
            trim_trailing_whitespace(line@) == trim_trailing_whitespace(old(line)@),
        ensures
            line@ == trim_trailing_whitespace(old(line)@),
        decreases line@.len(),
    {
        let n = line.len();
        if n == 0 {
            proof {
                assert(trim_trailing_whitespace(line@) == line@);
            }
            break;
        }
        let last = line[n - 1];
        if char_is_whitespace(last) {
            proof {
                assert(is_whitespace_char(line@.last()));
                assert(trim_trailing_whitespace(line@) == trim_trailing_whitespace(
                    line@.drop_last(),
                ));
                assert(line@.subrange(0, n - 1) =~= line@.drop_last());
            }
            line.pop();
        } else {
            proof {
                assert(trim_trailing_whitespace(line@) == line@);
            }
            break;
        }
    }
}

} // verus!
