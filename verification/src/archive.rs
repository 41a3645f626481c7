//! The plain-text capture of a pane's screen, taken when a pane is
//! torn down so the session's last view can be archived.

use vstd::prelude::*;

use crate::grid::Grid;
use crate::selection::row_chars;
use crate::selection::trim_trailing_whitespace;

verus! {

/// The text of the rows from `row` down: each row's glyphs with
/// trailing whitespace trimmed, every row ended by a newline.
pub open spec fn rows_text(g: Grid, row: int) -> Seq<char>
    decreases g.rows - row,
{
    if row < 0 || row >= g.rows as int {
        Seq::<char>::empty()
    } else {
        trim_trailing_whitespace(row_chars(g, row, 0, g.cols as int)) + seq!['\n'] + rows_text(
            g,
            row + 1,
        )
    }
}

/// The whole screen as plain text.
pub open spec fn screen_text_spec(g: Grid) -> Seq<char> {
    rows_text(g, 0)
}

/// Capture a screen as plain text: one line per row, trailing
/// whitespace trimmed, no colors or attributes.
pub fn screen_text(g: &Grid) -> (out: String)
    requires
        g.wf(),
    ensures
        out@ == screen_text_spec(*g),
{
    let mut out = String::new();
    let mut row: u16 = 0;
    while row < g.rows
        invariant
            row <= g.rows,
            g.wf(),
            out@ + rows_text(*g, row as int) == rows_text(*g, 0),
        decreases g.rows - row,
    {
        let mut line: Vec<char> = Vec::new();
        let mut col: u16 = 0;
        while col < g.cols
            invariant
                col <= g.cols,
                row < g.rows,
                g.wf(),
                line@ + row_chars(*g, row as int, col as int, g.cols as int) == row_chars(
                    *g,
                    row as int,
                    0,
                    g.cols as int,
                ),
            decreases g.cols - col,
        {
            let cell = g.cell(row, col);
            if cell.text.as_str().is_empty() {
                line.push(' ');
            } else {
                let mut cs = chars_of(cell.text.as_str());
                line.append(&mut cs);
            }
            col = col + 1;
        }
        crate::selection::trim_vec_trailing_whitespace(&mut line);
        crate::strutil::push_chars(&mut out, &line);
        crate::strutil::push_char(&mut out, '\n');
        row = row + 1;
    }
    out
}

/// The characters of a string as a vector.
fn chars_of(s: &str) -> (r: Vec<char>)
    ensures
        r@ == s@,
{
    let n = s.unicode_len();
    let mut out: Vec<char> = Vec::new();
    let mut i: usize = 0;
    while i < n
        invariant
            i <= n,
            n == s@.len(),
            out@ == s@.take(i as int),
        decreases n - i,
    {
        proof {
            assert(s@.take(i + 1) =~= s@.take(i as int).push(s@[i as int]));
        }
        out.push(s.get_char(i));
        i = i + 1;
    }
    proof {
        assert(s@.take(n as int) =~= s@);
    }
    out
}

} // verus!
