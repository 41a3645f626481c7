//! Differential renderer: turns a grid (and optionally the previous
//! frame's grid) into the exact escape-sequence byte stream that brings
//! the physical terminal in sync.
//!
//! Every public function states the bytes it produces, byte for byte,
//! through the spec functions in this module.

use vstd::prelude::*;
use vstd::utf8::encode_scalar;
use vstd::utf8::encode_utf8;

use crate::grid::Cell;
use crate::grid::CellStyle;
use crate::grid::Color;
use crate::grid::Grid;
use crate::grid::cell_matches;
use crate::grid::default_style;

verus! {

/// Decimal digits of `n`, most significant first, as ASCII bytes.
pub open spec fn dec_u16(n: u16) -> Seq<u8>
    decreases n,
{
    if n < 10 {
        seq![(0x30 + n) as u8]
    } else {
        dec_u16((n / 10) as u16) + seq![(0x30 + (n % 10)) as u8]
    }
}

/// Append the decimal representation of `n`, without leading zeros.
pub fn push_u16(buf: &mut Vec<u8>, n: u16)
    ensures
        final(buf)@ == old(buf)@ + dec_u16(n),
    decreases n,
{
    if n >= 10 {
        push_u16(buf, n / 10);
    }
    buf.push(0x30u8 + (n % 10) as u8);
}

/// Append the decimal representation of a `u8`.
pub fn push_u8(buf: &mut Vec<u8>, n: u8)
    ensures
        final(buf)@ == old(buf)@ + dec_u16(n as u16),
{
    push_u16(buf, n as u16);
}

/// The two bytes that open a control sequence: ESC `[`.
pub open spec fn csi_bytes() -> Seq<u8> {
    seq![0x1bu8, 0x5bu8]
}

/// Append a control-sequence introducer.
pub fn push_csi(buf: &mut Vec<u8>)
    ensures
        final(buf)@ == old(buf)@ + csi_bytes(),
{
    buf.push(0x1b);
    buf.push(0x5b);
}

/// The cursor-position sequence `ESC [ row ; col H` (one-based).
pub open spec fn cup_bytes(row: u16, col: u16) -> Seq<u8> {
    csi_bytes() + dec_u16(row) + seq![0x3bu8] + dec_u16(col) + seq![0x48u8]
}

/// Append a cursor-position sequence.
pub fn push_cup(buf: &mut Vec<u8>, row: u16, col: u16)
    ensures
        final(buf)@ == old(buf)@ + cup_bytes(row, col),
{
    push_csi(buf);
    push_u16(buf, row);
    buf.push(0x3b);
    push_u16(buf, col);
    buf.push(0x48);
}

/// The SGR parameter bytes a color contributes, always led by `;`.
/// Default colors resolve to fixed explicit RGB values so the output
/// does not depend on the physical terminal's theme.
pub open spec fn color_bytes(c: Color, is_fg: bool) -> Seq<u8> {
    match c {
        Color::Default => if is_fg {
            seq![0x3bu8] + dec_u16(38) + seq![0x3bu8] + dec_u16(2) + seq![0x3bu8] + dec_u16(220)
                + seq![0x3bu8] + dec_u16(220) + seq![0x3bu8] + dec_u16(230)
        } else {
            seq![0x3bu8] + dec_u16(48) + seq![0x3bu8] + dec_u16(2) + seq![0x3bu8] + dec_u16(18)
                + seq![0x3bu8] + dec_u16(18) + seq![0x3bu8] + dec_u16(24)
        },
        Color::Idx(i) => if i < 8 {
            seq![0x3bu8] + dec_u16((if is_fg {
                30 + i
            } else {
                40 + i
            }) as u16)
        } else if i < 16 {
            seq![0x3bu8] + dec_u16((if is_fg {
                90 + (i - 8)
            } else {
                100 + (i - 8)
            }) as u16)
        } else {
            seq![0x3bu8] + dec_u16(if is_fg {
                38
            } else {
                48
            }) + seq![0x3bu8] + dec_u16(5) + seq![0x3bu8] + dec_u16(i as u16)
        },
        Color::Rgb(r, g, b) => seq![0x3bu8] + dec_u16(if is_fg {
            38
        } else {
            48
        }) + seq![0x3bu8] + dec_u16(2) + seq![0x3bu8] + dec_u16(r as u16) + seq![0x3bu8] + dec_u16(
            g as u16,
        ) + seq![0x3bu8] + dec_u16(b as u16),
    }
}

/// Append the SGR parameters for one color.
pub fn write_color(buf: &mut Vec<u8>, color: Color, is_fg: bool)
    ensures
        final(buf)@ == old(buf)@ + color_bytes(color, is_fg),
{
    match color {
        Color::Default => {
            if is_fg {
                buf.push(0x3b);
                push_u8(buf, 38);
                buf.push(0x3b);
                push_u8(buf, 2);
                buf.push(0x3b);
                push_u8(buf, 220);
                buf.push(0x3b);
                push_u8(buf, 220);
                buf.push(0x3b);
                push_u8(buf, 230);
            } else {
                buf.push(0x3b);
                push_u8(buf, 48);
                buf.push(0x3b);
                push_u8(buf, 2);
                buf.push(0x3b);
                push_u8(buf, 18);
                buf.push(0x3b);
                push_u8(buf, 18);
                buf.push(0x3b);
                push_u8(buf, 24);
            }
        },
        Color::Idx(i) => {
            if i < 8 {
                buf.push(0x3b);
                push_u8(buf, if is_fg {
                    30 + i
                } else {
                    40 + i
                });
            } else if i < 16 {
                buf.push(0x3b);
                push_u8(buf, if is_fg {
                    90 + (i - 8)
                } else {
                    100 + (i - 8)
                });
            } else {
                buf.push(0x3b);
                push_u8(buf, if is_fg {
                    38
                } else {
                    48
                });
                buf.push(0x3b);
                push_u8(buf, 5);
                buf.push(0x3b);
                push_u8(buf, i);
            }
        },
        Color::Rgb(r, g, b) => {
            buf.push(0x3b);
            push_u8(buf, if is_fg {
                38
            } else {
                48
            });
            buf.push(0x3b);
            push_u8(buf, 2);
            buf.push(0x3b);
            push_u8(buf, r);
            buf.push(0x3b);
            push_u8(buf, g);
            buf.push(0x3b);
            push_u8(buf, b);
        },
    }
}

/// The full SGR sequence for a style: reset, attribute flags, then both
/// colors.  An inverse style swaps foreground and background instead of
/// relying on the terminal's reverse-video attribute.
pub open spec fn sgr_bytes(s: CellStyle) -> Seq<u8> {
    csi_bytes() + seq![0x30u8] + (if s.bold {
        seq![0x3bu8, 0x31u8]
    } else {
        Seq::<u8>::empty()
    }) + (if s.italic {
        seq![0x3bu8, 0x33u8]
    } else {
        Seq::<u8>::empty()
    }) + (if s.underline {
        seq![0x3bu8, 0x34u8]
    } else {
        Seq::<u8>::empty()
    }) + (if s.inverse {
        color_bytes(s.bg, true) + color_bytes(s.fg, false)
    } else {
        color_bytes(s.fg, true) + color_bytes(s.bg, false)
    }) + seq![0x6du8]
}

/// Append the SGR sequence for `s`.
#[verifier::rlimit(60)]
pub fn write_sgr(buf: &mut Vec<u8>, s: &CellStyle)
    ensures
        final(buf)@ == old(buf)@ + sgr_bytes(*s),
{
    push_csi(buf);
    buf.push(0x30);
    if s.bold {
        buf.push(0x3b);
        buf.push(0x31);
    }
    if s.italic {
        buf.push(0x3b);
        buf.push(0x33);
    }
    if s.underline {
        buf.push(0x3b);
        buf.push(0x34);
    }
    if s.inverse {
        write_color(buf, s.bg, true);
        write_color(buf, s.fg, false);
    } else {
        write_color(buf, s.fg, true);
        write_color(buf, s.bg, false);
    }
    buf.push(0x6d);
}

/// The style-reset sequence `ESC [ 0 m`.
pub open spec fn reset_bytes() -> Seq<u8> {
    csi_bytes() + seq![0x30u8, 0x6du8]
}

/// Append a style reset.
pub fn push_reset(buf: &mut Vec<u8>)
    ensures
        final(buf)@ == old(buf)@ + reset_bytes(),
{
    push_csi(buf);
    buf.push(0x30);
    buf.push(0x6d);
}

/// `n` blank bytes.
pub open spec fn spaces(n: int) -> Seq<u8>
    decreases n,
{
    if n <= 0 {
        Seq::<u8>::empty()
    } else {
        spaces(n - 1) + seq![0x20u8]
    }
}

/// Append every byte of `s`.
pub fn push_bytes(buf: &mut Vec<u8>, s: &[u8])
    ensures
        final(buf)@ == old(buf)@ + s@,
{
    let mut i: usize = 0;
    while i < s.len()
        invariant
            i <= s@.len(),
            buf@ == old(buf)@ + s@.subrange(0, i as int),
        decreases s@.len() - i,
    {
        buf.push(s[i]);
        i = i + 1;
    }
    assert(s@.subrange(0, s@.len() as int) == s@);
}

/// Append `n` spaces.
pub fn push_spaces(buf: &mut Vec<u8>, n: u16)
    ensures
        final(buf)@ == old(buf)@ + spaces(n as int),
{
    let mut i: u16 = 0;
    while i < n
        invariant
            i <= n,
            buf@ == old(buf)@ + spaces(i as int),
        decreases n - i,
    {
        buf.push(0x20);
        i = i + 1;
    }
}

/// The smaller of two mathematical integers.
pub open spec fn min_int(a: int, b: int) -> int {
    if a < b {
        a
    } else {
        b
    }
}

/// The bytes one cell's glyph contributes: a space for a blank cell,
/// else the UTF-8 encoding of its text.
pub open spec fn glyph_bytes(c: Cell) -> Seq<u8> {
    if c.text@.len() == 0 {
        seq![0x20u8]
    } else {
        encode_utf8(c.text@)
    }
}

/// How many columns of a row the renderer draws: the viewport width,
/// capped at the grid width.
pub open spec fn cols_to_draw(g: Grid, inner_w: u16) -> int {
    min_int(inner_w as int, g.cols as int)
}

/// Bytes emitted for the cells of one row from `col` to `end`, with
/// `prev` the last style written (if any): a style change is emitted
/// only when a cell's style differs from the previous cell's, and
/// wide-glyph continuation cells emit nothing at all.
pub open spec fn row_cells_bytes(
    g: Grid,
    row: int,
    col: int,
    end: int,
    prev: Option<CellStyle>,
) -> Seq<u8>
    decreases end - col,
{
    if col >= end {
        Seq::<u8>::empty()
    } else {
        let c = g.spec_cell(row, col);
        if c.wide_continuation {
            row_cells_bytes(g, row, col + 1, end, prev)
        } else {
            (if prev == Some(c.style) {
                Seq::<u8>::empty()
            } else {
                sgr_bytes(c.style)
            }) + glyph_bytes(c) + row_cells_bytes(g, row, col + 1, end, Some(c.style))
        }
    }
}

/// The style in effect after drawing the cells of one row from `col` to
/// `end`, starting from `prev`.
pub open spec fn row_final_style(
    g: Grid,
    row: int,
    col: int,
    end: int,
    prev: Option<CellStyle>,
) -> Option<CellStyle>
    decreases end - col,
{
    if col >= end {
        prev
    } else {
        let c = g.spec_cell(row, col);
        if c.wide_continuation {
            row_final_style(g, row, col + 1, end, prev)
        } else {
            row_final_style(g, row, col + 1, end, Some(c.style))
        }
    }
}

/// Whether the first `end` cells of `row` are identical in both grids.
pub open spec fn row_unchanged(g: Grid, p: Grid, row: int, end: int) -> bool {
    forall|c: int|
        0 <= c < end ==> cell_matches(#[trigger] g.spec_cell(row, c), p.spec_cell(row, c))
}

/// Whether the renderer skips `row` entirely: a previous frame exists,
/// its dimensions match, and every compared cell of the row is unchanged.
pub open spec fn row_skipped(g: Grid, prev: Option<Grid>, row: int, inner_w: u16) -> bool {
    match prev {
        Option::None => false,
        Option::Some(p) => p.rows == g.rows && p.cols == g.cols && row_unchanged(
            g,
            p,
            row,
            cols_to_draw(g, inner_w),
        ),
    }
}

/// Bytes that pad a drawn row out to the viewport width when the grid is
/// narrower: a switch to the default style if needed, then spaces.
pub open spec fn row_pad_bytes(g: Grid, row: int, inner_w: u16) -> Seq<u8> {
    let filled = cols_to_draw(g, inner_w);
    if filled < inner_w as int {
        (if row_final_style(g, row, 0, filled, Option::None) == Some(default_style()) {
            Seq::<u8>::empty()
        } else {
            sgr_bytes(default_style())
        }) + spaces(inner_w as int - filled)
    } else {
        Seq::<u8>::empty()
    }
}

/// All bytes one row contributes to a frame: nothing when the row is
/// skipped, else a cursor move to the row's origin, the cells, and the
/// padding.
pub open spec fn row_chunk(
    g: Grid,
    prev: Option<Grid>,
    row: int,
    inner_x: u16,
    inner_y: u16,
    inner_w: u16,
) -> Seq<u8> {
    if row_skipped(g, prev, row, inner_w) {
        Seq::<u8>::empty()
    } else {
        cup_bytes((inner_y + row + 1) as u16, (inner_x + 1) as u16) + row_cells_bytes(
            g,
            row,
            0,
            cols_to_draw(g, inner_w),
            Option::None,
        ) + row_pad_bytes(g, row, inner_w)
    }
}

/// Concatenation of the row chunks from `row` to `end`.
pub open spec fn rows_bytes_from(
    g: Grid,
    prev: Option<Grid>,
    row: int,
    end: int,
    inner_x: u16,
    inner_y: u16,
    inner_w: u16,
) -> Seq<u8>
    decreases end - row,
{
    if row >= end {
        Seq::<u8>::empty()
    } else {
        row_chunk(g, prev, row, inner_x, inner_y, inner_w) + rows_bytes_from(
            g,
            prev,
            row + 1,
            end,
            inner_x,
            inner_y,
            inner_w,
        )
    }
}

/// Whether rows below the grid must be blanked: only when there is no
/// previous frame to compare against, or its height differs.
pub open spec fn need_row_fill(g: Grid, prev: Option<Grid>) -> bool {
    match prev {
        Option::None => true,
        Option::Some(p) => p.rows != g.rows,
    }
}

/// The blank rows written from `row` to `end`.
pub open spec fn fill_rows_from(
    row: int,
    end: int,
    inner_x: u16,
    inner_y: u16,
    inner_w: u16,
) -> Seq<u8>
    decreases end - row,
{
    if row >= end {
        Seq::<u8>::empty()
    } else {
        cup_bytes((inner_y + row + 1) as u16, (inner_x + 1) as u16) + spaces(inner_w as int)
            + fill_rows_from(row + 1, end, inner_x, inner_y, inner_w)
    }
}

/// Bytes that blank the viewport rows below the grid, when needed.
pub open spec fn fill_rows_bytes(
    g: Grid,
    prev: Option<Grid>,
    inner_x: u16,
    inner_y: u16,
    inner_w: u16,
    inner_h: u16,
) -> Seq<u8> {
    let filled = min_int(inner_h as int, g.rows as int);
    if filled < inner_h as int && need_row_fill(g, prev) {
        sgr_bytes(default_style()) + fill_rows_from(filled, inner_h as int, inner_x, inner_y,
            inner_w)
    } else {
        Seq::<u8>::empty()
    }
}

/// The frame body: the per-row chunks, then the blank fill rows.
pub open spec fn render_core(
    g: Grid,
    prev: Option<Grid>,
    inner_x: u16,
    inner_y: u16,
    inner_w: u16,
    inner_h: u16,
) -> Seq<u8> {
    rows_bytes_from(g, prev, 0, min_int(inner_h as int, g.rows as int), inner_x, inner_y, inner_w)
        + fill_rows_bytes(g, prev, inner_x, inner_y, inner_w, inner_h)
}

/// The full output of one differential render: the frame body followed
/// by a style reset, or nothing at all when no row needed drawing.
pub open spec fn render_output(
    g: Grid,
    prev: Option<Grid>,
    inner_x: u16,
    inner_y: u16,
    inner_w: u16,
    inner_h: u16,
) -> Seq<u8> {
    let core = render_core(g, prev, inner_x, inner_y, inner_w, inner_h);
    if core.len() == 0 {
        core
    } else {
        core + reset_bytes()
    }
}

/// The previous-frame argument as a mathematical option.
pub open spec fn prev_val(prev: Option<&Grid>) -> Option<Grid> {
    match prev {
        Option::None => Option::None,
        Option::Some(p) => Option::Some(*p),
    }
}

/// Render one pane's cells into the viewport whose top-left inner cell
/// is `(inner_x, inner_y)` (zero-based screen coordinates), emitting the
/// exact byte stream `render_output` describes.  Rows identical to the
/// previous frame cost zero bytes.
pub fn render_pty_direct(
    g: &Grid,
    prev: Option<&Grid>,
    inner_x: u16,
    inner_y: u16,
    inner_w: u16,
    inner_h: u16,
) -> (out: Vec<u8>)
    requires
        g.wf(),
        (match prev {
            Option::Some(p) => p.wf(),
            Option::None => true,
        }),
        inner_x as int + inner_w < 0xffff,
        inner_y as int + inner_h < 0xffff,
    ensures
        out@ == render_output(*g, prev_val(prev), inner_x, inner_y, inner_w, inner_h),
{
    let ghost gv = *g;
    let ghost prevv = prev_val(prev);
    let mut buf: Vec<u8> = Vec::new();
    let rows_to_draw: u16 = if inner_h < g.rows {
        inner_h
    } else {
        g.rows
    };
    let cols_end: u16 = if inner_w < g.cols {
        inner_w
    } else {
        g.cols
    };
    assert(rows_to_draw as int == min_int(inner_h as int, gv.rows as int));
    assert(cols_end as int == cols_to_draw(gv, inner_w));

    let mut row: u16 = 0;
    while row < rows_to_draw
        invariant
            row <= rows_to_draw,
            g.wf(),
            gv == *g,
            prevv == prev_val(prev),
            (match prev {
                Option::Some(p) => p.wf(),
                Option::None => true,
            }),
            rows_to_draw <= g.rows,
            rows_to_draw <= inner_h,
            cols_end as int == cols_to_draw(gv, inner_w),
            inner_x as int + inner_w < 0xffff,
            inner_y as int + inner_h < 0xffff,
            buf@ + rows_bytes_from(gv, prevv, row as int, rows_to_draw as int, inner_x, inner_y,
                inner_w) == rows_bytes_from(gv, prevv, 0, rows_to_draw as int, inner_x, inner_y,
                inner_w),
        decreases rows_to_draw - row,
    {
        // Differential skip: an unchanged row of a same-size previous
        // frame costs nothing.
        let mut skip = false;
        match prev {
            Option::Some(p) => {
                if p.rows == g.rows && p.cols == g.cols {
                    let mut changed = false;
                    let mut cc: u16 = 0;
                    while cc < cols_end && !changed
                        invariant
                            cc <= cols_end,
                            g.wf(),
                            p.wf(),
                            gv == *g,
                            p.rows == g.rows,
                            p.cols == g.cols,
                            row < rows_to_draw <= g.rows,
                            cols_end as int == cols_to_draw(gv, inner_w),
                            cols_end <= g.cols,
                            !changed ==> (forall|k: int|
                                0 <= k < cc ==> cell_matches(
                                    #[trigger] gv.spec_cell(row as int, k),
                                    p.spec_cell(row as int, k),
                                )),
                            changed ==> !row_unchanged(gv, *p, row as int, cols_end as int),
                        decreases cols_end - cc,
                    {
                        if !g.cell(row, cc).same_as(p.cell(row, cc)) {
                            changed = true;
                        }
                        cc = cc + 1;
                    }
                    skip = !changed;
                    proof {
                        if skip {
                            assert(row_unchanged(gv, *p, row as int, cols_end as int));
                        }
                        assert(skip == row_skipped(gv, prevv, row as int, inner_w));
                    }
                } else {
                    assert(!row_skipped(gv, prevv, row as int, inner_w));
                }
            },
            Option::None => {
                assert(!row_skipped(gv, prevv, row as int, inner_w));
            },
        }

        if !skip {
            let ghost row_pre = buf@;
            push_cup(&mut buf, inner_y + row + 1, inner_x + 1);

            let mut prev_style: Option<CellStyle> = Option::None;
            let mut col: u16 = 0;
            let ghost cells_pre = buf@;
            while col < cols_end
                invariant
                    col <= cols_end,
                    g.wf(),
                    gv == *g,
                    row < rows_to_draw <= g.rows,
                    cols_end <= g.cols,
                    buf@ + row_cells_bytes(gv, row as int, col as int, cols_end as int, prev_style)
                        == cells_pre + row_cells_bytes(gv, row as int, 0, cols_end as int,
                        Option::None),
                    row_final_style(gv, row as int, col as int, cols_end as int, prev_style)
                        == row_final_style(gv, row as int, 0, cols_end as int, Option::None),
                decreases cols_end - col,
            {
                let cell = g.cell(row, col);
                if !cell.wide_continuation {
                    let style_matches = match prev_style {
                        Option::Some(ref ps) => *ps == cell.style,
                        Option::None => false,
                    };
                    if !style_matches {
                        write_sgr(&mut buf, &cell.style);
                    }
                    if cell.text.as_str().is_empty() {
                        buf.push(0x20);
                    } else {
                        push_bytes(&mut buf, cell.text.as_str().as_bytes());
                    }
                    prev_style = Option::Some(cell.style);
                }
                col = col + 1;
            }

            // Pad out to the viewport width in the default style.
            if cols_end < inner_w {
                let dflt = CellStyle::default_cell();
                let pad_needed = match prev_style {
                    Option::Some(ref ps) => !(*ps == dflt),
                    Option::None => true,
                };
                if pad_needed {
                    write_sgr(&mut buf, &dflt);
                }
                push_spaces(&mut buf, inner_w - cols_end);
            }
            proof {
                assert(buf@ == row_pre + row_chunk(gv, prevv, row as int, inner_x, inner_y,
                    inner_w));
            }
        }
        row = row + 1;
    }

    // Blank the rows below the grid when no previous frame of the same
    // height is available for comparison.
    if rows_to_draw < inner_h {
        let fill_needed = match prev {
            Option::Some(p) => p.rows != g.rows,
            Option::None => true,
        };
        if fill_needed {
            let ghost fill_pre = buf@;
            let dflt = CellStyle::default_cell();
            write_sgr(&mut buf, &dflt);
            let mut frow: u16 = rows_to_draw;
            while frow < inner_h
                invariant
                    rows_to_draw <= frow <= inner_h,
                    inner_x as int + inner_w < 0xffff,
                    inner_y as int + inner_h < 0xffff,
                    buf@ + fill_rows_from(frow as int, inner_h as int, inner_x, inner_y, inner_w)
                        == fill_pre + sgr_bytes(default_style()) + fill_rows_from(
                        rows_to_draw as int, inner_h as int, inner_x, inner_y, inner_w),
                decreases inner_h - frow,
            {
                push_cup(&mut buf, inner_y + frow + 1, inner_x + 1);
                push_spaces(&mut buf, inner_w);
                frow = frow + 1;
            }
        }
    }
    proof {
        assert(buf@ == render_core(gv, prevv, inner_x, inner_y, inner_w, inner_h));
    }

    if !buf.is_empty() {
        push_reset(&mut buf);
    }
    buf
}

/// Rows that are all skipped contribute no bytes.
proof fn lemma_rows_all_skipped(
    g: Grid,
    prev: Option<Grid>,
    row: int,
    end: int,
    inner_x: u16,
    inner_y: u16,
    inner_w: u16,
)
    requires
        forall|r: int| row <= r < end ==> #[trigger] row_skipped(g, prev, r, inner_w),
    ensures
        rows_bytes_from(g, prev, row, end, inner_x, inner_y, inner_w) == Seq::<u8>::empty(),
    decreases end - row,
{
    if row < end {
        lemma_rows_all_skipped(g, prev, row + 1, end, inner_x, inner_y, inner_w);
    }
}

/// When every row except `r` is skipped, the frame body is exactly the
/// chunk of row `r`.
proof fn lemma_rows_single(
    g: Grid,
    prev: Option<Grid>,
    row: int,
    end: int,
    r: int,
    inner_x: u16,
    inner_y: u16,
    inner_w: u16,
)
    requires
        row <= r < end,
        forall|r2: int|
            row <= r2 < end && r2 != r ==> #[trigger] row_skipped(g, prev, r2, inner_w),
    ensures
        rows_bytes_from(g, prev, row, end, inner_x, inner_y, inner_w) == row_chunk(
            g,
            prev,
            r,
            inner_x,
            inner_y,
            inner_w,
        ),
    decreases end - row,
{
    if row == r {
        lemma_rows_all_skipped(g, prev, row + 1, end, inner_x, inner_y, inner_w);
    } else {
        lemma_rows_single(g, prev, row + 1, end, r, inner_x, inner_y, inner_w);
    }
}

/// Diff correctness: rendering a frame against an identical previous
/// frame of the same dimensions emits no bytes at all.
pub proof fn lemma_identical_frames_render_nothing(
    g: Grid,
    p: Grid,
    inner_x: u16,
    inner_y: u16,
    inner_w: u16,
    inner_h: u16,
)
    requires
        g.rows == p.rows,
        g.cols == p.cols,
        forall|r: int, c: int|
            0 <= r < g.rows && 0 <= c < g.cols ==> cell_matches(
                #[trigger] g.spec_cell(r, c),
                p.spec_cell(r, c),
            ),
    ensures
        render_output(g, Some(p), inner_x, inner_y, inner_w, inner_h) == Seq::<u8>::empty(),
{
    let end = min_int(inner_h as int, g.rows as int);
    assert forall|r: int| 0 <= r < end implies #[trigger] row_skipped(
        g,
        Some(p),
        r,
        inner_w,
    ) by {
        assert forall|c: int| 0 <= c < cols_to_draw(g, inner_w) implies cell_matches(
            #[trigger] g.spec_cell(r, c),
            p.spec_cell(r, c),
        ) by {}
    }
    lemma_rows_all_skipped(g, Some(p), 0, end, inner_x, inner_y, inner_w);
    assert(!need_row_fill(g, Some(p)));
}

/// Diff minimality: when exactly one row of the viewport differs from
/// the previous frame (of equal dimensions), the output is that single
/// row's bytes — one cursor-position sequence, the row's cells, the
/// row padding, and the final style reset — and nothing else.
pub proof fn lemma_single_changed_row(
    g: Grid,
    p: Grid,
    r: int,
    inner_x: u16,
    inner_y: u16,
    inner_w: u16,
    inner_h: u16,
)
    requires
        g.rows == p.rows,
        g.cols == p.cols,
        0 <= r < min_int(inner_h as int, g.rows as int),
        !row_unchanged(g, p, r, cols_to_draw(g, inner_w)),
        forall|r2: int|
            0 <= r2 < min_int(inner_h as int, g.rows as int) && r2 != r
                ==> row_unchanged(g, p, r2, cols_to_draw(g, inner_w)),
    ensures
        render_output(g, Some(p), inner_x, inner_y, inner_w, inner_h) == cup_bytes(
            (inner_y + r + 1) as u16,
            (inner_x + 1) as u16,
        ) + row_cells_bytes(g, r, 0, cols_to_draw(g, inner_w), Option::None) + row_pad_bytes(
            g,
            r,
            inner_w,
        ) + reset_bytes(),
{
    let end = min_int(inner_h as int, g.rows as int);
    assert forall|r2: int| 0 <= r2 < end && r2 != r implies #[trigger] row_skipped(
        g,
        Some(p),
        r2,
        inner_w,
    ) by {}
    assert(!row_skipped(g, Some(p), r, inner_w));
    lemma_rows_single(g, Some(p), 0, end, r, inner_x, inner_y, inner_w);
    assert(!need_row_fill(g, Some(p)));
    let chunk = row_chunk(g, Some(p), r, inner_x, inner_y, inner_w);
    assert(chunk == cup_bytes((inner_y + r + 1) as u16, (inner_x + 1) as u16) + row_cells_bytes(
        g,
        r,
        0,
        cols_to_draw(g, inner_w),
        Option::None,
    ) + row_pad_bytes(g, r, inner_w));
    assert(render_core(g, Some(p), inner_x, inner_y, inner_w, inner_h) == chunk);
    assert(cup_bytes((inner_y + r + 1) as u16, (inner_x + 1) as u16).len() > 0);
}

/// The bytes that place and reveal the hardware cursor for the active
/// pane: a cursor move to the pane-local cursor position, then the
/// show-cursor sequence — or nothing when the program hid its cursor.
pub open spec fn cursor_output(g: Grid, inner_x: u16, inner_y: u16) -> Seq<u8> {
    if g.hide_cursor {
        Seq::<u8>::empty()
    } else {
        cup_bytes((inner_y + g.cursor_row + 1) as u16, (inner_x + g.cursor_col + 1) as u16)
            + csi_bytes() + seq![0x3fu8, 0x32u8, 0x35u8, 0x68u8]
    }
}

/// Position the hardware cursor at the pane's cursor location and show
/// it, but only when the program running in the pane wants it visible.
pub fn write_pty_cursor(g: &Grid, inner_x: u16, inner_y: u16) -> (out: Vec<u8>)
    requires
        inner_y as int + g.cursor_row < 0xffff,
        inner_x as int + g.cursor_col < 0xffff,
    ensures
        out@ == cursor_output(*g, inner_x, inner_y),
{
    let mut buf: Vec<u8> = Vec::new();
    if g.hide_cursor {
        return buf;
    }
    push_cup(&mut buf, inner_y + g.cursor_row + 1, inner_x + g.cursor_col + 1);
    push_csi(&mut buf);
    buf.push(0x3f);
    buf.push(0x32);
    buf.push(0x35);
    buf.push(0x68);
    buf
}

/// The bytes that open a frame: begin synchronized update, so the
/// terminal holds back partial output, and hide the cursor while
/// drawing.
pub open spec fn frame_open_spec() -> Seq<u8> {
    csi_bytes() + seq![0x3fu8] + dec_u16(2026) + seq![0x68u8] + csi_bytes() + seq![0x3fu8]
        + dec_u16(25) + seq![0x6cu8]
}

/// The byte that closes a frame: end synchronized update, letting the
/// terminal show the whole frame at once.
pub open spec fn frame_close_spec() -> Seq<u8> {
    csi_bytes() + seq![0x3fu8] + dec_u16(2026) + seq![0x6cu8]
}

/// The bytes written before a frame's content.
pub fn frame_open_bytes() -> (out: Vec<u8>)
    ensures
        out@ == frame_open_spec(),
{
    let mut buf: Vec<u8> = Vec::new();
    push_csi(&mut buf);
    buf.push(0x3f);
    push_u16(&mut buf, 2026);
    buf.push(0x68);
    push_csi(&mut buf);
    buf.push(0x3f);
    push_u16(&mut buf, 25);
    buf.push(0x6c);
    buf
}

/// The bytes written after a frame's content.
pub fn frame_close_bytes() -> (out: Vec<u8>)
    ensures
        out@ == frame_close_spec(),
{
    let mut buf: Vec<u8> = Vec::new();
    push_csi(&mut buf);
    buf.push(0x3f);
    push_u16(&mut buf, 2026);
    buf.push(0x6c);
    buf
}

/// Append the UTF-8 encoding of one character.
pub fn push_char_utf8(buf: &mut Vec<u8>, c: char)
    ensures
        final(buf)@ == old(buf)@ + encode_scalar(c as u32),
{
    proof {
        vstd::utf8::char_is_scalar(c);
    }
    let u = c as u32;
    if u <= 0x7F {
        buf.push((u & 0x7F) as u8);
    } else if u <= 0x7FF {
        buf.push(0xC0u8 | (((u >> 6) & 0x1F) as u8));
        buf.push(0x80u8 | ((u & 0x3F) as u8));
    } else if u <= 0xFFFF {
        buf.push(0xE0u8 | (((u >> 12) & 0x0F) as u8));
        buf.push(0x80u8 | (((u >> 6) & 0x3F) as u8));
        buf.push(0x80u8 | ((u & 0x3F) as u8));
    } else {
        buf.push(0xF0u8 | (((u >> 18) & 0x7) as u8));
        buf.push(0x80u8 | (((u >> 12) & 0x3F) as u8));
        buf.push(0x80u8 | (((u >> 6) & 0x3F) as u8));
        buf.push(0x80u8 | ((u & 0x3F) as u8));
    }
}

/// Encoding a sequence extended by one character appends that
/// character's encoding.
pub proof fn lemma_encode_utf8_push(s: Seq<char>, c: char)
    ensures
        encode_utf8(s.push(c)) == encode_utf8(s) + encode_scalar(c as u32),
    decreases s.len(),
{
    if s.len() == 0 {
        assert(s.push(c)[0] == c);
        assert(s.push(c).drop_first() =~= Seq::<char>::empty());
        assert(encode_utf8(s.push(c)) == encode_scalar(c as u32) + encode_utf8(
            Seq::<char>::empty(),
        ));
        assert(encode_scalar(c as u32) + Seq::<u8>::empty() =~= encode_scalar(c as u32));
        assert(encode_utf8(s) + encode_scalar(c as u32) =~= encode_scalar(c as u32));
    } else {
        assert(s.push(c)[0] == s[0]);
        assert(s.push(c).drop_first() =~= s.drop_first().push(c));
        lemma_encode_utf8_push(s.drop_first(), c);
    }
}

/// The characters of the history line shown at `idx`, or nothing when
/// the index runs past the dump.
pub open spec fn hist_line_chars(lines: Seq<Seq<char>>, idx: int) -> Seq<char> {
    if 0 <= idx < lines.len() {
        lines[idx]
    } else {
        Seq::<char>::empty()
    }
}

/// One rendered history row: a cursor move to the row origin, the line
/// truncated to the viewport width, then space padding to fill it.
pub open spec fn hist_row_bytes(
    lines: Seq<Seq<char>>,
    offset: int,
    row: int,
    inner_x: u16,
    inner_y: u16,
    inner_w: u16,
) -> Seq<u8> {
    let line = hist_line_chars(lines, offset + row);
    let shown = min_int(inner_w as int, line.len() as int);
    cup_bytes((inner_y + row + 1) as u16, (inner_x + 1) as u16) + encode_utf8(
        line.take(shown),
    ) + spaces(inner_w as int - shown)
}

/// The history rows from `row` to `end`, concatenated.
pub open spec fn hist_rows_from(
    lines: Seq<Seq<char>>,
    offset: int,
    row: int,
    end: int,
    inner_x: u16,
    inner_y: u16,
    inner_w: u16,
) -> Seq<u8>
    decreases end - row,
{
    if row >= end {
        Seq::<u8>::empty()
    } else {
        hist_row_bytes(lines, offset, row, inner_x, inner_y, inner_w) + hist_rows_from(
            lines,
            offset,
            row + 1,
            end,
            inner_x,
            inner_y,
            inner_w,
        )
    }
}

/// The full output of a history render: the default style, every
/// viewport row, and a final reset.
pub open spec fn history_output(
    lines: Seq<Seq<char>>,
    offset: int,
    inner_x: u16,
    inner_y: u16,
    inner_w: u16,
    inner_h: u16,
) -> Seq<u8> {
    sgr_bytes(default_style()) + hist_rows_from(lines, offset, 0, inner_h as int, inner_x, inner_y,
        inner_w) + reset_bytes()
}

/// The view of a history dump: each line as its character sequence.
pub open spec fn lines_view(lines: Seq<String>) -> Seq<Seq<char>> {
    lines.map_values(|s: String| s@)
}

/// Render plain-text history lines into the viewport, every line in the
/// default style, truncated or space-padded to the viewport width.
/// `offset` is the index of the line shown at the top of the viewport.
pub fn render_history_lines(
    lines: &Vec<String>,
    offset: usize,
    inner_x: u16,
    inner_y: u16,
    inner_w: u16,
    inner_h: u16,
) -> (out: Vec<u8>)
    requires
        offset + inner_h <= usize::MAX,
        inner_x as int + inner_w < 0xffff,
        inner_y as int + inner_h < 0xffff,
    ensures
        out@ == history_output(lines_view(lines@), offset as int, inner_x, inner_y, inner_w,
            inner_h),
{
    let ghost lv = lines_view(lines@);
    let mut buf: Vec<u8> = Vec::new();
    let dflt = CellStyle::default_cell();
    write_sgr(&mut buf, &dflt);

    let mut row: u16 = 0;
    while row < inner_h
        invariant
            row <= inner_h,
            offset + inner_h <= usize::MAX,
            inner_x as int + inner_w < 0xffff,
            inner_y as int + inner_h < 0xffff,
            lv == lines_view(lines@),
            buf@ + hist_rows_from(lv, offset as int, row as int, inner_h as int, inner_x, inner_y,
                inner_w) == sgr_bytes(default_style()) + hist_rows_from(lv, offset as int, 0,
                inner_h as int, inner_x, inner_y, inner_w),
        decreases inner_h - row,
    {
        let ghost row_pre = buf@;
        push_cup(&mut buf, inner_y + row + 1, inner_x + 1);
        let idx: usize = offset + row as usize;
        let ghost line = hist_line_chars(lv, idx as int);
        let mut shown: u16 = 0;
        if idx < lines.len() {
            let s = lines[idx].as_str();
            let len = s.unicode_len();
            proof {
                assert(lv[idx as int] == lines@[idx as int]@);
            }
            let shown_n: usize = if (inner_w as usize) < len {
                inner_w as usize
            } else {
                len
            };
            let mut i: usize = 0;
            while i < shown_n
                invariant
                    i <= shown_n,
                    shown_n == min_int(inner_w as int, line.len() as int),
                    s@ == line,
                    shown_n <= line.len(),
                    buf@ == row_pre + cup_bytes((inner_y + row + 1) as u16, (inner_x + 1) as u16)
                        + encode_utf8(line.take(i as int)),
                decreases shown_n - i,
            {
                let c = s.get_char(i);
                proof {
                    assert(line.take(i + 1) =~= line.take(i as int).push(line[i as int]));
                    lemma_encode_utf8_push(line.take(i as int), c);
                }
                push_char_utf8(&mut buf, c);
                i = i + 1;
            }
            shown = shown_n as u16;
            proof {
                assert(line.take(shown_n as int) =~= line.take(
                    min_int(inner_w as int, line.len() as int),
                ));
            }
        } else {
            proof {
                assert(line =~= Seq::<char>::empty());
                assert(line.take(0) =~= line);
                assert(encode_utf8(line.take(0)) =~= Seq::<u8>::empty());
            }
        }
        push_spaces(&mut buf, inner_w - shown);
        proof {
            assert(buf@ == row_pre + hist_row_bytes(lv, offset as int, row as int, inner_x,
                inner_y, inner_w));
        }
        row = row + 1;
    }
    push_reset(&mut buf);
    buf
}

/// The scrollbar thumb height: proportional to the viewport against the
/// total content, and at least one cell.
pub open spec fn thumb_size_of(total: int, track: int) -> int {
    let t = track * track / (total + track);
    if t < 1 {
        1
    } else {
        t
    }
}

/// The scrollbar thumb's top row: at the bottom of the track when the
/// view is live, moving to the top in proportion to the offset.
pub open spec fn thumb_top_of(offset: int, total: int, track: int) -> int {
    let mtp = track - thumb_size_of(total, track);
    let off = min_int(offset, total);
    (total - off) * mtp / total
}

/// The bytes of one thumb cell: a bright style, then a full-block glyph.
pub open spec fn thumb_cell_bytes() -> Seq<u8> {
    csi_bytes() + seq![0x30u8, 0x3bu8] + dec_u16(38) + seq![0x3bu8] + dec_u16(2) + seq![0x3bu8]
        + dec_u16(140) + seq![0x3bu8] + dec_u16(140) + seq![0x3bu8] + dec_u16(200) + seq![0x6du8]
        + seq![0xe2u8, 0x96u8, 0x88u8]
}

/// The bytes of one track cell: a dim style, then a thin vertical line.
pub open spec fn track_cell_bytes() -> Seq<u8> {
    csi_bytes() + seq![0x30u8, 0x3bu8] + dec_u16(38) + seq![0x3bu8] + dec_u16(2) + seq![0x3bu8]
        + dec_u16(40) + seq![0x3bu8] + dec_u16(40) + seq![0x3bu8] + dec_u16(60) + seq![0x6du8]
        + seq![0xe2u8, 0x94u8, 0x82u8]
}

/// The scrollbar cells from row `i` to `end`, each positioned in column
/// `x` of the screen.
pub open spec fn sb_rows_from(
    i: int,
    end: int,
    ttop: int,
    tsize: int,
    x: u16,
    inner_y: u16,
) -> Seq<u8>
    decreases end - i,
{
    if i >= end {
        Seq::<u8>::empty()
    } else {
        cup_bytes((inner_y + i + 1) as u16, x) + (if ttop <= i < ttop + tsize {
            thumb_cell_bytes()
        } else {
            track_cell_bytes()
        }) + sb_rows_from(i + 1, end, ttop, tsize, x, inner_y)
    }
}

/// The offset indicator: ` [offset/total] `, each number truncated to
/// sixteen bits.
pub open spec fn label_bytes(offset: int, total: int) -> Seq<u8> {
    seq![0x20u8, 0x5bu8] + dec_u16((offset % 0x10000) as u16) + seq![0x2fu8] + dec_u16(
        (total % 0x10000) as u16,
    ) + seq![0x5du8, 0x20u8]
}

/// The full scrollbar output: nothing when there is no scrollback or
/// the viewport is too small; else a proportional thumb down the
/// rightmost viewport column, and — when it fits — a reverse-video
/// offset label in the top-right corner.
pub open spec fn scrollbar_output(
    offset: int,
    total: int,
    inner_x: u16,
    inner_y: u16,
    inner_w: u16,
    inner_h: u16,
) -> Seq<u8> {
    if total == 0 || inner_h < 2 || inner_w < 2 {
        Seq::<u8>::empty()
    } else {
        let track = inner_h as int;
        let tsize = thumb_size_of(total, track);
        let ttop = thumb_top_of(offset, total, track);
        let lab = label_bytes(offset, total);
        sb_rows_from(0, track, ttop, tsize, (inner_x + inner_w) as u16, inner_y) + reset_bytes() + (
        if lab.len() < inner_w as int {
            cup_bytes((inner_y + 1) as u16, (inner_x + inner_w - lab.len() + 1) as u16)
                + csi_bytes() + seq![0x30u8, 0x3bu8, 0x37u8, 0x6du8] + lab + reset_bytes()
        } else {
            Seq::<u8>::empty()
        })
    }
}

/// The decimal representation is one to five digits long.
pub proof fn lemma_dec_u16_len(n: u16)
    ensures
        dec_u16(n).len() == (if n < 10 {
            1int
        } else if n < 100 {
            2int
        } else if n < 1000 {
            3int
        } else if n < 10000 {
            4int
        } else {
            5int
        }),
    decreases n,
{
    if n >= 10 {
        lemma_dec_u16_len(n / 10);
    }
}

/// Append one thumb cell of the scrollbar.
fn push_thumb_cell(buf: &mut Vec<u8>)
    ensures
        final(buf)@ == old(buf)@ + thumb_cell_bytes(),
{
    push_csi(buf);
    buf.push(0x30);
    buf.push(0x3b);
    push_u8(buf, 38);
    buf.push(0x3b);
    push_u8(buf, 2);
    buf.push(0x3b);
    push_u8(buf, 140);
    buf.push(0x3b);
    push_u8(buf, 140);
    buf.push(0x3b);
    push_u8(buf, 200);
    buf.push(0x6d);
    buf.push(0xe2);
    buf.push(0x96);
    buf.push(0x88);
}

/// Append one track cell of the scrollbar.
fn push_track_cell(buf: &mut Vec<u8>)
    ensures
        final(buf)@ == old(buf)@ + track_cell_bytes(),
{
    push_csi(buf);
    buf.push(0x30);
    buf.push(0x3b);
    push_u8(buf, 38);
    buf.push(0x3b);
    push_u8(buf, 2);
    buf.push(0x3b);
    push_u8(buf, 40);
    buf.push(0x3b);
    push_u8(buf, 40);
    buf.push(0x3b);
    push_u8(buf, 60);
    buf.push(0x6d);
    buf.push(0xe2);
    buf.push(0x94);
    buf.push(0x82);
}

/// A quotient of a part over the whole never exceeds the multiplier:
/// for `0 <= a <= t` and `0 <= m`, `a * m / t <= m`.
pub proof fn lemma_part_of_whole(a: int, t: int, m: int)
    requires
        0 <= a <= t,
        0 < t,
        0 <= m,
    ensures
        0 <= a * m / t <= m,
{
    assert(a * m <= t * m) by (nonlinear_arith)
        requires
            0 <= a <= t,
            0 <= m,
    ;
    assert(0 <= a * m) by (nonlinear_arith)
        requires
            0 <= a,
            0 <= m,
    ;
    vstd::arithmetic::div_mod::lemma_div_is_ordered(a * m, t * m, t);
    vstd::arithmetic::div_mod::lemma_div_multiples_vanish(m, t);
    vstd::arithmetic::div_mod::lemma_div_pos_is_pos(a * m, t);
}

/// Draw the scrollbar overlay for a scrolled-back pane: a proportional
/// thumb in the rightmost viewport column and an `[offset/total]` label
/// at the top-right, exactly the bytes `scrollbar_output` describes.
#[verifier::rlimit(100)]
pub fn render_scrollbar(
    scroll_offset: usize,
    total_scrollback: usize,
    inner_x: u16,
    inner_y: u16,
    inner_w: u16,
    inner_h: u16,
) -> (out: Vec<u8>)
    requires
        inner_x as int + inner_w < 0xffff,
        inner_y as int + inner_h < 0xffff,
    ensures
        out@ == scrollbar_output(scroll_offset as int, total_scrollback as int, inner_x, inner_y,
            inner_w, inner_h),
{
    let mut buf: Vec<u8> = Vec::new();
    if total_scrollback == 0 || inner_h < 2 || inner_w < 2 {
        return buf;
    }
    let ghost total_i = total_scrollback as int;
    let track: u64 = inner_h as u64;

    proof {
        assert(track as int * track as int <= 0xffff * 0xffff) by (nonlinear_arith)
            requires
                0 <= track as int <= 0xffff,
        ;
    }
    let content: u128 = total_scrollback as u128 + track as u128;
    let ts_raw: u128 = (track as u128 * track as u128) / content;
    proof {
        lemma_part_of_whole(track as int, total_i + track as int, track as int);
    }
    let thumb_size: u64 = if ts_raw < 1 {
        1
    } else {
        ts_raw as u64
    };
    assert(thumb_size as int == thumb_size_of(total_i, track as int));
    assert(thumb_size <= track);

    let max_thumb_pos: u64 = track - thumb_size;
    let off: usize = if scroll_offset < total_scrollback {
        scroll_offset
    } else {
        total_scrollback
    };
    proof {
        assert((total_i - off as int) * (max_thumb_pos as int) <= 0xffffffffffffffff * 0xffff)
            by (nonlinear_arith)
            requires
                0 <= total_i - off as int <= 0xffffffffffffffff,
                0 <= max_thumb_pos as int <= 0xffff,
        ;
    }
    let tt_raw: u128 = ((total_scrollback - off) as u128 * max_thumb_pos as u128)
        / total_scrollback as u128;
    proof {
        lemma_part_of_whole((total_i - off as int), total_i, max_thumb_pos as int);
    }
    let thumb_top: u64 = tt_raw as u64;
    assert(thumb_top as int == thumb_top_of(scroll_offset as int, total_i, track as int));
    assert(thumb_top <= max_thumb_pos);

    let x: u16 = inner_x + inner_w;
    let ghost ttop = thumb_top as int;
    let ghost tsize = thumb_size as int;

    let mut i: u16 = 0;
    while i < inner_h
        invariant
            i <= inner_h,
            inner_y as int + inner_h < 0xffff,
            x == inner_x + inner_w,
            thumb_top as int + thumb_size <= inner_h,
            ttop == thumb_top as int,
            tsize == thumb_size as int,
            buf@ + sb_rows_from(i as int, inner_h as int, ttop, tsize, x, inner_y) == sb_rows_from(
                0,
                inner_h as int,
                ttop,
                tsize,
                x,
                inner_y,
            ),
        decreases inner_h - i,
    {
        push_cup(&mut buf, inner_y + i + 1, x);
        let is_thumb = i as u64 >= thumb_top && (i as u64) < thumb_top + thumb_size;
        if is_thumb {
            push_thumb_cell(&mut buf);
        } else {
            push_track_cell(&mut buf);
        }
        i = i + 1;
    }
    push_reset(&mut buf);

    // Offset indicator at the top-right corner of the viewport.
    let mut label: Vec<u8> = Vec::new();
    label.push(0x20);
    label.push(0x5b);
    push_u16(&mut label, (scroll_offset % 0x10000) as u16);
    label.push(0x2f);
    push_u16(&mut label, (total_scrollback % 0x10000) as u16);
    label.push(0x5d);
    label.push(0x20);
    assert(label@ == label_bytes(scroll_offset as int, total_i));
    proof {
        lemma_dec_u16_len((scroll_offset as int % 0x10000) as u16);
        lemma_dec_u16_len((total_i % 0x10000) as u16);
        assert(label@.len() <= 15);
    }
    let len: u16 = label.len() as u16;
    if len < inner_w {
        let lx: u16 = inner_x + inner_w - len;
        push_cup(&mut buf, inner_y + 1, lx + 1);
        push_csi(&mut buf);
        buf.push(0x30);
        buf.push(0x3b);
        buf.push(0x37);
        buf.push(0x6d);
        push_bytes(&mut buf, label.as_slice());
        push_reset(&mut buf);
    }
    buf
}

} // verus!
