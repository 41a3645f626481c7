use scrn::grid::{Cell, CellStyle, Color, Grid};
use scrn::render::{render_history_lines, render_pty_direct, render_scrollbar, write_pty_cursor};

fn glyph(c: char) -> Cell {
    let mut text = String::new();
    text.push(c);
    Cell { text, wide_continuation: false, style: CellStyle::default_cell() }
}

fn styled(c: char, style: CellStyle) -> Cell {
    let mut text = String::new();
    text.push(c);
    Cell { text, wide_continuation: false, style }
}

fn text_grid(rows: u16, cols: u16, lines: &[&str]) -> Grid {
    let mut g = Grid::blank(rows, cols);
    for (r, line) in lines.iter().enumerate() {
        for (c, ch) in line.chars().enumerate() {
            if (r as u16) < rows && (c as u16) < cols {
                g.set_cell(r as u16, c as u16, glyph(ch));
            }
        }
    }
    g
}

const DEFAULT_SGR: &[u8] = b"\x1b[0;38;2;220;220;230;48;2;18;18;24m";

#[test]
fn identical_frames_emit_nothing() {
    let a = text_grid(3, 4, &["abcd", "efgh", "ijkl"]);
    let b = text_grid(3, 4, &["abcd", "efgh", "ijkl"]);
    let out = render_pty_direct(&b, Some(&a), 0, 0, 4, 3);
    assert_eq!(out, Vec::<u8>::new());
}

#[test]
fn single_changed_row_emits_one_cursor_move() {
    let a = text_grid(3, 4, &["abcd", "efgh", "ijkl"]);
    let b = text_grid(3, 4, &["abcd", "efxh", "ijkl"]);
    let out = render_pty_direct(&b, Some(&a), 0, 0, 4, 3);
    // Exactly one cursor-position escape, for row 1 (one-based row 2).
    assert!(out.starts_with(b"\x1b[2;1H"));
    let hits = out.windows(2).filter(|w| w == b"\x1b[").count();
    // One CUP, one style sequence for the row, one final reset.
    assert_eq!(hits, 3);
}

#[test]
fn full_redraw_bytes_exact() {
    let mut g = Grid::blank(1, 2);
    g.set_cell(0, 0, glyph('a'));
    let out = render_pty_direct(&g, None, 0, 0, 2, 1);
    let mut expected = Vec::new();
    expected.extend_from_slice(b"\x1b[1;1H");
    expected.extend_from_slice(DEFAULT_SGR);
    expected.extend_from_slice(b"a ");
    expected.extend_from_slice(b"\x1b[0m");
    assert_eq!(out, expected);
}

#[test]
fn style_change_emits_new_sgr_run() {
    let mut g = Grid::blank(1, 3);
    let bold = CellStyle { bold: true, ..CellStyle::default_cell() };
    g.set_cell(0, 0, glyph('a'));
    g.set_cell(0, 1, styled('b', bold));
    g.set_cell(0, 2, styled('c', bold));
    let out = render_pty_direct(&g, None, 0, 0, 3, 1);
    let mut expected = Vec::new();
    expected.extend_from_slice(b"\x1b[1;1H");
    expected.extend_from_slice(DEFAULT_SGR);
    expected.extend_from_slice(b"a");
    expected.extend_from_slice(b"\x1b[0;1;38;2;220;220;230;48;2;18;18;24m");
    expected.extend_from_slice(b"bc");
    expected.extend_from_slice(b"\x1b[0m");
    assert_eq!(out, expected);
}

#[test]
fn wide_continuation_cells_emit_nothing() {
    let mut g = Grid::blank(1, 2);
    let mut wide = glyph('w');
    wide.wide_continuation = false;
    g.set_cell(0, 0, wide);
    let cont = Cell { text: String::new(), wide_continuation: true, style: CellStyle::default_cell() };
    g.set_cell(0, 1, cont);
    let out = render_pty_direct(&g, None, 0, 0, 2, 1);
    let mut expected = Vec::new();
    expected.extend_from_slice(b"\x1b[1;1H");
    expected.extend_from_slice(DEFAULT_SGR);
    expected.extend_from_slice(b"w");
    expected.extend_from_slice(b"\x1b[0m");
    assert_eq!(out, expected);
}

#[test]
fn indexed_color_sgr() {
    let mut g = Grid::blank(1, 1);
    let red = CellStyle { fg: Color::Idx(1), ..CellStyle::default_cell() };
    g.set_cell(0, 0, styled('r', red));
    let out = render_pty_direct(&g, None, 0, 0, 1, 1);
    let mut expected = Vec::new();
    expected.extend_from_slice(b"\x1b[1;1H");
    expected.extend_from_slice(b"\x1b[0;31;48;2;18;18;24m");
    expected.extend_from_slice(b"r");
    expected.extend_from_slice(b"\x1b[0m");
    assert_eq!(out, expected);
}

#[test]
fn inverse_swaps_colors() {
    let mut g = Grid::blank(1, 1);
    let inv = CellStyle {
        fg: Color::Rgb(1, 2, 3),
        bg: Color::Rgb(4, 5, 6),
        inverse: true,
        ..CellStyle::default_cell()
    };
    g.set_cell(0, 0, styled('i', inv));
    let out = render_pty_direct(&g, None, 0, 0, 1, 1);
    // Background color first (in the foreground slot), then foreground.
    let mut expected = Vec::new();
    expected.extend_from_slice(b"\x1b[1;1H");
    expected.extend_from_slice(b"\x1b[0;38;2;4;5;6;48;2;1;2;3m");
    expected.extend_from_slice(b"i");
    expected.extend_from_slice(b"\x1b[0m");
    assert_eq!(out, expected);
}

#[test]
fn cursor_written_only_when_visible() {
    let mut g = Grid::blank(2, 2);
    g.cursor_row = 1;
    g.cursor_col = 1;
    let out = write_pty_cursor(&g, 0, 0);
    assert_eq!(out, b"\x1b[2;2H\x1b[?25h".to_vec());
    g.hide_cursor = true;
    let out = write_pty_cursor(&g, 0, 0);
    assert_eq!(out, Vec::<u8>::new());
}

#[test]
fn history_lines_truncate_and_pad() {
    let lines = vec!["ab".to_string(), "long line".to_string()];
    let out = render_history_lines(&lines, 0, 0, 0, 4, 2);
    let mut expected = Vec::new();
    expected.extend_from_slice(DEFAULT_SGR);
    expected.extend_from_slice(b"\x1b[1;1H");
    expected.extend_from_slice(b"ab  ");
    expected.extend_from_slice(b"\x1b[2;1H");
    expected.extend_from_slice(b"long");
    expected.extend_from_slice(b"\x1b[0m");
    assert_eq!(out, expected);
}

#[test]
fn history_offset_selects_lines() {
    let lines = vec!["one".to_string(), "two".to_string(), "three".to_string()];
    let out = render_history_lines(&lines, 1, 0, 0, 3, 1);
    let mut expected = Vec::new();
    expected.extend_from_slice(DEFAULT_SGR);
    expected.extend_from_slice(b"\x1b[1;1H");
    expected.extend_from_slice(b"two");
    expected.extend_from_slice(b"\x1b[0m");
    assert_eq!(out, expected);
}

#[test]
fn scrollbar_silent_without_scrollback() {
    assert_eq!(render_scrollbar(0, 0, 0, 0, 10, 5), Vec::<u8>::new());
    assert_eq!(render_scrollbar(3, 10, 0, 0, 1, 5), Vec::<u8>::new());
    assert_eq!(render_scrollbar(3, 10, 0, 0, 10, 1), Vec::<u8>::new());
}

#[test]
fn scrollbar_draws_thumb_and_label() {
    let out = render_scrollbar(5, 10, 0, 0, 10, 4);
    // Track column is the rightmost viewport column.
    assert!(out.starts_with(b"\x1b[1;10H"));
    // The offset label appears in reverse video.
    let label = b" [5/10] ";
    assert!(out.windows(label.len()).any(|w| w == label));
    assert!(out.windows(6).any(|w| w == b"\x1b[0;7m"));
}
