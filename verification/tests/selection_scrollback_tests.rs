use scrn::grid::{Cell, CellStyle, Grid};
use scrn::scrollback::{resolve_view, ViewPlan};
use scrn::selection::{extract_selection_text, render_selection, PaneSelection};

fn glyph(c: char) -> Cell {
    let mut text = String::new();
    text.push(c);
    Cell { text, wide_continuation: false, style: CellStyle::default_cell() }
}

fn text_grid(rows: u16, cols: u16, lines: &[&str]) -> Grid {
    let mut g = Grid::blank(rows, cols);
    for (r, line) in lines.iter().enumerate() {
        for (c, ch) in line.chars().enumerate() {
            if (r as u16) < rows && (c as u16) < cols {
                g.set_cell(r as u16, c as u16, glyph(ch));
            }
        }
    }
    g
}

#[test]
fn normalized_orders_row_major() {
    let sel = PaneSelection { start_row: 5, start_col: 10, end_row: 2, end_col: 3 };
    assert_eq!(sel.normalized(), (2, 3, 5, 10));
    let fwd = PaneSelection { start_row: 2, start_col: 3, end_row: 5, end_col: 10 };
    assert_eq!(fwd.normalized(), (2, 3, 5, 10));
    let same_row = PaneSelection { start_row: 1, start_col: 7, end_row: 1, end_col: 4 };
    assert_eq!(same_row.normalized(), (1, 4, 1, 7));
}

#[test]
fn selection_emptiness() {
    let empty = PaneSelection { start_row: 3, start_col: 3, end_row: 3, end_col: 3 };
    assert!(!empty.is_non_empty());
    let non_empty = PaneSelection { start_row: 3, start_col: 3, end_row: 3, end_col: 4 };
    assert!(non_empty.is_non_empty());
}

#[test]
fn extraction_ignores_drag_direction() {
    let lines = [
        "zero zero zero e",
        "one one one one ",
        "two two two two ",
        "three three thre",
        "four four four f",
        "five five five f",
    ];
    let g = text_grid(6, 16, &lines);
    let down = PaneSelection { start_row: 2, start_col: 3, end_row: 5, end_col: 10 };
    let up = PaneSelection { start_row: 5, start_col: 10, end_row: 2, end_col: 3 };
    let a = extract_selection_text(&g, &down, 16, 6);
    let b = extract_selection_text(&g, &up, 16, 6);
    assert_eq!(a, b);
    assert!(!a.is_empty());
}

#[test]
fn extraction_trims_and_joins_rows() {
    let g = text_grid(2, 8, &["ab      ", "  cd    "]);
    let sel = PaneSelection { start_row: 0, start_col: 0, end_row: 1, end_col: 7 };
    let text = extract_selection_text(&g, &sel, 8, 2);
    assert_eq!(text, "ab\n  cd");
}

#[test]
fn extraction_single_row_bounds() {
    let g = text_grid(1, 8, &["abcdefgh"]);
    let sel = PaneSelection { start_row: 0, start_col: 2, end_row: 0, end_col: 5 };
    let text = extract_selection_text(&g, &sel, 8, 1);
    assert_eq!(text, "cdef");
}

#[test]
fn extraction_trims_all_trailing_whitespace() {
    // The last cells hold a tab and a no-break space: both must go.
    let mut g = text_grid(1, 4, &["ab"]);
    g.set_cell(0, 2, glyph('\t'));
    g.set_cell(0, 3, glyph('\u{a0}'));
    let sel = PaneSelection { start_row: 0, start_col: 0, end_row: 0, end_col: 3 };
    let text = extract_selection_text(&g, &sel, 4, 1);
    assert_eq!(text, "ab");
}

#[test]
fn selection_overlay_highlights_cells() {
    let g = text_grid(1, 4, &["abcd"]);
    let sel = PaneSelection { start_row: 0, start_col: 1, end_row: 0, end_col: 2 };
    let out = render_selection(&g, &sel, 0, 0, 4, 1);
    // Cursor moves to the first selected cell (one-based column 2).
    assert!(out.starts_with(b"\x1b[1;2H"));
    // The fixed highlight background appears.
    let bg = b";48;2;60;70;100";
    assert!(out.windows(bg.len()).any(|w| w == bg));
    assert!(out.ends_with(b"\x1b[0m"));
}

#[test]
fn scrollback_deep_offset_reaches_oldest_history() {
    // internal depth 200, 50 historical lines: offset 250 is the top.
    let (clamped, plan) = resolve_view(200, 50, 250, 10);
    assert_eq!(clamped, 250);
    assert_eq!(plan, ViewPlan::History { top_line: 0 });
}

#[test]
fn scrollback_zero_offset_is_live() {
    let (clamped, plan) = resolve_view(200, 50, 0, 10);
    assert_eq!(clamped, 0);
    assert_eq!(plan, ViewPlan::Live);
}

#[test]
fn scrollback_internal_range_delegates() {
    let (clamped, plan) = resolve_view(200, 50, 120, 10);
    assert_eq!(clamped, 120);
    assert_eq!(plan, ViewPlan::Internal { offset: 120 });
}

#[test]
fn scrollback_offset_clamped_to_total() {
    let (clamped, plan) = resolve_view(10, 5, 100, 4);
    assert_eq!(clamped, 15);
    // 5 extra lines into a 5-line dump: top line 0 (it all fits above).
    assert_eq!(plan, ViewPlan::History { top_line: 0 });
}

#[test]
fn scrollback_partial_history_window() {
    // 2 lines past the internal depth of a 50-line dump, viewport 4 high:
    // the top visible line is 50 - 2 - 4 = 44.
    let (clamped, plan) = resolve_view(100, 50, 102, 4);
    assert_eq!(clamped, 102);
    assert_eq!(plan, ViewPlan::History { top_line: 44 });
}
