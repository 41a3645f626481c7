use scrn::archive::screen_text;
use scrn::fuzzy::fuzzy_match;
use scrn::grid::{Cell, CellStyle, Grid};
use scrn::layout::{
    clamp_to_pane, hit_test_pane, pane_inner_size, pty_area, sidebar_geometry, sidebar_width,
    two_pane_geometry, two_pane_split,
};
use scrn::schedule::{poll_timeout_ms, render_due};
use scrn::session::Pane;
use scrn::sessions::SessionState;
use scrn::shellinit::init_script;
use scrn::text::{input_backspace, input_insert, split_at_char_pos, truncate, visible_input};
use scrn::timefmt::format_relative;

#[test]
fn sidebar_width_clamps() {
    assert_eq!(sidebar_width(50), 20);
    assert_eq!(sidebar_width(100), 20);
    assert_eq!(sidebar_width(150), 30);
    assert_eq!(sidebar_width(300), 40);
}

#[test]
fn pty_area_fits_terminal() {
    assert_eq!(pty_area(false, 24, 80), (22, 78));
    // Sidebar: 20 columns of sidebar plus the content border.
    assert_eq!(pty_area(true, 24, 80), (22, 58));
    let (r, c) = pty_area(true, 5, 10);
    assert!(r <= 5 && c <= 10);
}

#[test]
fn two_pane_split_percentages() {
    assert_eq!(two_pane_split(78, 60), (46, 31));
    assert_eq!(two_pane_split(0, 60), (0, 0));
    let (l, r) = two_pane_split(101, 50);
    assert_eq!(l, 50);
    assert_eq!(r, 50);
}

#[test]
fn plain_two_pane_geometry() {
    // 80x24: inner 78x22, 60% split: left 46, separator, right 31.
    assert_eq!(two_pane_geometry(80, 24, 60), (1, 46, 48, 31, 1, 22));
}

#[test]
fn sidebar_geometry_inside_terminal() {
    let (x, y, w, h) = sidebar_geometry(80, 24);
    assert_eq!((x, y, w, h), (21, 1, 58, 22));
}

#[test]
fn hit_testing_maps_to_pane_cells() {
    // Single pane, no sidebar: inner area starts at (1, 1).
    assert_eq!(hit_test_pane(false, false, 60, 1, 1, 80, 24), Some((Pane::Left, 0, 0)));
    assert_eq!(hit_test_pane(false, false, 60, 5, 3, 80, 24), Some((Pane::Left, 2, 4)));
    assert_eq!(hit_test_pane(false, false, 60, 0, 0, 80, 24), None);
    // Two panes: x 48 is the first right-pane column.
    assert_eq!(hit_test_pane(true, false, 60, 47, 2, 80, 24), None);
    assert_eq!(hit_test_pane(true, false, 60, 48, 2, 80, 24), Some((Pane::Right, 1, 0)));
    assert_eq!(hit_test_pane(true, false, 60, 46, 2, 80, 24), Some((Pane::Left, 1, 45)));
}

#[test]
fn clamping_stays_inside_the_pane() {
    let (w, h) = pane_inner_size(Pane::Left, false, false, 60, 80, 24);
    let (row, col) = clamp_to_pane(Pane::Left, false, false, 60, 200, 200, 80, 24);
    assert!(row < h && col < w);
    assert_eq!(clamp_to_pane(Pane::Left, false, false, 60, 0, 0, 80, 24), (0, 0));
}

#[test]
fn clamping_tracks_the_mouse() {
    // Inside the pane, the drag position maps to its own cell: the
    // single-pane inner area starts at (1, 1).
    assert_eq!(clamp_to_pane(Pane::Left, false, false, 60, 5, 3, 80, 24), (2, 4));
    assert_eq!(clamp_to_pane(Pane::Left, false, false, 60, 10, 7, 80, 24), (6, 9));
    // Past the right and bottom edges, the nearest edge cell.
    assert_eq!(clamp_to_pane(Pane::Left, false, false, 60, 200, 10, 80, 24), (9, 77));
    assert_eq!(clamp_to_pane(Pane::Left, false, false, 60, 10, 200, 80, 24), (21, 9));
    // In two-pane mode the right pane clamps within its own span:
    // it starts at x 48 and is 31 wide.
    assert_eq!(clamp_to_pane(Pane::Right, true, false, 60, 50, 3, 80, 24), (2, 2));
    assert_eq!(clamp_to_pane(Pane::Right, true, false, 60, 5, 3, 80, 24), (2, 0));
    assert_eq!(clamp_to_pane(Pane::Right, true, false, 60, 120, 3, 80, 24), (2, 30));
}

#[test]
fn frame_scheduling() {
    assert!(render_due(0, 8));
    assert!(!render_due(0, 7));
    assert_eq!(poll_timeout_ms(false, false, 0, 0), 100);
    assert_eq!(poll_timeout_ms(true, false, 0, 5), 8);
    assert_eq!(poll_timeout_ms(true, true, 0, 5), 3);
    assert_eq!(poll_timeout_ms(true, true, 0, 8), 1);
    assert_eq!(poll_timeout_ms(true, true, 0, 100), 1);
}

#[test]
fn truncate_with_ellipsis() {
    assert_eq!(truncate("hello", 10), "hello");
    assert_eq!(truncate("hello", 5), "hello");
    assert_eq!(truncate("hello", 4), "hel\u{2026}");
    assert_eq!(truncate("hello", 3), "hel");
    assert_eq!(truncate("hello", 0), "");
}

#[test]
fn split_at_char_positions() {
    assert_eq!(split_at_char_pos("abcd", 2), ("ab", "cd"));
    assert_eq!(split_at_char_pos("abcd", 0), ("", "abcd"));
    assert_eq!(split_at_char_pos("abcd", 9), ("abcd", ""));
}

#[test]
fn input_window_follows_cursor() {
    // A short line fits whole, with the cursor bar inserted.
    assert_eq!(visible_input("abc", 1, 10), "a|bc");
    // A long line shows a window around the cursor with ellipses.
    assert_eq!(visible_input("abcdefghij", 5, 6), "\u{2026}e|fg\u{2026}");
    assert_eq!(visible_input("abcdefghij", 0, 6), "|abcd\u{2026}");
    assert_eq!(visible_input("abcdefghij", 10, 6), "\u{2026}ghij|");
}

#[test]
fn line_editing() {
    let mut s = "abc".to_string();
    let mut cursor = 1usize;
    input_insert(&mut s, &mut cursor, 'x');
    assert_eq!(s, "axbc");
    assert_eq!(cursor, 2);
    input_backspace(&mut s, &mut cursor);
    assert_eq!(s, "abc");
    assert_eq!(cursor, 1);
    let mut cursor0 = 0usize;
    input_backspace(&mut s, &mut cursor0);
    assert_eq!(s, "abc");
    assert_eq!(cursor0, 0);
}

#[test]
fn relative_times() {
    assert_eq!(format_relative(100, 90), "just now");
    assert_eq!(format_relative(100, 100), "just now");
    assert_eq!(format_relative(1000, 0), "16 mins ago");
    assert_eq!(format_relative(60, 0), "1 min ago");
    assert_eq!(format_relative(3600, 0), "1 hour ago");
    assert_eq!(format_relative(7200 + 5, 0), "2 hours ago");
    assert_eq!(format_relative(86400, 0), "1 day ago");
    assert_eq!(format_relative(86400 * 3, 0), "3 days ago");
    assert_eq!(format_relative(86400 * 45, 0), "1 month ago");
    assert_eq!(format_relative(86400 * 90, 0), "3 months ago");
}

#[test]
fn fuzzy_substring_beats_subsequence() {
    let (pos, score) = fuzzy_match("hello-world", "wor").expect("substring must match");
    assert_eq!(pos, vec![6, 7, 8]);
    // Base 10000 plus the word-boundary bonus after '-'.
    assert_eq!(score, 13000);
}

#[test]
fn fuzzy_prefix_bonus() {
    let (pos, score) = fuzzy_match("ABC", "abc").expect("case-insensitive match");
    assert_eq!(pos, vec![0, 1, 2]);
    assert_eq!(score, 18000);
}

#[test]
fn fuzzy_subsequence_scoring() {
    let (pos, score) = fuzzy_match("hello", "hl").expect("subsequence must match");
    assert_eq!(pos, vec![0, 2]);
    // Boundary bonus at position 0, minus the spread of 2.
    assert_eq!(score, 18);
}

#[test]
fn fuzzy_empty_and_failed_needles() {
    assert_eq!(fuzzy_match("abc", ""), Some((Vec::new(), 0)));
    assert_eq!(fuzzy_match("abc", "x"), None);
    assert_eq!(fuzzy_match("abc", "acb"), None);
}

#[test]
fn init_script_per_shell() {
    let z = init_script("zsh").expect("zsh is supported");
    assert!(z.starts_with("# scrn shell integration (zsh)"));
    let b = init_script("bash").expect("bash is supported");
    assert!(b.starts_with("# scrn shell integration (bash)"));
    let e = init_script("fish").expect_err("fish is not supported");
    assert_eq!(e, "Unsupported shell: fish. Use 'zsh' or 'bash'.");
}

#[test]
fn session_state_labels() {
    assert_eq!(SessionState::Attached.as_str(), "Attached");
    assert_eq!(SessionState::Detached.as_str(), "Detached");
}

#[test]
fn screen_text_captures_rows() {
    let mut g = Grid::blank(2, 4);
    let mut t = String::new();
    t.push('h');
    g.set_cell(0, 0, Cell { text: t, wide_continuation: false, style: CellStyle::default_cell() });
    let mut t2 = String::new();
    t2.push('i');
    g.set_cell(0, 1, Cell { text: t2, wide_continuation: false, style: CellStyle::default_cell() });
    let text = screen_text(&g);
    assert_eq!(text, "hi\n\n");
}
