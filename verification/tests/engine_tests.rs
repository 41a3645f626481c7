use scrn::dispatch::KeyOutcome;
use scrn::encode::{KeyCode, KeyPress};
use scrn::grid::Grid;
use scrn::session::{AttachEngine, Mode, Pane, SidebarFocus};

fn plain(code: KeyCode) -> KeyPress {
    KeyPress { code, ctrl: false, alt: false, shift: false }
}

fn ctrl(code: KeyCode) -> KeyPress {
    KeyPress { code, ctrl: true, alt: false, shift: false }
}

fn attached() -> AttachEngine {
    let mut e = AttachEngine::new(false);
    e.attach_one("work".to_string(), Vec::new());
    e
}

#[test]
fn double_escape_within_window_detaches() {
    let mut e = attached();
    let first = e.on_key_attached(&plain(KeyCode::Esc), 1000, 22);
    match first {
        KeyOutcome::Forward(b) => assert_eq!(b, vec![0x1b]),
        _ => panic!("first Esc must be forwarded raw"),
    }
    let second = e.on_key_attached(&plain(KeyCode::Esc), 1200, 22);
    assert!(matches!(second, KeyOutcome::Detach));
    assert_eq!(e.mode, Mode::Normal);
    assert!(e.left.is_none());
    assert!(e.right.is_none());
}

#[test]
fn slow_escapes_are_independent_presses() {
    let mut e = attached();
    let first = e.on_key_attached(&plain(KeyCode::Esc), 1000, 22);
    match first {
        KeyOutcome::Forward(b) => assert_eq!(b, vec![0x1b]),
        _ => panic!("first Esc must be forwarded raw"),
    }
    let second = e.on_key_attached(&plain(KeyCode::Esc), 1400, 22);
    match second {
        KeyOutcome::Forward(b) => assert_eq!(b, vec![0x1b]),
        _ => panic!("a late second Esc must be forwarded raw again"),
    }
    assert_eq!(e.mode, Mode::Attached);
}

#[test]
fn detach_then_attach_succeeds_with_fresh_pane() {
    let mut e = attached();
    e.left.as_mut().unwrap().snapshot = Some(Grid::blank(2, 2));
    e.left.as_mut().unwrap().scroll_offset = 7;
    e.detach();
    assert!(e.left.is_none());
    assert!(e.right.is_none());
    assert_eq!(e.mode, Mode::Normal);
    e.attach_one("again".to_string(), vec!["old line".to_string()]);
    assert_eq!(e.mode, Mode::Attached);
    let slot = e.left.as_ref().unwrap();
    assert_eq!(slot.name, "again");
    assert_eq!(slot.scroll_offset, 0);
    assert!(slot.snapshot.is_none());
}

#[test]
fn resize_discards_snapshots_and_offsets() {
    let mut e = attached();
    e.left.as_mut().unwrap().snapshot = Some(Grid::blank(2, 2));
    e.left.as_mut().unwrap().scroll_offset = 12;
    e.on_resize();
    let slot = e.left.as_ref().unwrap();
    assert!(slot.snapshot.is_none());
    assert_eq!(slot.scroll_offset, 0);
}

#[test]
fn swap_toggles_active_pane_only_in_two_pane_mode() {
    let mut e = AttachEngine::new(false);
    e.attach_two(
        "left".to_string(),
        Vec::new(),
        "left-2".to_string(),
        Vec::new(),
    );
    assert_eq!(e.active_pane, Pane::Left);
    e.swap_pane();
    assert_eq!(e.active_pane, Pane::Right);
    e.swap_pane();
    assert_eq!(e.active_pane, Pane::Left);

    let mut solo = attached();
    solo.swap_pane();
    assert_eq!(solo.active_pane, Pane::Left);
}

#[test]
fn swap_chord_dispatches() {
    let mut e = AttachEngine::new(false);
    e.attach_two("a".to_string(), Vec::new(), "a-2".to_string(), Vec::new());
    let r = e.on_key_attached(&plain(KeyCode::F(6)), 10, 22);
    assert!(matches!(r, KeyOutcome::Swap));
    assert_eq!(e.active_pane, Pane::Right);
    let r = e.on_key_attached(&ctrl(KeyCode::Char('s')), 20, 22);
    assert!(matches!(r, KeyOutcome::Swap));
    assert_eq!(e.active_pane, Pane::Left);
}

#[test]
fn scrolled_pane_intercepts_navigation() {
    let mut e = attached();
    e.left.as_mut().unwrap().scroll_offset = 5;
    let r = e.on_key_attached(&plain(KeyCode::Up), 10, 22);
    assert!(matches!(r, KeyOutcome::Scrolled));
    assert_eq!(e.left.as_ref().unwrap().scroll_offset, 6);
    let r = e.on_key_attached(&plain(KeyCode::Down), 20, 22);
    assert!(matches!(r, KeyOutcome::Scrolled));
    assert_eq!(e.left.as_ref().unwrap().scroll_offset, 5);
    let r = e.on_key_attached(&plain(KeyCode::PageUp), 30, 22);
    assert!(matches!(r, KeyOutcome::Scrolled));
    assert_eq!(e.left.as_ref().unwrap().scroll_offset, 27);
    let r = e.on_key_attached(&plain(KeyCode::PageDown), 40, 22);
    assert!(matches!(r, KeyOutcome::Scrolled));
    assert_eq!(e.left.as_ref().unwrap().scroll_offset, 5);
    let r = e.on_key_attached(&plain(KeyCode::Esc), 50, 22);
    assert!(matches!(r, KeyOutcome::Scrolled));
    assert_eq!(e.left.as_ref().unwrap().scroll_offset, 0);
}

#[test]
fn other_key_snaps_live_and_forwards() {
    let mut e = attached();
    e.left.as_mut().unwrap().scroll_offset = 5;
    let r = e.on_key_attached(&plain(KeyCode::Char('x')), 10, 22);
    match r {
        KeyOutcome::Forward(b) => assert_eq!(b, b"x".to_vec()),
        _ => panic!("a plain key must be forwarded"),
    }
    assert_eq!(e.left.as_ref().unwrap().scroll_offset, 0);
}

#[test]
fn ctrl_scroll_keys_follow_screen_mode() {
    let mut e = attached();
    let r = e.on_key_attached(&ctrl(KeyCode::Char('e')), 10, 22);
    assert!(matches!(r, KeyOutcome::Scrolled));
    assert_eq!(e.left.as_ref().unwrap().scroll_offset, 1);
    let r = e.on_key_attached(&ctrl(KeyCode::Char('n')), 20, 22);
    assert!(matches!(r, KeyOutcome::Scrolled));
    assert_eq!(e.left.as_ref().unwrap().scroll_offset, 0);

    // A full-screen program receives Page Up / Page Down instead.
    e.note_pane_flags(Pane::Left, true, false);
    let r = e.on_key_attached(&ctrl(KeyCode::Char('e')), 30, 22);
    match r {
        KeyOutcome::Forward(b) => assert_eq!(b, b"\x1b[5~".to_vec()),
        _ => panic!("page-up bytes expected in alternate screen"),
    }
    let r = e.on_key_attached(&ctrl(KeyCode::Char('n')), 40, 22);
    match r {
        KeyOutcome::Forward(b) => assert_eq!(b, b"\x1b[6~".to_vec()),
        _ => panic!("page-down bytes expected in alternate screen"),
    }
}

#[test]
fn ctrl_o_detaches_without_sidebar() {
    let mut e = attached();
    let r = e.on_key_attached(&ctrl(KeyCode::Char('o')), 10, 22);
    assert!(matches!(r, KeyOutcome::Detach));
    assert_eq!(e.mode, Mode::Normal);
}

#[test]
fn ctrl_o_focuses_list_in_sidebar_mode() {
    let mut e = AttachEngine::new(true);
    e.attach_one("work".to_string(), Vec::new());
    let r = e.on_key_attached(&ctrl(KeyCode::Char('o')), 10, 22);
    assert!(matches!(r, KeyOutcome::FocusList));
    assert_eq!(e.sidebar_focus, SidebarFocus::List);
    assert_eq!(e.mode, Mode::Attached);
}

#[test]
fn app_cursor_flag_reaches_the_encoder() {
    let mut e = attached();
    e.note_pane_flags(Pane::Left, false, true);
    let r = e.on_key_attached(&plain(KeyCode::Up), 10, 22);
    match r {
        KeyOutcome::Forward(b) => assert_eq!(b, b"\x1bOA".to_vec()),
        _ => panic!("arrow must be forwarded"),
    }
}

#[test]
fn alternate_screen_toggle_forces_full_redraw() {
    let mut e = attached();
    e.left.as_mut().unwrap().snapshot = Some(Grid::blank(2, 2));
    e.note_pane_flags(Pane::Left, true, false);
    assert!(e.left.as_ref().unwrap().snapshot.is_none());
}

#[test]
fn right_pane_death_keeps_left_solo() {
    let mut e = AttachEngine::new(false);
    e.attach_two("a".to_string(), Vec::new(), "a-2".to_string(), Vec::new());
    e.left.as_mut().unwrap().scroll_offset = 4;
    e.left.as_mut().unwrap().snapshot = Some(Grid::blank(2, 2));
    e.swap_pane();
    e.right_pane_closed();
    assert!(e.right.is_none());
    assert_eq!(e.active_pane, Pane::Left);
    assert_eq!(e.mode, Mode::Attached);
    // The survivor keeps its scroll position; only its snapshot goes,
    // so the next frame is a full redraw.
    let left = e.left.as_ref().unwrap();
    assert_eq!(left.scroll_offset, 4);
    assert!(left.snapshot.is_none());
}

#[test]
fn mouse_selection_gesture() {
    let mut e = attached();
    e.on_mouse_down(Pane::Left, 2, 3);
    e.on_mouse_drag(4, 7);
    let up = e.on_mouse_up();
    let (pane, sel) = up.expect("a dragged selection is non-empty");
    assert_eq!(pane, Pane::Left);
    assert_eq!(sel.normalized(), (2, 3, 4, 7));

    // A key press clears the selection.
    let _ = e.on_key_attached(&plain(KeyCode::Char('q')), 10, 22);
    assert!(e.selection.is_none());
}

#[test]
fn click_without_drag_selects_nothing() {
    let mut e = attached();
    e.on_mouse_down(Pane::Left, 2, 3);
    assert!(e.on_mouse_up().is_none());
}

#[test]
fn wheel_scrolls_by_three() {
    let mut e = attached();
    e.on_wheel(true);
    assert_eq!(e.left.as_ref().unwrap().scroll_offset, 3);
    e.on_wheel(false);
    assert_eq!(e.left.as_ref().unwrap().scroll_offset, 0);
}
