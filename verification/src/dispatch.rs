//! Key and mouse dispatch while attached: scroll interception, the
//! double-escape detach gesture, pane swapping, and forwarding of
//! everything else to the active pane as encoded bytes.

use vstd::prelude::*;

use crate::encode::KeyCode;
use crate::encode::KeyPress;
use crate::encode::key_bytes_spec;
use crate::encode::key_to_bytes;
use crate::selection::PaneSelection;
use crate::session::AttachEngine;
use crate::session::Mode;
use crate::session::Pane;
use crate::session::PaneSlot;
use crate::session::SidebarFocus;
use crate::session::idle_engine;

verus! {

/// How long after a lone Esc a second Esc still means "detach",
/// in milliseconds.
pub const DOUBLE_ESC_WINDOW_MS: u64 = 300;

/// What the engine asks the surrounding process to do with one key.
#[derive(Debug)]
pub enum KeyOutcome {
    /// Write these bytes to the active pane.
    Forward(Vec<u8>),
    /// The attachment was torn down; return to the session list.
    Detach,
    /// Hand key focus to the session list beside the content.
    FocusList,
    /// The active pane changed; redraw the chrome.
    Swap,
    /// A scroll offset changed; re-render the panes.
    Scrolled,
    /// Nothing to do.
    Ignored,
}

/// The slot of the pane that owns input.
pub open spec fn active_slot(e: AttachEngine) -> Option<PaneSlot> {
    match e.active_pane {
        Pane::Left => e.left,
        Pane::Right => e.right,
    }
}

/// The active pane's scroll offset; zero when no pane is live.
pub open spec fn active_offset(e: AttachEngine) -> int {
    match active_slot(e) {
        Option::Some(s) => s.scroll_offset as int,
        Option::None => 0,
    }
}

/// The Ctrl chords that scroll the attached view.
pub open spec fn scroll_chord(k: KeyPress) -> bool {
    k.ctrl && (k.code == KeyCode::Char('e') || k.code == KeyCode::Char('n'))
}

/// The chord that hands focus back to the list, or detaches.
pub open spec fn focus_chord(k: KeyPress) -> bool {
    k.ctrl && k.code == KeyCode::Char('o')
}

/// The key or chord that swaps the active pane.
pub open spec fn swap_chord(k: KeyPress) -> bool {
    k.code == KeyCode::F(6) || (k.ctrl && k.code == KeyCode::Char('s'))
}

/// The navigation keys a scrolled-back pane intercepts (besides Esc).
pub open spec fn nav_key(k: KeyPress) -> bool {
    k.code == KeyCode::Up || k.code == KeyCode::Down || k.code == KeyCode::Char('k') || k.code
        == KeyCode::Char('j') || k.code == KeyCode::PageUp || k.code == KeyCode::PageDown
}

/// Whether a second Esc at `now_ms` lands inside the double-escape
/// window opened by the last lone Esc.
pub open spec fn esc_window_open(e: AttachEngine, now_ms: u64) -> bool {
    match e.last_esc_ms {
        Option::Some(t) => now_ms < t + DOUBLE_ESC_WINDOW_MS,
        Option::None => false,
    }
}

/// A key that is simply forwarded to the active pane: none of the
/// engine's own chords, not Esc, and not a navigation key that a
/// scrolled-back pane intercepts.
pub open spec fn plain_forward(k: KeyPress, e: AttachEngine) -> bool {
    !scroll_chord(k) && !focus_chord(k) && !(e.sidebar_mode && k.code == KeyCode::Tab) && k.code
        != KeyCode::Esc && !swap_chord(k) && !(active_offset(e) > 0 && nav_key(k))
}

/// `a + b` on `usize`, stopping at the top.
pub open spec fn sat_add_usize(a: int, b: int) -> int {
    if a + b <= usize::MAX {
        a + b
    } else {
        usize::MAX as int
    }
}

/// `a - b`, stopping at zero.
pub open spec fn sat_sub_int(a: int, b: int) -> int {
    if a >= b {
        a - b
    } else {
        0
    }
}

impl AttachEngine {
    /// Replace the active pane's scroll offset.
    fn set_active_offset(&mut self, off: usize)
        ensures
            active_offset(*final(self)) == (if active_slot(*old(self)) is Some {
                off as int
            } else {
                0
            }),
            active_slot(*final(self)) is Some <==> active_slot(*old(self)) is Some,
            final(self).left is Some <==> old(self).left is Some,
            final(self).right is Some <==> old(self).right is Some,
            final(self).mode == old(self).mode,
            final(self).active_pane == old(self).active_pane,
            final(self).sidebar_mode == old(self).sidebar_mode,
            final(self).sidebar_focus == old(self).sidebar_focus,
            final(self).last_esc_ms == old(self).last_esc_ms,
            final(self).selection == old(self).selection,
            (match (active_slot(*old(self)), active_slot(*final(self))) {
                (Option::Some(s), Option::Some(t)) => t.app_cursor == s.app_cursor && t.alt_screen
                    == s.alt_screen,
                (Option::None, Option::None) => true,
                _ => false,
            }),
    {
        match self.active_pane {
            Pane::Left => {
                let slot = self.left.take();
                match slot {
                    Option::Some(mut s) => {
                        s.scroll_offset = off;
                        self.left = Option::Some(s);
                    },
                    Option::None => {},
                }
            },
            Pane::Right => {
                let slot = self.right.take();
                match slot {
                    Option::Some(mut s) => {
                        s.scroll_offset = off;
                        self.right = Option::Some(s);
                    },
                    Option::None => {},
                }
            },
        }
    }

    /// The active pane's scroll offset.
    pub fn active_scroll_offset(&self) -> (off: usize)
        ensures
            off as int == active_offset(*self),
    {
        match self.active_pane {
            Pane::Left => match &self.left {
                Option::Some(s) => s.scroll_offset,
                Option::None => 0,
            },
            Pane::Right => match &self.right {
                Option::Some(s) => s.scroll_offset,
                Option::None => 0,
            },
        }
    }

    /// Whether the active pane exists, and its mode flags.
    fn active_flags(&self) -> (r: Option<(bool, bool)>)
        ensures
            (match (active_slot(*self), r) {
                (Option::Some(s), Option::Some(f)) => f.0 == s.alt_screen && f.1 == s.app_cursor,
                (Option::None, Option::None) => true,
                _ => false,
            }),
    {
        match self.active_pane {
            Pane::Left => match &self.left {
                Option::Some(s) => Option::Some((s.alt_screen, s.app_cursor)),
                Option::None => Option::None,
            },
            Pane::Right => match &self.right {
                Option::Some(s) => Option::Some((s.alt_screen, s.app_cursor)),
                Option::None => Option::None,
            },
        }
    }

    /// Dispatch one key press while attached with the content focused.
    /// `now_ms` is a monotonic timestamp; `page` is the page size for
    /// scrollback paging.
    ///
    /// Two Esc presses within the double-escape window detach; a lone
    /// Esc is forwarded raw and opens the window.  A scrolled-back
    /// pane intercepts navigation keys; any other key snaps it live
    /// and is handled normally.  Ctrl+e / Ctrl+n scroll by one line,
    /// unless the pane runs a full-screen program, in which case they
    /// are forwarded as Page Up / Page Down.  Everything else is
    /// encoded and forwarded to the active pane.
    pub fn on_key_attached(&mut self, key: &KeyPress, now_ms: u64, page: usize) -> (r: KeyOutcome)
        requires
            old(self).mode == Mode::Attached,
            (match old(self).last_esc_ms {
                Option::Some(t) => t <= now_ms,
                Option::None => true,
            }),
            now_ms + DOUBLE_ESC_WINDOW_MS <= u64::MAX,
        ensures
            // Any key press clears a pending mouse selection.
            final(self).selection is None,
            // Double-escape detach, and the lone Esc that arms it.
            key.code == KeyCode::Esc && active_offset(*old(self)) == 0 ==> (if esc_window_open(
                *old(self),
                now_ms,
            ) {
                (r is Detach) && idle_engine(*final(self)) && final(self).mode == Mode::Normal
            } else {
                final(self).last_esc_ms == Some(now_ms) && (match active_slot(*old(self)) {
                    Option::Some(_) => r matches KeyOutcome::Forward(b) && b@ == seq![0x1bu8],
                    Option::None => r is Ignored,
                })
            }),
            // Esc while scrolled back only snaps the view live.
            key.code == KeyCode::Esc && active_offset(*old(self)) > 0 ==> (r is Scrolled)
                && active_offset(*final(self)) == 0 && final(self).mode == Mode::Attached,
            // Ctrl+e / Ctrl+n: scroll a line, or page a full-screen program.
            scroll_chord(*key) ==> (match active_slot(*old(self)) {
                Option::Some(s) => if s.alt_screen {
                    r matches KeyOutcome::Forward(b) && b@ == (if key.code == KeyCode::Char('e') {
                        seq![0x1bu8, 0x5bu8, 0x35u8, 0x7eu8]
                    } else {
                        seq![0x1bu8, 0x5bu8, 0x36u8, 0x7eu8]
                    })
                } else {
                    (r is Scrolled) && active_offset(*final(self)) == (if key.code
                        == KeyCode::Char('e') {
                        sat_add_usize(active_offset(*old(self)), 1)
                    } else {
                        sat_sub_int(active_offset(*old(self)), 1)
                    })
                },
                Option::None => r is Ignored,
            }),
            // Ctrl+o: back to the list (sidebar) or detach outright.
            focus_chord(*key) ==> (if old(self).sidebar_mode {
                (r is FocusList) && final(self).sidebar_focus == SidebarFocus::List && final(self).mode == Mode::Attached
            } else {
                (r is Detach) && idle_engine(*final(self)) && final(self).mode == Mode::Normal
            }),
            // Tab beside a sidebar hands focus back to the list.
            !scroll_chord(*key) && !focus_chord(*key) && old(self).sidebar_mode && key.code
                == KeyCode::Tab ==> (r is FocusList) && final(self).sidebar_focus
                == SidebarFocus::List && final(self).mode == Mode::Attached,
            // Navigation keys while scrolled back adjust the offset.
            !scroll_chord(*key) && active_offset(*old(self)) > 0 && nav_key(*key) ==> (r
                is Scrolled) && active_offset(*final(self)) == (if key.code == KeyCode::Up
                || key.code == KeyCode::Char('k') {
                sat_add_usize(active_offset(*old(self)), 1)
            } else if key.code == KeyCode::Down || key.code == KeyCode::Char('j') {
                sat_sub_int(active_offset(*old(self)), 1)
            } else if key.code == KeyCode::PageUp {
                sat_add_usize(active_offset(*old(self)), page as int)
            } else {
                sat_sub_int(active_offset(*old(self)), page as int)
            }),
            // The swap chord toggles the active pane in two-pane mode.
            swap_chord(*key) && !scroll_chord(*key) && !focus_chord(*key) ==> (r is Swap) && (
            if old(self).right is Some {
                final(self).active_pane == (match old(self).active_pane {
                    Pane::Left => Pane::Right,
                    Pane::Right => Pane::Left,
                })
            } else {
                final(self).active_pane == old(self).active_pane
            }),
            // Everything else is encoded and written to the active pane.
            plain_forward(*key, *old(self)) ==> (match active_slot(*old(self)) {
                Option::Some(s) => r matches KeyOutcome::Forward(b) && b@ == key_bytes_spec(
                    *key,
                    s.app_cursor,
                ) && active_offset(*final(self)) == 0,
                Option::None => r is Ignored,
            }),
    {
        // A key press while a selection exists clears it and forces a
        // full redraw of both panes.
        if self.selection.is_some() {
            self.selection = Option::None;
            self.drop_snapshots();
        }

        let is_ctrl = key.ctrl;

        // Ctrl+e (scroll up) / Ctrl+n (scroll down).
        let is_e = match key.code {
            KeyCode::Char(c) => c == 'e',
            _ => false,
        };
        let is_n = match key.code {
            KeyCode::Char(c) => c == 'n',
            _ => false,
        };
        if is_ctrl && (is_e || is_n) {
            match self.active_flags() {
                Option::Some((alt, _)) => {
                    if alt {
                        // A full-screen program manages its own
                        // scrolling: forward as Page Up / Page Down.
                        let mut b: Vec<u8> = Vec::new();
                        b.push(0x1b);
                        b.push(0x5b);
                        if is_e {
                            b.push(0x35);
                        } else {
                            b.push(0x36);
                        }
                        b.push(0x7e);
                        return KeyOutcome::Forward(b);
                    } else {
                        let off = self.active_scroll_offset();
                        let new_off: usize = if is_e {
                            if off < usize::MAX {
                                off + 1
                            } else {
                                off
                            }
                        } else {
                            if off >= 1 {
                                off - 1
                            } else {
                                0
                            }
                        };
                        self.set_active_offset(new_off);
                        return KeyOutcome::Scrolled;
                    }
                },
                Option::None => {
                    return KeyOutcome::Ignored;
                },
            }
        }

        // Ctrl+o: focus the list beside the content, or detach.
        let is_o = match key.code {
            KeyCode::Char(c) => c == 'o',
            _ => false,
        };
        if is_ctrl && is_o {
            self.last_esc_ms = Option::None;
            if self.sidebar_mode {
                self.sidebar_focus = SidebarFocus::List;
                return KeyOutcome::FocusList;
            } else {
                self.detach();
                return KeyOutcome::Detach;
            }
        }

        // Tab beside a sidebar: focus the list.
        if self.sidebar_mode && matches!(key.code, KeyCode::Tab) {
            self.last_esc_ms = Option::None;
            self.sidebar_focus = SidebarFocus::List;
            return KeyOutcome::FocusList;
        }

        // A scrolled-back pane intercepts navigation keys; any other
        // key snaps the view live and falls through.
        let off = self.active_scroll_offset();
        if off > 0 {
            match key.code {
                KeyCode::Up | KeyCode::Char('k') => {
                    let new_off: usize = if off < usize::MAX {
                        off + 1
                    } else {
                        off
                    };
                    self.set_active_offset(new_off);
                    return KeyOutcome::Scrolled;
                },
                KeyCode::Down | KeyCode::Char('j') => {
                    self.set_active_offset(off - 1);
                    return KeyOutcome::Scrolled;
                },
                KeyCode::PageUp => {
                    let new_off: usize = if off <= usize::MAX - page {
                        off + page
                    } else {
                        usize::MAX
                    };
                    self.set_active_offset(new_off);
                    return KeyOutcome::Scrolled;
                },
                KeyCode::PageDown => {
                    let new_off: usize = if off >= page {
                        off - page
                    } else {
                        0
                    };
                    self.set_active_offset(new_off);
                    return KeyOutcome::Scrolled;
                },
                KeyCode::Esc => {
                    self.set_active_offset(0);
                    return KeyOutcome::Scrolled;
                },
                _ => {
                    self.set_active_offset(0);
                },
            }
        }

        // Double Esc within the window detaches; a lone Esc is
        // forwarded raw and starts the timer.
        if matches!(key.code, KeyCode::Esc) {
            let fired = match self.last_esc_ms {
                Option::Some(t) => now_ms < t + DOUBLE_ESC_WINDOW_MS,
                Option::None => false,
            };
            if fired {
                self.detach();
                return KeyOutcome::Detach;
            } else {
                self.last_esc_ms = Option::Some(now_ms);
                match self.active_flags() {
                    Option::Some(_) => {
                        let mut b: Vec<u8> = Vec::new();
                        b.push(0x1b);
                        return KeyOutcome::Forward(b);
                    },
                    Option::None => {
                        return KeyOutcome::Ignored;
                    },
                }
            }
        }

        // F6 / Ctrl+s: swap the active pane.
        let is_s = match key.code {
            KeyCode::Char(c) => c == 's',
            _ => false,
        };
        if matches!(key.code, KeyCode::F(6u8)) || (is_ctrl && is_s) {
            self.last_esc_ms = Option::None;
            self.swap_pane();
            return KeyOutcome::Swap;
        }

        // Anything else: encode and forward to the active pane.
        self.last_esc_ms = Option::None;
        match self.active_flags() {
            Option::Some((_, app_cursor)) => {
                let b = key_to_bytes(key, app_cursor);
                KeyOutcome::Forward(b)
            },
            Option::None => KeyOutcome::Ignored,
        }
    }

    /// A mouse press begins a selection at the hit cell and forces a
    /// full redraw so the overlay appears.
    pub fn on_mouse_down(&mut self, pane: Pane, row: u16, col: u16)
        ensures
            final(self).selection == Some(
                (
                    pane,
                    PaneSelection {
                        start_row: row,
                        start_col: col,
                        end_row: row,
                        end_col: col,
                    },
                ),
            ),
            final(self).mode == old(self).mode,
            final(self).active_pane == old(self).active_pane,
    {
        self.selection = Option::Some(
            (pane, PaneSelection { start_row: row, start_col: col, end_row: row, end_col: col }),
        );
        self.drop_snapshots();
    }

    /// A drag extends the selection's end to the given pane-local
    /// cell (the caller clamps it to the pane's bounds).
    pub fn on_mouse_drag(&mut self, row: u16, col: u16)
        ensures
            (match old(self).selection {
                Option::Some((p, s)) => final(self).selection == Some(
                    (
                        p,
                        PaneSelection {
                            start_row: s.start_row,
                            start_col: s.start_col,
                            end_row: row,
                            end_col: col,
                        },
                    ),
                ),
                Option::None => final(self).selection is None,
            }),
            final(self).mode == old(self).mode,
    {
        let sel = self.selection.take();
        match sel {
            Option::Some((p, s)) => {
                self.selection = Option::Some(
                    (
                        p,
                        PaneSelection {
                            start_row: s.start_row,
                            start_col: s.start_col,
                            end_row: row,
                            end_col: col,
                        },
                    ),
                );
                self.drop_snapshots();
            },
            Option::None => {
                self.selection = Option::None;
            },
        }
    }

    /// A release: the selection to extract and copy, if it is
    /// non-empty; the selection itself stays until the next key press.
    pub fn on_mouse_up(&self) -> (r: Option<(Pane, PaneSelection)>)
        ensures
            (match self.selection {
                Option::Some((p, s)) => if s.start_row != s.end_row || s.start_col != s.end_col {
                    r == Some((p, s))
                } else {
                    r is None
                },
                Option::None => r is None,
            }),
    {
        match &self.selection {
            Option::Some((p, s)) => {
                if s.is_non_empty() {
                    Option::Some((*p, *s))
                } else {
                    Option::None
                }
            },
            Option::None => Option::None,
        }
    }

    /// A wheel step scrolls the active pane by three lines.
    pub fn on_wheel(&mut self, up: bool)
        ensures
            active_offset(*final(self)) == (if active_slot(*old(self)) is Some {
                if up {
                    sat_add_usize(active_offset(*old(self)), 3)
                } else {
                    sat_sub_int(active_offset(*old(self)), 3)
                }
            } else {
                0
            }),
            final(self).mode == old(self).mode,
    {
        let off = self.active_scroll_offset();
        let new_off: usize = if up {
            if off <= usize::MAX - 3 {
                off + 3
            } else {
                usize::MAX
            }
        } else {
            if off >= 3 {
                off - 3
            } else {
                0
            }
        };
        self.set_active_offset(new_off);
    }
}

} // verus!
