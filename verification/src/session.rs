//! The attach/detach state machine: which panes are live, which one
//! has input focus, and the per-pane frame state (previous snapshot,
//! scroll offset, historical dump) that the renderer and the scrollback
//! unifier read.  The surrounding process owns the OS pseudoterminals;
//! it mirrors every transition made here onto them.

use vstd::prelude::*;

use crate::grid::Grid;
use crate::selection::PaneSelection;

verus! {

/// The top-level UI mode.
#[derive(Clone, Copy, PartialEq, Eq, Structural, Debug)]
pub enum Mode {
    Normal,
    Searching,
    Creating,
    Renaming,
    ConfirmKill,
    ConfirmKillAll1,
    ConfirmKillAll2,
    ConfirmQuit,
    Attached,
}

/// An action handed back to the shell on exit.
#[derive(Clone, Copy, PartialEq, Eq, Structural, Debug)]
pub enum Action {
    GoHome,
    Nothing,
}

/// One of the two panes of a split view.
#[derive(Clone, Copy, PartialEq, Eq, Structural, Debug)]
pub enum Pane {
    Left,
    Right,
}

/// Which half of the sidebar layout owns key input.
#[derive(Clone, Copy, PartialEq, Eq, Structural, Debug)]
pub enum SidebarFocus {
    List,
    Content,
}

/// The frame state of one live pane.
pub struct PaneSlot {
    /// The attached session's display name.
    pub name: String,
    /// The historical scrollback dump captured once at attach time.
    pub history: Vec<String>,
    /// Scroll offset into the unified scrollback space; zero is live.
    pub scroll_offset: usize,
    /// The grid of the last rendered frame; `None` forces the next
    /// render to be a full redraw.
    pub snapshot: Option<Grid>,
    /// Whether the pane's program has the alternate screen active.
    pub alt_screen: bool,
    /// Whether the pane's program selected application cursor mode.
    pub app_cursor: bool,
}

/// A fresh slot for a newly attached pane: live view, no snapshot,
/// both mode flags off.
pub open spec fn fresh_slot(s: PaneSlot) -> bool {
    s.scroll_offset == 0 && s.snapshot is None && !s.alt_screen && !s.app_cursor
}

impl PaneSlot {
    /// A new slot for a pane that just attached.
    pub fn new(name: String, history: Vec<String>) -> (s: PaneSlot)
        ensures
            fresh_slot(s),
            s.name@ == name@,
            s.history@ == history@,
    {
        PaneSlot {
            name,
            history,
            scroll_offset: 0,
            snapshot: Option::None,
            alt_screen: false,
            app_cursor: false,
        }
    }
}

/// The whole attachment engine: the mode, the live panes, the input
/// routing, the double-escape timer and the mouse selection.
pub struct AttachEngine {
    pub mode: Mode,
    pub left: Option<PaneSlot>,
    pub right: Option<PaneSlot>,
    pub active_pane: Pane,
    pub sidebar_mode: bool,
    pub sidebar_focus: SidebarFocus,
    /// When the last lone Esc was pressed, if the window is still open.
    pub last_esc_ms: Option<u64>,
    /// The mouse selection in progress, with the pane it lives in.
    pub selection: Option<(Pane, PaneSelection)>,
}

/// No pane is live and nothing refers to one: the state `detach`
/// guarantees, and the state a fresh engine starts in.
pub open spec fn idle_engine(e: AttachEngine) -> bool {
    e.mode != Mode::Attached && e.left is None && e.right is None && e.active_pane == Pane::Left
        && e.last_esc_ms is None && e.selection is None
}

impl AttachEngine {
    /// A fresh engine: idle, nothing attached.
    pub fn new(sidebar_mode: bool) -> (e: AttachEngine)
        ensures
            idle_engine(e),
            e.mode == Mode::Normal,
            e.sidebar_mode == sidebar_mode,
    {
        AttachEngine {
            mode: Mode::Normal,
            left: Option::None,
            right: Option::None,
            active_pane: Pane::Left,
            sidebar_mode,
            sidebar_focus: SidebarFocus::List,
            last_esc_ms: Option::None,
            selection: Option::None,
        }
    }

    /// Attach a single pane: a fresh left slot, no right pane, input
    /// to the pane.  Always accepted; any previous panes are released.
    pub fn attach_one(&mut self, name: String, history: Vec<String>)
        ensures
            final(self).mode == Mode::Attached,
            final(self).left matches Some(s) && fresh_slot(s) && s.name@ == name@ && s.history@
                == history@,
            final(self).right is None,
            final(self).active_pane == Pane::Left,
            final(self).selection is None,
            final(self).last_esc_ms is None,
            final(self).sidebar_mode == old(self).sidebar_mode,
    {
        self.left = Option::Some(PaneSlot::new(name, history));
        self.right = Option::None;
        self.active_pane = Pane::Left;
        self.selection = Option::None;
        self.last_esc_ms = Option::None;
        self.mode = Mode::Attached;
    }

    /// Attach two panes side by side, input to the left one.
    pub fn attach_two(
        &mut self,
        name: String,
        history_left: Vec<String>,
        right_name: String,
        history_right: Vec<String>,
    )
        ensures
            final(self).mode == Mode::Attached,
            final(self).left matches Some(s) && fresh_slot(s) && s.name@ == name@ && s.history@
                == history_left@,
            final(self).right matches Some(s) && fresh_slot(s) && s.name@ == right_name@
                && s.history@ == history_right@,
            final(self).active_pane == Pane::Left,
            final(self).selection is None,
            final(self).last_esc_ms is None,
            final(self).sidebar_mode == old(self).sidebar_mode,
    {
        self.left = Option::Some(PaneSlot::new(name, history_left));
        self.right = Option::Some(PaneSlot::new(right_name, history_right));
        self.active_pane = Pane::Left;
        self.selection = Option::None;
        self.last_esc_ms = Option::None;
        self.mode = Mode::Attached;
    }

    /// Tear the attachment down: both pane slots are released — no
    /// pane state, snapshot or dump survives — and the engine returns
    /// to the idle list view.  A following attach is always accepted.
    pub fn detach(&mut self)
        ensures
            idle_engine(*final(self)),
            final(self).mode == Mode::Normal,
            final(self).sidebar_focus == SidebarFocus::List,
            final(self).sidebar_mode == old(self).sidebar_mode,
    {
        self.left = Option::None;
        self.right = Option::None;
        self.active_pane = Pane::Left;
        self.selection = Option::None;
        self.last_esc_ms = Option::None;
        self.sidebar_focus = SidebarFocus::List;
        self.mode = Mode::Normal;
    }

    /// The right pane's program exited: drop that pane alone, keep the
    /// left one — its scroll position included — route input to it,
    /// and force its next render to be a full redraw.
    pub fn right_pane_closed(&mut self)
        ensures
            final(self).right is None,
            final(self).active_pane == Pane::Left,
            final(self).mode == old(self).mode,
            (old(self).left matches Some(s) ==> final(self).left matches Some(t) && t.name@
                == s.name@ && t.history@ == s.history@ && t.snapshot is None && t.scroll_offset
                == s.scroll_offset),
            old(self).left is None ==> final(self).left is None,
    {
        self.right = Option::None;
        self.active_pane = Pane::Left;
        let left = self.left.take();
        match left {
            Option::Some(mut s) => {
                s.snapshot = Option::None;
                self.left = Option::Some(s);
            },
            Option::None => {},
        }
    }

    /// Toggle the active pane — only meaningful in two-pane mode — and
    /// discard both snapshots so the border highlight redraws.
    pub fn swap_pane(&mut self)
        ensures
            old(self).right is Some ==> final(self).active_pane == (match old(self).active_pane {
                Pane::Left => Pane::Right,
                Pane::Right => Pane::Left,
            }),
            old(self).right is None ==> *final(self) == *old(self),
            final(self).mode == old(self).mode,
            final(self).left is Some <==> old(self).left is Some,
            final(self).right is Some <==> old(self).right is Some,
            final(self).selection == old(self).selection,
            final(self).last_esc_ms == old(self).last_esc_ms,
            final(self).sidebar_mode == old(self).sidebar_mode,
            final(self).sidebar_focus == old(self).sidebar_focus,
    {
        if self.right.is_some() {
            self.active_pane = match self.active_pane {
                Pane::Left => Pane::Right,
                Pane::Right => Pane::Left,
            };
            self.drop_snapshots();
        }
    }

    /// Discard both panes' snapshots: the next render is full.
    pub fn drop_snapshots(&mut self)
        ensures
            (final(self).left matches Some(s) ==> s.snapshot is None),
            (final(self).right matches Some(s) ==> s.snapshot is None),
            final(self).left is Some <==> old(self).left is Some,
            final(self).right is Some <==> old(self).right is Some,
            final(self).mode == old(self).mode,
            final(self).active_pane == old(self).active_pane,
            final(self).selection == old(self).selection,
            final(self).last_esc_ms == old(self).last_esc_ms,
            final(self).sidebar_mode == old(self).sidebar_mode,
            final(self).sidebar_focus == old(self).sidebar_focus,
            (match (old(self).left, final(self).left) {
                (Option::Some(t), Option::Some(s)) => s.name@ == t.name@ && s.history@
                    == t.history@ && s.scroll_offset == t.scroll_offset && s.alt_screen
                    == t.alt_screen && s.app_cursor == t.app_cursor,
                (Option::None, Option::None) => true,
                _ => false,
            }),
            (match (old(self).right, final(self).right) {
                (Option::Some(t), Option::Some(s)) => s.name@ == t.name@ && s.history@
                    == t.history@ && s.scroll_offset == t.scroll_offset && s.alt_screen
                    == t.alt_screen && s.app_cursor == t.app_cursor,
                (Option::None, Option::None) => true,
                _ => false,
            }),
    {
        let left = self.left.take();
        match left {
            Option::Some(mut s) => {
                s.snapshot = Option::None;
                self.left = Option::Some(s);
            },
            Option::None => {},
        }
        let right = self.right.take();
        match right {
            Option::Some(mut s) => {
                s.snapshot = Option::None;
                self.right = Option::Some(s);
            },
            Option::None => {},
        }
    }

    /// A terminal resize: every pane's snapshot is discarded — the
    /// next render after a resize is always a full redraw — and every
    /// scroll offset snaps back to the live tail.
    pub fn on_resize(&mut self)
        ensures
            (final(self).left matches Some(s) ==> s.snapshot is None && s.scroll_offset == 0),
            (final(self).right matches Some(s) ==> s.snapshot is None && s.scroll_offset == 0),
            final(self).left is Some <==> old(self).left is Some,
            final(self).right is Some <==> old(self).right is Some,
            final(self).mode == old(self).mode,
            final(self).active_pane == old(self).active_pane,
    {
        let left = self.left.take();
        match left {
            Option::Some(mut s) => {
                s.snapshot = Option::None;
                s.scroll_offset = 0;
                self.left = Option::Some(s);
            },
            Option::None => {},
        }
        let right = self.right.take();
        match right {
            Option::Some(mut s) => {
                s.snapshot = Option::None;
                s.scroll_offset = 0;
                self.right = Option::Some(s);
            },
            Option::None => {},
        }
    }

    /// Record the mode flags the terminal-state model reports for one
    /// pane.  A change of the alternate-screen flag discards the
    /// pane's snapshot: entering or leaving a full-screen program
    /// forces a full redraw.
    pub fn note_pane_flags(&mut self, pane: Pane, alt_screen: bool, app_cursor: bool)
        ensures
            final(self).mode == old(self).mode,
            final(self).active_pane == old(self).active_pane,
            final(self).left is Some <==> old(self).left is Some,
            final(self).right is Some <==> old(self).right is Some,
            pane == Pane::Left ==> (match (old(self).left, final(self).left) {
                (Option::Some(s), Option::Some(t)) => t.alt_screen == alt_screen && t.app_cursor
                    == app_cursor && (s.alt_screen != alt_screen ==> t.snapshot is None) && (
                s.alt_screen == alt_screen ==> t.snapshot == s.snapshot),
                (Option::None, Option::None) => true,
                _ => false,
            }),
            pane == Pane::Right ==> (match (old(self).right, final(self).right) {
                (Option::Some(s), Option::Some(t)) => t.alt_screen == alt_screen && t.app_cursor
                    == app_cursor && (s.alt_screen != alt_screen ==> t.snapshot is None) && (
                s.alt_screen == alt_screen ==> t.snapshot == s.snapshot),
                (Option::None, Option::None) => true,
                _ => false,
            }),
    {
        match pane {
            Pane::Left => {
                let slot = self.left.take();
                match slot {
                    Option::Some(mut s) => {
                        if s.alt_screen != alt_screen {
                            s.snapshot = Option::None;
                        }
                        s.alt_screen = alt_screen;
                        s.app_cursor = app_cursor;
                        self.left = Option::Some(s);
                    },
                    Option::None => {},
                }
            },
            Pane::Right => {
                let slot = self.right.take();
                match slot {
                    Option::Some(mut s) => {
                        if s.alt_screen != alt_screen {
                            s.snapshot = Option::None;
                        }
                        s.alt_screen = alt_screen;
                        s.app_cursor = app_cursor;
                        self.right = Option::Some(s);
                    },
                    Option::None => {},
                }
            },
        }
    }

    /// Whether a pane slot is live.
    pub fn has_pane(&self, pane: Pane) -> (r: bool)
        ensures
            pane == Pane::Left ==> r == (self.left is Some),
            pane == Pane::Right ==> r == (self.right is Some),
    {
        match pane {
            Pane::Left => self.left.is_some(),
            Pane::Right => self.right.is_some(),
        }
    }
}

/// Teardown guarantee: from the state `detach` leaves behind, nothing
/// of the old attachment remains, and an attach is accepted at once —
/// `attach_one` has no precondition and always yields a fresh pane in
/// `Attached` mode.
pub proof fn lemma_detach_releases_everything(e: AttachEngine)
    requires
        idle_engine(e),
    ensures
        e.left is None && e.right is None,
        e.mode != Mode::Attached,
{
}

} // verus!
