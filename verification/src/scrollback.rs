//! Scrollback unifier: one addressable offset space per pane, merging
//! the terminal-state model's own bounded scrollback with the one-time
//! historical text dump captured at attach time.

use vstd::prelude::*;

verus! {

/// Where one frame's content comes from for a given scroll offset.
#[derive(Clone, Copy, PartialEq, Eq, Structural, Debug)]
pub enum ViewPlan {
    /// Offset zero: the live tail, rendered differentially.
    Live,
    /// The offset lies within the terminal-state model's own scrollback:
    /// ask the model for that offset and render its grid, full redraw.
    Internal { offset: usize },
    /// The offset runs past the model's scrollback: render the
    /// historical dump, with this line index at the top of the viewport.
    History { top_line: usize },
}

/// `a - b`, stopping at zero.
pub open spec fn sat_sub(a: int, b: int) -> int {
    if a >= b {
        a - b
    } else {
        0
    }
}

/// The clamped offset: a requested offset never exceeds the total
/// addressable depth, `internal_depth + hist_len`.
pub open spec fn clamped_offset(internal_depth: int, hist_len: int, offset: int) -> int {
    if offset <= internal_depth + hist_len {
        offset
    } else {
        internal_depth + hist_len
    }
}

/// The view plan for a clamped offset: live at zero; the model's own
/// scrollback while the offset is within `internal_depth`; else the
/// historical dump, whose top visible line walks back from its end as
/// the offset grows past `internal_depth`.
pub open spec fn plan_of(internal_depth: int, hist_len: int, clamped: int, inner_h: int) -> ViewPlan {
    if clamped == 0 {
        ViewPlan::Live
    } else if clamped <= internal_depth || hist_len == 0 {
        ViewPlan::Internal { offset: clamped as usize }
    } else {
        let extra = clamped - internal_depth;
        let top = sat_sub(sat_sub(hist_len, extra), inner_h);
        ViewPlan::History { top_line: top as usize }
    }
}

/// Clamp a pane's scroll offset to the unified space and decide where
/// this frame's content comes from.  The offset is clamped on every
/// frame because the total can shrink (a resize changes the model's
/// retained depth).
pub fn resolve_view(internal_depth: usize, hist_len: usize, offset: usize, inner_h: u16) -> (r: (
    usize,
    ViewPlan,
))
    requires
        internal_depth + hist_len <= usize::MAX,
    ensures
        r.0 == clamped_offset(internal_depth as int, hist_len as int, offset as int),
        r.1 == plan_of(internal_depth as int, hist_len as int, r.0 as int, inner_h as int),
        offset == 0 ==> r.1 == ViewPlan::Live,
        r.0 <= internal_depth + hist_len,
{
    let total: usize = internal_depth + hist_len;
    let clamped: usize = if offset <= total {
        offset
    } else {
        total
    };
    if clamped == 0 {
        (clamped, ViewPlan::Live)
    } else if clamped <= internal_depth || hist_len == 0 {
        (clamped, ViewPlan::Internal { offset: clamped })
    } else {
        let extra: usize = clamped - internal_depth;
        let line: usize = if hist_len >= extra {
            hist_len - extra
        } else {
            0
        };
        let top: usize = if line >= inner_h as usize {
            line - inner_h as usize
        } else {
            0
        };
        (clamped, ViewPlan::History { top_line: top })
    }
}

/// Scrollback continuity: the largest offset reaches the oldest
/// historical line — when the whole dump fits above the viewport no
/// further, the top visible line is line zero — and offset zero is
/// always the live tail.
pub proof fn lemma_scrollback_continuity(internal_depth: int, hist_len: int, inner_h: int)
    requires
        internal_depth >= 0,
        hist_len >= 0,
        inner_h >= 0,
    ensures
        plan_of(internal_depth, hist_len, 0, inner_h) == ViewPlan::Live,
        hist_len > 0 ==> plan_of(internal_depth, hist_len, internal_depth + hist_len, inner_h)
            == (ViewPlan::History { top_line: 0 }),
{
}

} // verus!
