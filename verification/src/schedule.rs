//! Frame scheduling decisions: when a frame is due, and how long the
//! multiplexed input wait may sleep.  The loop around the engine reads
//! the clock and waits; the decisions are pure functions of it.

use vstd::prelude::*;

verus! {

/// The minimum interval between two rendered frames, in milliseconds.
pub const FRAME_BUDGET_MS: u64 = 8;

/// Whether enough of the frame budget has passed since the last
/// render for the next frame to be drawn.
pub fn render_due(last_render_ms: u64, now_ms: u64) -> (r: bool)
    requires
        last_render_ms <= now_ms,
    ensures
        r == (now_ms - last_render_ms >= FRAME_BUDGET_MS),
{
    now_ms - last_render_ms >= FRAME_BUDGET_MS
}

/// How long the input wait may block: the remainder of the frame
/// budget when a render is pending (at least one millisecond, so the
/// loop always wakes), the whole budget otherwise, and a long idle
/// poll when not attached.
pub fn poll_timeout_ms(attached: bool, render_pending: bool, last_render_ms: u64, now_ms: u64) -> (
    r: u64)
    requires
        last_render_ms <= now_ms,
    ensures
        !attached ==> r == 100,
        attached && !render_pending ==> r == FRAME_BUDGET_MS,
        attached && render_pending ==> r as int == (if FRAME_BUDGET_MS >= now_ms - last_render_ms
            + 1 {
            FRAME_BUDGET_MS - (now_ms - last_render_ms)
        } else {
            1int
        }),
        r >= 1,
{
    if !attached {
        100
    } else if !render_pending {
        FRAME_BUDGET_MS
    } else {
        let elapsed = now_ms - last_render_ms;
        let remaining = if FRAME_BUDGET_MS >= elapsed {
            FRAME_BUDGET_MS - elapsed
        } else {
            0
        };
        if remaining >= 1 {
            remaining
        } else {
            1
        }
    }
}

} // verus!
