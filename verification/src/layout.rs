//! Pane layout arithmetic: how much of the physical terminal each pane
//! may draw into, and how screen coordinates map back to pane cells.

use vstd::prelude::*;

verus! {

/// Sidebar width: a fifth of the terminal, clamped to `[20, 40]` columns.
pub fn sidebar_width(term_cols: u16) -> (w: u16)
    ensures
        w == spec_sidebar_width(term_cols),
{
    let w = term_cols / 5;
    if w < 20 {
        20
    } else if w > 40 {
        40
    } else {
        w
    }
}

/// The sidebar width as a mathematical function of the terminal width.
pub open spec fn spec_sidebar_width(term_cols: u16) -> u16 {
    let w = term_cols / 5;
    if w < 20 {
        20
    } else if w > 40 {
        40
    } else {
        w
    }
}

/// Effective PTY area for a given terminal size.  With the sidebar active
/// the sidebar columns and the content box border are subtracted; without
/// it only the surrounding one-cell border is.  The result never exceeds
/// the terminal size, so a resize can never hand the renderer a viewport
/// larger than the terminal.
pub fn pty_area(sidebar_mode: bool, term_rows: u16, term_cols: u16) -> (dims: (u16, u16))
    ensures
        dims.0 <= term_rows,
        dims.1 <= term_cols,
        dims.0 == sat_sub_u16(term_rows, 2),
        sidebar_mode ==> dims.1 == sat_sub_u16(
            sat_sub_u16(term_cols, spec_sidebar_width(term_cols)),
            2,
        ),
        !sidebar_mode ==> dims.1 == sat_sub_u16(term_cols, 2),
{
    let pty_rows = term_rows.saturating_sub(2);
    if sidebar_mode {
        let sw = sidebar_width(term_cols);
        let content_cols = term_cols.saturating_sub(sw);
        let pty_cols = content_cols.saturating_sub(2);
        (pty_rows, pty_cols)
    } else {
        (pty_rows, term_cols.saturating_sub(2))
    }
}

/// Saturating subtraction on `u16`, as a spec-level function.
pub open spec fn sat_sub_u16(a: u16, b: u16) -> u16 {
    if a >= b {
        (a - b) as u16
    } else {
        0u16
    }
}

/// The inner content area beside the sidebar, as mathematical values:
/// `(inner_x, inner_y, inner_w, inner_h)`.
pub open spec fn spec_sidebar_geometry(cols: u16, rows: u16) -> (int, int, int, int) {
    let sw = spec_sidebar_width(cols) as int;
    (sw + 1, 1int, sat_sub_u16(sat_sub_u16(cols, spec_sidebar_width(cols)), 2) as int, sat_sub_u16(
        rows,
        2,
    ) as int)
}

/// The inner content area of the plain full-screen box.
pub open spec fn spec_plain_geometry(cols: u16, rows: u16) -> (int, int, int, int) {
    (1int, 1int, sat_sub_u16(cols, 2) as int, sat_sub_u16(rows, 2) as int)
}

/// The left pane's width under a percentage split of `inner_w` columns
/// (one column goes to the separator).
pub open spec fn spec_left_width(inner_w: int, pct: int) -> int {
    sat_sub(inner_w, 1) * pct / 100
}

/// `a - b`, stopping at zero.
pub open spec fn sat_sub(a: int, b: int) -> int {
    if a >= b {
        a - b
    } else {
        0
    }
}

/// Split `inner_w` columns between two panes and a one-column
/// separator: the left pane gets `pct` percent of what remains.
pub fn two_pane_split(inner_w: u16, pct: u16) -> (r: (u16, u16))
    requires
        pct <= 100,
    ensures
        r.0 as int == spec_left_width(inner_w as int, pct as int),
        r.1 as int == sat_sub(sat_sub(inner_w as int, 1), r.0 as int),
        r.0 + r.1 <= sat_sub(inner_w as int, 1),
{
    let avail: u32 = if inner_w >= 1 {
        (inner_w - 1) as u32
    } else {
        0
    };
    proof {
        crate::render::lemma_part_of_whole(pct as int, 100, avail as int);
        assert(avail as int * pct as int == pct as int * avail as int) by (nonlinear_arith);
    }
    let left: u32 = avail * pct as u32 / 100;
    let right: u32 = avail - left;
    (left as u16, right as u16)
}

/// The two-pane layout of the plain full-screen box:
/// `(left_x, left_w, right_x, right_w, inner_y, inner_h)`.
pub open spec fn spec_two_pane_geometry(cols: u16, rows: u16, pct: int) -> (
    int,
    int,
    int,
    int,
    int,
    int,
) {
    let inner_w = sat_sub_u16(cols, 2) as int;
    let left_w = spec_left_width(inner_w, pct);
    let right_w = sat_sub(sat_sub(inner_w, 1), left_w);
    (1int, left_w, 1 + left_w + 1, right_w, 1int, sat_sub_u16(rows, 2) as int)
}

/// Two-pane layout geometry of the plain full-screen box.
pub fn two_pane_geometry(cols: u16, rows: u16, pct: u16) -> (r: (u16, u16, u16, u16, u16, u16))
    requires
        pct <= 100,
    ensures
        (r.0 as int, r.1 as int, r.2 as int, r.3 as int, r.4 as int, r.5 as int)
            == spec_two_pane_geometry(cols, rows, pct as int),
{
    let inner_w = cols.saturating_sub(2);
    let inner_h = rows.saturating_sub(2);
    let (left_w, right_w) = two_pane_split(inner_w, pct);
    let left_x: u16 = 1;
    let right_x: u16 = 1 + left_w + 1;
    (left_x, left_w, right_x, right_w, 1, inner_h)
}

/// The two-pane layout inside the sidebar content area.
pub open spec fn spec_sidebar_two_pane_geometry(cols: u16, rows: u16, pct: int) -> (
    int,
    int,
    int,
    int,
    int,
    int,
) {
    let (inner_x, inner_y, inner_w, inner_h) = spec_sidebar_geometry(cols, rows);
    let left_w = spec_left_width(inner_w, pct);
    let right_w = sat_sub(sat_sub(inner_w, 1), left_w);
    (inner_x, left_w, inner_x + left_w + 1, right_w, inner_y, inner_h)
}

/// Compute the sidebar content area for pane rendering:
/// `(inner_x, inner_y, inner_w, inner_h)`, the area inside the content
/// box border.
pub fn sidebar_geometry(cols: u16, rows: u16) -> (r: (u16, u16, u16, u16))
    ensures
        (r.0 as int, r.1 as int, r.2 as int, r.3 as int) == spec_sidebar_geometry(cols, rows),
        r.0 + r.2 <= cols || cols < 43,
{
    let sw = sidebar_width(cols);
    let content_w = cols.saturating_sub(sw);
    let inner_x = sw + 1;
    let inner_w = content_w.saturating_sub(2);
    let inner_h = rows.saturating_sub(2);
    (inner_x, 1, inner_w, inner_h)
}

/// Two-pane layout inside the sidebar content area:
/// `(left_x, left_w, right_x, right_w, inner_y, inner_h)`.
pub fn sidebar_two_pane_geometry(cols: u16, rows: u16, pct: u16) -> (r: (
    u16,
    u16,
    u16,
    u16,
    u16,
    u16,
))
    requires
        pct <= 100,
    ensures
        (r.0 as int, r.1 as int, r.2 as int, r.3 as int, r.4 as int, r.5 as int)
            == spec_sidebar_two_pane_geometry(cols, rows, pct as int),
{
    let (inner_x, inner_y, inner_w, inner_h) = sidebar_geometry(cols, rows);
    let (left_w, right_w) = two_pane_split(inner_w, pct);
    let right_x: u16 = inner_x + left_w + 1;
    (inner_x, left_w, right_x, right_w, inner_y, inner_h)
}

/// Where a screen position lands: which pane, and the pane-local cell.
pub open spec fn spec_hit_test(
    two_pane: bool,
    sidebar: bool,
    pct: int,
    mx: u16,
    my: u16,
    cols: u16,
    rows: u16,
) -> Option<(crate::session::Pane, u16, u16)> {
    if two_pane {
        let (left_x, left_w, right_x, right_w, inner_y, inner_h) = if sidebar {
            spec_sidebar_two_pane_geometry(cols, rows, pct)
        } else {
            spec_two_pane_geometry(cols, rows, pct)
        };
        if inner_y <= my < inner_y + inner_h {
            if left_x <= mx < left_x + left_w {
                Option::Some(
                    (crate::session::Pane::Left, (my - inner_y) as u16, (mx - left_x) as u16),
                )
            } else if right_x <= mx < right_x + right_w {
                Option::Some(
                    (crate::session::Pane::Right, (my - inner_y) as u16, (mx - right_x) as u16),
                )
            } else {
                Option::None
            }
        } else {
            Option::None
        }
    } else {
        let (inner_x, inner_y, inner_w, inner_h) = if sidebar {
            spec_sidebar_geometry(cols, rows)
        } else {
            spec_plain_geometry(cols, rows)
        };
        if inner_y <= my < inner_y + inner_h && inner_x <= mx < inner_x + inner_w {
            Option::Some((crate::session::Pane::Left, (my - inner_y) as u16, (mx - inner_x) as u16))
        } else {
            Option::None
        }
    }
}

/// Determine which pane a mouse position falls in, returning the pane
/// and the pane-local `(row, col)`.
pub fn hit_test_pane(two_pane: bool, sidebar: bool, pct: u16, mx: u16, my: u16, cols: u16, rows:
    u16) -> (r: Option<(crate::session::Pane, u16, u16)>)
    requires
        pct <= 100,
    ensures
        r == spec_hit_test(two_pane, sidebar, pct as int, mx, my, cols, rows),
{
    if two_pane {
        let (left_x, left_w, right_x, right_w, inner_y, inner_h) = if sidebar {
            sidebar_two_pane_geometry(cols, rows, pct)
        } else {
            two_pane_geometry(cols, rows, pct)
        };
        if my >= inner_y && (my as u32) < inner_y as u32 + inner_h as u32 {
            if mx >= left_x && (mx as u32) < left_x as u32 + left_w as u32 {
                return Option::Some((crate::session::Pane::Left, my - inner_y, mx - left_x));
            }
            if mx >= right_x && (mx as u32) < right_x as u32 + right_w as u32 {
                return Option::Some((crate::session::Pane::Right, my - inner_y, mx - right_x));
            }
        }
        Option::None
    } else {
        let (inner_x, inner_y, inner_w, inner_h) = if sidebar {
            sidebar_geometry(cols, rows)
        } else {
            (1u16, 1u16, cols.saturating_sub(2), rows.saturating_sub(2))
        };
        if my >= inner_y && (my as u32) < inner_y as u32 + inner_h as u32 && mx >= inner_x && (
        mx as u32) < inner_x as u32 + inner_w as u32 {
            Option::Some((crate::session::Pane::Left, my - inner_y, mx - inner_x))
        } else {
            Option::None
        }
    }
}

/// The inner width and height of one pane.
pub open spec fn spec_pane_inner_size(
    pane: crate::session::Pane,
    two_pane: bool,
    sidebar: bool,
    pct: int,
    cols: u16,
    rows: u16,
) -> (int, int) {
    if two_pane {
        let (_, left_w, _, right_w, _, inner_h) = if sidebar {
            spec_sidebar_two_pane_geometry(cols, rows, pct)
        } else {
            spec_two_pane_geometry(cols, rows, pct)
        };
        (
            match pane {
                crate::session::Pane::Left => left_w,
                crate::session::Pane::Right => right_w,
            },
            inner_h,
        )
    } else {
        let (_, _, inner_w, inner_h) = if sidebar {
            spec_sidebar_geometry(cols, rows)
        } else {
            spec_plain_geometry(cols, rows)
        };
        (inner_w, inner_h)
    }
}

/// The inner dimensions `(width, height)` of one pane.
pub fn pane_inner_size(
    pane: crate::session::Pane,
    two_pane: bool,
    sidebar: bool,
    pct: u16,
    cols: u16,
    rows: u16,
) -> (r: (u16, u16))
    requires
        pct <= 100,
    ensures
        (r.0 as int, r.1 as int) == spec_pane_inner_size(pane, two_pane, sidebar, pct as int, cols,
            rows),
{
    if two_pane {
        let (_, left_w, _, right_w, _, inner_h) = if sidebar {
            sidebar_two_pane_geometry(cols, rows, pct)
        } else {
            two_pane_geometry(cols, rows, pct)
        };
        let w = match pane {
            crate::session::Pane::Left => left_w,
            crate::session::Pane::Right => right_w,
        };
        (w, inner_h)
    } else {
        let (_, _, inner_w, inner_h) = if sidebar {
            sidebar_geometry(cols, rows)
        } else {
            (1u16, 1u16, cols.saturating_sub(2), rows.saturating_sub(2))
        };
        (inner_w, inner_h)
    }
}

/// Where a position lands inside a span of `len` cells starting at
/// `base`: the first cell when at or before the base, the last cell
/// when at or past the span's end, else the cell under it.
pub open spec fn spec_clamp_axis(v: int, base: int, len: int) -> int {
    if v <= base {
        0
    } else if v >= base + len - 1 {
        len - 1
    } else {
        v - base
    }
}

/// The screen position `(x, y)` of a pane's top-left inner cell.
pub open spec fn spec_pane_origin(
    pane: crate::session::Pane,
    two_pane: bool,
    sidebar: bool,
    pct: int,
    cols: u16,
    rows: u16,
) -> (int, int) {
    if two_pane {
        let (left_x, _, right_x, _, inner_y, _) = if sidebar {
            spec_sidebar_two_pane_geometry(cols, rows, pct)
        } else {
            spec_two_pane_geometry(cols, rows, pct)
        };
        (
            match pane {
                crate::session::Pane::Left => left_x,
                crate::session::Pane::Right => right_x,
            },
            inner_y,
        )
    } else {
        let (inner_x, inner_y, _, _) = if sidebar {
            spec_sidebar_geometry(cols, rows)
        } else {
            spec_plain_geometry(cols, rows)
        };
        (inner_x, inner_y)
    }
}

/// Clamp a dragged mouse position into one pane, returning the
/// pane-local `(row, col)` of the nearest cell: each coordinate is
/// the mouse position clamped per axis into the pane's span.
pub fn clamp_to_pane(
    pane: crate::session::Pane,
    two_pane: bool,
    sidebar: bool,
    pct: u16,
    mx: u16,
    my: u16,
    cols: u16,
    rows: u16,
) -> (r: (u16, u16))
    requires
        pct <= 100,
        spec_pane_inner_size(pane, two_pane, sidebar, pct as int, cols, rows).0 > 0,
        spec_pane_inner_size(pane, two_pane, sidebar, pct as int, cols, rows).1 > 0,
    ensures
        r.0 as int == spec_clamp_axis(
            my as int,
            spec_pane_origin(pane, two_pane, sidebar, pct as int, cols, rows).1,
            spec_pane_inner_size(pane, two_pane, sidebar, pct as int, cols, rows).1,
        ),
        r.1 as int == spec_clamp_axis(
            mx as int,
            spec_pane_origin(pane, two_pane, sidebar, pct as int, cols, rows).0,
            spec_pane_inner_size(pane, two_pane, sidebar, pct as int, cols, rows).0,
        ),
        (r.0 as int) < spec_pane_inner_size(pane, two_pane, sidebar, pct as int, cols, rows).1,
        (r.1 as int) < spec_pane_inner_size(pane, two_pane, sidebar, pct as int, cols, rows).0,
{
    if two_pane {
        let (left_x, left_w, right_x, right_w, inner_y, inner_h) = if sidebar {
            sidebar_two_pane_geometry(cols, rows, pct)
        } else {
            two_pane_geometry(cols, rows, pct)
        };
        let (px, pw) = match pane {
            crate::session::Pane::Left => (left_x, left_w),
            crate::session::Pane::Right => (right_x, right_w),
        };
        let row = clamp_axis(my, inner_y, inner_h);
        let col = clamp_axis(mx, px, pw);
        (row, col)
    } else {
        let (inner_x, inner_y, inner_w, inner_h) = if sidebar {
            sidebar_geometry(cols, rows)
        } else {
            (1u16, 1u16, cols.saturating_sub(2), rows.saturating_sub(2))
        };
        let row = clamp_axis(my, inner_y, inner_h);
        let col = clamp_axis(mx, inner_x, inner_w);
        (row, col)
    }
}

/// Resize invariant: whatever the layout, the viewport handed to the
/// renderer for a pane never exceeds the terminal size.
pub proof fn lemma_viewport_within_terminal(
    pane: crate::session::Pane,
    two_pane: bool,
    sidebar: bool,
    pct: int,
    cols: u16,
    rows: u16,
)
    requires
        0 <= pct <= 100,
    ensures
        spec_pane_inner_size(pane, two_pane, sidebar, pct, cols, rows).0 <= cols,
        spec_pane_inner_size(pane, two_pane, sidebar, pct, cols, rows).1 <= rows,
{
    if two_pane {
        let inner_w = if sidebar {
            spec_sidebar_geometry(cols, rows).2
        } else {
            spec_plain_geometry(cols, rows).2
        };
        crate::render::lemma_part_of_whole(pct, 100, sat_sub(inner_w, 1));
        assert(sat_sub(inner_w, 1) * pct == pct * sat_sub(inner_w, 1)) by (nonlinear_arith);
    }
}

/// Clamp `v` into the span starting at `base` of length `len`, and
/// return the offset within the span.
fn clamp_axis(v: u16, base: u16, len: u16) -> (r: u16)
    requires
        len > 0,
    ensures
        r as int == spec_clamp_axis(v as int, base as int, len as int),
        r < len,
{
    if v <= base {
        0
    } else {
        let hi: u32 = base as u32 + len as u32 - 1;
        if (v as u32) >= hi {
            (hi - base as u32) as u16
        } else {
            v - base
        }
    }
}

} // verus!
