//! Cursor and scrolling-window arithmetic shared by every page.
//!
//! A page shows a list of `count` items (entries or text lines) and keeps one
//! position in it: the highlighted entry of a list page, the first visible
//! line of a pager. All positions are clamped to the list, so that a position
//! never leaves `[0, count - 1]`; in an empty list the only position is 0.

use vstd::prelude::*;

verus! {

/// Index of the last item of a list of `count` items; 0 for the empty list.
pub open spec fn last_index(count: nat) -> nat {
    if count == 0 {
        0
    } else {
        (count - 1) as nat
    }
}

/// The position `by` items after `pos`, stopped at the last item.
pub open spec fn forward(pos: nat, by: nat, count: nat) -> nat {
    if pos + by <= last_index(count) {
        pos + by
    } else {
        last_index(count)
    }
}

/// The position `by` items before `pos`, stopped at the first item.
pub open spec fn backward(pos: nat, by: nat) -> nat {
    if by <= pos {
        (pos - by) as nat
    } else {
        0
    }
}

/// A movement that a page can be asked for.
pub ghost enum Motion {
    /// One item down.
    Next,
    /// One item up.
    Previous,
    /// The given number of items down.
    PageDown(u16),
    /// The given number of items up.
    PageUp(u16),
}

/// The position that `motion` leads to from `pos` in a list of `count`
/// items.
pub open spec fn moved(pos: nat, motion: Motion, count: nat) -> nat {
    match motion {
        Motion::Next => forward(pos, 1, count),
        Motion::Previous => backward(pos, 1),
        Motion::PageDown(n) => forward(pos, n as nat, count),
        Motion::PageUp(n) => backward(pos, n as nat),
    }
}

/// A single movement keeps a position inside the list.
pub proof fn lemma_motion_stays_in_range(pos: nat, motion: Motion, count: nat)
    requires
        pos <= last_index(count),
    ensures
        moved(pos, motion, count) <= last_index(count),
{
}

/// Rows left for content on a terminal of `terminal_height` rows of which
/// `reserved_rows` are taken by the surrounding chrome. Not positive when the
/// chrome fills the terminal.
pub open spec fn visible_rows(terminal_height: int, reserved_rows: int) -> int {
    terminal_height - reserved_rows
}

/// End (exclusive) of the window of `rows` rows that starts at `top`, in a
/// list of `count` items: `min(top + rows, count)`.
pub open spec fn window_end(top: nat, rows: int, count: nat) -> int {
    if top + rows <= count {
        top + rows
    } else {
        count as int
    }
}

/// The items `[top, window_end)` of `items`; empty when the window is.
pub open spec fn window<T>(items: Seq<T>, top: nat, rows: int) -> Seq<T> {
    let end = window_end(top, rows, items.len());
    if top < end {
        items.subrange(top as int, end)
    } else {
        Seq::empty()
    }
}

/// `window_end` for a page scrolled to `top` on a terminal of
/// `terminal_height` rows with `reserved_rows` of them reserved.
pub open spec fn bottom(top: usize, terminal_height: u16, reserved_rows: u16, count: usize) -> int {
    window_end(top as nat, visible_rows(terminal_height as int, reserved_rows as int), count as nat)
}

/// Moves `pos` forward by `by` items in a list of `count` items.
pub fn step_forward(pos: usize, by: usize, count: usize) -> (r: usize)
    ensures
        r == forward(pos as nat, by as nat, count as nat),
{
    let last: usize = if count == 0 { 0 } else { count - 1 };
    if pos <= last && by <= last - pos {
        pos + by
    } else {
        last
    }
}

/// Moves `pos` back by `by` items.
pub fn step_backward(pos: usize, by: usize) -> (r: usize)
    ensures
        r == backward(pos as nat, by as nat),
{
    if by <= pos {
        pos - by
    } else {
        0
    }
}

/// Bounds `(start, end)` of the visible window of a list of `count` items
/// scrolled to `top`, on a terminal of `terminal_height` rows with
/// `reserved_rows` of them reserved. The window starts at `top` and ends at
/// `window_end`; where that leaves nothing to see, `start == end`.
pub fn window_bounds(top: usize, terminal_height: u16, reserved_rows: u16, count: usize) -> (r: (
    usize,
    usize,
))
    ensures
        r.0 == if top <= count {
            top
        } else {
            count
        },
        r.1 == if r.0 < bottom(top, terminal_height, reserved_rows, count) {
            bottom(top, terminal_height, reserved_rows, count)
        } else {
            r.0 as int
        },
{
    if terminal_height <= reserved_rows || top >= count {
        let at: usize = if top <= count {
            top
        } else {
            count
        };
        (at, at)
    } else {
        let rows: usize = (terminal_height - reserved_rows) as usize;
        if rows <= count - top {
            (top, top + rows)
        } else {
            (top, count)
        }
    }
}

} // verus!
