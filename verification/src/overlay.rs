//! Where the overlay window is put when the application starts.

use vstd::prelude::*;

verus! {

/// Distance of the overlay from the right edge of the monitor, in pixels.
pub const MARGIN_RIGHT: i64 = 200;

/// Distance of the overlay from the bottom edge of the monitor, in pixels.
pub const MARGIN_BOTTOM: i64 = 150;

/// Where the overlay is put when no monitor is known.
pub const FALLBACK_POSITION: (i32, i32) = (100, 100);

/// A monitor: the position of its top left corner, and its size.
#[derive(Clone, Copy, Debug, PartialEq, Eq, Structural)]
pub struct Monitor {
    pub x: i32,
    pub y: i32,
    pub width: u32,
    pub height: u32,
}

/// Whether `monitors[at]` is the leftmost monitor: none lies further left,
/// and of those that lie as far left it comes first.
pub open spec fn is_leftmost(monitors: Seq<Monitor>, at: int) -> bool {
    &&& 0 <= at < monitors.len()
    &&& forall|i: int| 0 <= i < monitors.len() ==> monitors[at].x <= #[trigger] monitors[i].x
    &&& forall|i: int| 0 <= i < at ==> monitors[at].x < #[trigger] monitors[i].x
}

/// A coordinate brought into the range that a position can hold.
pub open spec fn clamped(value: int) -> int {
    if value < i32::MIN {
        i32::MIN as int
    } else if value > i32::MAX {
        i32::MAX as int
    } else {
        value
    }
}

/// The place of the overlay on a monitor: in its bottom right corner, the
/// margins away from the edges.
pub open spec fn corner_of(monitor: Monitor) -> (int, int) {
    (
        clamped(monitor.x + monitor.width - MARGIN_RIGHT),
        clamped(monitor.y + monitor.height - MARGIN_BOTTOM),
    )
}

fn clamp(value: i64) -> (clamped_value: i32)
    ensures
        clamped_value == clamped(value as int),
{
    if value < -2147483648 {
        -2147483648
    } else if value > 2147483647 {
        2147483647
    } else {
        value as i32
    }
}

/// The index of the leftmost monitor, or nothing where there is none.
pub fn leftmost_monitor(monitors: &Vec<Monitor>) -> (found: Option<usize>)
    ensures
        match found {
            Some(at) => is_leftmost(monitors@, at as int),
            None => monitors@.len() == 0,
        },
{
    if monitors.len() == 0 {
        return None;
    }
    let mut best: usize = 0;
    let mut i: usize = 1;
    while i < monitors.len()
        invariant
            1 <= i <= monitors.len(),
            best < i,
            forall|k: int| 0 <= k < i ==> monitors@[best as int].x <= #[trigger] monitors@[k].x,
            forall|k: int| 0 <= k < best ==> monitors@[best as int].x < #[trigger] monitors@[k].x,
        decreases monitors.len() - i,
    {
        if monitors[i].x < monitors[best].x {
            best = i;
        }
        i += 1;
    }
    Some(best)
}

/// The position at which the overlay is shown: in the bottom right corner
/// of the leftmost monitor, or the fallback position where no monitor is
/// known.
pub fn overlay_position(monitors: &Vec<Monitor>) -> (position: (i32, i32))
    ensures
        monitors@.len() == 0 ==> position == FALLBACK_POSITION,
        monitors@.len() > 0 ==> exists|at: int|
            is_leftmost(monitors@, at) && (position.0 as int, position.1 as int) == corner_of(
                #[trigger] monitors@[at],
            ),
{
    match leftmost_monitor(monitors) {
        Some(at) => {
            let monitor = monitors[at];
            let x: i64 = monitor.x as i64 + monitor.width as i64 - MARGIN_RIGHT;
            let y: i64 = monitor.y as i64 + monitor.height as i64 - MARGIN_BOTTOM;
            (clamp(x), clamp(y))
        },
        None => FALLBACK_POSITION,
    }
}

/// There is one leftmost monitor and no more.
pub proof fn leftmost_is_unique(monitors: Seq<Monitor>, a: int, b: int)
    requires
        is_leftmost(monitors, a),
        is_leftmost(monitors, b),
    ensures
        a == b,
{
    if a < b {
        assert(monitors[b].x < monitors[a].x);
    } else if b < a {
        assert(monitors[a].x < monitors[b].x);
    }
}

} // verus!
