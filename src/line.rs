use vstd::prelude::*;

verus! {

/// A segment in pixel space, from (x0, y0) to (x1, y1).
#[derive(Debug, Clone, Copy)]
pub struct Line {
    pub x0: u32,
    pub y0: u32,
    pub x1: u32,
    pub y1: u32,
}

/// Distance between two coordinates on one axis.
pub open spec fn abs_diff(a: int, b: int) -> int {
    if a <= b {
        b - a
    } else {
        a - b
    }
}

/// The coordinate reached from `a` after `k` unit steps toward `b`.
pub open spec fn toward(a: int, b: int, k: int) -> int {
    if a <= b {
        a + k
    } else {
        a - k
    }
}

/// How far the minor-axis coordinate has moved after `i` unit steps along the
/// major axis, for a segment spanning `minor` and `major` units on the two axes:
/// the integer nearest to `i * minor / major`, with an exact half rounded down.
pub open spec fn minor_offset(i: int, minor: int, major: int) -> int {
    (2 * i * minor + major - 1) / (2 * major)
}

/// Pixels of a sweep along x from (x0, y0) toward (x1, y1), where x0 <= x1:
/// one pixel per column in `[x0, x1)`, in increasing order of x.
pub open spec fn sweep_x(x0: int, y0: int, x1: int, y1: int) -> Seq<(u32, u32)> {
    Seq::new(
        (x1 - x0) as nat,
        |i: int|
            ((x0 + i) as u32, toward(y0, y1, minor_offset(i, abs_diff(y0, y1), x1 - x0)) as u32),
    )
}

/// Pixels of a sweep along y from (x0, y0) toward (x1, y1), where y0 <= y1:
/// one pixel per row in `[y0, y1)`, in increasing order of y.
pub open spec fn sweep_y(x0: int, y0: int, x1: int, y1: int) -> Seq<(u32, u32)> {
    Seq::new(
        (y1 - y0) as nat,
        |i: int|
            (toward(x0, x1, minor_offset(i, abs_diff(x0, x1), y1 - y0)) as u32, (y0 + i) as u32),
    )
}

/// Whether the segment spans more columns than rows.
pub open spec fn is_shallow(l: Line) -> bool {
    abs_diff(l.y0 as int, l.y1 as int) < abs_diff(l.x0 as int, l.x1 as int)
}

/// The pixels that the integer algorithm plots for `l`, in plotting order.
///
/// A shallow segment is swept along x, a steep one along y, always from the
/// endpoint with the smaller coordinate on that axis; the endpoint with the
/// larger coordinate is not plotted.
pub open spec fn bresenham_pixels(l: Line) -> Seq<(u32, u32)> {
    let (x0, y0, x1, y1) = (l.x0 as int, l.y0 as int, l.x1 as int, l.y1 as int);
    if is_shallow(l) {
        if x0 < x1 {
            sweep_x(x0, y0, x1, y1)
        } else {
            sweep_x(x1, y1, x0, y0)
        }
    } else if y0 < y1 {
        sweep_y(x0, y0, x1, y1)
    } else {
        sweep_y(x1, y1, x0, y0)
    }
}

/// The same segment, traversed from its other end.
pub open spec fn reversed(l: Line) -> Line {
    Line { x0: l.x1, y0: l.y1, x1: l.x0, y1: l.y0 }
}

} // verus!
