use vstd::prelude::*;
use crate::line::{abs_diff, bresenham_pixels, is_shallow, reversed, Line};

verus! {

/// Drawing a segment from either end plots the same pixels, in the same
/// order: both directions are swept from the same endpoint.
pub proof fn lemma_reversed_same_pixels(l: Line)
    ensures
        bresenham_pixels(reversed(l)) == bresenham_pixels(l),
        bresenham_pixels(reversed(l)).to_set() == bresenham_pixels(l).to_set(),
{
    let r = reversed(l);
    if !is_shallow(l) && l.y0 == l.y1 {
        assert(l.x0 == l.x1);
    }
    assert(is_shallow(r) == is_shallow(l));
}

/// One pixel is plotted per unit of the longer span, the far endpoint
/// excluded; for a shallow segment that is one per column crossed.
pub proof fn lemma_pixel_count(l: Line)
    ensures
        ({
            let dx = abs_diff(l.x0 as int, l.x1 as int);
            let dy = abs_diff(l.y0 as int, l.y1 as int);
            &&& bresenham_pixels(l).len() == if dx > dy {
                dx
            } else {
                dy
            }
            &&& is_shallow(l) ==> bresenham_pixels(l).len() == dx
        }),
{
}

/// No pixel is plotted twice, so in particular no pixel is plotted again
/// right after itself.
pub proof fn lemma_no_pixel_twice(l: Line)
    ensures
        forall|i: int, j: int|
            0 <= i < j < bresenham_pixels(l).len() ==> #[trigger] bresenham_pixels(l)[i]
                != #[trigger] bresenham_pixels(l)[j],
        forall|i: int|
            0 <= i && i + 1 < bresenham_pixels(l).len() ==> #[trigger] bresenham_pixels(l)[i]
                != bresenham_pixels(l)[i + 1],
{
    let s = bresenham_pixels(l);
    assert forall|i: int, j: int| 0 <= i < j < s.len() implies #[trigger] s[i] != #[trigger] s[j] by {
        if is_shallow(l) {
            assert(s[i].0 != s[j].0);
        } else {
            assert(s[i].1 != s[j].1);
        }
    }
}

} // verus!
