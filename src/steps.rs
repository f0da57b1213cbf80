use vstd::prelude::*;
use crate::line::{abs_diff, bresenham_pixels, minor_offset, sweep_x, sweep_y, toward, Line};
use crate::offset::{lemma_offset_range, lemma_offset_step, lemma_offset_unique};

verus! {

/// The pixels of one segment, handed out one at a time in plotting order.
///
/// The sweep runs along the major axis (x for a shallow segment, y for a
/// steep one) from `along` up to, but not including, `end`. The minor
/// coordinate `across` moves by `step` whenever the error term turns positive.
pub struct BresenhamSteps {
    steep: bool,
    along: u32,
    end: u32,
    across: i64,
    step: i64,
    error: i64,
    straight: i64,
    diagonal: i64,
    line: Ghost<Line>,
    start: Ghost<int>,
    from: Ghost<int>,
    to: Ghost<int>,
    offset: Ghost<int>,
}

/// Distance between two coordinates on one axis.
fn distance(a: u32, b: u32) -> (r: u32)
    ensures
        r == abs_diff(a as int, b as int),
{
    if a <= b {
        b - a
    } else {
        a - b
    }
}

impl BresenhamSteps {
    /// The segment being drawn.
    pub closed spec fn line(&self) -> Line {
        self.line@
    }

    /// How many pixels have been handed out so far.
    pub closed spec fn index(&self) -> int {
        self.along - self.start@
    }

    /// The pixels still to come.
    pub open spec fn remaining(&self) -> int {
        bresenham_pixels(self.line()).len() - self.index()
    }

    /// The sweep that this state walks, as pixels.
    closed spec fn sweep(&self) -> Seq<(u32, u32)> {
        if self.steep {
            sweep_y(self.from@, self.start@, self.to@, self.end as int)
        } else {
            sweep_x(self.start@, self.from@, self.end as int, self.to@)
        }
    }

    /// The state is part-way along the sweep of `line()`, with the error term
    /// and minor coordinate that the recurrence gives at that point.
    pub closed spec fn wf(&self) -> bool {
        let major = self.end - self.start@;
        let minor = abs_diff(self.from@, self.to@);
        let i = self.along - self.start@;
        let k = self.offset@;
        &&& self.sweep() == bresenham_pixels(self.line@)
        &&& 0 <= self.start@ <= self.along <= self.end
        &&& 0 <= self.from@ <= u32::MAX
        &&& 0 <= self.to@ <= u32::MAX
        &&& minor <= major
        &&& self.step == (if self.from@ <= self.to@ { 1int } else { -1int })
        &&& self.straight == 2 * minor
        &&& self.diagonal == 2 * (minor - major)
        &&& i < major ==> k == minor_offset(i, minor, major)
        &&& 0 <= k <= minor
        &&& self.across == toward(self.from@, self.to@, k)
        &&& self.error == 2 * minor * (i + 1) - major - 2 * major * k
    }

    /// Starts the sweep along x from (x0, y0) toward (x1, y1).
    fn horizontal(x0: u32, y0: u32, x1: u32, y1: u32, line: Ghost<Line>) -> (r: BresenhamSteps)
        requires
            x0 <= x1,
            abs_diff(y0 as int, y1 as int) <= x1 - x0,
            sweep_x(x0 as int, y0 as int, x1 as int, y1 as int) == bresenham_pixels(line@),
        ensures
            r.wf(),
            r.line() == line@,
            r.index() == 0,
    {
        let (step, dy): (i64, i64) = if y1 < y0 {
            (-1, y0 as i64 - y1 as i64)
        } else {
            (1, y1 as i64 - y0 as i64)
        };
        let dx: i64 = (x1 - x0) as i64;
        proof {
            if x0 < x1 {
                lemma_offset_unique(0, dy as int, dx as int, 0);
            }
            assert(2 * dy * (0 + 1) - dx - 2 * dx * 0 == 2 * dy - dx) by (nonlinear_arith);
        }
        BresenhamSteps {
            steep: false,
            along: x0,
            end: x1,
            across: y0 as i64,
            step,
            error: 2 * dy - dx,
            straight: 2 * dy,
            diagonal: 2 * (dy - dx),
            line,
            start: Ghost(x0 as int),
            from: Ghost(y0 as int),
            to: Ghost(y1 as int),
            offset: Ghost(0),
        }
    }

    /// Starts the sweep along y from (x0, y0) toward (x1, y1).
    fn vertical(x0: u32, y0: u32, x1: u32, y1: u32, line: Ghost<Line>) -> (r: BresenhamSteps)
        requires
            y0 <= y1,
            abs_diff(x0 as int, x1 as int) <= y1 - y0,
            sweep_y(x0 as int, y0 as int, x1 as int, y1 as int) == bresenham_pixels(line@),
        ensures
            r.wf(),
            r.line() == line@,
            r.index() == 0,
    {
        let (step, dx): (i64, i64) = if x1 < x0 {
            (-1, x0 as i64 - x1 as i64)
        } else {
            (1, x1 as i64 - x0 as i64)
        };
        let dy: i64 = (y1 - y0) as i64;
        proof {
            if y0 < y1 {
                lemma_offset_unique(0, dx as int, dy as int, 0);
            }
            assert(2 * dx * (0 + 1) - dy - 2 * dy * 0 == 2 * dx - dy) by (nonlinear_arith);
        }
        BresenhamSteps {
            steep: true,
            along: y0,
            end: y1,
            across: x0 as i64,
            step,
            error: 2 * dx - dy,
            straight: 2 * dx,
            diagonal: 2 * (dx - dy),
            line,
            start: Ghost(y0 as int),
            from: Ghost(x0 as int),
            to: Ghost(x1 as int),
            offset: Ghost(0),
        }
    }

    /// Classifies the segment as shallow or steep and starts the sweep from
    /// the endpoint with the smaller coordinate on the sweep axis.
    pub fn new(line: &Line) -> (r: BresenhamSteps)
        ensures
            r.wf(),
            r.line() == *line,
            r.index() == 0,
    {
        let ghost l = *line;
        if distance(line.y0, line.y1) < distance(line.x0, line.x1) {
            if line.x1 > line.x0 {
                BresenhamSteps::horizontal(line.x0, line.y0, line.x1, line.y1, Ghost(l))
            } else {
                BresenhamSteps::horizontal(line.x1, line.y1, line.x0, line.y0, Ghost(l))
            }
        } else {
            if line.y1 > line.y0 {
                BresenhamSteps::vertical(line.x0, line.y0, line.x1, line.y1, Ghost(l))
            } else {
                BresenhamSteps::vertical(line.x1, line.y1, line.x0, line.y0, Ghost(l))
            }
        }
    }

    /// Hands out the next pixel of `bresenham_pixels(line())`, or `None` once
    /// all have been handed out.
    pub fn next(&mut self) -> (r: Option<(u32, u32)>)
        requires
            old(self).wf(),
        ensures
            final(self).wf(),
            final(self).line() == old(self).line(),
            old(self).remaining() > 0 ==> r == Some(
                bresenham_pixels(old(self).line())[old(self).index()],
            ) && final(self).index() == old(self).index() + 1,
            old(self).remaining() <= 0 ==> r is None && final(self).index() == old(self).index(),
    {
        if self.along >= self.end {
            return None;
        }
        let ghost major = self.end - self.start@;
        let ghost minor = abs_diff(self.from@, self.to@);
        let ghost i = self.along - self.start@;
        let ghost k = self.offset@;
        proof {
            lemma_offset_step(i, minor, major);
            lemma_offset_range(i + 1, minor, major);
            assert(2 * minor * (i + 2) == 2 * minor * (i + 1) + 2 * minor) by (nonlinear_arith);
            assert(2 * major * (k + 1) == 2 * major * k + 2 * major) by (nonlinear_arith);
        }
        let pixel = if self.steep {
            (self.across as u32, self.along)
        } else {
            (self.along, self.across as u32)
        };
        assert(pixel == self.sweep()[i]);
        if self.error > 0 {
            self.across = self.across + self.step;
            self.error = self.error + self.diagonal;
            self.offset = Ghost(k + 1);
        } else {
            self.error = self.error + self.straight;
        }
        self.along = self.along + 1;
        Some(pixel)
    }
}

} // verus!
