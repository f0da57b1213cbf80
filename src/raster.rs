use vstd::prelude::*;
use crate::line::{bresenham_pixels, Line};
use crate::steps::BresenhamSteps;

verus! {

/// Line drawing on a surface that accepts pixel plots.
///
/// An implementor supplies `plot_pixel`; the drawing methods are built on it.
/// What a surface has been asked to paint is modelled by `plotted`.
pub trait Lines: Sized {
    /// The pixels plotted on this surface so far, oldest first.
    spec fn plotted(&self) -> Seq<(u32, u32)>;

    /// Paints the pixel at (x, y) in the current draw colour.
    fn plot_pixel(&mut self, x: u32, y: u32)
        ensures
            final(self).plotted() == old(self).plotted().push((x, y)),
    ;

    /// Draws `line` with integer arithmetic only: `plot_pixel` is called once
    /// for each pixel of `bresenham_pixels(*line)`, in that order.
    fn bresenham_line(&mut self, line: &Line)
        ensures
            final(self).plotted() == old(self).plotted() + bresenham_pixels(*line),
    {
        let mut steps = BresenhamSteps::new(line);
        let ghost start = self.plotted();
        loop
            invariant
                steps.wf(),
                steps.line() == *line,
                0 <= steps.index() <= bresenham_pixels(*line).len(),
                self.plotted() == start + bresenham_pixels(*line).take(steps.index()),
            ensures
                self.plotted() == start + bresenham_pixels(*line),
            decreases steps.remaining(),
        {
            let ghost i = steps.index();
            match steps.next() {
                Some((x, y)) => {
                    assert(bresenham_pixels(*line).take(i + 1) == bresenham_pixels(*line).take(
                        i,
                    ).push((x, y)));
                    self.plot_pixel(x, y);
                },
                None => {
                    assert(bresenham_pixels(*line).take(i) =~= bresenham_pixels(*line));
                    break;
                },
            }
        }
    }
}

/// A surface that only records what is plotted, in order.
#[derive(Debug)]
pub struct PixelCollector {
    pub pixels: Vec<(u32, u32)>,
}

impl PixelCollector {
    /// A collector that has recorded nothing yet.
    pub fn new() -> (r: PixelCollector)
        ensures
            r.pixels@ == Seq::<(u32, u32)>::empty(),
    {
        PixelCollector { pixels: Vec::new() }
    }
}

impl Lines for PixelCollector {
    open spec fn plotted(&self) -> Seq<(u32, u32)> {
        self.pixels@
    }

    fn plot_pixel(&mut self, x: u32, y: u32) {
        self.pixels.push((x, y));
    }
}

} // verus!
