//! Ink geometry: points and strokes.
//!
//! Coordinates are surface-local pixel positions. The compositor reports
//! them as fixed-point values; the engine records them as whole pixels,
//! which is all the sizing policy and the recognizer need.

use vstd::prelude::*;

verus! {

/// One recorded ink sample, immutable once recorded.
///
/// `pressure` is the raw sensor magnitude when the event source supplies
/// one; `None` means the renderer uses its fixed default stroke weight.
#[derive(Clone, Copy, Debug, PartialEq, Eq)]
pub struct InkPoint {
    pub x: i32,
    pub y: i32,
    pub time: u32,
    pub pressure: Option<u32>,
}

/// One continuous pen-down-to-pen-up path: an ordered sequence of samples,
/// append-only while the pen is down.
#[derive(Debug, PartialEq, Eq)]
pub struct Stroke {
    pub points: Vec<InkPoint>,
}

impl View for Stroke {
    type V = Seq<InkPoint>;

    open spec fn view(&self) -> Seq<InkPoint> {
        self.points@
    }
}

impl Stroke {
    /// A fresh, still-empty stroke, started on pen-down.
    pub fn new() -> (s: Stroke)
        ensures
            s@ == Seq::<InkPoint>::empty(),
    {
        let s = Stroke { points: Vec::new() };
        proof {
            assert(s@ =~= Seq::<InkPoint>::empty());
        }
        s
    }

    /// Append one sample; capture only ever grows the last stroke.
    pub fn push_point(&mut self, p: InkPoint)
        ensures
            final(self)@ == old(self)@.push(p),
    {
        self.points.push(p);
    }

    /// Number of recorded samples.
    pub fn len(&self) -> (n: usize)
        ensures
            n == self@.len(),
    {
        self.points.len()
    }
}

} // verus!
