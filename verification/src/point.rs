//! A sample point: a fixed position carrying a magnitude that may change.

use vstd::prelude::*;
use crate::grid::Position;

verus! {

/// One point of a flow field. Its magnitude is a fixed-point number.
#[derive(Clone, Copy, Debug, PartialEq, Eq, Structural)]
pub struct FlowPoint {
    pub pos: Position,
    pub mag: i64,
}

impl FlowPoint {
    /// A point at `(x, y)` with the given magnitude.
    pub fn new(x: i64, y: i64, mag: i64) -> (p: FlowPoint)
        ensures
            p == (FlowPoint { pos: Position { x, y }, mag }),
    {
        FlowPoint { pos: Position { x, y }, mag }
    }

    /// Replaces the magnitude and leaves the position alone.
    pub fn set_mag(&mut self, mag: i64)
        ensures
            *final(self) == (FlowPoint { pos: old(self).pos, mag }),
    {
        self.mag = mag;
    }
}

} // verus!
