use crate::position::Position;
use vstd::prelude::*;

verus! {

/// The immutable grid extent of one game. It defines the closed-open
/// coordinate range `[0, width) x [0, height)` as "in bounds".
#[derive(Clone, Copy, PartialEq, Eq, Structural, Debug)]
pub struct Board {
    pub width: u8,
    pub height: u8,
}

impl Board {
    /// Non-positive extents are a caller error, rejected at construction.
    pub fn new(width: u8, height: u8) -> (r: Board)
        requires
            width >= 1,
            height >= 1,
        ensures
            r == (Board { width, height }),
    {
        Board { width, height }
    }

    /// A position is in bounds when both coordinates lie in the board's
    /// closed-open range.
    pub open spec fn in_bounds(self, p: Position) -> bool {
        &&& 0 <= p.x < self.width
        &&& 0 <= p.y < self.height
    }

    pub fn contains(&self, p: Position) -> (r: bool)
        ensures
            r == self.in_bounds(p),
    {
        p.x >= 0 && (p.x as i16) < (self.width as i16) && p.y >= 0 && (p.y as i16) < (self.height as i16)
    }
}

} // verus!
