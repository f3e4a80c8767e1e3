use vstd::prelude::*;

verus! {

/// An immutable 2D coordinate with signed components. Always a value,
/// copied freely; equality is exact, addition is componentwise.
#[derive(Clone, Copy, PartialEq, Eq, Structural, Debug)]
pub struct Position {
    pub x: i8,
    pub y: i8,
}

impl Position {
    pub fn new(x: i8, y: i8) -> (r: Position)
        ensures
            r == (Position { x, y }),
    {
        Position { x, y }
    }

    /// Componentwise sum of two positions. The coordinates are a machine
    /// type, so each component of the sum must fit in it.
    pub fn add(self, rhs: Position) -> (r: Position)
        requires
            i8::MIN <= self.x + rhs.x <= i8::MAX,
            i8::MIN <= self.y + rhs.y <= i8::MAX,
        ensures
            r.x == self.x + rhs.x,
            r.y == self.y + rhs.y,
    {
        Position { x: self.x + rhs.x, y: self.y + rhs.y }
    }
}

} // verus!
