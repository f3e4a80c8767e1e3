use crate::position::Position;
use vstd::prelude::*;

verus! {

/// A single food item. Immutable once placed: a "new" apple is a wholly
/// new value, never a mutation of the old one.
#[derive(Clone, Copy, PartialEq, Eq, Structural, Debug)]
pub struct Apple {
    pub position: Position,
}

impl Apple {
    pub fn new(position: Position) -> (r: Apple)
        ensures
            r.position == position,
    {
        Apple { position }
    }
}

} // verus!
