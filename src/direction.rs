use vstd::prelude::*;

verus! {

/// A layout axis.
#[derive(Clone, Copy, Debug, PartialEq, Eq, Structural)]
pub enum Direction {
    Horizontal,
    Vertical,
}

impl Direction {
    /// The other axis.
    pub fn next(&self) -> (r: Direction)
        ensures
            r != *self,
    {
        match self {
            Direction::Horizontal => Direction::Vertical,
            Direction::Vertical => Direction::Horizontal,
        }
    }
}

} // verus!
