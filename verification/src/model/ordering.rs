//! The direction a sorted list of records runs in.

use vstd::prelude::*;

verus! {

/// The direction of a sort.
#[derive(Clone, Debug, PartialEq)]
pub enum Direction {
    Asc,
    Desc,
}

impl Default for Direction {
    /// The default variant: `Asc`.
    fn default() -> (r: Direction)
        ensures
            r == Direction::Asc,
    {
        Direction::Asc
    }
}

} // verus!
