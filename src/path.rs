//! How a path figure ends.
use vstd::prelude::*;

verus! {

/// Whether the last point of a figure is joined back to its first.
#[derive(Clone, Copy, PartialEq, Eq, Debug)]
pub enum PathEnd {
    Open,
    Closed,
}

impl PathEnd {
    /// The native `D2D1_FIGURE_END` value of this ending.
    pub open spec fn native_code(self) -> i32 {
        match self {
            PathEnd::Open => 0,
            PathEnd::Closed => 1,
        }
    }

    pub fn code(self) -> (r: i32)
        ensures
            r == self.native_code(),
    {
        match self {
            PathEnd::Open => 0,
            PathEnd::Closed => 1,
        }
    }
}

} // verus!
