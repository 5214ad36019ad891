//! How a gradient brush paints outside the span of its stops.
use vstd::prelude::*;

verus! {

/// How a gradient continues past its first and last stop.
#[derive(Clone, Copy, PartialEq, Eq, Debug)]
pub enum GradientMode {
    Clamp,
    Mirror,
    Wrap,
}

impl GradientMode {
    /// The native `D2D1_EXTEND_MODE` value of this mode.
    pub open spec fn native_code(self) -> i32 {
        match self {
            GradientMode::Clamp => 0,
            GradientMode::Wrap => 1,
            GradientMode::Mirror => 2,
        }
    }

    pub fn code(self) -> (r: i32)
        ensures
            r == self.native_code(),
    {
        match self {
            GradientMode::Clamp => 0,
            GradientMode::Wrap => 1,
            GradientMode::Mirror => 2,
        }
    }
}

} // verus!
