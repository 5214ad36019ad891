//! Stroke parameters that the native stroke style takes as codes.
use vstd::prelude::*;

verus! {

/// The shape drawn at the end of a line or of a dash.
#[derive(Clone, Copy, PartialEq, Eq, Debug)]
pub enum CapStyle {
    Flat,
    Square,
    Round,
    Triangle,
}

impl CapStyle {
    /// The native `D2D1_CAP_STYLE` value of this cap.
    pub open spec fn native_code(self) -> i32 {
        match self {
            CapStyle::Flat => 0,
            CapStyle::Square => 1,
            CapStyle::Round => 2,
            CapStyle::Triangle => 3,
        }
    }

    pub fn code(self) -> (r: i32)
        ensures
            r == self.native_code(),
    {
        match self {
            CapStyle::Flat => 0,
            CapStyle::Square => 1,
            CapStyle::Round => 2,
            CapStyle::Triangle => 3,
        }
    }
}

} // verus!
