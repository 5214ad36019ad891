//! How an image is resampled when drawn at another size.
use vstd::prelude::*;

verus! {

/// The resampling filter used when an image is drawn.
#[derive(Clone, Copy, PartialEq, Eq, Debug)]
pub enum Interpolation {
    NearestNeighbor,
    Linear,
    Cubic,
    MultiSampleLinear,
    Anisotropic,
    HighQualityCubic,
}

impl Interpolation {
    /// The native `D2D1_INTERPOLATION_MODE` value of this filter.
    pub open spec fn native_code(self) -> i32 {
        match self {
            Interpolation::NearestNeighbor => 0,
            Interpolation::Linear => 1,
            Interpolation::Cubic => 2,
            Interpolation::MultiSampleLinear => 3,
            Interpolation::Anisotropic => 4,
            Interpolation::HighQualityCubic => 5,
        }
    }

    pub fn code(self) -> (r: i32)
        ensures
            r == self.native_code(),
    {
        match self {
            Interpolation::NearestNeighbor => 0,
            Interpolation::Linear => 1,
            Interpolation::Cubic => 2,
            Interpolation::MultiSampleLinear => 3,
            Interpolation::Anisotropic => 4,
            Interpolation::HighQualityCubic => 5,
        }
    }
}

} // verus!
