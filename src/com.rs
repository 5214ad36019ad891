//! The threading model asked for when the component runtime is initialised.
use vstd::prelude::*;

verus! {

/// The `COINIT_DISABLE_OLE1DDE` flag, always passed along with the threading model.
pub const DISABLE_OLE1DDE: i32 = 4;

/// The concurrency model of the calling thread.
#[derive(Clone, Copy, PartialEq, Eq, Debug, Hash)]
pub enum CoInit {
    ApartmentThreaded,
    MultiThreaded,
}

impl CoInit {
    /// The native `COINIT` value of this threading model alone.
    pub open spec fn native_code(self) -> i32 {
        match self {
            CoInit::ApartmentThreaded => 2,
            CoInit::MultiThreaded => 0,
        }
    }

    /// The flags handed to the runtime's initialisation: the threading model
    /// together with `DISABLE_OLE1DDE`.
    pub fn flags(self) -> (r: i32)
        ensures
            r == self.native_code() | DISABLE_OLE1DDE,
    {
        let model: i32 = match self {
            CoInit::ApartmentThreaded => 2,
            CoInit::MultiThreaded => 0,
        };
        model | DISABLE_OLE1DDE
    }
}

} // verus!
