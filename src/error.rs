//! Native failures, sorted into the three kinds that callers act on.
use vstd::prelude::*;

verus! {

#[verifier::external_type_specification]
#[verifier::external_body]
pub struct ExNativeError(windows_result::Error);

/// The result code `0x8899000C`: the render target must be created anew.
pub const RECREATE_TARGET: i32 = -2003238900;

/// The result code `0x80004002`: the object does not have the asked-for interface.
pub const NO_INTERFACE: i32 = -2147467262;

/// The result code `0x80004005`: an unspecified failure.
pub const FAIL: i32 = -2147467259;

/// The one result code that `windows_result::Error` cannot hold as it is
/// (`0x535F4F4B`): it stands in for a zero code and reads back as zero.
pub const EMPTY_ERROR_MARK: i32 = 1398755147;

/// The result code that a native error carries: what `windows_result::Error::code`
/// reads back from it.
pub uninterp spec fn native_code_of(e: windows_result::Error) -> i32;

/// What went wrong in a call into the native graphics stack.
#[derive(Debug)]
pub enum GraphicsError {
    /// The device was lost; the render target has to be created again.
    NeedRecreateTarget,
    /// An object did not support the interface that was asked of it.
    NoInterface,
    /// Any other native failure, kept as it came.
    Api(windows_result::Error),
}

pub type Result<T> = core::result::Result<T, GraphicsError>;

impl GraphicsError {
    /// The kind of failure that a native error with result code `code` stands for.
    pub open spec fn classify(code: i32, cause: windows_result::Error) -> GraphicsError {
        if code == RECREATE_TARGET {
            GraphicsError::NeedRecreateTarget
        } else if code == NO_INTERFACE {
            GraphicsError::NoInterface
        } else {
            GraphicsError::Api(cause)
        }
    }

    /// Sorts the native error `cause`, whose result code is `code`, into its kind.
    pub fn from_code(code: i32, cause: windows_result::Error) -> (r: GraphicsError)
        ensures
            r == GraphicsError::classify(code, cause),
    {
        if code == RECREATE_TARGET {
            GraphicsError::NeedRecreateTarget
        } else if code == NO_INTERFACE {
            GraphicsError::NoInterface
        } else {
            GraphicsError::Api(cause)
        }
    }

    /// Sorts a native error into its kind by the result code it carries.
    pub fn from_native(cause: windows_result::Error) -> (r: GraphicsError)
        ensures
            r == GraphicsError::classify(native_code_of(cause), cause),
    {
        let code = result_code(&cause);
        GraphicsError::from_code(code, cause)
    }
}

/// Relies on `windows_result::Error::code`: the `HRESULT` that the error carries,
/// read as its `i32` value.
#[verifier::external_body]
fn result_code(e: &windows_result::Error) -> (r: i32)
    ensures
        r == native_code_of(*e),
{
    e.code().0
}

} // verus!
