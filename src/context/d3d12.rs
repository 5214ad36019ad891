//! The check that a Direct3D 12 resource can be drawn to.
use vstd::prelude::*;
use crate::error::{native_code_of, GraphicsError, Result, EMPTY_ERROR_MARK, FAIL};

verus! {

/// The `D3D12_RESOURCE_FLAG_ALLOW_RENDER_TARGET` bit of a resource's flags.
pub const ALLOW_RENDER_TARGET: i32 = 1;

/// Succeeds when the resource flags `flags` allow the resource to be a render
/// target, and fails with a generic native failure otherwise.
pub fn check_render_target_flags(flags: i32) -> (r: Result<()>)
    ensures
        r is Ok <==> flags & ALLOW_RENDER_TARGET != 0,
        r matches Err(e) ==> e is Api,
        r matches Err(GraphicsError::Api(e)) ==> native_code_of(e) == FAIL,
{
    if flags & ALLOW_RENDER_TARGET == 0 {
        Err(GraphicsError::Api(native_failure(FAIL)))
    } else {
        Ok(())
    }
}

/// Relies on `windows_result::Error::from_hresult`: a native error that carries
/// the result code `code` and no further information.
#[verifier::external_body]
fn native_failure(code: i32) -> (r: windows_result::Error)
    ensures
        code != EMPTY_ERROR_MARK ==> native_code_of(r) == code,
{
    windows_result::Error::from_hresult(windows_result::HRESULT(code))
}

} // verus!
