use pnte::error::{EMPTY_ERROR_MARK, FAIL, NO_INTERFACE, RECREATE_TARGET};
use pnte::context::d3d12::check_render_target_flags;
use pnte::GraphicsError;
use windows_result::HRESULT;

fn native(code: u32) -> windows_result::Error {
    windows_result::Error::from_hresult(HRESULT(code as i32))
}

#[test]
fn result_codes_match_native_values() {
    assert_eq!(RECREATE_TARGET, 0x8899000Cu32 as i32);
    assert_eq!(NO_INTERFACE, 0x80004002u32 as i32);
    assert_eq!(FAIL, 0x80004005u32 as i32);
}

#[test]
fn from_code_sorts_each_kind() {
    let e = native(0x80070057);
    assert!(matches!(GraphicsError::from_code(RECREATE_TARGET, e.clone()), GraphicsError::NeedRecreateTarget));
    assert!(matches!(GraphicsError::from_code(NO_INTERFACE, e.clone()), GraphicsError::NoInterface));
    match GraphicsError::from_code(0x80070057u32 as i32, e.clone()) {
        GraphicsError::Api(inner) => assert_eq!(inner.code(), HRESULT(0x80070057u32 as i32)),
        _ => panic!("expected a generic native failure"),
    }
}

#[test]
fn from_native_reads_the_carried_code() {
    assert!(matches!(GraphicsError::from_native(native(0x8899000C)), GraphicsError::NeedRecreateTarget));
    assert!(matches!(GraphicsError::from_native(native(0x80004002)), GraphicsError::NoInterface));
    match GraphicsError::from_native(native(0x80004005)) {
        GraphicsError::Api(inner) => assert_eq!(inner.code().0, FAIL),
        _ => panic!("expected a generic native failure"),
    }
}

#[test]
fn render_target_flags_check() {
    assert!(check_render_target_flags(1).is_ok());
    assert!(check_render_target_flags(0x1 | 0x4).is_ok());
    match check_render_target_flags(0) {
        Err(GraphicsError::Api(inner)) => assert_eq!(inner.code().0, FAIL),
        _ => panic!("expected a generic native failure"),
    }
    match check_render_target_flags(0x4 | 0x2) {
        Err(GraphicsError::Api(inner)) => assert_eq!(inner.code().0, 0x80004005u32 as i32),
        _ => panic!("expected a generic native failure"),
    }
}

#[test]
fn empty_error_mark_reads_back_as_zero() {
    assert_eq!(EMPTY_ERROR_MARK, i32::from_be_bytes(*b"S_OK"));
    assert_eq!(windows_result::Error::from_hresult(HRESULT(0)).code().0, 0);
    match GraphicsError::from_native(native(0)) {
        GraphicsError::Api(inner) => assert_eq!(inner.code().0, 0),
        _ => panic!("expected a generic native failure"),
    }
}
