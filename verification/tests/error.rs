use hookvibe::error::{ModuleNameError, WinApiError, WinApiErrorCode};

#[test]
fn error_code_wraps_raw_value() {
    assert_eq!(WinApiErrorCode::new(5).0, 5);
    assert_eq!(WinApiErrorCode::new(0), WinApiErrorCode::new(0));
    assert_ne!(WinApiErrorCode::new(5), WinApiErrorCode::new(6));
}

#[test]
fn winapi_error_variants_are_distinct() {
    let code = WinApiError::WinApiErrorCode(WinApiErrorCode::new(87));
    let parse = WinApiError::StringParseError(vec![0xd800]);
    let size = WinApiError::BufferSizeError(0x1_0000_0000);
    assert_ne!(code, parse);
    assert_ne!(parse, size);
    assert_ne!(code, size);
}

#[test]
fn module_name_error_wraps_winapi_error() {
    let inner = WinApiError::WinApiErrorCode(WinApiErrorCode::new(299));
    let e = ModuleNameError::from(inner.clone());
    assert_eq!(e, ModuleNameError::WinApiError(inner));
    assert_ne!(e, ModuleNameError::InvalidName);
}
