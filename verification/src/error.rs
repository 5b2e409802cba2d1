//! Error values reported by the operating-system facing parts of the toolkit.

use vstd::prelude::*;

verus! {

/// Raw numeric error code reported by the operating system after a failed
/// call.
#[derive(Debug, Clone, PartialEq, Eq, Structural)]
pub struct WinApiErrorCode(pub u32);

impl WinApiErrorCode {
    /// Wraps a raw OS error code.
    pub fn new(code: u32) -> (r: Self)
        ensures
            r.0 == code,
    {
        WinApiErrorCode(code)
    }
}

/// Failure of an OS-facing operation.
///
/// `WinApiErrorCode` carries the OS's own code; `StringParseError` carries the
/// wide-character units of a name that could not be converted to a native
/// string; `BufferSizeError` carries a byte count that exceeded the OS's
/// addressable limit.
#[derive(Debug, Clone, PartialEq)]
pub enum WinApiError {
    WinApiErrorCode(WinApiErrorCode),
    StringParseError(Vec<u16>),
    BufferSizeError(usize),
}

/// Failure while reading the base name of a process's primary module.
#[derive(Debug, Clone, PartialEq)]
pub enum ModuleNameError {
    WinApiError(WinApiError),
    InvalidName,
}

impl From<WinApiError> for ModuleNameError {
    fn from(winapi_error: WinApiError) -> (r: Self) {
        ModuleNameError::WinApiError(winapi_error)
    }
}

impl vstd::std_specs::convert::FromSpecImpl<WinApiError> for ModuleNameError {
    open spec fn obeys_from_spec() -> bool {
        true
    }

    open spec fn from_spec(winapi_error: WinApiError) -> Self {
        ModuleNameError::WinApiError(winapi_error)
    }
}

} // verus!
