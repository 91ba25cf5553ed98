//! Translation of native status codes into a portable error taxonomy.

use vstd::prelude::*;

verus! {

/// Portable classification of the status codes that the native
/// desktop-duplication facility reports.
#[derive(Clone, Copy, Debug, PartialEq, Eq, Structural)]
pub enum ErrorKind {
    /// The connection to the desktop-duplication session was lost.
    ConnectionReset,
    /// The native wait for a new frame timed out.
    TimedOut,
    /// The call was invalid in the current call sequence.
    InvalidData,
    /// Access to the output was denied.
    PermissionDenied,
    /// The requested configuration is unsupported.
    ConnectionRefused,
    /// The resource is temporarily unavailable.
    Interrupted,
    /// The session was forcibly disconnected.
    ConnectionAborted,
    /// No new frame was available within a zero timeout.
    WouldBlock,
    /// No display was found.
    NotFound,
    /// An unrecognized native failure.
    Other,
}

/// The native success status.
pub const S_OK: u32 = 0;
/// The duplication session lost access to the desktop.
pub const DXGI_ERROR_ACCESS_LOST: u32 = 0x887A_0026;
/// The native wait for a new frame timed out.
pub const DXGI_ERROR_WAIT_TIMEOUT: u32 = 0x887A_0027;
/// The call sequence or the arguments were invalid.
pub const DXGI_ERROR_INVALID_CALL: u32 = 0x887A_0001;
/// Access to the output was denied.
pub const E_ACCESSDENIED: u32 = 0x8007_0005;
/// The configuration is not supported by the facility.
pub const DXGI_ERROR_UNSUPPORTED: u32 = 0x887A_0004;
/// The resource is not currently available.
pub const DXGI_ERROR_NOT_CURRENTLY_AVAILABLE: u32 = 0x887A_0022;
/// The duplication session was forcibly disconnected.
pub const DXGI_ERROR_SESSION_DISCONNECTED: u32 = 0x887A_0028;

/// The portable kind that a non-success native status translates to.
pub open spec fn hresult_kind(x: u32) -> ErrorKind {
    if x == DXGI_ERROR_ACCESS_LOST {
        ErrorKind::ConnectionReset
    } else if x == DXGI_ERROR_WAIT_TIMEOUT {
        ErrorKind::TimedOut
    } else if x == DXGI_ERROR_INVALID_CALL {
        ErrorKind::InvalidData
    } else if x == E_ACCESSDENIED {
        ErrorKind::PermissionDenied
    } else if x == DXGI_ERROR_UNSUPPORTED {
        ErrorKind::ConnectionRefused
    } else if x == DXGI_ERROR_NOT_CURRENTLY_AVAILABLE {
        ErrorKind::Interrupted
    } else if x == DXGI_ERROR_SESSION_DISCONNECTED {
        ErrorKind::ConnectionAborted
    } else {
        ErrorKind::Other
    }
}

/// Translates a native status code: success maps to `Ok`, every other code
/// to its portable kind.
pub fn wrap_hresult(x: u32) -> (r: Result<(), ErrorKind>)
    ensures
        x == S_OK <==> r is Ok,
        x != S_OK ==> r == Err::<(), ErrorKind>(hresult_kind(x)),
{
    if x == S_OK {
        Ok(())
    } else if x == DXGI_ERROR_ACCESS_LOST {
        Err(ErrorKind::ConnectionReset)
    } else if x == DXGI_ERROR_WAIT_TIMEOUT {
        Err(ErrorKind::TimedOut)
    } else if x == DXGI_ERROR_INVALID_CALL {
        Err(ErrorKind::InvalidData)
    } else if x == E_ACCESSDENIED {
        Err(ErrorKind::PermissionDenied)
    } else if x == DXGI_ERROR_UNSUPPORTED {
        Err(ErrorKind::ConnectionRefused)
    } else if x == DXGI_ERROR_NOT_CURRENTLY_AVAILABLE {
        Err(ErrorKind::Interrupted)
    } else if x == DXGI_ERROR_SESSION_DISCONNECTED {
        Err(ErrorKind::ConnectionAborted)
    } else {
        Err(ErrorKind::Other)
    }
}

} // verus!
