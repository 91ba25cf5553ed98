use scrap::hresult::{
    DXGI_ERROR_ACCESS_LOST, DXGI_ERROR_INVALID_CALL, DXGI_ERROR_NOT_CURRENTLY_AVAILABLE,
    DXGI_ERROR_SESSION_DISCONNECTED, DXGI_ERROR_UNSUPPORTED, DXGI_ERROR_WAIT_TIMEOUT,
    E_ACCESSDENIED, ErrorKind, S_OK, wrap_hresult,
};

#[test]
fn success_translates_to_ok() {
    assert_eq!(wrap_hresult(S_OK), Ok(()));
}

#[test]
fn each_known_code_translates_to_its_kind() {
    assert_eq!(wrap_hresult(DXGI_ERROR_ACCESS_LOST), Err(ErrorKind::ConnectionReset));
    assert_eq!(wrap_hresult(DXGI_ERROR_WAIT_TIMEOUT), Err(ErrorKind::TimedOut));
    assert_eq!(wrap_hresult(DXGI_ERROR_INVALID_CALL), Err(ErrorKind::InvalidData));
    assert_eq!(wrap_hresult(E_ACCESSDENIED), Err(ErrorKind::PermissionDenied));
    assert_eq!(wrap_hresult(DXGI_ERROR_UNSUPPORTED), Err(ErrorKind::ConnectionRefused));
    assert_eq!(
        wrap_hresult(DXGI_ERROR_NOT_CURRENTLY_AVAILABLE),
        Err(ErrorKind::Interrupted)
    );
    assert_eq!(
        wrap_hresult(DXGI_ERROR_SESSION_DISCONNECTED),
        Err(ErrorKind::ConnectionAborted)
    );
}

#[test]
fn unrecognized_codes_translate_to_other() {
    assert_eq!(wrap_hresult(0x8000_4005), Err(ErrorKind::Other));
    assert_eq!(wrap_hresult(1), Err(ErrorKind::Other));
    assert_eq!(wrap_hresult(0xFFFF_FFFF), Err(ErrorKind::Other));
}
