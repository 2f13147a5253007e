use ip7z::win_ffi::HRESULT;

#[test]
fn hresult_known_codes() {
    assert_eq!(HRESULT::S_OK().code(), 0);
    assert_eq!(HRESULT::S_FALSE().code(), 1);
    assert_eq!(HRESULT::E_NOTIMPL().code(), 0x80004001u32 as i32);
    assert_eq!(HRESULT::E_NOINTERFACE().code(), 0x80004002u32 as i32);
    assert_eq!(HRESULT::E_ABORT().code(), 0x80004004u32 as i32);
    assert_eq!(HRESULT::E_FAIL().code(), 0x80004005u32 as i32);
    assert_eq!(HRESULT::STG_E_INVALIDFUNCTION().code(), 0x80030001u32 as i32);
    assert_eq!(HRESULT::CLASS_E_CLASSNOTAVAILABLE().code(), 0x80040111u32 as i32);
    assert_eq!(HRESULT::E_OUTOFMEMORY().code(), 0x8007000Eu32 as i32);
    assert_eq!(HRESULT::E_INVALIDARG().code(), 0x80070057u32 as i32);
    assert_eq!(HRESULT::TYPE_E_MISMATCH().code(), 0x80028CA0u32 as i32);
}

#[test]
fn hresult_success_and_failure() {
    assert!(HRESULT::S_OK().succeeded());
    assert!(!HRESULT::S_OK().failed());
    assert!(HRESULT::S_FALSE().succeeded());
    assert!(HRESULT::E_FAIL().failed());
    assert!(!HRESULT::E_FAIL().succeeded());
    assert_eq!(HRESULT::S_OK().ok(), Ok(()));
    assert_eq!(HRESULT::S_FALSE().ok(), Ok(()));
    assert_eq!(HRESULT::E_ABORT().ok(), Err(HRESULT::E_ABORT()));
}

#[test]
fn hresult_conversions() {
    assert_eq!(HRESULT::from_u32(0x80004005), HRESULT::E_FAIL());
    assert_eq!(HRESULT::from_i32(-2147467259), HRESULT::E_FAIL());
    assert_eq!(HRESULT::from(7i32).code(), 7);
    assert_eq!(i32::from(HRESULT::E_INVALIDARG()), -2147024809);
    assert_eq!(HRESULT::from_u32(u32::MAX).code(), -1);
}

#[test]
fn hresult_display_text() {
    assert_eq!(HRESULT::S_OK().to_string(), "S_OK: 0x0");
    assert_eq!(HRESULT::E_FAIL().to_string(), "E_FAIL: 0x2147500037");
    assert_eq!(HRESULT::E_INVALIDARG().to_string(), "E_INVALIDARG: 0x2147942487");
    assert_eq!(HRESULT::TYPE_E_MISMATCH().to_string(), "TYPE_E_MISMATCH: 0x2147650720");
    assert_eq!(HRESULT::from_i32(5).to_string(), "(Unknown HRESULT): 0x5");
    assert_eq!(HRESULT::from_i32(-1).to_string(), "(Unknown HRESULT): 0x4294967295");
}
