use ip7z::win_ffi::{BSTR, FILETIME, HRESULT, PROPVARIANT, PROPVARIANTConversionError, PropValue, VARTYPE, VT_BOOL};

#[test]
fn propvariant_scalar_round_trips() {
    assert_eq!(PROPVARIANT::from_i8(-5).to_i8(), Ok(-5));
    assert_eq!(PROPVARIANT::from_i16(-300).to_i16(), Ok(-300));
    assert_eq!(PROPVARIANT::from_i32(-70000).to_i32(), Ok(-70000));
    assert_eq!(PROPVARIANT::from_i64(i64::MIN).to_i64(), Ok(i64::MIN));
    assert_eq!(PROPVARIANT::from_u8(200).to_u8(), Ok(200));
    assert_eq!(PROPVARIANT::from_u16(60000).to_u16(), Ok(60000));
    assert_eq!(PROPVARIANT::from_u32(4_000_000_000).to_u32(), Ok(4_000_000_000));
    assert_eq!(PROPVARIANT::from_u64(u64::MAX).to_u64(), Ok(u64::MAX));
    assert_eq!(PROPVARIANT::from_bool(true).to_bool(), Ok(true));
    assert_eq!(PROPVARIANT::from_bool(false).to_bool(), Ok(false));
    let ft = FILETIME { dwLowDateTime: 7, dwHighDateTime: 9 };
    assert_eq!(PROPVARIANT::from_filetime(ft).to_filetime(), Ok(ft));
}

#[test]
fn propvariant_layout() {
    let v = PROPVARIANT::from_i8(-1);
    assert_eq!(v.vt(), VARTYPE::VT_I1);
    assert_eq!(v.bits(), 0xFF);
    assert_eq!(PROPVARIANT::from_bool(true).bits(), 0xFFFF);
    assert_eq!(PROPVARIANT::from_i32(-1).bits(), 0xFFFF_FFFF);
    assert_eq!(PROPVARIANT::from_raw(VARTYPE::VT_UI8, 0x1234).to_u64(), Ok(0x1234));
    assert_eq!(PROPVARIANT::from_raw(VARTYPE::VT_I2, 0xABCD_FFFE).to_i16(), Ok(-2));
    assert_eq!(PROPVARIANT::default().vt(), VARTYPE::VT_EMPTY);
}

#[test]
fn propvariant_wrong_type_errors() {
    let v = PROPVARIANT::from_u32(3);
    let e = v.to_u64().unwrap_err();
    assert_eq!(e, PROPVARIANTConversionError::new(VARTYPE::VT_UI8, VARTYPE::VT_UI4));
    assert_eq!(e.expected(), VARTYPE::VT_UI8);
    assert_eq!(e.got(), VARTYPE::VT_UI4);
    assert_eq!(
        e.to_string(),
        "unexpected PROPVARIANT type: expected VT_UI8, got VT_UI4"
    );
    assert!(PROPVARIANT::default().to_bool().is_err());
    assert!(PROPVARIANT::from_i8(1).into_bstr().is_err());
    assert!(PROPVARIANT::from_i8(1).to_string().is_err());
}

#[test]
fn propvariant_try_from() {
    assert_eq!(u64::try_from(PROPVARIANT::from_u64(42)), Ok(42));
    assert_eq!(bool::try_from(PROPVARIANT::from_bool(true)), Ok(true));
    assert_eq!(
        i32::try_from(PROPVARIANT::from_i16(1)),
        Err(PROPVARIANTConversionError::new(VARTYPE::VT_I4, VARTYPE::VT_I2))
    );
}

#[test]
fn propvariant_bstr() {
    let b = BSTR::from_str("7z").unwrap();
    let v = PROPVARIANT::from_bstr(b);
    assert_eq!(v.vt(), VARTYPE::VT_BSTR);
    assert_eq!(v.to_string().unwrap(), "7z");
    let b2 = v.into_bstr().unwrap();
    assert_eq!(b2.as_slice(), &[0x37u16, 0x7Au16][..]);
}

#[test]
fn vartype_numbers_and_names() {
    assert_eq!(VARTYPE::VT_FILETIME.value(), 64);
    assert_eq!(VARTYPE::try_from_primitive(19), Ok(VARTYPE::VT_UI4));
    assert_eq!(VARTYPE::try_from_primitive(1), Err(1));
    assert_eq!(VARTYPE::VT_BSTR.to_string(), "VT_BSTR");
    assert_eq!(VARTYPE::default(), VARTYPE::VT_EMPTY);
}

#[test]
fn vt_bool_conversions() {
    assert_eq!(VT_BOOL::from(true), VT_BOOL::TRUE);
    assert_eq!(VT_BOOL::from(false), VT_BOOL::FALSE);
    assert!(bool::from(VT_BOOL::TRUE));
    assert!(!bool::from(VT_BOOL::FALSE));
    assert_eq!(VT_BOOL::TRUE.value(), -1);
    assert_eq!(VT_BOOL::FALSE.value(), 0);
}

#[test]
fn propvalue_converts_matching_tags() {
    assert!(matches!(PropValue::new(VARTYPE::VT_EMPTY, &PROPVARIANT::default()), Ok(PropValue::Empty)));
    assert!(matches!(PropValue::new(VARTYPE::VT_I2, &PROPVARIANT::from_i16(-4)), Ok(PropValue::I16(-4))));
    assert!(matches!(PropValue::new(VARTYPE::VT_UI8, &PROPVARIANT::from_u64(9)), Ok(PropValue::U64(9))));
    assert!(matches!(PropValue::new(VARTYPE::VT_BOOL, &PROPVARIANT::from_bool(true)), Ok(PropValue::Bool(true))));
    let code = HRESULT::E_FAIL().code() as u32 as u64;
    match PropValue::new(VARTYPE::VT_ERROR, &PROPVARIANT::from_raw(VARTYPE::VT_ERROR, code)) {
        Ok(PropValue::Error(h)) => assert_eq!(h, HRESULT::E_FAIL()),
        _ => panic!("expected an error code"),
    }
    let b = BSTR::from_str("name").unwrap();
    match PropValue::new(VARTYPE::VT_BSTR, &PROPVARIANT::from_bstr(b)) {
        Ok(PropValue::String(s)) => assert_eq!(s, "name"),
        _ => panic!("expected a string"),
    }
}

#[test]
fn propvalue_rejects_mismatch_and_int_tags() {
    match PropValue::new(VARTYPE::VT_I4, &PROPVARIANT::from_u32(1)) {
        Err(e) => {
            assert_eq!(e.expected(), VARTYPE::VT_UI4);
            assert_eq!(e.got(), VARTYPE::VT_I4);
        }
        Ok(_) => panic!("expected a mismatch"),
    }
    match PropValue::new(VARTYPE::VT_INT, &PROPVARIANT::from_raw(VARTYPE::VT_INT, 5)) {
        Err(e) => assert_eq!(e, PROPVARIANTConversionError::new(VARTYPE::VT_I4, VARTYPE::VT_INT)),
        Ok(_) => panic!("expected an error"),
    }
    match PropValue::new(VARTYPE::VT_UINT, &PROPVARIANT::from_raw(VARTYPE::VT_UINT, 5)) {
        Err(e) => assert_eq!(e, PROPVARIANTConversionError::new(VARTYPE::VT_UI4, VARTYPE::VT_UINT)),
        Ok(_) => panic!("expected an error"),
    }
}

#[test]
fn propvalue_filetime_becomes_unix_time() {
    let ticks: u64 = 116_444_736_000_000_000 + 15 * 10_000_000 + 1_234_567;
    let v = PROPVARIANT::from_filetime(FILETIME::from_u64(ticks));
    match PropValue::new(VARTYPE::VT_FILETIME, &v) {
        Ok(PropValue::FileTime(t)) => {
            assert_eq!(t.unix_seconds(), 15);
            assert_eq!(t.nanoseconds(), 123_456_700);
        }
        _ => panic!("expected a file time"),
    }
    let early = PROPVARIANT::from_filetime(FILETIME::from_u64(10));
    match PropValue::new(VARTYPE::VT_FILETIME, &early) {
        Ok(PropValue::FileTime(t)) => {
            assert_eq!(t.unix_seconds(), 0);
            assert_eq!(t.nanoseconds(), 1000);
        }
        _ => panic!("expected a file time"),
    }
}

#[test]
fn propvariant_from_abi() {
    let v = PROPVARIANT::from_abi(21, 77).unwrap();
    assert_eq!(v.vt(), VARTYPE::VT_UI8);
    assert_eq!(v.to_u64(), Ok(77));
    assert!(PROPVARIANT::from_abi(1, 0).is_none());
    assert!(PROPVARIANT::from_abi(8, 0).is_none());
    assert!(PROPVARIANT::from_abi(11, 1).is_none());
    assert_eq!(PROPVARIANT::from_abi(11, 0xFFFF).unwrap().to_bool(), Ok(true));
    assert_eq!(PROPVARIANT::from_abi(11, 0).unwrap().to_bool(), Ok(false));
}

#[test]
fn propvariant_bstr_access() {
    let v = PROPVARIANT::from_bstr(BSTR::from_units(vec![0x41, 0x42]));
    assert_eq!(v.bstr().unwrap().as_slice(), &[0x41u16, 0x42u16][..]);
    assert!(PROPVARIANT::from_u8(1).bstr().is_none());
    assert_eq!(v.to_string().unwrap(), "AB");
}
