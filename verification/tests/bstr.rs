use ip7z::win_ffi::BSTR;
use ip7z::win_ffi::HRESULT;

#[test]
fn bstr_round_trip() {
    let str = "hello!";
    let bstr = BSTR::from_str(str).unwrap();
    assert!(bstr.len() == 6);
    assert!(bstr.len() as usize == str.len());
    let string2 = bstr.to_string();
    let str2 = string2.as_str();
    assert!(str == str2);
    drop(bstr);

    let empty = BSTR::default();
    assert!(empty.len() == 0);
    drop(empty);
}

#[test]
fn bstr_truncates_chars_above_bmp() {
    // U+1F600 keeps only its low 16 bits, 0xF600.
    let b = BSTR::from_str("a\u{1F600}").unwrap();
    assert_eq!(b.as_slice(), &[0x61u16, 0xF600u16][..]);
}

#[test]
fn bstr_unpaired_surrogate_is_replaced() {
    let mut b = BSTR::from_str("ab").unwrap();
    let mut units = b.leak().unwrap();
    assert!(b.as_slice().is_empty());
    units[1] = 0xD800;
    let s = String::from_utf16_lossy(&units);
    assert_eq!(s, "a\u{FFFD}");
}

#[test]
fn bstr_clone_of_null_is_empty() {
    let null = BSTR::default();
    let c = null.clone();
    assert_eq!(c.len(), 0);
    assert_eq!(c.to_string(), "");
}

#[test]
fn bstr_from_str_ok() {
    assert!(BSTR::from_str("").is_ok());
    let _ = HRESULT::E_INVALIDARG();
}
