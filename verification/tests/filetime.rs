use ip7z::win_ffi::FILETIME;

#[test]
fn filetime_u64_conversions() {
    let ft = FILETIME { dwLowDateTime: 1, dwHighDateTime: 2 };
    assert_eq!(ft.to_u64(), 8589934593);
    assert_eq!(u64::from(ft), 8589934593);
    let back = FILETIME::from_u64(8589934593);
    assert_eq!(back, ft);
    assert_eq!(FILETIME::from(8589934593u64), ft);
    assert_eq!(FILETIME::from_u64(u64::MAX).to_u64(), u64::MAX);
    assert_eq!(FILETIME::default().to_u64(), 0);
}

#[test]
fn filetime_add_units() {
    let ft = FILETIME::from_u64(1_000_000_000);
    assert_eq!(ft.add_ms(1).to_u64(), 1_000_010_000);
    assert_eq!(ft.add_secs(1).to_u64(), 1_010_000_000);
    assert_eq!(ft.add_mins(1).to_u64(), 1_000_000_000 + 600_000_000);
    assert_eq!(ft.add_hours(1).to_u64(), 1_000_000_000 + 36_000_000_000);
    assert_eq!(ft.add_days(1).to_u64(), 1_000_000_000 + 864_000_000_000);
    assert_eq!(ft.add_ms(0), ft);
}

#[test]
fn filetime_add_negative_wraps() {
    let ft = FILETIME::from_u64(5);
    assert_eq!(ft.add_ms(-1).to_u64(), 18446744073709541621);
    assert_eq!(ft.add_ms(-1).add_ms(1), ft);
}

#[test]
fn filetime_add_composes() {
    let ft = FILETIME::from_u64(123_456_789);
    assert_eq!(ft.add_ms(250).add_ms(750), ft.add_ms(1000));
    assert_eq!(ft.add_secs(1), ft.add_ms(1000));
    assert_eq!(ft.add_days(2).add_hours(-48), ft);
}
