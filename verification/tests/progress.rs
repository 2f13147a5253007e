use ip7z::FFIError;
use ip7z::IArchive::{NFileTimeType, NUpdateNotifyOp, OpenStatus};
use ip7z::ICoder::{CoderPropID, CompressProgressInfo, MethodPropID, RatioInfo};
use ip7z::IProgress::Progress;
use ip7z::handlers::LZMAHandler;
use ip7z::win_ffi::{HRESULT, PROPVARIANTConversionError, VARTYPE};

#[test]
fn progress_records_status() {
    let mut p = Progress::new();
    assert_eq!(p.SetTotal(100), HRESULT::S_OK());
    assert_eq!(p.SetCompleted(40), HRESULT::S_OK());
    assert_eq!(p.status().total(), 100);
    assert_eq!(p.status().completed(), 40);
    p.SetTotal(7);
    assert_eq!(p.status().completed(), 40);
}

#[test]
fn open_status_keeps_unreported_counts() {
    let mut s = OpenStatus::default();
    assert_eq!(s.SetTotal(Some(3), Some(1000)), HRESULT::S_OK());
    s.SetCompleted(None, Some(10));
    s.SetTotal(None, Some(2000));
    assert_eq!(s.total_files(), 3);
    assert_eq!(s.total_bytes(), 2000);
    assert_eq!(s.completed_files(), 0);
    assert_eq!(s.completed_bytes(), 10);
}

#[test]
fn compress_progress_records_ratio() {
    let mut c = CompressProgressInfo::new();
    assert_eq!(c.SetRatioInfo(10, 4), HRESULT::S_OK());
    assert_eq!(c.ratio_info, RatioInfo { in_size: 10, out_size: 4 });
    assert_eq!(RatioInfo::default(), RatioInfo { in_size: 0, out_size: 0 });
}

#[test]
fn property_id_values() {
    assert_eq!(CoderPropID::kDefaultProp.value(), 0);
    assert_eq!(CoderPropID::kAffinityInGroup.value(), 27);
    assert_eq!(CoderPropID::kNumThreads.get_abi(), 13);
    assert_eq!(MethodPropID::kEncoderIsAssigned.get_abi(), 8);
    assert_eq!(NFileTimeType::KNotDefined.value(), u32::MAX);
    assert_eq!(NFileTimeType::K1ns.value(), 3);
    assert_eq!(NUpdateNotifyOp::kInFileChanged.get_abi(), 9);
}

#[test]
fn ffi_error_wraps() {
    let e = FFIError::from(HRESULT::E_ABORT());
    assert_eq!(e, FFIError::HResultError(HRESULT::E_ABORT()));
    assert_eq!(e.to_string(), "E_ABORT: 0x2147500036");
    let c = PROPVARIANTConversionError::new(VARTYPE::VT_I4, VARTYPE::VT_EMPTY);
    let e2 = FFIError::from(c);
    assert_eq!(e2.to_string(), "unexpected PROPVARIANT type: expected VT_I4, got VT_EMPTY");
    let _ = LZMAHandler::new();
}
