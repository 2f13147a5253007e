use ip7z::IStream::{seek_target, SeekFrom, STREAM_SEEK};
use ip7z::win_ffi::HRESULT;

#[test]
fn stream_seek_origins() {
    assert_eq!(STREAM_SEEK::try_from(0u32), Ok(STREAM_SEEK::SET));
    assert_eq!(STREAM_SEEK::try_from(1u32), Ok(STREAM_SEEK::CUR));
    assert_eq!(STREAM_SEEK::try_from(2u32), Ok(STREAM_SEEK::END));
    assert_eq!(STREAM_SEEK::try_from(3u32), Err(HRESULT::E_INVALIDARG()));
    assert_eq!(STREAM_SEEK::from_repr(7), None);
    assert_eq!(STREAM_SEEK::END.value(), 2);
}

#[test]
fn stream_seek_offsets() {
    assert_eq!(STREAM_SEEK::SET.with_offset(10), Ok(SeekFrom::Start(10)));
    assert_eq!(STREAM_SEEK::SET.with_offset(-1), Err(HRESULT::E_INVALIDARG()));
    assert_eq!(STREAM_SEEK::CUR.with_offset(-1), Ok(SeekFrom::Current(-1)));
    assert_eq!(STREAM_SEEK::END.with_offset(-8), Ok(SeekFrom::End(-8)));
}

#[test]
fn stream_seek_targets() {
    assert_eq!(seek_target(5, 0), Ok(SeekFrom::Start(5)));
    assert_eq!(seek_target(-5, 2), Ok(SeekFrom::End(-5)));
    assert_eq!(seek_target(-5, 0), Err(HRESULT::E_INVALIDARG()));
    assert_eq!(seek_target(0, 9), Err(HRESULT::E_INVALIDARG()));
}
