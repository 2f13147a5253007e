use vstd::prelude::*;

use crate::win_ffi::FILETIME;
use crate::win_ffi::HRESULT;
use crate::win_ffi::PROPVARIANT;
use crate::win_ffi::PROPVARIANTConversionError;
use crate::win_ffi::VARTYPE;
use crate::win_ffi::bstr::utf16_lossy;
use crate::win_ffi::propvariant::bits_bool;
use crate::win_ffi::propvariant::bits_filetime;
use crate::win_ffi::propvariant::bits_i16;
use crate::win_ffi::propvariant::bits_i32;
use crate::win_ffi::propvariant::bits_i64;
use crate::win_ffi::propvariant::bits_i8;

verus! {

#[verifier::external_type_specification]
#[verifier::external_body]
pub struct ExFileTime(filetime::FileTime);

/// Name for the timestamp that `filetime::FileTime::from_unix_time` builds
/// from a count of seconds and nanoseconds since the Unix epoch.
pub uninterp spec fn unix_file_time(seconds: i64, nanos: u32) -> filetime::FileTime;

/// `filetime::FileTime::from_unix_time`. The source shows a pure
/// constructor: the result is determined by its two arguments (on Windows
/// the constructor adds the 1601-to-1970 offset to the seconds, hence the
/// bound on `seconds`).
#[verifier::external_body]
fn file_time_from_unix(seconds: i64, nanos: u32) -> (r: filetime::FileTime)
    requires
        seconds <= i64::MAX - 11_644_473_600,
    ensures
        r == unix_file_time(seconds, nanos),
{
    filetime::FileTime::from_unix_time(seconds, nanos)
}

/// Seconds from 1601-01-01 (the `FILETIME` epoch) to 1970-01-01.
pub open spec fn epoch_diff() -> int {
    11_644_473_600
}

/// Whole seconds since the Unix epoch of a count of 100-nanosecond ticks
/// since 1601, clamped at zero for earlier times.
pub open spec fn unix_seconds_of(ticks: int) -> int {
    if ticks / 10_000_000 >= epoch_diff() {
        ticks / 10_000_000 - epoch_diff()
    } else {
        0
    }
}

/// The nanoseconds within the second of a count of 100-nanosecond ticks.
pub open spec fn unix_nanos_of(ticks: int) -> int {
    (ticks % 10_000_000) * 100
}

/// A `PROPVARIANT` value checked against its expected type and converted to
/// the matching Rust type.
pub enum PropValue {
    Empty,
    I16(i16),
    I32(i32),
    String(String),
    Error(HRESULT),
    Bool(bool),
    I8(i8),
    U8(u8),
    U16(u16),
    U32(u32),
    I64(i64),
    U64(u64),
    Int(i32),
    UInt(u32),
    FileTime(filetime::FileTime),
}

/// The conversion error for needing `expected` and finding `got`.
pub open spec fn conversion_failed(
    r: Result<PropValue, PROPVARIANTConversionError>,
    expected: VARTYPE,
    got: VARTYPE,
) -> bool {
    r matches Err(e) && e.spec_expected() == expected && e.spec_got() == got
}

/// Seconds from 1601-01-01 to 1970-01-01.
const EPOCH_DIFF: u64 = 11_644_473_600;

/// 100-nanosecond ticks per second.
const SEC_100_NS: u64 = 10_000_000;

/// The unix timestamp that a `FILETIME` count stands for.
fn unix_time_of(ft: FILETIME) -> (r: (i64, u32))
    ensures
        r.0 == unix_seconds_of(ft.value()),
        r.1 == unix_nanos_of(ft.value()),
{
    let win_ft = ft.to_u64();
    let whole = win_ft / SEC_100_NS;
    assert(whole <= 0xFFFF_FFFF_FFFF_FFFFu64 / 10_000_000);
    let unix_secs = whole.saturating_sub(EPOCH_DIFF) as i64;
    let nanosecs = ((win_ft % SEC_100_NS) * 100) as u32;
    (unix_secs, nanosecs)
}

impl PropValue {
    /// Converts `pv`, which must carry tag `vt`.
    ///
    /// A tag other than `vt` gives an error whose `expected` is the tag that
    /// `pv` carries and whose `got` is `vt`. `VT_INT` and `VT_UINT` values
    /// are read with the `i32` and `u32` conversions, which accept only
    /// `VT_I4` and `VT_UI4`, so they give errors. A `VT_FILETIME` value
    /// becomes the Unix timestamp of the same instant (clamped at the Unix
    /// epoch).
    pub fn new(vt: VARTYPE, pv: &PROPVARIANT) -> (r: Result<PropValue, PROPVARIANTConversionError>)
        ensures
            vt != pv.spec_vt() ==> conversion_failed(r, pv.spec_vt(), vt),
            vt == pv.spec_vt() ==> match vt {
                VARTYPE::VT_EMPTY => r == Ok::<PropValue, PROPVARIANTConversionError>(PropValue::Empty),
                VARTYPE::VT_I2 => r == Ok::<PropValue, PROPVARIANTConversionError>(PropValue::I16(bits_i16(pv.spec_bits()))),
                VARTYPE::VT_I4 => r == Ok::<PropValue, PROPVARIANTConversionError>(PropValue::I32(bits_i32(pv.spec_bits()))),
                VARTYPE::VT_BSTR => r matches Ok(PropValue::String(s)) && s@ == utf16_lossy(pv.spec_units()),
                VARTYPE::VT_ERROR => r == Ok::<PropValue, PROPVARIANTConversionError>(PropValue::Error(HRESULT(bits_i32(pv.spec_bits())))),
                VARTYPE::VT_BOOL => r == Ok::<PropValue, PROPVARIANTConversionError>(PropValue::Bool(bits_bool(pv.spec_bits()))),
                VARTYPE::VT_I1 => r == Ok::<PropValue, PROPVARIANTConversionError>(PropValue::I8(bits_i8(pv.spec_bits()))),
                VARTYPE::VT_UI1 => r == Ok::<PropValue, PROPVARIANTConversionError>(PropValue::U8(pv.spec_bits() as u8)),
                VARTYPE::VT_UI2 => r == Ok::<PropValue, PROPVARIANTConversionError>(PropValue::U16(pv.spec_bits() as u16)),
                VARTYPE::VT_UI4 => r == Ok::<PropValue, PROPVARIANTConversionError>(PropValue::U32(pv.spec_bits() as u32)),
                VARTYPE::VT_I8 => r == Ok::<PropValue, PROPVARIANTConversionError>(PropValue::I64(bits_i64(pv.spec_bits()))),
                VARTYPE::VT_UI8 => r == Ok::<PropValue, PROPVARIANTConversionError>(PropValue::U64(pv.spec_bits())),
                VARTYPE::VT_INT => conversion_failed(r, VARTYPE::VT_I4, VARTYPE::VT_INT),
                VARTYPE::VT_UINT => conversion_failed(r, VARTYPE::VT_UI4, VARTYPE::VT_UINT),
                VARTYPE::VT_FILETIME => r == Ok::<PropValue, PROPVARIANTConversionError>(PropValue::FileTime(
                    unix_file_time(
                        unix_seconds_of(bits_filetime(pv.spec_bits()).value()) as i64,
                        unix_nanos_of(bits_filetime(pv.spec_bits()).value()) as u32,
                    ),
                )),
            },
    {
        if vt != pv.vt() {
            return Err(PROPVARIANTConversionError::new(pv.vt(), vt));
        }
        let v = match vt {
            VARTYPE::VT_EMPTY => PropValue::Empty,
            VARTYPE::VT_I2 => PropValue::I16(pv.to_i16()?),
            VARTYPE::VT_I4 => PropValue::I32(pv.to_i32()?),
            VARTYPE::VT_BSTR => PropValue::String(pv.to_string()?),
            VARTYPE::VT_ERROR => PropValue::Error(pv.to_hresult()?),
            VARTYPE::VT_BOOL => PropValue::Bool(pv.to_bool()?),
            VARTYPE::VT_I1 => PropValue::I8(pv.to_i8()?),
            VARTYPE::VT_UI1 => PropValue::U8(pv.to_u8()?),
            VARTYPE::VT_UI2 => PropValue::U16(pv.to_u16()?),
            VARTYPE::VT_UI4 => PropValue::U32(pv.to_u32()?),
            VARTYPE::VT_I8 => PropValue::I64(pv.to_i64()?),
            VARTYPE::VT_UI8 => PropValue::U64(pv.to_u64()?),
            VARTYPE::VT_INT => PropValue::Int(pv.to_i32()?),
            VARTYPE::VT_UINT => PropValue::UInt(pv.to_u32()?),
            VARTYPE::VT_FILETIME => {
                let (unix_secs, nanosecs) = unix_time_of(pv.to_filetime()?);
                PropValue::FileTime(file_time_from_unix(unix_secs, nanosecs))
            },
        };
        Ok(v)
    }
}

/// A `FILETIME` count at or after the Unix epoch converts to a Unix time that
/// stands for the same instant: the whole seconds since 1970 and the
/// nanoseconds within that second add up, in 100-nanosecond ticks, to the
/// ticks since 1601 less the ticks from 1601 to 1970; the nanoseconds are a
/// whole number of ticks below one second. A count before the epoch converts
/// to second zero.
pub proof fn lemma_unix_time_same_instant(ticks: int)
    requires
        0 <= ticks,
    ensures
        ticks >= 116_444_736_000_000_000 ==> unix_seconds_of(ticks) * 10_000_000 + unix_nanos_of(ticks) / 100
            == ticks - 116_444_736_000_000_000,
        0 <= unix_nanos_of(ticks) < 1_000_000_000,
        unix_nanos_of(ticks) % 100 == 0,
        ticks < 116_444_736_000_000_000 ==> unix_seconds_of(ticks) == 0,
{
    let q = ticks / 10_000_000;
    let r = ticks % 10_000_000;
    assert(ticks == q * 10_000_000 + r && 0 <= r < 10_000_000) by (nonlinear_arith)
        requires
            q == ticks / 10_000_000,
            r == ticks % 10_000_000,
            0 <= ticks,
    ;
    assert((r * 100) / 100 == r && (r * 100) % 100 == 0) by (nonlinear_arith)
        requires
            0 <= r,
    ;
    if ticks >= 116_444_736_000_000_000 {
        assert(q >= 11_644_473_600) by (nonlinear_arith)
            requires
                ticks == q * 10_000_000 + r,
                r < 10_000_000,
                ticks >= 116_444_736_000_000_000,
        ;
    } else {
        assert(q < 11_644_473_600) by (nonlinear_arith)
            requires
                ticks == q * 10_000_000 + r,
                0 <= r,
                ticks < 116_444_736_000_000_000,
        ;
    }
}

} // verus!
