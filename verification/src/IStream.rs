use vstd::prelude::*;

use crate::win_ffi::HRESULT;
use crate::win_ffi::HrResult;
use crate::win_ffi::hresult::code_of_u32;

verus! {

/// The origin of a stream seek, as 7-Zip passes it.
#[derive(Debug, Clone, Copy, PartialEq, Eq, Structural)]
pub enum STREAM_SEEK {
    SET,
    CUR,
    END,
}

/// A seek target: an absolute position, or an offset from the end or from
/// the current position (the same shape as `std::io::SeekFrom`).
#[derive(Debug, Clone, Copy, PartialEq, Eq, Structural)]
pub enum SeekFrom {
    Start(u64),
    End(i64),
    Current(i64),
}

impl STREAM_SEEK {
    /// The numeric origin.
    pub open spec fn spec_value(self) -> u32 {
        match self {
            STREAM_SEEK::SET => 0,
            STREAM_SEEK::CUR => 1,
            STREAM_SEEK::END => 2,
        }
    }

    /// The numeric origin.
    pub fn value(self) -> (r: u32)
        ensures
            r == self.spec_value(),
    {
        match self {
            STREAM_SEEK::SET => 0,
            STREAM_SEEK::CUR => 1,
            STREAM_SEEK::END => 2,
        }
    }

    /// The origin with numeric value `value`, if there is one.
    pub fn from_repr(value: u32) -> (r: Option<STREAM_SEEK>)
        ensures
            match r {
                Some(s) => s.spec_value() == value,
                None => value > 2,
            },
    {
        match value {
            0 => Some(STREAM_SEEK::SET),
            1 => Some(STREAM_SEEK::CUR),
            2 => Some(STREAM_SEEK::END),
            _ => None,
        }
    }

    pub open spec fn spec_with_offset(self, offset: i64) -> HrResult<SeekFrom> {
        match self {
            STREAM_SEEK::SET => if offset < 0 {
                Err(HRESULT(code_of_u32(0x80070057)))
            } else {
                Ok(SeekFrom::Start(offset as u64))
            },
            STREAM_SEEK::END => Ok(SeekFrom::End(offset)),
            STREAM_SEEK::CUR => Ok(SeekFrom::Current(offset)),
        }
    }

    /// The seek target `offset` bytes from this origin; a negative offset
    /// from the start is `E_INVALIDARG`.
    pub fn with_offset(self, offset: i64) -> (r: HrResult<SeekFrom>)
        ensures
            r == self.spec_with_offset(offset),
    {
        match self {
            STREAM_SEEK::SET => {
                if offset < 0 {
                    Err(HRESULT::E_INVALIDARG())
                } else {
                    Ok(SeekFrom::Start(offset as u64))
                }
            },
            STREAM_SEEK::END => Ok(SeekFrom::End(offset)),
            STREAM_SEEK::CUR => Ok(SeekFrom::Current(offset)),
        }
    }
}

impl TryFrom<u32> for STREAM_SEEK {
    type Error = HRESULT;

    fn try_from(value: u32) -> (r: Result<STREAM_SEEK, HRESULT>) {
        match Self::from_repr(value) {
            Some(s) => Ok(s),
            None => Err(HRESULT::E_INVALIDARG()),
        }
    }
}

impl vstd::std_specs::convert::TryFromSpecImpl<u32> for STREAM_SEEK {
    open spec fn obeys_try_from_spec() -> bool {
        true
    }

    open spec fn try_from_spec(value: u32) -> Result<STREAM_SEEK, HRESULT> {
        if value == 0 {
            Ok(STREAM_SEEK::SET)
        } else if value == 1 {
            Ok(STREAM_SEEK::CUR)
        } else if value == 2 {
            Ok(STREAM_SEEK::END)
        } else {
            Err(HRESULT(code_of_u32(0x80070057)))
        }
    }
}

/// The seek target for a stream `Seek(offset, seek_origin)` call: an
/// unknown origin or a negative offset from the start is `E_INVALIDARG`.
pub fn seek_target(offset: i64, seek_origin: u32) -> (r: HrResult<SeekFrom>)
    ensures
        match <STREAM_SEEK as vstd::std_specs::convert::TryFromSpec<u32>>::try_from_spec(seek_origin) {
            Err(e) => r == Err::<SeekFrom, HRESULT>(e),
            Ok(s) => r == s.spec_with_offset(offset),
        },
{
    let seek = match STREAM_SEEK::try_from(seek_origin) {
        Err(e) => return Err(e),
        Ok(v) => v,
    };
    seek.with_offset(offset)
}

/// Every numeric origin that names an origin converts back to it.
pub proof fn lemma_origin_round_trip(s: STREAM_SEEK)
    ensures
        <STREAM_SEEK as vstd::std_specs::convert::TryFromSpec<u32>>::try_from_spec(s.spec_value())
            == Ok::<STREAM_SEEK, HRESULT>(s),
{
}

/// Translating a seek: from the start, every offset that is not negative is
/// accepted and targets exactly that byte position, and only a negative
/// offset is refused with `E_INVALIDARG`; from the current position or the
/// end every offset is passed on unchanged; the origins are numbered 0
/// (start), 1 (current) and 2 (end), and any other number is refused with
/// `E_INVALIDARG`.
pub proof fn lemma_seek_translation(offset: i64, origin: u32)
    ensures
        offset >= 0 ==> (STREAM_SEEK::SET.spec_with_offset(offset) matches Ok(SeekFrom::Start(p))
            && p as int == offset as int),
        offset < 0 ==> STREAM_SEEK::SET.spec_with_offset(offset)
            == Err::<SeekFrom, HRESULT>(HRESULT(code_of_u32(0x80070057))),
        STREAM_SEEK::CUR.spec_with_offset(offset) == Ok::<SeekFrom, HRESULT>(SeekFrom::Current(offset)),
        STREAM_SEEK::END.spec_with_offset(offset) == Ok::<SeekFrom, HRESULT>(SeekFrom::End(offset)),
        origin == 0 ==> <STREAM_SEEK as vstd::std_specs::convert::TryFromSpec<u32>>::try_from_spec(origin)
            == Ok::<STREAM_SEEK, HRESULT>(STREAM_SEEK::SET),
        origin == 1 ==> <STREAM_SEEK as vstd::std_specs::convert::TryFromSpec<u32>>::try_from_spec(origin)
            == Ok::<STREAM_SEEK, HRESULT>(STREAM_SEEK::CUR),
        origin == 2 ==> <STREAM_SEEK as vstd::std_specs::convert::TryFromSpec<u32>>::try_from_spec(origin)
            == Ok::<STREAM_SEEK, HRESULT>(STREAM_SEEK::END),
        origin > 2 ==> <STREAM_SEEK as vstd::std_specs::convert::TryFromSpec<u32>>::try_from_spec(origin)
            == Err::<STREAM_SEEK, HRESULT>(HRESULT(code_of_u32(0x80070057))),
{
}

} // verus!
