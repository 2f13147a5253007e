use vstd::prelude::*;
use vstd::string::StringExecFns;

use crate::ffi::PROPID;
use crate::ffi::wchar;
use crate::win_ffi::BSTR;
use crate::win_ffi::FILETIME;
use crate::win_ffi::HRESULT;
use crate::win_ffi::bstr::is_surrogate;
use crate::win_ffi::bstr::units_as_chars;
use crate::win_ffi::bstr::utf16_lossy;

verus! {

/// Describes one property: its name, id and value type.
pub struct STATPROPSTG {
    lpwstrName: Option<Vec<wchar>>,
    propid: PROPID,
    vt: VARTYPE,
}

/// The value type tags of a `PROPVARIANT` that 7-Zip uses.
#[derive(Debug, PartialEq, Eq, Structural, Clone, Copy)]
pub enum VARTYPE {
    VT_EMPTY,
    VT_I2,
    VT_I4,
    VT_BSTR,
    VT_ERROR,
    VT_BOOL,
    VT_I1,
    VT_UI1,
    VT_UI2,
    VT_UI4,
    VT_I8,
    VT_UI8,
    VT_INT,
    VT_UINT,
    VT_FILETIME,
}

impl VARTYPE {
    /// The numeric tag.
    pub open spec fn spec_value(self) -> u16 {
        match self {
            VARTYPE::VT_EMPTY => 0,
            VARTYPE::VT_I2 => 2,
            VARTYPE::VT_I4 => 3,
            VARTYPE::VT_BSTR => 8,
            VARTYPE::VT_ERROR => 10,
            VARTYPE::VT_BOOL => 11,
            VARTYPE::VT_I1 => 16,
            VARTYPE::VT_UI1 => 17,
            VARTYPE::VT_UI2 => 18,
            VARTYPE::VT_UI4 => 19,
            VARTYPE::VT_I8 => 20,
            VARTYPE::VT_UI8 => 21,
            VARTYPE::VT_INT => 22,
            VARTYPE::VT_UINT => 23,
            VARTYPE::VT_FILETIME => 64,
        }
    }

    /// The numeric tag.
    pub fn value(self) -> (r: u16)
        ensures
            r == self.spec_value(),
    {
        match self {
            VARTYPE::VT_EMPTY => 0,
            VARTYPE::VT_I2 => 2,
            VARTYPE::VT_I4 => 3,
            VARTYPE::VT_BSTR => 8,
            VARTYPE::VT_ERROR => 10,
            VARTYPE::VT_BOOL => 11,
            VARTYPE::VT_I1 => 16,
            VARTYPE::VT_UI1 => 17,
            VARTYPE::VT_UI2 => 18,
            VARTYPE::VT_UI4 => 19,
            VARTYPE::VT_I8 => 20,
            VARTYPE::VT_UI8 => 21,
            VARTYPE::VT_INT => 22,
            VARTYPE::VT_UINT => 23,
            VARTYPE::VT_FILETIME => 64,
        }
    }

    /// The tag with numeric value `v`, or `v` itself as the error when no
    /// tag has that value.
    pub fn try_from_primitive(v: u16) -> (r: Result<VARTYPE, u16>)
        ensures
            match r {
                Ok(t) => t.spec_value() == v,
                Err(e) => e == v && forall|t: VARTYPE| t.spec_value() != v,
            },
    {
        match v {
            0 => Ok(VARTYPE::VT_EMPTY),
            2 => Ok(VARTYPE::VT_I2),
            3 => Ok(VARTYPE::VT_I4),
            8 => Ok(VARTYPE::VT_BSTR),
            10 => Ok(VARTYPE::VT_ERROR),
            11 => Ok(VARTYPE::VT_BOOL),
            16 => Ok(VARTYPE::VT_I1),
            17 => Ok(VARTYPE::VT_UI1),
            18 => Ok(VARTYPE::VT_UI2),
            19 => Ok(VARTYPE::VT_UI4),
            20 => Ok(VARTYPE::VT_I8),
            21 => Ok(VARTYPE::VT_UI8),
            22 => Ok(VARTYPE::VT_INT),
            23 => Ok(VARTYPE::VT_UINT),
            64 => Ok(VARTYPE::VT_FILETIME),
            _ => Err(v),
        }
    }

    /// The tag's name, such as `"VT_I4"`.
    pub open spec fn spec_name(self) -> Seq<char> {
        match self {
            VARTYPE::VT_EMPTY => "VT_EMPTY"@,
            VARTYPE::VT_I2 => "VT_I2"@,
            VARTYPE::VT_I4 => "VT_I4"@,
            VARTYPE::VT_BSTR => "VT_BSTR"@,
            VARTYPE::VT_ERROR => "VT_ERROR"@,
            VARTYPE::VT_BOOL => "VT_BOOL"@,
            VARTYPE::VT_I1 => "VT_I1"@,
            VARTYPE::VT_UI1 => "VT_UI1"@,
            VARTYPE::VT_UI2 => "VT_UI2"@,
            VARTYPE::VT_UI4 => "VT_UI4"@,
            VARTYPE::VT_I8 => "VT_I8"@,
            VARTYPE::VT_UI8 => "VT_UI8"@,
            VARTYPE::VT_INT => "VT_INT"@,
            VARTYPE::VT_UINT => "VT_UINT"@,
            VARTYPE::VT_FILETIME => "VT_FILETIME"@,
        }
    }

    /// The tag's name, such as `"VT_I4"`.
    pub fn to_string(&self) -> (r: String)
        ensures
            r@ == self.spec_name(),
    {
        match self {
            VARTYPE::VT_EMPTY => String::from_str("VT_EMPTY"),
            VARTYPE::VT_I2 => String::from_str("VT_I2"),
            VARTYPE::VT_I4 => String::from_str("VT_I4"),
            VARTYPE::VT_BSTR => String::from_str("VT_BSTR"),
            VARTYPE::VT_ERROR => String::from_str("VT_ERROR"),
            VARTYPE::VT_BOOL => String::from_str("VT_BOOL"),
            VARTYPE::VT_I1 => String::from_str("VT_I1"),
            VARTYPE::VT_UI1 => String::from_str("VT_UI1"),
            VARTYPE::VT_UI2 => String::from_str("VT_UI2"),
            VARTYPE::VT_UI4 => String::from_str("VT_UI4"),
            VARTYPE::VT_I8 => String::from_str("VT_I8"),
            VARTYPE::VT_UI8 => String::from_str("VT_UI8"),
            VARTYPE::VT_INT => String::from_str("VT_INT"),
            VARTYPE::VT_UINT => String::from_str("VT_UINT"),
            VARTYPE::VT_FILETIME => String::from_str("VT_FILETIME"),
        }
    }
}

impl Default for VARTYPE {
    fn default() -> (r: VARTYPE)
        ensures
            r == VARTYPE::VT_EMPTY,
    {
        VARTYPE::VT_EMPTY
    }
}

/// Tag values are distinct: the numeric tag determines the `VARTYPE`.
pub proof fn lemma_vartype_value_injective(a: VARTYPE, b: VARTYPE)
    requires
        a.spec_value() == b.spec_value(),
    ensures
        a == b,
{
}

/// The variant Boolean: `TRUE` is all bits set (-1), `FALSE` is zero.
#[derive(Debug, PartialEq, Eq, Structural, Clone, Copy)]
pub enum VT_BOOL {
    TRUE,
    FALSE,
}

impl VT_BOOL {
    pub open spec fn spec_value(self) -> i16 {
        match self {
            VT_BOOL::TRUE => -1i16,
            VT_BOOL::FALSE => 0,
        }
    }

    /// The 16-bit representation.
    pub fn value(self) -> (r: i16)
        ensures
            r == self.spec_value(),
    {
        match self {
            VT_BOOL::TRUE => -1i16,
            VT_BOOL::FALSE => 0,
        }
    }
}

impl From<bool> for VT_BOOL {
    fn from(value: bool) -> (r: VT_BOOL) {
        match value {
            true => VT_BOOL::TRUE,
            false => VT_BOOL::FALSE,
        }
    }
}

impl vstd::std_specs::convert::FromSpecImpl<bool> for VT_BOOL {
    open spec fn obeys_from_spec() -> bool {
        true
    }

    open spec fn from_spec(value: bool) -> VT_BOOL {
        if value {
            VT_BOOL::TRUE
        } else {
            VT_BOOL::FALSE
        }
    }
}

impl From<VT_BOOL> for bool {
    fn from(value: VT_BOOL) -> (r: bool) {
        match value {
            VT_BOOL::FALSE => false,
            VT_BOOL::TRUE => true,
        }
    }
}

impl vstd::std_specs::convert::FromSpecImpl<VT_BOOL> for bool {
    open spec fn obeys_from_spec() -> bool {
        true
    }

    open spec fn from_spec(value: VT_BOOL) -> bool {
        value == VT_BOOL::TRUE
    }
}

/// A conversion out of a `PROPVARIANT` found a tag other than the one it
/// needs.
#[derive(Debug, PartialEq, Eq, Structural, Clone, Copy)]
pub struct PROPVARIANTConversionError {
    expected: VARTYPE,
    got: VARTYPE,
}

impl PROPVARIANTConversionError {
    pub closed spec fn spec_expected(self) -> VARTYPE {
        self.expected
    }

    pub closed spec fn spec_got(self) -> VARTYPE {
        self.got
    }

    /// The error for a conversion that needed `expected` and found `got`.
    pub closed spec fn spec_new(expected: VARTYPE, got: VARTYPE) -> Self {
        PROPVARIANTConversionError { expected: expected, got: got }
    }

    pub fn new(expected: VARTYPE, got: VARTYPE) -> (r: Self)
        ensures
            r == Self::spec_new(expected, got),
            r.spec_expected() == expected,
            r.spec_got() == got,
    {
        PROPVARIANTConversionError { expected: expected, got: got }
    }

    /// The tag the conversion needed.
    pub fn expected(&self) -> (r: VARTYPE)
        ensures
            r == self.spec_expected(),
    {
        self.expected
    }

    /// The tag the value had.
    pub fn got(&self) -> (r: VARTYPE)
        ensures
            r == self.spec_got(),
    {
        self.got
    }

    /// The message `unexpected PROPVARIANT type: expected <tag>, got <tag>`.
    pub fn to_string(&self) -> (r: String)
        ensures
            r@ == "unexpected PROPVARIANT type: expected "@ + self.spec_expected().spec_name()
                + ", got "@ + self.spec_got().spec_name(),
    {
        let mut s = String::from_str("unexpected PROPVARIANT type: expected ");
        let e = self.expected.to_string();
        s.append(e.as_str());
        s.append(", got ");
        let g = self.got.to_string();
        s.append(g.as_str());
        s
    }
}


/// The 16-bit word of a `VT_BOOL` value is either all ones or all zeros.
pub open spec fn valid_bool_bits(bits: u64) -> bool {
    (bits as u16) == 0xFFFFu16 || (bits as u16) == 0u16
}

// How each value type is laid out in the 64-bit data word (little-endian:
// narrower values take the low bytes).

pub open spec fn i8_bits(v: i8) -> u64 {
    (v as u8) as u64
}

pub open spec fn bits_i8(b: u64) -> i8 {
    (b as u8) as i8
}

pub open spec fn i16_bits(v: i16) -> u64 {
    (v as u16) as u64
}

pub open spec fn bits_i16(b: u64) -> i16 {
    (b as u16) as i16
}

pub open spec fn i32_bits(v: i32) -> u64 {
    (v as u32) as u64
}

pub open spec fn bits_i32(b: u64) -> i32 {
    (b as u32) as i32
}

pub open spec fn i64_bits(v: i64) -> u64 {
    v as u64
}

pub open spec fn bits_i64(b: u64) -> i64 {
    b as i64
}

pub open spec fn bool_bits(v: bool) -> u64 {
    if v {
        0xFFFF
    } else {
        0
    }
}

pub open spec fn bits_bool(b: u64) -> bool {
    (b as u16) == 0xFFFFu16
}

pub open spec fn filetime_bits(v: FILETIME) -> u64 {
    v.value() as u64
}

pub open spec fn bits_filetime(b: u64) -> FILETIME {
    FILETIME::of_value(b as int)
}

/// The payload of a `PROPVARIANT`: a 64-bit data word for the scalar
/// types, or the owned string for `VT_BSTR`.
pub enum PropVariantData {
    Bits(u64),
    Bstr(BSTR),
}

/// A tagged value passed across the 7-Zip ABI.
///
/// Invariant: the payload is a string exactly when the tag is `VT_BSTR`,
/// and a `VT_BOOL` word is all ones or all zeros.
pub struct PROPVARIANT {
    vt: VARTYPE,
    data: PropVariantData,
}

impl PROPVARIANT {
    #[verifier::type_invariant]
    closed spec fn well_formed(&self) -> bool {
        &&& (self.vt == VARTYPE::VT_BSTR) == (self.data is Bstr)
        &&& self.vt == VARTYPE::VT_BOOL ==> valid_bool_bits(self.spec_bits())
    }

    /// The tag.
    pub closed spec fn spec_vt(&self) -> VARTYPE {
        self.vt
    }

    /// The data word (zero for a string).
    pub closed spec fn spec_bits(&self) -> u64 {
        match self.data {
            PropVariantData::Bits(b) => b,
            PropVariantData::Bstr(_) => 0,
        }
    }

    /// The string held under `VT_BSTR`.
    pub closed spec fn spec_bstr(&self) -> Option<Seq<wchar>> {
        match self.data {
            PropVariantData::Bits(_) => None,
            PropVariantData::Bstr(b) => b@,
        }
    }

    /// The code units of the string held under `VT_BSTR` (none when null).
    pub open spec fn spec_units(&self) -> Seq<wchar> {
        match self.spec_bstr() {
            Some(u) => u,
            None => Seq::empty(),
        }
    }

    /// A tag holding data word `bits` (not a string tag; a Boolean word must
    /// be all ones or all zeros).
    pub fn from_raw(vt: VARTYPE, bits: u64) -> (r: PROPVARIANT)
        requires
            vt != VARTYPE::VT_BSTR,
            vt == VARTYPE::VT_BOOL ==> valid_bool_bits(bits),
        ensures
            r.spec_vt() == vt,
            r.spec_bits() == bits,
    {
        PROPVARIANT { vt: vt, data: PropVariantData::Bits(bits) }
    }

    /// The value read from the ABI form (numeric tag and data word) of a
    /// scalar `PROPVARIANT`, or `None` when the tag is unknown, is `VT_BSTR`
    /// (whose word is a pointer), or is `VT_BOOL` with a word that is
    /// neither all ones nor all zeros.
    pub fn from_abi(vt: u16, bits: u64) -> (r: Option<PROPVARIANT>)
        ensures
            match r {
                Some(p) => p.spec_vt().spec_value() == vt && p.spec_bits() == bits
                    && p.spec_vt() != VARTYPE::VT_BSTR,
                None => forall|t: VARTYPE|
                    t.spec_value() == vt ==> (t == VARTYPE::VT_BSTR || (t == VARTYPE::VT_BOOL
                        && !valid_bool_bits(bits))),
            },
    {
        match VARTYPE::try_from_primitive(vt) {
            Err(_) => None,
            Ok(t) => {
                if t == VARTYPE::VT_BSTR {
                    return None;
                }
                if t == VARTYPE::VT_BOOL {
                    let w = bits as u16;
                    if w != 0xFFFF && w != 0 {
                        return None;
                    }
                }
                Some(PROPVARIANT::from_raw(t, bits))
            },
        }
    }

    /// The string of a `VT_BSTR` value.
    pub fn bstr(&self) -> (r: Option<&BSTR>)
        ensures
            self.spec_vt() == VARTYPE::VT_BSTR ==> (r matches Some(b) && b@ == self.spec_bstr()),
            self.spec_vt() != VARTYPE::VT_BSTR ==> r is None,
    {
        proof {
            use_type_invariant(self);
        }
        match &self.data {
            PropVariantData::Bstr(b) => Some(b),
            PropVariantData::Bits(_) => None,
        }
    }

    /// The tag.
    pub fn vt(&self) -> (r: VARTYPE)
        ensures
            r == self.spec_vt(),
    {
        self.vt
    }

    /// The data word; zero for a string.
    pub fn bits(&self) -> (r: u64)
        ensures
            r == self.spec_bits(),
    {
        match &self.data {
            PropVariantData::Bits(b) => *b,
            PropVariantData::Bstr(_) => 0,
        }
    }

    pub fn from_i8(v: i8) -> (r: PROPVARIANT)
        ensures
            r.spec_vt() == VARTYPE::VT_I1,
            r.spec_bits() == i8_bits(v),
    {
        PROPVARIANT { vt: VARTYPE::VT_I1, data: PropVariantData::Bits((v as u8) as u64) }
    }

    pub fn from_i16(v: i16) -> (r: PROPVARIANT)
        ensures
            r.spec_vt() == VARTYPE::VT_I2,
            r.spec_bits() == i16_bits(v),
    {
        PROPVARIANT { vt: VARTYPE::VT_I2, data: PropVariantData::Bits((v as u16) as u64) }
    }

    pub fn from_i32(v: i32) -> (r: PROPVARIANT)
        ensures
            r.spec_vt() == VARTYPE::VT_I4,
            r.spec_bits() == i32_bits(v),
    {
        PROPVARIANT { vt: VARTYPE::VT_I4, data: PropVariantData::Bits((v as u32) as u64) }
    }

    pub fn from_i64(v: i64) -> (r: PROPVARIANT)
        ensures
            r.spec_vt() == VARTYPE::VT_I8,
            r.spec_bits() == i64_bits(v),
    {
        PROPVARIANT { vt: VARTYPE::VT_I8, data: PropVariantData::Bits(v as u64) }
    }

    pub fn from_u8(v: u8) -> (r: PROPVARIANT)
        ensures
            r.spec_vt() == VARTYPE::VT_UI1,
            r.spec_bits() == v as u64,
    {
        PROPVARIANT { vt: VARTYPE::VT_UI1, data: PropVariantData::Bits(v as u64) }
    }

    pub fn from_u16(v: u16) -> (r: PROPVARIANT)
        ensures
            r.spec_vt() == VARTYPE::VT_UI2,
            r.spec_bits() == v as u64,
    {
        PROPVARIANT { vt: VARTYPE::VT_UI2, data: PropVariantData::Bits(v as u64) }
    }

    pub fn from_u32(v: u32) -> (r: PROPVARIANT)
        ensures
            r.spec_vt() == VARTYPE::VT_UI4,
            r.spec_bits() == v as u64,
    {
        PROPVARIANT { vt: VARTYPE::VT_UI4, data: PropVariantData::Bits(v as u64) }
    }

    pub fn from_u64(v: u64) -> (r: PROPVARIANT)
        ensures
            r.spec_vt() == VARTYPE::VT_UI8,
            r.spec_bits() == v,
    {
        PROPVARIANT { vt: VARTYPE::VT_UI8, data: PropVariantData::Bits(v) }
    }

    pub fn from_bool(v: bool) -> (r: PROPVARIANT)
        ensures
            r.spec_vt() == VARTYPE::VT_BOOL,
            r.spec_bits() == bool_bits(v),
    {
        let b: u64 = if v { 0xFFFF } else { 0 };
        assert(valid_bool_bits(b)) by (bit_vector)
            requires
                b == 0xFFFF || b == 0,
        ;
        PROPVARIANT { vt: VARTYPE::VT_BOOL, data: PropVariantData::Bits(b) }
    }

    pub fn from_filetime(v: FILETIME) -> (r: PROPVARIANT)
        ensures
            r.spec_vt() == VARTYPE::VT_FILETIME,
            r.spec_bits() == filetime_bits(v),
    {
        PROPVARIANT { vt: VARTYPE::VT_FILETIME, data: PropVariantData::Bits(v.to_u64()) }
    }

    /// Takes ownership of `v` as a `VT_BSTR` value.
    pub fn from_bstr(v: BSTR) -> (r: PROPVARIANT)
        ensures
            r.spec_vt() == VARTYPE::VT_BSTR,
            r.spec_bstr() == v@,
    {
        PROPVARIANT { vt: VARTYPE::VT_BSTR, data: PropVariantData::Bstr(v) }
    }

    /// The value as an `i8`, which needs tag `VT_I1`.
    pub fn to_i8(&self) -> (r: Result<i8, PROPVARIANTConversionError>)
        ensures
            self.spec_vt() == VARTYPE::VT_I1 ==> r == Ok::<i8, PROPVARIANTConversionError>(
                bits_i8(self.spec_bits()),
            ),
            self.spec_vt() != VARTYPE::VT_I1 ==> (r matches Err(e) && e.spec_expected()
                == VARTYPE::VT_I1 && e.spec_got() == self.spec_vt()),
    {
        if self.vt != VARTYPE::VT_I1 {
            return Err(PROPVARIANTConversionError::new(VARTYPE::VT_I1, self.vt));
        }
        Ok((self.bits() as u8) as i8)
    }

    /// The value as an `i16`, which needs tag `VT_I2`.
    pub fn to_i16(&self) -> (r: Result<i16, PROPVARIANTConversionError>)
        ensures
            self.spec_vt() == VARTYPE::VT_I2 ==> r == Ok::<i16, PROPVARIANTConversionError>(
                bits_i16(self.spec_bits()),
            ),
            self.spec_vt() != VARTYPE::VT_I2 ==> (r matches Err(e) && e.spec_expected()
                == VARTYPE::VT_I2 && e.spec_got() == self.spec_vt()),
    {
        if self.vt != VARTYPE::VT_I2 {
            return Err(PROPVARIANTConversionError::new(VARTYPE::VT_I2, self.vt));
        }
        Ok((self.bits() as u16) as i16)
    }

    /// The value as an `i32`, which needs tag `VT_I4`.
    pub fn to_i32(&self) -> (r: Result<i32, PROPVARIANTConversionError>)
        ensures
            self.spec_vt() == VARTYPE::VT_I4 ==> r == Ok::<i32, PROPVARIANTConversionError>(
                bits_i32(self.spec_bits()),
            ),
            self.spec_vt() != VARTYPE::VT_I4 ==> (r matches Err(e) && e.spec_expected()
                == VARTYPE::VT_I4 && e.spec_got() == self.spec_vt()),
    {
        if self.vt != VARTYPE::VT_I4 {
            return Err(PROPVARIANTConversionError::new(VARTYPE::VT_I4, self.vt));
        }
        Ok((self.bits() as u32) as i32)
    }

    /// The value as an `i64`, which needs tag `VT_I8`.
    pub fn to_i64(&self) -> (r: Result<i64, PROPVARIANTConversionError>)
        ensures
            self.spec_vt() == VARTYPE::VT_I8 ==> r == Ok::<i64, PROPVARIANTConversionError>(
                bits_i64(self.spec_bits()),
            ),
            self.spec_vt() != VARTYPE::VT_I8 ==> (r matches Err(e) && e.spec_expected()
                == VARTYPE::VT_I8 && e.spec_got() == self.spec_vt()),
    {
        if self.vt != VARTYPE::VT_I8 {
            return Err(PROPVARIANTConversionError::new(VARTYPE::VT_I8, self.vt));
        }
        Ok(self.bits() as i64)
    }

    /// The value as a `u8`, which needs tag `VT_UI1`.
    pub fn to_u8(&self) -> (r: Result<u8, PROPVARIANTConversionError>)
        ensures
            self.spec_vt() == VARTYPE::VT_UI1 ==> r == Ok::<u8, PROPVARIANTConversionError>(
                self.spec_bits() as u8,
            ),
            self.spec_vt() != VARTYPE::VT_UI1 ==> (r matches Err(e) && e.spec_expected()
                == VARTYPE::VT_UI1 && e.spec_got() == self.spec_vt()),
    {
        if self.vt != VARTYPE::VT_UI1 {
            return Err(PROPVARIANTConversionError::new(VARTYPE::VT_UI1, self.vt));
        }
        Ok(self.bits() as u8)
    }

    /// The value as a `u16`, which needs tag `VT_UI2`.
    pub fn to_u16(&self) -> (r: Result<u16, PROPVARIANTConversionError>)
        ensures
            self.spec_vt() == VARTYPE::VT_UI2 ==> r == Ok::<u16, PROPVARIANTConversionError>(
                self.spec_bits() as u16,
            ),
            self.spec_vt() != VARTYPE::VT_UI2 ==> (r matches Err(e) && e.spec_expected()
                == VARTYPE::VT_UI2 && e.spec_got() == self.spec_vt()),
    {
        if self.vt != VARTYPE::VT_UI2 {
            return Err(PROPVARIANTConversionError::new(VARTYPE::VT_UI2, self.vt));
        }
        Ok(self.bits() as u16)
    }

    /// The value as a `u32`, which needs tag `VT_UI4`.
    pub fn to_u32(&self) -> (r: Result<u32, PROPVARIANTConversionError>)
        ensures
            self.spec_vt() == VARTYPE::VT_UI4 ==> r == Ok::<u32, PROPVARIANTConversionError>(
                self.spec_bits() as u32,
            ),
            self.spec_vt() != VARTYPE::VT_UI4 ==> (r matches Err(e) && e.spec_expected()
                == VARTYPE::VT_UI4 && e.spec_got() == self.spec_vt()),
    {
        if self.vt != VARTYPE::VT_UI4 {
            return Err(PROPVARIANTConversionError::new(VARTYPE::VT_UI4, self.vt));
        }
        Ok(self.bits() as u32)
    }

    /// The value as a `u64`, which needs tag `VT_UI8`.
    pub fn to_u64(&self) -> (r: Result<u64, PROPVARIANTConversionError>)
        ensures
            self.spec_vt() == VARTYPE::VT_UI8 ==> r == Ok::<u64, PROPVARIANTConversionError>(
                self.spec_bits(),
            ),
            self.spec_vt() != VARTYPE::VT_UI8 ==> (r matches Err(e) && e.spec_expected()
                == VARTYPE::VT_UI8 && e.spec_got() == self.spec_vt()),
    {
        if self.vt != VARTYPE::VT_UI8 {
            return Err(PROPVARIANTConversionError::new(VARTYPE::VT_UI8, self.vt));
        }
        Ok(self.bits())
    }

    /// The value as a `bool`, which needs tag `VT_BOOL`.
    pub fn to_bool(&self) -> (r: Result<bool, PROPVARIANTConversionError>)
        ensures
            self.spec_vt() == VARTYPE::VT_BOOL ==> r == Ok::<bool, PROPVARIANTConversionError>(
                bits_bool(self.spec_bits()),
            ),
            self.spec_vt() != VARTYPE::VT_BOOL ==> (r matches Err(e) && e.spec_expected()
                == VARTYPE::VT_BOOL && e.spec_got() == self.spec_vt()),
    {
        proof {
            use_type_invariant(self);
        }
        if self.vt != VARTYPE::VT_BOOL {
            return Err(PROPVARIANTConversionError::new(VARTYPE::VT_BOOL, self.vt));
        }
        let b = VT_BOOL::from_word(self.bits() as u16);
        Ok(bool::from(b))
    }

    /// The error code held by a `VT_ERROR` value (its low 32 bits).
    pub fn to_hresult(&self) -> (r: Result<HRESULT, PROPVARIANTConversionError>)
        ensures
            self.spec_vt() == VARTYPE::VT_ERROR ==> r == Ok::<HRESULT, PROPVARIANTConversionError>(
                HRESULT(bits_i32(self.spec_bits())),
            ),
            self.spec_vt() != VARTYPE::VT_ERROR ==> (r matches Err(e) && e.spec_expected()
                == VARTYPE::VT_ERROR && e.spec_got() == self.spec_vt()),
    {
        if self.vt != VARTYPE::VT_ERROR {
            return Err(PROPVARIANTConversionError::new(VARTYPE::VT_ERROR, self.vt));
        }
        Ok(HRESULT((self.bits() as u32) as i32))
    }

    /// The value as a `FILETIME`, which needs tag `VT_FILETIME`.
    pub fn to_filetime(&self) -> (r: Result<FILETIME, PROPVARIANTConversionError>)
        ensures
            self.spec_vt() == VARTYPE::VT_FILETIME ==> r == Ok::<FILETIME, PROPVARIANTConversionError>(
                bits_filetime(self.spec_bits()),
            ),
            self.spec_vt() != VARTYPE::VT_FILETIME ==> (r matches Err(e) && e.spec_expected()
                == VARTYPE::VT_FILETIME && e.spec_got() == self.spec_vt()),
    {
        if self.vt != VARTYPE::VT_FILETIME {
            return Err(PROPVARIANTConversionError::new(VARTYPE::VT_FILETIME, self.vt));
        }
        Ok(FILETIME::from_u64(self.bits()))
    }

    /// Takes the string out of a `VT_BSTR` value.
    pub fn into_bstr(self) -> (r: Result<BSTR, PROPVARIANTConversionError>)
        ensures
            self.spec_vt() == VARTYPE::VT_BSTR ==> (r matches Ok(b) && b@ == self.spec_bstr()),
            self.spec_vt() != VARTYPE::VT_BSTR ==> (r matches Err(e) && e.spec_expected()
                == VARTYPE::VT_BSTR && e.spec_got() == self.spec_vt()),
    {
        proof {
            use_type_invariant(&self);
        }
        if self.vt != VARTYPE::VT_BSTR {
            return Err(PROPVARIANTConversionError::new(VARTYPE::VT_BSTR, self.vt));
        }
        match self.data {
            PropVariantData::Bstr(b) => Ok(b),
            PropVariantData::Bits(_) => Err(PROPVARIANTConversionError::new(VARTYPE::VT_BSTR, self.vt)),
        }
    }

    /// The text of a `VT_BSTR` value, decoded from UTF-16 with unpaired
    /// surrogates replaced by U+FFFD.
    pub fn to_string(&self) -> (r: Result<String, PROPVARIANTConversionError>)
        ensures
            self.spec_vt() == VARTYPE::VT_BSTR ==> (r matches Ok(s) && s@ == utf16_lossy(
                self.spec_units(),
            ) && ((forall|i: int|
                0 <= i < self.spec_units().len() ==> !is_surrogate(#[trigger] self.spec_units()[i]))
                ==> s@ == units_as_chars(self.spec_units()))),
            self.spec_vt() != VARTYPE::VT_BSTR ==> (r matches Err(e) && e.spec_expected()
                == VARTYPE::VT_BSTR && e.spec_got() == self.spec_vt()),
    {
        proof {
            use_type_invariant(self);
        }
        if self.vt != VARTYPE::VT_BSTR {
            return Err(PROPVARIANTConversionError::new(VARTYPE::VT_BSTR, self.vt));
        }
        match &self.data {
            PropVariantData::Bstr(b) => Ok(b.to_string()),
            PropVariantData::Bits(_) => Err(PROPVARIANTConversionError::new(VARTYPE::VT_BSTR, self.vt)),
        }
    }
}

impl Default for PROPVARIANT {
    fn default() -> (r: PROPVARIANT)
        ensures
            r.spec_vt() == VARTYPE::VT_EMPTY,
            r.spec_bits() == 0,
    {
        PROPVARIANT { vt: VARTYPE::VT_EMPTY, data: PropVariantData::Bits(0) }
    }
}

impl VT_BOOL {
    /// Reads a 16-bit word that is all ones or all zeros.
    pub fn from_word(w: u16) -> (r: VT_BOOL)
        requires
            w == 0xFFFF || w == 0,
        ensures
            r == (if w == 0xFFFF { VT_BOOL::TRUE } else { VT_BOOL::FALSE }),
    {
        if w == 0xFFFF {
            VT_BOOL::TRUE
        } else {
            VT_BOOL::FALSE
        }
    }
}

impl TryFrom<PROPVARIANT> for i8 {
    type Error = PROPVARIANTConversionError;

    fn try_from(value: PROPVARIANT) -> (r: Result<i8, PROPVARIANTConversionError>) {
        value.to_i8()
    }
}

impl vstd::std_specs::convert::TryFromSpecImpl<PROPVARIANT> for i8 {
    open spec fn obeys_try_from_spec() -> bool {
        true
    }

    open spec fn try_from_spec(v: PROPVARIANT) -> Result<i8, PROPVARIANTConversionError> {
        if v.spec_vt() == VARTYPE::VT_I1 {
            Ok(bits_i8(v.spec_bits()))
        } else {
            Err(PROPVARIANTConversionError::spec_new(VARTYPE::VT_I1, v.spec_vt()))
        }
    }
}

impl TryFrom<PROPVARIANT> for i16 {
    type Error = PROPVARIANTConversionError;

    fn try_from(value: PROPVARIANT) -> (r: Result<i16, PROPVARIANTConversionError>) {
        value.to_i16()
    }
}

impl vstd::std_specs::convert::TryFromSpecImpl<PROPVARIANT> for i16 {
    open spec fn obeys_try_from_spec() -> bool {
        true
    }

    open spec fn try_from_spec(v: PROPVARIANT) -> Result<i16, PROPVARIANTConversionError> {
        if v.spec_vt() == VARTYPE::VT_I2 {
            Ok(bits_i16(v.spec_bits()))
        } else {
            Err(PROPVARIANTConversionError::spec_new(VARTYPE::VT_I2, v.spec_vt()))
        }
    }
}

impl TryFrom<PROPVARIANT> for i32 {
    type Error = PROPVARIANTConversionError;

    fn try_from(value: PROPVARIANT) -> (r: Result<i32, PROPVARIANTConversionError>) {
        value.to_i32()
    }
}

impl vstd::std_specs::convert::TryFromSpecImpl<PROPVARIANT> for i32 {
    open spec fn obeys_try_from_spec() -> bool {
        true
    }

    open spec fn try_from_spec(v: PROPVARIANT) -> Result<i32, PROPVARIANTConversionError> {
        if v.spec_vt() == VARTYPE::VT_I4 {
            Ok(bits_i32(v.spec_bits()))
        } else {
            Err(PROPVARIANTConversionError::spec_new(VARTYPE::VT_I4, v.spec_vt()))
        }
    }
}

impl TryFrom<PROPVARIANT> for i64 {
    type Error = PROPVARIANTConversionError;

    fn try_from(value: PROPVARIANT) -> (r: Result<i64, PROPVARIANTConversionError>) {
        value.to_i64()
    }
}

impl vstd::std_specs::convert::TryFromSpecImpl<PROPVARIANT> for i64 {
    open spec fn obeys_try_from_spec() -> bool {
        true
    }

    open spec fn try_from_spec(v: PROPVARIANT) -> Result<i64, PROPVARIANTConversionError> {
        if v.spec_vt() == VARTYPE::VT_I8 {
            Ok(bits_i64(v.spec_bits()))
        } else {
            Err(PROPVARIANTConversionError::spec_new(VARTYPE::VT_I8, v.spec_vt()))
        }
    }
}

impl TryFrom<PROPVARIANT> for u8 {
    type Error = PROPVARIANTConversionError;

    fn try_from(value: PROPVARIANT) -> (r: Result<u8, PROPVARIANTConversionError>) {
        value.to_u8()
    }
}

impl vstd::std_specs::convert::TryFromSpecImpl<PROPVARIANT> for u8 {
    open spec fn obeys_try_from_spec() -> bool {
        true
    }

    open spec fn try_from_spec(v: PROPVARIANT) -> Result<u8, PROPVARIANTConversionError> {
        if v.spec_vt() == VARTYPE::VT_UI1 {
            Ok(v.spec_bits() as u8)
        } else {
            Err(PROPVARIANTConversionError::spec_new(VARTYPE::VT_UI1, v.spec_vt()))
        }
    }
}

impl TryFrom<PROPVARIANT> for u16 {
    type Error = PROPVARIANTConversionError;

    fn try_from(value: PROPVARIANT) -> (r: Result<u16, PROPVARIANTConversionError>) {
        value.to_u16()
    }
}

impl vstd::std_specs::convert::TryFromSpecImpl<PROPVARIANT> for u16 {
    open spec fn obeys_try_from_spec() -> bool {
        true
    }

    open spec fn try_from_spec(v: PROPVARIANT) -> Result<u16, PROPVARIANTConversionError> {
        if v.spec_vt() == VARTYPE::VT_UI2 {
            Ok(v.spec_bits() as u16)
        } else {
            Err(PROPVARIANTConversionError::spec_new(VARTYPE::VT_UI2, v.spec_vt()))
        }
    }
}

impl TryFrom<PROPVARIANT> for u32 {
    type Error = PROPVARIANTConversionError;

    fn try_from(value: PROPVARIANT) -> (r: Result<u32, PROPVARIANTConversionError>) {
        value.to_u32()
    }
}

impl vstd::std_specs::convert::TryFromSpecImpl<PROPVARIANT> for u32 {
    open spec fn obeys_try_from_spec() -> bool {
        true
    }

    open spec fn try_from_spec(v: PROPVARIANT) -> Result<u32, PROPVARIANTConversionError> {
        if v.spec_vt() == VARTYPE::VT_UI4 {
            Ok(v.spec_bits() as u32)
        } else {
            Err(PROPVARIANTConversionError::spec_new(VARTYPE::VT_UI4, v.spec_vt()))
        }
    }
}

impl TryFrom<PROPVARIANT> for u64 {
    type Error = PROPVARIANTConversionError;

    fn try_from(value: PROPVARIANT) -> (r: Result<u64, PROPVARIANTConversionError>) {
        value.to_u64()
    }
}

impl vstd::std_specs::convert::TryFromSpecImpl<PROPVARIANT> for u64 {
    open spec fn obeys_try_from_spec() -> bool {
        true
    }

    open spec fn try_from_spec(v: PROPVARIANT) -> Result<u64, PROPVARIANTConversionError> {
        if v.spec_vt() == VARTYPE::VT_UI8 {
            Ok(v.spec_bits())
        } else {
            Err(PROPVARIANTConversionError::spec_new(VARTYPE::VT_UI8, v.spec_vt()))
        }
    }
}

impl TryFrom<PROPVARIANT> for bool {
    type Error = PROPVARIANTConversionError;

    fn try_from(value: PROPVARIANT) -> (r: Result<bool, PROPVARIANTConversionError>) {
        value.to_bool()
    }
}

impl vstd::std_specs::convert::TryFromSpecImpl<PROPVARIANT> for bool {
    open spec fn obeys_try_from_spec() -> bool {
        true
    }

    open spec fn try_from_spec(v: PROPVARIANT) -> Result<bool, PROPVARIANTConversionError> {
        if v.spec_vt() == VARTYPE::VT_BOOL {
            Ok(bits_bool(v.spec_bits()))
        } else {
            Err(PROPVARIANTConversionError::spec_new(VARTYPE::VT_BOOL, v.spec_vt()))
        }
    }
}

impl TryFrom<PROPVARIANT> for FILETIME {
    type Error = PROPVARIANTConversionError;

    fn try_from(value: PROPVARIANT) -> (r: Result<FILETIME, PROPVARIANTConversionError>) {
        value.to_filetime()
    }
}

impl vstd::std_specs::convert::TryFromSpecImpl<PROPVARIANT> for FILETIME {
    open spec fn obeys_try_from_spec() -> bool {
        true
    }

    open spec fn try_from_spec(v: PROPVARIANT) -> Result<FILETIME, PROPVARIANTConversionError> {
        if v.spec_vt() == VARTYPE::VT_FILETIME {
            Ok(bits_filetime(v.spec_bits()))
        } else {
            Err(PROPVARIANTConversionError::spec_new(VARTYPE::VT_FILETIME, v.spec_vt()))
        }
    }
}

/// Storing a value of any scalar type in a `PROPVARIANT` and reading it back
/// with the conversion for the same type gives the value back.
pub proof fn lemma_scalar_round_trips(
    a: i8,
    b: i16,
    c: i32,
    d: i64,
    e: u8,
    f: u16,
    g: u32,
    h: bool,
    t: FILETIME,
)
    ensures
        bits_i8(i8_bits(a)) == a,
        bits_i16(i16_bits(b)) == b,
        bits_i32(i32_bits(c)) == c,
        bits_i64(i64_bits(d)) == d,
        (e as u64) as u8 == e,
        (f as u64) as u16 == f,
        (g as u64) as u32 == g,
        bits_bool(bool_bits(h)) == h,
        valid_bool_bits(bool_bits(h)),
        bits_filetime(filetime_bits(t)) == t,
{
    assert(((a as u8) as u64) as u8 as i8 == a) by (bit_vector);
    assert(((b as u16) as u64) as u16 as i16 == b) by (bit_vector);
    assert(((c as u32) as u64) as u32 as i32 == c) by (bit_vector);
    assert((d as u64) as i64 == d) by (bit_vector);
    assert((e as u64) as u8 == e) by (bit_vector);
    assert((f as u64) as u16 == f) by (bit_vector);
    assert((g as u64) as u32 == g) by (bit_vector);
    assert((0xFFFFu64 as u16) == 0xFFFFu16) by (bit_vector);
    assert((0u64 as u16) == 0u16) by (bit_vector);
    crate::win_ffi::filetime::lemma_u64_round_trip(0, t);
    assert(0 <= t.value() < 0x1_0000_0000_0000_0000) by (nonlinear_arith)
        requires
            t.value() == t.dwHighDateTime * 0x1_0000_0000 + t.dwLowDateTime,
            0 <= t.dwLowDateTime < 0x1_0000_0000,
            0 <= t.dwHighDateTime < 0x1_0000_0000,
    ;
}

} // verus!
