use vstd::prelude::*;
use vstd::string::StringExecFns;

verus! {

/// Result type whose error is an `HRESULT` code.
pub type HrResult<T> = Result<T, HRESULT>;

/// The subset of Windows `HRESULT` codes that 7-Zip uses.
///
/// The well-known codes are reached through the associated functions
/// `HRESULT::S_OK()`, `HRESULT::E_FAIL()`, and so on.
#[derive(Clone, Copy, Debug, PartialEq, Eq, Structural, PartialOrd, Ord, Hash)]
pub struct HRESULT(pub i32);

/// The signed value of a code written as an unsigned 32-bit number.
pub open spec fn code_of_u32(v: u32) -> i32 {
    v as i32
}

/// The name under which a code (read as unsigned) is displayed, or `None`
/// for codes outside the known subset.
pub open spec fn spec_code_name(code: u32) -> Option<Seq<char>> {
    if code == 0 {
        Some("S_OK"@)
    } else if code == 1 {
        Some("S_FALSE"@)
    } else if code == 0x80004001 {
        Some("E_NOTIMPL"@)
    } else if code == 0x80004002 {
        Some("E_NOINTERFACE"@)
    } else if code == 0x80004004 {
        Some("E_ABORT"@)
    } else if code == 0x80004005 {
        Some("E_FAIL"@)
    } else if code == 0x80030001 {
        Some("STG_E_INVALIDFUNCTION"@)
    } else if code == 0x80040111 {
        Some("CLASS_E_CLASSNOTAVAILABLE"@)
    } else if code == 0x8007000E {
        Some("E_OUTOFMEMORY"@)
    } else if code == 0x80070057 {
        Some("E_INVALIDARG"@)
    } else if code == 0x80028CA0 {
        Some("TYPE_E_MISMATCH"@)
    } else {
        None
    }
}

impl HRESULT {
    pub fn S_OK() -> (r: HRESULT)
        ensures
            r.0 == 0,
    {
        HRESULT::from_u32(0x0)
    }

    pub fn S_FALSE() -> (r: HRESULT)
        ensures
            r.0 == 1,
    {
        HRESULT::from_u32(0x1)
    }

    pub fn E_NOTIMPL() -> (r: HRESULT)
        ensures
            r.0 == code_of_u32(0x80004001),
    {
        HRESULT::from_u32(0x80004001)
    }

    pub fn E_NOINTERFACE() -> (r: HRESULT)
        ensures
            r.0 == code_of_u32(0x80004002),
    {
        HRESULT::from_u32(0x80004002)
    }

    pub fn E_ABORT() -> (r: HRESULT)
        ensures
            r.0 == code_of_u32(0x80004004),
    {
        HRESULT::from_u32(0x80004004)
    }

    pub fn E_FAIL() -> (r: HRESULT)
        ensures
            r.0 == code_of_u32(0x80004005),
    {
        HRESULT::from_u32(0x80004005)
    }

    pub fn STG_E_INVALIDFUNCTION() -> (r: HRESULT)
        ensures
            r.0 == code_of_u32(0x80030001),
    {
        HRESULT::from_u32(0x80030001)
    }

    pub fn CLASS_E_CLASSNOTAVAILABLE() -> (r: HRESULT)
        ensures
            r.0 == code_of_u32(0x80040111),
    {
        HRESULT::from_u32(0x80040111)
    }

    pub fn E_OUTOFMEMORY() -> (r: HRESULT)
        ensures
            r.0 == code_of_u32(0x8007000E),
    {
        HRESULT::from_u32(0x8007000E)
    }

    pub fn E_INVALIDARG() -> (r: HRESULT)
        ensures
            r.0 == code_of_u32(0x80070057),
    {
        HRESULT::from_u32(0x80070057)
    }

    pub fn TYPE_E_MISMATCH() -> (r: HRESULT)
        ensures
            r.0 == code_of_u32(0x80028CA0),
    {
        HRESULT::from_u32(0x80028CA0)
    }

    pub fn from_i32(value: i32) -> (r: HRESULT)
        ensures
            r.0 == value,
    {
        HRESULT(value)
    }

    /// Reinterprets the bits of an unsigned code (as written in Windows
    /// headers) as the signed code.
    pub fn from_u32(value: u32) -> (r: HRESULT)
        ensures
            r.0 == code_of_u32(value),
    {
        Self::from_i32(value as i32)
    }

    pub fn code(self) -> (r: i32)
        ensures
            r == self.0,
    {
        i32::from(self)
    }

    pub fn succeeded(self) -> (r: bool)
        ensures
            r == (self.0 >= 0),
    {
        self.0 >= 0
    }

    pub fn failed(self) -> (r: bool)
        ensures
            r == (self.0 < 0),
    {
        self.0 < 0
    }

    /// `Ok(())` for a success code, the code itself as the error otherwise.
    pub fn ok(self) -> (r: HrResult<()>)
        ensures
            self.0 >= 0 ==> r == Ok::<(), HRESULT>(()),
            self.0 < 0 ==> r == Err::<(), HRESULT>(self),
    {
        match self.succeeded() {
            true => HrResult::Ok(()),
            false => HrResult::Err(self),
        }
    }
}

impl From<HRESULT> for i32 {
    fn from(value: HRESULT) -> (r: i32) {
        value.0
    }
}

impl vstd::std_specs::convert::FromSpecImpl<HRESULT> for i32 {
    open spec fn obeys_from_spec() -> bool {
        true
    }

    open spec fn from_spec(value: HRESULT) -> i32 {
        value.0
    }
}

impl From<i32> for HRESULT {
    fn from(value: i32) -> (r: HRESULT) {
        HRESULT(value)
    }
}

impl vstd::std_specs::convert::FromSpecImpl<i32> for HRESULT {
    open spec fn obeys_from_spec() -> bool {
        true
    }

    open spec fn from_spec(value: i32) -> HRESULT {
        HRESULT(value)
    }
}

/// The decimal digits of `n`, most significant first.
pub open spec fn decimal(n: nat) -> Seq<char>
    decreases n,
{
    if n < 10 {
        seq![digit_char(n)]
    } else {
        decimal(n / 10).push(digit_char(n % 10))
    }
}

/// The character of decimal digit `d`.
pub open spec fn digit_char(d: nat) -> char {
    seq!['0', '1', '2', '3', '4', '5', '6', '7', '8', '9'][d as int]
}

/// The text that an `HRESULT` displays as: its name (or
/// `(Unknown HRESULT)`), then `: 0x`, then the code read as an unsigned
/// number and written in decimal.
pub open spec fn spec_display(code: i32) -> Seq<char> {
    let name = match spec_code_name(code as u32) {
        Some(n) => n,
        None => "(Unknown HRESULT)"@,
    };
    name + ": 0x"@ + decimal((code as u32) as nat)
}

fn digit_str(d: u32) -> (r: &'static str)
    requires
        d < 10,
    ensures
        r@ == seq![digit_char(d as nat)],
{
    match d {
        0 => {
            proof {
                reveal_strlit("0");
            }
            "0"
        },
        1 => {
            proof {
                reveal_strlit("1");
            }
            "1"
        },
        2 => {
            proof {
                reveal_strlit("2");
            }
            "2"
        },
        3 => {
            proof {
                reveal_strlit("3");
            }
            "3"
        },
        4 => {
            proof {
                reveal_strlit("4");
            }
            "4"
        },
        5 => {
            proof {
                reveal_strlit("5");
            }
            "5"
        },
        6 => {
            proof {
                reveal_strlit("6");
            }
            "6"
        },
        7 => {
            proof {
                reveal_strlit("7");
            }
            "7"
        },
        8 => {
            proof {
                reveal_strlit("8");
            }
            "8"
        },
        _ => {
            proof {
                reveal_strlit("9");
            }
            "9"
        },
    }
}

/// Appends the decimal digits of `n` to `s`.
fn append_decimal(s: &mut String, n: u32)
    ensures
        final(s)@ == old(s)@ + decimal(n as nat),
    decreases n,
{
    if n >= 10 {
        append_decimal(s, n / 10);
    }
    s.append(digit_str(n % 10));
}

fn code_name(code: u32) -> (r: String)
    ensures
        r@ == (match spec_code_name(code) {
            Some(n) => n,
            None => "(Unknown HRESULT)"@,
        }),
{
    match code {
        0u32 => String::from_str("S_OK"),
        1u32 => String::from_str("S_FALSE"),
        0x80004001u32 => String::from_str("E_NOTIMPL"),
        0x80004002u32 => String::from_str("E_NOINTERFACE"),
        0x80004004u32 => String::from_str("E_ABORT"),
        0x80004005u32 => String::from_str("E_FAIL"),
        0x80030001u32 => String::from_str("STG_E_INVALIDFUNCTION"),
        0x80040111u32 => String::from_str("CLASS_E_CLASSNOTAVAILABLE"),
        0x8007000Eu32 => String::from_str("E_OUTOFMEMORY"),
        0x80070057u32 => String::from_str("E_INVALIDARG"),
        0x80028CA0u32 => String::from_str("TYPE_E_MISMATCH"),
        _ => String::from_str("(Unknown HRESULT)"),
    }
}

impl HRESULT {
    /// The text shown for the code, such as `E_FAIL: 0x2147500037`.
    pub fn to_string(&self) -> (r: String)
        ensures
            r@ == spec_display(self.0),
    {
        let code = self.0 as u32;
        let mut s = code_name(code);
        s.append(": 0x");
        append_decimal(&mut s, code);
        s
    }
}

/// Reading a header's unsigned code as an `HRESULT` and back gives the
/// same number.
pub proof fn lemma_u32_code_round_trip(v: u32)
    ensures
        (code_of_u32(v) as u32) == v,
{
    assert(((v as i32) as u32) == v) by (bit_vector);
}

} // verus!
