use vstd::prelude::*;

use crate::ffi::wchar;
use crate::win_ffi::HRESULT;
use crate::win_ffi::HrResult;
use crate::win_ffi::hresult::code_of_u32;

verus! {

/// Whether a code unit lies in the UTF-16 surrogate range.
pub open spec fn is_surrogate(u: u16) -> bool {
    0xD800 <= u <= 0xDFFF
}

/// The characters that a sequence of code units outside the surrogate range
/// stands for: each unit is the scalar value of one character.
pub open spec fn units_as_chars(units: Seq<u16>) -> Seq<char> {
    units.map_values(|u: u16| u as char)
}

/// The code units that `BSTR::from_str` stores for `s`: each character
/// truncated to its low 16 bits.
pub open spec fn truncated_units(s: Seq<char>) -> Seq<u16> {
    s.map_values(|c: char| ((c as u32) % 0x10000) as u16)
}

/// Name for the text that lossy UTF-16 decoding (unpaired surrogates replaced
/// by U+FFFD) gives for `units`.
pub uninterp spec fn utf16_lossy(units: Seq<u16>) -> Seq<char>;

/// `widestring::U16Str::to_string_lossy`, which is `String::from_utf16_lossy`
/// on the slice. The contract names the result and states the one fact the
/// decoding documents for well-formed input: units that contain no
/// surrogate each decode to the character with that scalar value.
#[verifier::external_body]
fn utf16_to_string_lossy(units: &[u16]) -> (s: String)
    ensures
        s@ == utf16_lossy(units@),
        (forall|i: int| 0 <= i < units@.len() ==> !is_surrogate(#[trigger] units@[i]))
            ==> s@ == units_as_chars(units@),
{
    widestring::U16Str::from_slice(units).to_string_lossy()
}

/// A length-prefixed wide string as passed across the 7-Zip ABI.
///
/// The string either holds a sequence of code units or is null (the
/// default value, which reads as empty).
pub struct BSTR {
    units: Option<Vec<wchar>>,
}

impl View for BSTR {
    type V = Option<Seq<wchar>>;

    closed spec fn view(&self) -> Option<Seq<wchar>> {
        match self.units {
            Some(v) => Some(v@),
            None => None,
        }
    }
}

impl BSTR {
    #[verifier::type_invariant]
    closed spec fn length_fits(&self) -> bool {
        match self.units {
            Some(v) => v@.len() <= u32::MAX,
            None => true,
        }
    }

    /// The code units of the string; a null string has none.
    pub open spec fn units(&self) -> Seq<wchar> {
        match self@ {
            Some(u) => u,
            None => Seq::empty(),
        }
    }

    /// Whether the string is null.
    pub open spec fn spec_is_null(&self) -> bool {
        self@ is None
    }

    /// Copies `s` into a new string, one code unit per character (the low 16
    /// bits of the character), or fails with `E_INVALIDARG` when `s` has
    /// more characters than a 32-bit length can count.
    pub fn from_str(s: &str) -> (r: HrResult<BSTR>)
        ensures
            s@.len() <= u32::MAX ==> (r matches Ok(b) && b@ == Some(truncated_units(s@))),
            s@.len() > u32::MAX ==> r == Err::<BSTR, HRESULT>(HRESULT(code_of_u32(0x80070057))),
    {
        broadcast use vstd::string::group_string_axioms;
        let mut wchars: Vec<wchar> = Vec::new();
        for c in it: s.chars()
            invariant
                it.seq() == s@,
                wchars@ == truncated_units(s@.take(it.index() as int)),
        {
            assert(s@.take(it.index() + 1) == s@.take(it.index() as int).push(c));
            wchars.push(((c as u32) % 0x10000) as u16);
        }
        assert(s@.take(s@.len() as int) == s@);
        if wchars.len() > 0xFFFF_FFFFusize {
            return Err(HRESULT::E_INVALIDARG());
        }
        Ok(BSTR { units: Some(wchars) })
    }

    /// A string holding `units`, taking ownership of them (as a string
    /// received across the ABI owns its buffer).
    pub fn from_units(units: Vec<wchar>) -> (r: BSTR)
        requires
            units@.len() <= u32::MAX,
        ensures
            r@ == Some(units@),
    {
        BSTR { units: Some(units) }
    }

    /// Whether the string is null (as a default-constructed or leaked one is).
    pub fn is_null(&self) -> (r: bool)
        ensures
            r == self.spec_is_null(),
    {
        self.units.is_none()
    }

    /// Number of code units in the string, not counting the terminator.
    pub fn len(&self) -> (r: u32)
        ensures
            r == self.units().len(),
    {
        proof {
            use_type_invariant(self);
        }
        match &self.units {
            None => 0,
            Some(v) => v.len() as u32,
        }
    }

    /// The code units of the string; empty for a null string.
    pub fn as_slice(&self) -> (r: &[wchar])
        ensures
            r@ == self.units(),
    {
        match &self.units {
            None => {
                let e: &[wchar] = &[];
                assert(e@ =~= Seq::<wchar>::empty());
                e
            },
            Some(v) => v.as_slice(),
        }
    }

    /// Takes the contents out, leaving a null string behind, so that the
    /// caller becomes their owner.
    pub fn leak(&mut self) -> (r: Option<Vec<wchar>>)
        ensures
            final(self).spec_is_null(),
            match r {
                Some(v) => old(self)@ == Some(v@),
                None => old(self)@ is None,
            },
    {
        let mut r: Option<Vec<wchar>> = None;
        std::mem::swap(&mut r, &mut self.units);
        r
    }

    /// The text of the string, decoded from UTF-16 with unpaired surrogates
    /// replaced by U+FFFD.
    pub fn to_string(&self) -> (r: String)
        ensures
            r@ == utf16_lossy(self.units()),
            (forall|i: int| 0 <= i < self.units().len() ==> !is_surrogate(#[trigger] self.units()[i]))
                ==> r@ == units_as_chars(self.units()),
    {
        utf16_to_string_lossy(self.as_slice())
    }
}

impl Default for BSTR {
    fn default() -> (r: BSTR)
        ensures
            r.spec_is_null(),
    {
        BSTR { units: None }
    }
}

impl Clone for BSTR {
    /// A copy of the code units; copying a null string gives an empty,
    /// non-null one.
    fn clone(&self) -> (r: BSTR)
        ensures
            r@ == Some(self.units()),
    {
        proof {
            use_type_invariant(self);
        }
        let units = match &self.units {
            None => Vec::new(),
            Some(v) => v.clone(),
        };
        BSTR { units: Some(units) }
    }
}

/// Whether a character lies in the Basic Multilingual Plane (below U+10000;
/// as a Unicode scalar value it is then never a surrogate).
pub open spec fn is_bmp_char(c: char) -> bool {
    &&& 0 <= (c as int) < 0x10000
    &&& !(0xD800 <= (c as int) <= 0xDFFF)
}

/// For text whose characters all lie below U+10000, the code units that
/// `from_str` stores contain no surrogate and decode back to the text, so
/// `to_string` gives back exactly the text that `from_str` was given.
pub proof fn lemma_bmp_round_trip(s: Seq<char>)
    requires
        forall|i: int| 0 <= i < s.len() ==> is_bmp_char(#[trigger] s[i]),
    ensures
        forall|i: int|
            0 <= i < truncated_units(s).len() ==> !is_surrogate(#[trigger] truncated_units(s)[i]),
        units_as_chars(truncated_units(s)) == s,
{
    assert forall|i: int| 0 <= i < s.len() implies (#[trigger] truncated_units(s)[i]) as char == s[i]
        && !is_surrogate(truncated_units(s)[i]) by {
        let c = s[i];
        assert(is_bmp_char(c));
        let x = c as u32;
        assert(x == c as int);
        assert(x % 0x10000 == x);
        let u = (x % 0x10000) as u16;
        assert(u == x);
        assert((u as char) as int == c as int);
        assert((u as char) == c);
    }
    assert(units_as_chars(truncated_units(s)) =~= s);
}

} // verus!
