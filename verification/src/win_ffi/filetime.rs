use vstd::prelude::*;

verus! {

/// Number of distinct values of a 64-bit word.
pub open spec fn word64() -> int {
    0x1_0000_0000_0000_0000
}

/// Reduces an integer to the 64-bit word with the same residue.
pub open spec fn wrap64(x: int) -> int {
    x % word64()
}

/// Reads a 64-bit word as a two's-complement signed number.
pub open spec fn signed64(v: int) -> int {
    if v < 0x8000_0000_0000_0000 {
        v
    } else {
        v - word64()
    }
}

/// Whether `x` fits in an `i64`.
pub open spec fn fits_i64(x: int) -> bool {
    i64::MIN <= x <= i64::MAX
}

/// [`FILETIME`](https://learn.microsoft.com/en-us/windows/win32/api/minwinbase/ns-minwinbase-filetime):
/// a count of 100-nanosecond intervals split into two 32-bit halves.
#[derive(Debug, Clone, Copy, PartialEq, Eq, Structural)]
pub struct FILETIME {
    pub dwLowDateTime: u32,
    pub dwHighDateTime: u32,
}

impl FILETIME {
    /// The 64-bit count held by the two halves.
    pub open spec fn value(self) -> int {
        self.dwHighDateTime * 0x1_0000_0000 + self.dwLowDateTime
    }

    /// The `FILETIME` whose halves hold the 64-bit count `v`.
    pub open spec fn of_value(v: int) -> FILETIME {
        FILETIME {
            dwHighDateTime: (v / 0x1_0000_0000) as u32,
            dwLowDateTime: (v % 0x1_0000_0000) as u32,
        }
    }

    /// The time `ms` milliseconds later (earlier for negative `ms`), the count
    /// read as a signed number and the sum taken modulo 2^64.
    pub open spec fn shifted_ms(self, ms: int) -> FILETIME {
        FILETIME::of_value(wrap64(signed64(self.value()) + ms * 10_000))
    }

    /// Whether `add_ms(ms)` computes without overflowing its signed arithmetic.
    pub open spec fn add_ms_in_range(self, ms: int) -> bool {
        &&& fits_i64(ms * 10_000)
        &&& fits_i64(signed64(self.value()) + ms * 10_000)
    }

    pub fn to_u64(self) -> (r: u64)
        ensures
            r == self.value(),
    {
        let h = self.dwHighDateTime;
        let l = self.dwLowDateTime;
        let r = (h as u64) << 32 | (l as u64);
        assert(r == h * 0x1_0000_0000 + l) by (bit_vector)
            requires
                r == (h as u64) << 32 | (l as u64),
        ;
        r
    }

    pub fn from_u64(v: u64) -> (r: FILETIME)
        ensures
            r == FILETIME::of_value(v as int),
            r.value() == v,
    {
        let r = FILETIME { dwHighDateTime: (v >> 32) as u32, dwLowDateTime: v as u32 };
        assert((v >> 32) as u32 == v / 0x1_0000_0000) by (bit_vector);
        assert(v as u32 == v % 0x1_0000_0000) by (bit_vector);
        r
    }

    /// Returns a new `FILETIME` with the milliseconds difference.
    pub fn add_ms(self, ms: i64) -> (r: FILETIME)
        requires
            self.add_ms_in_range(ms as int),
        ensures
            r == self.shifted_ms(ms as int),
    {
        let v = self.to_u64();
        let self64 = v as i64;
        assert(self64 == signed64(v as int)) by (bit_vector)
            requires
                self64 == v as i64,
        ;
        let new_self64 = self64 + (ms * 10_000);
        let nv = new_self64 as u64;
        assert(nv == wrap64(new_self64 as int)) by (bit_vector)
            requires
                nv == new_self64 as u64,
        ;
        Self::from_u64(nv)
    }

    /// Returns a new `FILETIME` with the seconds difference.
    pub fn add_secs(self, secs: i64) -> (r: FILETIME)
        requires
            self.add_ms_in_range(secs * 1000),
        ensures
            r == self.shifted_ms(secs * 1000),
    {
        self.add_ms(secs * 1000)
    }

    /// Returns a new `FILETIME` with the minutes difference.
    pub fn add_mins(self, mins: i64) -> (r: FILETIME)
        requires
            self.add_ms_in_range(mins * 60_000),
        ensures
            r == self.shifted_ms(mins * 60_000),
    {
        self.add_secs(mins * 60)
    }

    /// Returns a new `FILETIME` with the hours difference.
    pub fn add_hours(self, hours: i64) -> (r: FILETIME)
        requires
            self.add_ms_in_range(hours * 3_600_000),
        ensures
            r == self.shifted_ms(hours * 3_600_000),
    {
        self.add_mins(hours * 60)
    }

    /// Returns a new `FILETIME` with the days difference.
    pub fn add_days(self, days: i64) -> (r: FILETIME)
        requires
            self.add_ms_in_range(days * 86_400_000),
        ensures
            r == self.shifted_ms(days * 86_400_000),
    {
        self.add_hours(days * 24)
    }
}

impl Default for FILETIME {
    fn default() -> (r: FILETIME)
        ensures
            r.dwLowDateTime == 0,
            r.dwHighDateTime == 0,
    {
        FILETIME { dwLowDateTime: 0, dwHighDateTime: 0 }
    }
}

impl From<u64> for FILETIME {
    fn from(v: u64) -> (r: FILETIME) {
        FILETIME { dwLowDateTime: v as u32, dwHighDateTime: (v >> 32) as u32 }
    }
}

impl vstd::std_specs::convert::FromSpecImpl<u64> for FILETIME {
    open spec fn obeys_from_spec() -> bool {
        true
    }

    open spec fn from_spec(v: u64) -> FILETIME {
        FILETIME { dwLowDateTime: v as u32, dwHighDateTime: (v >> 32) as u32 }
    }
}

impl From<FILETIME> for u64 {
    fn from(v: FILETIME) -> (r: u64) {
        ((v.dwHighDateTime as u64) << 32) | (v.dwLowDateTime as u64)
    }
}

impl vstd::std_specs::convert::FromSpecImpl<FILETIME> for u64 {
    open spec fn obeys_from_spec() -> bool {
        true
    }

    open spec fn from_spec(v: FILETIME) -> u64 {
        ((v.dwHighDateTime as u64) << 32) | (v.dwLowDateTime as u64)
    }
}

/// Splitting a 64-bit count into halves and joining them back gives the
/// count again, and joining then splitting gives the halves again.
pub proof fn lemma_u64_round_trip(v: u64, f: FILETIME)
    ensures
        FILETIME::of_value(v as int).value() == v,
        FILETIME::of_value(f.value()) == f,
{
    assert(f.value() / 0x1_0000_0000 == f.dwHighDateTime) by (nonlinear_arith)
        requires
            f.value() == f.dwHighDateTime * 0x1_0000_0000 + f.dwLowDateTime,
            0 <= f.dwLowDateTime < 0x1_0000_0000,
    ;
    assert(f.value() % 0x1_0000_0000 == f.dwLowDateTime) by (nonlinear_arith)
        requires
            f.value() == f.dwHighDateTime * 0x1_0000_0000 + f.dwLowDateTime,
            0 <= f.dwLowDateTime < 0x1_0000_0000,
    ;
    assert(FILETIME::of_value(v as int).value() == v) by (nonlinear_arith)
        requires
            0 <= v < 0x1_0000_0000_0000_0000,
            FILETIME::of_value(v as int).dwHighDateTime == v / 0x1_0000_0000,
            FILETIME::of_value(v as int).dwLowDateTime == v % 0x1_0000_0000,
    ;
}

/// The `From` conversions agree with `to_u64` and `from_u64`.
pub proof fn lemma_from_agrees(v: u64, f: FILETIME)
    ensures
        <FILETIME as vstd::std_specs::convert::FromSpec<u64>>::from_spec(v)
            == FILETIME::of_value(v as int),
        <u64 as vstd::std_specs::convert::FromSpec<FILETIME>>::from_spec(f) == f.value(),
{
    let h = f.dwHighDateTime;
    let l = f.dwLowDateTime;
    assert(((h as u64) << 32) | (l as u64) == h * 0x1_0000_0000 + l) by (bit_vector);
    assert((v >> 32) as u32 == v / 0x1_0000_0000) by (bit_vector);
    assert(v as u32 == v % 0x1_0000_0000) by (bit_vector);
}

/// Shifting by `a` and then by `b` milliseconds is shifting by `a + b`.
pub proof fn lemma_shift_compose(f: FILETIME, a: int, b: int)
    ensures
        f.shifted_ms(a).shifted_ms(b) == f.shifted_ms(a + b),
{
    let x = signed64(f.value()) + a * 10_000;
    let w = wrap64(x);
    assert(0 <= w < word64());
    lemma_u64_round_trip(w as u64, f);
    assert(FILETIME::of_value(w).value() == w);
    let y = b * 10_000;
    // signed64(w) + y and x + y differ by a multiple of 2^64
    let k: int = if w < 0x8000_0000_0000_0000 { 0 } else { 1 };
    assert(signed64(w) == w - k * word64());
    vstd::arithmetic::div_mod::lemma_fundamental_div_mod(x, word64());
    let m = x / word64();
    assert(w == x - m * word64());
    assert(signed64(w) + y == (x + y) + (-(k + m)) * word64()) by (nonlinear_arith)
        requires
            signed64(w) == w - k * word64(),
            w == x - m * word64(),
    ;
    vstd::arithmetic::div_mod::lemma_mod_multiples_vanish(-(k + m), x + y, word64());
    assert(word64() * (-(k + m)) + (x + y) == signed64(w) + y) by (nonlinear_arith)
        requires
            signed64(w) + y == (x + y) + (-(k + m)) * word64(),
    ;
    assert(x + y == signed64(f.value()) + (a + b) * 10_000) by (nonlinear_arith)
        requires
            x == signed64(f.value()) + a * 10_000,
            y == b * 10_000,
    ;
}

/// Shifting by zero milliseconds leaves the time unchanged.
pub proof fn lemma_shift_zero(f: FILETIME)
    ensures
        f.shifted_ms(0) == f,
{
    let v = f.value();
    lemma_u64_round_trip(0, f);
    assert(0 <= v < word64()) by (nonlinear_arith)
        requires
            v == f.dwHighDateTime * 0x1_0000_0000 + f.dwLowDateTime,
            0 <= f.dwLowDateTime < 0x1_0000_0000,
            0 <= f.dwHighDateTime < 0x1_0000_0000,
    ;
    if v < 0x8000_0000_0000_0000 {
        vstd::arithmetic::div_mod::lemma_small_mod(v as nat, word64() as nat);
    } else {
        vstd::arithmetic::div_mod::lemma_mod_multiples_vanish(-1, v, word64());
        vstd::arithmetic::div_mod::lemma_small_mod(v as nat, word64() as nat);
    }
}

} // verus!
