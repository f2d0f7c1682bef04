//! The ARM9's hardware divider and square-root unit.
use vstd::prelude::*;
use crate::mmu::{read_byte_u32, read_byte_u64, write_byte_u64};
use crate::bits::lemma_not_is_complement;

verus! {

/// The smallest signed 64-bit number.
pub open spec fn i64_min() -> int {
    -0x8000_0000_0000_0000
}

/// 2^64.
pub open spec fn u64_modulus() -> int {
    0x1_0000_0000_0000_0000
}

/// The low 32 bits of `v` read as a signed number.
pub open spec fn low_i32(v: u64) -> int {
    let lo = v % 0x1_0000_0000;
    if lo >= 0x8000_0000 {
        lo - 0x1_0000_0000
    } else {
        lo as int
    }
}

/// `v` read as a signed 64-bit number.
pub open spec fn as_i64(v: u64) -> int {
    if v >= 0x8000_0000_0000_0000 {
        v - u64_modulus()
    } else {
        v as int
    }
}

/// The two's-complement bits of a signed 64-bit number.
pub open spec fn to_u64(x: int) -> u64 {
    if x < 0 {
        (x + u64_modulus()) as u64
    } else {
        x as u64
    }
}

/// `|x|`.
pub open spec fn abs(x: int) -> nat {
    if x >= 0 {
        x as nat
    } else {
        (-x) as nat
    }
}

/// Division rounding toward zero, as Rust's `/` on signed numbers.
pub open spec fn trunc_div(n: int, d: int) -> int {
    let q = abs(n) / abs(d);
    if (n >= 0) == (d >= 0) {
        q as int
    } else {
        -q
    }
}

/// A quotient is no larger in magnitude than its dividend.
pub proof fn lemma_trunc_div_bound(n: int, d: int)
    requires
        d != 0,
    ensures
        abs(trunc_div(n, d)) <= abs(n),
        -abs(n) <= trunc_div(n, d) <= abs(n),
        abs(d) >= 2 ==> 2 * abs(trunc_div(n, d)) <= abs(n),
{
    let an = abs(n) as int;
    let ad = abs(d) as int;
    if ad >= 2 {
        assert(2 * (an / ad) <= an) by (nonlinear_arith)
            requires
                an >= 0,
                ad >= 2;
    }
    assert(an / ad <= an) by (nonlinear_arith)
        requires
            an >= 0,
            ad >= 1;
    assert(an / ad >= 0) by (nonlinear_arith)
        requires
            an >= 0,
            ad >= 1;
}

/// The remainder of `trunc_div`, which has the sign of `n`, as Rust's `%`.
pub open spec fn trunc_rem(n: int, d: int) -> int {
    let r = abs(n) % abs(d);
    if n >= 0 {
        r as int
    } else {
        -r
    }
}

/// The signed operands of a division in `mode`: mode 0 divides 32 by 32
/// bits, mode 1 64 by 32 bits, mode 2 64 by 64 bits.
pub open spec fn div_operands(mode: u8, numer: u64, denom: u64) -> (int, int) {
    if mode == 0 {
        (low_i32(numer), low_i32(denom))
    } else if mode == 1 {
        (as_i64(numer), low_i32(denom))
    } else {
        (as_i64(numer), as_i64(denom))
    }
}

/// In 32-bit mode the upper half of a special-case quotient is inverted.
pub open spec fn invert_if_32(mode: u8, q: u64) -> u64 {
    if mode == 0 {
        q ^ 0xFFFF_FFFF_0000_0000u64
    } else {
        q
    }
}

/// The quotient and remainder registers after a division in `mode`.
pub open spec fn div_outcome(mode: u8, numer: u64, denom: u64) -> (u64, u64) {
    let (n, d) = div_operands(mode, numer, denom);
    if n == i64_min() && d == -1 {
        (invert_if_32(mode, to_u64(n)), 0)
    } else if d == 0 {
        (invert_if_32(mode, to_u64(if n < 0 { 1int } else { -1int })), to_u64(n))
    } else {
        (to_u64(trunc_div(n, d)), to_u64(trunc_rem(n, d)))
    }
}

/// A signed division by a non-zero divisor gives back the dividend:
/// `n == d * q + r`, with `|r| < |d|` and `r` of the sign of `n`.
pub proof fn lemma_trunc_div_rem(n: int, d: int)
    requires
        d != 0,
    ensures
        n == d * trunc_div(n, d) + trunc_rem(n, d),
        abs(trunc_rem(n, d)) < abs(d),
        trunc_rem(n, d) == 0 || (trunc_rem(n, d) > 0) == (n > 0),
{
    let an = abs(n) as int;
    let ad = abs(d) as int;
    vstd::arithmetic::div_mod::lemma_fundamental_div_mod(an, ad);
    let q = an / ad;
    let r = an % ad;
    assert(an == ad * q + r);
    if n >= 0 && d >= 0 {
    } else if n >= 0 && d < 0 {
        assert(d * (-q) == ad * q) by (nonlinear_arith)
            requires
                ad == -d;
    } else if n < 0 && d >= 0 {
        assert(d * (-q) == -(ad * q)) by (nonlinear_arith)
            requires
                ad == d;
    } else {
        assert(d * q == -(ad * q)) by (nonlinear_arith)
            requires
                ad == -d;
    }
}

/// Reading back the two's-complement bits of a signed 64-bit number gives
/// the number.
pub proof fn lemma_as_i64_to_u64(x: int)
    requires
        i64_min() <= x < 0x8000_0000_0000_0000,
    ensures
        as_i64(to_u64(x)) == x,
{
}

/// In 32/32-bit mode only the low words of the operands count, each read
/// as a signed 32-bit number `a` and `b`: whatever the upper halves hold,
/// the outcome is that of the low words alone, and for `b != 0` the
/// registers hold the signed quotient `q` and remainder `r` of a division
/// rounding toward zero: `a == b * q + r`, `|r| < |b|`, and `r` has the
/// sign of `a` (or is zero).
pub proof fn lemma_div32_uses_low_words(numer: u64, denom: u64)
    ensures
        div_outcome(0, numer, denom) == div_outcome(
            0,
            numer % 0x1_0000_0000,
            denom % 0x1_0000_0000,
        ),
        ({
            let a = low_i32(numer);
            let b = low_i32(denom);
            let q = as_i64(div_outcome(0, numer, denom).0);
            let r = as_i64(div_outcome(0, numer, denom).1);
            b != 0 ==> {
                &&& a == b * q + r
                &&& abs(r) < abs(b)
                &&& (r == 0 || (r > 0) == (a > 0))
            }
        }),
{
    let a = low_i32(numer);
    let b = low_i32(denom);
    assert(low_i32(numer % 0x1_0000_0000) == a);
    assert(low_i32(denom % 0x1_0000_0000) == b);
    assert(-0x8000_0000 <= a < 0x8000_0000);
    if b != 0 {
        lemma_trunc_div_rem(a, b);
        lemma_trunc_div_bound(a, b);
        lemma_as_i64_to_u64(trunc_div(a, b));
        lemma_as_i64_to_u64(trunc_rem(a, b));
    }
}

/// In 64/32-bit mode (1) the numerator is the full signed 64-bit number
/// `a` and only the divisor's low word counts, read as a signed 32-bit
/// number `b`; in 64/64-bit mode (2) both are full signed 64-bit numbers.
/// Short of dividing by zero and of the one overflowing case (the most
/// negative number by -1, which leaves the numerator as the quotient and a
/// zero remainder), the registers hold the quotient and remainder of a
/// division rounding toward zero: `a == b * q + r`, `|r| < |b|`, and `r`
/// has the sign of `a` (or is zero).
pub proof fn lemma_div64(mode: u8, numer: u64, denom: u64)
    requires
        mode == 1 || mode == 2,
    ensures
        mode == 1 ==> div_outcome(1, numer, denom) == div_outcome(1, numer, denom % 0x1_0000_0000),
        ({
            let a = as_i64(numer);
            let b = if mode == 1 { low_i32(denom) } else { as_i64(denom) };
            let q = as_i64(div_outcome(mode, numer, denom).0);
            let r = as_i64(div_outcome(mode, numer, denom).1);
            &&& (b != 0 && !(a == i64_min() && b == -1)) ==> {
                &&& a == b * q + r
                &&& abs(r) < abs(b)
                &&& (r == 0 || (r > 0) == (a > 0))
            }
            &&& (a == i64_min() && b == -1) ==> div_outcome(mode, numer, denom) == (numer, 0u64)
        }),
{
    let a = as_i64(numer);
    let b = if mode == 1 { low_i32(denom) } else { as_i64(denom) };
    assert(low_i32(denom % 0x1_0000_0000) == low_i32(denom));
    if b != 0 && !(a == i64_min() && b == -1) {
        lemma_trunc_div_rem(a, b);
        lemma_trunc_div_bound(a, b);
        let q = trunc_div(a, b);
        if a == i64_min() {
            assert(abs(b) >= 2 || b == 1);
        }
        assert(i64_min() <= q < 0x8000_0000_0000_0000);
        lemma_as_i64_to_u64(q);
        lemma_as_i64_to_u64(trunc_rem(a, b));
    }
}

/// Dividing by zero (a zero divisor, of which modes 0 and 1 read only the
/// low word) leaves the numerator, as the mode reads it, in the remainder
/// register.
pub proof fn lemma_div_by_zero(mode: u8, numer: u64, denom: u64)
    requires
        mode < 3,
        if mode == 2 {
            denom == 0
        } else {
            denom % 0x1_0000_0000 == 0
        },
    ensures
        as_i64(div_outcome(mode, numer, denom).1) == (if mode == 0 { low_i32(numer) } else { as_i64(numer) }),
{
    let a = div_operands(mode, numer, denom).0;
    lemma_as_i64_to_u64(a);
}

/// `|x|` as an unsigned number.
fn abs_i64(x: i64) -> (r: u64)
    ensures
        r == abs(x as int),
{
    if x >= 0 {
        x as u64
    } else {
        ((-(x + 1)) as u64) + 1
    }
}

/// The two's-complement bits of `x`.
fn i64_bits(x: i64) -> (r: u64)
    ensures
        r == to_u64(x as int),
{
    if x >= 0 {
        x as u64
    } else {
        let m: u64 = (-(x + 1)) as u64;
        proof {
            lemma_not_is_complement();
        }
        !m
    }
}

/// The low 32 bits of `v` as a signed number.
fn low_i32_exec(v: u64) -> (r: i64)
    ensures
        r == low_i32(v),
{
    let lo: u64 = v % 0x1_0000_0000;
    if lo >= 0x8000_0000 {
        lo as i64 - 0x1_0000_0000
    } else {
        lo as i64
    }
}

/// `v` read as a signed number.
fn as_i64_exec(v: u64) -> (r: i64)
    ensures
        r == as_i64(v),
{
    if v >= 0x8000_0000_0000_0000 {
        proof {
            lemma_not_is_complement();
        }
        let m: u64 = !v;
        -(m as i64) - 1
    } else {
        v as i64
    }
}

/// Signed division and remainder rounding toward zero.
pub(crate) fn trunc_div_rem(n: i64, d: i64) -> (r: (i64, i64))
    requires
        d != 0,
        !(n == i64::MIN && d == -1),
    ensures
        r.0 == trunc_div(n as int, d as int),
        r.1 == trunc_rem(n as int, d as int),
{
    let an = abs_i64(n);
    let ad = abs_i64(d);
    let qm = an / ad;
    let rm = an % ad;
    proof {
        vstd::arithmetic::div_mod::lemma_div_is_ordered_by_denominator(an as int, 1, ad as int);
        assert(an as int / 1 == an);
    }
    let q: i64 = if (n >= 0) == (d >= 0) {
        assert(qm < 0x8000_0000_0000_0000u64) by {
            if an == 0x8000_0000_0000_0000u64 {
                assert(n == i64::MIN);
                assert(d < 0 && d != -1);
                assert(ad >= 2);
                vstd::arithmetic::div_mod::lemma_div_is_ordered_by_denominator(an as int, 2, ad as int);
            }
        }
        qm as i64
    } else {
        if qm == 0x8000_0000_0000_0000u64 {
            i64::MIN
        } else {
            -(qm as i64)
        }
    };
    let r: i64 = if n >= 0 {
        rm as i64
    } else {
        -(rm as i64)
    };
    (q, r)
}

/// One of the 64-bit parameter or result registers of the math units.
pub struct MathParam {
    pub value: u64,
}

impl MathParam {
    pub fn new() -> (r: MathParam)
        ensures
            r.value == 0,
    {
        MathParam { value: 0 }
    }

    /// Byte `byte` of the register.
    pub fn read(&self, byte: usize) -> (r: u8)
        requires
            byte < 8,
        ensures
            r == ((self.value >> (8 * byte) as u64) & 0xFF) as u8,
    {
        read_byte_u64(self.value, byte)
    }

    /// Replaces byte `byte` of the register.
    pub fn write(&mut self, byte: usize, value: u8)
        requires
            byte < 8,
        ensures
            final(self).value == (old(self).value & !(0xFFu64 << (8 * byte) as u64)) | ((
            value as u64) << (8 * byte) as u64),
    {
        self.value = write_byte_u64(self.value, byte, value);
    }
}

/// The divider's control register.
pub struct DIVCNT {
    pub mode: u8,
    pub div_by_0: bool,
    pub busy: bool,
}

impl DIVCNT {
    pub fn new() -> (r: DIVCNT)
        ensures
            r.mode == 0,
            !r.div_by_0,
            !r.busy,
    {
        DIVCNT { mode: 0, div_by_0: false, busy: false }
    }

    /// Byte `byte` of the register: the mode, then the busy and
    /// division-by-zero flags.
    pub fn read(&self, byte: usize) -> (r: u8)
        requires
            byte < 4,
            self.mode < 4,
        ensures
            r == (if byte == 0 {
                self.mode
            } else if byte == 1 {
                ((if self.busy { 0x80u8 } else { 0u8 }) | (if self.div_by_0 { 0x40u8 } else { 0u8 }))
            } else {
                0u8
            }),
    {
        if byte == 0 {
            self.mode
        } else if byte == 1 {
            (if self.busy { 0x80u8 } else { 0u8 }) | (if self.div_by_0 { 0x40u8 } else { 0u8 })
        } else {
            0
        }
    }

    /// Writes byte `byte`: byte 0 selects the mode; the rest is read-only.
    pub fn write(&mut self, byte: usize, value: u8)
        requires
            byte < 4,
        ensures
            final(self).mode == (if byte == 0 { value & 0x3 } else { old(self).mode }),
            final(self).div_by_0 == old(self).div_by_0,
            final(self).busy == old(self).busy,
    {
        if byte == 0 {
            self.mode = value & 0x3;
        }
    }
}

/// The hardware divider: numerator and denominator in, quotient and
/// remainder out, recomputed on every write of an operand.
pub struct Div {
    pub cnt: DIVCNT,
    pub numer: MathParam,
    pub denom: MathParam,
    pub quot: MathParam,
    pub rem: MathParam,
}

impl Div {
    pub fn new() -> (r: Div)
        ensures
            r.cnt.mode == 0,
            !r.cnt.div_by_0,
            !r.cnt.busy,
            r.numer.value == 0,
            r.denom.value == 0,
            r.quot.value == 0,
            r.rem.value == 0,
    {
        Div {
            cnt: DIVCNT::new(),
            numer: MathParam::new(),
            denom: MathParam::new(),
            quot: MathParam::new(),
            rem: MathParam::new(),
        }
    }

    /// Recomputes the quotient, the remainder and the division-by-zero
    /// flag from the operands.
    pub fn calc(&mut self)
        requires
            old(self).cnt.mode < 3,
        ensures
            final(self).cnt.div_by_0 == (old(self).denom.value == 0),
            final(self).cnt.mode == old(self).cnt.mode,
            final(self).cnt.busy == old(self).cnt.busy,
            final(self).numer == old(self).numer,
            final(self).denom == old(self).denom,
            (final(self).quot.value, final(self).rem.value) == div_outcome(
                old(self).cnt.mode,
                old(self).numer.value,
                old(self).denom.value,
            ),
    {
        self.cnt.div_by_0 = self.denom.value == 0;
        let mode = self.cnt.mode;
        let (numer, denom): (i64, i64) = if mode == 0 {
            (low_i32_exec(self.numer.value), low_i32_exec(self.denom.value))
        } else if mode == 1 {
            (as_i64_exec(self.numer.value), low_i32_exec(self.denom.value))
        } else {
            (as_i64_exec(self.numer.value), as_i64_exec(self.denom.value))
        };
        if numer == i64::MIN && denom == -1 {
            let mut q = i64_bits(numer);
            if mode == 0 {
                q = q ^ 0xFFFF_FFFF_0000_0000;
            }
            self.quot.value = q;
            self.rem.value = 0;
        } else if denom == 0 {
            let mut q: u64 = if numer == 0 {
                i64_bits(-1)
            } else if numer > 0 {
                i64_bits(-1)
            } else {
                i64_bits(1)
            };
            if mode == 0 {
                q = q ^ 0xFFFF_FFFF_0000_0000;
            }
            self.quot.value = q;
            self.rem.value = i64_bits(numer);
        } else {
            let (q, r) = trunc_div_rem(numer, denom);
            self.quot.value = i64_bits(q);
            self.rem.value = i64_bits(r);
        }
    }

    pub fn read_numer(&self, byte: usize) -> (r: u8)
        requires
            byte < 8,
        ensures
            r == ((self.numer.value >> (8 * byte) as u64) & 0xFF) as u8,
    {
        self.numer.read(byte)
    }

    pub fn read_denom(&self, byte: usize) -> (r: u8)
        requires
            byte < 8,
        ensures
            r == ((self.denom.value >> (8 * byte) as u64) & 0xFF) as u8,
    {
        self.denom.read(byte)
    }

    pub fn read_quot(&self, byte: usize) -> (r: u8)
        requires
            byte < 8,
        ensures
            r == ((self.quot.value >> (8 * byte) as u64) & 0xFF) as u8,
    {
        self.quot.read(byte)
    }

    pub fn read_rem(&self, byte: usize) -> (r: u8)
        requires
            byte < 8,
        ensures
            r == ((self.rem.value >> (8 * byte) as u64) & 0xFF) as u8,
    {
        self.rem.read(byte)
    }

    /// Writes a byte of the numerator and recomputes the results.
    pub fn write_numer(&mut self, byte: usize, value: u8)
        requires
            byte < 8,
            old(self).cnt.mode < 3,
        ensures
            final(self).numer.value == (old(self).numer.value & !(0xFFu64 << (8 * byte) as u64))
                | ((value as u64) << (8 * byte) as u64),
            final(self).denom == old(self).denom,
            final(self).cnt.mode == old(self).cnt.mode,
            final(self).cnt.div_by_0 == (old(self).denom.value == 0),
            (final(self).quot.value, final(self).rem.value) == div_outcome(
                old(self).cnt.mode,
                final(self).numer.value,
                final(self).denom.value,
            ),
    {
        self.numer.write(byte, value);
        self.calc();
    }

    /// Writes a byte of the denominator and recomputes the results.
    pub fn write_denom(&mut self, byte: usize, value: u8)
        requires
            byte < 8,
            old(self).cnt.mode < 3,
        ensures
            final(self).denom.value == (old(self).denom.value & !(0xFFu64 << (8 * byte) as u64))
                | ((value as u64) << (8 * byte) as u64),
            final(self).numer == old(self).numer,
            final(self).cnt.mode == old(self).cnt.mode,
            final(self).cnt.div_by_0 == (final(self).denom.value == 0),
            (final(self).quot.value, final(self).rem.value) == div_outcome(
                old(self).cnt.mode,
                final(self).numer.value,
                final(self).denom.value,
            ),
    {
        self.denom.write(byte, value);
        self.calc();
    }
}


/// Whether `r` is the integer square root of `x`: `r² <= x < (r + 1)²`.
pub open spec fn is_isqrt(x: int, r: int) -> bool {
    0 <= r && r * r <= x < (r + 1) * (r + 1)
}

/// Calls `num_integer::Roots::sqrt` on a `u64`. Its documentation states
/// that the result is the truncated square root, `r² <= x < (r + 1)²`; for
/// an unsigned number it never panics.
#[verifier::external_body]
fn isqrt_u64(x: u64) -> (r: u64)
    ensures
        is_isqrt(x as int, r as int),
{
    num_integer::Roots::sqrt(&x)
}

/// Calls `num_integer::Roots::sqrt` on a `u32`, with the same contract as
/// for `u64`.
#[verifier::external_body]
fn isqrt_u32(x: u32) -> (r: u32)
    ensures
        is_isqrt(x as int, r as int),
{
    num_integer::Roots::sqrt(&x)
}

proof fn lemma_isqrt_below_2_32(x: int, r: int)
    requires
        0 <= x < 0x1_0000_0000_0000_0000,
        is_isqrt(x, r),
    ensures
        r < 0x1_0000_0000,
{
    if r >= 0x1_0000_0000 {
        assert(r * r >= 0x1_0000_0000 * 0x1_0000_0000) by (nonlinear_arith)
            requires
                r >= 0x1_0000_0000;
    }
}

/// The square-root unit's control register.
pub struct SQRTCNT {
    pub is_64bit: bool,
    pub busy: bool,
}

impl SQRTCNT {
    pub fn new() -> (r: SQRTCNT)
        ensures
            !r.is_64bit,
            !r.busy,
    {
        SQRTCNT { is_64bit: false, busy: false }
    }

    /// Byte `byte`: the 64-bit mode flag, then the busy flag.
    pub fn read(&self, byte: usize) -> (r: u8)
        requires
            byte < 4,
        ensures
            r == (if byte == 0 {
                if self.is_64bit { 1u8 } else { 0u8 }
            } else if byte == 1 {
                if self.busy { 0x80u8 } else { 0u8 }
            } else {
                0u8
            }),
    {
        if byte == 0 {
            if self.is_64bit { 1 } else { 0 }
        } else if byte == 1 {
            if self.busy { 0x80 } else { 0 }
        } else {
            0
        }
    }

    /// Writes byte `byte`: bit 0 of byte 0 selects 64-bit mode.
    pub fn write(&mut self, byte: usize, value: u8)
        requires
            byte < 4,
        ensures
            final(self).is_64bit == (if byte == 0 { value & 0x1 != 0 } else { old(self).is_64bit }),
            final(self).busy == old(self).busy,
    {
        if byte == 0 {
            self.is_64bit = value & 0x1 != 0;
        }
    }
}

/// The square-root unit: the result is the integer square root of the
/// parameter (of its low 32 bits unless 64-bit mode is on).
pub struct Sqrt {
    pub cnt: SQRTCNT,
    pub param: MathParam,
    pub result: u32,
}

/// The square-root unit's operand in the current mode.
pub open spec fn sqrt_operand(is_64bit: bool, param: u64) -> int {
    if is_64bit {
        param as int
    } else {
        (param % 0x1_0000_0000) as int
    }
}

impl Sqrt {
    pub fn new() -> (r: Sqrt)
        ensures
            !r.cnt.is_64bit,
            r.param.value == 0,
            r.result == 0,
    {
        Sqrt { cnt: SQRTCNT::new(), param: MathParam::new(), result: 0 }
    }

    pub fn read_param(&self, byte: usize) -> (r: u8)
        requires
            byte < 8,
        ensures
            r == ((self.param.value >> (8 * byte) as u64) & 0xFF) as u8,
    {
        self.param.read(byte)
    }

    pub fn read_result(&self, byte: usize) -> (r: u8)
        requires
            byte < 4,
        ensures
            r == ((self.result >> (8 * byte) as u32) & 0xFF) as u8,
    {
        read_byte_u32(self.result, byte)
    }

    /// Writes a byte of the parameter and recomputes the root.
    pub fn write_param(&mut self, byte: usize, value: u8)
        requires
            byte < 8,
        ensures
            final(self).param.value == (old(self).param.value & !(0xFFu64 << (8 * byte) as u64))
                | ((value as u64) << (8 * byte) as u64),
            final(self).cnt == old(self).cnt,
            is_isqrt(
                sqrt_operand(old(self).cnt.is_64bit, final(self).param.value),
                final(self).result as int,
            ),
    {
        self.param.write(byte, value);
        if self.cnt.is_64bit {
            let r = isqrt_u64(self.param.value);
            proof {
                lemma_isqrt_below_2_32(self.param.value as int, r as int);
            }
            self.result = r as u32;
        } else {
            let low: u32 = (self.param.value % 0x1_0000_0000) as u32;
            self.result = isqrt_u32(low);
        }
    }
}

/// The integer square root is unique: whatever computes it, only one value
/// meets `r² <= x < (r + 1)²`.
pub proof fn lemma_isqrt_unique(x: int, r1: int, r2: int)
    requires
        is_isqrt(x, r1),
        is_isqrt(x, r2),
    ensures
        r1 == r2,
{
    if r1 < r2 {
        assert((r1 + 1) * (r1 + 1) <= r2 * r2) by (nonlinear_arith)
            requires
                0 <= r1 < r2;
    } else if r2 < r1 {
        assert((r2 + 1) * (r2 + 1) <= r1 * r1) by (nonlinear_arith)
            requires
                0 <= r2 < r1;
    }
}

} // verus!
