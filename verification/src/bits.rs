//! Facts about masks and complements that the register code relies on.
use vstd::prelude::*;

verus! {

/// Whether bit `i` of `v` is set.
pub open spec fn bit8(v: u8, i: u8) -> bool {
    (v >> i) & 1 != 0
}

/// Whether bit `i` of `v` is set.
pub open spec fn bit16(v: u16, i: u16) -> bool {
    (v >> i) & 1 != 0
}

/// Whether bit `i` of `v` is set.
pub open spec fn bit32(v: u32, i: u32) -> bool {
    (v >> i) & 1 != 0
}

/// A value masked with `m` is at most `m`, at every width.
pub proof fn lemma_mask_bounds()
    by (bit_vector)
    ensures
        forall|a: u64, m: u64| #[trigger] (a & m) <= m,
        forall|a: u32, m: u32| #[trigger] (a & m) <= m,
        forall|a: u16, m: u16| #[trigger] (a & m) <= m,
        forall|a: u8, m: u8| #[trigger] (a & m) <= m,
        forall|a: usize, m: usize| #[trigger] (a & m) <= m,
{
}

/// The bitwise complement is the largest value minus the operand, and a
/// 32-bit value exclusive-ored with itself is zero.
pub proof fn lemma_not_is_complement()
    by (bit_vector)
    ensures
        forall|a: u64| #[trigger] !a == 0xFFFF_FFFF_FFFF_FFFFu64 - a,
        forall|a: u32| #[trigger] !a == 0xFFFF_FFFFu32 - a,
        forall|a: u32| #[trigger] (a ^ a) == 0u32,
        forall|a: u16| #[trigger] !a == 0xFFFFu16 - a,
        forall|a: u8| #[trigger] !a == 0xFFu8 - a,
{
}

/// An arithmetic right shift of an `i64` by 24 bits leaves a value of at
/// most 40 bits.
pub proof fn lemma_i64_shr24_bounds()
    by (bit_vector)
    ensures
        forall|x: i64|
            -0x80_0000_0000i64 <= #[trigger] (x >> 24u64) && (x >> 24u64) < 0x80_0000_0000i64,
{
}

} // verus!
