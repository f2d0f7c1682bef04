//! Packed bit fields inside an unsigned integer of up to 64 bits.
//!
//! A layout names, for each field, an inclusive bit range `lo..=hi`.
//! `check_layout` decides whether a layout is acceptable (every range in
//! bounds, no two ranges overlapping, every bit of the base type covered);
//! the accessor functions read and write one field or one byte of a value.
use vstd::prelude::*;

verus! {

/// The mask of `width` consecutive low bits, for `1 <= width <= 64`.
pub open spec fn low_mask(width: u64) -> u64 {
    if width >= 64 {
        0xFFFF_FFFF_FFFF_FFFFu64
    } else {
        ((1u64 << width) - 1) as u64
    }
}

/// The mask with exactly the bits `lo..=hi` set.
pub open spec fn range_mask(lo: u64, hi: u64) -> u64 {
    low_mask((hi - lo + 1) as u64) << lo
}

/// The value held in bits `lo..=hi` of `v`, shifted down to bit 0.
pub open spec fn field_of(v: u64, lo: u64, hi: u64) -> u64 {
    (v >> lo) & low_mask((hi - lo + 1) as u64)
}

/// `v` with bits `lo..=hi` replaced by the low bits of `x`.
pub open spec fn with_field(v: u64, lo: u64, hi: u64, x: u64) -> u64 {
    (v & !range_mask(lo, hi)) | ((x & low_mask((hi - lo + 1) as u64)) << lo)
}

/// Byte `i` of `v` (byte 0 is the least significant).
pub open spec fn byte_of(v: u64, i: u64) -> u8 {
    ((v >> (8 * i)) & 0xFF) as u8
}

/// `v` with byte `i` replaced by `b`.
pub open spec fn with_byte(v: u64, i: u64, b: u8) -> u64 {
    (v & !(0xFFu64 << (8 * i))) | ((b as u64) << (8 * i))
}

/// The mask of `width` low bits.
pub fn low_mask_exec(width: u8) -> (m: u64)
    requires
        1 <= width <= 64,
    ensures
        m == low_mask(width as u64),
{
    let w: u64 = width as u64;
    let shifted: u64 = (1u64 << (w - 1)) << 1u64;
    assert((shifted == 0 ==> w == 64) && (shifted != 0 ==> shifted == 1u64 << w && w < 64
        && shifted >= 1)) by (bit_vector)
        requires
            1 <= w <= 64,
            shifted == (1u64 << (sub_one(w))) << 1u64,
            sub_one(w) == (w - 1) as u64;
    if shifted == 0 {
        0xFFFF_FFFF_FFFF_FFFFu64
    } else {
        shifted - 1
    }
}

/// `w - 1` for a positive `w`.
pub open spec fn sub_one(w: u64) -> u64 {
    (w - 1) as u64
}

/// The mask of bits `lo..=hi`.
pub fn range_mask_exec(lo: u8, hi: u8) -> (m: u64)
    requires
        lo <= hi < 64,
    ensures
        m == range_mask(lo as u64, hi as u64),
{
    let m = low_mask_exec(hi - lo + 1);
    m << (lo as u64)
}

/// Reads the field in bits `lo..=hi` of `value`.
pub fn get_field(value: u64, lo: u8, hi: u8) -> (r: u64)
    requires
        lo <= hi < 64,
    ensures
        r == field_of(value, lo as u64, hi as u64),
{
    let mask = low_mask_exec(hi - lo + 1);
    (value >> (lo as u64)) & mask
}

/// Reads the one-bit field at `bit` of `value`.
pub fn get_flag(value: u64, bit: u8) -> (r: bool)
    requires
        bit < 64,
    ensures
        r == (field_of(value, bit as u64, bit as u64) != 0),
{
    get_field(value, bit, bit) != 0
}

/// Writes the low bits of `x` into the field in bits `lo..=hi` of `value`.
pub fn set_field(value: u64, lo: u8, hi: u8, x: u64) -> (r: u64)
    requires
        lo <= hi < 64,
    ensures
        r == with_field(value, lo as u64, hi as u64, x),
{
    let mask = low_mask_exec(hi - lo + 1);
    (value & !(mask << (lo as u64))) | ((x & mask) << (lo as u64))
}

/// Writes a one-bit field.
pub fn set_flag(value: u64, bit: u8, x: bool) -> (r: u64)
    requires
        bit < 64,
    ensures
        r == with_field(value, bit as u64, bit as u64, if x { 1 } else { 0 }),
{
    set_field(value, bit, bit, if x { 1 } else { 0 })
}

/// Reads byte `i` of `value`.
pub fn get_byte(value: u64, i: u8) -> (r: u8)
    requires
        i < 8,
    ensures
        r == byte_of(value, i as u64),
{
    let shift: u64 = 8 * (i as u64);
    ((value >> shift) & 0xFF) as u8
}

/// Writes byte `i` of `value`.
pub fn set_byte(value: u64, i: u8, b: u8) -> (r: u64)
    requires
        i < 8,
    ensures
        r == with_byte(value, i as u64, b),
{
    let shift: u64 = 8 * (i as u64);
    let cleared = value & !(0xFFu64 << shift);
    cleared | ((b as u64) << shift)
}


/// Reading a field right after writing it gives back the written value, cut
/// to the field's width.
pub proof fn lemma_get_after_set(v: u64, lo: u64, hi: u64, x: u64)
    requires
        lo <= hi < 64,
    ensures
        field_of(with_field(v, lo, hi, x), lo, hi) == x & low_mask((hi - lo + 1) as u64),
{
    lemma_field_write(v, lo, (hi - lo + 1) as u64, low_mask((hi - lo + 1) as u64), x);
}

proof fn lemma_field_write(v: u64, lo: u64, w: u64, m: u64, x: u64)
    by (bit_vector)
    requires
        1 <= w <= 64,
        lo + w <= 64,
        w == 64 ==> m == 0xFFFF_FFFF_FFFF_FFFFu64,
        w < 64 ==> m == ((1u64 << w) - 1) as u64,
    ensures
        (((v & !(m << lo)) | ((x & m) << lo)) >> lo) & m == x & m,
        ((v & !(m << lo)) | ((x & m) << lo)) & !(m << lo) == v & !(m << lo),
{
}

/// Writing a field leaves every bit outside `lo..=hi` as it was.
pub proof fn lemma_set_keeps_other_bits(v: u64, lo: u64, hi: u64, x: u64)
    requires
        lo <= hi < 64,
    ensures
        with_field(v, lo, hi, x) & !range_mask(lo, hi) == v & !range_mask(lo, hi),
{
    lemma_field_write(v, lo, (hi - lo + 1) as u64, low_mask((hi - lo + 1) as u64), x);
}

/// Writing one field does not change a field whose range is disjoint from it.
pub proof fn lemma_set_keeps_disjoint_field(v: u64, lo: u64, hi: u64, x: u64, lo2: u64, hi2: u64)
    requires
        lo <= hi < 64,
        lo2 <= hi2 < 64,
        hi < lo2 || hi2 < lo,
    ensures
        field_of(with_field(v, lo, hi, x), lo2, hi2) == field_of(v, lo2, hi2),
{
    let w = (hi - lo + 1) as u64;
    let w2 = (hi2 - lo2 + 1) as u64;
    let m = low_mask(w);
    let m2 = low_mask(w2);
    assert(w < 64 && w2 < 64);
    assert(m == ((1u64 << w) - 1) as u64);
    assert(m2 == ((1u64 << w2) - 1) as u64);
    assert((((v & !(m << lo)) | ((x & m) << lo)) >> lo2) & m2 == (v >> lo2) & m2) by (bit_vector)
        requires
            1 <= w < 64,
            1 <= w2 < 64,
            lo + w <= 64,
            lo2 + w2 <= 64,
            lo + w <= lo2 || lo2 + w2 <= lo,
            m == ((1u64 << w) - 1) as u64,
            m2 == ((1u64 << w2) - 1) as u64;
}

/// Reading a byte right after writing it gives back the written byte.
pub proof fn lemma_byte_after_set(v: u64, i: u64, b: u8)
    requires
        i < 8,
    ensures
        byte_of(with_byte(v, i, b), i) == b,
{
    lemma_byte_write(v, i, i, b);
}

proof fn lemma_byte_write(v: u64, i: u64, j: u64, b: u8)
    by (bit_vector)
    requires
        i < 8,
        j < 8,
    ensures
        ((((v & !(0xFFu64 << (8 * i))) | ((b as u64) << (8 * i))) >> (8 * j)) & 0xFF) as u8 == if i
            == j {
            b
        } else {
            ((v >> (8 * j)) & 0xFF) as u8
        },
{
}

/// Writing one byte leaves the other bytes as they were.
pub proof fn lemma_set_byte_keeps_other_bytes(v: u64, i: u64, j: u64, b: u8)
    requires
        i < 8,
        j < 8,
        i != j,
    ensures
        byte_of(with_byte(v, i, b), j) == byte_of(v, j),
{
    lemma_byte_write(v, i, j, b);
}


/// What a field of a layout holds.
#[derive(Clone, Copy, PartialEq, Eq, Structural, Debug)]
pub enum FieldKind {
    /// A one-bit flag read as `bool`.
    Bool,
    /// An unsigned integer.
    Int,
}

/// One field of a layout: its kind and its inclusive bit range. `has_range`
/// tells whether the range was written with two bounds (`lo..=hi`) or as a
/// single bit.
#[derive(Clone, Copy, PartialEq, Eq, Structural, Debug)]
pub struct FieldSpec {
    pub kind: FieldKind,
    pub lo: u8,
    pub hi: u8,
    pub has_range: bool,
}

/// Why a single field is refused.
#[derive(Clone, Copy, PartialEq, Eq, Structural, Debug)]
pub enum FieldIssue {
    /// A `bool` field spans more than one bit.
    BoolRangeTooLarge,
    /// A range was written with two equal bounds.
    SameRangeBounds,
    /// The lower bound is above the upper bound.
    InvalidRangeBounds,
    /// The range reaches past the base type.
    ExceedsBaseSize,
    /// The range shares a bit with an earlier field.
    Overlap,
}

/// Why a layout is refused.
#[derive(Clone, Copy, PartialEq, Eq, Structural, Debug)]
pub enum LayoutError {
    /// The base type is not written `u` followed by a bit count.
    BaseTypeNotUnsigned,
    /// The base type has more than 64 bits.
    BaseTypeTooLarge,
    /// The field at this index is refused.
    Field(usize, FieldIssue),
    /// Some bit of the base type belongs to no field.
    NotFull,
}

/// The checks that a field passes or fails on its own, in the order they
/// are made.
pub open spec fn field_issue(size: u64, f: FieldSpec) -> Option<FieldIssue> {
    if f.kind == FieldKind::Bool && f.lo != f.hi {
        Some(FieldIssue::BoolRangeTooLarge)
    } else if f.has_range && f.lo == f.hi {
        Some(FieldIssue::SameRangeBounds)
    } else if f.lo > f.hi {
        Some(FieldIssue::InvalidRangeBounds)
    } else if f.lo as u64 >= size || f.hi as u64 >= size {
        Some(FieldIssue::ExceedsBaseSize)
    } else {
        None
    }
}

/// The bits claimed by the first `n` fields.
pub open spec fn claimed_bits(fields: Seq<FieldSpec>, n: nat) -> u64
    decreases n,
{
    if n == 0 {
        0
    } else {
        claimed_bits(fields, (n - 1) as nat) | range_mask(
            fields[n - 1].lo as u64,
            fields[n - 1].hi as u64,
        )
    }
}

/// The outcome of checking the first `n` fields in order: the first refused
/// field, with its issue, or success.
pub open spec fn fields_outcome(size: u64, fields: Seq<FieldSpec>, n: nat) -> Result<(), LayoutError>
    decreases n,
{
    if n == 0 {
        Ok(())
    } else {
        match fields_outcome(size, fields, (n - 1) as nat) {
            Err(e) => Err(e),
            Ok(_) => {
                let f = fields[n - 1];
                match field_issue(size, f) {
                    Some(issue) => Err(LayoutError::Field((n - 1) as usize, issue)),
                    None => if range_mask(f.lo as u64, f.hi as u64) & claimed_bits(
                        fields,
                        (n - 1) as nat,
                    ) != 0 {
                        Err(LayoutError::Field((n - 1) as usize, FieldIssue::Overlap))
                    } else {
                        Ok(())
                    },
                }
            },
        }
    }
}

/// The outcome of checking a whole layout over a base type of `size` bits.
pub open spec fn layout_outcome(size: u64, fields: Seq<FieldSpec>) -> Result<(), LayoutError> {
    match fields_outcome(size, fields, fields.len()) {
        Err(e) => Err(e),
        Ok(_) => if claimed_bits(fields, fields.len()) != low_mask(size) {
            Err(LayoutError::NotFull)
        } else {
            Ok(())
        },
    }
}

proof fn lemma_outcome_sticks(size: u64, fields: Seq<FieldSpec>, n: nat, m: nat)
    requires
        n <= m,
        fields_outcome(size, fields, n) is Err,
    ensures
        fields_outcome(size, fields, m) == fields_outcome(size, fields, n),
    decreases m - n,
{
    if n < m {
        lemma_outcome_sticks(size, fields, n, (m - 1) as nat);
    }
}

proof fn lemma_range_within_size(lo: u64, hi: u64, size: u64)
    requires
        lo <= hi < size,
        size <= 64,
    ensures
        range_mask(lo, hi) & !low_mask(size) == 0,
{
    let w = (hi - lo + 1) as u64;
    let m = low_mask(w);
    let s = low_mask(size);
    assert((m << lo) & !s == 0) by (bit_vector)
        requires
            1 <= w <= 64,
            lo + w <= size,
            size <= 64,
            w == 64 ==> m == 0xFFFF_FFFF_FFFF_FFFFu64,
            w < 64 ==> m == ((1u64 << w) - 1) as u64,
            size == 64 ==> s == 0xFFFF_FFFF_FFFF_FFFFu64,
            size < 64 ==> s == ((1u64 << size) - 1) as u64;
}

proof fn lemma_layout_step(full: u64, claimed: u64, update: u64, remaining: u64)
    by (bit_vector)
    ensures
        full & !0u64 == full,
        0u64 & !full == 0,
        (remaining == full & !claimed && update & !full == 0 && claimed & !full == 0) ==> {
            &&& (remaining & update != update) == (update & claimed != 0)
            &&& remaining & !update == full & !(claimed | update)
            &&& (claimed | update) & !full == 0
        },
        (remaining == full & !claimed && claimed & !full == 0) ==> ((remaining != 0) == (claimed
            != full)),
{
}

/// Checks a layout of `fields` over an unsigned base type of `size` bits:
/// each field in order must be well formed, lie inside the base type and not
/// overlap an earlier field, and together the fields must cover every bit.
pub fn check_layout(size: u8, fields: &Vec<FieldSpec>) -> (r: Result<(), LayoutError>)
    requires
        1 <= size <= 64,
    ensures
        r == layout_outcome(size as u64, fields@),
{
    let full = low_mask_exec(size);
    let mut remaining: u64 = full;
    proof {
        lemma_layout_step(full, 0, 0, remaining);
    }
    let mut i: usize = 0;
    while i < fields.len()
        invariant
            1 <= size <= 64,
            full == low_mask(size as u64),
            i <= fields.len(),
            fields_outcome(size as u64, fields@, i as nat) == Ok::<(), LayoutError>(()),
            remaining == full & !claimed_bits(fields@, i as nat),
            claimed_bits(fields@, i as nat) & !full == 0,
        decreases fields.len() - i,
    {
        let f = fields[i];
        proof {
            assert(fields@[i as int] == f);
        }
        if f.kind == FieldKind::Bool && f.lo != f.hi {
            proof {
                lemma_outcome_sticks(size as u64, fields@, (i + 1) as nat, fields@.len());
            }
            return Err(LayoutError::Field(i, FieldIssue::BoolRangeTooLarge));
        }
        if f.has_range && f.lo == f.hi {
            proof {
                lemma_outcome_sticks(size as u64, fields@, (i + 1) as nat, fields@.len());
            }
            return Err(LayoutError::Field(i, FieldIssue::SameRangeBounds));
        }
        if f.lo > f.hi {
            proof {
                lemma_outcome_sticks(size as u64, fields@, (i + 1) as nat, fields@.len());
            }
            return Err(LayoutError::Field(i, FieldIssue::InvalidRangeBounds));
        }
        if f.lo >= size || f.hi >= size {
            proof {
                lemma_outcome_sticks(size as u64, fields@, (i + 1) as nat, fields@.len());
            }
            return Err(LayoutError::Field(i, FieldIssue::ExceedsBaseSize));
        }
        let update = range_mask_exec(f.lo, f.hi);
        let ghost claimed = claimed_bits(fields@, i as nat);
        proof {
            lemma_range_within_size(f.lo as u64, f.hi as u64, size as u64);
            lemma_layout_step(full, claimed, update, remaining);
        }
        if remaining & update != update {
            proof {
                lemma_outcome_sticks(size as u64, fields@, (i + 1) as nat, fields@.len());
            }
            return Err(LayoutError::Field(i, FieldIssue::Overlap));
        }
        remaining = remaining & !update;
        i = i + 1;
    }
    let ghost claimed = claimed_bits(fields@, fields@.len());
    proof {
        lemma_layout_step(full, claimed, 0, remaining);
    }
    if remaining != 0 {
        return Err(LayoutError::NotFull);
    }
    Ok(())
}


/// Whether a byte is an ASCII decimal digit.
pub open spec fn is_digit(c: u8) -> bool {
    0x30 <= c <= 0x39
}

/// The number written by a string of decimal digits.
pub open spec fn decimal_value(s: Seq<u8>) -> nat
    decreases s.len(),
{
    if s.len() == 0 {
        0
    } else {
        decimal_value(s.drop_last()) * 10 + (s.last() - 0x30) as nat
    }
}

/// `s` without one leading `+`.
pub open spec fn strip_plus(s: Seq<u8>) -> Seq<u8> {
    if s.len() > 0 && s[0] == 0x2B {
        s.drop_first()
    } else {
        s
    }
}

/// Whether every byte of `s` is a decimal digit.
pub open spec fn all_digits(s: Seq<u8>) -> bool {
    forall|i: int| 0 <= i < s.len() ==> is_digit(#[trigger] s[i])
}

/// How `u8`'s `FromStr` reads `s`: an optional `+`, then one or more decimal
/// digits whose value fits in a `u8`.
pub open spec fn parse_u8_spec(s: Seq<u8>) -> Option<u8> {
    let digits = strip_plus(s);
    if digits.len() == 0 || !all_digits(digits) {
        None
    } else if decimal_value(digits) > 255 {
        None
    } else {
        Some(decimal_value(digits) as u8)
    }
}

/// The bit count named by a base type such as `u16`, or why it is refused.
pub open spec fn base_type_outcome(name: Seq<u8>) -> Result<u8, LayoutError> {
    if name[0] != 0x75 {
        Err(LayoutError::BaseTypeNotUnsigned)
    } else {
        match parse_u8_spec(name.drop_first()) {
            None => Err(LayoutError::BaseTypeNotUnsigned),
            Some(n) => if n > 64 {
                Err(LayoutError::BaseTypeTooLarge)
            } else {
                Ok(n)
            },
        }
    }
}

proof fn lemma_decimal_monotone(s: Seq<u8>, n: nat)
    requires
        n <= s.len(),
        forall|i: int| 0 <= i < s.len() ==> is_digit(s[i]),
    ensures
        decimal_value(s.subrange(0, n as int)) <= decimal_value(s),
    decreases s.len() - n,
{
    if n < s.len() {
        let t = s.subrange(0, n as int + 1);
        assert(t.drop_last() == s.subrange(0, n as int));
        lemma_decimal_monotone(s, n + 1);
    } else {
        assert(s.subrange(0, n as int) == s);
    }
}

/// Reads the bit count of a base type name such as `u16`: the name must be
/// `u` followed by a number that `u8` accepts, and the number must be at
/// most 64.
pub fn base_type_size(name: &[u8]) -> (r: Result<u8, LayoutError>)
    requires
        name@.len() >= 1,
    ensures
        r == base_type_outcome(name@),
{
    if name[0] != 0x75u8 {
        return Err(LayoutError::BaseTypeNotUnsigned);
    }
    let ghost rest = name@.drop_first();
    let mut start: usize = 1;
    if name.len() > 1 && name[1] == 0x2Bu8 {
        start = 2;
    }
    let ghost digits = name@.subrange(start as int, name@.len() as int);
    assert(digits == strip_plus(rest));
    if start >= name.len() {
        return Err(LayoutError::BaseTypeNotUnsigned);
    }
    let mut value: u32 = 0;
    let mut i: usize = start;
    while i < name.len()
        invariant
            1 <= start <= i <= name@.len(),
            start < name@.len(),
            digits == name@.subrange(start as int, name@.len() as int),
            rest == name@.drop_first(),
            name@[0] == 0x75,
            digits == strip_plus(rest),
            forall|k: int| start <= k < i ==> is_digit(name@[k]),
            value == decimal_value(name@.subrange(start as int, i as int)),
            value <= 255,
        decreases name.len() - i,
    {
        let c = name[i];
        let ghost prefix = name@.subrange(start as int, i as int + 1);
        assert(prefix.drop_last() == name@.subrange(start as int, i as int));
        if c < 0x30u8 || c > 0x39u8 {
            assert(digits[i - start] == name@[i as int]);
            assert(!is_digit(digits[i - start]));
            assert(!all_digits(digits));
            return Err(LayoutError::BaseTypeNotUnsigned);
        }
        let next: u32 = value * 10 + (c - 0x30u8) as u32;
        if next > 255 {
            proof {
                assert(prefix.last() == c);
                assert(decimal_value(prefix) == next);
                if all_digits(digits) {
                    assert(digits.subrange(0, i - start + 1) =~= prefix);
                    lemma_decimal_monotone(digits, (i - start + 1) as nat);
                }
            }
            return Err(LayoutError::BaseTypeNotUnsigned);
        }
        value = next;
        i = i + 1;
    }
    assert(name@.subrange(start as int, i as int) == digits);
    if value > 64 {
        return Err(LayoutError::BaseTypeTooLarge);
    }
    Ok(value as u8)
}

} // verus!
