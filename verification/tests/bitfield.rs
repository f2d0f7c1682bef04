use ndscore::bitfield::{
    base_type_size, check_layout, get_byte, get_field, get_flag, set_byte, set_field, set_flag,
    FieldIssue, FieldKind, FieldSpec, LayoutError,
};

/// A 16-bit register laid out with the library's field accessors:
/// a: bit 0, b: bit 1, c: 2..=3, d: 4..=6, e: bit 7, f: 8..=12, g: 13..=15.
struct BasicBitfield(u16);

impl BasicBitfield {
    fn raw(&self) -> u64 {
        self.0 as u64
    }
    fn store(&mut self, v: u64) {
        self.0 = v as u16;
    }
    fn a(&self) -> bool {
        get_flag(self.raw(), 0)
    }
    fn b(&self) -> bool {
        get_flag(self.raw(), 1)
    }
    fn c(&self) -> u8 {
        get_field(self.raw(), 2, 3) as u8
    }
    fn d(&self) -> u8 {
        get_field(self.raw(), 4, 6) as u8
    }
    fn e(&self) -> bool {
        get_flag(self.raw(), 7)
    }
    fn f(&self) -> u8 {
        get_field(self.raw(), 8, 12) as u8
    }
    fn g(&self) -> u8 {
        get_field(self.raw(), 13, 15) as u8
    }
    fn byte0(&self) -> u8 {
        get_byte(self.raw(), 0)
    }
    fn byte1(&self) -> u8 {
        get_byte(self.raw(), 1)
    }
    fn set_a(&mut self, x: bool) {
        let v = set_flag(self.raw(), 0, x);
        self.store(v);
    }
    fn set_e(&mut self, x: bool) {
        let v = set_flag(self.raw(), 7, x);
        self.store(v);
    }
    fn set_d(&mut self, x: u8) {
        let v = set_field(self.raw(), 4, 6, x as u64);
        self.store(v);
    }
    fn set_byte1(&mut self, x: u8) {
        let v = set_byte(self.raw(), 1, x);
        self.store(v);
    }
}

#[test]
fn basic_usage() {
    let mut basic_bitfield = BasicBitfield(0);

    assert_eq!(basic_bitfield.0, 0);
    assert_eq!(basic_bitfield.a(), false);
    assert_eq!(basic_bitfield.b(), false);
    assert_eq!(basic_bitfield.c(), 0);
    assert_eq!(basic_bitfield.d(), 0);
    assert_eq!(basic_bitfield.e(), false);
    assert_eq!(basic_bitfield.f(), 0);
    assert_eq!(basic_bitfield.g(), 0);
    assert_eq!(basic_bitfield.byte0(), 0);
    assert_eq!(basic_bitfield.byte1(), 0);

    basic_bitfield.set_a(true);
    basic_bitfield.set_e(true);
    basic_bitfield.set_d(0b010);
    assert_eq!(basic_bitfield.0, 0b10100001);
    assert_eq!(basic_bitfield.a(), true);
    assert_eq!(basic_bitfield.b(), false);
    assert_eq!(basic_bitfield.c(), 0);
    assert_eq!(basic_bitfield.d(), 0b010);
    assert_eq!(basic_bitfield.e(), true);
    assert_eq!(basic_bitfield.f(), 0);
    assert_eq!(basic_bitfield.g(), 0);
    assert_eq!(basic_bitfield.byte0(), 0b10100001);
    assert_eq!(basic_bitfield.byte1(), 0);

    basic_bitfield.set_byte1(0xAA);
    assert_eq!(basic_bitfield.0, 0b1010101010100001);
    assert_eq!(basic_bitfield.a(), true);
    assert_eq!(basic_bitfield.b(), false);
    assert_eq!(basic_bitfield.c(), 0);
    assert_eq!(basic_bitfield.d(), 0b010);
    assert_eq!(basic_bitfield.e(), true);
    assert_eq!(basic_bitfield.f(), 0b01010);
    assert_eq!(basic_bitfield.g(), 0b101);
    assert_eq!(basic_bitfield.byte0(), 0b10100001);
    assert_eq!(basic_bitfield.byte1(), 0xAA);
}

fn field(kind: FieldKind, lo: u8, hi: u8, has_range: bool) -> FieldSpec {
    FieldSpec { kind, lo, hi, has_range }
}

#[test]
fn layout_of_basic_bitfield_is_accepted() {
    let fields = vec![
        field(FieldKind::Bool, 0, 0, false),
        field(FieldKind::Bool, 1, 1, false),
        field(FieldKind::Int, 2, 3, true),
        field(FieldKind::Int, 4, 6, true),
        field(FieldKind::Bool, 7, 7, false),
        field(FieldKind::Int, 8, 12, true),
        field(FieldKind::Int, 13, 15, true),
    ];
    assert_eq!(check_layout(16, &fields), Ok(()));
}

#[test]
fn layout_bool_spanning_two_bits_is_refused() {
    let fields = vec![field(FieldKind::Int, 0, 5, true), field(FieldKind::Bool, 6, 7, true)];
    assert_eq!(check_layout(8, &fields), Err(LayoutError::Field(1, FieldIssue::BoolRangeTooLarge)));
}

#[test]
fn layout_reversed_range_is_refused() {
    let fields = vec![field(FieldKind::Int, 6, 0, true), field(FieldKind::Int, 7, 7, false)];
    assert_eq!(check_layout(8, &fields), Err(LayoutError::Field(0, FieldIssue::InvalidRangeBounds)));
}

#[test]
fn layout_not_covering_every_bit_is_refused() {
    let fields = vec![field(FieldKind::Int, 0, 6, true)];
    assert_eq!(check_layout(8, &fields), Err(LayoutError::NotFull));
}

#[test]
fn layout_overlapping_fields_are_refused() {
    let fields = vec![field(FieldKind::Int, 0, 7, true), field(FieldKind::Bool, 5, 5, false)];
    assert_eq!(check_layout(8, &fields), Err(LayoutError::Field(1, FieldIssue::Overlap)));
}

#[test]
fn layout_equal_range_bounds_are_refused() {
    let fields = vec![field(FieldKind::Int, 0, 6, true), field(FieldKind::Int, 7, 7, true)];
    assert_eq!(check_layout(8, &fields), Err(LayoutError::Field(1, FieldIssue::SameRangeBounds)));
}

#[test]
fn layout_field_past_base_type_is_refused() {
    let fields = vec![field(FieldKind::Int, 0, 8, true)];
    assert_eq!(check_layout(8, &fields), Err(LayoutError::Field(0, FieldIssue::ExceedsBaseSize)));
}

#[test]
fn base_type_names() {
    assert_eq!(base_type_size(b"u16"), Ok(16));
    assert_eq!(base_type_size(b"u64"), Ok(64));
    assert_eq!(base_type_size(b"i16"), Err(LayoutError::BaseTypeNotUnsigned));
    assert_eq!(base_type_size(b"u"), Err(LayoutError::BaseTypeNotUnsigned));
    assert_eq!(base_type_size(b"u128"), Err(LayoutError::BaseTypeTooLarge));
}

#[test]
fn field_set_then_get() {
    let v = set_field(0xFFFF_0000, 4, 11, 0xAB);
    assert_eq!(get_field(v, 4, 11), 0xAB);
    assert_eq!(v, 0xFFFF_0AB0);
    let w = set_byte(0x1122_3344, 2, 0xEE);
    assert_eq!(w, 0x11EE_3344);
    assert_eq!(get_byte(w, 2), 0xEE);
}
