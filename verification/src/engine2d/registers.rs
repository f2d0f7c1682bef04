//! The 2D engines' registers: display control, background control and
//! scrolling, rotation and scaling, windows, mosaic, color special effects
//! and master brightness.
use vstd::prelude::*;
use std::marker::PhantomData;
use crate::bits::lemma_mask_bounds;
use crate::gpu::EngineType;
use crate::spu::bit;

verus! {

/// The background mode: which backgrounds are text, affine or extended.
#[derive(Clone, Copy, PartialEq, Eq, Structural, Debug)]
pub enum BGMode {
    Mode0,
    Mode1,
    Mode2,
    Mode3,
    Mode4,
    Mode5,
    Mode6,
}

impl BGMode {
    /// The mode's 3-bit number.
    pub open spec fn code(self) -> u8 {
        match self {
            BGMode::Mode0 => 0,
            BGMode::Mode1 => 1,
            BGMode::Mode2 => 2,
            BGMode::Mode3 => 3,
            BGMode::Mode4 => 4,
            BGMode::Mode5 => 5,
            BGMode::Mode6 => 6,
        }
    }

    /// The mode numbered `bits`; 7 is no mode.
    pub fn from_bits(bits: u8) -> (r: BGMode)
        requires
            bits < 7,
        ensures
            r.code() == bits,
    {
        match bits {
            0 => BGMode::Mode0,
            1 => BGMode::Mode1,
            2 => BGMode::Mode2,
            3 => BGMode::Mode3,
            4 => BGMode::Mode4,
            5 => BGMode::Mode5,
            _ => BGMode::Mode6,
        }
    }

    fn bits(&self) -> (r: u8)
        ensures
            r == self.code(),
    {
        match self {
            BGMode::Mode0 => 0,
            BGMode::Mode1 => 1,
            BGMode::Mode2 => 2,
            BGMode::Mode3 => 3,
            BGMode::Mode4 => 4,
            BGMode::Mode5 => 5,
            BGMode::Mode6 => 6,
        }
    }
}

/// What the engine shows: white, its graphics, a VRAM bank, or main
/// memory.
#[derive(Clone, Copy, PartialEq, Eq, Structural, Debug)]
pub enum DisplayMode {
    Mode0,
    Mode1,
    Mode2,
    Mode3,
}

impl DisplayMode {
    /// The mode's 2-bit number.
    pub open spec fn code(self) -> u8 {
        match self {
            DisplayMode::Mode0 => 0,
            DisplayMode::Mode1 => 1,
            DisplayMode::Mode2 => 2,
            DisplayMode::Mode3 => 3,
        }
    }

    /// The mode numbered `bits`.
    pub fn from_bits(bits: u8) -> (r: DisplayMode)
        requires
            bits < 4,
        ensures
            r.code() == bits,
    {
        match bits {
            0 => DisplayMode::Mode0,
            1 => DisplayMode::Mode1,
            2 => DisplayMode::Mode2,
            _ => DisplayMode::Mode3,
        }
    }

    fn bits(&self) -> (r: u8)
        ensures
            r == self.code(),
    {
        match self {
            DisplayMode::Mode0 => 0,
            DisplayMode::Mode1 => 1,
            DisplayMode::Mode2 => 2,
            DisplayMode::Mode3 => 3,
        }
    }
}

/// The flag bits of the display control register.
pub const IS_3D: u32 = 1 << 3;
pub const TILE_OBJ_1D: u32 = 1 << 4;
pub const BITMAP_OBJ_SQUARE: u32 = 1 << 5;
pub const BITMAP_OBJ_1D: u32 = 1 << 6;
pub const FORCED_BLANK: u32 = 1 << 7;
pub const DISPLAY_BG0: u32 = 1 << 8;
pub const DISPLAY_BG1: u32 = 1 << 9;
pub const DISPLAY_BG2: u32 = 1 << 10;
pub const DISPLAY_BG3: u32 = 1 << 11;
pub const DISPLAY_OBJ: u32 = 1 << 12;
pub const DISPLAY_WINDOW0: u32 = 1 << 13;
pub const DISPLAY_WINDOW1: u32 = 1 << 14;
pub const DISPLAY_OBJ_WINDOW: u32 = 1 << 15;
pub const BITMAP_OBJ_1D_BOUND: u32 = 1 << 22;
pub const OBJ_PROCESS_HBLANK: u32 = 1 << 23;
pub const BG_EXTENDED_PALETTES: u32 = 1 << 30;
pub const OBJ_EXTENDED_PALETTES: u32 = 1 << 31;
/// All the flag bits.
pub const ALL_DISPCNT_FLAGS: u32 = 0xC0C0_FFF8;

/// The display control register: its flags and its fields.
pub struct DISPCNT<E: EngineType> {
    pub flags: u32,
    pub bg_mode: BGMode,
    pub display_mode: DisplayMode,
    pub vram_block: u8,
    pub tile_obj_1d_bound: u8,
    pub char_base: u8,
    pub screen_base: u8,
    pub engine_type: PhantomData<E>,
}

/// The register's invariant: the fields fit their bits, and engine B has
/// no VRAM display block and no character or screen base.
pub open spec fn dispcnt_wf<E: EngineType>(d: DISPCNT<E>) -> bool {
    &&& d.vram_block < 4
    &&& d.tile_obj_1d_bound < 4
    &&& d.char_base < 8
    &&& d.screen_base < 8
    &&& !E::spec_is_a() ==> d.vram_block == 0 && d.char_base == 0 && d.screen_base == 0
}

/// Whether `value` can be written to byte `byte` of the display control
/// register: background mode 7 does not exist.
pub open spec fn dispcnt_write_ok(byte: usize, value: u8) -> bool {
    byte == 0 ==> value & 0x7 != 7
}

/// Byte `byte` of the display control register.
pub open spec fn dispcnt_byte<E: EngineType>(d: DISPCNT<E>, byte: usize) -> u8 {
    if byte == 0 {
        (d.flags as u8) | d.bg_mode.code()
    } else if byte == 1 {
        (d.flags >> 8u32) as u8
    } else if byte == 2 {
        ((d.flags >> 16u32) as u8) | (d.tile_obj_1d_bound << 4u8) | (d.vram_block << 2u8) | d.display_mode.code()
    } else {
        ((d.flags >> 24u32) as u8) | (d.screen_base << 3u8) | d.char_base
    }
}

/// What writing `value` to byte `byte` of the display control register
/// makes of it: the byte's flag bits, and the background mode (0), the
/// display mode, VRAM block and object boundary (2), or the character and
/// screen bases (3). Engine B keeps its 3D flag, VRAM block, bitmap
/// boundary flag and bases clear.
pub open spec fn dispcnt_written<E: EngineType>(old: DISPCNT<E>, new: DISPCNT<E>, byte: usize, value: u8) -> bool {
    &&& (byte == 0 ==> {
                &&& new.bg_mode.code() == value & 0x7
                &&& new.flags == if E::spec_is_a() {
                    (old.flags & !0xFFu32) | (value as u32 & ALL_DISPCNT_FLAGS)
                } else {
                    ((old.flags & !0xFFu32) | (value as u32 & ALL_DISPCNT_FLAGS)) & !IS_3D
                }
                &&& new.display_mode == old.display_mode
                &&& new.vram_block == old.vram_block
                &&& new.tile_obj_1d_bound == old.tile_obj_1d_bound
                &&& new.char_base == old.char_base
                &&& new.screen_base == old.screen_base
            })
    &&& (byte == 1 ==> new == (DISPCNT {
                flags: (old.flags & !0xFF00u32) | ((value as u32) << 8u32 & ALL_DISPCNT_FLAGS),
                ..old
            }))
    &&& (byte == 2 ==> {
                &&& new.display_mode.code() == value & 0x3
                &&& new.vram_block == if E::spec_is_a() {
                    (value >> 2u8) & 0x3
                } else {
                    0
                }
                &&& new.tile_obj_1d_bound == (value >> 4u8) & 0x3
                &&& new.flags == if E::spec_is_a() {
                    (old.flags & !0xFF_0000u32) | ((value as u32) << 16u32 & ALL_DISPCNT_FLAGS)
                } else {
                    ((old.flags & !0xFF_0000u32) | ((value as u32) << 16u32 & ALL_DISPCNT_FLAGS))
                        & !BITMAP_OBJ_1D_BOUND
                }
                &&& new.bg_mode == old.bg_mode
                &&& new.char_base == old.char_base
                &&& new.screen_base == old.screen_base
            })
    &&& (byte == 3 ==> {
                &&& new.flags == (old.flags & !0xFF00_0000u32) | ((value as u32) << 24u32
                    & ALL_DISPCNT_FLAGS)
                &&& new.screen_base == if E::spec_is_a() {
                    (value >> 3u8) & 0x7
                } else {
                    0
                }
                &&& new.char_base == if E::spec_is_a() {
                    value & 0x7
                } else {
                    0
                }
                &&& new.bg_mode == old.bg_mode
                &&& new.display_mode == old.display_mode
                &&& new.vram_block == old.vram_block
                &&& new.tile_obj_1d_bound == old.tile_obj_1d_bound
            })
}

impl<E: EngineType> DISPCNT<E> {
    /// The register at reset: all clear.
    pub fn new() -> (r: DISPCNT<E>)
        ensures
            r.flags == 0 && r.bg_mode == BGMode::Mode0 && r.display_mode == DisplayMode::Mode0,
            r.vram_block == 0 && r.tile_obj_1d_bound == 0 && r.char_base == 0 && r.screen_base == 0,
            dispcnt_wf(r),
    {
        DISPCNT {
            flags: 0,
            bg_mode: BGMode::Mode0,
            display_mode: DisplayMode::Mode0,
            vram_block: 0,
            tile_obj_1d_bound: 0,
            char_base: 0,
            screen_base: 0,
            engine_type: PhantomData,
        }
    }

    /// Whether all bits of `flag` are set.
    pub fn contains(&self, flag: u32) -> (r: bool)
        ensures
            r == (self.flags & flag == flag),
    {
        self.flags & flag == flag
    }

    /// Whether any of the three windows is shown.
    pub fn windows_enabled(&self) -> (r: bool)
        ensures
            r == ((self.flags >> 13u32) & 0x7 != 0),
    {
        (self.flags >> 13u32) & 0x7 != 0
    }

    /// Byte `byte` of the register.
    pub fn read(&self, byte: usize) -> (r: u8)
        requires
            byte < 4,
        ensures
            r == dispcnt_byte(*self, byte),
    {
        if byte == 0 {
            (self.flags as u8) | self.bg_mode.bits()
        } else if byte == 1 {
            (self.flags >> 8u32) as u8
        } else if byte == 2 {
            ((self.flags >> 16u32) as u8) | (self.tile_obj_1d_bound << 4u8) | (self.vram_block << 2u8)
                | self.display_mode.bits()
        } else {
            ((self.flags >> 24u32) as u8) | (self.screen_base << 3u8) | self.char_base
        }
    }

    /// Writes byte `byte`: the byte's flag bits, and the background mode
    /// (0), the display mode, VRAM block and object boundary (2), or the
    /// character and screen bases (3). Engine B keeps its 3D flag, VRAM
    /// block, bitmap boundary flag and bases clear.
    pub fn write(&mut self, byte: usize, value: u8)
        requires
            byte < 4,
            dispcnt_wf(*old(self)),
            dispcnt_write_ok(byte, value),
        ensures
            dispcnt_wf(*final(self)),
            dispcnt_written(*old(self), *final(self), byte, value),
    {
        proof {
            lemma_mask_bounds();
        }
        if byte == 0 {
            self.bg_mode = BGMode::from_bits(value & 0x7);
            self.flags = (self.flags & !0xFFu32) | (value as u32 & ALL_DISPCNT_FLAGS);
            if !E::is_a() {
                self.flags = self.flags & !IS_3D;
            }
        } else if byte == 1 {
            self.flags = (self.flags & !0xFF00u32) | ((value as u32) << 8u32 & ALL_DISPCNT_FLAGS);
        } else if byte == 2 {
            self.display_mode = DisplayMode::from_bits(value & 0x3);
            if E::is_a() {
                self.vram_block = (value >> 2u8) & 0x3;
            }
            self.tile_obj_1d_bound = (value >> 4u8) & 0x3;
            self.flags = (self.flags & !0xFF_0000u32) | ((value as u32) << 16u32 & ALL_DISPCNT_FLAGS);
            if !E::is_a() {
                self.flags = self.flags & !BITMAP_OBJ_1D_BOUND;
            }
        } else {
            self.flags = (self.flags & !0xFF00_0000u32) | ((value as u32) << 24u32 & ALL_DISPCNT_FLAGS);
            if E::is_a() {
                self.screen_base = (value >> 3u8) & 0x7;
                self.char_base = value & 0x7;
            }
        }
    }
}

/// A background's control register: priority (bits 0-1), character block
/// (2-5), mosaic (6), 256 colors (7), screen block (8-12), wrap or
/// extended palette slot (13) and screen size (14-15).
#[derive(Clone, Copy, PartialEq, Eq, Structural, Debug)]
pub struct BGControl(pub u16);

/// Byte `byte` of a 16-bit register.
pub open spec fn byte16(v: u16, byte: usize) -> u8 {
    (v >> (8 * byte) as u16) as u8
}

/// A 16-bit register with byte `byte` replaced by `value`.
pub open spec fn with_byte16(v: u16, byte: usize, value: u8) -> u16 {
    (v & !(0xFFu16 << (8 * byte) as u16)) | ((value as u16) << (8 * byte) as u16)
}

/// Reading a byte of a 16-bit register right after writing it gives the
/// written byte, and the other byte is unchanged.
pub proof fn lemma_byte16_after_write(v: u16, x: u8)
    by (bit_vector)
    ensures
        byte16(with_byte16(v, 0, x), 0) == x,
        byte16(with_byte16(v, 1, x), 1) == x,
        byte16(with_byte16(v, 0, x), 1) == byte16(v, 1),
        byte16(with_byte16(v, 1, x), 0) == byte16(v, 0),
{
}

pub fn read_byte16(v: u16, byte: usize) -> (r: u8)
    requires
        byte < 2,
    ensures
        r == byte16(v, byte),
{
    (v >> (8 * byte) as u16) as u8
}

fn write_byte16(v: u16, byte: usize, value: u8) -> (r: u16)
    requires
        byte < 2,
    ensures
        r == with_byte16(v, byte, value),
{
    (v & !(0xFFu16 << (8 * byte) as u16)) | ((value as u16) << (8 * byte) as u16)
}

impl BGControl {
    pub fn new() -> (r: BGControl)
        ensures
            r.0 == 0,
    {
        BGControl(0)
    }

    pub open spec fn spec_priority(&self) -> u8 {
        (self.0 & 0x3) as u8
    }

    pub open spec fn spec_tile_block(&self) -> u8 {
        ((self.0 >> 2u16) & 0xF) as u8
    }

    pub open spec fn spec_mosaic(&self) -> bool {
        (self.0 >> 6u16) & 0x1 != 0
    }

    pub open spec fn spec_bpp8(&self) -> bool {
        (self.0 >> 7u16) & 0x1 != 0
    }

    pub open spec fn spec_map_block(&self) -> u8 {
        ((self.0 >> 8u16) & 0x1F) as u8
    }

    pub open spec fn spec_wrap(&self) -> bool {
        (self.0 >> 13u16) & 0x1 != 0
    }

    pub open spec fn spec_screen_size(&self) -> u8 {
        ((self.0 >> 14u16) & 0x3) as u8
    }

    #[verifier::when_used_as_spec(spec_priority)]
    pub fn priority(&self) -> (r: u8)
        ensures
            r == self.spec_priority(),
            r < 4,
    {
        proof {
            lemma_mask_bounds();
        }
        (self.0 & 0x3) as u8
    }

    #[verifier::when_used_as_spec(spec_tile_block)]
    pub fn tile_block(&self) -> (r: u8)
        ensures
            r == self.spec_tile_block(),
            r < 16,
    {
        proof {
            lemma_mask_bounds();
        }
        ((self.0 >> 2u16) & 0xF) as u8
    }

    #[verifier::when_used_as_spec(spec_mosaic)]
    pub fn mosaic(&self) -> (r: bool)
        ensures
            r == self.spec_mosaic(),
    {
        (self.0 >> 6u16) & 0x1 != 0
    }

    #[verifier::when_used_as_spec(spec_bpp8)]
    pub fn bpp8(&self) -> (r: bool)
        ensures
            r == self.spec_bpp8(),
    {
        (self.0 >> 7u16) & 0x1 != 0
    }

    #[verifier::when_used_as_spec(spec_map_block)]
    pub fn map_block(&self) -> (r: u8)
        ensures
            r == self.spec_map_block(),
            r < 32,
    {
        proof {
            lemma_mask_bounds();
        }
        ((self.0 >> 8u16) & 0x1F) as u8
    }

    #[verifier::when_used_as_spec(spec_wrap)]
    pub fn wrap(&self) -> (r: bool)
        ensures
            r == self.spec_wrap(),
    {
        (self.0 >> 13u16) & 0x1 != 0
    }

    #[verifier::when_used_as_spec(spec_screen_size)]
    pub fn screen_size(&self) -> (r: u8)
        ensures
            r == self.spec_screen_size(),
            r < 4,
    {
        proof {
            lemma_mask_bounds();
        }
        ((self.0 >> 14u16) & 0x3) as u8
    }

    /// Byte `byte` of the register.
    pub fn read(&self, byte: usize) -> (r: u8)
        requires
            byte < 2,
        ensures
            r == byte16(self.0, byte),
    {
        read_byte16(self.0, byte)
    }

    /// Replaces byte `byte` of the register.
    pub fn write(&mut self, byte: usize, value: u8)
        requires
            byte < 2,
        ensures
            final(self).0 == with_byte16(old(self).0, byte, value),
    {
        self.0 = write_byte16(self.0, byte, value);
    }
}

/// A background's scroll offset register: 9 bits of offset.
#[derive(Clone, Copy, PartialEq, Eq, Structural, Debug)]
pub struct Offset(pub u16);

impl Offset {
    pub fn new() -> (r: Offset)
        ensures
            r.0 == 0,
    {
        Offset(0)
    }

    pub open spec fn spec_offset(&self) -> u16 {
        self.0 & 0x1FF
    }

    /// The offset in dots.
    #[verifier::when_used_as_spec(spec_offset)]
    pub fn offset(&self) -> (r: u16)
        ensures
            r == self.spec_offset(),
            r < 0x200,
    {
        proof {
            lemma_mask_bounds();
        }
        self.0 & 0x1FF
    }

    /// Byte `byte` of the register.
    pub fn read(&self, byte: usize) -> (r: u8)
        requires
            byte < 2,
        ensures
            r == byte16(self.0, byte),
    {
        read_byte16(self.0, byte)
    }

    /// Replaces byte `byte` of the register.
    pub fn write(&mut self, byte: usize, value: u8)
        requires
            byte < 2,
        ensures
            final(self).0 == with_byte16(old(self).0, byte, value),
    {
        self.0 = write_byte16(self.0, byte, value);
    }
}

/// A rotation and scaling parameter: a signed 8.8 fixed-point number.
#[derive(Clone, Copy, PartialEq, Eq, Structural, Debug)]
pub struct RotationScalingParameter {
    pub value: i16,
}

impl RotationScalingParameter {
    pub fn new() -> (r: RotationScalingParameter)
        ensures
            r.value == 0,
    {
        RotationScalingParameter { value: 0 }
    }

    /// The register is write-only and reads 0.
    pub fn read(&self, byte: usize) -> (r: u8)
        ensures
            r == 0,
    {
        0
    }

    /// Replaces byte `byte` (0 or 1) of the parameter.
    pub fn write(&mut self, byte: usize, value: u8)
        requires
            byte < 2,
        ensures
            final(self).value == (((old(self).value as u32) & !(0xFFu32 << (8 * byte) as u32)) | ((
            value as u32) << (8 * byte) as u32)) as i16,
    {
        let offset: u32 = (8 * byte) as u32;
        self.value = (((self.value as u32) & !(0xFFu32 << offset)) | ((value as u32) << offset)) as i16;
    }
}

/// An affine reference point coordinate: a signed 20.8 fixed-point number
/// in 28 bits.
#[derive(Clone, Copy, PartialEq, Eq, Structural, Debug)]
pub struct ReferencePointCoord {
    pub value: i32,
}

impl ReferencePointCoord {
    pub fn new() -> (r: ReferencePointCoord)
        ensures
            r.value == 0,
    {
        ReferencePointCoord { value: 0 }
    }

    /// The coordinate's integer part.
    pub fn integer(&self) -> (r: i32)
        ensures
            r == self.value >> 8i32,
    {
        self.value >> 8i32
    }

    /// The register is write-only and reads 0.
    pub fn read(&self, byte: usize) -> (r: u8)
        ensures
            r == 0,
    {
        0
    }

    /// Replaces byte `byte`; the top byte holds 4 bits, and bit 27 is
    /// the sign.
    pub fn write(&mut self, byte: usize, value: u8)
        requires
            byte < 4,
        ensures
            byte < 3 ==> final(self).value == (((old(self).value as u32) & !(0xFFu32 << (8 * byte) as u32))
                | ((value as u32) << (8 * byte) as u32)) as i32,
            byte == 3 ==> {
                let v = ((old(self).value as u32) & !(0xFFu32 << 24u32)) | (((value as u32) & 0xF) << 24u32);
                final(self).value == if v & 0x0800_0000 != 0 {
                    (v | 0xF000_0000) as i32
                } else {
                    v as i32
                }
            },
    {
        let offset: u32 = (8 * byte) as u32;
        if byte < 3 {
            self.value = (((self.value as u32) & !(0xFFu32 << offset)) | ((value as u32) << offset)) as i32;
        } else {
            let v = ((self.value as u32) & !(0xFFu32 << 24u32)) | (((value as u32) & 0xF) << 24u32);
            self.value = if v & 0x0800_0000 != 0 {
                (v | 0xF000_0000) as i32
            } else {
                v as i32
            };
        }
    }

    /// Moves the point by a rotation and scaling parameter, wrapping.
    pub fn add_param(&mut self, rhs: RotationScalingParameter)
        ensures
            final(self).value == vstd::wrapping::i32_specs::wrapping_add(old(self).value, rhs.value as i32),
    {
        self.value = self.value.wrapping_add(rhs.value as i32);
    }
}

/// A window's edges along one axis.
#[derive(Clone, Copy, PartialEq, Eq, Structural, Debug)]
pub struct WindowDimensions {
    pub coord2: u8,
    pub coord1: u8,
}

impl WindowDimensions {
    pub fn new() -> (r: WindowDimensions)
        ensures
            r.coord2 == 0 && r.coord1 == 0,
    {
        WindowDimensions { coord2: 0, coord1: 0 }
    }

    /// Byte 0 is the far edge, byte 1 the near one.
    pub fn read(&self, byte: usize) -> (r: u8)
        requires
            byte < 2,
        ensures
            r == if byte == 0 {
                self.coord2
            } else {
                self.coord1
            },
    {
        if byte == 0 {
            self.coord2
        } else {
            self.coord1
        }
    }

    /// Byte 0 sets the far edge, byte 1 the near one.
    pub fn write(&mut self, byte: usize, value: u8)
        requires
            byte < 2,
        ensures
            byte == 0 ==> *final(self) == (WindowDimensions { coord2: value, ..*old(self) }),
            byte == 1 ==> *final(self) == (WindowDimensions { coord1: value, ..*old(self) }),
    {
        if byte == 0 {
            self.coord2 = value;
        } else {
            self.coord1 = value;
        }
    }
}

/// What a window shows: the four backgrounds (bits 0-3), the objects (4)
/// and the color special effect (5).
#[derive(Clone, Copy, PartialEq, Eq, Structural, Debug)]
pub struct WindowControl(pub u8);

impl WindowControl {
    pub fn new() -> (r: WindowControl)
        ensures
            r.0 == 0,
    {
        WindowControl(0)
    }

    /// A window that shows nothing.
    pub fn none() -> (r: WindowControl)
        ensures
            r.0 == 0,
    {
        WindowControl::new()
    }

    /// A window that shows everything.
    pub fn all() -> (r: WindowControl)
        ensures
            r.0 == 0x3F,
    {
        WindowControl(0x3F)
    }

    /// Whether the window shows layer `i`: background 0-3, or the
    /// objects (4), or applies the color special effect (5).
    pub open spec fn spec_enabled(&self, i: u8) -> bool {
        (self.0 >> i) & 0x1 != 0
    }

    #[verifier::when_used_as_spec(spec_enabled)]
    pub fn enabled(&self, i: u8) -> (r: bool)
        requires
            i < 8,
        ensures
            r == self.spec_enabled(i),
    {
        (self.0 >> i) & 0x1 != 0
    }

    /// The register's byte.
    pub fn read(&self, byte: usize) -> (r: u8)
        ensures
            r == self.0,
    {
        self.0
    }

    /// Replaces the register's byte.
    pub fn write(&mut self, byte: usize, value: u8)
        ensures
            final(self).0 == value,
    {
        self.0 = value;
    }
}

/// A mosaic block size, 1 to 16 dots each way.
#[derive(Clone, Copy, PartialEq, Eq, Structural, Debug)]
pub struct MosaicSize {
    pub h_size: u16,
    pub v_size: u16,
}

/// The sizes are between 1 and 16.
pub open spec fn mosaic_size_wf(m: MosaicSize) -> bool {
    1 <= m.h_size <= 16 && 1 <= m.v_size <= 16
}

impl MosaicSize {
    pub fn new() -> (r: MosaicSize)
        ensures
            r.h_size == 1 && r.v_size == 1,
    {
        MosaicSize { h_size: 1, v_size: 1 }
    }

    /// The sizes less one: vertical in the high nibble.
    pub fn read(&self) -> (r: u8)
        requires
            mosaic_size_wf(*self),
        ensures
            r == (((self.v_size - 1) as u8) << 4u8) | ((self.h_size - 1) as u8),
    {
        (((self.v_size - 1) as u8) << 4u8) | ((self.h_size - 1) as u8)
    }

    /// Sets the sizes from the nibbles of `value`, plus one.
    pub fn write(&mut self, value: u8)
        ensures
            final(self).h_size == (value & 0xF) + 1,
            final(self).v_size == value / 16 + 1,
            mosaic_size_wf(*final(self)),
    {
        proof {
            lemma_mask_bounds();
        }
        self.h_size = (value & 0xF) as u16 + 1;
        self.v_size = (value / 16) as u16 + 1;
    }
}

/// The mosaic register: the background and object block sizes.
#[derive(Clone, Copy, PartialEq, Eq, Structural, Debug)]
pub struct MOSAIC {
    pub bg_size: MosaicSize,
    pub obj_size: MosaicSize,
}

impl MOSAIC {
    pub fn new() -> (r: MOSAIC)
        ensures
            r.bg_size == (MosaicSize { h_size: 1, v_size: 1 }),
            r.obj_size == (MosaicSize { h_size: 1, v_size: 1 }),
    {
        MOSAIC { bg_size: MosaicSize::new(), obj_size: MosaicSize::new() }
    }

    /// Byte 0 reads the background sizes, byte 1 the object sizes.
    pub fn read(&self, byte: usize) -> (r: u8)
        requires
            byte < 2,
            mosaic_size_wf(self.bg_size),
            mosaic_size_wf(self.obj_size),
        ensures
            byte == 0 ==> r == (((self.bg_size.v_size - 1) as u8) << 4u8) | ((self.bg_size.h_size - 1) as u8),
            byte == 1 ==> r == (((self.obj_size.v_size - 1) as u8) << 4u8) | ((self.obj_size.h_size - 1) as u8),
    {
        if byte == 0 {
            self.bg_size.read()
        } else {
            self.obj_size.read()
        }
    }

    /// Byte 0 sets the background sizes, byte 1 the object sizes.
    pub fn write(&mut self, byte: usize, value: u8)
        requires
            byte < 2,
        ensures
            byte == 0 ==> final(self).bg_size == (MosaicSize {
                h_size: ((value & 0xF) + 1) as u16,
                v_size: (value / 16 + 1) as u16,
            }) && final(self).obj_size == old(self).obj_size,
            byte == 1 ==> final(self).obj_size == (MosaicSize {
                h_size: ((value & 0xF) + 1) as u16,
                v_size: (value / 16 + 1) as u16,
            }) && final(self).bg_size == old(self).bg_size,
    {
        if byte == 0 {
            let mut s = self.bg_size;
            s.write(value);
            self.bg_size = s;
        } else {
            let mut s = self.obj_size;
            s.write(value);
            self.obj_size = s;
        }
    }
}

/// Which layers a color special effect applies to: backgrounds 0-3, the
/// objects (4) and the backdrop (5).
#[derive(Clone, Copy, Debug)]
pub struct BLDCNTTargetPixelSelection {
    pub enabled: [bool; 6],
}

/// The selection as six bits, layer 0 lowest.
pub open spec fn targets_byte(t: BLDCNTTargetPixelSelection) -> u8 {
    bit(t.enabled@[0]) | (bit(t.enabled@[1]) << 1u8) | (bit(t.enabled@[2]) << 2u8) | (bit(t.enabled@[3]) << 3u8)
        | (bit(t.enabled@[4]) << 4u8) | (bit(t.enabled@[5]) << 5u8)
}

impl BLDCNTTargetPixelSelection {
    pub fn new() -> (r: BLDCNTTargetPixelSelection)
        ensures
            forall|i: int| 0 <= i < 6 ==> !r.enabled@[i],
    {
        BLDCNTTargetPixelSelection { enabled: [false; 6] }
    }

    /// The selection as six bits, layer 0 lowest.
    pub fn read(&self) -> (r: u8)
        ensures
            r == targets_byte(*self),
    {
        (self.enabled[0] as u8) | ((self.enabled[1] as u8) << 1u8) | ((self.enabled[2] as u8) << 2u8) | ((
        self.enabled[3] as u8) << 3u8) | ((self.enabled[4] as u8) << 4u8) | ((self.enabled[5] as u8) << 5u8)
    }

    /// Sets the selection from the low six bits of `value`.
    pub fn write(&mut self, value: u8)
        ensures
            forall|i: int| 0 <= i < 6 ==> final(self).enabled@[i] == ((value >> i as u8) & 0x1 != 0),
    {
        let mut e = [false; 6];
        e[0] = (value >> 0u8) & 0x1 != 0;
        e[1] = (value >> 1u8) & 0x1 != 0;
        e[2] = (value >> 2u8) & 0x1 != 0;
        e[3] = (value >> 3u8) & 0x1 != 0;
        e[4] = (value >> 4u8) & 0x1 != 0;
        e[5] = (value >> 5u8) & 0x1 != 0;
        self.enabled = e;
        assert forall|i: int| 0 <= i < 6 implies self.enabled@[i] == ((value >> i as u8) & 0x1 != 0) by {
            if i == 0 {
            } else if i == 1 {
            } else if i == 2 {
            } else if i == 3 {
            } else if i == 4 {
            } else {
            }
        }
    }
}

/// The color special effect.
#[derive(Clone, Copy, PartialEq, Eq, Structural, Debug)]
pub enum ColorSFX {
    NoEffect,
    AlphaBlend,
    BrightnessInc,
    BrightnessDec,
}

impl ColorSFX {
    /// The effect's 2-bit number.
    pub open spec fn code(self) -> u8 {
        match self {
            ColorSFX::NoEffect => 0,
            ColorSFX::AlphaBlend => 1,
            ColorSFX::BrightnessInc => 2,
            ColorSFX::BrightnessDec => 3,
        }
    }

    /// The effect numbered `value`.
    pub fn from(value: u8) -> (r: ColorSFX)
        requires
            value < 4,
        ensures
            r.code() == value,
    {
        match value {
            0 => ColorSFX::NoEffect,
            1 => ColorSFX::AlphaBlend,
            2 => ColorSFX::BrightnessInc,
            _ => ColorSFX::BrightnessDec,
        }
    }

    fn bits(&self) -> (r: u8)
        ensures
            r == self.code(),
    {
        match self {
            ColorSFX::NoEffect => 0,
            ColorSFX::AlphaBlend => 1,
            ColorSFX::BrightnessInc => 2,
            ColorSFX::BrightnessDec => 3,
        }
    }
}

/// The color special effect control: the two target selections and the
/// effect.
#[derive(Clone, Copy, Debug)]
pub struct BLDCNT {
    pub target_pixel1: BLDCNTTargetPixelSelection,
    pub effect: ColorSFX,
    pub target_pixel2: BLDCNTTargetPixelSelection,
}

/// What writing `value` to byte `byte` makes of the effect control: the
/// first targets and the effect (0), or the second targets (1).
pub open spec fn bldcnt_written(old: BLDCNT, new: BLDCNT, byte: usize, value: u8) -> bool {
    &&& byte == 0 ==> new.effect.code() == value / 64 && new.target_pixel2 == old.target_pixel2 && forall|
        i: int,
    | 0 <= i < 6 ==> new.target_pixel1.enabled@[i] == ((value >> i as u8) & 0x1 != 0)
    &&& byte == 1 ==> new.effect == old.effect && new.target_pixel1 == old.target_pixel1 && forall|i: int|
        0 <= i < 6 ==> new.target_pixel2.enabled@[i] == ((value >> i as u8) & 0x1 != 0)
}

impl BLDCNT {
    pub fn new() -> (r: BLDCNT)
        ensures
            r.effect == ColorSFX::NoEffect,
            forall|i: int| 0 <= i < 6 ==> !r.target_pixel1.enabled@[i] && !r.target_pixel2.enabled@[i],
    {
        BLDCNT {
            target_pixel1: BLDCNTTargetPixelSelection::new(),
            effect: ColorSFX::NoEffect,
            target_pixel2: BLDCNTTargetPixelSelection::new(),
        }
    }

    /// Byte 0 holds the effect and the first targets, byte 1 the second
    /// targets.
    pub fn read(&self, byte: usize) -> (r: u8)
        requires
            byte < 2,
        ensures
            byte == 0 ==> r == (self.effect.code() << 6u8) | targets_byte(self.target_pixel1),
            byte == 1 ==> r == targets_byte(self.target_pixel2),
    {
        if byte == 0 {
            (self.effect.bits() << 6u8) | self.target_pixel1.read()
        } else {
            self.target_pixel2.read()
        }
    }

    /// Byte 0 sets the first targets and the effect, byte 1 the second
    /// targets.
    pub fn write(&mut self, byte: usize, value: u8)
        requires
            byte < 2,
        ensures
            bldcnt_written(*old(self), *final(self), byte, value),
    {
        if byte == 0 {
            let mut t = self.target_pixel1;
            t.write(value);
            self.target_pixel1 = t;
            self.effect = ColorSFX::from(value / 64);
        } else {
            let mut t = self.target_pixel2;
            t.write(value);
            self.target_pixel2 = t;
        }
    }
}

/// The alpha blending coefficients, as written and as used (at most 16).
#[derive(Clone, Copy, PartialEq, Eq, Structural, Debug)]
pub struct BLDALPHA {
    pub raw_eva: u8,
    pub raw_evb: u8,
    pub eva: u16,
    pub evb: u16,
}

/// The coefficients used are at most 16.
pub open spec fn bldalpha_wf(b: BLDALPHA) -> bool {
    b.eva <= 16 && b.evb <= 16
}

/// A blending coefficient from 5 bits, capped at 16.
pub open spec fn capped16(value: u8) -> u8 {
    if value & 0x1F < 16 {
        value & 0x1F
    } else {
        16
    }
}

/// The coefficients after writing `value` to byte `byte`: the first (0)
/// or second (1), as written and as used.
pub open spec fn bldalpha_written(old: BLDALPHA, byte: usize, value: u8) -> BLDALPHA {
    if byte == 0 {
        BLDALPHA { raw_eva: value & 0x1F, eva: capped16(value) as u16, ..old }
    } else {
        BLDALPHA { raw_evb: value & 0x1F, evb: capped16(value) as u16, ..old }
    }
}

impl BLDALPHA {
    pub fn new() -> (r: BLDALPHA)
        ensures
            r.raw_eva == 0 && r.raw_evb == 0 && r.eva == 0 && r.evb == 0,
    {
        BLDALPHA { raw_eva: 0, raw_evb: 0, eva: 0, evb: 0 }
    }

    /// Byte 0 reads the first coefficient as written, byte 1 the second.
    pub fn read(&self, byte: usize) -> (r: u8)
        requires
            byte < 2,
        ensures
            r == if byte == 0 {
                self.raw_eva
            } else {
                self.raw_evb
            },
    {
        if byte == 0 {
            self.raw_eva
        } else {
            self.raw_evb
        }
    }

    /// Sets a coefficient from 5 bits; the one used is capped at 16.
    pub fn write(&mut self, byte: usize, value: u8)
        requires
            byte < 2,
        ensures
            bldalpha_wf(*old(self)) ==> bldalpha_wf(*final(self)),
            *final(self) == bldalpha_written(*old(self), byte, value),
    {
        let raw = value & 0x1F;
        let capped: u16 = if raw < 16 {
            raw as u16
        } else {
            16
        };
        if byte == 0 {
            self.raw_eva = raw;
            self.eva = capped;
        } else {
            self.raw_evb = raw;
            self.evb = capped;
        }
    }
}

/// The brightness coefficient, at most 16.
#[derive(Clone, Copy, PartialEq, Eq, Structural, Debug)]
pub struct BLDY {
    pub evy: u8,
}

impl BLDY {
    pub fn new() -> (r: BLDY)
        ensures
            r.evy == 0,
    {
        BLDY { evy: 0 }
    }

    /// The register is write-only and reads 0.
    pub fn read(&self, byte: usize) -> (r: u8)
        ensures
            r == 0,
    {
        0
    }

    /// Byte 0 sets the coefficient from 5 bits, capped at 16.
    pub fn write(&mut self, byte: usize, value: u8)
        ensures
            byte == 0 ==> final(self).evy == if value & 0x1F < 16 {
                value & 0x1F
            } else {
                16
            },
            byte != 0 ==> final(self).evy == old(self).evy,
            old(self).evy <= 16 ==> final(self).evy <= 16,
    {
        if byte == 0 {
            let raw = value & 0x1F;
            self.evy = if raw < 16 {
                raw
            } else {
                16
            };
        }
    }
}

/// Whether master brightness is off, raises or lowers the colors.
#[derive(Clone, Copy, PartialEq, Eq, Structural, Debug)]
pub enum MasterBrightMode {
    Disable,
    Up,
    Down,
}

impl MasterBrightMode {
    /// The mode's number.
    pub open spec fn code(self) -> u8 {
        match self {
            MasterBrightMode::Disable => 0,
            MasterBrightMode::Up => 1,
            MasterBrightMode::Down => 2,
        }
    }

    /// The mode numbered `value`; 3 is no mode.
    pub fn from_bits(value: u8) -> (r: MasterBrightMode)
        requires
            value < 3,
        ensures
            r.code() == value,
    {
        match value {
            0 => MasterBrightMode::Disable,
            1 => MasterBrightMode::Up,
            _ => MasterBrightMode::Down,
        }
    }

    fn bits(&self) -> (r: u8)
        ensures
            r == self.code(),
    {
        match self {
            MasterBrightMode::Disable => 0,
            MasterBrightMode::Up => 1,
            MasterBrightMode::Down => 2,
        }
    }
}

/// A 5-bit channel raised or lowered by `factor` sixteenths of the way to
/// white or black.
pub open spec fn brightened(c: u16, factor: u8, up: bool) -> u16 {
    if up {
        (c + (31 - c) * factor / 16) as u16
    } else {
        (c - c * factor / 16) as u16
    }
}

fn brighten(c: u16, factor: u8, up: bool) -> (r: u16)
    requires
        c < 32,
        factor <= 16,
    ensures
        r == brightened(c, factor, up),
        r < 32,
{
    if up {
        assert((31 - c) * (factor as u16) / 16 <= 31 - c) by (nonlinear_arith)
            requires
                c < 32,
                factor <= 16,
        ;
        c + (31 - c) * (factor as u16) / 16
    } else {
        assert(c * (factor as u16) / 16 <= c) by (nonlinear_arith)
            requires
                factor <= 16,
        ;
        c - c * (factor as u16) / 16
    }
}

/// The master brightness register: the factor as written, the factor
/// used (at most 16) and the mode.
#[derive(Clone, Copy, PartialEq, Eq, Structural, Debug)]
pub struct MasterBright {
    pub factor_read: u8,
    pub factor: u8,
    pub mode: MasterBrightMode,
}

/// The factor used is at most 16.
pub open spec fn master_bright_wf(m: MasterBright) -> bool {
    m.factor <= 16
}

/// `color` after master brightness: each 5-bit channel raised or lowered,
/// the top bit kept.
pub open spec fn bright_color(m: MasterBright, color: u16) -> u16 {
    match m.mode {
        MasterBrightMode::Disable => color,
        _ => {
            let up = m.mode == MasterBrightMode::Up;
            (color & 0x8000) | brightened(color & 0x1F, m.factor, up) | (brightened(
                (color >> 5u16) & 0x1F,
                m.factor,
                up,
            ) << 5u16) | (brightened((color >> 10u16) & 0x1F, m.factor, up) << 10u16)
        },
    }
}

impl MasterBright {
    pub fn new() -> (r: MasterBright)
        ensures
            r.factor_read == 0 && r.factor == 0 && r.mode == MasterBrightMode::Disable,
    {
        MasterBright { factor_read: 0, factor: 0, mode: MasterBrightMode::Disable }
    }

    /// Applies master brightness to `color`.
    pub fn apply(&self, color: u16) -> (r: u16)
        requires
            master_bright_wf(*self),
        ensures
            r == bright_color(*self, color),
    {
        proof {
            lemma_mask_bounds();
        }
        match self.mode {
            MasterBrightMode::Disable => color,
            _ => {
                let up = match self.mode {
                    MasterBrightMode::Up => true,
                    _ => false,
                };
                let c0 = brighten(color & 0x1F, self.factor, up);
                let c1 = brighten((color >> 5u16) & 0x1F, self.factor, up);
                let c2 = brighten((color >> 10u16) & 0x1F, self.factor, up);
                (color & 0x8000) | c0 | (c1 << 5u16) | (c2 << 10u16)
            },
        }
    }

    /// Byte 0 reads the factor as written, byte 1 the mode; bytes 2-3
    /// read 0.
    pub fn read(&self, byte: usize) -> (r: u8)
        requires
            byte < 4,
        ensures
            r == if byte == 0 {
                self.factor_read
            } else if byte == 1 {
                self.mode.code() << 6u8
            } else {
                0
            },
    {
        if byte == 0 {
            self.factor_read
        } else if byte == 1 {
            self.mode.bits() << 6u8
        } else {
            0
        }
    }

    /// Byte 0 sets the factor (5 bits, capped at 16), byte 1 the mode.
    pub fn write(&mut self, byte: usize, value: u8)
        requires
            byte < 4,
            byte == 1 ==> (value >> 6u8) & 0x3 != 3,
        ensures
            master_bright_wf(*old(self)) ==> master_bright_wf(*final(self)),
            byte == 0 ==> *final(self) == (MasterBright {
                factor_read: value,
                factor: if value & 0x1F < 16 {
                    value & 0x1F
                } else {
                    16
                },
                ..*old(self)
            }),
            byte == 1 ==> final(self).mode.code() == (value >> 6u8) & 0x3 && final(self).factor
                == old(self).factor && final(self).factor_read == old(self).factor_read,
            byte >= 2 ==> *final(self) == *old(self),
    {
        if byte == 0 {
            self.factor_read = value;
            let raw = value & 0x1F;
            self.factor = if raw < 16 {
                raw
            } else {
                16
            };
        } else if byte == 1 {
            proof {
                lemma_mask_bounds();
            }
            self.mode = MasterBrightMode::from_bits((value >> 6u8) & 0x3);
        }
    }
}

} // verus!
