//! Memory-system control registers and the address decoders of both CPUs.
use vstd::prelude::*;

verus! {

/// Whether a bus access is non-sequential (N) or sequential (S).
#[derive(Clone, Copy, PartialEq, Eq, Structural, Debug)]
pub enum AccessType {
    N,
    S,
}


/// Byte `byte` of a 64-bit value.
pub fn read_byte_u64(value: u64, byte: usize) -> (r: u8)
    requires
        byte < 8,
    ensures
        r == ((value >> (8 * byte) as u64) & 0xFF) as u8,
{
    ((value >> (8 * byte as u64)) & 0xFF) as u8
}

/// A 64-bit value with byte `byte` replaced by `new_value`.
pub fn write_byte_u64(value: u64, byte: usize, new_value: u8) -> (r: u64)
    requires
        byte < 8,
    ensures
        r == (value & !(0xFFu64 << (8 * byte) as u64)) | ((new_value as u64) << (8 * byte) as u64),
{
    let shift: u64 = 8 * byte as u64;
    (value & !(0xFFu64 << shift)) | ((new_value as u64) << shift)
}

/// Byte `byte` of a 32-bit value.
pub fn read_byte_u32(value: u32, byte: usize) -> (r: u8)
    requires
        byte < 4,
    ensures
        r == ((value >> (8 * byte) as u32) & 0xFF) as u8,
{
    ((value >> (8 * byte as u32)) & 0xFF) as u8
}

/// A 32-bit value with byte `byte` replaced by `new_value`.
pub fn write_byte_u32(value: u32, byte: usize, new_value: u8) -> (r: u32)
    requires
        byte < 4,
    ensures
        r == (value & !(0xFFu32 << (8 * byte) as u32)) | ((new_value as u32) << (8 * byte) as u32),
{
    let shift: u32 = 8 * byte as u32;
    (value & !(0xFFu32 << shift)) | ((new_value as u32) << shift)
}

/// Reading a byte right after writing it gives back the written byte, and
/// the other bytes are kept.
pub proof fn lemma_u64_byte_roundtrip(value: u64, byte: u64, other: u64, new_value: u8)
    requires
        byte < 8,
        other < 8,
    ensures
        ((((value & !(0xFFu64 << (8 * byte) as u64)) | ((new_value as u64) << (8 * byte) as u64))
            >> (8 * other) as u64) & 0xFF) as u8 == if other == byte {
            new_value
        } else {
            ((value >> (8 * other) as u64) & 0xFF) as u8
        },
{
    lemma_byte_lanes(value, byte, other, 0, 0, 0, new_value);
}

/// The 32-bit form of `lemma_u64_byte_roundtrip`.
pub proof fn lemma_u32_byte_roundtrip(value: u32, byte: u32, other: u32, new_value: u8)
    requires
        byte < 4,
        other < 4,
    ensures
        ((((value & !(0xFFu32 << (8 * byte) as u32)) | ((new_value as u32) << (8 * byte) as u32))
            >> (8 * other) as u32) & 0xFF) as u8 == if other == byte {
            new_value
        } else {
            ((value >> (8 * other) as u32) & 0xFF) as u8
        },
{
    lemma_byte_lanes(0, 0, 0, value, byte, other, new_value);
}

proof fn lemma_byte_lanes(v64: u64, b64: u64, o64: u64, v32: u32, b32: u32, o32: u32, nv: u8)
    by (bit_vector)
    ensures
        (b64 < 8 && o64 < 8) ==> ((((v64 & !(0xFFu64 << (8 * b64) as u64)) | ((nv as u64) << (8
            * b64) as u64)) >> (8 * o64) as u64) & 0xFF) as u8 == if o64 == b64 {
            nv
        } else {
            ((v64 >> (8 * o64) as u64) & 0xFF) as u8
        },
        (b32 < 4 && o32 < 4) ==> ((((v32 & !(0xFFu32 << (8 * b32) as u32)) | ((nv as u32) << (8
            * b32) as u32)) >> (8 * o32) as u32) & 0xFF) as u8 == if o32 == b32 {
            nv
        } else {
            ((v32 >> (8 * o32) as u32) & 0xFF) as u8
        },
{
}

/// The size of the shared WRAM.
pub const SHARED_WRAM_SIZE: u32 = 0x8000;

/// The memory regions of the ARM7's address space by its top byte.
#[derive(Clone, Copy, PartialEq, Eq, Structural, Debug)]
pub enum ARM7MemoryRegion {
    SharedWRAM,
    IO,
    VRAM,
    GBAROM,
    GBARAM,
}

/// Whether the ARM7 address `addr` is in a region it decodes.
pub open spec fn arm7_region_ok(addr: u32) -> bool {
    let top = addr >> 24u32;
    top == 0x3 || top == 0x4 || top == 0x6 || top == 0x8 || top == 0x9 || top == 0xA
}

impl ARM7MemoryRegion {
    /// The region of `addr`: shared WRAM, I/O, VRAM, GBA ROM or GBA RAM.
    pub fn from_addr(addr: u32) -> (r: ARM7MemoryRegion)
        requires
            arm7_region_ok(addr),
        ensures
            (addr >> 24u32) == 0x3 <==> r == ARM7MemoryRegion::SharedWRAM,
            (addr >> 24u32) == 0x4 <==> r == ARM7MemoryRegion::IO,
            (addr >> 24u32) == 0x6 <==> r == ARM7MemoryRegion::VRAM,
            (addr >> 24u32) == 0x8 || (addr >> 24u32) == 0x9 <==> r == ARM7MemoryRegion::GBAROM,
            (addr >> 24u32) == 0xA <==> r == ARM7MemoryRegion::GBARAM,
    {
        let top = addr >> 24u32;
        if top == 0x3 {
            ARM7MemoryRegion::SharedWRAM
        } else if top == 0x4 {
            ARM7MemoryRegion::IO
        } else if top == 0x6 {
            ARM7MemoryRegion::VRAM
        } else if top == 0x8 || top == 0x9 {
            ARM7MemoryRegion::GBAROM
        } else {
            ARM7MemoryRegion::GBARAM
        }
    }
}

/// The memory regions of the ARM9's address space by its top byte.
#[derive(Clone, Copy, PartialEq, Eq, Structural, Debug)]
pub enum ARM9MemoryRegion {
    SharedWRAM,
    IO,
    Palette,
    VRAM,
    OAM,
    GBAROM,
    GBARAM,
    Unknown,
}

/// The ARM9 region of top address byte `top`.
pub open spec fn arm9_region_of(top: u32) -> ARM9MemoryRegion {
    if top == 0x3 {
        ARM9MemoryRegion::SharedWRAM
    } else if top == 0x4 {
        ARM9MemoryRegion::IO
    } else if top == 0x5 {
        ARM9MemoryRegion::Palette
    } else if top == 0x6 {
        ARM9MemoryRegion::VRAM
    } else if top == 0x7 {
        ARM9MemoryRegion::OAM
    } else if top == 0x8 || top == 0x9 {
        ARM9MemoryRegion::GBAROM
    } else if top == 0xA {
        ARM9MemoryRegion::GBARAM
    } else {
        ARM9MemoryRegion::Unknown
    }
}

impl ARM9MemoryRegion {
    /// The region of `addr`; addresses outside the decoded regions are
    /// unknown.
    pub fn from_addr(addr: u32) -> (r: ARM9MemoryRegion)
        ensures
            r == arm9_region_of(addr >> 24u32),
    {
        let top = addr >> 24u32;
        if top == 0x3 {
            ARM9MemoryRegion::SharedWRAM
        } else if top == 0x4 {
            ARM9MemoryRegion::IO
        } else if top == 0x5 {
            ARM9MemoryRegion::Palette
        } else if top == 0x6 {
            ARM9MemoryRegion::VRAM
        } else if top == 0x7 {
            ARM9MemoryRegion::OAM
        } else if top == 0x8 || top == 0x9 {
            ARM9MemoryRegion::GBAROM
        } else if top == 0xA {
            ARM9MemoryRegion::GBARAM
        } else {
            ARM9MemoryRegion::Unknown
        }
    }
}

/// The GBA slot timings of one CPU's external memory control.
#[derive(Clone, Copy, Debug)]
pub struct ExMemGBA {
    pub sram_access_time: u8,
    pub rom_n_access_time: u8,
    pub rom_s_access_time: u8,
    pub phi: u8,
}

/// The byte of the GBA slot timings.
pub open spec fn exmem_gba_byte(g: ExMemGBA) -> u8 {
    (g.phi << 5u8) | (g.rom_s_access_time << 4u8) | (g.rom_n_access_time << 2u8) | g.sram_access_time
}

impl ExMemGBA {
    pub fn new() -> (r: ExMemGBA)
        ensures
            r.sram_access_time == 0 && r.rom_n_access_time == 0 && r.rom_s_access_time == 0 && r.phi == 0,
    {
        ExMemGBA { sram_access_time: 0, rom_n_access_time: 0, rom_s_access_time: 0, phi: 0 }
    }

    pub fn read(&self) -> (r: u8)
        ensures
            r == exmem_gba_byte(*self),
    {
        (self.phi << 5u8) | (self.rom_s_access_time << 4u8) | (self.rom_n_access_time << 2u8) | self.sram_access_time
    }

    /// SRAM time in bits 0-1, ROM first access in 2-3, ROM second access
    /// in 4, PHI output in 5-6.
    pub fn write(&mut self, value: u8)
        ensures
            final(self).sram_access_time == value & 0x3,
            final(self).rom_n_access_time == (value >> 2u8) & 0x3,
            final(self).rom_s_access_time == (value >> 4u8) & 0x1,
            final(self).phi == (value >> 5u8) & 0x3,
    {
        self.sram_access_time = value & 0x3;
        self.rom_n_access_time = (value >> 2u8) & 0x3;
        self.rom_s_access_time = (value >> 4u8) & 0x1;
        self.phi = (value >> 5u8) & 0x3;
    }
}

/// The external memory control: each CPU's GBA slot timings, which CPU
/// owns the GBA and DS slots, and the main memory's mode and priority.
#[derive(Clone, Copy, Debug)]
pub struct EXMEM {
    pub gba7: ExMemGBA,
    pub gba9: ExMemGBA,
    pub gba_arm7_access: bool,
    pub nds_arm7_access: bool,
    pub main_mem_interface_mode: bool,
    pub main_mem_arm7_priority: bool,
}

/// A flag as the bit it is stored in.
pub open spec fn flag(b: bool) -> u8 {
    if b {
        1
    } else {
        0
    }
}

impl EXMEM {
    pub fn new() -> (r: EXMEM)
        ensures
            !r.gba_arm7_access && !r.nds_arm7_access && r.main_mem_interface_mode && !r.main_mem_arm7_priority,
            r.gba7 == r.gba9 && r.gba7.phi == 0 && r.gba7.sram_access_time == 0,
    {
        EXMEM {
            gba7: ExMemGBA::new(),
            gba9: ExMemGBA::new(),
            gba_arm7_access: false,
            nds_arm7_access: false,
            main_mem_interface_mode: true,
            main_mem_arm7_priority: false,
        }
    }

    /// The ARM7's view: the GBA slot owner in bit 7 and its own timings.
    pub fn read_arm7(&self) -> (r: u8)
        ensures
            r == (flag(self.gba_arm7_access) << 7u8) | exmem_gba_byte(self.gba7),
    {
        ((self.gba_arm7_access as u8) << 7u8) | self.gba7.read()
    }

    /// The ARM9's view: the GBA slot owner in bit 7 and its own timings.
    pub fn read_arm9(&self) -> (r: u8)
        ensures
            r == (flag(self.gba_arm7_access) << 7u8) | exmem_gba_byte(self.gba9),
    {
        ((self.gba_arm7_access as u8) << 7u8) | self.gba9.read()
    }

    /// The byte both CPUs see: main memory priority and mode, and the DS
    /// slot owner.
    pub fn read_common(&self) -> (r: u8)
        ensures
            r == (flag(self.main_mem_arm7_priority) << 7u8) | (flag(self.main_mem_interface_mode) << 6u8) | (
            flag(self.nds_arm7_access) << 3u8),
    {
        ((self.main_mem_arm7_priority as u8) << 7u8) | ((self.main_mem_interface_mode as u8) << 6u8) | ((
        self.nds_arm7_access as u8) << 3u8)
    }

    /// The ARM7 sets only its own timings.
    pub fn write_arm7(&mut self, value: u8)
        ensures
            final(self).gba7.sram_access_time == value & 0x3,
            final(self).gba7.rom_n_access_time == (value >> 2u8) & 0x3,
            final(self).gba7.rom_s_access_time == (value >> 4u8) & 0x1,
            final(self).gba7.phi == (value >> 5u8) & 0x3,
            *final(self) == (EXMEM { gba7: final(self).gba7, ..*old(self) }),
    {
        let mut g = self.gba7;
        g.write(value);
        self.gba7 = g;
    }

    /// The ARM9 sets its timings and which CPU owns the GBA slot.
    pub fn write_arm9(&mut self, value: u8)
        ensures
            final(self).gba_arm7_access == ((value >> 7u8) & 0x1 != 0),
            final(self).gba9.sram_access_time == value & 0x3,
            final(self).gba9.rom_n_access_time == (value >> 2u8) & 0x3,
            final(self).gba9.rom_s_access_time == (value >> 4u8) & 0x1,
            final(self).gba9.phi == (value >> 5u8) & 0x3,
            *final(self) == (EXMEM {
                gba9: final(self).gba9,
                gba_arm7_access: final(self).gba_arm7_access,
                ..*old(self)
            }),
    {
        self.gba_arm7_access = (value >> 7u8) & 0x1 != 0;
        let mut g = self.gba9;
        g.write(value);
        self.gba9 = g;
    }

    /// Main memory priority (bit 7) and mode (bit 6), DS slot owner (bit 3).
    pub fn write_common(&mut self, value: u8)
        ensures
            *final(self) == (EXMEM {
                main_mem_arm7_priority: (value >> 7u8) & 0x1 != 0,
                main_mem_interface_mode: (value >> 6u8) & 0x1 != 0,
                nds_arm7_access: (value >> 3u8) & 0x1 != 0,
                ..*old(self)
            }),
    {
        self.main_mem_arm7_priority = (value >> 7u8) & 0x1 != 0;
        self.main_mem_interface_mode = (value >> 6u8) & 0x1 != 0;
        self.nds_arm7_access = (value >> 3u8) & 0x1 != 0;
    }
}

/// The shared WRAM control: how the 32 KiB are split between the CPUs, as
/// an offset and address mask for each (mask 0: none).
#[derive(Clone, Copy, Debug)]
pub struct WRAMCNT {
    pub value: u8,
    pub arm7_offset: u32,
    pub arm7_mask: u32,
    pub arm9_offset: u32,
    pub arm9_mask: u32,
}

/// The split after a change to `value`: 0 gives all to the ARM9, 1 the
/// second half to the ARM9 and the first to the ARM7, 2 the other way
/// round, 3 all to the ARM7; a CPU left without WRAM keeps its offset.
pub open spec fn wram_split(w: WRAMCNT) -> WRAMCNT {
    let half = (SHARED_WRAM_SIZE / 2) as u32;
    if w.value == 0 {
        WRAMCNT { arm7_mask: 0, arm9_offset: 0, arm9_mask: (SHARED_WRAM_SIZE - 1) as u32, ..w }
    } else if w.value == 1 {
        WRAMCNT { arm7_offset: 0, arm7_mask: (half - 1) as u32, arm9_offset: half, arm9_mask: (half - 1) as u32, ..w }
    } else if w.value == 2 {
        WRAMCNT { arm7_offset: half, arm7_mask: (half - 1) as u32, arm9_offset: 0, arm9_mask: (half - 1) as u32, ..w }
    } else {
        WRAMCNT { arm7_offset: 0, arm7_mask: (SHARED_WRAM_SIZE - 1) as u32, arm9_mask: 0, ..w }
    }
}

impl WRAMCNT {
    /// The control with split `value`.
    pub fn new(value: u8) -> (r: WRAMCNT)
        requires
            value < 4,
        ensures
            r == wram_split(WRAMCNT { value, arm7_offset: 0, arm7_mask: 0, arm9_offset: 0, arm9_mask: 0 }),
    {
        let mut w = WRAMCNT { value, arm7_offset: 0, arm7_mask: 0, arm9_offset: 0, arm9_mask: 0 };
        w.changed();
        w
    }

    /// Recomputes the split from the value.
    pub fn changed(&mut self)
        requires
            old(self).value < 4,
        ensures
            *final(self) == wram_split(*old(self)),
    {
        if self.value == 0 {
            self.arm7_mask = 0;
            self.arm9_offset = 0;
            self.arm9_mask = SHARED_WRAM_SIZE - 1;
        } else if self.value == 1 {
            self.arm7_offset = 0;
            self.arm7_mask = SHARED_WRAM_SIZE / 2 - 1;
            self.arm9_offset = SHARED_WRAM_SIZE / 2;
            self.arm9_mask = SHARED_WRAM_SIZE / 2 - 1;
        } else if self.value == 2 {
            self.arm7_offset = SHARED_WRAM_SIZE / 2;
            self.arm7_mask = SHARED_WRAM_SIZE / 2 - 1;
            self.arm9_offset = 0;
            self.arm9_mask = SHARED_WRAM_SIZE / 2 - 1;
        } else {
            self.arm7_offset = 0;
            self.arm7_mask = SHARED_WRAM_SIZE - 1;
            self.arm9_mask = 0;
        }
    }

    pub fn read(&self, byte: usize) -> (r: u8)
        requires
            byte == 0,
        ensures
            r == self.value,
    {
        self.value
    }

    /// Sets the split from the low two bits of `value`.
    pub fn write(&mut self, byte: usize, value: u8)
        requires
            byte == 0,
        ensures
            *final(self) == wram_split(WRAMCNT { value: value & 0x3, ..*old(self) }),
    {
        proof {
            crate::bits::lemma_mask_bounds();
        }
        self.value = value & 0x3;
        self.changed();
    }
}

/// The sound and wireless power control.
#[derive(Clone, Copy, Debug)]
pub struct POWCNT2 {
    pub enable_sound: bool,
    pub enable_wifi: bool,
}

impl POWCNT2 {
    pub fn new() -> (r: POWCNT2)
        ensures
            r.enable_sound && !r.enable_wifi,
    {
        POWCNT2 { enable_sound: true, enable_wifi: false }
    }

    /// Byte 0 holds the wireless (bit 1) and sound (bit 0) enables; the
    /// others read 0.
    pub fn read(&self, byte: usize) -> (r: u8)
        requires
            byte < 4,
        ensures
            r == if byte == 0 {
                (flag(self.enable_wifi) << 1u8) | flag(self.enable_sound)
            } else {
                0
            },
    {
        if byte == 0 {
            ((self.enable_wifi as u8) << 1u8) | (self.enable_sound as u8)
        } else {
            0
        }
    }

    pub fn write(&mut self, byte: usize, value: u8)
        requires
            byte < 4,
        ensures
            byte == 0 ==> *final(self) == (POWCNT2 {
                enable_sound: value & 0x1 != 0,
                enable_wifi: (value >> 1u8) & 0x1 != 0,
            }),
            byte != 0 ==> *final(self) == *old(self),
    {
        if byte == 0 {
            self.enable_sound = value & 0x1 != 0;
            self.enable_wifi = (value >> 1u8) & 0x1 != 0;
        }
    }
}

/// The ARM7's power-down modes.
#[derive(Clone, Copy, PartialEq, Eq, Structural, Debug)]
pub enum HaltMode {
    Running,
    GBA,
    Halt,
    Sleep,
}

impl HaltMode {
    pub open spec fn code(&self) -> u8 {
        match self {
            HaltMode::Running => 0,
            HaltMode::GBA => 1,
            HaltMode::Halt => 2,
            HaltMode::Sleep => 3,
        }
    }

    /// The mode with code `value`.
    pub fn from_bits(value: u8) -> (r: HaltMode)
        requires
            value < 4,
        ensures
            r.code() == value,
    {
        if value == 0 {
            HaltMode::Running
        } else if value == 1 {
            HaltMode::GBA
        } else if value == 2 {
            HaltMode::Halt
        } else {
            HaltMode::Sleep
        }
    }
}

/// The ARM7's halt control.
#[derive(Clone, Copy, Debug)]
pub struct HALTCNT {
    pub mode: HaltMode,
}

impl HALTCNT {
    pub fn new() -> (r: HALTCNT)
        ensures
            r.mode == HaltMode::Running,
    {
        HALTCNT { mode: HaltMode::Running }
    }

    /// Leaves the halt (an interrupt arrived).
    pub fn unhalt(&mut self)
        ensures
            final(self).mode == HaltMode::Running,
    {
        self.mode = HaltMode::Running;
    }

    pub fn halted(&self) -> (r: bool)
        ensures
            r == (self.mode == HaltMode::Halt),
    {
        self.mode == HaltMode::Halt
    }

    /// The mode in bits 6-7.
    pub fn read(&self, byte: usize) -> (r: u8)
        requires
            byte == 0,
        ensures
            r == self.mode.code() << 6u8,
    {
        let code: u8 = match self.mode {
            HaltMode::Running => 0,
            HaltMode::GBA => 1,
            HaltMode::Halt => 2,
            HaltMode::Sleep => 3,
        };
        code << 6u8
    }

    /// Sets the mode from bits 6-7; only running and halt are supported.
    pub fn write(&mut self, byte: usize, value: u8)
        requires
            byte == 0,
            value >> 6u8 == 0 || value >> 6u8 == 2,
        ensures
            final(self).mode.code() == value >> 6u8,
    {
        self.mode = HaltMode::from_bits(value >> 6u8);
    }
}

} // verus!
