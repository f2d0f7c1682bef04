//! The DMA controllers: four channels per CPU, their registers, and the
//! lists of enabled channels by start timing.
use vstd::prelude::*;
use crate::mmu::{AccessType, read_byte_u32, write_byte_u32};
use crate::interrupts::{DMA0, DMA1, DMA2, DMA3};
use crate::bits::lemma_mask_bounds;

verus! {

/// The number of start timings.
pub const NUM_OCCASIONS: usize = 9;

/// When a DMA channel starts.
#[derive(Clone, Copy, PartialEq, Eq, Structural, Debug)]
pub enum DMAOccasion {
    Immediate,
    VBlank,
    HBlank,
    StartOfDisplay,
    MainMemoryDisplay,
    DSCartridge,
    GBACartridge,
    GeometryCommandFIFO,
    WirelessInterrupt,
}

impl DMAOccasion {
    /// The start timing's number.
    pub open spec fn code(&self) -> u8 {
        match self {
            DMAOccasion::Immediate => 0,
            DMAOccasion::VBlank => 1,
            DMAOccasion::HBlank => 2,
            DMAOccasion::StartOfDisplay => 3,
            DMAOccasion::MainMemoryDisplay => 4,
            DMAOccasion::DSCartridge => 5,
            DMAOccasion::GBACartridge => 6,
            DMAOccasion::GeometryCommandFIFO => 7,
            DMAOccasion::WirelessInterrupt => 8,
        }
    }

    /// The start timing's number, as an index.
    pub fn index(&self) -> (r: usize)
        ensures
            r == self.code(),
            r < NUM_OCCASIONS,
    {
        match self {
            DMAOccasion::Immediate => 0,
            DMAOccasion::VBlank => 1,
            DMAOccasion::HBlank => 2,
            DMAOccasion::StartOfDisplay => 3,
            DMAOccasion::MainMemoryDisplay => 4,
            DMAOccasion::DSCartridge => 5,
            DMAOccasion::GBACartridge => 6,
            DMAOccasion::GeometryCommandFIFO => 7,
            DMAOccasion::WirelessInterrupt => 8,
        }
    }

    /// The number of start timings.
    pub fn num() -> (r: usize)
        ensures
            r == NUM_OCCASIONS,
    {
        NUM_OCCASIONS
    }

    /// The start timing that the 3-bit field `start_timing` selects: the ARM9
    /// uses all eight values, the ARM7 only the low two bits, where 3 means
    /// the wireless interrupt on channels 0 and 2 and the GBA slot on 1 and 3.
    pub fn get(is_nds9: bool, dma_num: usize, start_timing: u8) -> (r: DMAOccasion)
        requires
            is_nds9 ==> start_timing < 8,
        ensures
            r == occasion_of(is_nds9, dma_num, start_timing),
    {
        if is_nds9 {
            match start_timing {
                0 => DMAOccasion::Immediate,
                1 => DMAOccasion::VBlank,
                2 => DMAOccasion::HBlank,
                3 => DMAOccasion::StartOfDisplay,
                4 => DMAOccasion::MainMemoryDisplay,
                5 => DMAOccasion::DSCartridge,
                6 => DMAOccasion::GBACartridge,
                _ => DMAOccasion::GeometryCommandFIFO,
            }
        } else {
            let t = start_timing & 0x3;
            if t == 0 {
                DMAOccasion::Immediate
            } else if t == 1 {
                DMAOccasion::VBlank
            } else if t == 2 {
                DMAOccasion::DSCartridge
            } else if dma_num % 2 == 0 {
                DMAOccasion::WirelessInterrupt
            } else {
                DMAOccasion::GBACartridge
            }
        }
    }
}

/// The start timing of field value `t` (see `DMAOccasion::get`).
pub open spec fn occasion_of(is_nds9: bool, dma_num: usize, t: u8) -> DMAOccasion {
    if is_nds9 {
        if t == 0 {
            DMAOccasion::Immediate
        } else if t == 1 {
            DMAOccasion::VBlank
        } else if t == 2 {
            DMAOccasion::HBlank
        } else if t == 3 {
            DMAOccasion::StartOfDisplay
        } else if t == 4 {
            DMAOccasion::MainMemoryDisplay
        } else if t == 5 {
            DMAOccasion::DSCartridge
        } else if t == 6 {
            DMAOccasion::GBACartridge
        } else {
            DMAOccasion::GeometryCommandFIFO
        }
    } else {
        let l = t & 3;
        if l == 0 {
            DMAOccasion::Immediate
        } else if l == 1 {
            DMAOccasion::VBlank
        } else if l == 2 {
            DMAOccasion::DSCartridge
        } else if dma_num % 2 == 0 {
            DMAOccasion::WirelessInterrupt
        } else {
            DMAOccasion::GBACartridge
        }
    }
}

/// A source or destination address register with the mask of its valid
/// bits.
#[derive(Clone, Copy, Debug)]
pub struct Address {
    pub addr: u32,
    pub mask: u32,
}

impl Address {
    pub fn new(mask: u32) -> (r: Address)
        ensures
            r.addr == 0 && r.mask == mask,
    {
        Address { addr: 0, mask }
    }

    /// Byte `byte` of the address.
    pub fn read(&self, byte: usize) -> (r: u8)
        requires
            byte < 4,
        ensures
            r == ((self.addr >> (8 * byte) as u32) & 0xFF) as u8,
    {
        read_byte_u32(self.addr, byte)
    }

    /// Replaces byte `byte` of the address.
    pub fn write(&mut self, byte: usize, value: u8)
        requires
            byte < 4,
        ensures
            final(self).addr == (old(self).addr & !(0xFFu32 << (8 * byte) as u32)) | ((value as u32) << (8
                * byte) as u32),
            final(self).mask == old(self).mask,
    {
        self.addr = write_byte_u32(self.addr, byte, value);
    }
}

/// A channel's control register.
#[derive(Clone, Copy, Debug)]
pub struct DMACNT {
    pub count: u32,
    pub count_latch: u32,
    pub dest_addr_ctrl: u8,
    pub src_addr_ctrl: u8,
    pub repeat: bool,
    pub transfer_32: bool,
    pub start_timing: DMAOccasion,
    pub irq: bool,
    pub enable: bool,
    pub is_nds9: bool,
    pub num: usize,
    pub count_mask: u32,
}

/// The mask of a channel's word count: 21 bits on the ARM9, 16 bits for
/// ARM7 channel 3 and 14 bits for the other ARM7 channels.
pub open spec fn count_mask_of(is_nds9: bool, num: usize) -> u32 {
    if is_nds9 {
        0x1F_FFFF
    } else if num == 3 {
        0xFFFF
    } else {
        0x3FFF
    }
}

/// The register's invariant: the address controls are two-bit values, the
/// word count fits its field, and the mask is the channel's.
pub open spec fn dmacnt_wf(c: DMACNT) -> bool {
    &&& c.dest_addr_ctrl < 4
    &&& c.src_addr_ctrl < 4
    &&& c.count <= 0x1F_FFFF
    &&& c.count_mask == count_mask_of(c.is_nds9, c.num)
}

/// Byte `byte` of the control register.
pub open spec fn dmacnt_byte(c: DMACNT, byte: usize) -> u8 {
    if byte < 2 {
        ((c.count >> (8 * byte) as u32) & 0xFF) as u8
    } else if byte == 2 {
        ((c.src_addr_ctrl & 0x1) << 7u8) | (c.dest_addr_ctrl << 5u8) | ((c.count >> 16u32) as u8)
    } else {
        ((if c.enable { 1u8 } else { 0u8 }) << 7u8) | ((if c.irq { 1u8 } else { 0u8 }) << 6u8) | (
        c.start_timing.code() << 3u8) | ((if c.transfer_32 { 1u8 } else { 0u8 }) << 2u8) | ((if c.repeat {
            1u8
        } else {
            0u8
        }) << 1u8) | (c.src_addr_ctrl >> 1u8)
    }
}

/// The control register after writing `value` to byte `byte`.
pub open spec fn dmacnt_written(c: DMACNT, byte: usize, value: u8) -> DMACNT {
    if byte < 2 {
        DMACNT {
            count: (c.count & !(0xFFu32 << (8 * byte) as u32)) | ((value as u32) << (8 * byte) as u32),
            ..c
        }
    } else if byte == 2 {
        DMACNT {
            count: if c.is_nds9 {
                (c.count & !(0xFFu32 << 16u32)) | (((value & 0x1F) as u32) << 16u32)
            } else {
                c.count
            },
            src_addr_ctrl: (c.src_addr_ctrl & !0x1u8) | ((value >> 7u8) & 0x1),
            dest_addr_ctrl: (value >> 5u8) & 0x3,
            ..c
        }
    } else {
        DMACNT {
            enable: (value >> 7u8) & 0x1 != 0,
            irq: (value >> 6u8) & 0x1 != 0,
            start_timing: occasion_of(c.is_nds9, c.num, (value >> 3u8) & 0x7),
            transfer_32: (value >> 2u8) & 0x1 != 0,
            repeat: (value >> 1u8) & 0x1 != 0,
            src_addr_ctrl: (c.src_addr_ctrl & !0x2u8) | ((value << 1u8) & 0x2),
            ..c
        }
    }
}

/// The control register of channel `num` at power-on: everything clear.
pub open spec fn cleared_cnt(is_nds9: bool, num: usize) -> DMACNT {
    DMACNT {
        count: 0,
        count_latch: 0,
        dest_addr_ctrl: 0,
        src_addr_ctrl: 0,
        repeat: false,
        transfer_32: false,
        start_timing: DMAOccasion::Immediate,
        irq: false,
        enable: false,
        is_nds9,
        num,
        count_mask: count_mask_of(is_nds9, num),
    }
}

impl DMACNT {
    pub fn new(is_nds9: bool, num: usize) -> (r: DMACNT)
        ensures
            r == cleared_cnt(is_nds9, num),
            dmacnt_wf(r),
    {
        DMACNT {
            count: 0,
            count_latch: 0,
            dest_addr_ctrl: 0,
            src_addr_ctrl: 0,
            repeat: false,
            transfer_32: false,
            start_timing: DMAOccasion::Immediate,
            irq: false,
            enable: false,
            is_nds9,
            num,
            count_mask: if is_nds9 {
                0x1F_FFFF
            } else {
                if num == 3 {
                    0xFFFF
                } else {
                    0x3FFF
                }
            },
        }
    }

    /// Byte `byte` of the register: the word count, the address controls,
    /// then the flags and start timing.
    pub fn read(&self, byte: usize) -> (r: u8)
        requires
            byte < 4,
        ensures
            r == dmacnt_byte(*self, byte),
    {
        if byte < 2 {
            read_byte_u32(self.count, byte)
        } else if byte == 2 {
            ((self.src_addr_ctrl & 0x1) << 7u8) | (self.dest_addr_ctrl << 5u8) | ((self.count >> 16u32) as u8)
        } else {
            ((self.enable as u8) << 7u8) | ((self.irq as u8) << 6u8) | ((self.start_timing.index() as u8) << 3u8)
                | ((self.transfer_32 as u8) << 2u8) | ((self.repeat as u8) << 1u8) | (self.src_addr_ctrl
                >> 1u8)
        }
    }

    /// Writes byte `byte` of the register.
    pub fn write(&mut self, byte: usize, value: u8)
        requires
            byte < 4,
            dmacnt_wf(*old(self)),
        ensures
            *final(self) == dmacnt_written(*old(self), byte, value),
            dmacnt_wf(*final(self)),
    {
        if byte < 2 {
            let old_count = self.count;
            let count = write_byte_u32(old_count, byte, value);
            assert(count <= 0x1F_FFFF) by (bit_vector)
                requires
                    old_count <= 0x1F_FFFF,
                    byte < 2,
                    count == (old_count & !(0xFFu32 << (8 * byte) as u32)) | ((value as u32) << (8 * byte) as u32),
            ;
            self.count = count;
        } else if byte == 2 {
            let old_count = self.count;
            let old_src = self.src_addr_ctrl;
            let count = if self.is_nds9 {
                write_byte_u32(old_count, 2, value & 0x1F)
            } else {
                old_count
            };
            let src = (old_src & !0x1u8) | ((value >> 7u8) & 0x1);
            let dest = (value >> 5u8) & 0x3;
            assert(count <= 0x1F_FFFF && src < 4 && dest < 4) by (bit_vector)
                requires
                    old_count <= 0x1F_FFFF,
                    old_src < 4,
                    count == old_count || count == (old_count & !(0xFFu32 << 16u32)) | (((value & 0x1F) as u32)
                        << 16u32),
                    src == (old_src & !0x1u8) | ((value >> 7u8) & 0x1),
                    dest == (value >> 5u8) & 0x3,
            ;
            self.count = count;
            self.src_addr_ctrl = src;
            self.dest_addr_ctrl = dest;
        } else {
            proof {
                lemma_mask_bounds();
            }
            let old_src = self.src_addr_ctrl;
            let src = (old_src & !0x2u8) | ((value << 1u8) & 0x2);
            assert(src < 4) by (bit_vector)
                requires
                    old_src < 4,
                    src == (old_src & !0x2u8) | ((value << 1u8) & 0x2),
            ;
            self.enable = (value >> 7u8) & 0x1 != 0;
            self.irq = (value >> 6u8) & 0x1 != 0;
            self.start_timing = DMAOccasion::get(self.is_nds9, self.num, (value >> 3u8) & 0x7);
            self.transfer_32 = (value >> 2u8) & 0x1 != 0;
            self.repeat = (value >> 1u8) & 0x1 != 0;
            self.src_addr_ctrl = src;
        }
    }
}

/// On the ARM9, reading the control byte of the register gives back the
/// byte that was written there: every bit of it is kept.
pub proof fn lemma_control_byte_roundtrip(c: DMACNT, value: u8)
    requires
        dmacnt_wf(c),
        c.is_nds9,
    ensures
        dmacnt_byte(dmacnt_written(c, 3, value), 3) == value,
{
    let t = (value >> 3u8) & 0x7;
    assert(t < 8) by (bit_vector)
        requires
            t == (value >> 3u8) & 0x7,
    ;
    assert(occasion_of(true, c.num, t).code() == t);
    let src = c.src_addr_ctrl;
    let e: u8 = if (value >> 7u8) & 0x1 != 0 { 1 } else { 0 };
    let i: u8 = if (value >> 6u8) & 0x1 != 0 { 1 } else { 0 };
    let w: u8 = if (value >> 2u8) & 0x1 != 0 { 1 } else { 0 };
    let r: u8 = if (value >> 1u8) & 0x1 != 0 { 1 } else { 0 };
    assert((e << 7u8) | (i << 6u8) | (t << 3u8) | (w << 2u8) | (r << 1u8) | (((src & !0x2u8) | ((value
        << 1u8) & 0x2)) >> 1u8) == value) by (bit_vector)
        requires
            src < 4,
            t == (value >> 3u8) & 0x7,
            e == (if (value >> 7u8) & 0x1 != 0 { 1u8 } else { 0u8 }),
            i == (if (value >> 6u8) & 0x1 != 0 { 1u8 } else { 0u8 }),
            w == (if (value >> 2u8) & 0x1 != 0 { 1u8 } else { 0u8 }),
            r == (if (value >> 1u8) & 0x1 != 0 { 1u8 } else { 0u8 }),
    ;
}

/// A DMA channel: its registers, and the addresses and word count latched
/// when it was enabled.
#[derive(Clone, Copy, Debug)]
pub struct DMAChannel {
    pub num: usize,
    pub is_nds9: bool,
    pub sad_latch: u32,
    pub dad_latch: u32,
    pub count_latch: u32,
    pub cnt: DMACNT,
    pub sad: Address,
    pub dad: Address,
}

/// The channel's invariant: its control register is well formed and
/// belongs to it.
pub open spec fn channel_wf(ch: DMAChannel) -> bool {
    &&& dmacnt_wf(ch.cnt)
    &&& ch.cnt.is_nds9 == ch.is_nds9
    &&& ch.cnt.num == ch.num
}

/// Byte `byte` of the channel's register block: source, destination,
/// control.
pub open spec fn channel_byte(ch: DMAChannel, byte: usize) -> u8 {
    if byte < 4 {
        ((ch.sad.addr >> (8 * byte) as u32) & 0xFF) as u8
    } else if byte < 8 {
        ((ch.dad.addr >> (8 * (byte - 4)) as u32) & 0xFF) as u8
    } else {
        dmacnt_byte(ch.cnt, (byte - 8) as usize)
    }
}

/// The channel after writing `value` to byte `byte` of its registers.
pub open spec fn channel_written(ch: DMAChannel, byte: usize, value: u8) -> DMAChannel {
    if byte < 4 {
        DMAChannel {
            sad: Address {
                addr: (ch.sad.addr & !(0xFFu32 << (8 * byte) as u32)) | ((value as u32) << (8 * byte) as u32),
                ..ch.sad
            },
            ..ch
        }
    } else if byte < 8 {
        DMAChannel {
            dad: Address {
                addr: (ch.dad.addr & !(0xFFu32 << (8 * (byte - 4)) as u32)) | ((value as u32) << (8 * (byte
                    - 4)) as u32),
                ..ch.dad
            },
            ..ch
        }
    } else {
        DMAChannel { cnt: dmacnt_written(ch.cnt, (byte - 8) as usize, value), ..ch }
    }
}

/// The channel with its addresses and word count latched.
pub open spec fn latched(ch: DMAChannel) -> DMAChannel {
    let count = ch.cnt.count & ch.cnt.count_mask;
    DMAChannel {
        sad_latch: ch.sad.addr & ch.sad.mask,
        dad_latch: ch.dad.addr & ch.sad.mask,
        count_latch: if count == 0 {
            (ch.cnt.count_mask + 1) as u32
        } else {
            count
        },
        ..ch
    }
}

impl DMAChannel {
    /// A channel with cleared registers; the ARM7's channel 0 source and
    /// channel 3 destination reach only the lower 128 MiB.
    pub fn new(is_nds9: bool, num: usize) -> (r: DMAChannel)
        ensures
            channel_wf(r),
            r.num == num && r.is_nds9 == is_nds9,
            r.sad_latch == 0 && r.dad_latch == 0 && r.count_latch == 0,
            r.cnt == cleared_cnt(is_nds9, num),
            r.sad.addr == 0 && r.dad.addr == 0,
            r.sad.mask == (if !is_nds9 && num == 0 { 0x07FF_FFFFu32 } else { 0x0FFF_FFFFu32 }),
            r.dad.mask == (if !is_nds9 && num == 3 { 0x07FF_FFFFu32 } else { 0x0FFF_FFFFu32 }),
    {
        DMAChannel {
            num,
            is_nds9,
            sad_latch: 0,
            dad_latch: 0,
            count_latch: 0,
            cnt: DMACNT::new(is_nds9, num),
            sad: Address::new(
                if is_nds9 {
                    0x0FFF_FFFF
                } else {
                    if num == 0 {
                        0x07FF_FFFF
                    } else {
                        0x0FFF_FFFF
                    }
                },
            ),
            dad: Address::new(
                if is_nds9 {
                    0x0FFF_FFFF
                } else {
                    if num == 3 {
                        0x07FF_FFFF
                    } else {
                        0x0FFF_FFFF
                    }
                },
            ),
        }
    }

    /// Latches the addresses (both masked with the source mask) and the
    /// word count, where a count of 0 means the largest count plus one.
    pub fn latch(&mut self)
        requires
            channel_wf(*old(self)),
        ensures
            *final(self) == latched(*old(self)),
    {
        self.sad_latch = self.sad.addr & self.sad.mask;
        self.dad_latch = self.dad.addr & self.sad.mask;
        let count = self.cnt.count & self.cnt.count_mask;
        self.count_latch = if count == 0 {
            self.cnt.count_mask + 1
        } else {
            count
        };
    }

    /// Byte `byte` of the channel's registers.
    pub fn read(&self, byte: usize) -> (r: u8)
        requires
            byte < 12,
        ensures
            r == channel_byte(*self, byte),
    {
        if byte < 4 {
            self.sad.read(byte)
        } else if byte < 8 {
            self.dad.read(byte - 4)
        } else {
            self.cnt.read(byte - 8)
        }
    }

    /// Writes byte `byte` of the channel's registers.
    pub fn write(&mut self, byte: usize, value: u8)
        requires
            byte < 12,
            channel_wf(*old(self)),
        ensures
            channel_wf(*final(self)),
            *final(self) == channel_written(*old(self), byte, value),
    {
        if byte < 4 {
            let mut sad = self.sad;
            sad.write(byte, value);
            self.sad = sad;
        } else if byte < 8 {
            let mut dad = self.dad;
            dad.write(byte - 4, value);
            self.dad = dad;
        } else {
            let mut cnt = self.cnt;
            cnt.write(byte - 8, value);
            self.cnt = cnt;
        }
    }

    /// Starts a transfer: the word count and the word-aligned latched
    /// addresses it runs with, and the enable flag cleared unless the
    /// channel repeats on a timing other than immediate.
    pub fn begin_transfer(&mut self) -> (r: (u32, u32, u32))
        ensures
            r.0 == old(self).count_latch,
            r.1 == old(self).sad_latch & !(if old(self).cnt.transfer_32 { 3u32 } else { 1u32 }),
            r.2 == old(self).dad_latch & !(if old(self).cnt.transfer_32 { 3u32 } else { 1u32 }),
            *final(self) == (DMAChannel {
                cnt: DMACNT {
                    enable: old(self).cnt.start_timing != DMAOccasion::Immediate && old(self).cnt.repeat,
                    ..old(self).cnt
                },
                ..*old(self)
            }),
    {
        let mask: u32 = if self.cnt.transfer_32 { 3 } else { 1 };
        let enable = self.cnt.start_timing != DMAOccasion::Immediate && self.cnt.repeat;
        self.cnt = DMACNT { enable, ..self.cnt };
        (self.count_latch, self.sad_latch & !mask, self.dad_latch & !mask)
    }

    /// Ends a transfer: the latched addresses continue where it stopped,
    /// except that the destination reloads when its control is 3.
    pub fn end_transfer(&mut self, src_addr: u32, dest_addr: u32, original_dest_addr: u32)
        ensures
            *final(self) == (DMAChannel {
                sad_latch: src_addr,
                dad_latch: if old(self).cnt.dest_addr_ctrl == 3 { original_dest_addr } else { dest_addr },
                ..*old(self)
            }),
    {
        self.sad_latch = src_addr;
        self.dad_latch = if self.cnt.dest_addr_ctrl == 3 { original_dest_addr } else { dest_addr };
    }
}

/// The next source address of a transfer: up, down, or fixed by control
/// 0, 1 or 2, by `step` bytes.
pub open spec fn next_src(addr: u32, ctrl: u8, step: u32) -> u32 {
    if ctrl == 0 {
        ((addr + step) % 0x1_0000_0000) as u32
    } else if ctrl == 1 {
        ((addr - step) % 0x1_0000_0000) as u32
    } else {
        addr
    }
}

/// The next destination address of a transfer: up (control 0 or 3), down
/// (1), or fixed (2), by `step` bytes.
pub open spec fn next_dest(addr: u32, ctrl: u8, step: u32) -> u32 {
    if ctrl == 0 || ctrl == 3 {
        ((addr + step) % 0x1_0000_0000) as u32
    } else if ctrl == 1 {
        ((addr - step) % 0x1_0000_0000) as u32
    } else {
        addr
    }
}

/// The addresses after one unit of a transfer of `transfer_32`-bit units
/// with the given address controls; source control 3 is invalid.
pub fn step_addresses(src: u32, dest: u32, src_ctrl: u8, dest_ctrl: u8, transfer_32: bool) -> (r: (u32, u32))
    requires
        src_ctrl < 3,
        dest_ctrl < 4,
    ensures
        r.0 == next_src(src, src_ctrl, if transfer_32 { 4 } else { 2 }),
        r.1 == next_dest(dest, dest_ctrl, if transfer_32 { 4 } else { 2 }),
        src_ctrl == 2 ==> r.0 == src,
        dest_ctrl == 2 ==> r.1 == dest,
{
    let step: u32 = if transfer_32 { 4 } else { 2 };
    let s = if src_ctrl == 0 {
        src.wrapping_add(step)
    } else if src_ctrl == 1 {
        src.wrapping_sub(step)
    } else {
        src
    };
    let d = if dest_ctrl == 0 || dest_ctrl == 3 {
        dest.wrapping_add(step)
    } else if dest_ctrl == 1 {
        dest.wrapping_sub(step)
    } else {
        dest
    };
    (s, d)
}

/// The source address of unit `n` of a transfer starting at `addr`.
pub open spec fn src_at(addr: u32, ctrl: u8, step: u32, n: nat) -> u32
    decreases n,
{
    if n == 0 {
        addr
    } else {
        next_src(src_at(addr, ctrl, step, (n - 1) as nat), ctrl, step)
    }
}

/// The destination address of unit `n` of a transfer starting at `addr`.
pub open spec fn dest_at(addr: u32, ctrl: u8, step: u32, n: nat) -> u32
    decreases n,
{
    if n == 0 {
        addr
    } else {
        next_dest(dest_at(addr, ctrl, step, (n - 1) as nat), ctrl, step)
    }
}

/// The destination of unit `n` of a transfer: with control 2 every unit
/// goes to the starting address; with control 0 or 3 unit `n` goes `n`
/// steps above it, and with control 1 `n` steps below it, wrapping at
/// 2^32.
pub proof fn lemma_dest_plan(addr: u32, step: u32, n: nat)
    ensures
        dest_at(addr, 2, step, n) == addr,
        dest_at(addr, 0, step, n) == (addr + n * step) % 0x1_0000_0000,
        dest_at(addr, 3, step, n) == (addr + n * step) % 0x1_0000_0000,
        dest_at(addr, 1, step, n) == (addr - n * step) % 0x1_0000_0000,
    decreases n,
{
    if n > 0 {
        let m: nat = (n - 1) as nat;
        lemma_dest_plan(addr, step, m);
        lemma_steps(addr, step, n);
    }
}

/// The source of unit `n` of a transfer: with control 2 every unit comes
/// from the starting address; with control 0 unit `n` comes from `n` steps
/// above it, and with control 1 from `n` steps below it, wrapping at 2^32.
pub proof fn lemma_src_plan(addr: u32, step: u32, n: nat)
    ensures
        src_at(addr, 2, step, n) == addr,
        src_at(addr, 0, step, n) == (addr + n * step) % 0x1_0000_0000,
        src_at(addr, 1, step, n) == (addr - n * step) % 0x1_0000_0000,
    decreases n,
{
    if n > 0 {
        let m: nat = (n - 1) as nat;
        lemma_src_plan(addr, step, m);
        lemma_steps(addr, step, n);
    }
}

/// One more step up or down from `n - 1` steps is `n` steps, modulo 2^32.
proof fn lemma_steps(addr: u32, step: u32, n: nat)
    requires
        n > 0,
    ensures
        (((addr + (n - 1) * step) % 0x1_0000_0000) + step) % 0x1_0000_0000 == (addr + n * step)
            % 0x1_0000_0000,
        (((addr - (n - 1) * step) % 0x1_0000_0000) - step) % 0x1_0000_0000 == (addr - n * step)
            % 0x1_0000_0000,
{
    let big: int = 0x1_0000_0000;
    let x: int = addr + (n - 1) * step;
    let y: int = addr - (n - 1) * step;
    assert((n - 1) * step + step == n * step) by (nonlinear_arith);
    vstd::arithmetic::div_mod::lemma_add_mod_noop(x, step as int, big);
    vstd::arithmetic::div_mod::lemma_sub_mod_noop(y, step as int, big);
    vstd::arithmetic::div_mod::lemma_mod_twice(x, big);
    vstd::arithmetic::div_mod::lemma_mod_twice(y, big);
    assert((step as int) % big == step as int);
}

/// A transfer as the channel plans it: the source and destination address
/// of each unit in order, the unit size, and whether it ends with an
/// interrupt request.
pub struct Transfer {
    pub units: Vec<(u32, u32)>,
    pub transfer_32: bool,
    pub irq: bool,
}

/// The unit size in bytes.
pub open spec fn unit_step(transfer_32: bool) -> u32 {
    if transfer_32 {
        4
    } else {
        2
    }
}

/// The address bits a unit of this size ignores.
pub open spec fn unit_mask(transfer_32: bool) -> u32 {
    if transfer_32 {
        3
    } else {
        1
    }
}

impl DMAChannel {
    /// Runs the channel's transfer as far as the channel itself goes: the
    /// enable flag is cleared unless the channel repeats on a timing other
    /// than immediate; units go from the aligned latched source to the
    /// aligned latched destination, each address moving by its control;
    /// afterwards the latched addresses continue where the transfer
    /// stopped, the destination reloading when its control is 3. Reading
    /// and writing the units is left to the caller.
    pub fn run_transfer(&mut self) -> (r: Transfer)
        requires
            channel_wf(*old(self)),
            old(self).count_latch > 0 ==> old(self).cnt.src_addr_ctrl < 3,
        ensures
            ({
                let c = old(self).cnt;
                let step = unit_step(c.transfer_32);
                let s0 = old(self).sad_latch & !unit_mask(c.transfer_32);
                let d0 = old(self).dad_latch & !unit_mask(c.transfer_32);
                let n = old(self).count_latch as nat;
                &&& r.units@.len() == n
                &&& forall|i: int|
                    0 <= i < n ==> #[trigger] r.units@[i] == (
                        src_at(s0, c.src_addr_ctrl, step, i as nat),
                        dest_at(d0, c.dest_addr_ctrl, step, i as nat),
                    )
                &&& r.transfer_32 == c.transfer_32
                &&& r.irq == c.irq
                &&& *final(self) == (DMAChannel {
                    cnt: DMACNT { enable: c.start_timing != DMAOccasion::Immediate && c.repeat, ..c },
                    sad_latch: src_at(s0, c.src_addr_ctrl, step, n),
                    dad_latch: if c.dest_addr_ctrl == 3 {
                        d0
                    } else {
                        dest_at(d0, c.dest_addr_ctrl, step, n)
                    },
                    ..*old(self)
                })
            }),
    {
        let (count, s0, d0) = self.begin_transfer();
        let src_ctrl = self.cnt.src_addr_ctrl;
        let dest_ctrl = self.cnt.dest_addr_ctrl;
        let transfer_32 = self.cnt.transfer_32;
        let ghost step = unit_step(transfer_32);
        let mut units: Vec<(u32, u32)> = Vec::new();
        let mut src = s0;
        let mut dest = d0;
        let mut k: u32 = 0;
        while k < count
            invariant
                k <= count,
                count > 0 ==> src_ctrl < 3,
                dest_ctrl < 4,
                step == unit_step(transfer_32),
                units@.len() == k,
                src == src_at(s0, src_ctrl, step, k as nat),
                dest == dest_at(d0, dest_ctrl, step, k as nat),
                forall|i: int|
                    0 <= i < k ==> #[trigger] units@[i] == (
                        src_at(s0, src_ctrl, step, i as nat),
                        dest_at(d0, dest_ctrl, step, i as nat),
                    ),
            decreases count - k,
        {
            units.push((src, dest));
            let (ns, nd) = step_addresses(src, dest, src_ctrl, dest_ctrl, transfer_32);
            src = ns;
            dest = nd;
            k = k + 1;
        }
        self.end_transfer(src, dest, d0);
        Transfer { units, transfer_32, irq: self.cnt.irq }
    }
}

/// The kind of bus access unit `i` of a transfer makes: non-sequential
/// for the first unit, sequential after it.
pub fn unit_access(i: usize) -> (r: AccessType)
    ensures
        r == (if i == 0 { AccessType::N } else { AccessType::S }),
{
    if i == 0 {
        AccessType::N
    } else {
        AccessType::S
    }
}

/// The bus cycles of the first `n` units, each a read and a write.
pub open spec fn units_time(t: Seq<(usize, usize)>, n: nat) -> int
    decreases n,
{
    if n == 0 {
        0
    } else {
        units_time(t, (n - 1) as nat) + t[n - 1].0 + t[n - 1].1
    }
}

/// The cycles a transfer takes: the bus's read and write times of each
/// unit, then two internal cycles.
pub fn transfer_cycles(unit_times: &Vec<(usize, usize)>) -> (r: usize)
    requires
        units_time(unit_times@, unit_times@.len()) + 2 <= usize::MAX,
    ensures
        r == units_time(unit_times@, unit_times@.len()) + 2,
{
    let mut total: usize = 0;
    let mut i: usize = 0;
    while i < unit_times.len()
        invariant
            i <= unit_times@.len(),
            total == units_time(unit_times@, i as nat),
            units_time(unit_times@, unit_times@.len()) + 2 <= usize::MAX,
        decreases unit_times@.len() - i,
    {
        proof {
            lemma_units_time_grows(unit_times@, (i + 1) as nat, unit_times@.len());
        }
        total = total + unit_times[i].0 + unit_times[i].1;
        i = i + 1;
    }
    total + 2
}

/// The time of more units is no less.
proof fn lemma_units_time_grows(t: Seq<(usize, usize)>, m: nat, n: nat)
    requires
        m <= n,
    ensures
        units_time(t, m) <= units_time(t, n),
    decreases n,
{
    if m < n {
        lemma_units_time_grows(t, m, (n - 1) as nat);
    }
}

/// The interrupt a finished transfer on channel `num` requests.
pub fn dma_interrupt(num: usize) -> (r: u32)
    requires
        num < 4,
    ensures
        r == (if num == 0 {
            DMA0
        } else if num == 1 {
            DMA1
        } else if num == 2 {
            DMA2
        } else {
            DMA3
        }),
{
    if num == 0 {
        DMA0
    } else if num == 1 {
        DMA1
    } else if num == 2 {
        DMA2
    } else {
        DMA3
    }
}

/// A CPU's four channels, and for each start timing the channels waiting
/// on it.
pub struct DMAController {
    pub channels: [DMAChannel; 4],
    pub by_type: Vec<Vec<usize>>,
}

/// The controller's invariant: channel `i` is channel `i` of this CPU and
/// well formed, there is one list per start timing, and every enabled
/// channel is listed under its start timing.
pub open spec fn controller_wf(c: DMAController) -> bool {
    &&& c.by_type@.len() == NUM_OCCASIONS
    &&& forall|i: int| 0 <= i < 4 ==> channel_wf(#[trigger] c.channels@[i]) && c.channels@[i].num == i
    &&& forall|i: int| 0 <= i < 4 ==> (#[trigger] c.channels@[i]).is_nds9 == c.channels@[0].is_nds9
    &&& forall|i: int|
        0 <= i < 4 && (#[trigger] c.channels@[i]).cnt.enable ==> c.by_type@[c.channels@[i].cnt.start_timing.code() as int]@.contains(
            i as usize,
        )
}

/// Whether `p` is the first position of `x` in `s`.
pub open spec fn is_first(s: Seq<usize>, x: usize, p: int) -> bool {
    0 <= p < s.len() && s[p] == x && forall|k: int| 0 <= k < p ==> s[k] != x
}

/// `s` with the first `x` in it replaced by the last entry, and the last
/// entry dropped.
pub open spec fn swap_removed_first(s: Seq<usize>, x: usize) -> Seq<usize> {
    let p = choose|p: int| is_first(s, x, p);
    s.update(p, s.last()).drop_last()
}

/// The first position of an entry is the one `choose` finds.
proof fn lemma_first_index(s: Seq<usize>, x: usize, p: int)
    requires
        is_first(s, x, p),
    ensures
        (choose|q: int| is_first(s, x, q)) == p,
{
    let q = choose|q: int| is_first(s, x, q);
    assert(is_first(s, x, q));
    if q < p {
        assert(s[q] != x);
    } else if q > p {
        assert(s[p] != x);
    }
}

impl DMAController {
    /// Four cleared channels, each listed under the immediate timing.
    pub fn new(is_nds9: bool) -> (r: DMAController)
        ensures
            controller_wf(r),
            forall|i: int|
                0 <= i < 4 ==> (#[trigger] r.channels@[i]).is_nds9 == is_nds9 && !r.channels@[i].cnt.enable
                    && r.channels@[i].cnt.start_timing == DMAOccasion::Immediate && r.channels@[i].sad.addr
                    == 0 && r.channels@[i].dad.addr == 0 && r.channels@[i].count_latch == 0,
            r.by_type@[0]@ == seq![0usize, 1, 2, 3],
            forall|t: int| 1 <= t < NUM_OCCASIONS ==> #[trigger] r.by_type@[t]@.len() == 0,
    {
        let channels = [
            DMAChannel::new(is_nds9, 0),
            DMAChannel::new(is_nds9, 1),
            DMAChannel::new(is_nds9, 2),
            DMAChannel::new(is_nds9, 3),
        ];
        let mut by_type: Vec<Vec<usize>> = Vec::new();
        let mut t: usize = 0;
        while t < NUM_OCCASIONS
            invariant
                t <= NUM_OCCASIONS,
                by_type@.len() == t,
                forall|k: int| 0 <= k < t ==> #[trigger] by_type@[k]@.len() == 0,
            decreases NUM_OCCASIONS - t,
        {
            by_type.push(Vec::new());
            t = t + 1;
        }
        let mut immediate: Vec<usize> = Vec::new();
        let mut i: usize = 0;
        while i < 4
            invariant
                i <= 4,
                immediate@ == Seq::new(i as nat, |k: int| k as usize),
            decreases 4 - i,
        {
            immediate.push(i);
            i = i + 1;
        }
        assert(immediate@ =~= seq![0usize, 1, 2, 3]);
        by_type.set(channels[0].cnt.start_timing.index(), immediate);
        DMAController { channels, by_type }
    }

    /// Byte `addr & 0xFF` of channel `channel`'s registers.
    pub fn read(&self, channel: usize, addr: u32) -> (r: u8)
        requires
            channel < 4,
            addr & 0xFF < 12,
        ensures
            r == channel_byte(self.channels@[channel as int], (addr & 0xFF) as usize),
    {
        self.channels[channel].read((addr & 0xFF) as usize)
    }

    /// Writes byte `addr & 0xFF` of channel `channel`'s registers, moves the
    /// channel between the lists when its enable flag or start timing
    /// changes, and latches it when it becomes enabled. Returns whether it
    /// became enabled, and its start timing: immediate transfers and those
    /// waiting on the geometry FIFO are then to be started at once.
    pub fn write(&mut self, channel: usize, addr: u32, value: u8) -> (r: (bool, DMAOccasion))
        requires
            channel < 4,
            addr & 0xFF < 12,
            controller_wf(*old(self)),
        ensures
            controller_wf(*final(self)),
            r.0 == (!old(self).channels@[channel as int].cnt.enable && final(self).channels@[channel as int].cnt.enable),
            r.1 == final(self).channels@[channel as int].cnt.start_timing,
            forall|i: int| 0 <= i < 4 && i != channel ==> #[trigger] final(self).channels@[i] == old(self).channels@[i],
            ({
                let written = channel_written(old(self).channels@[channel as int], (addr & 0xFF) as usize, value);
                final(self).channels@[channel as int] == if r.0 {
                    latched(written)
                } else {
                    written
                }
            }),
    {
        let prev_start_timing = self.channels[channel].cnt.start_timing;
        let prev_enable = self.channels[channel].cnt.enable;
        let mut ch = self.channels[channel];
        ch.write((addr & 0xFF) as usize, value);
        let new_start_timing = ch.cnt.start_timing;
        let new_enable = ch.cnt.enable;
        let ghost lists0 = self.by_type@;
        if prev_enable != new_enable || prev_start_timing != new_start_timing {
            if prev_enable {
                self.remove_listed(prev_start_timing.index(), channel);
            }
            let ghost lists1 = self.by_type@;
            if new_enable {
                self.push_listed(new_start_timing.index(), channel);
            }
            assert forall|i: int, c: usize|
                0 <= i < NUM_OCCASIONS && c != channel && #[trigger] lists0[i]@.contains(c) implies #[trigger] self.by_type@[i]@.contains(c) by {
                assert(lists1[i]@.contains(c));
                if new_enable && i == new_start_timing.code() {
                    assert(self.by_type@[i]@ == lists1[i]@.push(channel));
                    let k = choose|k: int| 0 <= k < lists1[i]@.len() && lists1[i]@[k] == c;
                    assert(self.by_type@[i]@[k] == c);
                }
            }
            if new_enable {
                assert(self.by_type@[new_start_timing.code() as int]@.last() == channel);
            }
        }
        let started = !prev_enable && new_enable;
        if started {
            ch.latch();
        }
        self.channels[channel] = ch;
        assert forall|i: int|
            0 <= i < 4 && (#[trigger] self.channels@[i]).cnt.enable implies self.by_type@[self.channels@[i].cnt.start_timing.code() as int]@.contains(
            i as usize,
        ) by {
            if i != channel {
                assert(old(self).channels@[i] == self.channels@[i]);
                assert(lists0[self.channels@[i].cnt.start_timing.code() as int]@.contains(i as usize));
            } else if new_enable && (prev_enable != new_enable || prev_start_timing != new_start_timing) {
                let l = self.by_type@[new_start_timing.code() as int]@;
                assert(l[l.len() - 1] == channel);
            }
        }
        (started, new_start_timing)
    }

    /// Takes channel `channel` off the list of its start timing once its
    /// transfer ends without repeating: its first entry there gives way to
    /// the list's last entry.
    pub fn disable(&mut self, channel: usize)
        requires
            channel < 4,
            controller_wf(*old(self)),
            old(self).channels@[channel as int].cnt.enable,
        ensures
            final(self).channels == old(self).channels,
            final(self).by_type@.len() == NUM_OCCASIONS,
            forall|k: int|
                0 <= k < NUM_OCCASIONS && k != old(self).channels@[channel as int].cnt.start_timing.code()
                    ==> #[trigger] final(self).by_type@[k] == old(self).by_type@[k],
            final(self).by_type@[old(self).channels@[channel as int].cnt.start_timing.code() as int]@
                == swap_removed_first(
                old(self).by_type@[old(self).channels@[channel as int].cnt.start_timing.code() as int]@,
                channel,
            ),
    {
        let t = self.channels[channel].cnt.start_timing.index();
        self.remove_listed(t, channel);
    }

    /// Removes one occurrence of `channel` from list `t`, which holds it.
    fn remove_listed(&mut self, t: usize, channel: usize)
        requires
            t < NUM_OCCASIONS,
            old(self).by_type@.len() == NUM_OCCASIONS,
            old(self).by_type@[t as int]@.contains(channel),
        ensures
            final(self).channels == old(self).channels,
            final(self).by_type@.len() == NUM_OCCASIONS,
            forall|k: int| 0 <= k < NUM_OCCASIONS && k != t ==> #[trigger] final(self).by_type@[k] == old(self).by_type@[k],
            forall|c: usize| c != channel && #[trigger] old(self).by_type@[t as int]@.contains(c) ==> final(self).by_type@[t as int]@.contains(c),
            final(self).by_type@[t as int]@ == swap_removed_first(old(self).by_type@[t as int]@, channel),
    {
        let mut list = self.by_type[t].clone();
        assert(list@ =~= old(self).by_type@[t as int]@);
        let mut pos: usize = 0;
        while pos < list.len() && list[pos] != channel
            invariant
                pos <= list@.len(),
                list@ == old(self).by_type@[t as int]@,
                list@.contains(channel),
                forall|k: int| 0 <= k < pos ==> list@[k] != channel,
            decreases list@.len() - pos,
        {
            pos = pos + 1;
        }
        let ghost before = list@;
        proof {
            lemma_first_index(before, channel, pos as int);
        }
        list.swap_remove(pos);
        assert forall|c: usize| c != channel && #[trigger] before.contains(c) implies list@.contains(c) by {
            let k = choose|k: int| 0 <= k < before.len() && before[k] == c;
            if k == before.len() - 1 {
                assert(list@[pos as int] == c);
            } else {
                assert(list@[k] == c);
            }
        }
        self.by_type.set(t, list);
    }

    /// Appends `channel` to list `t`.
    fn push_listed(&mut self, t: usize, channel: usize)
        requires
            t < NUM_OCCASIONS,
            old(self).by_type@.len() == NUM_OCCASIONS,
        ensures
            final(self).channels == old(self).channels,
            final(self).by_type@.len() == NUM_OCCASIONS,
            forall|k: int| 0 <= k < NUM_OCCASIONS && k != t ==> #[trigger] final(self).by_type@[k] == old(self).by_type@[k],
            final(self).by_type@[t as int]@ == old(self).by_type@[t as int]@.push(channel),
    {
        let mut list = self.by_type[t].clone();
        assert(list@ =~= old(self).by_type@[t as int]@);
        list.push(channel);
        self.by_type.set(t, list);
    }
}

} // verus!
