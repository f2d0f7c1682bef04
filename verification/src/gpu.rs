//! The graphics unit as a whole: the names shared by its parts, its power,
//! status and capture registers, and the line-by-line drawing of both
//! engines with the display capture.
use vstd::prelude::*;
use crate::bits::lemma_mask_bounds;
use crate::engine2d::engine::{Engine2D, WIDTH, HEIGHT, engine2d_wf};
use crate::engine2d::layers::{buffers_of, regs_same};
use crate::engine2d::line::{line_drawn, line_ok};
use crate::engine2d::registers::DisplayMode;
use crate::engine3d::engine::Engine3D;
use crate::mmu::{read_byte_u32, write_byte_u32};
use crate::spu::bit;
use crate::vram::{VRAM, vram_wf, bank_base};

verus! {

/// One of the two 2D engines.
#[derive(Clone, Copy, PartialEq, Eq, Structural, Debug)]
pub enum Engine {
    A,
    B,
}

impl Engine {
    /// The engine's letter.
    pub fn label(&self) -> (r: &'static str)
        ensures
            r@ == (match self {
                Engine::A => "A"@,
                Engine::B => "B"@,
            }),
    {
        match self {
            Engine::A => "A",
            Engine::B => "B",
        }
    }
}

/// Backgrounds or objects (sprites).
#[derive(Clone, Copy, PartialEq, Eq, Structural, Debug)]
pub enum GraphicsType {
    BG,
    OBJ,
}

impl GraphicsType {
    /// The kind's short name.
    pub fn label(&self) -> (r: &'static str)
        ensures
            r@ == (match self {
                GraphicsType::BG => "BG"@,
                GraphicsType::OBJ => "OBJ"@,
            }),
    {
        match self {
            GraphicsType::BG => "BG",
            GraphicsType::OBJ => "OBJ",
        }
    }
}

/// Which of the two 2D engines a type stands for.
pub trait EngineType {
    spec fn spec_is_a() -> bool;

    fn is_a() -> (r: bool)
        ensures
            r == Self::spec_is_a(),
    ;
}

/// The main 2D engine, which can show 3D output and capture.
pub struct EngineA {}

/// The sub 2D engine.
pub struct EngineB {}

impl EngineType for EngineA {
    open spec fn spec_is_a() -> bool {
        true
    }

    fn is_a() -> (r: bool) {
        true
    }
}

impl EngineType for EngineB {
    open spec fn spec_is_a() -> bool {
        false
    }

    fn is_a() -> (r: bool) {
        false
    }
}

/// The power control bits: LCDs, engine A, 3D rendering, 3D geometry,
/// engine B, and engine A on the top screen.
pub const ENABLE_LCDS: u32 = 1 << 0;
pub const ENABLE_ENGINE_A: u32 = 1 << 1;
pub const ENABLE_3D_RENDERING: u32 = 1 << 2;
pub const ENABLE_3D_GEOMETRY: u32 = 1 << 3;
pub const ENABLE_ENGINE_B: u32 = 1 << 9;
pub const TOP_A: u32 = 1 << 15;
pub const POWCNT1_ALL: u32 = 0x820F;

/// The graphics power control register.
#[derive(Clone, Copy, PartialEq, Eq, Structural, Debug)]
pub struct POWCNT1 {
    pub bits: u32,
}

/// Whether `value` can be written to byte `byte`: the LCDs stay powered.
pub open spec fn powcnt1_write_ok(p: POWCNT1, byte: usize, value: u8) -> bool {
    ((p.bits & !(0xFFu32 << (8 * byte) as u32)) | ((value as u32) << (8 * byte) as u32)) & POWCNT1_ALL
        & ENABLE_LCDS == ENABLE_LCDS
}

impl POWCNT1 {
    /// Only the LCDs powered.
    pub fn new() -> (r: POWCNT1)
        ensures
            r.bits == ENABLE_LCDS,
    {
        POWCNT1 { bits: ENABLE_LCDS }
    }

    /// Whether all bits of `flag` are set.
    pub fn contains(&self, flag: u32) -> (r: bool)
        ensures
            r == (self.bits & flag == flag),
    {
        self.bits & flag == flag
    }

    /// Byte `byte` of the register.
    pub fn read(&self, byte: usize) -> (r: u8)
        requires
            byte < 4,
        ensures
            r == ((self.bits >> (8 * byte) as u32) & 0xFF) as u8,
    {
        read_byte_u32(self.bits, byte)
    }

    /// Replaces byte `byte`; bits without a meaning stay clear.
    pub fn write(&mut self, byte: usize, value: u8)
        requires
            byte < 4,
            powcnt1_write_ok(*old(self), byte, value),
        ensures
            final(self).bits == ((old(self).bits & !(0xFFu32 << (8 * byte) as u32)) | ((value as u32) << (8
                * byte) as u32)) & POWCNT1_ALL,
    {
        self.bits = write_byte_u32(self.bits, byte, value) & POWCNT1_ALL;
    }
}

/// The display status bits: in vertical blank, in horizontal blank, at
/// the line compare, and their three interrupt enables.
pub const VBLANK: u16 = 1 << 0;
pub const HBLANK: u16 = 1 << 1;
pub const VCOUNTER: u16 = 1 << 2;
pub const VBLANK_IRQ_ENABLE: u16 = 1 << 3;
pub const HBLANK_IRQ_ENABLE: u16 = 1 << 4;
pub const VCOUNTER_IRQ_ENABLE: u16 = 1 << 5;
pub const DISPSTAT_ALL: u16 = 0x3F;

/// The display status register: its flags and the line to compare.
#[derive(Clone, Copy, PartialEq, Eq, Structural, Debug)]
pub struct DISPSTAT {
    pub flags: u16,
    pub vcount_setting: u16,
}

impl DISPSTAT {
    pub fn new() -> (r: DISPSTAT)
        ensures
            r.flags == 0 && r.vcount_setting == 0,
    {
        DISPSTAT { flags: 0, vcount_setting: 0 }
    }

    /// Byte 0 holds the flags and bit 8 of the compare line, byte 1 its
    /// low 8 bits.
    pub fn read(&self, byte: usize) -> (r: u8)
        requires
            byte < 2,
        ensures
            byte == 0 ==> r == ((self.vcount_setting >> 1u16) as u8 & 0x80) | (self.flags as u8),
            byte == 1 ==> r == self.vcount_setting as u8,
    {
        if byte == 0 {
            ((self.vcount_setting >> 1u16) as u8 & 0x80) | (self.flags as u8)
        } else {
            self.vcount_setting as u8
        }
    }

    /// Byte 0 sets the interrupt enables (the status bits are read-only)
    /// and bit 8 of the compare line; byte 1 its low 8 bits.
    pub fn write(&mut self, byte: usize, value: u8)
        requires
            byte < 2,
        ensures
            byte == 0 ==> final(self).flags == (old(self).flags & 0x7) | ((value as u16) & !0x7u16 & DISPSTAT_ALL)
                && final(self).vcount_setting == (old(self).vcount_setting & !0x100u16) | (((value as u16)
                & 0x80) << 8u16),
            byte == 1 ==> final(self).vcount_setting == (old(self).vcount_setting & !0xFFu16) | (value as u16)
                && final(self).flags == old(self).flags,
    {
        if byte == 0 {
            self.flags = (self.flags & 0x7) | ((value as u16) & !0x7u16 & DISPSTAT_ALL);
            self.vcount_setting = (self.vcount_setting & !0x100u16) | (((value as u16) & 0x80) << 8u16);
        } else {
            self.vcount_setting = (self.vcount_setting & !0xFFu16) | (value as u16);
        }
    }
}

/// Where in a VRAM bank a capture reads or writes.
#[derive(Clone, Copy, PartialEq, Eq, Structural, Debug)]
pub enum CaptureOffset {
    O00000,
    O08000,
    O10000,
    O18000,
}

impl CaptureOffset {
    pub open spec fn code(self) -> u8 {
        match self {
            CaptureOffset::O00000 => 0,
            CaptureOffset::O08000 => 1,
            CaptureOffset::O10000 => 2,
            CaptureOffset::O18000 => 3,
        }
    }

    /// The offset in bytes: 32K steps.
    pub open spec fn spec_offset(&self) -> usize {
        (self.code() * 0x8000) as usize
    }

    #[verifier::when_used_as_spec(spec_offset)]
    pub fn offset(&self) -> (r: usize)
        ensures
            r == self.spec_offset(),
    {
        match *self {
            CaptureOffset::O00000 => 0x00000,
            CaptureOffset::O08000 => 0x08000,
            CaptureOffset::O10000 => 0x10000,
            CaptureOffset::O18000 => 0x18000,
        }
    }

    /// The offset numbered `value`.
    pub fn from(value: u8) -> (r: CaptureOffset)
        requires
            value < 4,
        ensures
            r.code() == value,
    {
        match value {
            0 => CaptureOffset::O00000,
            1 => CaptureOffset::O08000,
            2 => CaptureOffset::O10000,
            _ => CaptureOffset::O18000,
        }
    }

    fn bits(&self) -> (r: u8)
        ensures
            r == self.code(),
    {
        match *self {
            CaptureOffset::O00000 => 0,
            CaptureOffset::O08000 => 1,
            CaptureOffset::O10000 => 2,
            CaptureOffset::O18000 => 3,
        }
    }
}

/// The size of a capture.
#[derive(Clone, Copy, PartialEq, Eq, Structural, Debug)]
pub enum CaptureSize {
    S128x128,
    S256x64,
    S256x128,
    S256x192,
}

impl CaptureSize {
    pub open spec fn code(self) -> u8 {
        match self {
            CaptureSize::S128x128 => 0,
            CaptureSize::S256x64 => 1,
            CaptureSize::S256x128 => 2,
            CaptureSize::S256x192 => 3,
        }
    }

    pub open spec fn spec_width(&self) -> usize {
        if *self == CaptureSize::S128x128 {
            128
        } else {
            256
        }
    }

    pub open spec fn spec_height(&self) -> usize {
        match *self {
            CaptureSize::S128x128 => 128,
            CaptureSize::S256x64 => 64,
            CaptureSize::S256x128 => 128,
            CaptureSize::S256x192 => 192,
        }
    }

    /// The width in dots.
    #[verifier::when_used_as_spec(spec_width)]
    pub fn width(&self) -> (r: usize)
        ensures
            r == self.spec_width(),
    {
        match *self {
            CaptureSize::S128x128 => 128,
            _ => 256,
        }
    }

    /// The height in lines.
    #[verifier::when_used_as_spec(spec_height)]
    pub fn height(&self) -> (r: usize)
        ensures
            r == self.spec_height(),
    {
        match *self {
            CaptureSize::S128x128 => 128,
            CaptureSize::S256x64 => 64,
            CaptureSize::S256x128 => 128,
            CaptureSize::S256x192 => 192,
        }
    }

    /// The size numbered `value`.
    pub fn from(value: u8) -> (r: CaptureSize)
        requires
            value < 4,
        ensures
            r.code() == value,
    {
        match value {
            0 => CaptureSize::S128x128,
            1 => CaptureSize::S256x64,
            2 => CaptureSize::S256x128,
            _ => CaptureSize::S256x192,
        }
    }

    fn bits(&self) -> (r: u8)
        ensures
            r == self.code(),
    {
        match *self {
            CaptureSize::S128x128 => 0,
            CaptureSize::S256x64 => 1,
            CaptureSize::S256x128 => 2,
            CaptureSize::S256x192 => 3,
        }
    }
}

/// What a capture stores: source A (the engine's or the 3D picture),
/// source B (VRAM), or both blended.
#[derive(Clone, Copy, PartialEq, Eq, Structural, Debug)]
pub enum CaptureSource {
    A,
    B,
    AB,
}

impl CaptureSource {
    pub open spec fn code(self) -> u8 {
        match self {
            CaptureSource::A => 0,
            CaptureSource::B => 1,
            CaptureSource::AB => 2,
        }
    }

    /// The source numbered `value`; 3 blends too.
    pub fn from(value: u8) -> (r: CaptureSource)
        requires
            value < 4,
        ensures
            r.code() == if value == 3 {
                2
            } else {
                value
            },
    {
        match value {
            0 => CaptureSource::A,
            1 => CaptureSource::B,
            _ => CaptureSource::AB,
        }
    }

    fn bits(&self) -> (r: u8)
        ensures
            r == self.code(),
    {
        match *self {
            CaptureSource::A => 0,
            CaptureSource::B => 1,
            CaptureSource::AB => 2,
        }
    }
}

/// The display capture control register.
#[derive(Clone, Copy, PartialEq, Eq, Structural, Debug)]
pub struct DISPCAPCNT {
    pub eva: u8,
    pub evb: u8,
    pub vram_write_block: usize,
    pub vram_write_offset: CaptureOffset,
    pub capture_size: CaptureSize,
    pub src_a_is_3d_only: bool,
    pub src_b_fifo: bool,
    pub vram_read_offset: CaptureOffset,
    pub capture_src: CaptureSource,
    pub enable: bool,
}

/// The capture register's invariant: 5-bit coefficients and a write
/// bank among A-D.
pub open spec fn dispcapcnt_wf(d: DISPCAPCNT) -> bool {
    d.eva < 32 && d.evb < 32 && d.vram_write_block < 4
}

impl DISPCAPCNT {
    pub fn new() -> (r: DISPCAPCNT)
        ensures
            r.eva == 0 && r.evb == 0 && r.vram_write_block == 0 && !r.enable,
            r.vram_write_offset == CaptureOffset::O00000 && r.vram_read_offset == CaptureOffset::O00000,
            r.capture_size == CaptureSize::S128x128 && r.capture_src == CaptureSource::A,
            !r.src_a_is_3d_only && !r.src_b_fifo,
    {
        DISPCAPCNT {
            eva: 0,
            evb: 0,
            vram_write_block: 0,
            vram_write_offset: CaptureOffset::O00000,
            capture_size: CaptureSize::S128x128,
            src_a_is_3d_only: false,
            src_b_fifo: false,
            vram_read_offset: CaptureOffset::O00000,
            capture_src: CaptureSource::A,
            enable: false,
        }
    }

    /// Byte `byte` of the register.
    pub fn read(&self, byte: usize) -> (r: u8)
        requires
            byte < 4,
            self.vram_write_block < 4,
        ensures
            byte == 0 ==> r == self.eva,
            byte == 1 ==> r == self.evb,
            byte == 2 ==> r == (self.capture_size.code() << 4u8) | (self.vram_write_offset.code() << 2u8)
                | self.vram_write_block as u8,
            byte == 3 ==> r == (bit(self.enable) << 7u8) | (self.capture_src.code() << 5u8) | (
            self.vram_read_offset.code() << 2u8) | (bit(self.src_b_fifo) << 1u8) | bit(self.src_a_is_3d_only),
    {
        if byte == 0 {
            self.eva
        } else if byte == 1 {
            self.evb
        } else if byte == 2 {
            (self.capture_size.bits() << 4u8) | (self.vram_write_offset.bits() << 2u8) | self.vram_write_block as u8
        } else {
            ((self.enable as u8) << 7u8) | (self.capture_src.bits() << 5u8) | (self.vram_read_offset.bits() << 2u8)
                | ((self.src_b_fifo as u8) << 1u8) | (self.src_a_is_3d_only as u8)
        }
    }

    /// Writes byte `byte`: the coefficients (0, 1), the write block,
    /// offset and size (2), or the sources, read offset and enable (3).
    pub fn write(&mut self, byte: usize, value: u8)
        requires
            byte < 4,
        ensures
            dispcapcnt_wf(*old(self)) ==> dispcapcnt_wf(*final(self)),
            byte == 0 ==> *final(self) == (DISPCAPCNT { eva: value & 0x1F, ..*old(self) }),
            byte == 1 ==> *final(self) == (DISPCAPCNT { evb: value & 0x1F, ..*old(self) }),
            byte == 2 ==> {
                &&& final(self).vram_write_block == (value & 0x3) as usize
                &&& final(self).vram_write_offset.code() == (value >> 2u8) & 0x3
                &&& final(self).capture_size.code() == (value >> 4u8) & 0x3
                &&& final(self).eva == old(self).eva && final(self).evb == old(self).evb
                &&& final(self).src_a_is_3d_only == old(self).src_a_is_3d_only
                &&& final(self).src_b_fifo == old(self).src_b_fifo
                &&& final(self).vram_read_offset == old(self).vram_read_offset
                &&& final(self).capture_src == old(self).capture_src
                &&& final(self).enable == old(self).enable
            },
            byte == 3 ==> {
                &&& final(self).src_a_is_3d_only == (value & 0x1 != 0)
                &&& final(self).src_b_fifo == ((value >> 1u8) & 0x1 != 0)
                &&& final(self).vram_read_offset.code() == (value >> 2u8) & 0x3
                &&& final(self).capture_src.code() == if (value >> 5u8) & 0x3 == 3 {
                    2
                } else {
                    (value >> 5u8) & 0x3
                }
                &&& final(self).enable == ((value >> 7u8) & 0x1 != 0)
                &&& final(self).eva == old(self).eva && final(self).evb == old(self).evb
                &&& final(self).vram_write_block == old(self).vram_write_block
                &&& final(self).vram_write_offset == old(self).vram_write_offset
                &&& final(self).capture_size == old(self).capture_size
            },
    {
        proof {
            lemma_mask_bounds();
        }
        if byte == 0 {
            self.eva = value & 0x1F;
        } else if byte == 1 {
            self.evb = value & 0x1F;
        } else if byte == 2 {
            self.vram_write_block = (value & 0x3) as usize;
            self.vram_write_offset = CaptureOffset::from((value >> 2u8) & 0x3);
            self.capture_size = CaptureSize::from((value >> 4u8) & 0x3);
        } else {
            self.src_a_is_3d_only = value & 0x1 != 0;
            self.src_b_fifo = (value >> 1u8) & 0x1 != 0;
            self.vram_read_offset = CaptureOffset::from((value >> 2u8) & 0x3);
            self.capture_src = CaptureSource::from((value >> 5u8) & 0x3);
            self.enable = (value >> 7u8) & 0x1 != 0;
        }
    }
}

/// A captured dot from `a` and `b`: each channel weighted by the
/// coefficients where the source's alpha bit is set, over 16, shifted in
/// above the previous channels; alpha where a weighted source had it.
pub open spec fn capture_blend(a: u16, b: u16, eva: u8, evb: u8) -> u16 {
    let a_alpha = (a >> 15u16) & 0x1;
    let b_alpha = (b >> 15u16) & 0x1;
    let ch = |i: int| ((((a >> (5 * i) as u16) & 0x1F) * a_alpha * (eva as u16) + ((b >> (5 * i) as u16) & 0x1F)
        * b_alpha * (evb as u16)) / 16) as u16;
    let intensity = ((((ch(2) << 5u16) | ch(1)) << 5u16) | ch(0)) as u16;
    let alpha = (a_alpha != 0 && eva > 0) || (b_alpha != 0 && evb > 0);
    (bit(alpha) as u16) << 15u16 | intensity
}

fn capture_blend_exec(a: u16, b: u16, eva: u8, evb: u8) -> (r: u16)
    requires
        eva < 32,
        evb < 32,
    ensures
        r == capture_blend(a, b, eva, evb),
{
    proof {
        lemma_mask_bounds();
    }
    let a_alpha = (a >> 15u16) & 0x1;
    let b_alpha = (b >> 15u16) & 0x1;
    let mut ch: [u16; 3] = [0; 3];
    let mut i: u16 = 0;
    while i < 3
        invariant
            i <= 3,
            eva < 32,
            evb < 32,
            a_alpha == (a >> 15u16) & 0x1,
            b_alpha == (b >> 15u16) & 0x1,
            a_alpha <= 1,
            b_alpha <= 1,
            forall|j: int|
                0 <= j < i ==> ch@[j] == ((((a >> (5 * j) as u16) & 0x1F) * a_alpha * (eva as u16) + ((b >> (5
                    * j) as u16) & 0x1F) * b_alpha * (evb as u16)) / 16) as u16,
        decreases 3 - i,
    {
        proof {
            lemma_mask_bounds();
        }
        let va = (a >> (5 * i)) & 0x1F;
        let vb = (b >> (5 * i)) & 0x1F;
        assert(va * a_alpha * (eva as u16) + vb * b_alpha * (evb as u16) <= 2 * 31 * 31) by (nonlinear_arith)
            requires
                va <= 31,
                vb <= 31,
                a_alpha <= 1,
                b_alpha <= 1,
                eva < 32,
                evb < 32,
        ;
        assert(va * a_alpha <= 31 && vb * b_alpha <= 31) by (nonlinear_arith)
            requires
                va <= 31,
                vb <= 31,
                a_alpha <= 1,
                b_alpha <= 1,
        ;
        assert(va * a_alpha * (eva as u16) <= 31 * 31 && vb * b_alpha * (evb as u16) <= 31 * 31) by (nonlinear_arith)
            requires
                va * a_alpha <= 31,
                vb * b_alpha <= 31,
                eva < 32,
                evb < 32,
        ;
        ch[i as usize] = (va * a_alpha * (eva as u16) + vb * b_alpha * (evb as u16)) / 16;
        i = i + 1;
    }
    let intensity = (((ch[2] << 5u16) | ch[1]) << 5u16) | ch[0];
    let alpha = (a_alpha != 0 && eva > 0) || (b_alpha != 0 && evb > 0);
    ((alpha as u16) << 15u16) | intensity
}

/// The graphics unit: the status registers of both processors, the
/// current line, both 2D engines, the 3D engine, VRAM, the capture unit
/// and the power control.
pub struct GPU {
    pub dispstats: [DISPSTAT; 2],
    pub vcount: u16,
    pub rendered_frame: bool,
    pub engine_a: Engine2D<EngineA>,
    pub engine_b: Engine2D<EngineB>,
    pub engine3d: Engine3D,
    pub vram: VRAM,
    pub dispcapcnt: DISPCAPCNT,
    pub capturing: bool,
    pub powcnt1: POWCNT1,
}

/// The number of lines of a frame, blanking included.
pub const NUM_LINES: u16 = 263;

/// The unit's invariant.
pub open spec fn gpu_wf(g: GPU) -> bool {
    &&& engine2d_wf(g.engine_a)
    &&& engine2d_wf(g.engine_b)
    &&& vram_wf(g.vram)
    &&& g.engine3d.pixels@.len() == WIDTH * HEIGHT
    &&& g.vcount < NUM_LINES
    &&& dispcapcnt_wf(g.dispcapcnt)
}

/// Whether a capture on line `vcount` stays in range: the FIFO source is
/// not handled, and the read and write windows lie inside their banks.
pub open spec fn capture_ok(g: GPU) -> bool {
    let start = g.vcount * WIDTH;
    let width = g.dispcapcnt.capture_size.spec_width() as int;
    let read = 2 * start + if g.engine_a.dispcnt.display_mode == DisplayMode::Mode2 {
        0
    } else {
        g.dispcapcnt.vram_read_offset.spec_offset() as int
    };
    &&& !g.dispcapcnt.src_b_fifo
    &&& g.vcount < HEIGHT
    &&& read + 2 * width <= 0x2_0000
    &&& 2 * start + g.dispcapcnt.vram_write_offset.spec_offset() + 2 * width <= 0x2_0000
}

/// Dot `i` of the line captured as source A.
pub open spec fn capture_src_a(g: GPU, i: int) -> u16 {
    let start = g.vcount * WIDTH;
    if g.dispcapcnt.src_a_is_3d_only || g.engine_a.dispcnt.display_mode != DisplayMode::Mode0 {
        g.engine3d.pixels@[start + i]
    } else {
        g.engine_a.pixels@[start + i]
    }
}

/// Dot `i` of the line captured as source B, from the display bank.
pub open spec fn capture_src_b(g: GPU, i: int) -> u16 {
    let start = g.vcount * WIDTH;
    let block = g.engine_a.dispcnt.vram_block as int;
    let read = 2 * start + if g.engine_a.dispcnt.display_mode == DisplayMode::Mode2 {
        0
    } else {
        g.dispcapcnt.vram_read_offset.spec_offset() as int
    };
    let at = bank_base(block) + read + 2 * i;
    (g.vram.mem@[at] as u16) | ((g.vram.mem@[at + 1] as u16) << 8u16)
}

/// The captured dot `i`.
pub open spec fn captured(g: GPU, i: int) -> u16 {
    match g.dispcapcnt.capture_src {
        CaptureSource::A => capture_src_a(g, i),
        CaptureSource::B => capture_src_b(g, i),
        CaptureSource::AB => capture_blend(capture_src_a(g, i), capture_src_b(g, i), g.dispcapcnt.eva, g.dispcapcnt.evb),
    }
}

/// VRAM after capturing the line: the captured dots, little-endian, at
/// the write offset of the write bank.
pub open spec fn capture_written(g: GPU, mem: Seq<u8>) -> bool {
    let start = g.vcount * WIDTH;
    let width = g.dispcapcnt.capture_size.spec_width() as int;
    let base = bank_base(g.dispcapcnt.vram_write_block as int) + 2 * start
        + g.dispcapcnt.vram_write_offset.spec_offset();
    &&& mem.len() == g.vram.mem@.len()
    &&& forall|j: int|
        0 <= j < mem.len() ==> #[trigger] mem[j] == if base <= j < base + 2 * width {
            let i = (j - base) / 2;
            if (j - base) % 2 == 0 {
                captured(g, i) as u8
            } else {
                (captured(g, i) >> 8u16) as u8
            }
        } else {
            g.vram.mem@[j]
        }
}

/// Stores `v` little-endian at `at`.
fn write_u16_le(mem: &mut Vec<u8>, at: usize, v: u16)
    requires
        at + 1 < old(mem)@.len(),
    ensures
        final(mem)@ == old(mem)@.update(at as int, v as u8).update(at + 1, (v >> 8u16) as u8),
{
    let len = mem.len();
    let next = at + 1;
    mem.set(at, v as u8);
    mem.set(next, (v >> 8u16) as u8);
}

impl GPU {
    /// Captures line `vcount` into the capture bank: source B is read in
    /// full before anything is written.
    #[verifier::spinoff_prover]
    #[verifier::rlimit(60)]
    pub fn capture(&mut self)
        requires
            gpu_wf(*old(self)),
            capture_ok(*old(self)),
        ensures
            gpu_wf(*final(self)),
            capture_written(*old(self), final(self).vram.mem@),
            final(self).vram.cnts == old(self).vram.cnts,
            final(self).vram.lcdc_enabled == old(self).vram.lcdc_enabled,
            final(self).vram.slots@ == old(self).vram.slots@,
            final(self).engine_a == old(self).engine_a,
            final(self).engine_b == old(self).engine_b,
            final(self).engine3d == old(self).engine3d,
            final(self).dispcapcnt == old(self).dispcapcnt,
            final(self).vcount == old(self).vcount,
            final(self).powcnt1 == old(self).powcnt1,
            final(self).capturing == old(self).capturing,
            final(self).dispstats == old(self).dispstats,
            final(self).rendered_frame == old(self).rendered_frame,
    {
        let ghost g = *self;
        let start_addr = self.vcount as usize * WIDTH;
        let width = self.dispcapcnt.capture_size.width();
        let use_3d = self.dispcapcnt.src_a_is_3d_only || match self.engine_a.dispcnt.display_mode {
            DisplayMode::Mode0 => false,
            _ => true,
        };
        let read = 2 * start_addr + match self.engine_a.dispcnt.display_mode {
            DisplayMode::Mode2 => 0,
            _ => self.dispcapcnt.vram_read_offset.offset(),
        };
        let read_base = crate::vram::bank_base_exec(self.engine_a.dispcnt.vram_block as usize) + read;
        let mut src_b: Vec<u16> = Vec::new();
        let mut i: usize = 0;
        while i < width
            invariant
                *self == g,
                gpu_wf(g),
                capture_ok(g),
                i <= width,
                width == g.dispcapcnt.capture_size.spec_width(),
                start_addr == g.vcount * WIDTH,
                read_base == bank_base(g.engine_a.dispcnt.vram_block as int) + 2 * start_addr + (if g.engine_a.dispcnt.display_mode == DisplayMode::Mode2 {
                    0
                } else {
                    g.dispcapcnt.vram_read_offset.spec_offset() as int
                }),
                src_b@.len() == i,
                forall|k: int| 0 <= k < i ==> #[trigger] src_b@[k] == capture_src_b(g, k),
            decreases width - i,
        {
            let b = (self.vram.mem[read_base + 2 * i] as u16) | ((self.vram.mem[read_base + 2 * i + 1] as u16) << 8u16);
            src_b.push(b);
            i = i + 1;
        }
        let write_base = crate::vram::bank_base_exec(self.dispcapcnt.vram_write_block) + 2 * start_addr
            + self.dispcapcnt.vram_write_offset.offset();
        let capture_src = self.dispcapcnt.capture_src;
        let eva = self.dispcapcnt.eva;
        let evb = self.dispcapcnt.evb;
        let mut mem: Vec<u8> = Vec::new();
        std::mem::swap(&mut mem, &mut self.vram.mem);
        let mut i: usize = 0;
        while i < width
            invariant
                gpu_wf(g),
                capture_ok(g),
                i <= width,
                width == g.dispcapcnt.capture_size.spec_width(),
                start_addr == g.vcount * WIDTH,
                use_3d == (g.dispcapcnt.src_a_is_3d_only || g.engine_a.dispcnt.display_mode != DisplayMode::Mode0),
                capture_src == g.dispcapcnt.capture_src,
                eva == g.dispcapcnt.eva,
                evb == g.dispcapcnt.evb,
                write_base == bank_base(g.dispcapcnt.vram_write_block as int) + 2 * start_addr
                    + g.dispcapcnt.vram_write_offset.spec_offset(),
                src_b@.len() == width,
                forall|k: int| 0 <= k < width ==> #[trigger] src_b@[k] == capture_src_b(g, k),
                self.engine_a == g.engine_a,
                self.engine_b == g.engine_b,
                self.engine3d == g.engine3d,
                self.vram.cnts == g.vram.cnts,
                self.vram.lcdc_enabled == g.vram.lcdc_enabled,
                self.vram.slots@ == g.vram.slots@,
                self.dispcapcnt == g.dispcapcnt,
                self.vcount == g.vcount,
                self.powcnt1 == g.powcnt1,
                self.capturing == g.capturing,
                self.dispstats == g.dispstats,
                self.rendered_frame == g.rendered_frame,
                mem@.len() == g.vram.mem@.len(),
                forall|j: int|
                    0 <= j < mem@.len() ==> #[trigger] mem@[j] == if write_base <= j < write_base + 2 * i {
                        let k = (j - write_base) / 2;
                        if (j - write_base) % 2 == 0 {
                            captured(g, k) as u8
                        } else {
                            (captured(g, k) >> 8u16) as u8
                        }
                    } else {
                        g.vram.mem@[j]
                    },
            decreases width - i,
        {
            let a = if use_3d {
                self.engine3d.pixels[start_addr + i]
            } else {
                self.engine_a.pixels[start_addr + i]
            };
            let b = src_b[i];
            let pixel = match capture_src {
                CaptureSource::A => a,
                CaptureSource::B => b,
                CaptureSource::AB => capture_blend_exec(a, b, eva, evb),
            };
            assert(pixel == captured(g, i as int));
            write_u16_le(&mut mem, write_base + 2 * i, pixel);
            i = i + 1;
        }
        self.vram.mem = mem;
    }
}

/// Whether line `vcount` of the unit can be drawn: each powered engine's
/// line, and the capture when one is running on this line.
pub open spec fn gpu_line_ok(g: GPU) -> bool {
    &&& g.vcount < HEIGHT
    &&& g.powcnt1.bits & ENABLE_ENGINE_A == ENABLE_ENGINE_A ==> {
        &&& line_ok(g.engine_a, g.vram, g.vcount)
        &&& g.capturing && g.vcount < g.dispcapcnt.capture_size.spec_height() ==> capture_ok(g)
    }
    &&& g.powcnt1.bits & ENABLE_ENGINE_B == ENABLE_ENGINE_B ==> if capture_runs(g) {
        forall|ea: Engine2D<EngineA>, v: VRAM|
            #![trigger capture_written(GPU { engine_a: ea, ..g }, v.mem@), line_ok(g.engine_b, v, g.vcount)]
            regs_same(g.engine_a, ea) && buffers_of(ea) == line_drawn(
                g.engine_a,
                g.vram,
                buffers_of(g.engine_a),
                g.vcount,
            ) && v.cnts == g.vram.cnts && v.lcdc_enabled == g.vram.lcdc_enabled && v.slots@ == g.vram.slots@
                && capture_written(GPU { engine_a: ea, ..g }, v.mem@) ==> line_ok(g.engine_b, v, g.vcount)
    } else {
        line_ok(g.engine_b, g.vram, g.vcount)
    }
}

/// Whether drawing the current line also captures it.
pub open spec fn capture_runs(g: GPU) -> bool {
    g.powcnt1.bits & ENABLE_ENGINE_A == ENABLE_ENGINE_A && g.capturing && g.vcount
        < g.dispcapcnt.capture_size.spec_height()
}

impl GPU {
    /// The unit at reset: line 0, both engines and VRAM cleared, only the
    /// LCDs powered.
    pub fn new() -> (r: GPU)
        ensures
            gpu_wf(r),
            r.vcount == 0,
            !r.rendered_frame && !r.capturing,
            r.powcnt1.bits == ENABLE_LCDS,
    {
        GPU {
            dispstats: [DISPSTAT::new(), DISPSTAT::new()],
            vcount: 0,
            rendered_frame: false,
            engine_a: Engine2D::new(),
            engine_b: Engine2D::new(),
            engine3d: Engine3D::new(),
            vram: VRAM::new(),
            dispcapcnt: DISPCAPCNT::new(),
            capturing: false,
            powcnt1: POWCNT1::new(),
        }
    }

    /// Starts the next line: horizontal blank ends; after the last line
    /// the affine reference points are reloaded and the count wraps to 0.
    pub fn start_next_line(&mut self)
        requires
            gpu_wf(*old(self)),
        ensures
            gpu_wf(*final(self)),
            final(self).vcount == (old(self).vcount + 1) % (NUM_LINES as int),
            forall|i: int| 0 <= i < 2 ==> #[trigger] final(self).dispstats@[i] == (DISPSTAT {
                flags: old(self).dispstats@[i].flags & !HBLANK,
                ..old(self).dispstats@[i]
            }),
            old(self).vcount == NUM_LINES - 1 ==> final(self).engine_a.bgxs_latch == old(self).engine_a.bgxs
                && final(self).engine_a.bgys_latch == old(self).engine_a.bgys
                && final(self).engine_b.bgxs_latch == old(self).engine_b.bgxs
                && final(self).engine_b.bgys_latch == old(self).engine_b.bgys,
            old(self).vcount != NUM_LINES - 1 ==> final(self).engine_a == old(self).engine_a
                && final(self).engine_b == old(self).engine_b,
    {
        let mut d0 = self.dispstats[0];
        d0.flags = d0.flags & !HBLANK;
        self.dispstats[0] = d0;
        let mut d1 = self.dispstats[1];
        d1.flags = d1.flags & !HBLANK;
        self.dispstats[1] = d1;
        if self.vcount == NUM_LINES - 1 {
            self.engine_a.latch_affine();
            self.engine_b.latch_affine();
        }
        self.vcount = self.vcount + 1;
        if self.vcount == NUM_LINES {
            self.vcount = 0;
        }
    }

    /// Draws the current line on each powered engine, capturing engine A's
    /// line while a capture runs.
    pub fn render_line(&mut self)
        requires
            gpu_wf(*old(self)),
            gpu_line_ok(*old(self)),
        ensures
            gpu_wf(*final(self)),
            old(self).powcnt1.bits & ENABLE_ENGINE_A == ENABLE_ENGINE_A ==> regs_same(old(self).engine_a, final(self).engine_a)
                && buffers_of(final(self).engine_a) == line_drawn(
                old(self).engine_a,
                old(self).vram,
                buffers_of(old(self).engine_a),
                old(self).vcount,
            ),
            old(self).powcnt1.bits & ENABLE_ENGINE_A != ENABLE_ENGINE_A ==> final(self).engine_a == old(self).engine_a,
            old(self).powcnt1.bits & ENABLE_ENGINE_B == ENABLE_ENGINE_B ==> regs_same(old(self).engine_b, final(self).engine_b)
                && buffers_of(final(self).engine_b) == line_drawn(
                old(self).engine_b,
                final(self).vram,
                buffers_of(old(self).engine_b),
                old(self).vcount,
            ),
            old(self).powcnt1.bits & ENABLE_ENGINE_B != ENABLE_ENGINE_B ==> final(self).engine_b == old(self).engine_b,
            if capture_runs(*old(self)) {
                capture_written(GPU { vram: old(self).vram, engine_b: old(self).engine_b, ..*final(self) }, final(self).vram.mem@)
            } else {
                final(self).vram.mem@ == old(self).vram.mem@
            },
            final(self).vram.cnts == old(self).vram.cnts,
            final(self).vram.lcdc_enabled == old(self).vram.lcdc_enabled,
            final(self).vram.slots@ == old(self).vram.slots@,
            final(self).vcount == old(self).vcount,
            final(self).dispcapcnt == old(self).dispcapcnt,
            final(self).capturing == old(self).capturing,
            final(self).powcnt1 == old(self).powcnt1,
            final(self).dispstats == old(self).dispstats,
            final(self).engine3d == old(self).engine3d,
    {
        let ghost g = *self;
        let vcount = self.vcount;
        if self.powcnt1.contains(ENABLE_ENGINE_A) {
            self.engine_a.render_line(&self.vram, vcount);
            if self.capturing && (vcount as usize) < self.dispcapcnt.capture_size.height() {
                assert(capture_ok(*self));
                self.capture();
            }
        }
        let ghost mid = *self;
        if self.powcnt1.contains(ENABLE_ENGINE_B) {
            proof {
                if capture_runs(g) {
                    assert(capture_written(GPU { engine_a: self.engine_a, ..g }, self.vram.mem@));
                }
            }
            assert(line_ok(self.engine_b, self.vram, vcount));
            self.engine_b.render_line(&self.vram, vcount);
        }
        assert(GPU { vram: g.vram, engine_b: g.engine_b, ..*self } == GPU { vram: g.vram, ..mid });
    }

    /// Whether a frame was finished since the last call.
    pub fn rendered_frame(&mut self) -> (r: bool)
        ensures
            r == old(self).rendered_frame,
            *final(self) == (GPU { rendered_frame: false, ..*old(self) }),
    {
        let r = self.rendered_frame;
        self.rendered_frame = false;
        r
    }

    /// Whether the 3D engine holds up the bus.
    pub fn bus_stalled(&self) -> (r: bool)
        ensures
            r == self.engine3d.bus_stalled,
    {
        self.engine3d.bus_stalled
    }

    /// The top and bottom screens' pictures: engine A on top when the
    /// power control says so.
    pub fn get_screens(&self) -> (r: (&Vec<u16>, &Vec<u16>))
        ensures
            self.powcnt1.bits & TOP_A == TOP_A ==> r.0@ == self.engine_a.pixels@ && r.1@ == self.engine_b.pixels@,
            self.powcnt1.bits & TOP_A != TOP_A ==> r.0@ == self.engine_b.pixels@ && r.1@ == self.engine_a.pixels@,
    {
        if self.powcnt1.contains(TOP_A) {
            (self.engine_a.pixels(), self.engine_b.pixels())
        } else {
            (self.engine_b.pixels(), self.engine_a.pixels())
        }
    }
}

} // verus!
