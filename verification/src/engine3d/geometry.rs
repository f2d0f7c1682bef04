//! Geometry commands, lights, materials, colours and vertices.
use vstd::prelude::*;
use super::fixed::{FixedPoint, Vec4};
use super::registers::{PolygonAttributes, TextureParams};
use crate::bits::lemma_mask_bounds;
use vstd::bits::lemma_u8_shr_is_div;
use vstd::arithmetic::power2::lemma2_to64;

verus! {

/// The geometry commands the engine knows.
#[derive(Clone, Copy, PartialEq, Eq, Structural, Debug)]
pub enum GeometryCommand {
    NOP,
    MtxMode,
    MtxPush,
    MtxPop,
    MtxStore,
    MtxRestore,
    MtxIdentity,
    MtxLoad4x4,
    MtxLoad4x3,
    MtxMult4x4,
    MtxMult4x3,
    MtxMult3x3,
    MtxScale,
    MtxTrans,
    Color,
    Normal,
    TexCoord,
    Vtx16,
    Vtx10,
    VtxXY,
    VtxXZ,
    VtxYZ,
    VtxDiff,
    PolygonAttr,
    TexImageParam,
    PlttBase,
    DifAmb,
    SpeEmi,
    LightVector,
    LightColor,
    Shininess,
    BeginVtxs,
    EndVtxs,
    SwapBuffers,
    Viewport,
    Unimplemented,
}

/// The command with byte code `value` in a packed command word.
pub open spec fn command_of_byte(value: u8) -> GeometryCommand {
    if value == 0x00 {
        GeometryCommand::NOP
    } else if value == 0x10 {
        GeometryCommand::MtxMode
    } else if value == 0x11 {
        GeometryCommand::MtxPush
    } else if value == 0x12 {
        GeometryCommand::MtxPop
    } else if value == 0x13 {
        GeometryCommand::MtxStore
    } else if value == 0x14 {
        GeometryCommand::MtxRestore
    } else if value == 0x15 {
        GeometryCommand::MtxIdentity
    } else if value == 0x16 {
        GeometryCommand::MtxLoad4x4
    } else if value == 0x17 {
        GeometryCommand::MtxLoad4x3
    } else if value == 0x18 {
        GeometryCommand::MtxMult4x4
    } else if value == 0x19 {
        GeometryCommand::MtxMult4x3
    } else if value == 0x1A {
        GeometryCommand::MtxMult3x3
    } else if value == 0x1B {
        GeometryCommand::MtxScale
    } else if value == 0x1C {
        GeometryCommand::MtxTrans
    } else if value == 0x20 {
        GeometryCommand::Color
    } else if value == 0x21 {
        GeometryCommand::Normal
    } else if value == 0x22 {
        GeometryCommand::TexCoord
    } else if value == 0x23 {
        GeometryCommand::Vtx16
    } else if value == 0x24 {
        GeometryCommand::Vtx10
    } else if value == 0x25 {
        GeometryCommand::VtxXY
    } else if value == 0x26 {
        GeometryCommand::VtxXZ
    } else if value == 0x27 {
        GeometryCommand::VtxYZ
    } else if value == 0x28 {
        GeometryCommand::VtxDiff
    } else if value == 0x29 {
        GeometryCommand::PolygonAttr
    } else if value == 0x2A {
        GeometryCommand::TexImageParam
    } else if value == 0x2B {
        GeometryCommand::PlttBase
    } else if value == 0x30 {
        GeometryCommand::DifAmb
    } else if value == 0x31 {
        GeometryCommand::SpeEmi
    } else if value == 0x32 {
        GeometryCommand::LightVector
    } else if value == 0x33 {
        GeometryCommand::LightColor
    } else if value == 0x34 {
        GeometryCommand::Shininess
    } else if value == 0x40 {
        GeometryCommand::BeginVtxs
    } else if value == 0x41 {
        GeometryCommand::EndVtxs
    } else if value == 0x50 {
        GeometryCommand::SwapBuffers
    } else if value == 0x60 {
        GeometryCommand::Viewport
    } else {
        GeometryCommand::Unimplemented
    }
}

/// The command whose register (offset within the I/O page) is `addr`.
/// The registers sit at `0x400 + 4 * code`; `VTX_DIFF` has none here.
pub open spec fn command_of_addr(addr: u32) -> GeometryCommand {
    if 0x440 <= addr < 0x600 && addr % 4 == 0 && command_of_byte(((addr - 0x400) / 4) as u8) != GeometryCommand::VtxDiff {
        command_of_byte(((addr - 0x400) / 4) as u8)
    } else {
        GeometryCommand::Unimplemented
    }
}

/// How many parameter words a command takes.
pub open spec fn num_params_spec(c: GeometryCommand) -> nat {
    match c {
        GeometryCommand::NOP => 0,
        GeometryCommand::MtxMode => 1,
        GeometryCommand::MtxPush => 0,
        GeometryCommand::MtxPop => 1,
        GeometryCommand::MtxStore => 1,
        GeometryCommand::MtxRestore => 1,
        GeometryCommand::MtxIdentity => 0,
        GeometryCommand::MtxLoad4x4 => 16,
        GeometryCommand::MtxLoad4x3 => 12,
        GeometryCommand::MtxMult4x4 => 16,
        GeometryCommand::MtxMult4x3 => 12,
        GeometryCommand::MtxMult3x3 => 9,
        GeometryCommand::MtxScale => 3,
        GeometryCommand::MtxTrans => 3,
        GeometryCommand::Color => 1,
        GeometryCommand::Normal => 1,
        GeometryCommand::TexCoord => 1,
        GeometryCommand::Vtx16 => 2,
        GeometryCommand::Vtx10 => 1,
        GeometryCommand::VtxXY => 1,
        GeometryCommand::VtxXZ => 1,
        GeometryCommand::VtxYZ => 1,
        GeometryCommand::VtxDiff => 1,
        GeometryCommand::PolygonAttr => 1,
        GeometryCommand::TexImageParam => 1,
        GeometryCommand::PlttBase => 1,
        GeometryCommand::DifAmb => 1,
        GeometryCommand::SpeEmi => 1,
        GeometryCommand::LightVector => 1,
        GeometryCommand::LightColor => 1,
        GeometryCommand::Shininess => 32,
        GeometryCommand::BeginVtxs => 1,
        GeometryCommand::EndVtxs => 0,
        GeometryCommand::SwapBuffers => 1,
        GeometryCommand::Viewport => 1,
        GeometryCommand::Unimplemented => 0,
    }
}

impl GeometryCommand {
    /// The command written through register `addr`.
    pub fn from_addr(addr: u32) -> (r: GeometryCommand)
        ensures
            r == command_of_addr(addr),
    {
        if addr == 0x440 {
            GeometryCommand::MtxMode
        } else if addr == 0x444 {
            GeometryCommand::MtxPush
        } else if addr == 0x448 {
            GeometryCommand::MtxPop
        } else if addr == 0x44C {
            GeometryCommand::MtxStore
        } else if addr == 0x450 {
            GeometryCommand::MtxRestore
        } else if addr == 0x454 {
            GeometryCommand::MtxIdentity
        } else if addr == 0x458 {
            GeometryCommand::MtxLoad4x4
        } else if addr == 0x45C {
            GeometryCommand::MtxLoad4x3
        } else if addr == 0x460 {
            GeometryCommand::MtxMult4x4
        } else if addr == 0x464 {
            GeometryCommand::MtxMult4x3
        } else if addr == 0x468 {
            GeometryCommand::MtxMult3x3
        } else if addr == 0x46C {
            GeometryCommand::MtxScale
        } else if addr == 0x470 {
            GeometryCommand::MtxTrans
        } else if addr == 0x480 {
            GeometryCommand::Color
        } else if addr == 0x484 {
            GeometryCommand::Normal
        } else if addr == 0x488 {
            GeometryCommand::TexCoord
        } else if addr == 0x48C {
            GeometryCommand::Vtx16
        } else if addr == 0x490 {
            GeometryCommand::Vtx10
        } else if addr == 0x494 {
            GeometryCommand::VtxXY
        } else if addr == 0x498 {
            GeometryCommand::VtxXZ
        } else if addr == 0x49C {
            GeometryCommand::VtxYZ
        } else if addr == 0x4A4 {
            GeometryCommand::PolygonAttr
        } else if addr == 0x4A8 {
            GeometryCommand::TexImageParam
        } else if addr == 0x4AC {
            GeometryCommand::PlttBase
        } else if addr == 0x4C0 {
            GeometryCommand::DifAmb
        } else if addr == 0x4C4 {
            GeometryCommand::SpeEmi
        } else if addr == 0x4C8 {
            GeometryCommand::LightVector
        } else if addr == 0x4CC {
            GeometryCommand::LightColor
        } else if addr == 0x4D0 {
            GeometryCommand::Shininess
        } else if addr == 0x500 {
            GeometryCommand::BeginVtxs
        } else if addr == 0x504 {
            GeometryCommand::EndVtxs
        } else if addr == 0x540 {
            GeometryCommand::SwapBuffers
        } else if addr == 0x580 {
            GeometryCommand::Viewport
        } else {
            GeometryCommand::Unimplemented
        }
    }

    /// The command with byte code `value`.
    pub fn from_byte(value: u8) -> (r: GeometryCommand)
        ensures
            r == command_of_byte(value),
    {
        if value == 0x00 {
            GeometryCommand::NOP
        } else if value == 0x10 {
            GeometryCommand::MtxMode
        } else if value == 0x11 {
            GeometryCommand::MtxPush
        } else if value == 0x12 {
            GeometryCommand::MtxPop
        } else if value == 0x13 {
            GeometryCommand::MtxStore
        } else if value == 0x14 {
            GeometryCommand::MtxRestore
        } else if value == 0x15 {
            GeometryCommand::MtxIdentity
        } else if value == 0x16 {
            GeometryCommand::MtxLoad4x4
        } else if value == 0x17 {
            GeometryCommand::MtxLoad4x3
        } else if value == 0x18 {
            GeometryCommand::MtxMult4x4
        } else if value == 0x19 {
            GeometryCommand::MtxMult4x3
        } else if value == 0x1A {
            GeometryCommand::MtxMult3x3
        } else if value == 0x1B {
            GeometryCommand::MtxScale
        } else if value == 0x1C {
            GeometryCommand::MtxTrans
        } else if value == 0x20 {
            GeometryCommand::Color
        } else if value == 0x21 {
            GeometryCommand::Normal
        } else if value == 0x22 {
            GeometryCommand::TexCoord
        } else if value == 0x23 {
            GeometryCommand::Vtx16
        } else if value == 0x24 {
            GeometryCommand::Vtx10
        } else if value == 0x25 {
            GeometryCommand::VtxXY
        } else if value == 0x26 {
            GeometryCommand::VtxXZ
        } else if value == 0x27 {
            GeometryCommand::VtxYZ
        } else if value == 0x28 {
            GeometryCommand::VtxDiff
        } else if value == 0x29 {
            GeometryCommand::PolygonAttr
        } else if value == 0x2A {
            GeometryCommand::TexImageParam
        } else if value == 0x2B {
            GeometryCommand::PlttBase
        } else if value == 0x30 {
            GeometryCommand::DifAmb
        } else if value == 0x31 {
            GeometryCommand::SpeEmi
        } else if value == 0x32 {
            GeometryCommand::LightVector
        } else if value == 0x33 {
            GeometryCommand::LightColor
        } else if value == 0x34 {
            GeometryCommand::Shininess
        } else if value == 0x40 {
            GeometryCommand::BeginVtxs
        } else if value == 0x41 {
            GeometryCommand::EndVtxs
        } else if value == 0x50 {
            GeometryCommand::SwapBuffers
        } else if value == 0x60 {
            GeometryCommand::Viewport
        } else {
            GeometryCommand::Unimplemented
        }
    }

    /// How many parameter words the command takes.
    pub fn num_params(&self) -> (r: usize)
        ensures
            r == num_params_spec(*self),
    {
        match self {
            GeometryCommand::NOP => 0,
            GeometryCommand::MtxMode => 1,
            GeometryCommand::MtxPush => 0,
            GeometryCommand::MtxPop => 1,
            GeometryCommand::MtxStore => 1,
            GeometryCommand::MtxRestore => 1,
            GeometryCommand::MtxIdentity => 0,
            GeometryCommand::MtxLoad4x4 => 16,
            GeometryCommand::MtxLoad4x3 => 12,
            GeometryCommand::MtxMult4x4 => 16,
            GeometryCommand::MtxMult4x3 => 12,
            GeometryCommand::MtxMult3x3 => 9,
            GeometryCommand::MtxScale => 3,
            GeometryCommand::MtxTrans => 3,
            GeometryCommand::Color => 1,
            GeometryCommand::Normal => 1,
            GeometryCommand::TexCoord => 1,
            GeometryCommand::Vtx16 => 2,
            GeometryCommand::Vtx10 => 1,
            GeometryCommand::VtxXY => 1,
            GeometryCommand::VtxXZ => 1,
            GeometryCommand::VtxYZ => 1,
            GeometryCommand::VtxDiff => 1,
            GeometryCommand::PolygonAttr => 1,
            GeometryCommand::TexImageParam => 1,
            GeometryCommand::PlttBase => 1,
            GeometryCommand::DifAmb => 1,
            GeometryCommand::SpeEmi => 1,
            GeometryCommand::LightVector => 1,
            GeometryCommand::LightColor => 1,
            GeometryCommand::Shininess => 32,
            GeometryCommand::BeginVtxs => 1,
            GeometryCommand::EndVtxs => 0,
            GeometryCommand::SwapBuffers => 1,
            GeometryCommand::Viewport => 1,
            GeometryCommand::Unimplemented => 0,
        }
    }
}

/// A command and one of its parameter words, as queued in the FIFO.
#[derive(Clone, Copy, PartialEq, Eq, Structural, Debug)]
pub struct GeometryCommandEntry {
    pub command: GeometryCommand,
    pub param: u32,
}

impl GeometryCommandEntry {
    pub fn new(command: GeometryCommand, param: u32) -> (r: GeometryCommandEntry)
        ensures
            r.command == command,
            r.param == param,
    {
        GeometryCommandEntry { command, param }
    }
}

/// Which matrix the matrix commands act on.
#[derive(Clone, Copy, PartialEq, Eq, Structural, Debug)]
pub enum MatrixMode {
    Proj,
    Pos,
    PosVec,
    Texture,
}

impl MatrixMode {
    pub open spec fn code(&self) -> u8 {
        match self {
            MatrixMode::Proj => 0,
            MatrixMode::Pos => 1,
            MatrixMode::PosVec => 2,
            MatrixMode::Texture => 3,
        }
    }

    /// The mode with code `value`.
    pub fn from_bits(value: u8) -> (r: MatrixMode)
        requires
            value < 4,
        ensures
            r.code() == value,
    {
        if value == 0 {
            MatrixMode::Proj
        } else if value == 1 {
            MatrixMode::Pos
        } else if value == 2 {
            MatrixMode::PosVec
        } else {
            MatrixMode::Texture
        }
    }
}

/// A light: its direction and its 5-bit colour components.
#[derive(Clone, Copy, Debug)]
pub struct Light {
    pub direction: [FixedPoint; 3],
    pub color: [i32; 3],
}

impl Light {
    pub fn new() -> (r: Light)
        ensures
            r.direction@ == seq![FixedPoint(0), FixedPoint(0), FixedPoint(0)],
            r.color@ == seq![0i32, 0, 0],
    {
        let z = FixedPoint::zero();
        let r = Light { direction: [z, z, z], color: [0, 0, 0] };
        assert(r.direction@ =~= seq![FixedPoint(0), FixedPoint(0), FixedPoint(0)]);
        assert(r.color@ =~= seq![0i32, 0, 0]);
        r
    }
}

/// The three 5-bit colour components packed at bit `shift` of `val`.
pub open spec fn rgb5_at(val: u32, shift: u32) -> Seq<i32> {
    seq![
        ((val >> shift) & 0x1F) as i32,
        ((val >> (shift + 5) as u32) & 0x1F) as i32,
        ((val >> (shift + 10) as u32) & 0x1F) as i32,
    ]
}

/// The three 5-bit components packed at bit `shift` of `val`.
pub(crate) fn rgb5_exec(val: u32, shift: u32) -> (r: [i32; 3])
    requires
        shift <= 16,
    ensures
        r@ == rgb5_at(val, shift),
{
    let r0 = (val >> shift) & 0x1F;
    let r1 = (val >> (shift + 5)) & 0x1F;
    let r2 = (val >> (shift + 10)) & 0x1F;
    proof {
        lemma_mask_bounds();
    }
    let r = [r0 as i32, r1 as i32, r2 as i32];
    assert(r@ =~= rgb5_at(val, shift));
    r
}

/// The material's colours, as set by `DIF_AMB` and `SPE_EMI`, and its
/// shininess table.
#[derive(Clone, Copy, Debug)]
pub struct Material {
    pub diffuse: [i32; 3],
    pub ambient: [i32; 3],
    pub specular: [i32; 3],
    pub emission: [i32; 3],
    pub shininess: [i8; 128],
    pub use_shininess_table: bool,
}

impl Material {
    pub fn new() -> (r: Material)
        ensures
            r.diffuse@ == seq![0i32, 0, 0],
            r.ambient@ == seq![0i32, 0, 0],
            r.specular@ == seq![0i32, 0, 0],
            r.emission@ == seq![0i32, 0, 0],
            forall|i: int| 0 <= i < 128 ==> #[trigger] r.shininess@[i] == 0,
            !r.use_shininess_table,
    {
        let r = Material {
            diffuse: [0, 0, 0],
            ambient: [0, 0, 0],
            specular: [0, 0, 0],
            emission: [0, 0, 0],
            shininess: [0; 128],
            use_shininess_table: false,
        };
        assert(r.diffuse@ =~= seq![0i32, 0, 0]);
        r
    }

    /// Sets the diffuse (bits 0-14) and ambient (bits 16-30) colours and
    /// returns bit 15, which asks for the diffuse colour to become the
    /// vertex colour.
    pub fn set_dif_amb(&mut self, val: u32) -> (r: bool)
        ensures
            final(self).diffuse@ == rgb5_at(val, 0),
            final(self).ambient@ == rgb5_at(val, 16),
            final(self).specular == old(self).specular,
            final(self).emission == old(self).emission,
            final(self).shininess == old(self).shininess,
            final(self).use_shininess_table == old(self).use_shininess_table,
            r == (val & 0x8000 != 0),
    {
        self.diffuse = rgb5_exec(val, 0);
        self.ambient = rgb5_exec(val, 16);
        val & 0x8000 != 0
    }

    /// Sets the specular (bits 0-14) and emission (bits 16-30) colours and
    /// whether the shininess table is used (bit 15).
    pub fn set_spe_emi(&mut self, val: u32)
        ensures
            final(self).specular@ == rgb5_at(val, 0),
            final(self).emission@ == rgb5_at(val, 16),
            final(self).use_shininess_table == (val & 0x8000 != 0),
            final(self).diffuse == old(self).diffuse,
            final(self).ambient == old(self).ambient,
            final(self).shininess == old(self).shininess,
    {
        self.specular = rgb5_exec(val, 0);
        self.use_shininess_table = val & 0x8000 != 0;
        self.emission = rgb5_exec(val, 16);
    }
}

/// A colour with 8-bit components.
#[derive(Clone, Copy, PartialEq, Eq, Structural, Debug)]
pub struct Color {
    pub r: u8,
    pub g: u8,
    pub b: u8,
}

/// A 6-bit component widened to 8 bits: 0 stays 0, `x` becomes `4x + 3`.
pub open spec fn widen6(x: u8) -> u8 {
    if x == 0 {
        0
    } else {
        (4 * x + 3) as u8
    }
}

/// A 5-bit component widened to 6 bits: 0 stays 0, `x` becomes `2x + 1`.
pub open spec fn widen5(x: u8) -> u8 {
    if x == 0 {
        0
    } else {
        (2 * x + 1) as u8
    }
}

impl Color {
    /// A colour from 5-bit components (each widened to 6 bits first).
    pub fn new5(r: u8, g: u8, b: u8) -> (c: Color)
        requires
            r < 32 && g < 32 && b < 32,
        ensures
            c.r == widen6(widen5(r)) && c.g == widen6(widen5(g)) && c.b == widen6(widen5(b)),
    {
        Color::new6(
            if r == 0 { 0 } else { r * 2 + 1 },
            if g == 0 { 0 } else { g * 2 + 1 },
            if b == 0 { 0 } else { b * 2 + 1 },
        )
    }

    /// A colour from 6-bit components, widened to 8 bits.
    pub fn new6(r: u8, g: u8, b: u8) -> (c: Color)
        requires
            r < 64 && g < 64 && b < 64,
        ensures
            c.r == widen6(r) && c.g == widen6(g) && c.b == widen6(b),
    {
        Color {
            r: if r == 0 { 0 } else { (r * 2 + 1) * 2 + 1 },
            g: if g == 0 { 0 } else { (g * 2 + 1) * 2 + 1 },
            b: if b == 0 { 0 } else { (b * 2 + 1) * 2 + 1 },
        }
    }

    /// A colour from 8-bit components.
    pub fn new8(r: u8, g: u8, b: u8) -> (c: Color)
        ensures
            c.r == r && c.g == g && c.b == b,
    {
        Color { r, g, b }
    }

    /// A colour from a 15-bit BGR value (red in the low bits).
    pub fn from_u16(value: u16) -> (c: Color)
        ensures
            c.r == widen6(widen5((value & 0x1F) as u8)),
            c.g == widen6(widen5(((value >> 5u16) & 0x1F) as u8)),
            c.b == widen6(widen5(((value >> 10u16) & 0x1F) as u8)),
    {
        proof {
            lemma_mask_bounds();
        }
        let r = value & 0x1F;
        let g = (value >> 5u16) & 0x1F;
        let b = (value >> 10u16) & 0x1F;
        Color::new5(r as u8, g as u8, b as u8)
    }

    /// The colour as a 15-bit BGR value, keeping the top 5 bits of each
    /// component.
    pub fn as_u16(&self) -> (v: u16)
        ensures
            v == (self.b / 8) as int * 1024 + (self.g / 8) as int * 32 + (self.r / 8) as int,
    {
        (self.b / 8) as u16 * 1024 + (self.g / 8) as u16 * 32 + (self.r / 8) as u16
    }

    pub fn r5(&self) -> (v: u8)
        ensures
            v == self.r >> 3u8,
    {
        self.r >> 3u8
    }

    pub fn g5(&self) -> (v: u8)
        ensures
            v == self.g >> 3u8,
    {
        self.g >> 3u8
    }

    pub fn b5(&self) -> (v: u8)
        ensures
            v == self.b >> 3u8,
    {
        self.b >> 3u8
    }

    pub fn r6(&self) -> (v: u8)
        ensures
            v == self.r >> 2u8,
    {
        self.r >> 2u8
    }

    pub fn g6(&self) -> (v: u8)
        ensures
            v == self.g >> 2u8,
    {
        self.g >> 2u8
    }

    pub fn b6(&self) -> (v: u8)
        ensures
            v == self.b >> 2u8,
    {
        self.b >> 2u8
    }

    pub fn r8(&self) -> (v: u8)
        ensures
            v == self.r,
    {
        self.r
    }

    pub fn g8(&self) -> (v: u8)
        ensures
            v == self.g,
    {
        self.g
    }

    pub fn b8(&self) -> (v: u8)
        ensures
            v == self.b,
    {
        self.b
    }
}

/// Widening a 5-bit component and narrowing it back gives the component:
/// `new5` followed by `r5` (or `g5`, `b5`) is the identity.
pub proof fn lemma_widen5_roundtrip(x: u8)
    requires
        x < 32,
    ensures
        widen6(widen5(x)) >> 3u8 == x,
{
    let w = widen6(widen5(x));
    lemma_u8_shr_is_div(w, 3);
    lemma2_to64();
}

/// A vertex: clip coordinates, screen coordinates and depth (filled in
/// after clipping), colour and texture coordinates.
#[derive(Clone, Copy, Debug)]
pub struct Vertex {
    pub clip_coords: Vec4,
    pub screen_coords: [usize; 2],
    pub z_depth: u32,
    pub color: Color,
    pub tex_coord: [i16; 2],
}

impl Vertex {
    /// A vertex at the origin with everything zero.
    pub fn new() -> (r: Vertex)
        ensures
            forall|i: int| 0 <= i < 4 ==> #[trigger] r.clip_coords.elems@[i] == FixedPoint(0),
            r.screen_coords@ == seq![0usize, 0],
            r.z_depth == 0,
            r.color == (Color { r: 0, g: 0, b: 0 }),
            r.tex_coord@ == seq![0i16, 0],
    {
        let z = FixedPoint::zero();
        let r = Vertex {
            clip_coords: Vec4::new(z, z, z, z),
            screen_coords: [0, 0],
            z_depth: 0,
            color: Color::new8(0, 0, 0),
            tex_coord: [0, 0],
        };
        assert(r.screen_coords@ =~= seq![0usize, 0]);
        assert(r.tex_coord@ =~= seq![0i16, 0]);
        r
    }
}

/// A submitted polygon: the range of its vertices and the attributes it
/// was drawn with.
#[derive(Clone, Copy, Debug)]
pub struct Polygon {
    pub start_vert: usize,
    pub end_vert: usize,
    pub attrs: PolygonAttributes,
    pub tex_params: TextureParams,
    pub palette_base: usize,
    pub is_front: bool,
}

} // verus!
