//! The 3D engine's control registers and the polygon and texture attributes
//! set by geometry commands.
use vstd::prelude::*;
use super::fixed::{Vec4, fits_i32};
use crate::math::{lemma_trunc_div_bound, trunc_div, trunc_div_rem};
use crate::bits::{bit8, bit32, lemma_mask_bounds};

verus! {

/// `1` for `true`, `0` for `false`.
pub open spec fn b2u(b: bool) -> u8 {
    if b {
        1
    } else {
        0
    }
}

/// The 3D display control register.
pub struct DISP3DCNT {
    pub texture_mapping: bool,
    pub highlight_shading: bool,
    pub alpha_test: bool,
    pub alpha_blending: bool,
    pub antia_aliasing: bool,
    pub edge_marking: bool,
    pub fog_alpha_only: bool,
    pub fog_master_enable: bool,
    pub fog_depth_shift: u8,
    pub color_buffer_underflow: bool,
    pub poly_vert_ram_overflow: bool,
    pub rear_plane_bitmap: bool,
}

impl DISP3DCNT {
    pub fn new() -> (r: DISP3DCNT)
        ensures
            !r.texture_mapping && !r.highlight_shading && !r.alpha_test && !r.alpha_blending
                && !r.antia_aliasing && !r.edge_marking && !r.fog_alpha_only && !r.fog_master_enable,
            r.fog_depth_shift == 0,
            !r.color_buffer_underflow && !r.poly_vert_ram_overflow && !r.rear_plane_bitmap,
    {
        DISP3DCNT {
            texture_mapping: false,
            highlight_shading: false,
            alpha_test: false,
            alpha_blending: false,
            antia_aliasing: false,
            edge_marking: false,
            fog_alpha_only: false,
            fog_master_enable: false,
            fog_depth_shift: 0,
            color_buffer_underflow: false,
            poly_vert_ram_overflow: false,
            rear_plane_bitmap: false,
        }
    }

    /// Byte 0 holds the eight rendering switches; byte 1 the fog shift and
    /// the three status flags.
    pub fn read(&self, byte: usize) -> (r: u8)
        requires
            byte < 4,
        ensures
            byte == 0 ==> r == ((if self.fog_master_enable { 0x80u8 } else { 0u8 }) | (
            if self.fog_alpha_only { 0x40u8 } else { 0u8 }) | (if self.edge_marking {
                0x20u8
            } else {
                0u8
            }) | (if self.antia_aliasing { 0x10u8 } else { 0u8 }) | (if self.alpha_blending {
                0x08u8
            } else {
                0u8
            }) | (if self.alpha_test { 0x04u8 } else { 0u8 }) | (if self.highlight_shading {
                0x02u8
            } else {
                0u8
            }) | (if self.texture_mapping { 0x01u8 } else { 0u8 })),
            byte == 1 ==> r == ((if self.rear_plane_bitmap { 0x40u8 } else { 0u8 }) | (
            if self.poly_vert_ram_overflow { 0x20u8 } else { 0u8 }) | (if self.color_buffer_underflow {
                0x10u8
            } else {
                0u8
            }) | self.fog_depth_shift),
            byte > 1 ==> r == 0,
    {
        if byte == 0 {
            (if self.fog_master_enable { 0x80u8 } else { 0u8 }) | (if self.fog_alpha_only {
                0x40u8
            } else {
                0u8
            }) | (if self.edge_marking { 0x20u8 } else { 0u8 }) | (if self.antia_aliasing {
                0x10u8
            } else {
                0u8
            }) | (if self.alpha_blending { 0x08u8 } else { 0u8 }) | (if self.alpha_test {
                0x04u8
            } else {
                0u8
            }) | (if self.highlight_shading { 0x02u8 } else { 0u8 }) | (if self.texture_mapping {
                0x01u8
            } else {
                0u8
            })
        } else if byte == 1 {
            (if self.rear_plane_bitmap { 0x40u8 } else { 0u8 }) | (if self.poly_vert_ram_overflow {
                0x20u8
            } else {
                0u8
            }) | (if self.color_buffer_underflow { 0x10u8 } else { 0u8 }) | self.fog_depth_shift
        } else {
            0
        }
    }

    /// Writes byte 0 (the switches) or byte 1 (fog shift, acknowledging the
    /// status flags with bit 4, rear-plane mode).
    pub fn write(&mut self, byte: usize, value: u8)
        requires
            byte < 4,
        ensures
            byte == 0 ==> final(self).texture_mapping == bit8(value, 0) && final(self).highlight_shading
                == bit8(value, 1) && final(self).alpha_test == bit8(value, 2) && final(self).alpha_blending
                == bit8(value, 3) && final(self).antia_aliasing == bit8(value, 4)
                && final(self).edge_marking == bit8(value, 5) && final(self).fog_alpha_only == bit8(value, 6)
                && final(self).fog_master_enable == bit8(value, 7),
            byte == 1 ==> final(self).fog_depth_shift == value & 0xF && final(self).color_buffer_underflow
                == (old(self).color_buffer_underflow && !bit8(value, 4))
                && final(self).poly_vert_ram_overflow == (old(self).poly_vert_ram_overflow && !bit8(
                value,
                4,
            )) && final(self).rear_plane_bitmap == bit8(value, 6),
            byte != 1 ==> final(self).fog_depth_shift == old(self).fog_depth_shift,
            old(self).fog_depth_shift < 16 ==> final(self).fog_depth_shift < 16,
    {
        if byte == 0 {
            self.texture_mapping = (value >> 0u8) & 0x1 != 0;
            self.highlight_shading = (value >> 1u8) & 0x1 != 0;
            self.alpha_test = (value >> 2u8) & 0x1 != 0;
            self.alpha_blending = (value >> 3u8) & 0x1 != 0;
            self.antia_aliasing = (value >> 4u8) & 0x1 != 0;
            self.edge_marking = (value >> 5u8) & 0x1 != 0;
            self.fog_alpha_only = (value >> 6u8) & 0x1 != 0;
            self.fog_master_enable = (value >> 7u8) & 0x1 != 0;
        } else if byte == 1 {
            self.fog_depth_shift = value & 0xF;
            proof {
                lemma_mask_bounds();
            }
            self.color_buffer_underflow = self.color_buffer_underflow && (value >> 4u8) & 0x1 == 0;
            self.poly_vert_ram_overflow = self.poly_vert_ram_overflow && (value >> 4u8) & 0x1 == 0;
            self.rear_plane_bitmap = (value >> 6u8) & 0x1 != 0;
        }
    }
}

/// When the geometry FIFO raises an interrupt.
#[derive(Clone, Copy, PartialEq, Eq, Structural, Debug)]
pub enum CommandFifoIRQ {
    Never,
    LessHalf,
    Empty,
}

impl CommandFifoIRQ {
    /// The mode with code `value` (3 is reserved).
    pub fn from_bits(value: u8) -> (r: CommandFifoIRQ)
        requires
            value < 3,
        ensures
            r.bits_spec() == value,
    {
        if value == 0 {
            CommandFifoIRQ::Never
        } else if value == 1 {
            CommandFifoIRQ::LessHalf
        } else {
            CommandFifoIRQ::Empty
        }
    }

    pub open spec fn bits_spec(&self) -> u8 {
        match self {
            CommandFifoIRQ::Never => 0,
            CommandFifoIRQ::LessHalf => 1,
            CommandFifoIRQ::Empty => 2,
        }
    }

    /// The mode's code.
    pub fn bits(&self) -> (r: u8)
        ensures
            r == self.bits_spec(),
    {
        match self {
            CommandFifoIRQ::Never => 0,
            CommandFifoIRQ::LessHalf => 1,
            CommandFifoIRQ::Empty => 2,
        }
    }
}

/// The geometry engine status register.
pub struct GXSTAT {
    pub test_busy: bool,
    pub box_test_inside: bool,
    pub mat_stack_busy: bool,
    pub mat_stack_error: bool,
    pub geometry_engine_busy: bool,
    pub command_fifo_irq: CommandFifoIRQ,
}

impl GXSTAT {
    pub fn new() -> (r: GXSTAT)
        ensures
            !r.test_busy && !r.box_test_inside && !r.mat_stack_busy && !r.mat_stack_error
                && !r.geometry_engine_busy,
            r.command_fifo_irq == CommandFifoIRQ::Never,
    {
        GXSTAT {
            test_busy: false,
            box_test_inside: false,
            mat_stack_busy: false,
            mat_stack_error: false,
            geometry_engine_busy: false,
            command_fifo_irq: CommandFifoIRQ::from_bits(0),
        }
    }
}

/// The clear colour of the rear plane.
pub struct ClearColor {
    pub red: u8,
    pub green: u8,
    pub blue: u8,
    pub fog: bool,
    pub alpha: u8,
    pub polygon_id: u8,
}

impl ClearColor {
    pub fn new() -> (r: ClearColor)
        ensures
            r.red == 0 && r.green == 0 && r.blue == 0 && !r.fog && r.alpha == 0 && r.polygon_id == 0,
    {
        ClearColor { red: 0, green: 0, blue: 0, fog: false, alpha: 0, polygon_id: 0 }
    }

    /// The colour as a 15-bit BGR value.
    pub fn color(&self) -> (r: u16)
        requires
            self.red < 32 && self.green < 32 && self.blue < 32,
        ensures
            r == self.blue as int * 1024 + self.green as int * 32 + self.red as int,
    {
        (self.blue as u16) * 1024 + (self.green as u16) * 32 + self.red as u16
    }

    /// The register is write-only.
    pub fn read(&self, _byte: usize) -> (r: u8)
        ensures
            r == 0,
    {
        0
    }

    /// Writes byte `byte`: red and the low green bits; the high green bits,
    /// blue and fog; alpha; polygon id.
    pub fn write(&mut self, byte: usize, value: u8)
        requires
            byte < 4,
        ensures
            byte == 0 ==> final(self).red == value & 0x1F && final(self).green == (old(self).green & !7u8)
                | ((value >> 5u8) & 7) && final(self).blue == old(self).blue && final(self).fog == old(
                self,
            ).fog && final(self).alpha == old(self).alpha && final(self).polygon_id == old(self).polygon_id,
            byte == 1 ==> final(self).green == (old(self).green & !0x18u8) | ((value << 3u8) & 0x18)
                && final(self).blue == (value >> 2u8) & 0x1F && final(self).fog == bit8(value, 7)
                && final(self).red == old(self).red && final(self).alpha == old(self).alpha
                && final(self).polygon_id == old(self).polygon_id,
            byte == 2 ==> *final(self) == (ClearColor { alpha: value & 0x1F, ..*old(self) }),
            byte == 3 ==> *final(self) == (ClearColor { polygon_id: value & 0x3F, ..*old(self) }),
            old(self).red < 32 && old(self).green < 32 && old(self).blue < 32 ==> final(self).red < 32
                && final(self).green < 32 && final(self).blue < 32,
    {
        let g = self.green;
        assert(value & 0x1F < 32 && (g < 32 ==> (g & !7u8) | ((value >> 5u8) & 7) < 32) && (value
            >> 2u8) & 0x1F < 32 && (g < 32 ==> (g & !0x18u8) | ((value << 3u8) & 0x18) < 32))
            by (bit_vector);
        if byte == 0 {
            self.red = value & 0x1F;
            self.green = g & !0x7 | (value >> 5u8) & 0x7;
        } else if byte == 1 {
            self.green = g & !0x18 | (value << 3u8) & 0x18;
            self.blue = (value >> 2u8) & 0x1F;
            self.fog = (value >> 7u8) & 0x1 != 0;
        } else if byte == 2 {
            self.alpha = value & 0x1F;
        } else {
            self.polygon_id = value & 0x3F;
        }
    }
}

/// The depth of the rear plane.
pub struct ClearDepth {
    pub depth: u16,
}

impl ClearDepth {
    pub fn new() -> (r: ClearDepth)
        ensures
            r.depth == 0,
    {
        ClearDepth { depth: 0 }
    }

    /// The 24-bit depth: the 15-bit register times 0x200 plus 0x1FF.
    pub fn depth(&self) -> (r: u32)
        ensures
            r == self.depth as int * 0x200 + 0x1FF,
    {
        (self.depth as u32) * 0x200 + 0x1FF
    }

    /// The register is write-only.
    pub fn read(&self, _byte: usize) -> (r: u8)
        ensures
            r == 0,
    {
        0
    }

    /// Writes the low byte, or the high 7 bits.
    pub fn write(&mut self, byte: usize, value: u8)
        requires
            byte < 2,
        ensures
            byte == 0 ==> final(self).depth == (old(self).depth & !0xFFu16) | value as u16,
            byte == 1 ==> final(self).depth == (old(self).depth & !0x7F00u16) | (((value as u16) << 8u16)
                & 0x7F00),
    {
        if byte == 0 {
            self.depth = self.depth & !0xFF | value as u16;
        } else {
            self.depth = self.depth & !0x7F00 | (value as u16) << 8u16 & 0x7F00;
        }
    }
}

/// How texels are stored.
#[derive(Clone, Copy, PartialEq, Eq, Structural, Debug)]
pub enum TextureFormat {
    NoTexture,
    A3I5,
    Palette4,
    Palette16,
    Palette256,
    Compressed,
    A5I3,
    DirectColor,
}

impl TextureFormat {
    pub open spec fn code(&self) -> u32 {
        match self {
            TextureFormat::NoTexture => 0,
            TextureFormat::A3I5 => 1,
            TextureFormat::Palette4 => 2,
            TextureFormat::Palette16 => 3,
            TextureFormat::Palette256 => 4,
            TextureFormat::Compressed => 5,
            TextureFormat::A5I3 => 6,
            TextureFormat::DirectColor => 7,
        }
    }

    /// The format with code `value`.
    pub fn from_bits(value: u32) -> (r: TextureFormat)
        requires
            value < 8,
        ensures
            r.code() == value,
    {
        if value == 0 {
            TextureFormat::NoTexture
        } else if value == 1 {
            TextureFormat::A3I5
        } else if value == 2 {
            TextureFormat::Palette4
        } else if value == 3 {
            TextureFormat::Palette16
        } else if value == 4 {
            TextureFormat::Palette256
        } else if value == 5 {
            TextureFormat::Compressed
        } else if value == 6 {
            TextureFormat::A5I3
        } else {
            TextureFormat::DirectColor
        }
    }
}

/// The source of the texture coordinates' transformation.
#[derive(Clone, Copy, PartialEq, Eq, Structural, Debug)]
pub enum TexCoordTransformationMode {
    Untransformed,
    TexCoord,
    Normal,
    Vertex,
}

impl TexCoordTransformationMode {
    pub open spec fn code(&self) -> u32 {
        match self {
            TexCoordTransformationMode::Untransformed => 0,
            TexCoordTransformationMode::TexCoord => 1,
            TexCoordTransformationMode::Normal => 2,
            TexCoordTransformationMode::Vertex => 3,
        }
    }

    /// The mode with code `value`.
    pub fn from_bits(value: u32) -> (r: TexCoordTransformationMode)
        requires
            value < 4,
        ensures
            r.code() == value,
    {
        if value == 0 {
            TexCoordTransformationMode::Untransformed
        } else if value == 2 {
            TexCoordTransformationMode::Normal
        } else if value == 1 {
            TexCoordTransformationMode::TexCoord
        } else {
            TexCoordTransformationMode::Vertex
        }
    }
}

/// Whether `x` holds the fields of the `TEXIMAGE_PARAM` word `value`.
pub open spec fn tex_params_decoded(x: TextureParams, value: u32) -> bool {
    &&& x.vram_offset == (value & 0xFFFF) * 8
    &&& x.repeat_s == bit32(value, 16)
    &&& x.repeat_t == bit32(value, 17)
    &&& x.flip_s == bit32(value, 18)
    &&& x.flip_t == bit32(value, 19)
    &&& x.size_s == 8usize << (((value >> 20u32) & 7) as usize)
    &&& x.size_t == 8usize << (((value >> 23u32) & 7) as usize)
    &&& x.size_s_shift == 3 + ((value >> 20u32) & 7)
    &&& x.size_t_shift == 3 + ((value >> 23u32) & 7)
    &&& x.format.code() == (value >> 26u32) & 7
    &&& x.color0_transparent == bit32(value, 29)
    &&& x.coord_transformation_mode.code() == (value >> 30u32) & 3
}

/// The texture parameters set by `TEXIMAGE_PARAM`.
#[derive(Clone, Copy, PartialEq, Eq, Structural, Debug)]
pub struct TextureParams {
    pub vram_offset: usize,
    pub repeat_s: bool,
    pub repeat_t: bool,
    pub flip_s: bool,
    pub flip_t: bool,
    pub size_s: usize,
    pub size_t: usize,
    pub size_s_shift: u32,
    pub size_t_shift: u32,
    pub format: TextureFormat,
    pub color0_transparent: bool,
    pub coord_transformation_mode: TexCoordTransformationMode,
}

impl TextureParams {
    pub fn new() -> (r: TextureParams)
        ensures
            r.vram_offset == 0 && !r.repeat_s && !r.repeat_t && !r.flip_s && !r.flip_t,
            r.size_s == 0 && r.size_t == 0 && r.size_s_shift == 0 && r.size_t_shift == 0,
            r.format == TextureFormat::NoTexture,
            !r.color0_transparent,
            r.coord_transformation_mode == TexCoordTransformationMode::Untransformed,
    {
        TextureParams {
            vram_offset: 0,
            repeat_s: false,
            repeat_t: false,
            flip_s: false,
            flip_t: false,
            size_s: 0,
            size_t: 0,
            size_s_shift: 0,
            size_t_shift: 0,
            format: TextureFormat::NoTexture,
            color0_transparent: false,
            coord_transformation_mode: TexCoordTransformationMode::Untransformed,
        }
    }

    /// Decodes a `TEXIMAGE_PARAM` word: the VRAM offset in 8-byte units,
    /// repeat and flip flags, sizes `8 << n` (and their logarithms), format, colour-0
    /// transparency and the coordinate transformation mode.
    pub fn write(&mut self, value: u32)
        ensures
            tex_params_decoded(*final(self), value),
    {
        proof {
            lemma_mask_bounds();
        }
        let off: usize = (value & 0xFFFF) as usize;
        self.vram_offset = off * 8;
        self.repeat_s = (value >> 16u32) & 0x1 != 0;
        self.repeat_t = (value >> 17u32) & 0x1 != 0;
        self.flip_s = (value >> 18u32) & 0x1 != 0;
        self.flip_t = (value >> 19u32) & 0x1 != 0;
        let ss = (value >> 20u32) & 0x7;
        let st = (value >> 23u32) & 0x7;
        self.size_s = size_of_code(ss);
        self.size_t = size_of_code(st);
        self.size_s_shift = 3 + ss;
        self.size_t_shift = 3 + st;
        let f = (value >> 26u32) & 0x7;
        self.format = TextureFormat::from_bits(f);
        self.color0_transparent = (value >> 29u32) & 0x1 != 0;
        let m = (value >> 30u32) & 0x3;
        self.coord_transformation_mode = TexCoordTransformationMode::from_bits(m);
    }
}

/// `8 << code`, the texture size for a 3-bit size code.
fn size_of_code(code: u32) -> (r: usize)
    requires
        code < 8,
    ensures
        r == 8usize << (code as usize),
{
    8usize << (code as usize)
}

/// How a polygon's colour is combined with its texture.
#[derive(Clone, Copy, PartialEq, Eq, Structural, Debug)]
pub enum PolygonMode {
    Modulation,
    Decal,
    Toon,
    Shadow,
}

impl PolygonMode {
    pub open spec fn code(&self) -> u32 {
        match self {
            PolygonMode::Modulation => 0,
            PolygonMode::Decal => 1,
            PolygonMode::Toon => 2,
            PolygonMode::Shadow => 3,
        }
    }

    /// The mode with code `value`.
    pub fn from_bits(value: u32) -> (r: PolygonMode)
        requires
            value < 4,
        ensures
            r.code() == value,
    {
        if value == 0 {
            PolygonMode::Modulation
        } else if value == 1 {
            PolygonMode::Decal
        } else if value == 2 {
            PolygonMode::Toon
        } else {
            PolygonMode::Shadow
        }
    }
}

/// Whether `x` holds the fields of the `POLYGON_ATTR` word `value`.
pub open spec fn attrs_decoded(x: PolygonAttributes, value: u32) -> bool {
    &&& x.lights_enabled@ == seq![bit32(value, 0), bit32(value, 1), bit32(value, 2), bit32(value, 3)]
    &&& x.mode.code() == (value >> 4u32) & 3
    &&& x.render_back == bit32(value, 6)
    &&& x.render_front == bit32(value, 7)
    &&& x.set_depth_translucent == bit32(value, 11)
    &&& x.render_far_plane_intersecting == bit32(value, 12)
    &&& x.render_1dot_behind_depth == bit32(value, 13)
    &&& x.depth_test_eq == bit32(value, 14)
    &&& x.fog_enable == bit32(value, 15)
    &&& x.alpha == (value >> 16u32) & 0x1F
    &&& x.polygon_id == (value >> 24u32) & 0x3F
}

/// The polygon attributes set by `POLYGON_ATTR`.
#[derive(Clone, Copy, Debug)]
pub struct PolygonAttributes {
    pub lights_enabled: [bool; 4],
    pub mode: PolygonMode,
    pub render_back: bool,
    pub render_front: bool,
    pub set_depth_translucent: bool,
    pub render_far_plane_intersecting: bool,
    pub render_1dot_behind_depth: bool,
    pub depth_test_eq: bool,
    pub fog_enable: bool,
    pub alpha: u8,
    pub polygon_id: u8,
}

impl PolygonAttributes {
    pub fn new() -> (r: PolygonAttributes)
        ensures
            r.lights_enabled@ == seq![false, false, false, false],
            r.mode == PolygonMode::Modulation,
            !r.render_back && !r.render_front && !r.set_depth_translucent
                && !r.render_far_plane_intersecting && !r.render_1dot_behind_depth && !r.depth_test_eq
                && !r.fog_enable,
            r.alpha == 0 && r.polygon_id == 0,
    {
        let r = PolygonAttributes {
            lights_enabled: [false; 4],
            mode: PolygonMode::Modulation,
            render_back: false,
            render_front: false,
            set_depth_translucent: false,
            render_far_plane_intersecting: false,
            render_1dot_behind_depth: false,
            depth_test_eq: false,
            fog_enable: false,
            alpha: 0,
            polygon_id: 0,
        };
        assert(r.lights_enabled@ =~= seq![false, false, false, false]);
        r
    }

    /// Decodes a `POLYGON_ATTR` word.
    pub fn write(&mut self, value: u32)
        ensures
            attrs_decoded(*final(self), value),
    {
        self.lights_enabled[0] = (value >> 0u32) & 0x1 != 0;
        self.lights_enabled[1] = (value >> 1u32) & 0x1 != 0;
        self.lights_enabled[2] = (value >> 2u32) & 0x1 != 0;
        self.lights_enabled[3] = (value >> 3u32) & 0x1 != 0;
        proof {
            lemma_mask_bounds();
        }
        let m = (value >> 4u32) & 0x3;
        self.mode = PolygonMode::from_bits(m);
        self.render_back = (value >> 6u32) & 0x1 != 0;
        self.render_front = (value >> 7u32) & 0x1 != 0;
        self.set_depth_translucent = (value >> 11u32) & 0x1 != 0;
        self.render_far_plane_intersecting = (value >> 12u32) & 0x1 != 0;
        self.render_1dot_behind_depth = (value >> 13u32) & 0x1 != 0;
        self.depth_test_eq = (value >> 14u32) & 0x1 != 0;
        self.fog_enable = (value >> 15u32) & 0x1 != 0;
        self.alpha = ((value >> 16u32) & 0x1F) as u8;
        self.polygon_id = ((value >> 24u32) & 0x3F) as u8;
        assert(self.lights_enabled@ =~= seq![
            bit32(value, 0),
            bit32(value, 1),
            bit32(value, 2),
            bit32(value, 3),
        ]);
    }
}

/// The per-frame parameters given with `SWAP_BUFFERS`.
#[derive(Clone, Copy, PartialEq, Eq, Structural, Debug)]
pub struct FrameParams {
    pub manual_sort_translucent: bool,
    pub w_buffer: bool,
}

impl FrameParams {
    pub fn new() -> (r: FrameParams)
        ensures
            !r.manual_sort_translucent && !r.w_buffer,
    {
        FrameParams { manual_sort_translucent: false, w_buffer: false }
    }

    /// Bit 0: manual sorting of translucent polygons; bit 1: W-buffering.
    pub fn write(&mut self, value: u32)
        ensures
            final(self).manual_sort_translucent == bit32(value, 0) && final(self).w_buffer == bit32(value, 1),
    {
        self.manual_sort_translucent = (value >> 0u32) & 0x1 != 0;
        self.w_buffer = (value >> 1u32) & 0x1 != 0;
    }
}

/// Whether `vp` holds the rectangle of the `VIEWPORT` word `value`.
pub open spec fn viewport_decoded(vp: Viewport, value: u32) -> bool {
    &&& vp.x1 == value & 0xFF
    &&& vp.y1 == (value >> 8u32) & 0xFF
    &&& vp.x2 == (value >> 16u32) & 0xFF
    &&& vp.y2 == (value >> 24u32) & 0xFF
    &&& vp.width == vp.x2 - vp.x1 + 1
    &&& vp.height == vp.y2 - vp.y1 + 1
}

/// The screen rectangle that clip coordinates are mapped to.
#[derive(Clone, Copy, Debug)]
pub struct Viewport {
    pub x1: i32,
    pub y1: i32,
    pub x2: i32,
    pub y2: i32,
    pub width: i32,
    pub height: i32,
}

/// The screen size.
pub const WIDTH: usize = 256;

pub const HEIGHT: usize = 192;

/// Whether a `VIEWPORT` word describes a rectangle that fits the screen:
/// both y bounds on screen and a non-empty width and height no larger than
/// the screen.
pub open spec fn viewport_ok(value: u32) -> bool {
    let x1 = (value & 0xFF) as int;
    let y1 = ((value >> 8u32) & 0xFF) as int;
    let x2 = ((value >> 16u32) & 0xFF) as int;
    let y2 = ((value >> 24u32) & 0xFF) as int;
    &&& y1 < HEIGHT
    &&& y2 < HEIGHT
    &&& 0 <= x2 - x1 + 1 <= WIDTH
    &&& 0 <= y2 - y1 + 1 <= HEIGHT
}

impl Viewport {
    pub fn new() -> (r: Viewport)
        ensures
            r.x1 == 0 && r.y1 == 0 && r.x2 == 0 && r.y2 == 0 && r.width == 0 && r.height == 0,
    {
        Viewport { x1: 0, y1: 0, x2: 0, y2: 0, width: 0, height: 0 }
    }

    /// Decodes a `VIEWPORT` word: four bytes x1, y1, x2, y2.
    pub fn write(&mut self, value: u32)
        requires
            viewport_ok(value),
        ensures
            viewport_decoded(*final(self), value),
    {
        proof {
            lemma_mask_bounds();
        }
        let x1 = (value & 0xFF) as i32;
        let y1 = ((value >> 8u32) & 0xFF) as i32;
        let x2 = ((value >> 16u32) & 0xFF) as i32;
        let y2 = ((value >> 24u32) & 0xFF) as i32;
        self.x1 = x1;
        self.y1 = y1;
        self.x2 = x2;
        self.y2 = y2;
        self.width = x2 - x1 + 1;
        self.height = y2 - y1 + 1;
    }
}

/// How submitted vertices are grouped into polygons.
#[derive(Clone, Copy, PartialEq, Eq, Structural, Debug)]
pub enum VertexPrimitive {
    Triangles,
    Quad,
    TriangleStrips,
    QuadStrips,
}

impl VertexPrimitive {
    pub open spec fn code(&self) -> u32 {
        match self {
            VertexPrimitive::Triangles => 0,
            VertexPrimitive::Quad => 1,
            VertexPrimitive::TriangleStrips => 2,
            VertexPrimitive::QuadStrips => 3,
        }
    }

    /// The primitive with code `value`.
    pub fn from_bits(value: u32) -> (r: VertexPrimitive)
        requires
            value < 4,
        ensures
            r.code() == value,
    {
        if value == 0 {
            VertexPrimitive::Triangles
        } else if value == 1 {
            VertexPrimitive::Quad
        } else if value == 2 {
            VertexPrimitive::TriangleStrips
        } else {
            VertexPrimitive::QuadStrips
        }
    }
}

/// Whether the screen x coordinate of `v` can be computed without
/// overflow or division by zero.
pub open spec fn screen_x_ok(vp: Viewport, v: Vec4) -> bool {
    let x = v.elems@[0].0 as int;
    let w = v.elems@[3].0 as int;
    &&& w != 0
    &&& fits_i32(x + w)
    &&& fits_i32((x + w) * vp.width)
    &&& fits_i32(2 * w)
    &&& fits_i32(trunc_div((x + w) * vp.width, 2 * w) + vp.x1)
}

/// The screen x coordinate of clip coordinates `v`.
pub open spec fn screen_x_of(vp: Viewport, v: Vec4) -> usize {
    let x = v.elems@[0].0 as int;
    let w = v.elems@[3].0 as int;
    (trunc_div((x + w) * vp.width, 2 * w) + vp.x1) as i32 as usize
}

/// Whether the screen y coordinate of `v` can be computed without
/// overflow or division by zero.
pub open spec fn screen_y_ok(vp: Viewport, v: Vec4) -> bool {
    let y = v.elems@[1].0 as int;
    let w = v.elems@[3].0 as int;
    &&& w != 0
    &&& fits_i32(-y)
    &&& fits_i32(-y + w)
    &&& fits_i32((-y + w) * vp.height)
    &&& fits_i32(2 * w)
    &&& fits_i32(trunc_div((-y + w) * vp.height, 2 * w) + vp.y1)
}

/// The screen y coordinate of clip coordinates `v` (y grows downwards).
pub open spec fn screen_y_of(vp: Viewport, v: Vec4) -> usize {
    let y = v.elems@[1].0 as int;
    let w = v.elems@[3].0 as int;
    (trunc_div((-y + w) * vp.height, 2 * w) + vp.y1) as i32 as usize
}

impl Viewport {
    /// The screen x coordinate of clip coordinates: `(x + w) / 2w` of the
    /// viewport's width, from its left edge.
    pub fn screen_x(&self, clip_coords: &Vec4) -> (r: usize)
        requires
            screen_x_ok(*self, *clip_coords),
        ensures
            r == screen_x_of(*self, *clip_coords),
    {
        let x = clip_coords.elems[0].raw();
        let w = clip_coords.elems[3].raw();
        let num = (x + w) * self.width;
        proof {
            lemma_trunc_div_bound(num as int, 2 * w);
        }
        let q = trunc_div_rem(num as i64, (2 * w) as i64).0;
        (q as i32 + self.x1) as usize
    }

    /// The screen y coordinate of clip coordinates: `(w - y) / 2w` of the
    /// viewport's height, from its top edge.
    pub fn screen_y(&self, clip_coords: &Vec4) -> (r: usize)
        requires
            screen_y_ok(*self, *clip_coords),
        ensures
            r == screen_y_of(*self, *clip_coords),
    {
        let y = clip_coords.elems[1].raw();
        let w = clip_coords.elems[3].raw();
        let num = (-y + w) * self.height;
        proof {
            lemma_trunc_div_bound(num as int, 2 * w);
        }
        let q = trunc_div_rem(num as i64, (2 * w) as i64).0;
        (q as i32 + self.y1) as usize
    }
}

} // verus!
