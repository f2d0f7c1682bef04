//! The rendering engine's per-pixel rules: clearing the buffers, the depth
//! tests, texture coordinates, texel colours from video memory, and the
//! blending of texel and vertex colours.
use vstd::prelude::*;
use super::engine::Engine3D;
use super::exec::color15;
use super::geometry::{Color, Polygon, widen5, widen6};
use super::registers::{GXSTAT, PolygonMode, TextureFormat, HEIGHT, WIDTH};
use crate::vram::{TEXTURES_PAL_SLOTS, TEXTURES_SLOTS, VRAM, slot_value, vram_wf};
use crate::bits::lemma_mask_bounds;

verus! {

/// The equal depth test: the new depth is within 0x200 of the stored one.
pub fn eq_depth_test(cur_depth: u32, new_depth: u32) -> (r: bool)
    requires
        0x200 <= cur_depth <= u32::MAX - 0x200,
    ensures
        r == (cur_depth - 0x200 <= new_depth <= cur_depth + 0x200),
{
    new_depth >= cur_depth - 0x200 && new_depth <= cur_depth + 0x200
}

/// The less-than depth test: the new depth is nearer than the stored one.
pub fn lt_depth_test(cur_depth: u32, new_depth: u32) -> (r: bool)
    ensures
        r == (new_depth < cur_depth),
{
    new_depth < cur_depth
}

/// The depth test a polygon asks for: equal when its attributes say so,
/// less-than otherwise.
pub fn depth_test(depth_test_eq: bool, cur_depth: u32, new_depth: u32) -> (r: bool)
    requires
        depth_test_eq ==> 0x200 <= cur_depth <= u32::MAX - 0x200,
    ensures
        r == if depth_test_eq {
            cur_depth - 0x200 <= new_depth <= cur_depth + 0x200
        } else {
            new_depth < cur_depth
        },
{
    if depth_test_eq {
        eq_depth_test(cur_depth, new_depth)
    } else {
        lt_depth_test(cur_depth, new_depth)
    }
}

/// A texture coordinate inside a texture of `size` texels, `size` being
/// `1 << shift`: repeating takes it modulo the size (mirrored in every
/// other period when flipping); otherwise negative coordinates clamp to 0
/// and those past the size to the last texel.
pub open spec fn wrapped_coord(c: i32, size: int, repeat: bool, flip: bool) -> int {
    if repeat {
        let u = (c as u32) as int;
        let r = u % size;
        if flip && (u / size) % 2 == 1 {
            size - 1 - r
        } else {
            r
        }
    } else if c < 0 {
        0
    } else if c > size {
        size - 1
    } else {
        c as int
    }
}

/// Masking, shifting and flipping with a power of two are the remainder,
/// the quotient and the mirror image.
proof fn lemma_pow2_coord(u: u32, size: u32, shift: u32, mask: u32)
    by (bit_vector)
    requires
        3 <= shift <= 10,
        size == 1u32 << shift,
        mask == size - 1,
    ensures
        u & mask == u % size,
        u >> shift == u / size,
        (u & mask) ^ mask == mask - (u & mask),
{
}

/// The texel coordinate of `c`, as the polygon's texture parameters
/// repeat, flip or clamp it.
pub fn wrap_coord(c: i32, size: usize, shift: u32, repeat: bool, flip: bool) -> (r: usize)
    requires
        3 <= shift <= 10,
        size == 1usize << (shift as usize),
    ensures
        r == wrapped_coord(c, size as int, repeat, flip),
{
    let size32 = size as u32;
    proof {
        assert(size32 == 1u32 << shift && size32 as usize == size) by (bit_vector)
            requires
                3 <= shift <= 10,
                size == 1usize << (shift as usize),
                size32 == size as u32,
        ;
        assert(8 <= size32 <= 1024) by (bit_vector)
            requires
                3 <= shift <= 10,
                size32 == 1u32 << shift,
        ;
    }
    let mask = size32 - 1;
    proof {
        lemma_pow2_coord(c as u32, size32, shift, mask);
    }
    if repeat {
        let original = c as u32;
        let s = original & mask;
        if flip && (original >> shift) % 2 == 1 {
            assert(s ^ mask == size32 - 1 - s);
            (s ^ mask) as usize
        } else {
            s as usize
        }
    } else if c < 0 {
        0
    } else {
        let u = c as u32;
        assert(u as int == c as int);
        if u > size32 {
            mask as usize
        } else {
            u as usize
        }
    }
}

/// Modulation of two 6-bit components.
pub open spec fn modulate(a: int, b: int) -> int {
    ((a + 1) * (b + 1) - 1) / 64
}

/// Highlight shading of two 6-bit components: modulation plus the vertex
/// component, and at least 0x3F.
pub open spec fn highlight(a: int, b: int) -> int {
    let m = modulate(a, b) + b;
    if m > 0x3F {
        m
    } else {
        0x3F
    }
}

/// The blend of components `a` (texel) and `b` (vertex).
pub open spec fn blend_component(a: int, b: int, hl: bool) -> int {
    if hl {
        highlight(a, b)
    } else {
        modulate(a, b)
    }
}

proof fn lemma_modulate_bound(a: int, b: int)
    requires
        0 <= a < 64,
        0 <= b < 64,
    ensures
        0 <= modulate(a, b) < 64,
{
    assert(0 <= (a + 1) * (b + 1) - 1 < 4096) by (nonlinear_arith)
        requires
            0 <= a < 64,
            0 <= b < 64,
    ;
}

/// Modulation of two 6-bit components.
pub fn modulation_blend(val1: u16, val2: u16) -> (r: u16)
    requires
        val1 < 64,
        val2 < 64,
    ensures
        r == modulate(val1 as int, val2 as int),
        r < 64,
{
    proof {
        lemma_modulate_bound(val1 as int, val2 as int);
        assert((val1 + 1) * (val2 + 1) <= 4096) by (nonlinear_arith)
            requires
                val1 < 64,
                val2 < 64,
        ;
    }
    ((val1 + 1) * (val2 + 1) - 1) / 64
}

/// Whether blending a texel with a vertex colour stays within six bits:
/// highlight shading can pass them.
pub open spec fn blend_ok(tex: Option<Color>, vert: Color, hl: bool) -> bool {
    hl && tex.is_some() ==> {
        let t = tex.unwrap();
        &&& highlight((t.r >> 2u8) as int, (vert.r >> 2u8) as int) < 64
        &&& highlight((t.g >> 2u8) as int, (vert.g >> 2u8) as int) < 64
        &&& highlight((t.b >> 2u8) as int, (vert.b >> 2u8) as int) < 64
    }
}

/// The colour blended from a texel (if the polygon is textured) and a
/// vertex colour, component by component in six bits.
pub open spec fn blended(tex: Option<Color>, vert: Color, hl: bool) -> Color {
    match tex {
        Some(t) => Color {
            r: widen6(blend_component((t.r >> 2u8) as int, (vert.r >> 2u8) as int, hl) as u8),
            g: widen6(blend_component((t.g >> 2u8) as int, (vert.g >> 2u8) as int, hl) as u8),
            b: widen6(blend_component((t.b >> 2u8) as int, (vert.b >> 2u8) as int, hl) as u8),
        },
        None => vert,
    }
}

/// One blended component.
fn blend_component_exec(a: u8, b: u8, hl: bool) -> (r: u8)
    requires
        a < 64,
        b < 64,
        hl ==> highlight(a as int, b as int) < 64,
    ensures
        r == blend_component(a as int, b as int, hl),
        r < 64,
{
    let m = modulation_blend(a as u16, b as u16);
    if hl {
        let h = m + b as u16;
        if h > 0x3F {
            h as u8
        } else {
            0x3F
        }
    } else {
        m as u8
    }
}

/// Blends a texel with a vertex colour.
pub fn blend_tex(tex_color: Option<Color>, vert_color: Color, hl: bool) -> (r: Color)
    requires
        blend_ok(tex_color, vert_color, hl),
    ensures
        r == blended(tex_color, vert_color, hl),
{
    match tex_color {
        Some(t) => {
            proof {
                assert(forall|x: u8| #[trigger] (x >> 2u8) < 64) by (bit_vector);
            }
            let r = blend_component_exec(t.r6(), vert_color.r6(), hl);
            let g = blend_component_exec(t.g6(), vert_color.g6(), hl);
            let b = blend_component_exec(t.b6(), vert_color.b6(), hl);
            Color::new6(r, g, b)
        },
        None => vert_color,
    }
}

/// Two colours combined component by component in five bits: `(a * wa + b *
/// wb) / d`.
pub open spec fn combined5(a: Color, b: Color, wa: int, wb: int, d: int) -> Color {
    Color {
        r: widen6(widen5((((a.r >> 3u8) * wa + (b.r >> 3u8) * wb) / d) as u8)),
        g: widen6(widen5((((a.g >> 3u8) * wa + (b.g >> 3u8) * wb) / d) as u8)),
        b: widen6(widen5((((a.b >> 3u8) * wa + (b.b >> 3u8) * wb) / d) as u8)),
    }
}

/// One combined 5-bit component.
fn combine5(a: u8, b: u8, wa: u16, wb: u16, d: u16) -> (r: u8)
    requires
        a < 32,
        b < 32,
        wa + wb == d,
        d == 2 || d == 8,
    ensures
        r == (a as int * wa as int + b as int * wb as int) / (d as int),
        r < 32,
{
    proof {
        assert(a * wa + b * wb <= 31 * d) by (nonlinear_arith)
            requires
                a < 32,
                b < 32,
                wa + wb == d,
                0 <= wa,
                0 <= wb,
        ;
    }
    ((a as u16 * wa + b as u16 * wb) / d) as u8
}

/// Combines two colours in five bits with weights `wa` and `wb` out of
/// `d`: the average, or the 5:3 and 3:5 mixes of compressed textures.
pub fn combine_colors5(color_a: Color, color_b: Color, wa: u16, wb: u16, d: u16) -> (r: Color)
    requires
        wa + wb == d,
        d == 2 || d == 8,
    ensures
        r == combined5(color_a, color_b, wa as int, wb as int, d as int),
{
    proof {
        assert(forall|x: u8| #[trigger] (x >> 3u8) < 32) by (bit_vector);
    }
    Color::new5(
        combine5(color_a.r5(), color_b.r5(), wa, wb, d),
        combine5(color_a.g5(), color_b.g5(), wa, wb, d),
        combine5(color_a.b5(), color_b.b5(), wa, wb, d),
    )
}

/// The byte at `addr` of the textures.
pub open spec fn tex8(v: VRAM, addr: int) -> u8 {
    slot_value(v, TEXTURES_SLOTS + addr / 0x4000, addr as usize, 1, 9) as u8
}

/// The half-word at `addr` of the textures.
pub open spec fn tex16(v: VRAM, addr: int) -> u16 {
    slot_value(v, TEXTURES_SLOTS + addr / 0x4000, addr as usize, 2, 9) as u16
}

/// The palette colour at `addr` of the texture palettes.
pub open spec fn pal_color(v: VRAM, addr: int) -> Color {
    color15(slot_value(v, TEXTURES_PAL_SLOTS + addr / 0x4000, addr as usize, 2, 9) as u16)
}

/// Whether the byte at `addr` of the textures can be read.
pub open spec fn tex8_ok(addr: int) -> bool {
    0 <= addr < 0x8_0000
}

/// Whether the half-word at `addr` of the textures can be read.
pub open spec fn tex16_ok(addr: int) -> bool {
    0 <= addr < 0x8_0000 && addr % 2 == 0
}

/// Whether the palette colours from `addr` up to `last` can be read.
pub open spec fn pal_ok(addr: int, last: int) -> bool {
    0 <= addr && addr + last < 0x1_8000 && addr % 2 == 0
}

/// The texel index of `(s, t)` in a texture `size_s` texels wide.
pub open spec fn texel_index(p: Polygon, s: int, t: int) -> int {
    t * p.tex_params.size_s + s
}

/// Where the 4x4 block of compressed texel `(s, t)` starts.
pub open spec fn block_addr(p: Polygon, s: int, t: int) -> int {
    p.tex_params.vram_offset + 4 * (t / 4 * (p.tex_params.size_s / 4) + s / 4)
}

/// Where the palette information of a compressed block at `base` is:
/// the second texture slot holds it, for blocks in the first or third.
pub open spec fn block_info_addr(base: int) -> int {
    0x2_0000 + (base % 0x2_0000) / 2 + if base < 0x2_0000 {
        0int
    } else {
        0x1000int
    }
}

/// The colour of compressed texel `(s, t)`: its 2-bit value picks one of
/// four colours of the block's palette, where the block's mode says
/// whether colour 3 is transparent (black here) and whether colours 2 and
/// 3 are mixes of colours 0 and 1.
pub open spec fn compressed_color(v: VRAM, p: Polygon, s: int, t: int) -> Color {
    let base = block_addr(p, s, t);
    let info = tex16(v, block_info_addr(base));
    let mode = (info >> 14u16) & 0x3;
    let pal = p.palette_base + 4 * ((info & 0x3FFF) as int);
    let tv = (tex8(v, base + t % 4) >> ((2 * (s % 4)) as u8)) & 0x3;
    let black = Color { r: 0, g: 0, b: 0 };
    if mode == 0 {
        if tv == 3 {
            black
        } else {
            pal_color(v, pal + 2 * tv)
        }
    } else if mode == 1 {
        if tv == 3 {
            black
        } else if tv == 2 {
            combined5(pal_color(v, pal), pal_color(v, pal + 2), 1, 1, 2)
        } else {
            pal_color(v, pal + 2 * tv)
        }
    } else if mode == 2 {
        pal_color(v, pal + 2 * tv)
    } else {
        if tv == 3 {
            combined5(pal_color(v, pal), pal_color(v, pal + 2), 3, 5, 8)
        } else if tv == 2 {
            combined5(pal_color(v, pal), pal_color(v, pal + 2), 5, 3, 8)
        } else {
            pal_color(v, pal + 2 * tv)
        }
    }
}

/// Whether compressed texel `(s, t)` can be read: its block is in the
/// first or third texture slot, and the palette colours it names exist.
pub open spec fn compressed_ok(v: VRAM, p: Polygon, s: int, t: int) -> bool {
    let base = block_addr(p, s, t);
    let info = tex16(v, block_info_addr(base));
    &&& tex8_ok(base + t % 4)
    &&& base / 0x2_0000 == 0 || base / 0x2_0000 == 2
    &&& tex16_ok(block_info_addr(base))
    &&& pal_ok(p.palette_base + 4 * ((info & 0x3FFF) as int), 6)
}

/// The colour of texel `(s, t)` of the polygon's texture, if it has one.
pub open spec fn texel_color(v: VRAM, p: Polygon, s: int, t: int) -> Option<Color> {
    let off = p.tex_params.vram_offset as int;
    let pal = p.palette_base as int;
    let texel = texel_index(p, s, t);
    match p.tex_params.format {
        TextureFormat::NoTexture => None,
        TextureFormat::A3I5 => Some(pal_color(v, pal + 2 * ((tex8(v, off + texel) & 0x1F) as int))),
        TextureFormat::Palette4 => Some(
            pal_color(v, pal / 2 + 2 * (((tex8(v, off + texel / 4) >> ((2 * (texel % 4)) as u8)) & 0x3) as int)),
        ),
        TextureFormat::Palette16 => Some(
            pal_color(v, pal + 2 * (((tex8(v, off + texel / 2) >> ((4 * (texel % 2)) as u8)) & 0xF) as int)),
        ),
        TextureFormat::Compressed => Some(compressed_color(v, p, s, t)),
        TextureFormat::A5I3 => Some(pal_color(v, pal + 2 * ((tex8(v, off + texel) & 0x7) as int))),
        TextureFormat::Palette256 => Some(pal_color(v, pal + 2 * (tex8(v, off + texel) as int))),
        TextureFormat::DirectColor => Some(color15(tex16(v, off + 2 * texel))),
    }
}

/// Whether texel `(s, t)` can be read: its bytes and palette entries are
/// inside the texture and palette spaces.
pub open spec fn texel_ok(v: VRAM, p: Polygon, s: int, t: int) -> bool {
    let off = p.tex_params.vram_offset as int;
    let pal = p.palette_base as int;
    let texel = texel_index(p, s, t);
    &&& 0 <= s && 0 <= t && texel + 0x8_0000 < 0x1_0000_0000
    &&& off < 0x8_0000 && pal < 0x1_8000
    &&& 4 <= p.tex_params.size_s <= 1024
    &&& match p.tex_params.format {
        TextureFormat::NoTexture => true,
        TextureFormat::A3I5 => tex8_ok(off + texel) && pal_ok(pal, 62),
        TextureFormat::Palette4 => tex8_ok(off + texel / 4) && pal_ok(pal / 2, 6),
        TextureFormat::Palette16 => tex8_ok(off + texel / 2) && pal_ok(pal, 30),
        TextureFormat::Compressed => compressed_ok(v, p, s, t),
        TextureFormat::A5I3 => tex8_ok(off + texel) && pal_ok(pal, 14),
        TextureFormat::Palette256 => tex8_ok(off + texel) && pal_ok(pal, 510),
        TextureFormat::DirectColor => tex16_ok(off + 2 * texel),
    }
}

/// The byte at `addr` of the textures.
fn tex8_exec(vram: &VRAM, addr: usize) -> (r: u8)
    requires
        vram_wf(*vram),
        tex8_ok(addr as int),
    ensures
        r == tex8(*vram, addr as int),
{
    vram.get_textures(addr, 1) as u8
}

/// The half-word at `addr` of the textures.
fn tex16_exec(vram: &VRAM, addr: usize) -> (r: u16)
    requires
        vram_wf(*vram),
        tex16_ok(addr as int),
    ensures
        r == tex16(*vram, addr as int),
{
    vram.get_textures(addr, 2) as u16
}

/// The palette colour at `addr`.
fn pal_color_exec(vram: &VRAM, addr: usize) -> (r: Color)
    requires
        vram_wf(*vram),
        0 <= addr < 0x1_8000,
        addr % 2 == 0,
    ensures
        r == pal_color(*vram, addr as int),
{
    let c = Color::from_u16(vram.get_textures_pal(addr, 2) as u16);
    assert(c == pal_color(*vram, addr as int));
    c
}

/// The colour of compressed texel `(s, t)`.
fn compressed_texel(vram: &VRAM, polygon: &Polygon, s: usize, t: usize) -> (r: Color)
    requires
        vram_wf(*vram),
        compressed_ok(*vram, *polygon, s as int, t as int),
        polygon.tex_params.vram_offset < 0x8_0000,
        polygon.palette_base < 0x1_8000,
        polygon.tex_params.size_s <= 1024,
    ensures
        r == compressed_color(*vram, *polygon, s as int, t as int),
{
    let ghost base_spec = block_addr(*polygon, s as int, t as int);
    let num_blocks_row = polygon.tex_params.size_s / 4;
    proof {
        assert(0 <= (t / 4) * num_blocks_row <= t / 4 * num_blocks_row + s / 4);
    }
    let block_start_addr = t / 4 * num_blocks_row + s / 4;
    let base_addr = polygon.tex_params.vram_offset + 4 * block_start_addr;
    assert(base_addr == base_spec);
    let te = tex8_exec(vram, base_addr + t % 4);
    proof {
        lemma_mask_bounds();
    }
    let texel_val = (te >> ((2 * (s % 4)) as u8)) & 0x3;
    let extra_palette_addr = (base_addr & 0x1_FFFF) / 2 + if base_addr < 128 * 0x400 {
        0
    } else {
        0x1000
    };
    assert(base_addr & 0x1_FFFF == base_addr % 0x2_0000) by (bit_vector);
    let info = tex16_exec(vram, 128 * 0x400 + extra_palette_addr);
    let mode = (info >> 14u16) & 0x3;
    let pal_offset = polygon.palette_base + 4 * ((info & 0x3FFF) as usize);
    let c0 = pal_color_exec(vram, pal_offset);
    let c1 = pal_color_exec(vram, pal_offset + 2);
    let black = Color::new8(0, 0, 0);
    if mode == 0 {
        if texel_val == 3 {
            black
        } else {
            pal_color_exec(vram, pal_offset + 2 * texel_val as usize)
        }
    } else if mode == 1 {
        if texel_val == 3 {
            black
        } else if texel_val == 2 {
            combine_colors5(c0, c1, 1, 1, 2)
        } else {
            pal_color_exec(vram, pal_offset + 2 * texel_val as usize)
        }
    } else if mode == 2 {
        pal_color_exec(vram, pal_offset + 2 * texel_val as usize)
    } else {
        if texel_val == 3 {
            combine_colors5(c0, c1, 3, 5, 8)
        } else if texel_val == 2 {
            combine_colors5(c0, c1, 5, 3, 8)
        } else {
            pal_color_exec(vram, pal_offset + 2 * texel_val as usize)
        }
    }
}

/// The colour of texel `(s, t)` of the polygon's texture, read from the
/// texture and palette spaces of video memory in the polygon's format.
#[verifier::spinoff_prover]
#[verifier::rlimit(40)]
pub fn sample_texture(vram: &VRAM, polygon: &Polygon, s: usize, t: usize) -> (r: Option<Color>)
    requires
        vram_wf(*vram),
        texel_ok(*vram, *polygon, s as int, t as int),
    ensures
        r == texel_color(*vram, *polygon, s as int, t as int),
{
    let vram_offset = polygon.tex_params.vram_offset;
    let pal_offset = polygon.palette_base;
    proof {
        assert(0 <= t * polygon.tex_params.size_s <= t * polygon.tex_params.size_s + s);
    }
    let texel = t * polygon.tex_params.size_s + s;
    proof {
        lemma_mask_bounds();
    }
    match polygon.tex_params.format {
        TextureFormat::NoTexture => None,
        TextureFormat::A3I5 => {
            let byte = tex8_exec(vram, vram_offset + texel);
            Some(pal_color_exec(vram, pal_offset + 2 * (byte & 0x1F) as usize))
        },
        TextureFormat::Palette4 => {
            let byte = tex8_exec(vram, vram_offset + texel / 4);
            let palette_color = (byte >> ((2 * (texel % 4)) as u8)) & 0x3;
            Some(pal_color_exec(vram, pal_offset / 2 + 2 * palette_color as usize))
        },
        TextureFormat::Palette16 => {
            let byte = tex8_exec(vram, vram_offset + texel / 2);
            let palette_color = (byte >> ((4 * (texel % 2)) as u8)) & 0xF;
            Some(pal_color_exec(vram, pal_offset + 2 * palette_color as usize))
        },
        TextureFormat::Compressed => Some(compressed_texel(vram, polygon, s, t)),
        TextureFormat::A5I3 => {
            let byte = tex8_exec(vram, vram_offset + texel);
            Some(pal_color_exec(vram, pal_offset + 2 * (byte & 0x7) as usize))
        },
        TextureFormat::Palette256 => {
            let byte = tex8_exec(vram, vram_offset + texel);
            Some(pal_color_exec(vram, pal_offset + 2 * byte as usize))
        },
        TextureFormat::DirectColor => {
            let value = tex16_exec(vram, vram_offset + 2 * texel);
            let c = Color::from_u16(value);
            assert(c == color15(value));
            Some(c)
        },
    }
}

/// Whether the polygon's texture sizes are powers of two with their
/// logarithms recorded, as `TEXIMAGE_PARAM` sets them.
pub open spec fn tex_sizes_ok(p: Polygon) -> bool {
    &&& 3 <= p.tex_params.size_s_shift <= 10
    &&& 3 <= p.tex_params.size_t_shift <= 10
    &&& p.tex_params.size_s == 1usize << (p.tex_params.size_s_shift as usize)
    &&& p.tex_params.size_t == 1usize << (p.tex_params.size_t_shift as usize)
}

/// The texel coordinates of texture coordinates `(s, t)` of the polygon.
pub open spec fn texel_coords(p: Polygon, s: i32, t: i32) -> (int, int) {
    (
        wrapped_coord(s, p.tex_params.size_s as int, p.tex_params.repeat_s, p.tex_params.flip_s),
        wrapped_coord(t, p.tex_params.size_t as int, p.tex_params.repeat_t, p.tex_params.flip_t),
    )
}

/// The toon colour for a vertex colour: the toon table entry its red
/// component picks.
pub open spec fn toon_color(table: Seq<Color>, vert: Color) -> Color {
    table[(vert.r >> 3u8) as int]
}

/// The colour of a pixel of the polygon with vertex colour `vert` and
/// texture coordinates `(s, t)`: modulation blends the texel with the
/// vertex colour; toon polygons use highlight shading, or blend with the
/// toon colour; shadow polygons show the texel, or black.
pub open spec fn pixel_color(
    v: VRAM,
    p: Polygon,
    highlight_shading: bool,
    table: Seq<Color>,
    vert: Color,
    s: i32,
    t: i32,
) -> Color {
    let c = texel_coords(p, s, t);
    let tex = texel_color(v, p, c.0, c.1);
    match p.attrs.mode {
        PolygonMode::Modulation => blended(tex, vert, false),
        PolygonMode::Toon => if highlight_shading {
            blended(tex, vert, true)
        } else {
            blended(tex, toon_color(table, vert), false)
        },
        _ => match tex {
            Some(c) => c,
            None => Color { r: 0, g: 0, b: 0 },
        },
    }
}

/// Whether a pixel of the polygon can be coloured: decal polygons are not
/// drawn, the texel can be read, and highlight shading stays within six
/// bits.
pub open spec fn pixel_ok(v: VRAM, p: Polygon, highlight_shading: bool, vert: Color, s: i32, t: i32) -> bool {
    let c = texel_coords(p, s, t);
    &&& p.attrs.mode != PolygonMode::Decal
    &&& tex_sizes_ok(p)
    &&& texel_ok(v, p, c.0, c.1)
    &&& p.attrs.mode == PolygonMode::Toon && highlight_shading ==> blend_ok(
        texel_color(v, p, c.0, c.1),
        vert,
        true,
    )
}

/// Colours a pixel of the polygon from its vertex colour and texture
/// coordinates (with four fraction bits dropped).
pub fn blend_pixel(
    vram: &VRAM,
    polygon: &Polygon,
    highlight_shading: bool,
    toon_table: &[Color; 0x20],
    vert_color: Color,
    s: i32,
    t: i32,
) -> (r: Color)
    requires
        vram_wf(*vram),
        pixel_ok(*vram, *polygon, highlight_shading, vert_color, s, t),
    ensures
        r == pixel_color(*vram, *polygon, highlight_shading, toon_table@, vert_color, s, t),
{
    let ts = wrap_coord(
        s,
        polygon.tex_params.size_s,
        polygon.tex_params.size_s_shift,
        polygon.tex_params.repeat_s,
        polygon.tex_params.flip_s,
    );
    let tt = wrap_coord(
        t,
        polygon.tex_params.size_t,
        polygon.tex_params.size_t_shift,
        polygon.tex_params.repeat_t,
        polygon.tex_params.flip_t,
    );
    let tex_color = sample_texture(vram, polygon, ts, tt);
    match polygon.attrs.mode {
        PolygonMode::Modulation => blend_tex(tex_color, vert_color, false),
        PolygonMode::Toon => if highlight_shading {
            blend_tex(tex_color, vert_color, true)
        } else {
            proof {
                assert(forall|x: u8| #[trigger] (x >> 3u8) < 32) by (bit_vector);
            }
            let toon_color = toon_table[vert_color.r5() as usize];
            blend_tex(tex_color, toon_color, false)
        },
        _ => match tex_color {
            Some(c) => c,
            None => Color::new8(0, 0, 0),
        },
    }
}

impl Engine3D {
    /// The rendered frame.
    pub fn pixels(&self) -> (r: &Vec<u16>)
        ensures
            r@ == self.pixels@,
    {
        &self.pixels
    }

    /// Copies line `vcount` of the rendered frame.
    pub fn copy_line(&self, vcount: u16, line: &mut [u16; 256])
        requires
            self.pixels@.len() == WIDTH * HEIGHT,
            vcount < HEIGHT,
        ensures
            forall|i: int| 0 <= i < WIDTH ==> #[trigger] final(line)@[i] == self.pixels@[vcount * WIDTH + i],
    {
        let mut i: usize = 0;
        while i < WIDTH
            invariant
                self.pixels@.len() == WIDTH * HEIGHT,
                vcount < HEIGHT,
                i <= WIDTH,
                forall|k: int| 0 <= k < i ==> #[trigger] line@[k] == self.pixels@[vcount * WIDTH + k],
            decreases WIDTH - i,
        {
            line[i] = self.pixels[vcount as usize * WIDTH + i];
            i = i + 1;
        }
    }

    /// Starts rendering a frame if polygons were submitted: every pixel
    /// takes the clear colour and every depth the clear depth. Returns
    /// whether there is a frame to render.
    pub fn begin_render(&mut self) -> (r: bool)
        requires
            old(self).pixels@.len() == WIDTH * HEIGHT,
            old(self).depth_buffer@.len() == WIDTH * HEIGHT,
            old(self).clear_color.red < 32 && old(self).clear_color.green < 32 && old(self).clear_color.blue < 32,
            old(self).polygons_submitted ==> !old(self).frame_params.w_buffer,
        ensures
            r == old(self).polygons_submitted,
            !r ==> *final(self) == *old(self),
            r ==> {
                &&& final(self).pixels@ == Seq::new(
                    (WIDTH * HEIGHT) as nat,
                    |i: int| (old(self).clear_color.blue * 1024 + old(self).clear_color.green * 32
                        + old(self).clear_color.red) as u16,
                )
                &&& final(self).depth_buffer@ == Seq::new(
                    (WIDTH * HEIGHT) as nat,
                    |i: int| (old(self).clear_depth.depth * 0x200 + 0x1FF) as u32,
                )
                &&& *final(self) == (Engine3D {
                    pixels: final(self).pixels,
                    depth_buffer: final(self).depth_buffer,
                    ..*old(self)
                })
            },
    {
        if !self.polygons_submitted {
            return false;
        }
        let color = self.clear_color.color();
        let depth = self.clear_depth.depth();
        let mut pixels = Vec::new();
        let mut depths = Vec::new();
        let mut i: usize = 0;
        while i < WIDTH * HEIGHT
            invariant
                i <= WIDTH * HEIGHT,
                pixels@ == Seq::new(i as nat, |k: int| color),
                depths@ == Seq::new(i as nat, |k: int| depth),
            decreases WIDTH * HEIGHT - i,
        {
            pixels.push(color);
            depths.push(depth);
            i = i + 1;
        }
        self.pixels = pixels;
        self.depth_buffer = depths;
        true
    }

    /// Ends a frame: the engine is no longer busy, the vertices and
    /// polygons are consumed, and new ones can be submitted.
    pub fn finish_render(&mut self)
        ensures
            final(self).vertices@.len() == 0,
            final(self).polygons@.len() == 0,
            *final(self) == (Engine3D {
                gxstat: GXSTAT { geometry_engine_busy: false, ..old(self).gxstat },
                vertices: final(self).vertices,
                polygons: final(self).polygons,
                polygons_submitted: false,
                ..*old(self)
            }),
    {
        self.gxstat = GXSTAT { geometry_engine_busy: false, ..self.gxstat };
        self.vertices.clear();
        self.polygons.clear();
        self.polygons_submitted = false;
    }
}

} // verus!
