//! Pictures for a debugger: palettes drawn as grids of colored squares,
//! a block of tiles drawn side by side, and a background's whole map.
use vstd::prelude::*;
use crate::gpu::GPU;
use crate::engine2d::layers::{
    bg_byte, bg_limit, get_color_from_tile, obj_byte, obj_limit, tile_byte_addr, tile_color,
};
use crate::vram::{
    VRAM, vram_wf, slot_value, MAPPING_LEN, ENGINE_A_BG_EXT_PAL_SLOTS, ENGINE_B_BG_EXT_PAL_SLOTS,
    ENGINE_A_OBJ_EXT_PAL_SLOTS, ENGINE_B_OBJ_EXT_PAL_SLOTS,
};
use crate::engine2d::engine::{Engine2D, engine2d_wf};
use crate::engine2d::registers::{BGControl, BGMode};
use crate::engine2d::layers::vram_byte;
use crate::gpu::EngineType;

verus! {

/// The color of the dot at row `r`, column `c` of the palette picture: the
/// palette entry of its 8x8 square, opaque.
pub open spec fn palette_dot(colors: Seq<u16>, palettes_size: int, r: int, c: int) -> u16 {
    colors[(r / 8) * palettes_size + c / 8] | 0x8000
}

impl GPU {
    /// Draws `palettes_size` x `palettes_size` palette entries as 8x8
    /// squares, entry `k` at square row `k / palettes_size`, column
    /// `k % palettes_size`. Returns the dots, row by row, and the width and
    /// height.
    pub fn render_palettes(colors: &[u16], palettes_size: usize) -> (r: (Vec<u16>, usize, usize))
        requires
            colors@.len() >= palettes_size * palettes_size,
            palettes_size <= 0x1000,
        ensures
            r.1 == palettes_size * 8 && r.2 == palettes_size * 8,
            r.0@.len() == r.1 * r.2,
            forall|row: int, col: int|
                0 <= row < r.2 && 0 <= col < r.1 ==> #[trigger] r.0@[row * r.1 + col] == palette_dot(
                    colors@,
                    palettes_size as int,
                    row,
                    col,
                ),
    {
        let size = palettes_size * 8;
        let mut pixels: Vec<u16> = Vec::new();
        let mut row: usize = 0;
        while row < size
            invariant
                size == palettes_size * 8,
                palettes_size <= 0x1000,
                colors@.len() >= palettes_size * palettes_size,
                row <= size,
                pixels@.len() == row * size,
                forall|rr: int, cc: int|
                    0 <= rr < row && 0 <= cc < size ==> #[trigger] pixels@[rr * size + cc] == palette_dot(
                        colors@,
                        palettes_size as int,
                        rr,
                        cc,
                    ),
            decreases size - row,
        {
            let mut col: usize = 0;
            while col < size
                invariant
                    size == palettes_size * 8,
                    palettes_size <= 0x1000,
                    colors@.len() >= palettes_size * palettes_size,
                    row < size,
                    col <= size,
                    pixels@.len() == row * size + col,
                    forall|rr: int, cc: int|
                        (0 <= rr < row && 0 <= cc < size) || (rr == row && 0 <= cc < col) ==> #[trigger] pixels@[rr
                            * size + cc] == palette_dot(colors@, palettes_size as int, rr, cc),
                decreases size - col,
            {
                proof {
                    assert(row / 8 < palettes_size && col / 8 < palettes_size);
                    assert((row / 8) * palettes_size + col / 8 < palettes_size * palettes_size <= 0x100_0000)
                        by (nonlinear_arith)
                        requires
                            row / 8 < palettes_size,
                            col / 8 < palettes_size,
                            palettes_size <= 0x1000,
                    ;
                    assert(row * size + col < size * size) by (nonlinear_arith)
                        requires
                            row < size,
                            col < size,
                    ;
                }
                let k = (row / 8) * palettes_size + col / 8;
                pixels.push(colors[k] | 0x8000);
                proof {
                    assert forall|rr: int, cc: int|
                        (0 <= rr < row && 0 <= cc < size) || (rr == row && 0 <= cc < col + 1) implies #[trigger] pixels@[rr
                            * size + cc] == palette_dot(colors@, palettes_size as int, rr, cc) by {
                        if rr == row && cc == col {
                        } else {
                            assert(rr * size + cc < row * size + col) by (nonlinear_arith)
                                requires
                                    (0 <= rr < row && 0 <= cc < size) || (rr == row && 0 <= cc < col),
                            ;
                        }
                    }
                }
                col = col + 1;
            }
            proof {
                assert(row * size + size == (row + 1) * size) by (nonlinear_arith);
            }
            row = row + 1;
        }
        (pixels, size, size)
    }
}


/// Bits per dot of the tiles in a tile picture.
pub open spec fn tiles_depth(extended: bool, bpp8: bool) -> int {
    if bpp8 || extended {
        8
    } else {
        4
    }
}

/// The byte at `addr` of an engine's background or object space.
pub open spec fn space_byte(v: VRAM, is_a: bool, is_obj: bool, addr: int) -> u8 {
    if is_obj {
        obj_byte(v, is_a, addr)
    } else {
        bg_byte(v, is_a, addr)
    }
}

/// The size of an engine's background or object space.
pub open spec fn space_limit(is_a: bool, is_obj: bool) -> int {
    if is_obj {
        obj_limit(is_a)
    } else {
        bg_limit(is_a)
    }
}

/// The dot at row `r`, column `c` of the tile picture: the tiles of the
/// 128 KiB block `offset` of the space, 64 to a row, each dot's color
/// looked up in `colors` (transparent dots left 0).
pub open spec fn tile_dot(
    v: VRAM,
    is_a: bool,
    is_obj: bool,
    colors: Seq<u16>,
    offset: int,
    palette: int,
    extended: bool,
    bpp8: bool,
    r: int,
    c: int,
) -> u16 {
    let bd = tiles_depth(extended, bpp8);
    let addr = offset * 0x2_0000 + 8 * bd * ((r / 8) * 64 + c / 8);
    let tc = tile_color(
        space_byte(v, is_a, is_obj, tile_byte_addr(addr, false, false, bd, c % 8, r % 8)),
        false,
        bd,
        c % 8,
        palette,
    );
    if tc.1 == 0 {
        0
    } else {
        colors[if extended {
            palette * 16 + tc.1
        } else {
            tc.0 * 16 + tc.1
        }] | 0x8000
    }
}

/// The colors a tile picture may look up.
pub open spec fn tile_colors_needed(palette: int, extended: bool, bpp8: bool) -> int {
    if extended {
        palette * 16 + 256
    } else if bpp8 {
        256
    } else {
        palette * 16 + 16
    }
}

/// An address of a dot inside the picture's block lies inside the block.
proof fn lemma_tile_addr(offset: int, bd: int, r: int, c: int, height: int)
    requires
        bd == 4 || bd == 8,
        height == (if bd == 8 { 256int } else { 512int }),
        0 <= r < height,
        0 <= c < 512,
        offset >= 0,
    ensures
        offset * 0x2_0000 <= tile_byte_addr(offset * 0x2_0000 + 8 * bd * ((r / 8) * 64 + c / 8), false, false, bd, c % 8, r % 8)
            < offset * 0x2_0000 + 0x2_0000,
{
    let tn = (r / 8) * 64 + c / 8;
    assert(0 <= tn < height / 8 * 64);
    let x = c % 8;
    assert(0 <= x < 8);
    if bd == 8 {
        assert(8int / bd == 1);
        assert(x / 1 == x);
    } else {
        assert(8int / bd == 2);
        assert(0 <= x / 2 < 4);
    }
    assert(0 <= (c % 8) / (8int / bd) < bd);
    assert(8 * bd * tn + (r % 8) * bd + (c % 8) / (8int / bd) < 0x2_0000) by (nonlinear_arith)
        requires
            bd == 4 || bd == 8,
            0 <= tn < (if bd == 8 { 32int } else { 64int }) * 64,
            0 <= r % 8 < 8,
            0 <= c % 8 < 8,
            (c % 8) / (8int / bd) < bd,
    ;
    assert(0 <= 8 * bd * tn + (r % 8) * bd + (c % 8) / (8int / bd)) by (nonlinear_arith)
        requires
            bd == 4 || bd == 8,
            0 <= tn,
            0 <= r % 8,
            0 <= c % 8,
    ;
}

impl GPU {
    /// Draws the tiles of the 128 KiB block `offset` of an engine's
    /// background or object space, 64 to a row (4-bit tiles in 64 rows,
    /// 8-bit ones in 32), with the colors of `palette` (4-bit tiles, or
    /// any extended palette) or the plain 256 colors. Returns the dots,
    /// row by row, and the width and height.
    pub fn render_tiles(
        vram: &VRAM,
        is_a: bool,
        is_obj: bool,
        colors: &[u16],
        offset: usize,
        palette: usize,
        extended: bool,
        bpp8: bool,
    ) -> (r: (Vec<u16>, usize, usize))
        requires
            vram_wf(*vram),
            offset * 0x2_0000 + 0x2_0000 <= space_limit(is_a, is_obj),
            palette <= 0x1000,
            colors@.len() >= tile_colors_needed(palette as int, extended, bpp8),
        ensures
            r.1 == 512,
            r.2 == (if bpp8 || extended { 256usize } else { 512usize }),
            r.0@.len() == r.1 * r.2,
            forall|row: int, col: int|
                0 <= row < r.2 && 0 <= col < r.1 ==> #[trigger] r.0@[row * r.1 + col] == tile_dot(
                    *vram,
                    is_a,
                    is_obj,
                    colors@,
                    offset as int,
                    palette as int,
                    extended,
                    bpp8,
                    row,
                    col,
                ),
    {
        let bd: usize = if bpp8 || extended { 8 } else { 4 };
        let width: usize = 512;
        let height: usize = if bd == 8 { 256 } else { 512 };
        let start = offset * 0x2_0000;
        let mut pixels: Vec<u16> = Vec::new();
        let mut row: usize = 0;
        while row < height
            invariant
                bd == tiles_depth(extended, bpp8),
                width == 512,
                height == (if bd == 8 { 256usize } else { 512usize }),
                start == offset * 0x2_0000,
                start + 0x2_0000 <= space_limit(is_a, is_obj),
                vram_wf(*vram),
                palette <= 0x1000,
                colors@.len() >= tile_colors_needed(palette as int, extended, bpp8),
                row <= height,
                pixels@.len() == row * width,
                forall|rr: int, cc: int|
                    0 <= rr < row && 0 <= cc < width ==> #[trigger] pixels@[rr * width + cc] == tile_dot(
                        *vram,
                        is_a,
                        is_obj,
                        colors@,
                        offset as int,
                        palette as int,
                        extended,
                        bpp8,
                        rr,
                        cc,
                    ),
            decreases height - row,
        {
            let mut col: usize = 0;
            while col < width
                invariant
                    bd == tiles_depth(extended, bpp8),
                    width == 512,
                    height == (if bd == 8 { 256usize } else { 512usize }),
                    start == offset * 0x2_0000,
                    start + 0x2_0000 <= space_limit(is_a, is_obj),
                    vram_wf(*vram),
                    palette <= 0x1000,
                    colors@.len() >= tile_colors_needed(palette as int, extended, bpp8),
                    row < height,
                    col <= width,
                    pixels@.len() == row * width + col,
                    forall|rr: int, cc: int|
                        (0 <= rr < row && 0 <= cc < width) || (rr == row && 0 <= cc < col) ==> #[trigger] pixels@[rr
                            * width + cc] == tile_dot(
                            *vram,
                            is_a,
                            is_obj,
                            colors@,
                            offset as int,
                            palette as int,
                            extended,
                            bpp8,
                            rr,
                            cc,
                        ),
                decreases width - col,
            {
                proof {
                    lemma_tile_addr(offset as int, bd as int, row as int, col as int, height as int);
                    assert(row * width + col < width * height) by (nonlinear_arith)
                        requires
                            row < height,
                            col < width,
                    ;
                }
                let tn = (row / 8) * 64 + col / 8;
                let addr = start + 8 * bd * tn;
                let (pn, cn) = get_color_from_tile(vram, is_a, is_obj, addr, false, false, bd, col % 8, row % 8, palette);
                let dot: u16 = if cn == 0 {
                    0
                } else {
                    let k = if extended {
                        palette * 16 + cn
                    } else {
                        pn * 16 + cn
                    };
                    colors[k] | 0x8000
                };
                pixels.push(dot);
                proof {
                    assert forall|rr: int, cc: int|
                        (0 <= rr < row && 0 <= cc < width) || (rr == row && 0 <= cc < col + 1) implies #[trigger] pixels@[rr
                            * width + cc] == tile_dot(
                            *vram,
                            is_a,
                            is_obj,
                            colors@,
                            offset as int,
                            palette as int,
                            extended,
                            bpp8,
                            rr,
                            cc,
                        ) by {
                        if rr == row && cc == col {
                        } else {
                            assert(rr * width + cc < row * width + col) by (nonlinear_arith)
                                requires
                                    (0 <= rr < row && 0 <= cc < width) || (rr == row && 0 <= cc < col),
                            ;
                        }
                    }
                }
                col = col + 1;
            }
            proof {
                assert(row * width + width == (row + 1) * width) by (nonlinear_arith);
            }
            row = row + 1;
        }
        (pixels, width, height)
    }
}


/// The 4096 colors of an engine's extended palettes: those of background
/// slot `slot`, or the object ones.
pub open spec fn ext_colors(v: VRAM, is_a: bool, is_bg: bool, slot: int) -> Seq<u16> {
    Seq::new(
        0x1000,
        |i: int|
            if is_bg {
                slot_value(
                    v,
                    (if is_a { ENGINE_A_BG_EXT_PAL_SLOTS } else { ENGINE_B_BG_EXT_PAL_SLOTS }) + (slot
                        * 0x2000 + i * 2) / (MAPPING_LEN as int),
                    (slot * 0x2000 + i * 2) as usize,
                    2,
                    9,
                ) as u16
            } else {
                slot_value(
                    v,
                    (if is_a { ENGINE_A_OBJ_EXT_PAL_SLOTS } else { ENGINE_B_OBJ_EXT_PAL_SLOTS }) + (i * 2)
                        / (MAPPING_LEN as int),
                    (i * 2) as usize,
                    2,
                    9,
                ) as u16
            },
    )
}

/// The colors an engine's tile picture looks up: the extended palettes,
/// or the engine's background or object palette.
pub open spec fn picture_colors<E: EngineType>(e: Engine2D<E>, v: VRAM, is_bg: bool, extended: bool, slot: int) -> Seq<u16> {
    if extended {
        ext_colors(v, E::spec_is_a(), is_bg, slot)
    } else if is_bg {
        e.bg_palettes@
    } else {
        e.obj_palettes@
    }
}

impl<E: EngineType> Engine2D<E> {
    /// Draws the tiles of block `offset` of this engine's background (or
    /// object) space with its palettes, as `GPU::render_tiles` does.
    pub fn render_tiles(
        &self,
        vram: &VRAM,
        is_bg: bool,
        extended: bool,
        bpp8: bool,
        slot: usize,
        palette: usize,
        offset: usize,
    ) -> (r: (Vec<u16>, usize, usize))
        requires
            engine2d_wf(*self),
            vram_wf(*vram),
            is_bg && extended ==> slot < 4,
            offset * 0x2_0000 + 0x2_0000 <= space_limit(E::spec_is_a(), !is_bg),
            palette <= 0x1000,
            picture_colors(*self, *vram, is_bg, extended, slot as int).len() >= tile_colors_needed(
                palette as int,
                extended,
                bpp8,
            ),
        ensures
            r.1 == 512,
            r.2 == (if bpp8 || extended { 256usize } else { 512usize }),
            r.0@.len() == r.1 * r.2,
            forall|row: int, col: int|
                0 <= row < r.2 && 0 <= col < r.1 ==> #[trigger] r.0@[row * r.1 + col] == tile_dot(
                    *vram,
                    E::spec_is_a(),
                    !is_bg,
                    picture_colors(*self, *vram, is_bg, extended, slot as int),
                    offset as int,
                    palette as int,
                    extended,
                    bpp8,
                    row,
                    col,
                ),
    {
        let is_a = E::is_a();
        if extended {
            let mut colors: Vec<u16> = Vec::new();
            let mut i: usize = 0;
            while i < 0x1000
                invariant
                    i <= 0x1000,
                    vram_wf(*vram),
                    is_bg ==> slot < 4,
                    is_a == E::spec_is_a(),
                    colors@ == ext_colors(*vram, is_a, is_bg, slot as int).subrange(0, i as int),
                decreases 0x1000 - i,
            {
                let c = if is_bg {
                    vram.get_bg_ext_pal(is_a, slot, i)
                } else {
                    vram.get_obj_ext_pal(is_a, i)
                };
                colors.push(c);
                i = i + 1;
                assert(colors@ =~= ext_colors(*vram, is_a, is_bg, slot as int).subrange(0, i as int));
            }
            assert(colors@ =~= ext_colors(*vram, is_a, is_bg, slot as int));
            GPU::render_tiles(vram, is_a, !is_bg, &colors, offset, palette, extended, bpp8)
        } else if is_bg {
            GPU::render_tiles(vram, is_a, false, self.bg_palettes.as_slice(), offset, palette, extended, bpp8)
        } else {
            GPU::render_tiles(vram, is_a, true, self.obj_palettes.as_slice(), offset, palette, extended, bpp8)
        }
    }
}


/// Whether background `bg_i` is an affine (rotation and scaling) one in
/// mode `mode`.
pub open spec fn map_affine(mode: BGMode, bg_i: int) -> bool {
    match mode {
        BGMode::Mode1 => bg_i == 3,
        BGMode::Mode2 => bg_i >= 2,
        BGMode::Mode4 => bg_i == 2,
        _ => false,
    }
}

/// The width and height in dots of a background map of screen size
/// `size`.
pub open spec fn map_dims(size: u8, affine: bool) -> (int, int) {
    if size == 0 {
        if affine { (128, 128) } else { (256, 256) }
    } else if size == 1 {
        if affine { (256, 256) } else { (512, 256) }
    } else if size == 2 {
        if affine { (512, 512) } else { (256, 512) }
    } else {
        if affine { (1024, 1024) } else { (512, 512) }
    }
}

/// The offset of the 32x32 screen block holding map tile (`map_x`,
/// `map_y`) of a text background of screen size `size`.
pub open spec fn text_block(size: u8, map_x: int, map_y: int) -> int {
    let xo = (map_x / 32) % 2 == 1;
    let yo = (map_y / 32) % 2 == 1;
    if size == 0 {
        0
    } else if size == 1 {
        if xo { 0x800 } else { 0 }
    } else if size == 2 {
        if yo { 0x800 } else { 0 }
    } else if xo && yo {
        0x1800
    } else if yo {
        0x1000
    } else if xo {
        0x800
    } else {
        0
    }
}

/// The 16-bit value at `addr` of an engine's background space.
pub open spec fn bg_half(v: VRAM, is_a: bool, addr: int) -> int {
    slot_value(
        v,
        (if is_a { crate::vram::ENGINE_A_BG_SLOTS } else { crate::vram::ENGINE_B_BG_SLOTS }) + addr / (
        MAPPING_LEN as int),
        addr as usize,
        2,
        9,
    ) as int
}

/// Where background `bg_i`'s tiles and map start, its bits per dot, and
/// whether it is affine.
pub open spec fn map_layout<E: EngineType>(e: Engine2D<E>, bg_i: int) -> (int, int, int, bool) {
    let cnt = e.bgcnts@[bg_i];
    let affine = map_affine(e.dispcnt.bg_mode, bg_i);
    (
        e.dispcnt.char_base * 0x1_0000 + cnt.spec_tile_block() * 0x4000,
        e.dispcnt.screen_base * 0x1_0000 + cnt.spec_map_block() * 0x800,
        if cnt.spec_bpp8() || affine { 8 } else { 4 },
        affine,
    )
}

/// The map entry address of dot (`r`, `c`) of background `bg_i`.
pub open spec fn map_entry_addr<E: EngineType>(e: Engine2D<E>, bg_i: int, r: int, c: int) -> int {
    let (_ts, ms, _bd, affine) = map_layout(e, bg_i);
    let size = e.bgcnts@[bg_i].spec_screen_size();
    if affine {
        ms + (r / 8) * (map_dims(size, true).0 / 8) + c / 8
    } else {
        ms + text_block(size, c / 8, r / 8) + (r / 8) * 64 + (c / 8) * 2
    }
}

/// The tile, flips and palette of dot (`r`, `c`) of background `bg_i`.
pub open spec fn map_tile<E: EngineType>(e: Engine2D<E>, v: VRAM, bg_i: int, r: int, c: int) -> (int, bool, bool, int) {
    let (_ts, _ms, _bd, affine) = map_layout(e, bg_i);
    let addr = map_entry_addr(e, bg_i, r, c);
    if affine {
        (bg_byte(v, E::spec_is_a(), addr) as int, false, false, 0)
    } else {
        let entry = bg_half(v, E::spec_is_a(), addr);
        (entry % 0x400, (entry / 0x400) % 2 == 1, (entry / 0x800) % 2 == 1, (entry / 0x1000) % 16)
    }
}

/// The tile byte address of dot (`r`, `c`) of background `bg_i`.
pub open spec fn map_byte_addr<E: EngineType>(e: Engine2D<E>, v: VRAM, bg_i: int, r: int, c: int) -> int {
    let (ts, _ms, bd, _affine) = map_layout(e, bg_i);
    let t = map_tile(e, v, bg_i, r, c);
    tile_byte_addr(ts + 8 * bd * t.0, t.1, t.2, bd, c % 8, r % 8)
}

/// Whether drawing dot (`r`, `c`) of background `bg_i` reads inside the
/// engine's background space.
pub open spec fn map_dot_ok<E: EngineType>(e: Engine2D<E>, v: VRAM, bg_i: int, r: int, c: int) -> bool {
    &&& map_entry_addr(e, bg_i, r, c) + 1 < bg_limit(E::spec_is_a())
    &&& map_byte_addr(e, v, bg_i, r, c) < bg_limit(E::spec_is_a())
}

/// Dot (`r`, `c`) of the picture of background `bg_i`'s map: its tile's
/// color from the background palette, opaque, or 0 where transparent.
pub open spec fn map_dot<E: EngineType>(e: Engine2D<E>, v: VRAM, bg_i: int, r: int, c: int) -> u16 {
    let (_ts, _ms, bd, _affine) = map_layout(e, bg_i);
    let t = map_tile(e, v, bg_i, r, c);
    let tc = tile_color(bg_byte(v, E::spec_is_a(), map_byte_addr(e, v, bg_i, r, c)), t.1, bd, c % 8, t.3);
    if tc.1 == 0 {
        0
    } else {
        e.bg_palettes@[tc.0 * 16 + tc.1] | 0x8000
    }
}

impl<E: EngineType> Engine2D<E> {
    /// The tile, flips and palette of dot (`r`, `c`) of background `bg_i`.
    #[verifier::spinoff_prover]
    fn map_tile_exec(&self, vram: &VRAM, bg_i: usize, r: usize, c: usize) -> (t: (usize, bool, bool, usize))
        requires
            engine2d_wf(*self),
            vram_wf(*vram),
            bg_i < 4,
            r < 1024,
            c < 1024,
            map_dot_ok(*self, *vram, bg_i as int, r as int, c as int),
        ensures
            (t.0 as int, t.1, t.2, t.3 as int) == map_tile(*self, *vram, bg_i as int, r as int, c as int),
            t.0 < 0x400,
            t.3 < 16,
    {
        let is_a = E::is_a();
        let cnt = self.bgcnts[bg_i];
        let affine = match self.dispcnt.bg_mode {
            BGMode::Mode1 => bg_i == 3,
            BGMode::Mode2 => bg_i >= 2,
            BGMode::Mode4 => bg_i == 2,
            _ => false,
        };
        let size = cnt.screen_size();
        let ms = self.calc_map_start_addr(&cnt);
        let map_x = c / 8;
        let map_y = r / 8;
        if affine {
            let w: usize = if size == 0 { 128 } else if size == 1 { 256 } else if size == 2 { 512 } else { 1024 };
            let addr = ms + map_y * (w / 8) + map_x;
            let t = vram_byte(vram, is_a, false, addr) as usize;
            (t, false, false, 0usize)
        } else {
            let xo = (map_x / 32) % 2 == 1;
            let yo = (map_y / 32) % 2 == 1;
            let block: usize = if size == 0 {
                0
            } else if size == 1 {
                if xo { 0x800 } else { 0 }
            } else if size == 2 {
                if yo { 0x800 } else { 0 }
            } else if xo && yo {
                0x1800
            } else if yo {
                0x1000
            } else if xo {
                0x800
            } else {
                0
            };
            let addr = ms + block + map_y * 64 + map_x * 2;
            assert(addr % 2 == 0);
            let entry = vram.get_bg(is_a, addr, 2) as usize;
            (entry % 0x400, (entry / 0x400) % 2 == 1, (entry / 0x800) % 2 == 1, (entry / 0x1000) % 16)
        }
    }

    /// Dot (`r`, `c`) of the picture of background `bg_i`'s map.
    #[verifier::spinoff_prover]
    fn map_dot_exec(&self, vram: &VRAM, bg_i: usize, r: usize, c: usize) -> (d: u16)
        requires
            engine2d_wf(*self),
            vram_wf(*vram),
            bg_i < 4,
            r < 1024,
            c < 1024,
            map_dot_ok(*self, *vram, bg_i as int, r as int, c as int),
        ensures
            d == map_dot(*self, *vram, bg_i as int, r as int, c as int),
    {
        let is_a = E::is_a();
        let cnt = self.bgcnts[bg_i];
        let affine = match self.dispcnt.bg_mode {
            BGMode::Mode1 => bg_i == 3,
            BGMode::Mode2 => bg_i >= 2,
            BGMode::Mode4 => bg_i == 2,
            _ => false,
        };
        let ts = self.calc_tile_start_addr(&cnt);
        let bd: usize = if cnt.bpp8() || affine { 8 } else { 4 };
        let (tile_num, flip_x, flip_y, pal) = self.map_tile_exec(vram, bg_i, r, c);
        assert(ts < 0x50_0000);
        assert(ts + 8 * bd * tile_num < 0x100_0000) by (nonlinear_arith)
            requires
                ts < 0x50_0000,
                bd <= 8,
                tile_num < 0x400,
        ;
        let base = ts + 8 * bd * tile_num;
        let (pn, cn) = get_color_from_tile(vram, is_a, false, base, flip_x, flip_y, bd, c % 8, r % 8, pal);
        if cn == 0 {
            0
        } else {
            self.bg_palettes[pn * 16 + cn] | 0x8000
        }
    }

    /// Draws background `bg_i`'s whole map with the background palette.
    /// Returns the dots, row by row, and the width and height.
    pub fn render_map(&self, vram: &VRAM, bg_i: usize) -> (r: (Vec<u16>, usize, usize))
        requires
            engine2d_wf(*self),
            vram_wf(*vram),
            bg_i < 4,
            forall|row: int, col: int|
                0 <= row < map_dims(
                    self.bgcnts@[bg_i as int].spec_screen_size(),
                    map_affine(self.dispcnt.bg_mode, bg_i as int),
                ).1 && 0 <= col < map_dims(
                    self.bgcnts@[bg_i as int].spec_screen_size(),
                    map_affine(self.dispcnt.bg_mode, bg_i as int),
                ).0 ==> #[trigger] map_dot_ok(*self, *vram, bg_i as int, row, col),
        ensures
            (r.1 as int, r.2 as int) == map_dims(
                self.bgcnts@[bg_i as int].spec_screen_size(),
                map_affine(self.dispcnt.bg_mode, bg_i as int),
            ),
            r.0@.len() == r.1 * r.2,
            forall|row: int, col: int|
                0 <= row < r.2 && 0 <= col < r.1 ==> #[trigger] r.0@[row * r.1 + col] == map_dot(
                    *self,
                    *vram,
                    bg_i as int,
                    row,
                    col,
                ),
    {
        let cnt = self.bgcnts[bg_i];
        let affine = match self.dispcnt.bg_mode {
            BGMode::Mode1 => bg_i == 3,
            BGMode::Mode2 => bg_i >= 2,
            BGMode::Mode4 => bg_i == 2,
            _ => false,
        };
        let size = cnt.screen_size();
        let (width, height): (usize, usize) = if size == 0 {
            if affine { (128, 128) } else { (256, 256) }
        } else if size == 1 {
            if affine { (256, 256) } else { (512, 256) }
        } else if size == 2 {
            if affine { (512, 512) } else { (256, 512) }
        } else {
            if affine { (1024, 1024) } else { (512, 512) }
        };
        let mut pixels: Vec<u16> = Vec::new();
        let mut row: usize = 0;
        while row < height
            invariant
                engine2d_wf(*self),
                vram_wf(*vram),
                bg_i < 4,
                (width as int, height as int) == map_dims(
                    self.bgcnts@[bg_i as int].spec_screen_size(),
                    map_affine(self.dispcnt.bg_mode, bg_i as int),
                ),
                width <= 1024 && height <= 1024,
                forall|rr: int, cc: int|
                    0 <= rr < height && 0 <= cc < width ==> #[trigger] map_dot_ok(*self, *vram, bg_i as int, rr, cc),
                row <= height,
                pixels@.len() == row * width,
                forall|rr: int, cc: int|
                    0 <= rr < row && 0 <= cc < width ==> #[trigger] pixels@[rr * width + cc] == map_dot(
                        *self,
                        *vram,
                        bg_i as int,
                        rr,
                        cc,
                    ),
            decreases height - row,
        {
            let mut col: usize = 0;
            while col < width
                invariant
                    engine2d_wf(*self),
                    vram_wf(*vram),
                    bg_i < 4,
                    width <= 1024 && height <= 1024,
                    forall|rr: int, cc: int|
                        0 <= rr < height && 0 <= cc < width ==> #[trigger] map_dot_ok(*self, *vram, bg_i as int, rr, cc),
                    row < height,
                    col <= width,
                    pixels@.len() == row * width + col,
                    forall|rr: int, cc: int|
                        (0 <= rr < row && 0 <= cc < width) || (rr == row && 0 <= cc < col) ==> #[trigger] pixels@[rr
                            * width + cc] == map_dot(*self, *vram, bg_i as int, rr, cc),
                decreases width - col,
            {
                proof {
                    assert(map_dot_ok(*self, *vram, bg_i as int, row as int, col as int));
                    assert(row * width + col < 1024 * 1024) by (nonlinear_arith)
                        requires
                            row < height <= 1024,
                            col < width <= 1024,
                    ;
                }
                let d = self.map_dot_exec(vram, bg_i, row, col);
                pixels.push(d);
                proof {
                    assert forall|rr: int, cc: int|
                        (0 <= rr < row && 0 <= cc < width) || (rr == row && 0 <= cc < col + 1) implies #[trigger] pixels@[rr
                            * width + cc] == map_dot(*self, *vram, bg_i as int, rr, cc) by {
                        if rr == row && cc == col {
                        } else {
                            assert(rr * width + cc < row * width + col) by (nonlinear_arith)
                                requires
                                    (0 <= rr < row && 0 <= cc < width) || (rr == row && 0 <= cc < col),
                            ;
                        }
                    }
                }
                col = col + 1;
            }
            proof {
                assert(row * width + width == (row + 1) * width) by (nonlinear_arith);
            }
            row = row + 1;
        }
        (pixels, width, height)
    }
}

} // verus!
