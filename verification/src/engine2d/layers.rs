//! Drawing the layers of a line: the windows and the text backgrounds,
//! each dot as a function of the registers and of VRAM.
use vstd::prelude::*;
use crate::bits::lemma_mask_bounds;
use crate::engine2d::engine::{
    Engine2D, OBJPixel, TRANSPARENT_COLOR, WIDTH, engine2d_wf, PALETTE_SIZE,
};
use crate::engine2d::registers::{BGControl, ReferencePointCoord, BG_EXTENDED_PALETTES};
use crate::gpu::EngineType;
use crate::vram::{
    VRAM, vram_wf, slot_value, MAPPING_LEN, ENGINE_A_BG_SLOTS, ENGINE_B_BG_SLOTS, ENGINE_A_OBJ_SLOTS,
    ENGINE_B_OBJ_SLOTS, ENGINE_A_BG_EXT_PAL_SLOTS, ENGINE_B_BG_EXT_PAL_SLOTS,
};

verus! {

/// The buffers that drawing a line works on: the background lines, the
/// object line, the window lines, the affine reference point latches,
/// and the picture.
pub type LineBuffers = (
    Seq<u16>,
    Seq<OBJPixel>,
    Seq<bool>,
    Seq<ReferencePointCoord>,
    Seq<ReferencePointCoord>,
    Seq<u16>,
);

/// An engine's line buffers.
pub open spec fn buffers_of<E: EngineType>(e: Engine2D<E>) -> LineBuffers {
    (e.bg_lines@, e.objs_line@, e.windows_lines@, e.bgxs_latch@, e.bgys_latch@, e.pixels@)
}

/// Whether `a` and `b` have the same registers and memories, line
/// buffers aside.
pub open spec fn regs_same<E: EngineType>(a: Engine2D<E>, b: Engine2D<E>) -> bool {
    &&& a.dispcnt == b.dispcnt
    &&& a.bgcnts == b.bgcnts
    &&& a.hofs == b.hofs
    &&& a.vofs == b.vofs
    &&& a.dxs == b.dxs
    &&& a.dmxs == b.dmxs
    &&& a.dys == b.dys
    &&& a.dmys == b.dmys
    &&& a.bgxs == b.bgxs
    &&& a.bgys == b.bgys
    &&& a.mosaic == b.mosaic
    &&& a.master_bright == b.master_bright
    &&& a.winhs == b.winhs
    &&& a.winvs == b.winvs
    &&& a.win_0_cnt == b.win_0_cnt
    &&& a.win_1_cnt == b.win_1_cnt
    &&& a.win_out_cnt == b.win_out_cnt
    &&& a.win_obj_cnt == b.win_obj_cnt
    &&& a.bldcnt == b.bldcnt
    &&& a.bldalpha == b.bldalpha
    &&& a.bldy == b.bldy
    &&& a.bg_palettes@ == b.bg_palettes@
    &&& a.obj_palettes@ == b.obj_palettes@
    &&& a.oam@ == b.oam@
}

/// Whether dot `x` of line `vcount` is inside window `wi`: both edges
/// wrap when the near one is past the far one, and only the low 8 bits of
/// the line count.
pub open spec fn in_window<E: EngineType>(e: Engine2D<E>, vcount: u16, wi: int, x: int) -> bool {
    let y1 = e.winvs@[wi].coord1;
    let y2 = e.winvs@[wi].coord2;
    let v = vcount as u8;
    let y_out = if y1 > y2 {
        v < y1 && v >= y2
    } else {
        !(y1 <= v && v < y2)
    };
    if y_out {
        false
    } else {
        let x1 = e.winhs@[wi].coord1 as int;
        let x2 = e.winhs@[wi].coord2 as int;
        if x1 > x2 {
            x >= x1 || x < x2
        } else {
            x1 <= x < x2
        }
    }
}

/// Row `row` of a buffer of lines replaced by `f`.
pub open spec fn with_row<T>(s: Seq<T>, row: int, f: spec_fn(int) -> T) -> Seq<T> {
    Seq::new(s.len(), |j: int| if row * WIDTH <= j < row * WIDTH + WIDTH { f(j - row * WIDTH) } else { s[j] })
}

/// The buffers after drawing window `wi` of line `vcount`.
pub open spec fn window_step<E: EngineType>(e: Engine2D<E>, b: LineBuffers, vcount: u16, wi: int) -> LineBuffers {
    (b.0, b.1, with_row(b.2, wi, |x: int| in_window(e, vcount, wi, x)), b.3, b.4, b.5)
}

/// The size of a 2D engine's background space.
pub open spec fn bg_limit(is_a: bool) -> int {
    if is_a {
        0x8_0000
    } else {
        0x2_0000
    }
}

/// The size of a 2D engine's object space.
pub open spec fn obj_limit(is_a: bool) -> int {
    if is_a {
        0x4_0000
    } else {
        0x2_0000
    }
}

/// The byte at `addr` of an engine's background space.
pub open spec fn bg_byte(v: VRAM, is_a: bool, addr: int) -> u8 {
    slot_value(
        v,
        (if is_a { ENGINE_A_BG_SLOTS } else { ENGINE_B_BG_SLOTS }) + addr / (MAPPING_LEN as int),
        addr as usize,
        1,
        9,
    ) as u8
}

/// The byte at `addr` of an engine's object space.
pub open spec fn obj_byte(v: VRAM, is_a: bool, addr: int) -> u8 {
    slot_value(
        v,
        (if is_a { ENGINE_A_OBJ_SLOTS } else { ENGINE_B_OBJ_SLOTS }) + addr / (MAPPING_LEN as int),
        addr as usize,
        1,
        9,
    ) as u8
}

/// Color `color_num` of extended background palette `slot`.
pub open spec fn bg_ext_color(v: VRAM, is_a: bool, slot: int, color_num: int) -> u16 {
    slot_value(
        v,
        (if is_a { ENGINE_A_BG_EXT_PAL_SLOTS } else { ENGINE_B_BG_EXT_PAL_SLOTS }) + (slot * 0x2000
            + color_num * 2) / (MAPPING_LEN as int),
        (slot * 0x2000 + color_num * 2) as usize,
        2,
        9,
    ) as u16
}

/// Reads the byte at `addr` of the background space (or of the object
/// space, for `is_obj`).
pub fn vram_byte(vram: &VRAM, is_a: bool, is_obj: bool, addr: usize) -> (r: u8)
    requires
        vram_wf(*vram),
        addr < if is_obj {
            obj_limit(is_a)
        } else {
            bg_limit(is_a)
        },
    ensures
        r == if is_obj {
            obj_byte(*vram, is_a, addr as int)
        } else {
            bg_byte(*vram, is_a, addr as int)
        },
{
    if is_obj {
        vram.get_obj(is_a, addr, 1) as u8
    } else {
        vram.get_bg(is_a, addr, 1) as u8
    }
}

/// Where in a tile of `bit_depth` bits per dot the byte holding dot
/// (`tile_x`, `tile_y`) is, after the flips.
pub open spec fn tile_byte_addr(addr: int, flip_x: bool, flip_y: bool, bit_depth: int, tile_x: int, tile_y: int) -> int {
    let tx = if flip_x {
        7 - tile_x
    } else {
        tile_x
    };
    let ty = if flip_y {
        7 - tile_y
    } else {
        tile_y
    };
    addr + ty * bit_depth + tx / (8int / bit_depth)
}

/// The palette and color number of a dot of a tile, given the tile's
/// byte there: 8-bit tiles use palette 0 and the byte; 4-bit tiles the
/// given palette and a nibble.
pub open spec fn tile_color(tile: u8, flip_x: bool, bit_depth: int, tile_x: int, palette_num: int) -> (int, int) {
    let tx = if flip_x {
        7 - tile_x
    } else {
        tile_x
    };
    if bit_depth == 8 {
        (0, tile as int)
    } else {
        (palette_num, ((tile as usize >> (4 * (tx % 2)) as usize) & 0xF) as int)
    }
}

/// The palette and color number of dot (`tile_x`, `tile_y`) of the tile
/// at `addr`.
pub fn get_color_from_tile(
    vram: &VRAM,
    is_a: bool,
    is_obj: bool,
    addr: usize,
    flip_x: bool,
    flip_y: bool,
    bit_depth: usize,
    tile_x: usize,
    tile_y: usize,
    palette_num: usize,
) -> (r: (usize, usize))
    requires
        vram_wf(*vram),
        bit_depth == 4 || bit_depth == 8,
        tile_x < 8,
        tile_y < 8,
        tile_byte_addr(addr as int, flip_x, flip_y, bit_depth as int, tile_x as int, tile_y as int) < if is_obj {
            obj_limit(is_a)
        } else {
            bg_limit(is_a)
        },
    ensures
        (r.0 as int, r.1 as int) == tile_color(
            if is_obj {
                obj_byte(
                    *vram,
                    is_a,
                    tile_byte_addr(addr as int, flip_x, flip_y, bit_depth as int, tile_x as int, tile_y as int),
                )
            } else {
                bg_byte(
                    *vram,
                    is_a,
                    tile_byte_addr(addr as int, flip_x, flip_y, bit_depth as int, tile_x as int, tile_y as int),
                )
            },
            flip_x,
            bit_depth as int,
            tile_x as int,
            palette_num as int,
        ),
        r.1 < 256,
        bit_depth == 4 ==> r.1 < 16 && r.0 == palette_num,
        bit_depth == 8 ==> r.0 == 0,
{
    let tx = if flip_x {
        7 - tile_x
    } else {
        tile_x
    };
    let ty = if flip_y {
        7 - tile_y
    } else {
        tile_y
    };
    assert(ty * bit_depth <= 56) by (nonlinear_arith)
        requires
            ty < 8,
            bit_depth <= 8,
    ;
    let per_byte: usize = if bit_depth == 8 {
        1
    } else {
        2
    };
    assert(per_byte == 8int / (bit_depth as int)) by {
        if bit_depth == 8 {
            assert(8int / 8int == 1);
        } else {
            assert(8int / 4int == 2);
        }
    }
    let tile = vram_byte(vram, is_a, is_obj, addr + ty * bit_depth + tx / per_byte) as usize;
    if bit_depth == 8 {
        (0, tile)
    } else {
        proof {
            lemma_mask_bounds();
        }
        (palette_num, (tile >> (4 * (tx % 2))) & 0xF)
    }
}

/// Where the tiles of background `c` start.
pub open spec fn tile_start<E: EngineType>(e: Engine2D<E>, c: BGControl) -> int {
    e.dispcnt.char_base * 0x1_0000 + c.spec_tile_block() * 0x4000
}

/// Where the map of background `c` starts.
pub open spec fn map_start<E: EngineType>(e: Engine2D<E>, c: BGControl) -> int {
    e.dispcnt.screen_base * 0x1_0000 + c.spec_map_block() * 0x800
}

/// Bits per dot of background `c`'s tiles.
pub open spec fn bg_bit_depth(c: BGControl) -> int {
    if c.spec_bpp8() {
        8
    } else {
        4
    }
}

/// Dot `x` of line `vcount` of text background `bg`, in background
/// coordinates.
pub open spec fn text_x<E: EngineType>(e: Engine2D<E>, bg: int, x: int) -> int {
    x + e.hofs@[bg].spec_offset()
}

pub open spec fn text_y<E: EngineType>(e: Engine2D<E>, vcount: u16, bg: int) -> int {
    vcount + e.vofs@[bg].spec_offset()
}

/// The address of the map entry under dot `x` of text background `bg`:
/// maps wider or taller than 256 dots are laid out as 2K screens side by
/// side, then below.
pub open spec fn text_map_addr<E: EngineType>(e: Engine2D<E>, vcount: u16, bg: int, x: int) -> int {
    let c = e.bgcnts@[bg];
    let map_x = text_x(e, bg, x) / 8;
    let map_y = text_y(e, vcount, bg) / 8;
    let x_over = (map_x / 32) % 2 == 1;
    let y_over = (map_y / 32) % 2 == 1;
    let screen = if c.spec_screen_size() == 0 {
        0
    } else if c.spec_screen_size() == 1 {
        if x_over {
            0x800
        } else {
            0
        }
    } else if c.spec_screen_size() == 2 {
        if y_over {
            0x800
        } else {
            0
        }
    } else if x_over && y_over {
        0x800 * 3
    } else if y_over {
        0x800 * 2
    } else if x_over {
        0x800
    } else {
        0
    };
    map_start(e, c) + screen + (map_y % 32) * 32 * 2 + (map_x % 32) * 2
}

/// The map entry under dot `x` of text background `bg`.
pub open spec fn text_entry<E: EngineType>(e: Engine2D<E>, v: VRAM, vcount: u16, bg: int, x: int) -> usize {
    let addr = text_map_addr(e, vcount, bg, x);
    (bg_byte(v, E::spec_is_a(), addr) as u16 | ((bg_byte(v, E::spec_is_a(), addr + 1) as u16) << 8u16)) as usize
}

/// The address of the tile the map entry under dot `x` names.
pub open spec fn text_tile_addr<E: EngineType>(e: Engine2D<E>, v: VRAM, vcount: u16, bg: int, x: int) -> int {
    let c = e.bgcnts@[bg];
    tile_start(e, c) + 8 * bg_bit_depth(c) * (text_entry(e, v, vcount, bg, x) & 0x3FF) as int
}

/// Whether the entry's horizontal and vertical flips are set, and its
/// palette.
pub open spec fn entry_flip_x(se: usize) -> bool {
    (se >> 10usize) & 0x1 != 0
}

pub open spec fn entry_flip_y(se: usize) -> bool {
    (se >> 11usize) & 0x1 != 0
}

pub open spec fn entry_palette(se: usize) -> int {
    ((se >> 12usize) & 0xF) as int
}

/// Whether drawing dot `x` of text background `bg` stays inside the
/// background space.
pub open spec fn text_dot_ok<E: EngineType>(e: Engine2D<E>, v: VRAM, vcount: u16, bg: int, x: int) -> bool {
    let c = e.bgcnts@[bg];
    let se = text_entry(e, v, vcount, bg, x);
    &&& text_map_addr(e, vcount, bg, x) + 1 < bg_limit(E::spec_is_a())
    &&& tile_byte_addr(
        text_tile_addr(e, v, vcount, bg, x),
        entry_flip_x(se),
        entry_flip_y(se),
        bg_bit_depth(c),
        text_x(e, bg, x) % 8,
        text_y(e, vcount, bg) % 8,
    ) < bg_limit(E::spec_is_a())
}

/// Dot `x` of line `vcount` of text background `bg`: the color of the
/// tile dot under it, transparent for color 0; 256-color tiles use the
/// extended palettes where those are on (backgrounds 0 and 1 may use
/// slots 2 and 3).
pub open spec fn text_dot<E: EngineType>(e: Engine2D<E>, v: VRAM, vcount: u16, bg: int, x: int) -> u16 {
    let c = e.bgcnts@[bg];
    let se = text_entry(e, v, vcount, bg, x);
    let tx = text_x(e, bg, x) % 8;
    let ty = text_y(e, vcount, bg) % 8;
    let tile = bg_byte(
        v,
        E::spec_is_a(),
        tile_byte_addr(
            text_tile_addr(e, v, vcount, bg, x),
            entry_flip_x(se),
            entry_flip_y(se),
            bg_bit_depth(c),
            tx,
            ty,
        ),
    );
    let (palette_num, color_num) = tile_color(tile, entry_flip_x(se), bg_bit_depth(c), tx, entry_palette(se));
    if color_num == 0 {
        TRANSPARENT_COLOR
    } else if c.spec_bpp8() && e.dispcnt.flags & BG_EXTENDED_PALETTES == BG_EXTENDED_PALETTES {
        let slot = if bg < 2 && c.spec_wrap() {
            bg + 2
        } else {
            bg
        };
        bg_ext_color(v, E::spec_is_a(), slot, color_num)
    } else {
        e.bg_palettes@[palette_num * 16 + color_num]
    }
}

/// The buffers after drawing text background `bg` on line `vcount`.
pub open spec fn text_step<E: EngineType>(e: Engine2D<E>, v: VRAM, b: LineBuffers, vcount: u16, bg: int) -> LineBuffers {
    (with_row(b.0, bg, |x: int| text_dot(e, v, vcount, bg, x)), b.1, b.2, b.3, b.4, b.5)
}

/// A reference point moved `k` times by `d`, wrapping.
pub open spec fn affine_coord(start: i32, d: i16, k: nat) -> i32
    decreases k,
{
    if k == 0 {
        start
    } else {
        vstd::wrapping::i32_specs::wrapping_add(affine_coord(start, d, (k - 1) as nat), d as i32)
    }
}

/// The side of an affine background in dots: 128 to 1024.
pub open spec fn affine_map_size(c: BGControl) -> int {
    let ss = c.spec_screen_size();
    if ss == 0 {
        128
    } else if ss == 1 {
        256
    } else if ss == 2 {
        512
    } else {
        1024
    }
}

/// The remainder of `a` by `m` with the sign of `a`.
pub open spec fn trunc_rem(a: int, m: int) -> int {
    if a >= 0 {
        a % m
    } else {
        -((-a) % m)
    }
}

/// Whether the point (`xr`, `yr`) is outside an affine map of side
/// `size`.
pub open spec fn affine_outside(xr: i32, yr: i32, size: int) -> bool {
    xr < 0 || xr > size || yr < 0 || yr > size
}

/// The dot coordinates on the map for the point (`xr`, `yr`): wrapped by
/// a truncating remainder when outside.
pub open spec fn affine_dot_x(xr: i32, yr: i32, size: int) -> usize {
    if affine_outside(xr, yr, size) {
        trunc_rem(xr as int, size) as usize
    } else {
        xr as usize
    }
}

pub open spec fn affine_dot_y(xr: i32, yr: i32, size: int) -> usize {
    if affine_outside(xr, yr, size) {
        trunc_rem(yr as int, size) as usize
    } else {
        yr as usize
    }
}

/// The mosaic block size for background `c`.
pub open spec fn bg_mosaic_x<E: EngineType>(e: Engine2D<E>, c: BGControl) -> int {
    if c.spec_mosaic() {
        e.mosaic.bg_size.h_size as int
    } else {
        1
    }
}

pub open spec fn bg_mosaic_y<E: EngineType>(e: Engine2D<E>, c: BGControl) -> int {
    if c.spec_mosaic() {
        e.mosaic.bg_size.v_size as int
    } else {
        1
    }
}

/// The map byte address for the point (`xr`, `yr`) of affine background
/// `bg`.
pub open spec fn affine_map_addr<E: EngineType>(e: Engine2D<E>, bg: int, xr: i32, yr: i32) -> int {
    let c = e.bgcnts@[bg];
    let size = affine_map_size(c);
    let x = affine_dot_x(xr, yr, size) as int;
    let y = affine_dot_y(xr, yr, size) as int;
    let map_x = (x / bg_mosaic_x(e, c) * bg_mosaic_x(e, c) / 8) % (size / 8);
    let map_y = (y / bg_mosaic_y(e, c) * bg_mosaic_y(e, c) / 8) % (size / 8);
    map_start(e, c) + map_y * size / 8 + map_x
}

/// The tile byte address for the point (`xr`, `yr`) of affine background
/// `bg`, given the tile number there.
pub open spec fn affine_tile_byte<E: EngineType>(e: Engine2D<E>, bg: int, xr: i32, yr: i32, tile_num: u8) -> int {
    let c = e.bgcnts@[bg];
    let size = affine_map_size(c);
    tile_byte_addr(
        tile_start(e, c) + 8 * bg_bit_depth(c) + tile_num,
        false,
        false,
        bg_bit_depth(c),
        (affine_dot_x(xr, yr, size) % 8) as int,
        (affine_dot_y(xr, yr, size) % 8) as int,
    )
}

/// Whether the point (`xr`, `yr`) of affine background `bg` draws from
/// the map, rather than transparent.
pub open spec fn affine_draws<E: EngineType>(e: Engine2D<E>, bg: int, xr: i32, yr: i32) -> bool {
    !affine_outside(xr, yr, affine_map_size(e.bgcnts@[bg])) || e.bgcnts@[bg].spec_wrap()
}

/// Whether drawing the point (`xr`, `yr`) of affine background `bg`
/// stays inside the background space.
pub open spec fn affine_point_ok<E: EngineType>(e: Engine2D<E>, v: VRAM, bg: int, xr: i32, yr: i32) -> bool {
    affine_draws(e, bg, xr, yr) ==> {
        &&& affine_map_addr(e, bg, xr, yr) < bg_limit(E::spec_is_a())
        &&& affine_tile_byte(e, bg, xr, yr, bg_byte(v, E::spec_is_a(), affine_map_addr(e, bg, xr, yr)))
            < bg_limit(E::spec_is_a())
    }
}

/// The color of the point (`xr`, `yr`) of affine background `bg`:
/// transparent outside the map unless it wraps, and for color 0.
pub open spec fn affine_point<E: EngineType>(e: Engine2D<E>, v: VRAM, bg: int, xr: i32, yr: i32) -> u16 {
    if !affine_draws(e, bg, xr, yr) {
        TRANSPARENT_COLOR
    } else {
        let c = e.bgcnts@[bg];
        let size = affine_map_size(c);
        let tile_num = bg_byte(v, E::spec_is_a(), affine_map_addr(e, bg, xr, yr));
        let tile = bg_byte(v, E::spec_is_a(), affine_tile_byte(e, bg, xr, yr, tile_num));
        let color_num = tile_color(tile, false, bg_bit_depth(c), (affine_dot_x(xr, yr, size) % 8) as int, 0).1;
        if color_num == 0 {
            TRANSPARENT_COLOR
        } else {
            e.bg_palettes@[color_num]
        }
    }
}

/// The point of affine background `bg` under dot `x` of the line: the
/// latched reference point moved `x` times by the per-dot steps.
pub open spec fn affine_xr<E: EngineType>(e: Engine2D<E>, b: LineBuffers, bg: int, x: int) -> i32 {
    affine_coord(b.3[bg - 2].value, e.dxs@[bg - 2].value, x as nat) >> 8i32
}

pub open spec fn affine_yr<E: EngineType>(e: Engine2D<E>, b: LineBuffers, bg: int, x: int) -> i32 {
    affine_coord(b.4[bg - 2].value, e.dys@[bg - 2].value, x as nat) >> 8i32
}

/// Whether drawing affine background `bg` on the line stays inside the
/// background space.
pub open spec fn affine_line_ok<E: EngineType>(e: Engine2D<E>, v: VRAM, b: LineBuffers, bg: int) -> bool {
    forall|x: int| 0 <= x < WIDTH ==> affine_point_ok(e, v, bg, #[trigger] affine_xr(e, b, bg, x), affine_yr(e, b, bg, x))
}

/// The buffers after drawing affine background `bg`: its line, and its
/// latched reference point moved by the per-line steps.
pub open spec fn affine_step<E: EngineType>(e: Engine2D<E>, v: VRAM, b: LineBuffers, bg: int) -> LineBuffers {
    (
        with_row(b.0, bg, |x: int| affine_point(e, v, bg, affine_xr(e, b, bg, x), affine_yr(e, b, bg, x))),
        b.1,
        b.2,
        b.3.update(
            bg - 2,
            ReferencePointCoord {
                value: vstd::wrapping::i32_specs::wrapping_add(b.3[bg - 2].value, e.dmxs@[bg - 2].value as i32),
            },
        ),
        b.4.update(
            bg - 2,
            ReferencePointCoord {
                value: vstd::wrapping::i32_specs::wrapping_add(b.4[bg - 2].value, e.dmys@[bg - 2].value as i32),
            },
        ),
        b.5,
    )
}

impl<E: EngineType> Engine2D<E> {
    /// Marks which dots of line `vcount` are inside window `window_i`.
    pub fn render_window(&mut self, vcount: u16, window_i: usize)
        requires
            engine2d_wf(*old(self)),
            window_i < 2,
        ensures
            engine2d_wf(*final(self)),
            regs_same(*old(self), *final(self)),
            buffers_of(*final(self)) == window_step(*old(self), buffers_of(*old(self)), vcount, window_i as int),
    {
        let ghost old_self = *self;
        let y1 = self.winvs[window_i].coord1;
        let y2 = self.winvs[window_i].coord2;
        let v = vcount as u8;
        let y_out = if y1 > y2 {
            v < y1 && v >= y2
        } else {
            !(y1 <= v && v < y2)
        };
        let x1 = self.winhs[window_i].coord1 as usize;
        let x2 = self.winhs[window_i].coord2 as usize;
        let base = window_i * WIDTH;
        let mut dot_x: usize = 0;
        while dot_x < WIDTH
            invariant
                engine2d_wf(*self),
                regs_same(old_self, *self),
                window_i < 2,
                base == window_i * WIDTH,
                dot_x <= WIDTH,
                y1 == old_self.winvs@[window_i as int].coord1,
                y2 == old_self.winvs@[window_i as int].coord2,
                x1 == old_self.winhs@[window_i as int].coord1,
                x2 == old_self.winhs@[window_i as int].coord2,
                v == vcount as u8,
                y_out == (if y1 > y2 {
                    v < y1 && v >= y2
                } else {
                    !(y1 <= v && v < y2)
                }),
                self.bg_lines@ == old_self.bg_lines@,
                self.objs_line@ == old_self.objs_line@,
                self.bgxs_latch == old_self.bgxs_latch,
                self.bgys_latch == old_self.bgys_latch,
                self.pixels@ == old_self.pixels@,
                forall|j: int|
                    0 <= j < 3 * WIDTH ==> #[trigger] self.windows_lines@[j] == if base <= j < base + dot_x {
                        in_window(old_self, vcount, window_i as int, j - base)
                    } else {
                        old_self.windows_lines@[j]
                    },
            decreases WIDTH - dot_x,
        {
            let inside = if y_out {
                false
            } else if x1 > x2 {
                dot_x >= x1 || dot_x < x2
            } else {
                x1 <= dot_x && dot_x < x2
            };
            self.windows_lines.set(base + dot_x, inside);
            dot_x = dot_x + 1;
        }
        assert(self.windows_lines@ =~= with_row(
            old_self.windows_lines@,
            window_i as int,
            |x: int| in_window(old_self, vcount, window_i as int, x),
        ));
    }

    /// Dot `dot_x` of line `vcount` of text background `bg_i`.
    fn text_dot_exec(&self, vram: &VRAM, vcount: u16, bg_i: usize, dot_x: usize) -> (r: u16)
        requires
            engine2d_wf(*self),
            vram_wf(*vram),
            bg_i < 4,
            dot_x < WIDTH,
            text_dot_ok(*self, *vram, vcount, bg_i as int, dot_x as int),
        ensures
            r == text_dot(*self, *vram, vcount, bg_i as int, dot_x as int),
    {
        let is_a = E::is_a();
        let bgcnt = self.bgcnts[bg_i];
        let x = dot_x + self.hofs[bg_i].offset() as usize;
        let y = vcount as usize + self.vofs[bg_i].offset() as usize;
        let tile_start_addr = self.calc_tile_start_addr(&bgcnt);
        let map_start_addr = self.calc_map_start_addr(&bgcnt);
        let bit_depth: usize = if bgcnt.bpp8() {
            8
        } else {
            4
        };
        let map_x = x / 8;
        let map_y = y / 8;
        let x_over = (map_x / 32) % 2 == 1;
        let y_over = (map_y / 32) % 2 == 1;
        let screen_size = bgcnt.screen_size();
        let screen: usize = if screen_size == 0 {
            0
        } else if screen_size == 1 {
            if x_over {
                0x800
            } else {
                0
            }
        } else if screen_size == 2 {
            if y_over {
                0x800
            } else {
                0
            }
        } else if x_over && y_over {
            0x800 * 3
        } else if y_over {
            0x800 * 2
        } else if x_over {
            0x800
        } else {
            0
        };
        let addr = map_start_addr + screen + (map_y % 32) * 32 * 2 + (map_x % 32) * 2;
        let lo = vram_byte(vram, is_a, false, addr);
        let hi = vram_byte(vram, is_a, false, addr + 1);
        let screen_entry = (lo as u16 | ((hi as u16) << 8u16)) as usize;
        let tile_num = screen_entry & 0x3FF;
        let flip_x = (screen_entry >> 10usize) & 0x1 != 0;
        let flip_y = (screen_entry >> 11usize) & 0x1 != 0;
        let palette_num = (screen_entry >> 12usize) & 0xF;
        proof {
            lemma_mask_bounds();
        }
        let (palette_num, color_num) = get_color_from_tile(
            vram,
            is_a,
            false,
            tile_start_addr + 8 * bit_depth * tile_num,
            flip_x,
            flip_y,
            bit_depth,
            x % 8,
            y % 8,
            palette_num,
        );
        if color_num == 0 {
            TRANSPARENT_COLOR
        } else if bgcnt.bpp8() && self.dispcnt.contains(BG_EXTENDED_PALETTES) {
            let slot = if bg_i < 2 && bgcnt.wrap() {
                bg_i + 2
            } else {
                bg_i
            };
            vram.get_bg_ext_pal(is_a, slot, color_num)
        } else {
            self.bg_palettes[palette_num * 16 + color_num]
        }
    }

    /// Draws line `vcount` of text background `bg_i` into its background
    /// line.
    pub fn render_text_line(&mut self, vram: &VRAM, vcount: u16, bg_i: usize)
        requires
            engine2d_wf(*old(self)),
            vram_wf(*vram),
            bg_i < 4,
            forall|x: int| 0 <= x < WIDTH ==> text_dot_ok(*old(self), *vram, vcount, bg_i as int, x),
        ensures
            engine2d_wf(*final(self)),
            regs_same(*old(self), *final(self)),
            buffers_of(*final(self)) == text_step(*old(self), *vram, buffers_of(*old(self)), vcount, bg_i as int),
    {
        let ghost old_self = *self;
        let base = bg_i * WIDTH;
        let mut dot_x: usize = 0;
        while dot_x < WIDTH
            invariant
                engine2d_wf(*self),
                vram_wf(*vram),
                regs_same(old_self, *self),
                self.dispcnt == old_self.dispcnt,
                bg_i < 4,
                base == bg_i * WIDTH,
                dot_x <= WIDTH,
                forall|x: int| 0 <= x < WIDTH ==> text_dot_ok(old_self, *vram, vcount, bg_i as int, x),
                self.objs_line@ == old_self.objs_line@,
                self.windows_lines@ == old_self.windows_lines@,
                self.bgxs_latch == old_self.bgxs_latch,
                self.bgys_latch == old_self.bgys_latch,
                self.pixels@ == old_self.pixels@,
                forall|j: int|
                    0 <= j < 4 * WIDTH ==> #[trigger] self.bg_lines@[j] == if base <= j < base + dot_x {
                        text_dot(old_self, *vram, vcount, bg_i as int, j - base)
                    } else {
                        old_self.bg_lines@[j]
                    },
            decreases WIDTH - dot_x,
        {
            let ghost before = *self;
            assert(text_dot_ok(old_self, *vram, vcount, bg_i as int, dot_x as int));
            assert(text_dot_ok(before, *vram, vcount, bg_i as int, dot_x as int));
            assert(text_dot(before, *vram, vcount, bg_i as int, dot_x as int) == text_dot(
                old_self,
                *vram,
                vcount,
                bg_i as int,
                dot_x as int,
            ));
            let color = self.text_dot_exec(vram, vcount, bg_i, dot_x);
            self.bg_lines.set(base + dot_x, color);
            dot_x = dot_x + 1;
        }
        assert(self.bg_lines@ =~= with_row(
            old_self.bg_lines@,
            bg_i as int,
            |x: int| text_dot(old_self, *vram, vcount, bg_i as int, x),
        ));
    }
    /// The color of the point (`x_raw`, `y_raw`) of affine background
    /// `bg_i`.
    fn affine_point_exec(&self, vram: &VRAM, bg_i: usize, x_raw: i32, y_raw: i32) -> (r: u16)
        requires
            engine2d_wf(*self),
            vram_wf(*vram),
            2 <= bg_i < 4,
            affine_point_ok(*self, *vram, bg_i as int, x_raw, y_raw),
        ensures
            r == affine_point(*self, *vram, bg_i as int, x_raw, y_raw),
    {
        let is_a = E::is_a();
        let bgcnt = self.bgcnts[bg_i];
        let ss = bgcnt.screen_size();
        let map_size: usize = if ss == 0 {
            128
        } else if ss == 1 {
            256
        } else if ss == 2 {
            512
        } else {
            1024
        };
        let outside = x_raw < 0 || x_raw > map_size as i32 || y_raw < 0 || y_raw > map_size as i32;
        if outside && !bgcnt.wrap() {
            return TRANSPARENT_COLOR;
        }
        let x: usize = if outside {
            trunc_rem_exec(x_raw, map_size) as usize
        } else {
            x_raw as usize
        };
        let y: usize = if outside {
            trunc_rem_exec(y_raw, map_size) as usize
        } else {
            y_raw as usize
        };
        let tile_start_addr = self.calc_tile_start_addr(&bgcnt);
        let map_start_addr = self.calc_map_start_addr(&bgcnt);
        let bit_depth: usize = if bgcnt.bpp8() {
            8
        } else {
            4
        };
        let (mosaic_x, mosaic_y): (usize, usize) = if bgcnt.mosaic() {
            (self.mosaic.bg_size.h_size as usize, self.mosaic.bg_size.v_size as usize)
        } else {
            (1, 1)
        };
        assert(x / mosaic_x * mosaic_x <= x) by (nonlinear_arith)
            requires
                mosaic_x > 0,
        ;
        assert(y / mosaic_y * mosaic_y <= y) by (nonlinear_arith)
            requires
                mosaic_y > 0,
        ;
        let map_x = (x / mosaic_x * mosaic_x / 8) % (map_size / 8);
        let map_y = (y / mosaic_y * mosaic_y / 8) % (map_size / 8);
        assert(map_y * map_size <= 1024 * 1024) by (nonlinear_arith)
            requires
                map_y < map_size / 8,
                map_size <= 1024,
        ;
        let addr = map_start_addr + map_y * map_size / 8 + map_x;
        let tile_num = vram_byte(vram, is_a, false, addr) as usize;
        let (_, color_num) = get_color_from_tile(
            vram,
            is_a,
            false,
            tile_start_addr + 8 * bit_depth + tile_num,
            false,
            false,
            bit_depth,
            x % 8,
            y % 8,
            0,
        );
        if color_num == 0 {
            TRANSPARENT_COLOR
        } else {
            self.bg_palettes[color_num]
        }
    }

    /// Draws affine background `bg_i` (2 or 3) along its latched reference
    /// point, and moves the latch to the next line.
    pub fn render_affine_line(&mut self, vram: &VRAM, bg_i: usize)
        requires
            engine2d_wf(*old(self)),
            vram_wf(*vram),
            2 <= bg_i < 4,
            affine_line_ok(*old(self), *vram, buffers_of(*old(self)), bg_i as int),
        ensures
            engine2d_wf(*final(self)),
            regs_same(*old(self), *final(self)),
            buffers_of(*final(self)) == affine_step(*old(self), *vram, buffers_of(*old(self)), bg_i as int),
    {
        let ghost old_self = *self;
        let ghost b = buffers_of(old_self);
        let i = bg_i - 2;
        let mut base_x = self.bgxs_latch[i];
        let mut base_y = self.bgys_latch[i];
        let mut lx = self.bgxs_latch[i];
        lx.add_param(self.dmxs[i]);
        self.bgxs_latch[i] = lx;
        let mut ly = self.bgys_latch[i];
        ly.add_param(self.dmys[i]);
        self.bgys_latch[i] = ly;
        let dx = self.dxs[i];
        let dy = self.dys[i];
        let base = bg_i * WIDTH;
        let mut dot_x: usize = 0;
        while dot_x < WIDTH
            invariant
                engine2d_wf(*self),
                vram_wf(*vram),
                regs_same(old_self, *self),
                2 <= bg_i < 4,
                i == bg_i - 2,
                b == buffers_of(old_self),
                base == bg_i * WIDTH,
                dot_x <= WIDTH,
                dx == old_self.dxs@[i as int],
                dy == old_self.dys@[i as int],
                base_x.value == affine_coord(b.3[i as int].value, dx.value, dot_x as nat),
                base_y.value == affine_coord(b.4[i as int].value, dy.value, dot_x as nat),
                affine_line_ok(old_self, *vram, b, bg_i as int),
                self.bgxs_latch@ == b.3.update(
                    i as int,
                    ReferencePointCoord {
                        value: vstd::wrapping::i32_specs::wrapping_add(b.3[i as int].value, old_self.dmxs@[i as int].value as i32),
                    },
                ),
                self.bgys_latch@ == b.4.update(
                    i as int,
                    ReferencePointCoord {
                        value: vstd::wrapping::i32_specs::wrapping_add(b.4[i as int].value, old_self.dmys@[i as int].value as i32),
                    },
                ),
                self.objs_line@ == old_self.objs_line@,
                self.windows_lines@ == old_self.windows_lines@,
                self.pixels@ == old_self.pixels@,
                forall|j: int|
                    0 <= j < 4 * WIDTH ==> #[trigger] self.bg_lines@[j] == if base <= j < base + dot_x {
                        affine_point(
                            old_self,
                            *vram,
                            bg_i as int,
                            affine_xr(old_self, b, bg_i as int, j - base),
                            affine_yr(old_self, b, bg_i as int, j - base),
                        )
                    } else {
                        old_self.bg_lines@[j]
                    },
            decreases WIDTH - dot_x,
        {
            let x_raw = base_x.integer();
            let y_raw = base_y.integer();
            base_x.add_param(dx);
            base_y.add_param(dy);
            let ghost before = *self;
            assert(affine_xr(old_self, b, bg_i as int, dot_x as int) == x_raw);
            assert(affine_yr(old_self, b, bg_i as int, dot_x as int) == y_raw);
            assert(affine_point_ok(old_self, *vram, bg_i as int, x_raw, y_raw));
            assert(affine_point_ok(before, *vram, bg_i as int, x_raw, y_raw));
            assert(affine_point(before, *vram, bg_i as int, x_raw, y_raw) == affine_point(
                old_self,
                *vram,
                bg_i as int,
                x_raw,
                y_raw,
            ));
            let color = self.affine_point_exec(vram, bg_i, x_raw, y_raw);
            self.bg_lines.set(base + dot_x, color);
            dot_x = dot_x + 1;
        }
        assert(self.bg_lines@ =~= with_row(
            b.0,
            bg_i as int,
            |x: int| affine_point(old_self, *vram, bg_i as int, affine_xr(old_self, b, bg_i as int, x), affine_yr(old_self, b, bg_i as int, x)),
        ));
    }
}

/// The remainder of `a` by `m` with the sign of `a`, as the `%` of
/// signed integers gives it.
fn trunc_rem_exec(a: i32, m: usize) -> (r: i32)
    requires
        0 < m <= 1024,
    ensures
        r == trunc_rem(a as int, m as int),
{
    if a >= 0 {
        ((a as u32) % (m as u32)) as i32
    } else {
        let na: u64 = (-(a as i64)) as u64;
        -((na % (m as u64)) as i32)
    }
}


} // verus!
