//! Drawing the objects of a line: which objects cover the line, in
//! priority order, and what each dot shows of the first one drawn there.
use vstd::prelude::*;
use crate::bits::lemma_mask_bounds;
use crate::engine2d::engine::{Engine2D, OBJPixel, WIDTH, engine2d_wf, no_obj_pixel};
use crate::engine2d::layers::{
    LineBuffers, buffers_of, obj_byte, obj_limit, regs_same, tile_byte_addr, tile_color, vram_byte,
    get_color_from_tile, with_row,
};
use crate::engine2d::registers::{DISPLAY_OBJ_WINDOW, OBJ_EXTENDED_PALETTES, TILE_OBJ_1D};
use crate::gpu::EngineType;
use crate::vram::{VRAM, vram_wf, slot_value, MAPPING_LEN, ENGINE_A_OBJ_EXT_PAL_SLOTS, ENGINE_B_OBJ_EXT_PAL_SLOTS};

verus! {

/// The 16-bit little-endian value at `addr` of object memory.
pub open spec fn oam_u16<E: EngineType>(e: Engine2D<E>, addr: int) -> u16 {
    (e.oam@[addr] as u16) | ((e.oam@[addr + 1] as u16) << 8u16)
}

/// The three attributes of object `i`.
pub open spec fn attr0<E: EngineType>(e: Engine2D<E>, i: int) -> u16 {
    oam_u16(e, 8 * i)
}

pub open spec fn attr1<E: EngineType>(e: Engine2D<E>, i: int) -> u16 {
    oam_u16(e, 8 * i + 2)
}

pub open spec fn attr2<E: EngineType>(e: Engine2D<E>, i: int) -> u16 {
    oam_u16(e, 8 * i + 4)
}

/// Parameter `p` (a, b, c, d) of affine parameter group `g`, spread over
/// the fourth words of four objects.
pub open spec fn affine_param<E: EngineType>(e: Engine2D<E>, g: int, p: int) -> int {
    oam_u16(e, 8 * (4 * g + p) + 6) as i16 as int
}

pub open spec fn obj_shape(a0: u16) -> int {
    ((a0 >> 14u16) & 0x3) as int
}

pub open spec fn obj_size(a1: u16) -> int {
    ((a1 >> 14u16) & 0x3) as int
}

/// An object's width for its size and shape (square, wide, tall).
pub open spec fn obj_width(size: int, shape: int) -> int {
    if shape == 0 {
        8 * pow2_small(size)
    } else if shape == 1 {
        if size == 0 {
            16
        } else if size == 1 {
            32
        } else if size == 2 {
            32
        } else {
            64
        }
    } else {
        if size == 0 {
            8
        } else if size == 1 {
            8
        } else if size == 2 {
            16
        } else {
            32
        }
    }
}

/// An object's height for its size and shape.
pub open spec fn obj_height(size: int, shape: int) -> int {
    if shape == 0 {
        8 * pow2_small(size)
    } else if shape == 1 {
        if size == 0 {
            8
        } else if size == 1 {
            8
        } else if size == 2 {
            16
        } else {
            32
        }
    } else {
        if size == 0 {
            16
        } else if size == 1 {
            32
        } else if size == 2 {
            32
        } else {
            64
        }
    }
}

/// 2 to the power `n`, for `n` below 4.
pub open spec fn pow2_small(n: int) -> int {
    if n == 0 {
        1
    } else if n == 1 {
        2
    } else if n == 2 {
        4
    } else {
        8
    }
}

/// Whether object `i` covers line `vcount`: an object that is neither
/// affine nor shown is off, a double-size one is twice as tall, and one
/// that runs past line 255 wraps to the top.
pub open spec fn obj_visible<E: EngineType>(e: Engine2D<E>, vcount: u16, i: int) -> bool {
    let a0 = attr0(e, i);
    let h = obj_height(obj_size(attr1(e, i)), obj_shape(a0));
    let affine = (a0 >> 8u16) & 0x1 != 0;
    let dsd = (a0 >> 9u16) & 0x1 != 0;
    if !affine && dsd {
        false
    } else {
        let bounds = if dsd {
            h * 2
        } else {
            h
        };
        let obj_y = (a0 & 0xFF) as int;
        let y_end = obj_y + bounds;
        let y = vcount as int + if y_end > 256 {
            256int
        } else {
            0int
        };
        obj_y <= y < y_end
    }
}

/// An object's priority.
pub open spec fn obj_priority<E: EngineType>(e: Engine2D<E>, i: int) -> int {
    ((attr2(e, i) >> 10u16) & 0x3) as int
}

/// The objects below `n` that cover line `vcount` with priority `p`, in
/// memory order.
pub open spec fn objs_with<E: EngineType>(e: Engine2D<E>, vcount: u16, p: int, n: nat) -> Seq<usize>
    decreases n,
{
    if n == 0 {
        Seq::empty()
    } else {
        let rest = objs_with(e, vcount, p, (n - 1) as nat);
        if obj_visible(e, vcount, n - 1) && obj_priority(e, n - 1) == p {
            rest.push((n - 1) as usize)
        } else {
            rest
        }
    }
}

/// The objects that cover line `vcount`, by priority and then in memory
/// order.
pub open spec fn obj_order<E: EngineType>(e: Engine2D<E>, vcount: u16) -> Seq<usize> {
    objs_with(e, vcount, 0, 128) + objs_with(e, vcount, 1, 128) + objs_with(e, vcount, 2, 128) + objs_with(
        e,
        vcount,
        3,
        128,
    )
}

/// The objects up to priority `p`, and of priority `p` below `n`.
pub open spec fn order_prefix<E: EngineType>(e: Engine2D<E>, vcount: u16, p: int, n: nat) -> Seq<usize> {
    if p == 0 {
        objs_with(e, vcount, 0, n)
    } else if p == 1 {
        objs_with(e, vcount, 0, 128) + objs_with(e, vcount, 1, n)
    } else if p == 2 {
        objs_with(e, vcount, 0, 128) + objs_with(e, vcount, 1, 128) + objs_with(e, vcount, 2, n)
    } else {
        objs_with(e, vcount, 0, 128) + objs_with(e, vcount, 1, 128) + objs_with(e, vcount, 2, 128) + objs_with(
            e,
            vcount,
            3,
            n,
        )
    }
}

/// The horizontal position of object `i`: 9 bits, signed.
pub open spec fn obj_x<E: EngineType>(e: Engine2D<E>, i: int) -> int {
    let x9 = (attr1(e, i) & 0x1FF) as int;
    if x9 >= 256 {
        x9 - 512
    } else {
        x9
    }
}

/// The dot of line `vcount` at `x` as the objects sample it, after the
/// mosaic.
pub open spec fn obj_dot_x<E: EngineType>(e: Engine2D<E>, x: int) -> int {
    x / (e.mosaic.obj_size.h_size as int) * (e.mosaic.obj_size.h_size as int)
}

/// The line inside object `i` that line `vcount` shows, after the
/// mosaic, wrapping at 256.
pub open spec fn obj_y_diff<E: EngineType>(e: Engine2D<E>, vcount: u16, i: int) -> int {
    let v = e.mosaic.obj_size.v_size as int;
    ((vcount as int) / v * v - (attr0(e, i) & 0xFF) as int) % 256
}

/// Where object `i` is sampled at dot `x` of line `vcount`, inside the
/// object: through the affine parameters (exact in 8.8 fixed point), or
/// flipped. `None` where the object does not cover the dot.
pub open spec fn obj_texel<E: EngineType>(e: Engine2D<E>, vcount: u16, i: int, x: int) -> Option<(int, int)> {
    let a0 = attr0(e, i);
    let a1 = attr1(e, i);
    let w = obj_width(obj_size(a1), obj_shape(a0));
    let h = obj_height(obj_size(a1), obj_shape(a0));
    let affine = (a0 >> 8u16) & 0x1 != 0;
    let ds = (a0 >> 9u16) & 0x1 != 0;
    let xb = if ds {
        w * 2
    } else {
        w
    };
    let dsx = obj_dot_x(e, x);
    let ox = obj_x(e, i);
    if !(ox <= dsx < ox + xb) {
        None
    } else {
        let x_diff = dsx - ox;
        let y_diff = obj_y_diff(e, vcount, i);
        if affine {
            let (xd, yd) = if ds {
                (x_diff - w / 2, y_diff - h / 2)
            } else {
                (x_diff, y_diff)
            };
            let g = ((a1 >> 9u16) & 0x1F) as int;
            let xo = w / 2;
            let yo = h / 2;
            let xx = affine_param(e, g, 0) * (xd - xo) + affine_param(e, g, 1) * (yd - yo) + xo * 256;
            let yy = affine_param(e, g, 2) * (xd - xo) + affine_param(e, g, 3) * (yd - yo) + yo * 256;
            if xx < 0 || yy < 0 || xx >= w * 256 || yy >= h * 256 {
                None
            } else {
                Some((xx / 256, yy / 256))
            }
        } else {
            let flip_x = (a1 >> 12u16) & 0x1 != 0;
            let flip_y = (a1 >> 13u16) & 0x1 != 0;
            Some(
                (
                    if flip_x {
                        w - 1 - x_diff
                    } else {
                        x_diff
                    },
                    if flip_y {
                        h - 1 - y_diff
                    } else {
                        y_diff
                    },
                ),
            )
        }
    }
}

/// Whether sampling object `i` at dot `x` can go wrong: a vertically
/// flipped plain object whose mosaic line falls outside it.
pub open spec fn obj_flip_ok<E: EngineType>(e: Engine2D<E>, vcount: u16, i: int) -> bool {
    let a0 = attr0(e, i);
    let a1 = attr1(e, i);
    let h = obj_height(obj_size(a1), obj_shape(a0));
    let affine = (a0 >> 8u16) & 0x1 != 0;
    let flip_y = (a1 >> 13u16) & 0x1 != 0;
    !affine && flip_y ==> obj_y_diff(e, vcount, i) <= h - 1
}

/// The tile byte address of object `i` at the texel (`xd`, `yd`): tiles
/// are laid out in one dimension (with a boundary) or in a 32-tile wide
/// two-dimensional sheet.
pub open spec fn obj_tile_byte<E: EngineType>(e: Engine2D<E>, i: int, xd: int, yd: int) -> int {
    let a0 = attr0(e, i);
    let a1 = attr1(e, i);
    let w = obj_width(obj_size(a1), obj_shape(a0));
    let bd = if (a0 >> 13u16) & 0x1 != 0 {
        8int
    } else {
        4int
    };
    let base_tile = (attr2(e, i) & 0x3FF) as int;
    let (boundary, tile_offset) = if e.dispcnt.flags & TILE_OBJ_1D == TILE_OBJ_1D {
        (32 * pow2_small(e.dispcnt.tile_obj_1d_bound as int), (yd / 8 * w + xd) / 8)
    } else {
        (32int, yd / 8 * 0x80 / bd + xd / 8)
    };
    tile_byte_addr(boundary * base_tile + tile_offset * bd * 8, false, false, bd, xd % 8, yd % 8)
}

/// The palette and color number of object `i` at dot `x`, if it covers
/// the dot.
pub open spec fn obj_sample<E: EngineType>(e: Engine2D<E>, v: VRAM, vcount: u16, i: int, x: int) -> Option<(int, int)> {
    match obj_texel(e, vcount, i, x) {
        None => None,
        Some((xd, yd)) => {
            let a0 = attr0(e, i);
            let bd = if (a0 >> 13u16) & 0x1 != 0 {
                8int
            } else {
                4int
            };
            let pal = ((attr2(e, i) >> 12u16) & 0xF) as int;
            let tile = obj_byte(v, E::spec_is_a(), obj_tile_byte(e, i, xd, yd));
            let (pn, cn) = tile_color(tile, false, bd, xd % 8, pal);
            if cn == 0 {
                None
            } else {
                Some((pn, cn))
            }
        },
    }
}

/// Whether sampling object `i` at dot `x` stays inside the object space
/// and its arithmetic.
pub open spec fn obj_sample_ok<E: EngineType>(e: Engine2D<E>, vcount: u16, i: int, x: int) -> bool {
    match obj_texel(e, vcount, i, x) {
        None => true,
        Some((xd, yd)) => obj_flip_ok(e, vcount, i) && obj_tile_byte(e, i, xd, yd) < obj_limit(E::spec_is_a()),
    }
}

/// Color `color_num` of the extended object palette.
pub open spec fn obj_ext_color(v: VRAM, is_a: bool, color_num: int) -> u16 {
    slot_value(
        v,
        (if is_a { ENGINE_A_OBJ_EXT_PAL_SLOTS } else { ENGINE_B_OBJ_EXT_PAL_SLOTS }) + (color_num * 2) / (
        MAPPING_LEN as int),
        (color_num * 2) as usize,
        2,
        9,
    ) as u16
}

/// The state while scanning the objects at a dot: the object dot so far,
/// the object window flag, whether a color was set, whether the scan has
/// stopped, and whether every sample taken was in range.
pub type ObjScan = (OBJPixel, bool, bool, bool, bool);

/// One object of the scan at dot `x`: an object window object marks the
/// window (and stops the scan once a color is set); the first colored
/// object sets the dot, and the scan stops unless the window is still to
/// be found.
pub open spec fn obj_scan_step<E: EngineType>(e: Engine2D<E>, v: VRAM, vcount: u16, x: int, s: ObjScan, i: int) -> ObjScan {
    if s.3 {
        s
    } else {
        let ok = s.4 && obj_sample_ok(e, vcount, i, x);
        match obj_sample(e, v, vcount, i, x) {
            None => (s.0, s.1, s.2, s.3, ok),
            Some((pn, cn)) => {
                let a0 = attr0(e, i);
                let mode = ((a0 >> 10u16) & 0x3) as int;
                let win_enabled = e.dispcnt.flags & DISPLAY_OBJ_WINDOW == DISPLAY_OBJ_WINDOW;
                if mode == 2 {
                    (s.0, win_enabled, s.2, s.2, ok)
                } else if !s.2 {
                    let pal = ((attr2(e, i) >> 12u16) & 0xF) as int;
                    let bpp8 = (a0 >> 13u16) & 0x1 != 0;
                    let color = if bpp8 && e.dispcnt.flags & OBJ_EXTENDED_PALETTES == OBJ_EXTENDED_PALETTES {
                        obj_ext_color(v, E::spec_is_a(), pal * 16 + cn)
                    } else {
                        e.obj_palettes@[pn * 16 + cn]
                    };
                    let pix = OBJPixel {
                        color,
                        priority: ((attr2(e, i) >> 10u16) & 0x3) as u8,
                        semitransparent: mode == 1,
                    };
                    (pix, s.1, true, s.1 || !win_enabled, ok)
                } else {
                    (s.0, s.1, s.2, s.3, ok)
                }
            },
        }
    }
}

/// The scan at dot `x` over the first `k` objects of `order`.
pub open spec fn obj_scan<E: EngineType>(e: Engine2D<E>, v: VRAM, vcount: u16, x: int, order: Seq<usize>, k: nat) -> ObjScan
    decreases k,
{
    if k == 0 {
        (no_obj_pixel(), false, false, false, true)
    } else {
        obj_scan_step(e, v, vcount, x, obj_scan(e, v, vcount, x, order, (k - 1) as nat), order[k - 1] as int)
    }
}

/// The finished scan at dot `x` of line `vcount`.
pub open spec fn obj_dot<E: EngineType>(e: Engine2D<E>, v: VRAM, vcount: u16, x: int) -> ObjScan {
    obj_scan(e, v, vcount, x, obj_order(e, vcount), obj_order(e, vcount).len())
}

/// Whether every object has a shape (shape 3 is none) and every sample
/// the scan takes is in range.
pub open spec fn objs_line_ok<E: EngineType>(e: Engine2D<E>, v: VRAM, vcount: u16) -> bool {
    &&& forall|i: int| 0 <= i < 128 ==> obj_shape(#[trigger] attr0(e, i)) != 3
    &&& forall|x: int| 0 <= x < WIDTH ==> (#[trigger] obj_dot(e, v, vcount, x)).4
}

/// The buffers after drawing the objects of line `vcount`: the object
/// line and the object window line.
pub open spec fn objs_step<E: EngineType>(e: Engine2D<E>, v: VRAM, b: LineBuffers, vcount: u16) -> LineBuffers {
    (
        b.0,
        Seq::new(b.1.len(), |x: int| obj_dot(e, v, vcount, x).0),
        with_row(b.2, 2, |x: int| obj_dot(e, v, vcount, x).1),
        b.3,
        b.4,
        b.5,
    )
}

/// A scan that has stopped stays as it is.
proof fn lemma_scan_done<E: EngineType>(e: Engine2D<E>, v: VRAM, vcount: u16, x: int, order: Seq<usize>, k: nat, n: nat)
    requires
        k <= n,
        obj_scan(e, v, vcount, x, order, k).3,
    ensures
        obj_scan(e, v, vcount, x, order, n) == obj_scan(e, v, vcount, x, order, k),
    decreases n,
{
    if n > k {
        lemma_scan_done(e, v, vcount, x, order, k, (n - 1) as nat);
    }
}

/// A scan whose samples were all in range had them in range so far.
proof fn lemma_scan_ok<E: EngineType>(e: Engine2D<E>, v: VRAM, vcount: u16, x: int, order: Seq<usize>, k: nat, n: nat)
    requires
        k <= n,
        obj_scan(e, v, vcount, x, order, n).4,
    ensures
        obj_scan(e, v, vcount, x, order, k).4,
    decreases n,
{
    if n > k {
        lemma_scan_ok(e, v, vcount, x, order, k, (n - 1) as nat);
    }
}

fn obj_width_exec(size: u16, shape: u16) -> (r: usize)
    requires
        size < 4,
        shape < 4,
    ensures
        r == obj_width(size as int, shape as int),
        8 <= r <= 64,
{
    if shape == 0 {
        if size == 0 {
            8
        } else if size == 1 {
            16
        } else if size == 2 {
            32
        } else {
            64
        }
    } else if shape == 1 {
        if size == 0 {
            16
        } else if size == 1 {
            32
        } else if size == 2 {
            32
        } else {
            64
        }
    } else {
        if size == 0 {
            8
        } else if size == 1 {
            8
        } else if size == 2 {
            16
        } else {
            32
        }
    }
}

fn obj_height_exec(size: u16, shape: u16) -> (r: usize)
    requires
        size < 4,
        shape < 4,
    ensures
        r == obj_height(size as int, shape as int),
        8 <= r <= 64,
{
    if shape == 0 {
        if size == 0 {
            8
        } else if size == 1 {
            16
        } else if size == 2 {
            32
        } else {
            64
        }
    } else if shape == 1 {
        if size == 0 {
            8
        } else if size == 1 {
            8
        } else if size == 2 {
            16
        } else {
            32
        }
    } else {
        if size == 0 {
            16
        } else if size == 1 {
            32
        } else if size == 2 {
            32
        } else {
            64
        }
    }
}

/// The product of two small signed values.
fn mul_small(a: i64, b: i64) -> (r: i64)
    requires
        -0x8000 <= a <= 0x8000,
        -0x1000 <= b <= 0x1000,
    ensures
        r == a * b,
        -0x800_0000 <= r <= 0x800_0000,
{
    assert(-0x800_0000 <= a * b <= 0x800_0000) by (nonlinear_arith)
        requires
            -0x8000 <= a <= 0x8000,
            -0x1000 <= b <= 0x1000,
    ;
    a * b
}

impl<E: EngineType> Engine2D<E> {
    fn oam_u16_exec(&self, addr: usize) -> (r: u16)
        requires
            engine2d_wf(*self),
            addr + 1 < 0x400,
        ensures
            r == oam_u16(*self, addr as int),
    {
        (self.oam[addr] as u16) | ((self.oam[addr + 1] as u16) << 8u16)
    }

    fn obj_visible_exec(&self, vcount: u16, i: usize) -> (r: bool)
        requires
            engine2d_wf(*self),
            i < 128,
        ensures
            r == obj_visible(*self, vcount, i as int),
    {
        proof {
            lemma_mask_bounds();
        }
        let a0 = self.oam_u16_exec(8 * i);
        let a1 = self.oam_u16_exec(8 * i + 2);
        let h = obj_height_exec((a1 >> 14u16) & 0x3, (a0 >> 14u16) & 0x3);
        let affine = (a0 >> 8u16) & 0x1 != 0;
        let dsd = (a0 >> 9u16) & 0x1 != 0;
        if !affine && dsd {
            false
        } else {
            let bounds = if dsd {
                h * 2
            } else {
                h
            };
            let obj_y = (a0 & 0xFF) as usize;
            let y_end = obj_y + bounds;
            let y = vcount as usize + if y_end > 256 {
                256
            } else {
                0
            };
            obj_y <= y && y < y_end
        }
    }

    /// The objects covering line `vcount`, by priority and then in memory
    /// order.
    fn obj_order_exec(&self, vcount: u16) -> (r: Vec<usize>)
        requires
            engine2d_wf(*self),
        ensures
            r@ == obj_order(*self, vcount),
            forall|k: int| 0 <= k < r@.len() ==> r@[k] < 128 && obj_visible(*self, vcount, r@[k] as int),
    {
        let mut order: Vec<usize> = Vec::new();
        let mut p: usize = 0;
        while p < 4
            invariant
                engine2d_wf(*self),
                p <= 4,
                p < 4 ==> order@ == order_prefix(*self, vcount, p as int, 0),
                p == 4 ==> order@ == obj_order(*self, vcount),
                forall|k: int| 0 <= k < order@.len() ==> order@[k] < 128 && obj_visible(*self, vcount, order@[k] as int),
            decreases 4 - p,
        {
            let mut i: usize = 0;
            while i < 128
                invariant
                    engine2d_wf(*self),
                    p < 4,
                    i <= 128,
                    order@ == order_prefix(*self, vcount, p as int, i as nat),
                    forall|k: int| 0 <= k < order@.len() ==> order@[k] < 128 && obj_visible(*self, vcount, order@[k] as int),
                decreases 128 - i,
            {
                proof {
                    lemma_mask_bounds();
                }
                let a2 = self.oam_u16_exec(8 * i + 4);
                if self.obj_visible_exec(vcount, i) && ((a2 >> 10u16) & 0x3) as usize == p {
                    order.push(i);
                }
                proof {
                    let e = *self;
                    let n = (i + 1) as nat;
                    assert(objs_with(e, vcount, p as int, n) == (if obj_visible(e, vcount, i as int)
                        && obj_priority(e, i as int) == p {
                        objs_with(e, vcount, p as int, i as nat).push(i)
                    } else {
                        objs_with(e, vcount, p as int, i as nat)
                    }));
                    if p == 0 {
                    } else if p == 1 {
                        assert(order@ =~= order_prefix(e, vcount, p as int, n));
                    } else if p == 2 {
                        assert(order@ =~= order_prefix(e, vcount, p as int, n));
                    } else {
                        assert(order@ =~= order_prefix(e, vcount, p as int, n));
                    }
                }
                i = i + 1;
            }
            proof {
                let e = *self;
                if p + 1 < 4 {
                    assert(order@ =~= order_prefix(e, vcount, (p + 1) as int, 0));
                } else {
                    assert(order@ =~= obj_order(e, vcount));
                }
            }
            p = p + 1;
        }
        order
    }

    /// Where object `i` is sampled at dot `x` of line `vcount`.
    #[verifier::spinoff_prover]
    #[verifier::rlimit(40)]
    fn obj_texel_exec(&self, vcount: u16, i: usize, x: usize) -> (r: Option<(usize, usize)>)
        requires
            engine2d_wf(*self),
            i < 128,
            x < WIDTH,
            obj_shape(attr0(*self, i as int)) != 3,
            obj_visible(*self, vcount, i as int),
            obj_texel(*self, vcount, i as int, x as int) is Some ==> obj_flip_ok(*self, vcount, i as int),
        ensures
            match obj_texel(*self, vcount, i as int, x as int) {
                None => r is None,
                Some((xd, yd)) => r == Some((xd as usize, yd as usize)) && 0 <= xd < 256 && 0 <= yd < 256,
            },
    {
        proof {
            lemma_mask_bounds();
        }
        let a0 = self.oam_u16_exec(8 * i);
        let a1 = self.oam_u16_exec(8 * i + 2);
        let w = obj_width_exec((a1 >> 14u16) & 0x3, (a0 >> 14u16) & 0x3);
        let h = obj_height_exec((a1 >> 14u16) & 0x3, (a0 >> 14u16) & 0x3);
        let affine = (a0 >> 8u16) & 0x1 != 0;
        let ds = (a0 >> 9u16) & 0x1 != 0;
        let xb: i64 = if ds {
            (w * 2) as i64
        } else {
            w as i64
        };
        let hs = self.mosaic.obj_size.h_size as usize;
        assert(x / hs * hs <= x) by (nonlinear_arith)
            requires
                hs > 0,
        ;
        let dsx = (x / hs * hs) as i64;
        let x9 = (a1 & 0x1FF) as i64;
        let ox: i64 = if x9 >= 256 {
            x9 - 512
        } else {
            x9
        };
        if !(ox <= dsx && dsx < ox + xb) {
            return None;
        }
        let x_diff = dsx - ox;
        let vs = self.mosaic.obj_size.v_size;
        assert(vcount / vs * vs <= vcount) by (nonlinear_arith)
            requires
                vs > 0,
        ;
        let ym = (vcount / vs * vs) as i64;
        let oy = (a0 & 0xFF) as i64;
        let y_diff: i64 = (ym + 256 - oy) % 256;
        assert(y_diff == (ym - oy) % 256) by {
            assert((ym + 256 - oy) % 256 == (ym - oy) % 256) by (nonlinear_arith);
        }
        if affine {
            let (xd, yd): (i64, i64) = if ds {
                (x_diff - (w / 2) as i64, y_diff - (h / 2) as i64)
            } else {
                (x_diff, y_diff)
            };
            let g = ((a1 >> 9u16) & 0x1F) as usize;
            let pa = self.oam_u16_exec(8 * (4 * g) + 6) as i16 as i64;
            let pb = self.oam_u16_exec(8 * (4 * g + 1) + 6) as i16 as i64;
            let pc = self.oam_u16_exec(8 * (4 * g + 2) + 6) as i16 as i64;
            let pd = self.oam_u16_exec(8 * (4 * g + 3) + 6) as i16 as i64;
            let xo = (w / 2) as i64;
            let yo = (h / 2) as i64;
            let xx = mul_small(pa, xd - xo) + mul_small(pb, yd - yo) + xo * 256;
            let yy = mul_small(pc, xd - xo) + mul_small(pd, yd - yo) + yo * 256;
            if xx < 0 || yy < 0 || xx >= (w * 256) as i64 || yy >= (h * 256) as i64 {
                None
            } else {
                Some(((xx as u64 / 256) as usize, (yy as u64 / 256) as usize))
            }
        } else {
            let flip_x = (a1 >> 12u16) & 0x1 != 0;
            let flip_y = (a1 >> 13u16) & 0x1 != 0;
            let tx = if flip_x {
                w as i64 - 1 - x_diff
            } else {
                x_diff
            };
            let ty = if flip_y {
                h as i64 - 1 - y_diff
            } else {
                y_diff
            };
            Some((tx as usize, ty as usize))
        }
    }

    /// The palette and color number of object `i` at dot `x`, if it covers
    /// the dot.
    fn obj_sample_exec(&self, vram: &VRAM, vcount: u16, i: usize, x: usize) -> (r: Option<(usize, usize)>)
        requires
            engine2d_wf(*self),
            vram_wf(*vram),
            i < 128,
            x < WIDTH,
            obj_shape(attr0(*self, i as int)) != 3,
            obj_visible(*self, vcount, i as int),
            obj_sample_ok(*self, vcount, i as int, x as int),
        ensures
            match obj_sample(*self, *vram, vcount, i as int, x as int) {
                None => r is None,
                Some((pn, cn)) => r == Some((pn as usize, cn as usize)) && 0 < cn < 256 && 0 <= pn < 16,
            },
    {
        proof {
            lemma_mask_bounds();
        }
        match self.obj_texel_exec(vcount, i, x) {
            None => None,
            Some((xd, yd)) => {
                let a0 = self.oam_u16_exec(8 * i);
                let a1 = self.oam_u16_exec(8 * i + 2);
                let a2 = self.oam_u16_exec(8 * i + 4);
                let w = obj_width_exec((a1 >> 14u16) & 0x3, (a0 >> 14u16) & 0x3);
                let bd: usize = if (a0 >> 13u16) & 0x1 != 0 {
                    8
                } else {
                    4
                };
                let base_tile = (a2 & 0x3FF) as usize;
                let (boundary, tile_offset): (usize, usize) = if self.dispcnt.contains(TILE_OBJ_1D) {
                    let bound = self.dispcnt.tile_obj_1d_bound;
                    let b: usize = if bound == 0 {
                        32
                    } else if bound == 1 {
                        64
                    } else if bound == 2 {
                        128
                    } else {
                        256
                    };
                    assert(yd / 8 * w <= 32 * 64) by (nonlinear_arith)
                        requires
                            yd < 256,
                            w <= 64,
                    ;
                    (b, (yd / 8 * w + xd) / 8)
                } else {
                    (32, yd / 8 * 0x80 / bd + xd / 8)
                };
                assert(boundary * base_tile <= 256 * 0x400) by (nonlinear_arith)
                    requires
                        boundary <= 256,
                        base_tile < 0x400,
                ;
                assert(tile_offset * bd * 8 <= 0x1_0000 * 64) by (nonlinear_arith)
                    requires
                        tile_offset <= 0x1_0000,
                        bd <= 8,
                ;
                let pal = ((a2 >> 12u16) & 0xF) as usize;
                let (pn, cn) = get_color_from_tile(
                    vram,
                    E::is_a(),
                    true,
                    boundary * base_tile + tile_offset * bd * 8,
                    false,
                    false,
                    bd,
                    xd % 8,
                    yd % 8,
                    pal,
                );
                if cn == 0 {
                    None
                } else {
                    Some((pn, cn))
                }
            },
        }
    }

    /// Draws the objects of line `vcount` into the object line and the
    /// object window line.
    #[verifier::spinoff_prover]
    #[verifier::rlimit(40)]
    pub fn render_objs_line(&mut self, vram: &VRAM, vcount: u16)
        requires
            engine2d_wf(*old(self)),
            vram_wf(*vram),
            objs_line_ok(*old(self), *vram, vcount),
        ensures
            engine2d_wf(*final(self)),
            regs_same(*old(self), *final(self)),
            buffers_of(*final(self)) == objs_step(*old(self), *vram, buffers_of(*old(self)), vcount),
    {
        let ghost old_self = *self;
        let order = self.obj_order_exec(vcount);
        let win_enabled = self.dispcnt.contains(DISPLAY_OBJ_WINDOW);
        let obj_ext = self.dispcnt.contains(OBJ_EXTENDED_PALETTES);
        let is_a = E::is_a();
        let mut dot_x: usize = 0;
        while dot_x < WIDTH
            invariant
                engine2d_wf(*self),
                vram_wf(*vram),
                regs_same(old_self, *self),
                self.dispcnt == old_self.dispcnt,
                order@ == obj_order(old_self, vcount),
                forall|k: int| 0 <= k < order@.len() ==> order@[k] < 128 && obj_visible(old_self, vcount, order@[k] as int),
                objs_line_ok(old_self, *vram, vcount),
                win_enabled == (old_self.dispcnt.flags & DISPLAY_OBJ_WINDOW == DISPLAY_OBJ_WINDOW),
                obj_ext == (old_self.dispcnt.flags & OBJ_EXTENDED_PALETTES == OBJ_EXTENDED_PALETTES),
                is_a == E::spec_is_a(),
                dot_x <= WIDTH,
                self.bg_lines@ == old_self.bg_lines@,
                self.bgxs_latch == old_self.bgxs_latch,
                self.bgys_latch == old_self.bgys_latch,
                self.pixels@ == old_self.pixels@,
                forall|j: int|
                    0 <= j < WIDTH ==> #[trigger] self.objs_line@[j] == if j < dot_x {
                        obj_dot(old_self, *vram, vcount, j).0
                    } else {
                        old_self.objs_line@[j]
                    },
                forall|j: int|
                    0 <= j < 3 * WIDTH ==> #[trigger] self.windows_lines@[j] == if 2 * WIDTH <= j < 2
                        * WIDTH + dot_x {
                        obj_dot(old_self, *vram, vcount, j - 2 * WIDTH).1
                    } else {
                        old_self.windows_lines@[j]
                    },
            decreases WIDTH - dot_x,
        {
            let ghost x = dot_x as int;
            let ghost n = order@.len();
            assert(obj_dot(old_self, *vram, vcount, x).4);
            let mut pix = OBJPixel::none();
            let mut win = false;
            let mut set = false;
            let mut done = false;
            let mut k: usize = 0;
            while k < order.len() && !done
                invariant
                    engine2d_wf(*self),
                    vram_wf(*vram),
                    regs_same(old_self, *self),
                    self.dispcnt == old_self.dispcnt,
                    order@ == obj_order(old_self, vcount),
                    n == order@.len(),
                    forall|k2: int| 0 <= k2 < order@.len() ==> order@[k2] < 128 && obj_visible(old_self, vcount, order@[k2] as int),
                    objs_line_ok(old_self, *vram, vcount),
                    obj_scan(old_self, *vram, vcount, x, order@, n).4,
                    win_enabled == (old_self.dispcnt.flags & DISPLAY_OBJ_WINDOW == DISPLAY_OBJ_WINDOW),
                    obj_ext == (old_self.dispcnt.flags & OBJ_EXTENDED_PALETTES == OBJ_EXTENDED_PALETTES),
                    is_a == E::spec_is_a(),
                    x == dot_x,
                    dot_x < WIDTH,
                    k <= n,
                    (pix, win, set, done, true) == obj_scan(old_self, *vram, vcount, x, order@, k as nat),
                decreases n - k,
            {
                let i = order[k];
                proof {
                    lemma_scan_ok(old_self, *vram, vcount, x, order@, (k + 1) as nat, n);
                    assert(obj_shape(attr0(old_self, i as int)) != 3);
                    assert(obj_visible(old_self, vcount, i as int));
                    assert(obj_visible(*self, vcount, i as int));
                    assert(obj_sample_ok(old_self, vcount, i as int, x) == obj_sample_ok(
                        *self,
                        vcount,
                        i as int,
                        x,
                    ));
                }
                let sample = self.obj_sample_exec(vram, vcount, i, dot_x);
                proof {
                    assert(obj_sample(old_self, *vram, vcount, i as int, x) == obj_sample(
                        *self,
                        *vram,
                        vcount,
                        i as int,
                        x,
                    ));
                }
                match sample {
                    None => {},
                    Some((palette_num, color_num)) => {
                        let a0 = self.oam_u16_exec(8 * i);
                        let a2 = self.oam_u16_exec(8 * i + 4);
                        proof {
                            lemma_mask_bounds();
                        }
                        let mode = (a0 >> 10u16) & 0x3;
                        if mode == 2 {
                            win = win_enabled;
                            if set {
                                done = true;
                            }
                        } else if !set {
                            let pal = ((a2 >> 12u16) & 0xF) as usize;
                            let bpp8 = (a0 >> 13u16) & 0x1 != 0;
                            let color = if bpp8 && obj_ext {
                                vram.get_obj_ext_pal(is_a, pal * 16 + color_num)
                            } else {
                                self.obj_palettes[palette_num * 16 + color_num]
                            };
                            pix = OBJPixel {
                                color,
                                priority: ((a2 >> 10u16) & 0x3) as u8,
                                semitransparent: mode == 1,
                            };
                            set = true;
                            if win || !win_enabled {
                                done = true;
                            }
                        }
                    },
                }
                k = k + 1;
            }
            proof {
                if done {
                    lemma_scan_done(old_self, *vram, vcount, x, order@, k as nat, n);
                }
            }
            self.objs_line.set(dot_x, pix);
            self.windows_lines.set(2 * WIDTH + dot_x, win);
            dot_x = dot_x + 1;
        }
        assert(self.objs_line@ =~= Seq::new(
            old_self.objs_line@.len(),
            |x: int| obj_dot(old_self, *vram, vcount, x).0,
        ));
        assert(self.windows_lines@ =~= with_row(
            old_self.windows_lines@,
            2,
            |x: int| obj_dot(old_self, *vram, vcount, x).1,
        ));
    }
}

} // verus!
