//! Composing a line: for each dot, the window that applies, the two top
//! layers by priority, and the color special effect between them.
use vstd::prelude::*;
use crate::bits::lemma_mask_bounds;
use crate::engine2d::engine::{Engine2D, Layer, OBJPixel, TRANSPARENT_COLOR, WIDTH, HEIGHT, engine2d_wf};
use crate::engine2d::layers::{LineBuffers, buffers_of, regs_same, with_row};
use crate::engine2d::registers::{
    BLDCNT, ColorSFX, WindowControl, bright_color, DISPLAY_BG0, DISPLAY_BG1, DISPLAY_BG2, DISPLAY_BG3,
    DISPLAY_OBJ,
};
use crate::gpu::EngineType;

verus! {

/// Whether background `i` is switched on in the display control.
pub open spec fn bg_on<E: EngineType>(e: Engine2D<E>, i: int) -> bool {
    e.dispcnt.flags & (1u32 << (8 + i) as u32) != 0
}

/// The backgrounds from `s` up to `n` (exclusive) that are on and have
/// priority `p`, in order.
pub open spec fn bgs_with<E: EngineType>(e: Engine2D<E>, s: int, p: int, n: int) -> Seq<usize>
    decreases n - s,
{
    if n <= s {
        Seq::empty()
    } else {
        let rest = bgs_with(e, s, p, n - 1);
        if bg_on(e, n - 1) && e.bgcnts@[n - 1].spec_priority() == p {
            rest.push((n - 1) as usize)
        } else {
            rest
        }
    }
}

/// The backgrounds from `s` to `t` that are on, by priority and then by
/// number.
pub open spec fn bg_order<E: EngineType>(e: Engine2D<E>, s: int, t: int) -> Seq<usize> {
    bgs_with(e, s, 0, t + 1) + bgs_with(e, s, 1, t + 1) + bgs_with(e, s, 2, t + 1) + bgs_with(e, s, 3, t + 1)
}

/// The backgrounds of priority below `p`, and of priority `p` below `n`.
pub open spec fn bg_order_prefix<E: EngineType>(e: Engine2D<E>, s: int, t: int, p: int, n: int) -> Seq<usize> {
    if p == 0 {
        bgs_with(e, s, 0, n)
    } else if p == 1 {
        bgs_with(e, s, 0, t + 1) + bgs_with(e, s, 1, n)
    } else if p == 2 {
        bgs_with(e, s, 0, t + 1) + bgs_with(e, s, 1, t + 1) + bgs_with(e, s, 2, n)
    } else {
        bgs_with(e, s, 0, t + 1) + bgs_with(e, s, 1, t + 1) + bgs_with(e, s, 2, t + 1) + bgs_with(e, s, 3, n)
    }
}

/// Whether background `a` is drawn over background `b`: a lower priority
/// value first, and between equal priorities the lower number.
pub open spec fn bg_before<E: EngineType>(e: Engine2D<E>, a: usize, b: usize) -> bool {
    let pa = e.bgcnts@[a as int].spec_priority();
    let pb = e.bgcnts@[b as int].spec_priority();
    pa < pb || (pa == pb && a < b)
}

/// The backgrounds of priority `p` among `s..n` are those that are on,
/// each once, in increasing number.
proof fn lemma_bgs_with<E: EngineType>(e: Engine2D<E>, s: int, p: int, n: int)
    requires
        0 <= s,
        n <= 4,
    ensures
        forall|i: int|
            0 <= i < bgs_with(e, s, p, n).len() ==> {
                let b = #[trigger] bgs_with(e, s, p, n)[i];
                &&& s <= b < n
                &&& bg_on(e, b as int)
                &&& e.bgcnts@[b as int].spec_priority() == p
            },
        forall|i: int, j: int|
            0 <= i < j < bgs_with(e, s, p, n).len() ==> #[trigger] bgs_with(e, s, p, n)[i]
                < #[trigger] bgs_with(e, s, p, n)[j],
        forall|k: int|
            s <= k < n && #[trigger] bg_on(e, k) && e.bgcnts@[k].spec_priority() == p ==> bgs_with(
                e,
                s,
                p,
                n,
            ).contains(k as usize),
    decreases n - s,
{
    if n > s {
        lemma_bgs_with(e, s, p, n - 1);
        let prev = bgs_with(e, s, p, n - 1);
        if bg_on(e, n - 1) && e.bgcnts@[n - 1].spec_priority() == p {
            let cur = prev.push((n - 1) as usize);
            assert(bgs_with(e, s, p, n) == cur);
            assert forall|k: int|
                s <= k < n && #[trigger] bg_on(e, k) && e.bgcnts@[k].spec_priority() == p implies cur.contains(
                k as usize,
            ) by {
                if k < n - 1 {
                    let w = choose|w: int| 0 <= w < prev.len() && prev[w] == k as usize;
                    assert(cur[w] == k as usize);
                } else {
                    assert(cur[prev.len() as int] == k as usize);
                }
            }
            assert forall|i: int| 0 <= i < cur.len() implies s <= #[trigger] cur[i] < n by {
                if i < prev.len() {
                    assert(cur[i] == prev[i]);
                }
            }
        } else {
            assert(bgs_with(e, s, p, n) == prev);
        }
    }
}

/// Two runs in drawing order, the first of lower priorities than the
/// second's `p`, stay in drawing order one after the other.
proof fn lemma_order_concat<E: EngineType>(e: Engine2D<E>, x: Seq<usize>, y: Seq<usize>, p: int)
    requires
        forall|i: int, j: int| 0 <= i < j < x.len() ==> bg_before(e, #[trigger] x[i], #[trigger] x[j]),
        forall|i: int, j: int| 0 <= i < j < y.len() ==> bg_before(e, #[trigger] y[i], #[trigger] y[j]),
        forall|i: int| 0 <= i < x.len() ==> e.bgcnts@[#[trigger] x[i] as int].spec_priority() < p,
        forall|i: int| 0 <= i < y.len() ==> e.bgcnts@[#[trigger] y[i] as int].spec_priority() == p,
    ensures
        forall|i: int, j: int|
            0 <= i < j < (x + y).len() ==> bg_before(e, #[trigger] (x + y)[i], #[trigger] (x + y)[j]),
        forall|i: int| 0 <= i < (x + y).len() ==> e.bgcnts@[#[trigger] (x + y)[i] as int].spec_priority() <= p,
{
    assert forall|i: int, j: int| 0 <= i < j < (x + y).len() implies bg_before(
        e,
        #[trigger] (x + y)[i],
        #[trigger] (x + y)[j],
    ) by {
        if j < x.len() {
            assert((x + y)[i] == x[i] && (x + y)[j] == x[j]);
        } else if i >= x.len() {
            assert((x + y)[i] == y[i - x.len()] && (x + y)[j] == y[j - x.len()]);
        } else {
            assert((x + y)[i] == x[i] && (x + y)[j] == y[j - x.len()]);
        }
    }
    assert forall|i: int| 0 <= i < (x + y).len() implies e.bgcnts@[#[trigger] (x + y)[i] as int].spec_priority()
        <= p by {
        if i < x.len() {
            assert((x + y)[i] == x[i]);
        } else {
            assert((x + y)[i] == y[i - x.len()]);
        }
    }
}

/// The drawing order of backgrounds `s..=t`: exactly those that are on,
/// each once, a lower priority value first and between equal priorities
/// the lower number first.
pub proof fn lemma_bg_order<E: EngineType>(e: Engine2D<E>, s: int, t: int)
    requires
        0 <= s,
        t < 4,
    ensures
        forall|i: int|
            0 <= i < bg_order(e, s, t).len() ==> s <= #[trigger] bg_order(e, s, t)[i] <= t && bg_on(
                e,
                bg_order(e, s, t)[i] as int,
            ),
        forall|i: int, j: int|
            0 <= i < j < bg_order(e, s, t).len() ==> bg_before(
                e,
                #[trigger] bg_order(e, s, t)[i],
                #[trigger] bg_order(e, s, t)[j],
            ),
        forall|k: int| s <= k <= t && #[trigger] bg_on(e, k) ==> bg_order(e, s, t).contains(k as usize),
{
    lemma_mask_bounds();
    let a = bgs_with(e, s, 0, t + 1);
    let b = bgs_with(e, s, 1, t + 1);
    let c = bgs_with(e, s, 2, t + 1);
    let d = bgs_with(e, s, 3, t + 1);
    lemma_bgs_with(e, s, 0, t + 1);
    lemma_bgs_with(e, s, 1, t + 1);
    lemma_bgs_with(e, s, 2, t + 1);
    lemma_bgs_with(e, s, 3, t + 1);
    assert forall|i: int, j: int| 0 <= i < j < a.len() implies bg_before(e, #[trigger] a[i], #[trigger] a[j]) by {}
    assert forall|i: int, j: int| 0 <= i < j < b.len() implies bg_before(e, #[trigger] b[i], #[trigger] b[j]) by {}
    assert forall|i: int, j: int| 0 <= i < j < c.len() implies bg_before(e, #[trigger] c[i], #[trigger] c[j]) by {}
    assert forall|i: int, j: int| 0 <= i < j < d.len() implies bg_before(e, #[trigger] d[i], #[trigger] d[j]) by {}
    assert forall|i: int| 0 <= i < a.len() implies e.bgcnts@[#[trigger] a[i] as int].spec_priority() < 1 by {}
    lemma_order_concat(e, a, b, 1);
    lemma_order_concat(e, a + b, c, 2);
    lemma_order_concat(e, a + b + c, d, 3);
    let o = bg_order(e, s, t);
    assert(o == a + b + c + d);
    assert forall|i: int| 0 <= i < o.len() implies s <= #[trigger] o[i] <= t && bg_on(e, o[i] as int) by {
        if i < a.len() {
            assert(o[i] == a[i]);
        } else if i < a.len() + b.len() {
            assert(o[i] == b[i - a.len()]);
        } else if i < a.len() + b.len() + c.len() {
            assert(o[i] == c[i - a.len() - b.len()]);
        } else {
            assert(o[i] == d[i - a.len() - b.len() - c.len()]);
        }
    }
    assert forall|k: int| s <= k <= t && #[trigger] bg_on(e, k) implies o.contains(k as usize) by {
        let pk = e.bgcnts@[k].spec_priority();
        assert(pk <= 3);
        if pk == 0 {
            let w = choose|w: int| 0 <= w < a.len() && a[w] == k as usize;
            assert(o[w] == a[w]);
        } else if pk == 1 {
            let w = choose|w: int| 0 <= w < b.len() && b[w] == k as usize;
            assert(o[a.len() + w] == b[w]);
        } else if pk == 2 {
            let w = choose|w: int| 0 <= w < c.len() && c[w] == k as usize;
            assert(o[a.len() + b.len() + w] == c[w]);
        } else {
            let w = choose|w: int| 0 <= w < d.len() && d[w] == k as usize;
            assert(o[a.len() + b.len() + c.len() + w] == d[w]);
        }
    }
}

/// The window control for dot `x`: window 0, window 1 and the object
/// window in that order, then the outside; everything shows when no
/// window is on.
pub open spec fn window_at<E: EngineType>(e: Engine2D<E>, b: LineBuffers, x: int) -> WindowControl {
    if b.2[x] {
        e.win_0_cnt
    } else if b.2[WIDTH + x] {
        e.win_1_cnt
    } else if b.2[2 * WIDTH + x] {
        e.win_obj_cnt
    } else if (e.dispcnt.flags >> 13u32) & 0x7 != 0 {
        e.win_out_cnt
    } else {
        WindowControl(0x3F)
    }
}

/// Whether layer `k` (backgrounds 0-3, objects 4) shows at dot `x`: on in
/// the display control and in the window there.
pub open spec fn layer_on<E: EngineType>(e: Engine2D<E>, b: LineBuffers, k: int, x: int) -> bool {
    let master = if k == 0 {
        DISPLAY_BG0
    } else if k == 1 {
        DISPLAY_BG1
    } else if k == 2 {
        DISPLAY_BG2
    } else if k == 3 {
        DISPLAY_BG3
    } else {
        DISPLAY_OBJ
    };
    e.dispcnt.flags & master == master && window_at(e, b, x).spec_enabled(k as u8)
}

/// The two top layers at a dot while scanning the backgrounds: their
/// colors, layers and priorities, how many were found, and whether the
/// scan stopped.
pub type TopTwo = (u16, u16, Layer, Layer, u8, u8, int, bool);

/// One background of the scan at dot `x`.
pub open spec fn top_step<E: EngineType>(e: Engine2D<E>, b: LineBuffers, x: int, s: TopTwo, bg: int) -> TopTwo {
    let color = b.0[bg * WIDTH + x];
    if s.7 || color == TRANSPARENT_COLOR || !layer_on(e, b, bg, x) {
        s
    } else {
        let layer = if bg == 0 {
            Layer::BG0
        } else if bg == 1 {
            Layer::BG1
        } else if bg == 2 {
            Layer::BG2
        } else {
            Layer::BG3
        };
        let p = e.bgcnts@[bg].spec_priority();
        if s.6 == 0 {
            (color, s.1, layer, s.3, p, s.5, 1, false)
        } else {
            (s.0, color, s.2, layer, s.4, p, 1, true)
        }
    }
}

/// The scan over the first `k` backgrounds of `order`, from the backdrop.
pub open spec fn top_scan<E: EngineType>(e: Engine2D<E>, b: LineBuffers, x: int, order: Seq<usize>, k: nat) -> TopTwo
    decreases k,
{
    if k == 0 {
        let bd = e.bg_palettes@[0];
        (bd, bd, Layer::BD, Layer::BD, 4, 4, 0, false)
    } else {
        top_step(e, b, x, top_scan(e, b, x, order, (k - 1) as nat), order[k - 1] as int)
    }
}

/// The two top layers at dot `x` with the objects placed among them:
/// their colors and layers.
pub open spec fn top_layers<E: EngineType>(e: Engine2D<E>, b: LineBuffers, order: Seq<usize>, x: int) -> (u16, u16, Layer, Layer) {
    let s = top_scan(e, b, x, order, order.len());
    let obj = b.1[x];
    if layer_on(e, b, 4, x) && obj.color != TRANSPARENT_COLOR {
        if obj.priority <= s.4 {
            (obj.color, s.0, Layer::OBJ, s.2)
        } else if obj.priority <= s.5 {
            (s.0, obj.color, s.2, Layer::OBJ)
        } else {
            (s.0, s.1, s.2, s.3)
        }
    } else {
        (s.0, s.1, s.2, s.3)
    }
}

/// Channel `i` (red 0, green 1, blue 2) of a 15-bit color.
pub open spec fn channel(c: u16, i: int) -> u16 {
    (c >> (5 * i) as u16) & 0x1F
}

/// A channel of `c0` over `c1` weighted by sixteenths, capped at 31.
pub open spec fn alpha_channel(v1: u16, v2: u16, eva: u16, evb: u16) -> u16 {
    let s = ((v1 * eva + v2 * evb) / 16) as u16;
    if s <= 0x1F {
        s
    } else {
        0x1F
    }
}

/// Three channels packed back, blue highest.
pub open spec fn pack(r: u16, g: u16, b: u16) -> u16 {
    (((b << 5u16) | g) << 5u16) | r
}

/// `c0` blended over `c1`.
pub open spec fn alpha_blend(c0: u16, c1: u16, eva: u16, evb: u16) -> u16 {
    pack(
        alpha_channel(channel(c0, 0), channel(c1, 0), eva, evb),
        alpha_channel(channel(c0, 1), channel(c1, 1), eva, evb),
        alpha_channel(channel(c0, 2), channel(c1, 2), eva, evb),
    )
}

/// `c` brightened (up) or darkened by `evy` sixteenths of the way.
pub open spec fn bright_channel(v: u16, evy: u16, up: bool) -> u16 {
    if up {
        ((v + (0x1F - v) * evy / 16) as u16) & 0x1F
    } else {
        ((v - v * evy / 16) as u16) & 0x1F
    }
}

pub open spec fn brightness(c: u16, evy: u16, up: bool) -> u16 {
    pack(bright_channel(channel(c, 0), evy, up), bright_channel(channel(c, 1), evy, up), bright_channel(channel(c, 2), evy, up))
}

/// A 5-bit value is unchanged by the 5-bit mask.
proof fn lemma_mask5(v: u16)
    requires
        v <= 0x1F,
    ensures
        v & 0x1F == v,
{
    vstd::bits::lemma_u16_low_bits_mask_is_mod(v, 5);
    vstd::bits::lemma_low_bits_mask_values();
    vstd::arithmetic::power2::lemma2_to64();
    assert(vstd::bits::low_bits_mask(5) == 0x1F);
    assert(vstd::arithmetic::power2::pow2(5) == 32);
    assert((vstd::bits::low_bits_mask(5) as u16) == 0x1Fu16);
    assert((vstd::arithmetic::power2::pow2(5) as u16) == 32u16);
    assert(v & (vstd::bits::low_bits_mask(5) as u16) == v % (vstd::arithmetic::power2::pow2(5) as u16));
    assert(v % 32u16 == v);
}

/// What the color effects do to one 5-bit channel: alpha blending with
/// weights `16, 0` keeps the first color and with `0, 16` gives the
/// second; with weights summing to 16 it lands between the two (so a
/// color blended with itself is unchanged). Brightening by `w` sixteenths
/// never darkens and darkening never brightens; by 0 neither changes the
/// channel, and by 16 they reach white (31) and black (0).
pub proof fn lemma_channel_effects(v1: u16, v2: u16, w: u16)
    requires
        v1 <= 0x1F,
        v2 <= 0x1F,
        w <= 16,
    ensures
        alpha_channel(v1, v2, 16, 0) == v1,
        alpha_channel(v1, v2, 0, 16) == v2,
        v1 <= v2 ==> v1 <= alpha_channel(v1, v2, w, (16 - w) as u16) <= v2,
        v2 <= v1 ==> v2 <= alpha_channel(v1, v2, w, (16 - w) as u16) <= v1,
        bright_channel(v1, 0, true) == v1,
        bright_channel(v1, 0, false) == v1,
        bright_channel(v1, 16, true) == 0x1F,
        bright_channel(v1, 16, false) == 0,
        v1 <= bright_channel(v1, w, true) <= 0x1F,
        bright_channel(v1, w, false) <= v1,
{
    let x = (16 - w) as u16;
    assert(v1 * 16 + v2 * 0 == 16 * v1 && v1 * 0 + v2 * 16 == 16 * v2);
    assert(v1 <= v2 ==> 16 * v1 <= v1 * w + v2 * x <= 16 * v2) by (nonlinear_arith)
        requires
            x == 16 - w,
            w <= 16,
    ;
    assert(v2 <= v1 ==> 16 * v2 <= v1 * w + v2 * x <= 16 * v1) by (nonlinear_arith)
        requires
            x == 16 - w,
            w <= 16,
    ;
    let up: int = v1 + (0x1F - v1) * w / 16;
    let down: int = v1 - v1 * w / 16;
    assert(0 <= (0x1F - v1) * w / 16 <= 0x1F - v1) by (nonlinear_arith)
        requires
            v1 <= 0x1F,
            w <= 16,
    ;
    assert(0 <= v1 * w / 16 <= v1) by (nonlinear_arith)
        requires
            w <= 16,
    ;
    assert((0x1F - v1) * 16 / 16 == 0x1F - v1 && v1 * 16 / 16 == v1 && (0x1F - v1) * 0 / 16 == 0
        && v1 * 0 / 16 == 0);
    lemma_mask5(up as u16);
    lemma_mask5(down as u16);
    lemma_mask5(v1);
    lemma_mask5(0x1F);
    lemma_mask5(0);
}

/// The color of dot `x` before master brightness: the top layer, or the
/// color special effect where the window allows it and the top layer is
/// a first target (a semi-transparent object always is, and blends with
/// a second target).
pub open spec fn composed<E: EngineType>(e: Engine2D<E>, b: LineBuffers, order: Seq<usize>, x: int) -> u16 {
    let (c0, c1, l0, l1) = top_layers(e, b, order, x);
    let trans_obj = l0 == Layer::OBJ && b.1[x].semitransparent;
    let t1 = e.bldcnt.target_pixel1.enabled@[l0.index()] || trans_obj;
    let t2 = e.bldcnt.target_pixel2.enabled@[l1.index()];
    if window_at(e, b, x).spec_enabled(5) && t1 {
        let effect = if trans_obj && t2 {
            ColorSFX::AlphaBlend
        } else {
            e.bldcnt.effect
        };
        match effect {
            ColorSFX::NoEffect => c0,
            ColorSFX::AlphaBlend => if t2 {
                alpha_blend(c0, c1, e.bldalpha.eva, e.bldalpha.evb)
            } else {
                c0
            },
            ColorSFX::BrightnessInc => brightness(c0, e.bldy.evy as u16, true),
            ColorSFX::BrightnessDec => brightness(c0, e.bldy.evy as u16, false),
        }
    } else {
        c0
    }
}

/// The buffers after composing line `vcount` from backgrounds `s` to `t`:
/// the picture's line, and the window lines cleared.
pub open spec fn process_step<E: EngineType>(e: Engine2D<E>, b: LineBuffers, vcount: u16, s: int, t: int) -> LineBuffers {
    (
        b.0,
        b.1,
        Seq::new(b.2.len(), |j: int| false),
        b.3,
        b.4,
        with_row(b.5, vcount as int, |x: int| bright_color(e.master_bright, composed(e, b, bg_order(e, s, t), x))),
    )
}

fn channel_exec(c: u16, i: u16) -> (r: u16)
    requires
        i < 3,
    ensures
        r == channel(c, i as int),
        r <= 0x1F,
{
    proof {
        lemma_mask_bounds();
    }
    (c >> (5 * i)) & 0x1F
}

fn alpha_blend_exec(c0: u16, c1: u16, eva: u16, evb: u16) -> (r: u16)
    requires
        eva <= 16,
        evb <= 16,
    ensures
        r == alpha_blend(c0, c1, eva, evb),
{
    let mut out: u16 = 0;
    let mut nv: [u16; 3] = [0; 3];
    let mut i: u16 = 0;
    while i < 3
        invariant
            i <= 3,
            eva <= 16,
            evb <= 16,
            forall|j: int| 0 <= j < i ==> nv@[j] == alpha_channel(channel(c0, j), channel(c1, j), eva, evb),
        decreases 3 - i,
    {
        let v1 = channel_exec(c0, i);
        let v2 = channel_exec(c1, i);
        assert(v1 * eva + v2 * evb <= 31 * 16 * 2) by (nonlinear_arith)
            requires
                v1 <= 31,
                v2 <= 31,
                eva <= 16,
                evb <= 16,
        ;
        let s = (v1 * eva + v2 * evb) / 16;
        nv[i as usize] = if s <= 0x1F {
            s
        } else {
            0x1F
        };
        i = i + 1;
    }
    out = (((nv[2] << 5u16) | nv[1]) << 5u16) | nv[0];
    out
}

fn brightness_exec(c: u16, evy: u16, up: bool) -> (r: u16)
    requires
        evy <= 16,
    ensures
        r == brightness(c, evy, up),
{
    let mut nv: [u16; 3] = [0; 3];
    let mut i: u16 = 0;
    while i < 3
        invariant
            i <= 3,
            evy <= 16,
            forall|j: int| 0 <= j < i ==> nv@[j] == bright_channel(channel(c, j), evy, up),
        decreases 3 - i,
    {
        let v = channel_exec(c, i);
        let n = if up {
            assert((0x1F - v) * evy / 16 <= 0x1F - v) by (nonlinear_arith)
                requires
                    v <= 31,
                    evy <= 16,
            ;
            (v + (0x1F - v) * evy / 16) & 0x1F
        } else {
            assert(v * evy / 16 <= v) by (nonlinear_arith)
                requires
                    evy <= 16,
            ;
            (v - v * evy / 16) & 0x1F
        };
        nv[i as usize] = n;
        i = i + 1;
    }
    (((nv[2] << 5u16) | nv[1]) << 5u16) | nv[0]
}

impl<E: EngineType> Engine2D<E> {
    /// The backgrounds from `start_line` to `end_line` that are on, by
    /// priority.
    fn bg_order_exec(&self, start_line: usize, end_line: usize) -> (r: Vec<usize>)
        requires
            start_line <= end_line < 4,
        ensures
            r@ == bg_order(*self, start_line as int, end_line as int),
            forall|k: int| 0 <= k < r@.len() ==> r@[k] < 4,
    {
        let ghost s = start_line as int;
        let ghost t = end_line as int;
        let mut order: Vec<usize> = Vec::new();
        let mut p: u8 = 0;
        while p < 4
            invariant
                start_line <= end_line < 4,
                s == start_line as int,
                t == end_line as int,
                p <= 4,
                p < 4 ==> order@ == bg_order_prefix(*self, s, t, p as int, s),
                p == 4 ==> order@ == bg_order(*self, s, t),
                forall|k: int| 0 <= k < order@.len() ==> order@[k] < 4,
            decreases 4 - p,
        {
            let mut bg_i: usize = start_line;
            proof {
                assert(bgs_with(*self, s, p as int, s) =~= Seq::empty());
            }
            while bg_i <= end_line
                invariant
                    start_line <= bg_i <= end_line + 1,
                    end_line < 4,
                    s == start_line as int,
                    t == end_line as int,
                    p < 4,
                    order@ == bg_order_prefix(*self, s, t, p as int, bg_i as int),
                    forall|k: int| 0 <= k < order@.len() ==> order@[k] < 4,
                decreases end_line + 1 - bg_i,
            {
                let on = self.dispcnt.flags & (1u32 << (8 + bg_i) as u32) != 0;
                if on && self.bgcnts[bg_i].priority() == p {
                    order.push(bg_i);
                }
                proof {
                    let e = *self;
                    let n = bg_i as int + 1;
                    assert(bgs_with(e, s, p as int, n) == (if bg_on(e, bg_i as int) && e.bgcnts@[bg_i as int].spec_priority()
                        == p {
                        bgs_with(e, s, p as int, bg_i as int).push(bg_i)
                    } else {
                        bgs_with(e, s, p as int, bg_i as int)
                    }));
                    assert(order@ =~= bg_order_prefix(e, s, t, p as int, n));
                }
                bg_i = bg_i + 1;
            }
            proof {
                if p + 1 < 4 {
                    assert(bgs_with(*self, s, (p + 1) as int, s) =~= Seq::empty());
                    assert(order@ =~= bg_order_prefix(*self, s, t, (p + 1) as int, s));
                } else {
                    assert(order@ =~= bg_order(*self, s, t));
                }
            }
            p = p + 1;
        }
        order
    }

    /// The color of dot `dot_x` before master brightness.
    #[verifier::spinoff_prover]
    #[verifier::rlimit(60)]
    fn composed_exec(&self, order: &Vec<usize>, dot_x: usize) -> (r: u16)
        requires
            engine2d_wf(*self),
            dot_x < WIDTH,
            forall|k: int| 0 <= k < order@.len() ==> order@[k] < 4,
        ensures
            r == composed(*self, buffers_of(*self), order@, dot_x as int),
    {
        let ghost b = buffers_of(*self);
        let window_control = if self.windows_lines[dot_x] {
            self.win_0_cnt
        } else if self.windows_lines[WIDTH + dot_x] {
            self.win_1_cnt
        } else if self.windows_lines[2 * WIDTH + dot_x] {
            self.win_obj_cnt
        } else if self.dispcnt.windows_enabled() {
            self.win_out_cnt
        } else {
            WindowControl::all()
        };
        assert(window_control == window_at(*self, b, dot_x as int));
        let enabled: [bool; 5] = [
            self.dispcnt.contains(DISPLAY_BG0) && window_control.enabled(0),
            self.dispcnt.contains(DISPLAY_BG1) && window_control.enabled(1),
            self.dispcnt.contains(DISPLAY_BG2) && window_control.enabled(2),
            self.dispcnt.contains(DISPLAY_BG3) && window_control.enabled(3),
            self.dispcnt.contains(DISPLAY_OBJ) && window_control.enabled(4),
        ];
        assert(forall|k: int| 0 <= k < 5 ==> enabled@[k] == layer_on(*self, b, k, dot_x as int));
        let backdrop = self.bg_palettes[0];
        let mut colors: [u16; 2] = [backdrop, backdrop];
        let mut layers: [Layer; 2] = [Layer::BD, Layer::BD];
        let mut priorities: [u8; 2] = [4, 4];
        let mut i: usize = 0;
        let mut done = false;
        let mut k: usize = 0;
        while k < order.len() && !done
            invariant
                engine2d_wf(*self),
                b == buffers_of(*self),
                dot_x < WIDTH,
                forall|k2: int| 0 <= k2 < order@.len() ==> order@[k2] < 4,
                forall|k3: int| 0 <= k3 < 5 ==> enabled@[k3] == layer_on(*self, b, k3, dot_x as int),
                k <= order@.len(),
                (colors@[0], colors@[1], layers@[0], layers@[1], priorities@[0], priorities@[1], i as int, done)
                    == top_scan(*self, b, dot_x as int, order@, k as nat),
                i < 2,
            decreases order@.len() - k,
        {
            let bg_i = order[k];
            let color = self.bg_lines[bg_i * WIDTH + dot_x];
            if color != TRANSPARENT_COLOR && enabled[bg_i] {
                colors[i] = color;
                layers[i] = Layer::from(bg_i);
                priorities[i] = self.bgcnts[bg_i].priority();
                if i == 0 {
                    i = 1;
                } else {
                    done = true;
                }
            }
            k = k + 1;
        }
        proof {
            if done {
                lemma_top_done(*self, b, dot_x as int, order@, k as nat, order@.len());
            }
        }
        let obj = self.objs_line[dot_x];
        if enabled[4] && obj.color != TRANSPARENT_COLOR {
            if obj.priority <= priorities[0] {
                colors[1] = colors[0];
                layers[1] = layers[0];
                colors[0] = obj.color;
                layers[0] = Layer::OBJ;
            } else if obj.priority <= priorities[1] {
                colors[1] = obj.color;
                layers[1] = Layer::OBJ;
            }
        }
        assert((colors@[0], colors@[1], layers@[0], layers@[1]) == top_layers(*self, b, order@, dot_x as int));
        let trans_obj = match layers[0] {
            Layer::OBJ => obj.semitransparent,
            _ => false,
        };
        let target1_enabled = self.bldcnt.target_pixel1.enabled[layers[0].to_index()] || trans_obj;
        let target2_enabled = self.bldcnt.target_pixel2.enabled[layers[1].to_index()];
        if window_control.enabled(5) && target1_enabled {
            let effect = if trans_obj && target2_enabled {
                ColorSFX::AlphaBlend
            } else {
                self.bldcnt.effect
            };
            match effect {
                ColorSFX::NoEffect => colors[0],
                ColorSFX::AlphaBlend => if target2_enabled {
                    alpha_blend_exec(colors[0], colors[1], self.bldalpha.eva, self.bldalpha.evb)
                } else {
                    colors[0]
                },
                ColorSFX::BrightnessInc => brightness_exec(colors[0], self.bldy.evy as u16, true),
                ColorSFX::BrightnessDec => brightness_exec(colors[0], self.bldy.evy as u16, false),
            }
        } else {
            colors[0]
        }
    }

    /// Composes line `vcount` from the backgrounds `start_line` to
    /// `end_line`, the objects, the windows and the color effects, puts
    /// it in the picture, and clears the window lines.
    pub fn process_lines(&mut self, vcount: u16, start_line: usize, end_line: usize)
        requires
            engine2d_wf(*old(self)),
            vcount < HEIGHT,
            start_line <= end_line < 4,
        ensures
            engine2d_wf(*final(self)),
            regs_same(*old(self), *final(self)),
            buffers_of(*final(self)) == process_step(
                *old(self),
                buffers_of(*old(self)),
                vcount,
                start_line as int,
                end_line as int,
            ),
    {
        let ghost old_self = *self;
        let ghost b = buffers_of(old_self);
        let order = self.bg_order_exec(start_line, end_line);
        let mut dot_x: usize = 0;
        while dot_x < WIDTH
            invariant
                engine2d_wf(*self),
                regs_same(old_self, *self),
                engine2d_wf(old_self),
                self.dispcnt == old_self.dispcnt,
                vcount < HEIGHT,
                b == buffers_of(old_self),
                order@ == bg_order(old_self, start_line as int, end_line as int),
                forall|k: int| 0 <= k < order@.len() ==> order@[k] < 4,
                dot_x <= WIDTH,
                self.bg_lines@ == old_self.bg_lines@,
                self.objs_line@ == old_self.objs_line@,
                self.bgxs_latch == old_self.bgxs_latch,
                self.bgys_latch == old_self.bgys_latch,
                forall|j: int|
                    0 <= j < 3 * WIDTH ==> #[trigger] self.windows_lines@[j] == if j % (WIDTH as int) < dot_x {
                        false
                    } else {
                        old_self.windows_lines@[j]
                    },
                forall|j: int|
                    0 <= j < WIDTH * HEIGHT ==> #[trigger] self.pixels@[j] == if vcount * WIDTH <= j < vcount
                        * WIDTH + dot_x {
                        bright_color(old_self.master_bright, composed(old_self, b, order@, j - vcount * WIDTH))
                    } else {
                        old_self.pixels@[j]
                    },
            decreases WIDTH - dot_x,
        {
            let ghost before = *self;
            let color = self.composed_exec(&order, dot_x);
            proof {
                lemma_composed_frame(old_self, before, b, order@, dot_x as int);
            }
            self.windows_lines.set(dot_x, false);
            self.windows_lines.set(WIDTH + dot_x, false);
            self.windows_lines.set(2 * WIDTH + dot_x, false);
            self.set_pixel(vcount, dot_x, color);
            dot_x = dot_x + 1;
        }
        assert(self.windows_lines@ =~= Seq::new(b.2.len(), |j: int| false));
        assert(self.pixels@ =~= with_row(
            b.5,
            vcount as int,
            |x: int| bright_color(old_self.master_bright, composed(old_self, b, order@, x)),
        ));
    }
}

/// A background scan that has stopped stays as it is.
proof fn lemma_top_done<E: EngineType>(e: Engine2D<E>, b: LineBuffers, x: int, order: Seq<usize>, k: nat, n: nat)
    requires
        k <= n,
        top_scan(e, b, x, order, k).7,
    ensures
        top_scan(e, b, x, order, n) == top_scan(e, b, x, order, k),
    decreases n,
{
    if n > k {
        lemma_top_done(e, b, x, order, k, (n - 1) as nat);
    }
}

/// The composed color at a dot depends on the registers and on the
/// buffers' values at that dot only.
proof fn lemma_composed_frame<E: EngineType>(
    e: Engine2D<E>,
    f: Engine2D<E>,
    b: LineBuffers,
    order: Seq<usize>,
    x: int,
)
    requires
        regs_same(e, f),
        0 <= x < WIDTH,
        b.0 == buffers_of(f).0,
        b.1 == buffers_of(f).1,
        b.2.len() == 3 * WIDTH,
        buffers_of(f).2.len() == 3 * WIDTH,
        b.2[x] == buffers_of(f).2[x],
        b.2[WIDTH + x] == buffers_of(f).2[WIDTH + x],
        b.2[2 * WIDTH + x] == buffers_of(f).2[2 * WIDTH + x],
    ensures
        composed(f, buffers_of(f), order, x) == composed(e, b, order, x),
{
    let fb = buffers_of(f);
    assert(window_at(f, fb, x) == window_at(e, b, x));
    assert forall|k: nat| k <= order.len() implies top_scan(f, fb, x, order, k) == top_scan(e, b, x, order, k) by {
        lemma_top_frame(e, f, b, order, x, k);
    }
}

proof fn lemma_top_frame<E: EngineType>(e: Engine2D<E>, f: Engine2D<E>, b: LineBuffers, order: Seq<usize>, x: int, k: nat)
    requires
        regs_same(e, f),
        0 <= x < WIDTH,
        b.0 == buffers_of(f).0,
        window_at(f, buffers_of(f), x) == window_at(e, b, x),
    ensures
        top_scan(f, buffers_of(f), x, order, k) == top_scan(e, b, x, order, k),
    decreases k,
{
    if k > 0 {
        lemma_top_frame(e, f, b, order, x, (k - 1) as nat);
    }
}

} // verus!
