//! Drawing a whole line: the display mode, and for graphics the layers in
//! the order the background mode asks for, then the composition.
use vstd::prelude::*;
use crate::engine2d::compose::{
    bg_order, bgs_with, composed, process_step, top_layers, top_scan, window_at,
};
use crate::engine2d::engine::{Engine2D, WIDTH, HEIGHT, engine2d_wf};
use crate::engine2d::layers::{
    LineBuffers, affine_line_ok, affine_point, affine_step, buffers_of, in_window, regs_same, text_dot,
    text_dot_ok, text_step, window_step, with_row, affine_xr, affine_yr,
};
use crate::engine2d::objects::{attr0, obj_dot, obj_order, obj_scan, objs_line_ok, objs_step, objs_with};
use crate::engine2d::registers::{
    BGMode, DisplayMode, bright_color, DISPLAY_BG0, DISPLAY_BG1, DISPLAY_BG2, DISPLAY_BG3, DISPLAY_OBJ,
    DISPLAY_WINDOW0, DISPLAY_WINDOW1,
};
use crate::gpu::EngineType;
use crate::vram::{VRAM, vram_wf, bank_base};

verus! {

/// Whether flag `f` of the display control is set.
pub open spec fn on<E: EngineType>(e: Engine2D<E>, f: u32) -> bool {
    e.dispcnt.flags & f == f
}

/// The buffers after the windows and the objects of line `vcount`.
pub open spec fn windows_objs<E: EngineType>(e: Engine2D<E>, v: VRAM, b: LineBuffers, vcount: u16) -> LineBuffers {
    let b1 = if on(e, DISPLAY_WINDOW0) {
        window_step(e, b, vcount, 0)
    } else {
        b
    };
    let b2 = if on(e, DISPLAY_WINDOW1) {
        window_step(e, b1, vcount, 1)
    } else {
        b1
    };
    if on(e, DISPLAY_OBJ) {
        objs_step(e, v, b2, vcount)
    } else {
        b2
    }
}

/// A text background drawn if its flag is on.
pub open spec fn text_if<E: EngineType>(e: Engine2D<E>, v: VRAM, b: LineBuffers, vcount: u16, f: u32, bg: int) -> LineBuffers {
    if on(e, f) {
        text_step(e, v, b, vcount, bg)
    } else {
        b
    }
}

/// An affine background drawn if flag `f` is on.
pub open spec fn affine_if<E: EngineType>(e: Engine2D<E>, v: VRAM, b: LineBuffers, f: u32, bg: int) -> LineBuffers {
    if on(e, f) {
        affine_step(e, v, b, bg)
    } else {
        b
    }
}

/// The background lines for the background mode: in mode 0 four text
/// backgrounds; in mode 1 three, with the fourth flag drawing affine
/// background 2; in mode 2 the flags draw affine 3, text 3, affine 2 and
/// affine 3 in turn.
pub open spec fn bgs_drawn<E: EngineType>(e: Engine2D<E>, v: VRAM, b: LineBuffers, vcount: u16) -> LineBuffers {
    if e.dispcnt.bg_mode == BGMode::Mode0 {
        text_if(
            e,
            v,
            text_if(e, v, text_if(e, v, text_if(e, v, b, vcount, DISPLAY_BG0, 0), vcount, DISPLAY_BG1, 1), vcount, DISPLAY_BG2, 2),
            vcount,
            DISPLAY_BG3,
            3,
        )
    } else if e.dispcnt.bg_mode == BGMode::Mode1 {
        affine_if(
            e,
            v,
            text_if(e, v, text_if(e, v, text_if(e, v, b, vcount, DISPLAY_BG0, 0), vcount, DISPLAY_BG1, 1), vcount, DISPLAY_BG2, 2),
            DISPLAY_BG3,
            2,
        )
    } else {
        affine_if(
            e,
            v,
            affine_if(e, v, text_if(e, v, affine_if(e, v, b, DISPLAY_BG0, 3), vcount, DISPLAY_BG1, 3), DISPLAY_BG2, 2),
            DISPLAY_BG3,
            3,
        )
    }
}

/// The buffers after drawing graphics line `vcount`.
pub open spec fn normal_line<E: EngineType>(e: Engine2D<E>, v: VRAM, b: LineBuffers, vcount: u16) -> LineBuffers {
    process_step(e, bgs_drawn(e, v, windows_objs(e, v, b, vcount), vcount), vcount, 0, 3)
}

/// Whether every text background of the line stays in range.
pub open spec fn text_ok<E: EngineType>(e: Engine2D<E>, v: VRAM, vcount: u16, f: u32, bg: int) -> bool {
    on(e, f) ==> forall|x: int| 0 <= x < WIDTH ==> text_dot_ok(e, v, vcount, bg, x)
}

/// Whether an affine background drawn from buffers `b` stays in range.
pub open spec fn affine_ok<E: EngineType>(e: Engine2D<E>, v: VRAM, b: LineBuffers, f: u32, bg: int) -> bool {
    on(e, f) ==> affine_line_ok(e, v, b, bg)
}

/// Whether drawing graphics line `vcount` stays in range: its background
/// mode is one of the first three, and every layer it draws stays inside
/// VRAM.
pub open spec fn normal_line_ok<E: EngineType>(e: Engine2D<E>, v: VRAM, b: LineBuffers, vcount: u16) -> bool {
    let b3 = windows_objs(e, v, b, vcount);
    &&& e.dispcnt.bg_mode.code() < 3
    &&& on(e, DISPLAY_OBJ) ==> objs_line_ok(e, v, vcount)
    &&& e.dispcnt.bg_mode == BGMode::Mode0 ==> {
        &&& text_ok(e, v, vcount, DISPLAY_BG0, 0)
        &&& text_ok(e, v, vcount, DISPLAY_BG1, 1)
        &&& text_ok(e, v, vcount, DISPLAY_BG2, 2)
        &&& text_ok(e, v, vcount, DISPLAY_BG3, 3)
    }
    &&& e.dispcnt.bg_mode == BGMode::Mode1 ==> {
        &&& text_ok(e, v, vcount, DISPLAY_BG0, 0)
        &&& text_ok(e, v, vcount, DISPLAY_BG1, 1)
        &&& text_ok(e, v, vcount, DISPLAY_BG2, 2)
        &&& affine_ok(
            e,
            v,
            text_if(e, v, text_if(e, v, text_if(e, v, b3, vcount, DISPLAY_BG0, 0), vcount, DISPLAY_BG1, 1), vcount, DISPLAY_BG2, 2),
            DISPLAY_BG3,
            2,
        )
    }
    &&& e.dispcnt.bg_mode == BGMode::Mode2 ==> {
        let b4 = affine_if(e, v, b3, DISPLAY_BG0, 3);
        let b5 = text_if(e, v, b4, vcount, DISPLAY_BG1, 3);
        let b6 = affine_if(e, v, b5, DISPLAY_BG2, 2);
        &&& affine_ok(e, v, b3, DISPLAY_BG0, 3)
        &&& text_ok(e, v, vcount, DISPLAY_BG1, 3)
        &&& affine_ok(e, v, b5, DISPLAY_BG2, 2)
        &&& affine_ok(e, v, b6, DISPLAY_BG3, 3)
    }
}

/// The color at index `index` of the VRAM bank shown in display mode 2,
/// or 0 while that bank is not mapped for the LCDC.
pub open spec fn lcdc_color(v: VRAM, block: int, index: int) -> u16 {
    if v.lcdc_enabled@[block] {
        (v.mem@[bank_base(block) + 2 * index] as u16) | ((v.mem@[bank_base(block) + 2 * index + 1] as u16) << 8u16)
    } else {
        0
    }
}

/// The buffers after drawing line `vcount` in the engine's display mode:
/// white, its graphics, or a VRAM bank.
pub open spec fn line_drawn<E: EngineType>(e: Engine2D<E>, v: VRAM, b: LineBuffers, vcount: u16) -> LineBuffers {
    if e.dispcnt.display_mode == DisplayMode::Mode0 {
        (b.0, b.1, b.2, b.3, b.4, with_row(b.5, vcount as int, |x: int| bright_color(e.master_bright, 0x7FFF)))
    } else if e.dispcnt.display_mode == DisplayMode::Mode1 {
        normal_line(e, v, b, vcount)
    } else {
        (
            b.0,
            b.1,
            b.2,
            b.3,
            b.4,
            with_row(
                b.5,
                vcount as int,
                |x: int|
                    bright_color(e.master_bright, lcdc_color(v, e.dispcnt.vram_block as int, vcount * WIDTH + x)),
            ),
        )
    }
}

/// Whether line `vcount` can be drawn: display mode 3 (main memory) is
/// not, and graphics must stay in range.
pub open spec fn line_ok<E: EngineType>(e: Engine2D<E>, v: VRAM, vcount: u16) -> bool {
    &&& e.dispcnt.display_mode != DisplayMode::Mode3
    &&& e.dispcnt.display_mode == DisplayMode::Mode1 ==> normal_line_ok(e, v, buffers_of(e), vcount)
}

// Each step depends on the registers only, not on the buffers it is not
// given.
proof fn lemma_window_frame<E: EngineType>(e: Engine2D<E>, f: Engine2D<E>, b: LineBuffers, vcount: u16, wi: int)
    requires
        regs_same(e, f),
    ensures
        window_step(e, b, vcount, wi) == window_step(f, b, vcount, wi),
{
    assert(with_row(b.2, wi, |x: int| in_window(e, vcount, wi, x)) =~= with_row(
        b.2,
        wi,
        |x: int| in_window(f, vcount, wi, x),
    ));
}

proof fn lemma_text_frame<E: EngineType>(e: Engine2D<E>, f: Engine2D<E>, v: VRAM, b: LineBuffers, vcount: u16, bg: int)
    requires
        regs_same(e, f),
    ensures
        text_step(e, v, b, vcount, bg) == text_step(f, v, b, vcount, bg),
        forall|x: int| text_dot_ok(e, v, vcount, bg, x) == text_dot_ok(f, v, vcount, bg, x),
{
    assert forall|x: int| text_dot(e, v, vcount, bg, x) == text_dot(f, v, vcount, bg, x) by {}
    assert(with_row(b.0, bg, |x: int| text_dot(e, v, vcount, bg, x)) =~= with_row(
        b.0,
        bg,
        |x: int| text_dot(f, v, vcount, bg, x),
    ));
}

proof fn lemma_affine_frame<E: EngineType>(e: Engine2D<E>, f: Engine2D<E>, v: VRAM, b: LineBuffers, bg: int)
    requires
        regs_same(e, f),
    ensures
        affine_step(e, v, b, bg) == affine_step(f, v, b, bg),
        affine_line_ok(e, v, b, bg) == affine_line_ok(f, v, b, bg),
{
    assert forall|x: int|
        affine_point(e, v, bg, affine_xr(e, b, bg, x), affine_yr(e, b, bg, x)) == affine_point(
            f,
            v,
            bg,
            affine_xr(f, b, bg, x),
            affine_yr(f, b, bg, x),
        ) by {}
    assert(with_row(b.0, bg, |x: int| affine_point(e, v, bg, affine_xr(e, b, bg, x), affine_yr(e, b, bg, x)))
        =~= with_row(b.0, bg, |x: int| affine_point(f, v, bg, affine_xr(f, b, bg, x), affine_yr(f, b, bg, x))));
}

proof fn lemma_objs_with_frame<E: EngineType>(e: Engine2D<E>, f: Engine2D<E>, vcount: u16, p: int, n: nat)
    requires
        regs_same(e, f),
    ensures
        objs_with(e, vcount, p, n) == objs_with(f, vcount, p, n),
    decreases n,
{
    if n > 0 {
        lemma_objs_with_frame(e, f, vcount, p, (n - 1) as nat);
    }
}

proof fn lemma_obj_scan_frame<E: EngineType>(e: Engine2D<E>, f: Engine2D<E>, v: VRAM, vcount: u16, x: int, order: Seq<usize>, k: nat)
    requires
        regs_same(e, f),
    ensures
        obj_scan(e, v, vcount, x, order, k) == obj_scan(f, v, vcount, x, order, k),
    decreases k,
{
    if k > 0 {
        lemma_obj_scan_frame(e, f, v, vcount, x, order, (k - 1) as nat);
    }
}

proof fn lemma_objs_frame<E: EngineType>(e: Engine2D<E>, f: Engine2D<E>, v: VRAM, b: LineBuffers, vcount: u16)
    requires
        regs_same(e, f),
    ensures
        objs_step(e, v, b, vcount) == objs_step(f, v, b, vcount),
        objs_line_ok(e, v, vcount) == objs_line_ok(f, v, vcount),
{
    lemma_objs_with_frame(e, f, vcount, 0, 128);
    lemma_objs_with_frame(e, f, vcount, 1, 128);
    lemma_objs_with_frame(e, f, vcount, 2, 128);
    lemma_objs_with_frame(e, f, vcount, 3, 128);
    assert(obj_order(e, vcount) == obj_order(f, vcount));
    assert forall|i: int| attr0(e, i) == attr0(f, i) by {}
    assert forall|x: int| obj_dot(e, v, vcount, x) == obj_dot(f, v, vcount, x) by {
        lemma_obj_scan_frame(e, f, v, vcount, x, obj_order(e, vcount), obj_order(e, vcount).len());
    }
    assert(Seq::new(b.1.len(), |x: int| obj_dot(e, v, vcount, x).0) =~= Seq::new(
        b.1.len(),
        |x: int| obj_dot(f, v, vcount, x).0,
    ));
    assert(with_row(b.2, 2, |x: int| obj_dot(e, v, vcount, x).1) =~= with_row(
        b.2,
        2,
        |x: int| obj_dot(f, v, vcount, x).1,
    ));
}

proof fn lemma_bgs_with_frame<E: EngineType>(e: Engine2D<E>, f: Engine2D<E>, s: int, p: int, n: int)
    requires
        regs_same(e, f),
    ensures
        bgs_with(e, s, p, n) == bgs_with(f, s, p, n),
    decreases n - s,
{
    if n > s {
        lemma_bgs_with_frame(e, f, s, p, n - 1);
    }
}

proof fn lemma_top_scan_frame<E: EngineType>(e: Engine2D<E>, f: Engine2D<E>, b: LineBuffers, x: int, order: Seq<usize>, k: nat)
    requires
        regs_same(e, f),
    ensures
        top_scan(e, b, x, order, k) == top_scan(f, b, x, order, k),
    decreases k,
{
    if k > 0 {
        lemma_top_scan_frame(e, f, b, x, order, (k - 1) as nat);
    }
}

proof fn lemma_process_frame<E: EngineType>(e: Engine2D<E>, f: Engine2D<E>, b: LineBuffers, vcount: u16)
    requires
        regs_same(e, f),
    ensures
        process_step(e, b, vcount, 0, 3) == process_step(f, b, vcount, 0, 3),
{
    lemma_bgs_with_frame(e, f, 0, 0, 4);
    lemma_bgs_with_frame(e, f, 0, 1, 4);
    lemma_bgs_with_frame(e, f, 0, 2, 4);
    lemma_bgs_with_frame(e, f, 0, 3, 4);
    let order = bg_order(e, 0, 3);
    assert(order == bg_order(f, 0, 3));
    assert forall|x: int| composed(e, b, order, x) == composed(f, b, order, x) by {
        lemma_top_scan_frame(e, f, b, x, order, order.len());
        assert(window_at(e, b, x) == window_at(f, b, x));
        assert(top_layers(e, b, order, x) == top_layers(f, b, order, x));
    }
    assert(with_row(b.5, vcount as int, |x: int| bright_color(e.master_bright, composed(e, b, order, x)))
        =~= with_row(b.5, vcount as int, |x: int| bright_color(f.master_bright, composed(f, b, order, x))));
}

impl<E: EngineType> Engine2D<E> {
    fn text_if_exec(&mut self, vram: &VRAM, vcount: u16, flag: u32, bg_i: usize, Ghost(e0): Ghost<Engine2D<E>>)
        requires
            engine2d_wf(*old(self)),
            vram_wf(*vram),
            bg_i < 4,
            regs_same(e0, *old(self)),
            text_ok(e0, *vram, vcount, flag, bg_i as int),
        ensures
            engine2d_wf(*final(self)),
            regs_same(e0, *final(self)),
            buffers_of(*final(self)) == text_if(e0, *vram, buffers_of(*old(self)), vcount, flag, bg_i as int),
    {
        if self.dispcnt.contains(flag) {
            proof {
                lemma_text_frame(e0, *self, *vram, buffers_of(*self), vcount, bg_i as int);
            }
            self.render_text_line(vram, vcount, bg_i);
        }
    }

    fn affine_if_exec(&mut self, vram: &VRAM, flag: u32, bg_i: usize, Ghost(e0): Ghost<Engine2D<E>>)
        requires
            engine2d_wf(*old(self)),
            vram_wf(*vram),
            2 <= bg_i < 4,
            regs_same(e0, *old(self)),
            affine_ok(e0, *vram, buffers_of(*old(self)), flag, bg_i as int),
        ensures
            engine2d_wf(*final(self)),
            regs_same(e0, *final(self)),
            buffers_of(*final(self)) == affine_if(e0, *vram, buffers_of(*old(self)), flag, bg_i as int),
    {
        if self.dispcnt.contains(flag) {
            proof {
                lemma_affine_frame(e0, *self, *vram, buffers_of(*self), bg_i as int);
            }
            self.render_affine_line(vram, bg_i);
        }
    }

    /// Draws graphics line `vcount`: the windows, the objects, the
    /// backgrounds of the background mode, and their composition.
    pub fn render_normal_line(&mut self, vram: &VRAM, vcount: u16)
        requires
            engine2d_wf(*old(self)),
            vram_wf(*vram),
            vcount < HEIGHT,
            normal_line_ok(*old(self), *vram, buffers_of(*old(self)), vcount),
        ensures
            engine2d_wf(*final(self)),
            regs_same(*old(self), *final(self)),
            buffers_of(*final(self)) == normal_line(*old(self), *vram, buffers_of(*old(self)), vcount),
    {
        let ghost e0 = *self;
        let ghost b0 = buffers_of(e0);
        if self.dispcnt.contains(DISPLAY_WINDOW0) {
            self.render_window(vcount, 0);
        }
        let ghost b1 = buffers_of(*self);
        assert(b1 == (if on(e0, DISPLAY_WINDOW0) {
            window_step(e0, b0, vcount, 0)
        } else {
            b0
        }));
        if self.dispcnt.contains(DISPLAY_WINDOW1) {
            proof {
                lemma_window_frame(e0, *self, b1, vcount, 1);
            }
            self.render_window(vcount, 1);
        }
        let ghost b2 = buffers_of(*self);
        if self.dispcnt.contains(DISPLAY_OBJ) {
            proof {
                lemma_objs_frame(e0, *self, *vram, b2, vcount);
            }
            self.render_objs_line(vram, vcount);
        }
        let ghost b3 = buffers_of(*self);
        assert(b3 == windows_objs(e0, *vram, b0, vcount));
        match self.dispcnt.bg_mode {
            BGMode::Mode0 => {
                self.text_if_exec(vram, vcount, DISPLAY_BG0, 0, Ghost(e0));
                self.text_if_exec(vram, vcount, DISPLAY_BG1, 1, Ghost(e0));
                self.text_if_exec(vram, vcount, DISPLAY_BG2, 2, Ghost(e0));
                self.text_if_exec(vram, vcount, DISPLAY_BG3, 3, Ghost(e0));
            },
            BGMode::Mode1 => {
                self.text_if_exec(vram, vcount, DISPLAY_BG0, 0, Ghost(e0));
                self.text_if_exec(vram, vcount, DISPLAY_BG1, 1, Ghost(e0));
                self.text_if_exec(vram, vcount, DISPLAY_BG2, 2, Ghost(e0));
                self.affine_if_exec(vram, DISPLAY_BG3, 2, Ghost(e0));
            },
            _ => {
                self.affine_if_exec(vram, DISPLAY_BG0, 3, Ghost(e0));
                self.text_if_exec(vram, vcount, DISPLAY_BG1, 3, Ghost(e0));
                self.affine_if_exec(vram, DISPLAY_BG2, 2, Ghost(e0));
                self.affine_if_exec(vram, DISPLAY_BG3, 3, Ghost(e0));
            },
        }
        let ghost b4 = buffers_of(*self);
        assert(b4 == bgs_drawn(e0, *vram, b3, vcount));
        proof {
            lemma_process_frame(e0, *self, b4, vcount);
        }
        self.process_lines(vcount, 0, 3);
    }

    /// Draws line `vcount` in the engine's display mode.
    pub fn render_line(&mut self, vram: &VRAM, vcount: u16)
        requires
            engine2d_wf(*old(self)),
            vram_wf(*vram),
            vcount < HEIGHT,
            line_ok(*old(self), *vram, vcount),
        ensures
            engine2d_wf(*final(self)),
            regs_same(*old(self), *final(self)),
            buffers_of(*final(self)) == line_drawn(*old(self), *vram, buffers_of(*old(self)), vcount),
    {
        let ghost e0 = *self;
        match self.dispcnt.display_mode {
            DisplayMode::Mode1 => {
                self.render_normal_line(vram, vcount);
            },
            DisplayMode::Mode0 => {
                let mut dot_x: usize = 0;
                while dot_x < WIDTH
                    invariant
                        engine2d_wf(*self),
                        regs_same(e0, *self),
                        vcount < HEIGHT,
                        dot_x <= WIDTH,
                        self.bg_lines@ == e0.bg_lines@,
                        self.objs_line@ == e0.objs_line@,
                        self.windows_lines@ == e0.windows_lines@,
                        self.bgxs_latch == e0.bgxs_latch,
                        self.bgys_latch == e0.bgys_latch,
                        forall|j: int|
                            0 <= j < WIDTH * HEIGHT ==> #[trigger] self.pixels@[j] == if vcount * WIDTH <= j
                                < vcount * WIDTH + dot_x {
                                bright_color(e0.master_bright, 0x7FFF)
                            } else {
                                e0.pixels@[j]
                            },
                    decreases WIDTH - dot_x,
                {
                    self.set_pixel(vcount, dot_x, 0x7FFF);
                    dot_x = dot_x + 1;
                }
                assert(self.pixels@ =~= with_row(e0.pixels@, vcount as int, |x: int| bright_color(e0.master_bright, 0x7FFF)));
            },
            _ => {
                let block = self.dispcnt.vram_block;
                let bank = vram.get_lcdc_bank(block);
                let mut dot_x: usize = 0;
                while dot_x < WIDTH
                    invariant
                        engine2d_wf(*self),
                        vram_wf(*vram),
                        regs_same(e0, *self),
                        block == e0.dispcnt.vram_block,
                        block < 4,
                        vcount < HEIGHT,
                        dot_x <= WIDTH,
                        e0.dispcnt.display_mode == DisplayMode::Mode2,
                        vram.lcdc_enabled@[block as int] ==> bank.is_some() && bank.unwrap()@ == vram.mem@.subrange(
                            bank_base(block as int),
                            bank_base(block as int) + 0x2_0000,
                        ),
                        !vram.lcdc_enabled@[block as int] ==> bank.is_none(),
                        self.bg_lines@ == e0.bg_lines@,
                        self.objs_line@ == e0.objs_line@,
                        self.windows_lines@ == e0.windows_lines@,
                        self.bgxs_latch == e0.bgxs_latch,
                        self.bgys_latch == e0.bgys_latch,
                        forall|j: int|
                            0 <= j < WIDTH * HEIGHT ==> #[trigger] self.pixels@[j] == if vcount * WIDTH <= j
                                < vcount * WIDTH + dot_x {
                                bright_color(
                                    e0.master_bright,
                                    lcdc_color(*vram, block as int, j),
                                )
                            } else {
                                e0.pixels@[j]
                            },
                    decreases WIDTH - dot_x,
                {
                    let index = vcount as usize * WIDTH + dot_x;
                    let color: u16 = match bank {
                        Some(mem) => (mem[index * 2] as u16) | ((mem[index * 2 + 1] as u16) << 8u16),
                        None => 0,
                    };
                    self.set_pixel(vcount, dot_x, color);
                    dot_x = dot_x + 1;
                }
                assert(self.pixels@ =~= with_row(
                    e0.pixels@,
                    vcount as int,
                    |x: int| bright_color(e0.master_bright, lcdc_color(*vram, e0.dispcnt.vram_block as int, vcount * WIDTH + x)),
                ));
            },
        }
    }
}

} // verus!
