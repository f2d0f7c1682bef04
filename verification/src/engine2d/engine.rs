//! A 2D engine's state: its registers, palettes, object memory, the
//! lines it draws into and the picture; the register and palette buses.
use vstd::prelude::*;
use crate::bits::lemma_mask_bounds;
use crate::engine2d::registers::{
    BGControl, BLDALPHA, BLDCNT, BLDY, DISPCNT, MOSAIC, MasterBright, MosaicSize, Offset,
    ReferencePointCoord, RotationScalingParameter, WindowControl, WindowDimensions, bldalpha_wf,
    bldalpha_written, bldcnt_written, bright_color, byte16, capped16, dispcnt_byte, dispcnt_wf,
    dispcnt_written, master_bright_wf, mosaic_size_wf, read_byte16, targets_byte, with_byte16,
};
use crate::gpu::EngineType;

verus! {

/// The width and height of a screen in dots.
pub const WIDTH: usize = 256;
pub const HEIGHT: usize = 192;
/// The entries of each palette memory.
pub const PALETTE_SIZE: usize = 0x200;
/// The bytes of object attribute memory.
pub const OAM_SIZE: usize = 0x400;
/// The color a layer gives where it shows nothing.
pub const TRANSPARENT_COLOR: u16 = 0x8000;

/// A layer of the picture: a background, the objects, or the backdrop.
#[derive(Clone, Copy, PartialEq, Eq, Structural, Debug)]
pub enum Layer {
    BG0,
    BG1,
    BG2,
    BG3,
    OBJ,
    BD,
}

impl Layer {
    /// The layer's number: backgrounds 0-3, objects 4, backdrop 5.
    pub open spec fn index(self) -> int {
        match self {
            Layer::BG0 => 0,
            Layer::BG1 => 1,
            Layer::BG2 => 2,
            Layer::BG3 => 3,
            Layer::OBJ => 4,
            Layer::BD => 5,
        }
    }

    /// The layer numbered `value`.
    pub fn from(value: usize) -> (r: Layer)
        requires
            value < 6,
        ensures
            r.index() == value,
    {
        match value {
            0 => Layer::BG0,
            1 => Layer::BG1,
            2 => Layer::BG2,
            3 => Layer::BG3,
            4 => Layer::OBJ,
            _ => Layer::BD,
        }
    }

    pub fn to_index(&self) -> (r: usize)
        ensures
            r == self.index(),
    {
        match self {
            Layer::BG0 => 0,
            Layer::BG1 => 1,
            Layer::BG2 => 2,
            Layer::BG3 => 3,
            Layer::OBJ => 4,
            Layer::BD => 5,
        }
    }
}

/// What the objects put at a dot: a color, its priority, and whether it
/// is semi-transparent.
#[derive(Clone, Copy, PartialEq, Eq, Structural, Debug)]
pub struct OBJPixel {
    pub color: u16,
    pub priority: u8,
    pub semitransparent: bool,
}

/// No object at a dot.
pub open spec fn no_obj_pixel() -> OBJPixel {
    OBJPixel { color: TRANSPARENT_COLOR, priority: 4, semitransparent: false }
}

impl OBJPixel {
    /// No object at a dot.
    pub fn none() -> (r: OBJPixel)
        ensures
            r == no_obj_pixel(),
    {
        OBJPixel { color: TRANSPARENT_COLOR, priority: 4, semitransparent: false }
    }
}

/// A 2D engine.
pub struct Engine2D<E: EngineType> {
    pub dispcnt: DISPCNT<E>,
    pub bgcnts: [BGControl; 4],
    pub hofs: [Offset; 4],
    pub vofs: [Offset; 4],
    pub dxs: [RotationScalingParameter; 2],
    pub dmxs: [RotationScalingParameter; 2],
    pub dys: [RotationScalingParameter; 2],
    pub dmys: [RotationScalingParameter; 2],
    pub bgxs: [ReferencePointCoord; 2],
    pub bgys: [ReferencePointCoord; 2],
    pub bgxs_latch: [ReferencePointCoord; 2],
    pub bgys_latch: [ReferencePointCoord; 2],
    pub mosaic: MOSAIC,
    pub master_bright: MasterBright,
    pub winhs: [WindowDimensions; 2],
    pub winvs: [WindowDimensions; 2],
    pub win_0_cnt: WindowControl,
    pub win_1_cnt: WindowControl,
    pub win_out_cnt: WindowControl,
    pub win_obj_cnt: WindowControl,
    pub bldcnt: BLDCNT,
    pub bldalpha: BLDALPHA,
    pub bldy: BLDY,
    pub bg_palettes: Vec<u16>,
    pub obj_palettes: Vec<u16>,
    pub oam: Vec<u8>,
    pub pixels: Vec<u16>,
    /// The four background lines, one after another.
    pub bg_lines: Vec<u16>,
    pub objs_line: Vec<OBJPixel>,
    /// The window 0, window 1 and object window lines, one after another.
    pub windows_lines: Vec<bool>,
}

/// The engine's invariant: the registers hold values in their ranges and
/// the memories and lines have their sizes.
pub open spec fn engine2d_wf<E: EngineType>(e: Engine2D<E>) -> bool {
    &&& dispcnt_wf(e.dispcnt)
    &&& mosaic_size_wf(e.mosaic.bg_size)
    &&& mosaic_size_wf(e.mosaic.obj_size)
    &&& master_bright_wf(e.master_bright)
    &&& bldalpha_wf(e.bldalpha)
    &&& e.bldy.evy <= 16
    &&& e.bg_palettes@.len() == PALETTE_SIZE
    &&& e.obj_palettes@.len() == PALETTE_SIZE
    &&& e.oam@.len() == OAM_SIZE
    &&& e.pixels@.len() == WIDTH * HEIGHT
    &&& e.bg_lines@.len() == 4 * WIDTH
    &&& e.objs_line@.len() == WIDTH
    &&& e.windows_lines@.len() == 3 * WIDTH
}

/// Whether `a` and `b` agree on everything but the register or memory
/// groups `g1` and `g2`, numbered in the order of the engine's fields.
pub open spec fn same_except<E: EngineType>(a: Engine2D<E>, b: Engine2D<E>, g1: int, g2: int) -> bool {
    &&& (g1 != 0 && g2 != 0 ==> a.dispcnt == b.dispcnt)
    &&& (g1 != 1 && g2 != 1 ==> a.bgcnts == b.bgcnts)
    &&& (g1 != 2 && g2 != 2 ==> a.hofs == b.hofs)
    &&& (g1 != 3 && g2 != 3 ==> a.vofs == b.vofs)
    &&& (g1 != 4 && g2 != 4 ==> a.dxs == b.dxs)
    &&& (g1 != 5 && g2 != 5 ==> a.dmxs == b.dmxs)
    &&& (g1 != 6 && g2 != 6 ==> a.dys == b.dys)
    &&& (g1 != 7 && g2 != 7 ==> a.dmys == b.dmys)
    &&& (g1 != 8 && g2 != 8 ==> a.bgxs == b.bgxs)
    &&& (g1 != 9 && g2 != 9 ==> a.bgys == b.bgys)
    &&& (g1 != 10 && g2 != 10 ==> a.bgxs_latch == b.bgxs_latch)
    &&& (g1 != 11 && g2 != 11 ==> a.bgys_latch == b.bgys_latch)
    &&& (g1 != 12 && g2 != 12 ==> a.mosaic == b.mosaic)
    &&& (g1 != 13 && g2 != 13 ==> a.master_bright == b.master_bright)
    &&& (g1 != 14 && g2 != 14 ==> a.winhs == b.winhs)
    &&& (g1 != 15 && g2 != 15 ==> a.winvs == b.winvs)
    &&& (g1 != 16 && g2 != 16 ==> a.win_0_cnt == b.win_0_cnt)
    &&& (g1 != 17 && g2 != 17 ==> a.win_1_cnt == b.win_1_cnt)
    &&& (g1 != 18 && g2 != 18 ==> a.win_out_cnt == b.win_out_cnt)
    &&& (g1 != 19 && g2 != 19 ==> a.win_obj_cnt == b.win_obj_cnt)
    &&& (g1 != 20 && g2 != 20 ==> a.bldcnt == b.bldcnt)
    &&& (g1 != 21 && g2 != 21 ==> a.bldalpha == b.bldalpha)
    &&& (g1 != 22 && g2 != 22 ==> a.bldy == b.bldy)
    &&& (g1 != 23 && g2 != 23 ==> a.bg_palettes@ == b.bg_palettes@)
    &&& (g1 != 24 && g2 != 24 ==> a.obj_palettes@ == b.obj_palettes@)
    &&& (g1 != 25 && g2 != 25 ==> a.oam@ == b.oam@)
    &&& (g1 != 26 && g2 != 26 ==> a.pixels@ == b.pixels@)
    &&& (g1 != 27 && g2 != 27 ==> a.bg_lines@ == b.bg_lines@)
    &&& (g1 != 28 && g2 != 28 ==> a.objs_line@ == b.objs_line@)
    &&& (g1 != 29 && g2 != 29 ==> a.windows_lines@ == b.windows_lines@)
}

/// A rotation and scaling parameter after writing byte `byte`.
pub open spec fn rs_written(p: RotationScalingParameter, byte: int, value: u8) -> RotationScalingParameter {
    RotationScalingParameter {
        value: (((p.value as u32) & !(0xFFu32 << (8 * byte) as u32)) | ((value as u32) << (8
            * byte) as u32)) as i16,
    }
}

/// A reference point coordinate after writing byte `byte`.
pub open spec fn rpc_written(p: ReferencePointCoord, byte: int, value: u8) -> ReferencePointCoord {
    if byte < 3 {
        ReferencePointCoord {
            value: (((p.value as u32) & !(0xFFu32 << (8 * byte) as u32)) | ((value as u32) << (8
                * byte) as u32)) as i32,
        }
    } else {
        let v = ((p.value as u32) & !(0xFFu32 << 24u32)) | (((value as u32) & 0xF) << 24u32);
        ReferencePointCoord {
            value: if v & 0x0800_0000 != 0 {
                (v | 0xF000_0000) as i32
            } else {
                v as i32
            },
        }
    }
}

/// A window dimension after writing byte `byte`.
pub open spec fn wd_written(d: WindowDimensions, byte: int, value: u8) -> WindowDimensions {
    if byte == 0 {
        WindowDimensions { coord2: value, ..d }
    } else {
        WindowDimensions { coord1: value, ..d }
    }
}

/// A mosaic size after writing `value`.
pub open spec fn mosaic_size_written(value: u8) -> MosaicSize {
    MosaicSize { h_size: ((value & 0xF) + 1) as u16, v_size: (value / 16 + 1) as u16 }
}

/// The byte at offset `off` of the engine's register space.
pub open spec fn register_byte<E: EngineType>(e: Engine2D<E>, off: int) -> u8 {
    if off < 4 {
        dispcnt_byte(e.dispcnt, off as usize)
    } else if 8 <= off < 0x10 {
        byte16(e.bgcnts@[(off - 8) / 2].0, (off % 2) as usize)
    } else if 0x10 <= off < 0x20 {
        let k = (off - 0x10) / 4;
        let r = (off - 0x10) % 4;
        if r < 2 {
            byte16(e.hofs@[k].0, r as usize)
        } else {
            byte16(e.vofs@[k].0, (r - 2) as usize)
        }
    } else if 0x40 <= off < 0x48 {
        let r = off - 0x40;
        let d = if r < 4 {
            e.winhs@[(r % 4) / 2]
        } else {
            e.winvs@[(r % 4) / 2]
        };
        if r % 2 == 0 {
            d.coord2
        } else {
            d.coord1
        }
    } else if off == 0x48 {
        e.win_0_cnt.0
    } else if off == 0x49 {
        e.win_1_cnt.0
    } else if off == 0x4A {
        e.win_out_cnt.0
    } else if off == 0x4B {
        e.win_obj_cnt.0
    } else if off == 0x4C {
        (((e.mosaic.bg_size.v_size - 1) as u8) << 4u8) | ((e.mosaic.bg_size.h_size - 1) as u8)
    } else if off == 0x4D {
        (((e.mosaic.obj_size.v_size - 1) as u8) << 4u8) | ((e.mosaic.obj_size.h_size - 1) as u8)
    } else if off == 0x50 {
        (e.bldcnt.effect.code() << 6u8) | targets_byte(e.bldcnt.target_pixel1)
    } else if off == 0x51 {
        targets_byte(e.bldcnt.target_pixel2)
    } else if off == 0x52 {
        e.bldalpha.raw_eva
    } else if off == 0x53 {
        e.bldalpha.raw_evb
    } else {
        0
    }
}

/// What writing `value` at offset `off` of the register space makes of
/// the engine: the register there takes the byte, and the other
/// registers keep theirs. A write to background 2's reference point also
/// reloads its latch; the rotation, scaling and reference point registers
/// are otherwise plain stores, and offsets with no register are ignored.
pub open spec fn register_written<E: EngineType>(
    old: Engine2D<E>,
    new: Engine2D<E>,
    off: int,
    value: u8,
) -> bool {
    if off < 4 {
        dispcnt_written(old.dispcnt, new.dispcnt, off as usize, value) && same_except(old, new, 0, 0)
    } else if 8 <= off < 0x10 {
        let k = (off - 8) / 2;
        &&& new.bgcnts@ == old.bgcnts@.update(k, BGControl(with_byte16(old.bgcnts@[k].0, (off % 2) as usize, value)))
        &&& same_except(old, new, 1, 1)
    } else if 0x10 <= off < 0x20 {
        let k = (off - 0x10) / 4;
        let r = (off - 0x10) % 4;
        if r < 2 {
            &&& new.hofs@ == old.hofs@.update(k, Offset(with_byte16(old.hofs@[k].0, r as usize, value)))
            &&& same_except(old, new, 2, 2)
        } else {
            &&& new.vofs@ == old.vofs@.update(k, Offset(with_byte16(old.vofs@[k].0, (r - 2) as usize, value)))
            &&& same_except(old, new, 3, 3)
        }
    } else if 0x20 <= off < 0x40 {
        let i = (off - 0x20) / 16;
        let r = (off - 0x20) % 16;
        if r < 2 {
            new.dxs@ == old.dxs@.update(i, rs_written(old.dxs@[i], r, value)) && same_except(old, new, 4, 4)
        } else if r < 4 {
            new.dmxs@ == old.dmxs@.update(i, rs_written(old.dmxs@[i], r - 2, value)) && same_except(
                old,
                new,
                5,
                5,
            )
        } else if r < 6 {
            new.dys@ == old.dys@.update(i, rs_written(old.dys@[i], r - 4, value)) && same_except(old, new, 6, 6)
        } else if r < 8 {
            new.dmys@ == old.dmys@.update(i, rs_written(old.dmys@[i], r - 6, value)) && same_except(
                old,
                new,
                7,
                7,
            )
        } else if r < 12 {
            &&& new.bgxs@ == old.bgxs@.update(i, rpc_written(old.bgxs@[i], r - 8, value))
            &&& if i == 0 {
                new.bgxs_latch@ == old.bgxs_latch@.update(0, new.bgxs@[0]) && same_except(old, new, 8, 10)
            } else {
                same_except(old, new, 8, 8)
            }
        } else {
            &&& new.bgys@ == old.bgys@.update(i, rpc_written(old.bgys@[i], r - 12, value))
            &&& if i == 0 {
                new.bgys_latch@ == old.bgys_latch@.update(0, new.bgys@[0]) && same_except(old, new, 9, 11)
            } else {
                same_except(old, new, 9, 9)
            }
        }
    } else if 0x40 <= off < 0x44 {
        let r = off - 0x40;
        new.winhs@ == old.winhs@.update(r / 2, wd_written(old.winhs@[r / 2], r % 2, value)) && same_except(
            old,
            new,
            14,
            14,
        )
    } else if 0x44 <= off < 0x48 {
        let r = off - 0x44;
        new.winvs@ == old.winvs@.update(r / 2, wd_written(old.winvs@[r / 2], r % 2, value)) && same_except(
            old,
            new,
            15,
            15,
        )
    } else if off == 0x48 {
        new.win_0_cnt == WindowControl(value) && same_except(old, new, 16, 16)
    } else if off == 0x49 {
        new.win_1_cnt == WindowControl(value) && same_except(old, new, 17, 17)
    } else if off == 0x4A {
        new.win_out_cnt == WindowControl(value) && same_except(old, new, 18, 18)
    } else if off == 0x4B {
        new.win_obj_cnt == WindowControl(value) && same_except(old, new, 19, 19)
    } else if off == 0x4C {
        new.mosaic == (MOSAIC { bg_size: mosaic_size_written(value), ..old.mosaic }) && same_except(old, new, 12, 12)
    } else if off == 0x4D {
        new.mosaic == (MOSAIC { obj_size: mosaic_size_written(value), ..old.mosaic }) && same_except(
            old,
            new,
            12,
            12,
        )
    } else if off == 0x50 || off == 0x51 {
        bldcnt_written(old.bldcnt, new.bldcnt, (off - 0x50) as usize, value) && same_except(old, new, 20, 20)
    } else if off == 0x52 || off == 0x53 {
        new.bldalpha == bldalpha_written(old.bldalpha, (off - 0x52) as usize, value) && same_except(
            old,
            new,
            21,
            21,
        )
    } else if off == 0x54 {
        new.bldy == (BLDY { evy: capped16(value) }) && same_except(old, new, 22, 22)
    } else {
        same_except(old, new, 30, 30)
    }
}

/// Reading back a register byte just written gives the written byte, for
/// the background controls and offsets, the window edges and the window
/// controls; the blend coefficients read back their five low bits.
pub proof fn lemma_register_read_after_write<E: EngineType>(
    old: Engine2D<E>,
    new: Engine2D<E>,
    off: int,
    value: u8,
)
    requires
        engine2d_wf(old),
        (8 <= off < 0x20) || (0x40 <= off < 0x4C) || off == 0x52 || off == 0x53,
        register_written(old, new, off, value),
    ensures
        off < 0x52 ==> register_byte(new, off) == value,
        off >= 0x52 ==> register_byte(new, off) == value & 0x1F,
{
    crate::engine2d::registers::lemma_byte16_after_write(0, value);
    if 8 <= off < 0x10 {
        let k = (off - 8) / 2;
        crate::engine2d::registers::lemma_byte16_after_write(old.bgcnts@[k].0, value);
    } else if 0x10 <= off < 0x20 {
        let k = (off - 0x10) / 4;
        crate::engine2d::registers::lemma_byte16_after_write(old.hofs@[k].0, value);
        crate::engine2d::registers::lemma_byte16_after_write(old.vofs@[k].0, value);
    }
}

/// The palette entry that byte address `addr` of palette memory falls in:
/// backgrounds in the first half, objects in the second.
pub open spec fn palette_index(addr: int) -> int {
    ((addr % (2 * PALETTE_SIZE as int)) % (PALETTE_SIZE as int)) / 2
}

impl<E: EngineType> Engine2D<E> {
    /// An engine at reset: registers clear, memories zero.
    pub fn new() -> (r: Engine2D<E>)
        ensures
            engine2d_wf(r),
            r.dispcnt.flags == 0,
            forall|i: int| 0 <= i < PALETTE_SIZE ==> r.bg_palettes@[i] == 0 && r.obj_palettes@[i] == 0,
            forall|i: int| 0 <= i < OAM_SIZE ==> r.oam@[i] == 0,
            forall|i: int| 0 <= i < WIDTH * HEIGHT ==> r.pixels@[i] == 0,
            forall|i: int| 0 <= i < WIDTH ==> r.objs_line@[i] == no_obj_pixel(),
            forall|i: int| 0 <= i < 3 * WIDTH ==> !r.windows_lines@[i],
    {
        Engine2D {
            dispcnt: DISPCNT::new(),
            bgcnts: [BGControl::new(); 4],
            hofs: [Offset::new(); 4],
            vofs: [Offset::new(); 4],
            dxs: [RotationScalingParameter::new(); 2],
            dmxs: [RotationScalingParameter::new(); 2],
            dys: [RotationScalingParameter::new(); 2],
            dmys: [RotationScalingParameter::new(); 2],
            bgxs: [ReferencePointCoord::new(); 2],
            bgys: [ReferencePointCoord::new(); 2],
            bgxs_latch: [ReferencePointCoord::new(); 2],
            bgys_latch: [ReferencePointCoord::new(); 2],
            mosaic: MOSAIC::new(),
            master_bright: MasterBright::new(),
            winhs: [WindowDimensions::new(); 2],
            winvs: [WindowDimensions::new(); 2],
            win_0_cnt: WindowControl::new(),
            win_1_cnt: WindowControl::new(),
            win_out_cnt: WindowControl::new(),
            win_obj_cnt: WindowControl::new(),
            bldcnt: BLDCNT::new(),
            bldalpha: BLDALPHA::new(),
            bldy: BLDY::new(),
            bg_palettes: vec![0u16; PALETTE_SIZE],
            obj_palettes: vec![0u16; PALETTE_SIZE],
            oam: vec![0u8; OAM_SIZE],
            pixels: vec![0u16; WIDTH * HEIGHT],
            bg_lines: vec![0u16; 4 * WIDTH],
            objs_line: vec![OBJPixel::none(); WIDTH],
            windows_lines: vec![false; 3 * WIDTH],
        }
    }

    /// Reads the register byte at `addr` of the engine's space (its own
    /// 4K page of I/O).
    pub fn read_register(&self, addr: u32) -> (r: u8)
        requires
            (addr >> 12u32) & !1u32 == 0x04000,
            engine2d_wf(*self),
        ensures
            r == register_byte(*self, (addr & 0xFFF) as int),
    {
        proof {
            lemma_mask_bounds();
        }
        let off = (addr & 0xFFF) as usize;
        if off < 4 {
            self.dispcnt.read(off)
        } else if 8 <= off && off < 0x10 {
            self.bgcnts[(off - 8) / 2].read(off % 2)
        } else if 0x10 <= off && off < 0x20 {
            let k = (off - 0x10) / 4;
            let r = (off - 0x10) % 4;
            if r < 2 {
                self.hofs[k].read(r)
            } else {
                self.vofs[k].read(r - 2)
            }
        } else if 0x20 <= off && off < 0x40 {
            0
        } else if 0x40 <= off && off < 0x48 {
            let r = off - 0x40;
            let d = if r < 4 {
                self.winhs[(r % 4) / 2]
            } else {
                self.winvs[(r % 4) / 2]
            };
            d.read(r % 2)
        } else if off == 0x48 {
            self.win_0_cnt.read(0)
        } else if off == 0x49 {
            self.win_1_cnt.read(0)
        } else if off == 0x4A {
            self.win_out_cnt.read(0)
        } else if off == 0x4B {
            self.win_obj_cnt.read(0)
        } else if off == 0x4C || off == 0x4D {
            self.mosaic.read(off - 0x4C)
        } else if off == 0x50 || off == 0x51 {
            self.bldcnt.read(off - 0x50)
        } else if off == 0x52 || off == 0x53 {
            self.bldalpha.read(off - 0x52)
        } else {
            0
        }
    }

    /// Writes `value` to the register byte at `addr` of the engine's
    /// space.
    pub fn write_register(&mut self, addr: u32, value: u8)
        requires
            (addr >> 12u32) & !1u32 == 0x04000,
            engine2d_wf(*old(self)),
            addr & 0xFFF == 0 ==> value & 0x7 != 7,
        ensures
            engine2d_wf(*final(self)),
            register_written(*old(self), *final(self), (addr & 0xFFF) as int, value),
    {
        proof {
            lemma_mask_bounds();
        }
        let off = (addr & 0xFFF) as usize;
        if off < 4 {
            self.dispcnt.write(off, value);
        } else if 8 <= off && off < 0x10 {
            let k = (off - 8) / 2;
            let mut c = self.bgcnts[k];
            c.write(off % 2, value);
            self.bgcnts[k] = c;
        } else if 0x10 <= off && off < 0x20 {
            let k = (off - 0x10) / 4;
            let r = (off - 0x10) % 4;
            if r < 2 {
                let mut o = self.hofs[k];
                o.write(r, value);
                self.hofs[k] = o;
            } else {
                let mut o = self.vofs[k];
                o.write(r - 2, value);
                self.vofs[k] = o;
            }
        } else if 0x20 <= off && off < 0x40 {
            let i = (off - 0x20) / 16;
            let r = (off - 0x20) % 16;
            if r < 2 {
                let mut p = self.dxs[i];
                p.write(r, value);
                self.dxs[i] = p;
            } else if r < 4 {
                let mut p = self.dmxs[i];
                p.write(r - 2, value);
                self.dmxs[i] = p;
            } else if r < 6 {
                let mut p = self.dys[i];
                p.write(r - 4, value);
                self.dys[i] = p;
            } else if r < 8 {
                let mut p = self.dmys[i];
                p.write(r - 6, value);
                self.dmys[i] = p;
            } else if r < 12 {
                let mut p = self.bgxs[i];
                p.write(r - 8, value);
                self.bgxs[i] = p;
                if i == 0 {
                    self.bgxs_latch[0] = p;
                }
            } else {
                let mut p = self.bgys[i];
                p.write(r - 12, value);
                self.bgys[i] = p;
                if i == 0 {
                    self.bgys_latch[0] = p;
                }
            }
        } else if 0x40 <= off && off < 0x44 {
            let r = off - 0x40;
            let mut d = self.winhs[r / 2];
            d.write(r % 2, value);
            self.winhs[r / 2] = d;
        } else if 0x44 <= off && off < 0x48 {
            let r = off - 0x44;
            let mut d = self.winvs[r / 2];
            d.write(r % 2, value);
            self.winvs[r / 2] = d;
        } else if off == 0x48 {
            self.win_0_cnt.write(0, value);
        } else if off == 0x49 {
            self.win_1_cnt.write(0, value);
        } else if off == 0x4A {
            self.win_out_cnt.write(0, value);
        } else if off == 0x4B {
            self.win_obj_cnt.write(0, value);
        } else if off == 0x4C || off == 0x4D {
            let mut m = self.mosaic;
            m.write(off - 0x4C, value);
            self.mosaic = m;
        } else if off == 0x50 || off == 0x51 {
            let mut b = self.bldcnt;
            b.write(off - 0x50, value);
            self.bldcnt = b;
        } else if off == 0x52 || off == 0x53 {
            let mut b = self.bldalpha;
            b.write(off - 0x52, value);
            self.bldalpha = b;
        } else if off == 0x54 {
            self.bldy.write(0, value);
        }
    }

    /// Reads a byte of palette memory: entries are 16 bits, backgrounds
    /// first, and the address wraps at 1K.
    pub fn read_palette_ram(&self, addr: u32) -> (r: u8)
        requires
            engine2d_wf(*self),
        ensures
            r == (if (addr as int % (2 * PALETTE_SIZE as int)) < PALETTE_SIZE {
                byte16(self.bg_palettes@[palette_index(addr as int)], (addr % 2) as usize)
            } else {
                byte16(self.obj_palettes@[palette_index(addr as int)], (addr % 2) as usize)
            }),
    {
        let a = addr as usize % (2 * PALETTE_SIZE);
        let index = (a % PALETTE_SIZE) / 2;
        let entry = if a < PALETTE_SIZE {
            self.bg_palettes[index]
        } else {
            self.obj_palettes[index]
        };
        read_byte16(entry, (addr % 2) as usize)
    }

    /// Writes a 16-bit palette entry at byte address `addr`.
    pub fn write_palette_ram(&mut self, addr: usize, value: u16)
        requires
            engine2d_wf(*old(self)),
        ensures
            engine2d_wf(*final(self)),
            (addr as int % (2 * PALETTE_SIZE as int)) < PALETTE_SIZE ==> final(self).bg_palettes@ == old(
                self,
            ).bg_palettes@.update(palette_index(addr as int), value) && same_except(
                *old(self),
                *final(self),
                23,
                23,
            ),
            (addr as int % (2 * PALETTE_SIZE as int)) >= PALETTE_SIZE ==> final(self).obj_palettes@ == old(
                self,
            ).obj_palettes@.update(palette_index(addr as int), value) && same_except(
                *old(self),
                *final(self),
                24,
                24,
            ),
    {
        let a = addr % (2 * PALETTE_SIZE);
        let index = (a % PALETTE_SIZE) / 2;
        if a < PALETTE_SIZE {
            self.bg_palettes.set(index, value);
        } else {
            self.obj_palettes.set(index, value);
        }
    }

    /// Puts `color` at dot `dot_x` of line `vcount`, after master
    /// brightness.
    pub fn set_pixel(&mut self, vcount: u16, dot_x: usize, color: u16)
        requires
            engine2d_wf(*old(self)),
            vcount < HEIGHT,
            dot_x < WIDTH,
        ensures
            engine2d_wf(*final(self)),
            final(self).pixels@ == old(self).pixels@.update(
                vcount * WIDTH + dot_x,
                bright_color(old(self).master_bright, color),
            ),
            same_except(*old(self), *final(self), 26, 26),
    {
        let c = self.master_bright.apply(color);
        self.pixels.set(vcount as usize * WIDTH + dot_x, c);
    }

    /// Reloads the affine reference points' working copies from the
    /// registers, as at the start of a frame.
    pub fn latch_affine(&mut self)
        ensures
            final(self).bgxs_latch == old(self).bgxs,
            final(self).bgys_latch == old(self).bgys,
            same_except(*old(self), *final(self), 10, 11),
            engine2d_wf(*old(self)) ==> engine2d_wf(*final(self)),
    {
        self.bgxs_latch = self.bgxs;
        self.bgys_latch = self.bgys;
    }

    /// Where the tiles of a background start: the character base in 64K
    /// steps and the character block in 16K steps.
    pub fn calc_tile_start_addr(&self, bgcnt: &BGControl) -> (r: usize)
        ensures
            r == self.dispcnt.char_base * 0x1_0000 + bgcnt.spec_tile_block() * 0x4000,
    {
        self.dispcnt.char_base as usize * 0x1_0000 + bgcnt.tile_block() as usize * 0x4000
    }

    /// Where the map of a background starts: the screen base in 64K steps
    /// and the screen block in 2K steps.
    pub fn calc_map_start_addr(&self, bgcnt: &BGControl) -> (r: usize)
        ensures
            r == self.dispcnt.screen_base * 0x1_0000 + bgcnt.spec_map_block() * 0x800,
    {
        self.dispcnt.screen_base as usize * 0x1_0000 + bgcnt.map_block() as usize * 0x800
    }

    /// The background palette memory.
    pub fn bg_palettes(&self) -> (r: &Vec<u16>)
        ensures
            r@ == self.bg_palettes@,
    {
        &self.bg_palettes
    }

    /// The object palette memory.
    pub fn obj_palettes(&self) -> (r: &Vec<u16>)
        ensures
            r@ == self.obj_palettes@,
    {
        &self.obj_palettes
    }

    /// The picture drawn so far.
    pub fn pixels(&self) -> (r: &Vec<u16>)
        ensures
            r@ == self.pixels@,
    {
        &self.pixels
    }
}

} // verus!
