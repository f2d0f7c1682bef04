//! Video memory: nine banks, each mapped by its control register into one
//! of the address spaces that the CPUs and the graphics engines read.
//!
//! The banks are stored one after the other, in the order of the LCDC
//! address space. Every address space is divided into 16 KiB slots, and
//! each slot records the set of banks mapped there as a bit mask; a read
//! ORs together what the mapped banks hold.
use vstd::prelude::*;
use vstd::slice::slice_subrange;

verus! {

/// The size of a mapping slot.
pub const MAPPING_LEN: usize = 0x4000;

/// The size of all banks together.
pub const VRAM_SIZE: usize = 0xA4000;

/// The number of mapping slots over all address spaces.
pub const NUM_SLOTS: usize = 151;

/// The size of bank `b`: four of 128 KiB, one of 64 KiB, two of 16 KiB,
/// one of 32 KiB, one of 16 KiB.
pub open spec fn bank_len(b: int) -> int {
    if b < 4 {
        0x2_0000
    } else if b == 4 {
        0x1_0000
    } else if b == 7 {
        0x8000
    } else {
        0x4000
    }
}

/// Where bank `b` starts, which is also its address in the LCDC space.
pub open spec fn bank_base(b: int) -> int {
    if b < 4 {
        b * 0x2_0000
    } else if b == 4 {
        0x8_0000
    } else if b == 5 {
        0x9_0000
    } else if b == 6 {
        0x9_4000
    } else if b == 7 {
        0x9_8000
    } else {
        0xA_0000
    }
}

/// The size of bank `b`.
pub fn bank_len_exec(b: usize) -> (r: usize)
    requires
        b < 9,
    ensures
        r == bank_len(b as int),
{
    if b < 4 {
        0x2_0000
    } else if b == 4 {
        0x1_0000
    } else if b == 7 {
        0x8000
    } else {
        0x4000
    }
}

/// Where bank `b` starts.
pub fn bank_base_exec(b: usize) -> (r: usize)
    requires
        b < 9,
    ensures
        r == bank_base(b as int),
{
    if b < 4 {
        b * 0x2_0000
    } else if b == 4 {
        0x8_0000
    } else if b == 5 {
        0x9_0000
    } else if b == 6 {
        0x9_4000
    } else if b == 7 {
        0x9_8000
    } else {
        0xA_0000
    }
}

/// The first slot of each address space.
pub const LCDC_SLOTS: usize = 0;
pub const ENGINE_A_BG_SLOTS: usize = 41;
pub const ENGINE_A_OBJ_SLOTS: usize = 73;
pub const ENGINE_A_BG_EXT_PAL_SLOTS: usize = 89;
pub const ENGINE_A_OBJ_EXT_PAL_SLOTS: usize = 91;
pub const TEXTURES_SLOTS: usize = 92;
pub const TEXTURES_PAL_SLOTS: usize = 124;
pub const ENGINE_B_BG_SLOTS: usize = 130;
pub const ENGINE_B_OBJ_SLOTS: usize = 138;
pub const ENGINE_B_BG_EXT_PAL_SLOTS: usize = 146;
pub const ENGINE_B_OBJ_EXT_PAL_SLOTS: usize = 148;
pub const ARM7_WRAM_SLOTS: usize = 149;

/// A bank's control register: its mapping mode, offset, and enable flag.
#[derive(Clone, Copy, Debug)]
pub struct VRAMCNT {
    pub mst: u8,
    pub offset: u8,
    pub enabled: bool,
    pub byte: u8,
}

/// The mask of the mode bits of bank `index`'s control register.
pub open spec fn mst_mask(index: int) -> u8 {
    if index < 2 || index >= 7 {
        0x3
    } else {
        0x7
    }
}

/// The mask of the offset bits of bank `index`'s control register.
pub open spec fn ofs_mask(index: int) -> u8 {
    if index == 4 || index >= 7 {
        0x0
    } else {
        0x3
    }
}

/// Bank `index`'s control register holding `byte`.
pub open spec fn cnt_of(index: int, byte: u8) -> VRAMCNT {
    VRAMCNT {
        mst: byte & mst_mask(index),
        offset: (byte >> 3u8) & ofs_mask(index),
        enabled: (byte >> 7u8) & 0x1 != 0,
        byte,
    }
}

impl VRAMCNT {
    /// Decodes bank `index`'s control byte.
    pub fn new(index: usize, byte: u8) -> (r: VRAMCNT)
        requires
            index < 9,
        ensures
            r == cnt_of(index as int, byte),
    {
        let mst_mask: u8 = if index < 2 || index >= 7 { 0x3 } else { 0x7 };
        let ofs_mask: u8 = if index == 4 || index >= 7 { 0x0 } else { 0x3 };
        VRAMCNT { mst: byte & mst_mask, offset: (byte >> 3u8) & ofs_mask, enabled: (byte >> 7u8) & 0x1 != 0, byte }
    }

    pub fn read(&self) -> (r: u8)
        ensures
            r == self.byte,
    {
        self.byte
    }
}

/// Whether bank `b` can be mapped with mode `mst` and offset `offset`: the
/// mode is one the bank supports, and the mapping stays inside its
/// address space.
pub open spec fn mapping_ok(b: int, mst: u8, offset: u8) -> bool {
    if mst == 0 {
        true
    } else if mst == 1 {
        b <= 8
    } else if mst == 2 {
        if b < 2 {
            offset < 2
        } else if b < 4 {
            offset < 2
        } else {
            b <= 6 || b == 7 || b == 8
        }
    } else if mst == 3 {
        b <= 6 || b == 8
    } else if mst == 4 {
        (b >= 2 && b <= 4) || ((b == 5 || b == 6) && offset < 2)
    } else if mst == 5 {
        b == 5 || b == 6
    } else {
        false
    }
}

/// The engine A offset, in slots, of bank `b` with offset `offset`.
pub open spec fn engine_a_slot(b: int, offset: u8) -> int {
    if b < 4 {
        8 * offset
    } else if b == 4 {
        0
    } else {
        (offset & 0x1) + 4 * ((offset >> 1u8) & 0x1)
    }
}

/// The slots `[start, end)` that bank `b` occupies when mapped with mode
/// `mst` and offset `offset`.
pub open spec fn mapping(b: int, mst: u8, offset: u8) -> (int, int) {
    let n = bank_len(b) / 0x4000;
    if mst == 0 {
        (bank_base(b) / 0x4000, bank_base(b) / 0x4000 + n)
    } else if mst == 1 {
        if b <= 6 {
            (ENGINE_A_BG_SLOTS + engine_a_slot(b, offset), ENGINE_A_BG_SLOTS + engine_a_slot(b, offset) + n)
        } else if b == 7 {
            (ENGINE_B_BG_SLOTS as int, ENGINE_B_BG_SLOTS + 2)
        } else {
            (ENGINE_B_BG_SLOTS + 2, ENGINE_B_BG_SLOTS + 3)
        }
    } else if mst == 2 {
        if b < 2 || (b >= 4 && b <= 6) {
            (ENGINE_A_OBJ_SLOTS + engine_a_slot(b, offset), ENGINE_A_OBJ_SLOTS + engine_a_slot(b, offset) + n)
        } else if b < 4 {
            (ARM7_WRAM_SLOTS + offset, ARM7_WRAM_SLOTS + offset + 1)
        } else if b == 7 {
            (ENGINE_B_BG_EXT_PAL_SLOTS as int, ENGINE_B_BG_EXT_PAL_SLOTS + 2)
        } else {
            (ENGINE_B_OBJ_SLOTS as int, ENGINE_B_OBJ_SLOTS + 1)
        }
    } else if mst == 3 {
        if b < 4 {
            (TEXTURES_SLOTS + 8 * offset, TEXTURES_SLOTS + 8 * offset + 8)
        } else if b == 4 {
            (TEXTURES_PAL_SLOTS as int, TEXTURES_PAL_SLOTS + 4)
        } else if b <= 6 {
            let s = ((offset >> 1u8) & 0x1) * 4 + (offset & 0x1);
            (TEXTURES_PAL_SLOTS + s, TEXTURES_PAL_SLOTS + s + 1)
        } else {
            (ENGINE_B_OBJ_EXT_PAL_SLOTS as int, ENGINE_B_OBJ_EXT_PAL_SLOTS + 1)
        }
    } else if mst == 4 {
        if b == 2 {
            (ENGINE_B_BG_SLOTS as int, ENGINE_B_BG_SLOTS + 8)
        } else if b == 3 {
            (ENGINE_B_OBJ_SLOTS as int, ENGINE_B_OBJ_SLOTS + 8)
        } else if b == 4 {
            (ENGINE_A_BG_EXT_PAL_SLOTS as int, ENGINE_A_BG_EXT_PAL_SLOTS + 2)
        } else {
            (ENGINE_A_BG_EXT_PAL_SLOTS + offset, ENGINE_A_BG_EXT_PAL_SLOTS + offset + 1)
        }
    } else {
        (ENGINE_A_OBJ_EXT_PAL_SLOTS as int, ENGINE_A_OBJ_EXT_PAL_SLOTS + 1)
    }
}

/// The slots that bank `b` occupies with mode `mst` and offset `offset`.
pub fn mapping_range(b: usize, mst: u8, offset: u8) -> (r: (usize, usize))
    requires
        b < 9,
        mapping_ok(b as int, mst, offset),
        offset < 4,
    ensures
        r.0 == mapping(b as int, mst, offset).0,
        r.1 == mapping(b as int, mst, offset).1,
        r.0 <= r.1 <= NUM_SLOTS,
{
    proof {
        assert((offset & 0x1) <= 1 && ((offset >> 1u8) & 0x1) <= 1) by (bit_vector);
    }
    let n = bank_len_exec(b) / MAPPING_LEN;
    let off = offset as usize;
    if mst == 0 {
        (bank_base_exec(b) / MAPPING_LEN, bank_base_exec(b) / MAPPING_LEN + n)
    } else if mst == 1 {
        if b <= 6 {
            let s = ENGINE_A_BG_SLOTS + engine_a_slot_exec(b, offset);
            (s, s + n)
        } else if b == 7 {
            (ENGINE_B_BG_SLOTS, ENGINE_B_BG_SLOTS + 2)
        } else {
            (ENGINE_B_BG_SLOTS + 2, ENGINE_B_BG_SLOTS + 3)
        }
    } else if mst == 2 {
        if b < 2 || (b >= 4 && b <= 6) {
            let s = ENGINE_A_OBJ_SLOTS + engine_a_slot_exec(b, offset);
            (s, s + n)
        } else if b < 4 {
            (ARM7_WRAM_SLOTS + off, ARM7_WRAM_SLOTS + off + 1)
        } else if b == 7 {
            (ENGINE_B_BG_EXT_PAL_SLOTS, ENGINE_B_BG_EXT_PAL_SLOTS + 2)
        } else {
            (ENGINE_B_OBJ_SLOTS, ENGINE_B_OBJ_SLOTS + 1)
        }
    } else if mst == 3 {
        if b < 4 {
            (TEXTURES_SLOTS + 8 * off, TEXTURES_SLOTS + 8 * off + 8)
        } else if b == 4 {
            (TEXTURES_PAL_SLOTS, TEXTURES_PAL_SLOTS + 4)
        } else if b <= 6 {
            let s = (((offset >> 1u8) & 0x1) * 4 + (offset & 0x1)) as usize;
            (TEXTURES_PAL_SLOTS + s, TEXTURES_PAL_SLOTS + s + 1)
        } else {
            (ENGINE_B_OBJ_EXT_PAL_SLOTS, ENGINE_B_OBJ_EXT_PAL_SLOTS + 1)
        }
    } else if mst == 4 {
        if b == 2 {
            (ENGINE_B_BG_SLOTS, ENGINE_B_BG_SLOTS + 8)
        } else if b == 3 {
            (ENGINE_B_OBJ_SLOTS, ENGINE_B_OBJ_SLOTS + 8)
        } else if b == 4 {
            (ENGINE_A_BG_EXT_PAL_SLOTS, ENGINE_A_BG_EXT_PAL_SLOTS + 2)
        } else {
            (ENGINE_A_BG_EXT_PAL_SLOTS + off, ENGINE_A_BG_EXT_PAL_SLOTS + off + 1)
        }
    } else {
        (ENGINE_A_OBJ_EXT_PAL_SLOTS, ENGINE_A_OBJ_EXT_PAL_SLOTS + 1)
    }
}

/// The engine A offset, in slots, of bank `b` with offset `offset`.
fn engine_a_slot_exec(b: usize, offset: u8) -> (r: usize)
    requires
        b < 9,
        offset < 4,
    ensures
        r == engine_a_slot(b as int, offset),
        r <= 24,
{
    proof {
        assert((offset & 0x1) <= 1 && ((offset >> 1u8) & 0x1) <= 1) by (bit_vector);
    }
    if b < 4 {
        8 * offset as usize
    } else if b == 4 {
        0
    } else {
        ((offset & 0x1) + 4 * ((offset >> 1u8) & 0x1)) as usize
    }
}

/// Whether bank `b` is in the set `mask`.
pub open spec fn has_bank(mask: u16, b: int) -> bool {
    (mask >> (b as u16)) & 1 == 1
}

/// Adding and removing a bank in a set of banks.
proof fn lemma_bank_set(mask: u16, b: u16, c: u16)
    by (bit_vector)
    requires
        b < 9,
        c < 9,
    ensures
        ((mask | (1u16 << b)) >> c) & 1 == 1 <==> (c == b || (mask >> c) & 1 == 1),
        ((mask & !(1u16 << b)) >> c) & 1 == 1 <==> (c != b && (mask >> c) & 1 == 1),
        (0u16 >> c) & 1 != 1,
{
}

/// The video memory: the control registers, the banks, which banks are
/// mapped for the LCDC, and the set of banks in each mapping slot.
pub struct VRAM {
    pub cnts: [VRAMCNT; 9],
    pub mem: Vec<u8>,
    pub lcdc_enabled: [bool; 9],
    pub slots: Vec<u16>,
}

/// Whether the enabled bank `b` with control register `c` occupies slot
/// `g`.
pub open spec fn occupies(b: int, c: VRAMCNT, g: int) -> bool {
    c.enabled && mapping(b, c.mst, c.offset).0 <= g < mapping(b, c.mst, c.offset).1
}

/// The invariant of the video memory: the banks have their sizes, every
/// control register holds a mapping the bank supports, the LCDC flags
/// follow the control registers, and a slot holds exactly the banks that
/// the control registers map there.
pub open spec fn vram_wf(v: VRAM) -> bool {
    &&& v.mem@.len() == VRAM_SIZE
    &&& v.slots@.len() == NUM_SLOTS
    &&& forall|b: int|
        0 <= b < 9 ==> {
            &&& #[trigger] v.cnts@[b] == cnt_of(b, v.cnts@[b].byte)
            &&& v.cnts@[b].enabled ==> mapping_ok(b, v.cnts@[b].mst, v.cnts@[b].offset)
            &&& v.lcdc_enabled@[b] == (v.cnts@[b].enabled && v.cnts@[b].mst == 0)
        }
    &&& forall|g: int, b: int|
        0 <= g < NUM_SLOTS && 0 <= b < 9 ==> (has_bank(#[trigger] v.slots@[g], b) <==> occupies(
            b,
            #[trigger] v.cnts@[b],
            g,
        ))
}

/// Whether bank `index` can take control byte `value`: an enabled bank
/// must be mapped in a way it supports.
pub open spec fn cnt_ok(index: int, value: u8) -> bool {
    let c = cnt_of(index, value);
    c.enabled ==> mapping_ok(index, c.mst, c.offset)
}

impl VRAM {
    /// Zeroed banks, all control registers clear, nothing mapped.
    pub fn new() -> (r: VRAM)
        ensures
            vram_wf(r),
            forall|i: int| 0 <= i < VRAM_SIZE ==> #[trigger] r.mem@[i] == 0,
            forall|b: int| 0 <= b < 9 ==> !(#[trigger] r.cnts@[b]).enabled,
    {
        let c = VRAMCNT::new(0, 0);
        let mut cnts = [c; 9];
        let mut i: usize = 1;
        while i < 9
            invariant
                1 <= i <= 9,
                forall|b: int| 0 <= b < i ==> #[trigger] cnts@[b] == cnt_of(b, 0),
            decreases 9 - i,
        {
            cnts[i] = VRAMCNT::new(i, 0);
            i = i + 1;
        }
        let mem: Vec<u8> = vec![0; VRAM_SIZE];
        let slots: Vec<u16> = vec![0; NUM_SLOTS];
        let r = VRAM { cnts, mem, lcdc_enabled: [false; 9], slots };
        assert(forall|m: u8| 0u8 & m == 0 && (0u8 >> 3u8) & m == 0 && (0u8 >> 7u8) & 0x1 == 0) by (bit_vector);
        assert forall|b: int| 0 <= b < 9 implies !(#[trigger] r.cnts@[b]).enabled && r.cnts@[b].mst == 0 by {
            assert(r.cnts@[b] == cnt_of(b, 0));
        }
        assert forall|g: int, b: int| 0 <= g < NUM_SLOTS && 0 <= b < 9 implies (has_bank(
            #[trigger] r.slots@[g],
            b,
        ) <==> occupies(b, #[trigger] r.cnts@[b], g)) by {
            lemma_bank_set(0, 0, b as u16);
        }
        r
    }

    /// The control byte of bank `index`.
    pub fn read_vram_cnt(&self, index: usize) -> (r: u8)
        requires
            index < 9,
        ensures
            r == self.cnts@[index as int].byte,
    {
        self.cnts[index].read()
    }
}

impl VRAM {
    /// Adds bank `b` to (or, with `add` false, removes it from) the slots
    /// `[start, end)`.
    fn update_slots(&mut self, start: usize, end: usize, b: usize, add: bool)
        requires
            start <= end <= NUM_SLOTS,
            b < 9,
            old(self).slots@.len() == NUM_SLOTS,
        ensures
            final(self).slots@.len() == NUM_SLOTS,
            forall|g: int, c: int|
                0 <= g < NUM_SLOTS && 0 <= c < 9 ==> (#[trigger] has_bank(final(self).slots@[g], c) <==> if start
                    <= g < end && c == b {
                    add
                } else {
                    has_bank(old(self).slots@[g], c)
                }),
            final(self).cnts == old(self).cnts,
            final(self).mem == old(self).mem,
            final(self).lcdc_enabled == old(self).lcdc_enabled,
    {
        let mut g = start;
        while g < end
            invariant
                start <= g <= end <= NUM_SLOTS,
                b < 9,
                self.slots@.len() == NUM_SLOTS,
                forall|h: int, c: int|
                    0 <= h < NUM_SLOTS && 0 <= c < 9 ==> (#[trigger] has_bank(self.slots@[h], c) <==> if start
                        <= h < g && c == b {
                        add
                    } else {
                        has_bank(old(self).slots@[h], c)
                    }),
                self.cnts == old(self).cnts,
                self.mem == old(self).mem,
                self.lcdc_enabled == old(self).lcdc_enabled,
            decreases end - g,
        {
            let mask = self.slots[g];
            let bit: u16 = 1u16 << (b as u16);
            let new_mask = if add { mask | bit } else { mask & !bit };
            proof {
                assert forall|c: int| 0 <= c < 9 implies (has_bank(new_mask, c) <==> if c == b {
                    add
                } else {
                    has_bank(mask, c)
                }) by {
                    lemma_bank_set(mask, b as u16, c as u16);
                }
            }
            self.slots.set(g, new_mask);
            g = g + 1;
        }
    }

    /// Writes bank `index`'s control byte: the bank leaves the slots of its
    /// old mapping and, if enabled, joins those of its new one.
    pub fn write_vram_cnt(&mut self, index: usize, value: u8)
        requires
            vram_wf(*old(self)),
            index < 9,
            cnt_ok(index as int, value),
        ensures
            vram_wf(*final(self)),
            final(self).cnts@ == old(self).cnts@.update(index as int, cnt_of(index as int, value)),
            final(self).mem == old(self).mem,
    {
        let new_cnt = VRAMCNT::new(index, value);
        let old_cnt = self.cnts[index];
        proof {
            assert(self.cnts@[index as int] == cnt_of(index as int, old_cnt.byte));
            assert(forall|x: u8, m: u8| m <= 3 ==> (x >> 3u8) & m < 4) by (bit_vector);
        }
        if old_cnt.enabled {
            if old_cnt.mst == 0 {
                self.lcdc_enabled[index] = false;
            }
            let (s, e) = mapping_range(index, old_cnt.mst, old_cnt.offset);
            self.update_slots(s, e, index, false);
        }
        let ghost cleared = *self;
        assert forall|g: int, c: int| 0 <= g < NUM_SLOTS && 0 <= c < 9 implies (#[trigger] has_bank(
            cleared.slots@[g],
            c,
        ) <==> (c != index && occupies(c, old(self).cnts@[c], g))) by {
            assert(has_bank(old(self).slots@[g], c) <==> occupies(c, old(self).cnts@[c], g));
        }
        self.cnts[index] = new_cnt;
        if new_cnt.enabled {
            if new_cnt.mst == 0 {
                self.lcdc_enabled[index] = true;
            }
            let (s, e) = mapping_range(index, new_cnt.mst, new_cnt.offset);
            self.update_slots(s, e, index, true);
        }
        assert forall|g: int, c: int| 0 <= g < NUM_SLOTS && 0 <= c < 9 implies (has_bank(
            #[trigger] self.slots@[g],
            c,
        ) <==> occupies(c, #[trigger] self.cnts@[c], g)) by {
            assert(has_bank(cleared.slots@[g], c) <==> (c != index && occupies(c, old(self).cnts@[c], g)));
            if c != index {
                assert(self.cnts@[c] == old(self).cnts@[c]);
            }
        }
        assert forall|b: int| 0 <= b < 9 implies {
            &&& #[trigger] self.cnts@[b] == cnt_of(b, self.cnts@[b].byte)
            &&& self.cnts@[b].enabled ==> mapping_ok(b, self.cnts@[b].mst, self.cnts@[b].offset)
            &&& self.lcdc_enabled@[b] == (self.cnts@[b].enabled && self.cnts@[b].mst == 0)
        } by {
            if b != index {
                assert(self.cnts@[b] == old(self).cnts@[b]);
            }
        }
    }
}

/// After bank `index`'s control byte is written with `value` (as
/// `write_vram_cnt` leaves the video memory), the register reads `value`
/// back, the bank is mapped for the LCDC exactly when enabled in mode 0,
/// and it sits in exactly the slots of its new mapping and in none of its
/// old one: a bank is never mapped in two places.
pub proof fn lemma_vram_cnt_written(before: VRAM, after: VRAM, index: int, value: u8)
    requires
        vram_wf(before),
        vram_wf(after),
        0 <= index < 9,
        after.cnts@ == before.cnts@.update(index, cnt_of(index, value)),
    ensures
        after.cnts@[index].byte == value,
        after.lcdc_enabled@[index] == (cnt_of(index, value).enabled && cnt_of(index, value).mst == 0),
        forall|g: int|
            0 <= g < NUM_SLOTS ==> (has_bank(#[trigger] after.slots@[g], index) <==> occupies(
                index,
                cnt_of(index, value),
                g,
            )),
{
    assert(after.cnts@[index] == cnt_of(index, value));
    assert forall|g: int| 0 <= g < NUM_SLOTS implies (has_bank(#[trigger] after.slots@[g], index)
        <==> occupies(index, cnt_of(index, value), g)) by {
        assert(has_bank(after.slots@[g], index) <==> occupies(index, after.cnts@[index], g));
    }
}

/// A bank A to D enabled for textures (mode 3) with offset `o` serves
/// exactly the texture addresses from `o * 128K` up to `(o + 1) * 128K`:
/// the slot that a texture address falls in holds the bank if and only if
/// the address is in that window.
pub proof fn lemma_texture_bank_window(b: int, c: VRAMCNT, addr: int)
    requires
        0 <= b < 4,
        c.enabled,
        c.mst == 3,
        c.offset < 4,
        0 <= addr < 0x8_0000,
    ensures
        occupies(b, c, TEXTURES_SLOTS + addr / (MAPPING_LEN as int)) <==> (0x2_0000 * c.offset <= addr
            < 0x2_0000 * (c.offset + 1)),
        mapping(b, 3, c.offset).1 - mapping(b, 3, c.offset).0 == bank_len(b) / (MAPPING_LEN as int),
{
    let o = c.offset as int;
    let g = addr / 0x4000;
    assert(0x2_0000 * o <= addr < 0x2_0000 * (o + 1) <==> 8 * o <= g < 8 * o + 8);
}

/// The little-endian value of the `width` bytes of `mem` at `at`.
pub open spec fn le_value(mem: Seq<u8>, at: int, width: nat) -> int
    decreases width,
{
    if width == 0 {
        0
    } else {
        mem[at] + 256 * le_value(mem, at + 1, (width - 1) as nat)
    }
}

/// Whether `width` is the size of a memory access: one, two or four bytes.
pub open spec fn width_ok(width: usize) -> bool {
    width == 1 || width == 2 || width == 4
}

/// Where, in the banks, an access at `addr` to bank `b` lands: the address
/// wraps within the bank.
pub open spec fn bank_offset(b: int, addr: usize) -> int {
    bank_base(b) + (addr & ((bank_len(b) - 1) as usize))
}

/// An aligned access stays inside a bank whose size is a power of two.
proof fn lemma_aligned_in_bank(addr: usize, len: usize, width: usize)
    by (bit_vector)
    requires
        len == 0x4000 || len == 0x8000 || len == 0x1_0000 || len == 0x2_0000,
        width == 1 || width == 2 || width == 4,
        addr % width == 0,
    ensures
        (addr & ((len - 1) as usize)) + width <= len,
{
}

/// The value that slot `g` gives for an access of `width` bytes at `addr`:
/// what the banks among the first `k` that are mapped there hold, ORed
/// together.
pub open spec fn slot_value(v: VRAM, g: int, addr: usize, width: usize, k: int) -> u32
    decreases k,
{
    if k <= 0 {
        0
    } else {
        slot_value(v, g, addr, width, k - 1) | (if has_bank(v.slots@[g], k - 1) {
            le_value(v.mem@, bank_offset(k - 1, addr), width as nat) as u32
        } else {
            0u32
        })
    }
}

/// Whether bank `b`'s size is a power of two among those of the banks.
proof fn lemma_bank_len(b: int)
    requires
        0 <= b < 9,
    ensures
        bank_len(b) == 0x4000 || bank_len(b) == 0x8000 || bank_len(b) == 0x1_0000 || bank_len(b) == 0x2_0000,
        bank_base(b) + bank_len(b) <= VRAM_SIZE,
{
}

impl VRAM {
    /// The little-endian value of the `width` bytes at `at`.
    fn read_le(&self, at: usize, width: usize) -> (r: u32)
        requires
            width_ok(width),
            self.mem@.len() == VRAM_SIZE,
            at + width <= VRAM_SIZE,
        ensures
            r == le_value(self.mem@, at as int, width as nat),
    {
        proof {
            reveal_with_fuel(le_value, 5);
        }
        let b0 = self.mem[at] as u32;
        if width == 1 {
            b0
        } else if width == 2 {
            let b1 = self.mem[at + 1] as u32;
            b0 + 256 * b1
        } else {
            let b1 = self.mem[at + 1] as u32;
            let b2 = self.mem[at + 2] as u32;
            let b3 = self.mem[at + 3] as u32;
            b0 + 256 * (b1 + 256 * (b2 + 256 * b3))
        }
    }

    /// What slot `g` holds at `addr`: the values of its banks ORed together.
    pub fn read_mapping(&self, g: usize, addr: usize, width: usize) -> (r: u32)
        requires
            vram_wf(*self),
            g < NUM_SLOTS,
            width_ok(width),
            addr % width == 0,
        ensures
            r == slot_value(*self, g as int, addr, width, 9),
    {
        let mask = self.slots[g];
        let mut value: u32 = 0;
        let mut b: usize = 0;
        while b < 9
            invariant
                vram_wf(*self),
                g < NUM_SLOTS,
                width_ok(width),
                addr % width == 0,
                mask == self.slots@[g as int],
                b <= 9,
                value == slot_value(*self, g as int, addr, width, b as int),
            decreases 9 - b,
        {
            let len = bank_len_exec(b);
            proof {
                lemma_bank_len(b as int);
                lemma_aligned_in_bank(addr, len, width);
                lemma_bank_set(mask, 0, b as u16);
            }
            let part = if (mask >> (b as u16)) & 1 == 1 {
                self.read_le(bank_base_exec(b) + (addr & (len - 1)), width)
            } else {
                0
            };
            value = value | part;
            b = b + 1;
        }
        value
    }

    /// The value at `addr` in the textures space.
    pub fn get_textures(&self, addr: usize, width: usize) -> (r: u32)
        requires
            vram_wf(*self),
            addr < 0x8_0000,
            width_ok(width),
            addr % width == 0,
        ensures
            r == slot_value(*self, TEXTURES_SLOTS + addr / MAPPING_LEN, addr, width, 9),
    {
        self.read_mapping(TEXTURES_SLOTS + addr / MAPPING_LEN, addr, width)
    }

    /// The value at `addr` in the texture palette space.
    pub fn get_textures_pal(&self, addr: usize, width: usize) -> (r: u32)
        requires
            vram_wf(*self),
            addr < 0x1_8000,
            width_ok(width),
            addr % width == 0,
        ensures
            r == slot_value(*self, TEXTURES_PAL_SLOTS + addr / MAPPING_LEN, addr, width, 9),
    {
        self.read_mapping(TEXTURES_PAL_SLOTS + addr / MAPPING_LEN, addr, width)
    }

    /// The value at `addr` in engine A's (or B's) background space.
    pub fn get_bg(&self, is_a: bool, addr: usize, width: usize) -> (r: u32)
        requires
            vram_wf(*self),
            addr < (if is_a { 0x8_0000usize } else { 0x2_0000usize }),
            width_ok(width),
            addr % width == 0,
        ensures
            r == slot_value(
                *self,
                (if is_a { ENGINE_A_BG_SLOTS } else { ENGINE_B_BG_SLOTS }) + addr / MAPPING_LEN,
                addr,
                width,
                9,
            ),
    {
        if is_a {
            self.read_mapping(ENGINE_A_BG_SLOTS + addr / MAPPING_LEN, addr, width)
        } else {
            self.read_mapping(ENGINE_B_BG_SLOTS + addr / MAPPING_LEN, addr, width)
        }
    }

    /// The value at `addr` in engine A's (or B's) object space.
    pub fn get_obj(&self, is_a: bool, addr: usize, width: usize) -> (r: u32)
        requires
            vram_wf(*self),
            addr < (if is_a { 0x4_0000usize } else { 0x2_0000usize }),
            width_ok(width),
            addr % width == 0,
        ensures
            r == slot_value(
                *self,
                (if is_a { ENGINE_A_OBJ_SLOTS } else { ENGINE_B_OBJ_SLOTS }) + addr / MAPPING_LEN,
                addr,
                width,
                9,
            ),
    {
        if is_a {
            self.read_mapping(ENGINE_A_OBJ_SLOTS + addr / MAPPING_LEN, addr, width)
        } else {
            self.read_mapping(ENGINE_B_OBJ_SLOTS + addr / MAPPING_LEN, addr, width)
        }
    }

    /// The address of colour `color_num` of extended palette `slot`.
    pub fn calc_ext_pal_addr(&self, slot: usize, color_num: usize) -> (r: usize)
        requires
            slot < 4,
            color_num < 0x1000,
        ensures
            r == slot * 0x2000 + color_num * 2,
    {
        slot * 8 * 0x400 + color_num * 2
    }

    /// Colour `color_num` of engine A's (or B's) background extended
    /// palette `slot`.
    pub fn get_bg_ext_pal(&self, is_a: bool, slot: usize, color_num: usize) -> (r: u16)
        requires
            vram_wf(*self),
            slot < 4,
            color_num < 0x1000,
        ensures
            r == slot_value(
                *self,
                (if is_a { ENGINE_A_BG_EXT_PAL_SLOTS } else { ENGINE_B_BG_EXT_PAL_SLOTS }) + (slot * 0x2000
                    + color_num * 2) / (MAPPING_LEN as int),
                (slot * 0x2000 + color_num * 2) as usize,
                2,
                9,
            ),
    {
        let addr = self.calc_ext_pal_addr(slot, color_num);
        let g = if is_a { ENGINE_A_BG_EXT_PAL_SLOTS } else { ENGINE_B_BG_EXT_PAL_SLOTS } + addr / MAPPING_LEN;
        let v = self.read_mapping(g, addr, 2);
        proof {
            lemma_slot_value_bound(*self, g as int, addr, 2, 9);
        }
        v as u16
    }

    /// Colour `color_num` of engine A's (or B's) object extended palette.
    pub fn get_obj_ext_pal(&self, is_a: bool, color_num: usize) -> (r: u16)
        requires
            vram_wf(*self),
            color_num < 0x1000,
        ensures
            r == slot_value(
                *self,
                (if is_a { ENGINE_A_OBJ_EXT_PAL_SLOTS } else { ENGINE_B_OBJ_EXT_PAL_SLOTS }) + (color_num * 2)
                    / (MAPPING_LEN as int),
                (color_num * 2) as usize,
                2,
                9,
            ),
    {
        let addr = self.calc_ext_pal_addr(0, color_num);
        let g = if is_a { ENGINE_A_OBJ_EXT_PAL_SLOTS } else { ENGINE_B_OBJ_EXT_PAL_SLOTS } + addr / MAPPING_LEN;
        let v = self.read_mapping(g, addr, 2);
        proof {
            lemma_slot_value_bound(*self, g as int, addr, 2, 9);
        }
        v as u16
    }

    /// Bank `bank` while it is mapped for the LCDC.
    pub fn get_lcdc_bank(&self, bank: u8) -> (r: Option<&[u8]>)
        requires
            vram_wf(*self),
            bank < 9,
        ensures
            self.lcdc_enabled@[bank as int] ==> r.is_some() && r.unwrap()@ == self.mem@.subrange(
                bank_base(bank as int),
                bank_base(bank as int) + bank_len(bank as int),
            ),
            !self.lcdc_enabled@[bank as int] ==> r.is_none(),
    {
        if self.lcdc_enabled[bank as usize] {
            let base = bank_base_exec(bank as usize);
            proof {
                lemma_bank_len(bank as int);
            }
            Some(slice_subrange(self.mem.as_slice(), base, base + bank_len_exec(bank as usize)))
        } else {
            None
        }
    }
}

/// A slot's value for a two-byte access fits in 16 bits.
proof fn lemma_slot_value_bound(v: VRAM, g: int, addr: usize, width: usize, k: int)
    requires
        width == 2,
        0 <= g < NUM_SLOTS,
        v.slots@.len() == NUM_SLOTS,
    ensures
        slot_value(v, g, addr, width, k) <= 0xFFFF,
    decreases k,
{
    if k > 0 {
        lemma_slot_value_bound(v, g, addr, width, k - 1);
        let prev = slot_value(v, g, addr, width, k - 1);
        let at = bank_offset(k - 1, addr);
        assert(le_value(v.mem@, at, 2) == v.mem@[at] + 256 * v.mem@[at + 1]) by {
            reveal_with_fuel(le_value, 3);
        }
        let part: u32 = if has_bank(v.slots@[g], k - 1) {
            le_value(v.mem@, at, 2) as u32
        } else {
            0u32
        };
        assert(part <= 0xFFFF);
        assert(prev | part <= 0xFFFF) by (bit_vector)
            requires
                prev <= 0xFFFF,
                part <= 0xFFFF,
        ;
    }
}

/// The bank that byte `i` of the banks belongs to.
pub open spec fn bank_of(i: int) -> int {
    if i < 0x8_0000 {
        i / 0x2_0000
    } else if i < 0x9_0000 {
        4
    } else if i < 0x9_4000 {
        5
    } else if i < 0x9_8000 {
        6
    } else if i < 0xA_0000 {
        7
    } else {
        8
    }
}

/// Byte `k` of `v`, least significant first.
pub open spec fn le_byte(v: int, k: nat) -> int
    decreases k,
{
    if k == 0 {
        v % 256
    } else {
        le_byte(v / 256, (k - 1) as nat)
    }
}

/// The bound on a value of `width` bytes.
pub open spec fn width_bound(width: usize) -> int {
    if width == 1 {
        0x100
    } else if width == 2 {
        0x1_0000
    } else {
        0x1_0000_0000
    }
}

/// Byte `i` of the banks after writing `value` (of `width` bytes) at
/// `addr` to every bank of `mask` below `nb`.
pub open spec fn written_byte(mem: Seq<u8>, mask: u16, addr: usize, width: usize, value: u32, nb: int, i: int) -> u8 {
    let b = bank_of(i);
    let start = bank_offset(b, addr);
    if b < nb && has_bank(mask, b) && start <= i < start + width {
        le_byte(value as int, (i - start) as nat) as u8
    } else {
        mem[i]
    }
}

/// A byte of bank `b` belongs to bank `b`.
proof fn lemma_bank_of(b: int, i: int)
    requires
        0 <= b < 9,
        bank_base(b) <= i < bank_base(b) + bank_len(b),
    ensures
        bank_of(i) == b,
{
}

/// Writing the bytes of `v` and reading them back gives `v`.
proof fn lemma_le_roundtrip(mem: Seq<u8>, at: int, width: usize, v: int)
    requires
        width_ok(width),
        0 <= v < width_bound(width),
        0 <= at,
        at + width <= mem.len(),
        forall|k: int| 0 <= k < width ==> #[trigger] mem[at + k] == le_byte(v, k as nat),
    ensures
        le_value(mem, at, width as nat) == v,
{
    reveal_with_fuel(le_value, 5);
    reveal_with_fuel(le_byte, 5);
    assert(mem[at + 0] == le_byte(v, 0));
    if width >= 2 {
        assert(mem[at + 1] == le_byte(v, 1));
    }
    if width == 4 {
        assert(mem[at + 2] == le_byte(v, 2));
        assert(mem[at + 3] == le_byte(v, 3));
    }
}

impl VRAM {
    /// Writes the `width` bytes of `value` at `at`, least significant first.
    fn write_le(&mut self, at: usize, width: usize, value: u32)
        requires
            width_ok(width),
            old(self).mem@.len() == VRAM_SIZE,
            at + width <= VRAM_SIZE,
        ensures
            final(self).mem@.len() == VRAM_SIZE,
            forall|i: int|
                0 <= i < VRAM_SIZE ==> #[trigger] final(self).mem@[i] == if at <= i < at + width {
                    le_byte(value as int, (i - at) as nat) as u8
                } else {
                    old(self).mem@[i]
                },
            final(self).cnts == old(self).cnts,
            final(self).slots == old(self).slots,
            final(self).lcdc_enabled == old(self).lcdc_enabled,
    {
        let mut rest = value;
        let mut k: usize = 0;
        while k < width
            invariant
                width_ok(width),
                at + width <= VRAM_SIZE,
                k <= width,
                self.mem@.len() == VRAM_SIZE,
                forall|j: nat| #[trigger] le_byte(rest as int, j) == le_byte(value as int, (k + j) as nat),
                forall|i: int|
                    0 <= i < VRAM_SIZE ==> #[trigger] self.mem@[i] == if at <= i < at + k {
                        le_byte(value as int, (i - at) as nat) as u8
                    } else {
                        old(self).mem@[i]
                    },
                self.cnts == old(self).cnts,
                self.slots == old(self).slots,
                self.lcdc_enabled == old(self).lcdc_enabled,
            decreases width - k,
        {
            proof {
                assert(le_byte(rest as int, 0) == le_byte(value as int, k as nat));
            }
            self.mem.set(at + k, (rest % 256) as u8);
            let ghost prev_rest = rest;
            rest = rest / 256;
            k = k + 1;
            proof {
                assert forall|j: nat| #[trigger] le_byte(rest as int, j) == le_byte(value as int, (k + j) as nat) by {
                    assert(le_byte(prev_rest as int, j + 1) == le_byte(rest as int, j));
                    assert(le_byte(prev_rest as int, j + 1) == le_byte(value as int, (k - 1 + j + 1) as nat));
                }
            }
        }
    }

    /// Writes `value` (of `width` bytes) at `addr` into every bank that
    /// slot `g` maps; reading the slot back then gives `value` whenever
    /// some bank is mapped there.
    pub fn write_mapping(&mut self, g: usize, addr: usize, width: usize, value: u32)
        requires
            vram_wf(*old(self)),
            g < NUM_SLOTS,
            width_ok(width),
            addr % width == 0,
            value < width_bound(width),
        ensures
            vram_wf(*final(self)),
            final(self).cnts == old(self).cnts,
            final(self).slots == old(self).slots,
            forall|i: int|
                0 <= i < VRAM_SIZE ==> #[trigger] final(self).mem@[i] == written_byte(
                    old(self).mem@,
                    old(self).slots@[g as int],
                    addr,
                    width,
                    value,
                    9,
                    i,
                ),
            (exists|b: int| 0 <= b < 9 && has_bank(old(self).slots@[g as int], b)) ==> slot_value(
                *final(self),
                g as int,
                addr,
                width,
                9,
            ) == value,
    {
        let mask = self.slots[g];
        let mut b: usize = 0;
        while b < 9
            invariant
                vram_wf(*self),
                g < NUM_SLOTS,
                width_ok(width),
                addr % width == 0,
                mask == old(self).slots@[g as int],
                b <= 9,
                self.cnts == old(self).cnts,
                self.slots == old(self).slots,
                self.lcdc_enabled == old(self).lcdc_enabled,
                forall|i: int|
                    0 <= i < VRAM_SIZE ==> #[trigger] self.mem@[i] == written_byte(
                        old(self).mem@,
                        mask,
                        addr,
                        width,
                        value,
                        b as int,
                        i,
                    ),
            decreases 9 - b,
        {
            let len = bank_len_exec(b);
            proof {
                lemma_bank_len(b as int);
                lemma_aligned_in_bank(addr, len, width);
                lemma_bank_set(mask, 0, b as u16);
            }
            if (mask >> (b as u16)) & 1 == 1 {
                let at = bank_base_exec(b) + (addr & (len - 1));
                let ghost before = self.mem@;
                self.write_le(at, width, value);
                assert forall|i: int| 0 <= i < VRAM_SIZE implies #[trigger] self.mem@[i] == written_byte(
                    old(self).mem@,
                    mask,
                    addr,
                    width,
                    value,
                    b + 1,
                    i,
                ) by {
                    if at <= i < at + width {
                        lemma_bank_of(b as int, i);
                    }
                }
            } else {
                assert forall|i: int| 0 <= i < VRAM_SIZE implies #[trigger] self.mem@[i] == written_byte(
                    old(self).mem@,
                    mask,
                    addr,
                    width,
                    value,
                    b + 1,
                    i,
                ) by {
                    assert(written_byte(old(self).mem@, mask, addr, width, value, b as int, i) == written_byte(
                        old(self).mem@,
                        mask,
                        addr,
                        width,
                        value,
                        b + 1,
                        i,
                    ));
                }
            }
            b = b + 1;
        }
        proof {
            self.lemma_read_back(g as int, addr, width, value, 9);
        }
    }

    /// After a write of `value` to slot `g`, the banks of the slot below
    /// `k` read back `value` (or 0 if there is none).
    proof fn lemma_read_back(&self, g: int, addr: usize, width: usize, value: u32, k: int)
        requires
            vram_wf(*self),
            0 <= g < NUM_SLOTS,
            width_ok(width),
            addr % width == 0,
            value < width_bound(width),
            0 <= k <= 9,
            forall|i: int|
                0 <= i < VRAM_SIZE ==> {
                    let b = bank_of(i);
                    let start = bank_offset(b, addr);
                    has_bank(self.slots@[g], b) && start <= i < start + width ==> #[trigger] self.mem@[i]
                        == le_byte(value as int, (i - start) as nat) as u8
                },
        ensures
            slot_value(*self, g, addr, width, k) == if exists|b: int| 0 <= b < k && has_bank(self.slots@[g], b) {
                value
            } else {
                0u32
            },
        decreases k,
    {
        if k > 0 {
            self.lemma_read_back(g, addr, width, value, k - 1);
            let b = k - 1;
            if has_bank(self.slots@[g], b) {
                lemma_bank_len(b);
                lemma_aligned_in_bank(addr, bank_len(b) as usize, width);
                let at = bank_offset(b, addr);
                assert forall|j: int| 0 <= j < width implies #[trigger] self.mem@[at + j] == le_byte(
                    value as int,
                    j as nat,
                ) by {
                    lemma_bank_of(b, at + j);
                    reveal_with_fuel(le_byte, 5);
                    assert(le_byte(value as int, j as nat) < 256) by {
                        lemma_le_byte_bound(value as int, j as nat);
                    }
                }
                lemma_le_roundtrip(self.mem@, at, width, value as int);
            }
            let prev = slot_value(*self, g, addr, width, k - 1);
            lemma_or_facts(value);
            lemma_or_facts(prev);
            if !has_bank(self.slots@[g], b) {
                assert((exists|c: int| 0 <= c < k && has_bank(self.slots@[g], c)) == (exists|c: int|
                    0 <= c < k - 1 && has_bank(self.slots@[g], c)));
            } else {
                assert(le_value(self.mem@, bank_offset(b, addr), width as nat) as u32 == value);
                assert(has_bank(self.slots@[g], b) && 0 <= b < k);
            }
        }
    }
}

/// ORing a value with zero or with itself gives the value.
proof fn lemma_or_facts(x: u32)
    by (bit_vector)
    ensures
        x | 0u32 == x,
        0u32 | x == x,
        x | x == x,
{
}

/// A byte is below 256.
proof fn lemma_le_byte_bound(v: int, k: nat)
    requires
        0 <= v,
    ensures
        0 <= le_byte(v, k) < 256,
    decreases k,
{
    if k > 0 {
        lemma_le_byte_bound(v / 256, (k - 1) as nat);
    }
}

/// Whether the ARM9 address `addr` lies in one of the VRAM spaces: engine
/// A or B background or object memory, or the LCDC banks.
pub open spec fn arm9_ok(addr: u32) -> bool {
    let space = addr & 0xE0_0000;
    space == 0 || space == 0x20_0000 || space == 0x40_0000 || space == 0x60_0000 || (space == 0x80_0000
        && addr & 0xF_C000 < 0xA_4000)
}

/// The slot that the ARM9 address `addr` falls in: the spaces repeat
/// through their address ranges.
pub open spec fn arm9_slot(addr: u32) -> int {
    let space = addr & 0xE0_0000;
    let index = (addr / 0x4000) as int;
    if space == 0 {
        ENGINE_A_BG_SLOTS + index % 32
    } else if space == 0x20_0000 {
        ENGINE_B_BG_SLOTS + index % 8
    } else if space == 0x40_0000 {
        ENGINE_A_OBJ_SLOTS + index % 16
    } else if space == 0x60_0000 {
        ENGINE_B_OBJ_SLOTS + index % 8
    } else {
        LCDC_SLOTS + (addr & 0xF_C000) / 0x4000
    }
}

/// The slot that the ARM7 address `addr` falls in: the two 128 KiB halves
/// of its VRAM window, repeated.
pub open spec fn arm7_slot(addr: u32) -> int {
    ARM7_WRAM_SLOTS + ((addr as int) % 0x4_0000) / 0x2_0000
}

/// An aligned address stays aligned within the ARM7's 128 KiB halves.
proof fn lemma_window_aligned(addr: u32, width: usize)
    requires
        width_ok(width),
        addr % (width as u32) == 0,
    ensures
        ((addr as int) % 0x2_0000) % (width as int) == 0,
{
    let w = width as int;
    assert(0x2_0000int == w * (0x2_0000int / w));
    vstd::arithmetic::div_mod::lemma_mod_mod(addr as int, w, 0x2_0000int / w);
}

impl VRAM {
    fn arm9_slot_exec(addr: u32) -> (r: usize)
        requires
            arm9_ok(addr),
        ensures
            r == arm9_slot(addr),
            r < NUM_SLOTS,
    {
        let index = (addr / 0x4000) as usize;
        let space = addr & 0xE0_0000;
        if space == 0 {
            ENGINE_A_BG_SLOTS + index % 32
        } else if space == 0x20_0000 {
            ENGINE_B_BG_SLOTS + index % 8
        } else if space == 0x40_0000 {
            ENGINE_A_OBJ_SLOTS + index % 16
        } else if space == 0x60_0000 {
            ENGINE_B_OBJ_SLOTS + index % 8
        } else {
            LCDC_SLOTS + ((addr & 0xF_C000) / 0x4000) as usize
        }
    }

    /// An ARM9 read of `width` bytes at `addr`.
    pub fn arm9_read(&self, addr: u32, width: usize) -> (r: u32)
        requires
            vram_wf(*self),
            arm9_ok(addr),
            width_ok(width),
            addr % (width as u32) == 0,
        ensures
            r == slot_value(*self, arm9_slot(addr), addr as usize, width, 9),
    {
        let g = VRAM::arm9_slot_exec(addr);
        self.read_mapping(g, addr as usize, width)
    }

    /// An ARM9 write of `value` (of `width` bytes) at `addr`, to every bank
    /// mapped there.
    pub fn arm9_write(&mut self, addr: u32, width: usize, value: u32)
        requires
            vram_wf(*old(self)),
            arm9_ok(addr),
            width_ok(width),
            addr % (width as u32) == 0,
            value < width_bound(width),
        ensures
            vram_wf(*final(self)),
            final(self).cnts == old(self).cnts,
            final(self).slots == old(self).slots,
            forall|i: int|
                0 <= i < VRAM_SIZE ==> #[trigger] final(self).mem@[i] == written_byte(
                    old(self).mem@,
                    old(self).slots@[arm9_slot(addr)],
                    addr as usize,
                    width,
                    value,
                    9,
                    i,
                ),
            (exists|b: int| 0 <= b < 9 && has_bank(old(self).slots@[arm9_slot(addr)], b)) ==> slot_value(
                *final(self),
                arm9_slot(addr),
                addr as usize,
                width,
                9,
            ) == value,
    {
        let g = VRAM::arm9_slot_exec(addr);
        self.write_mapping(g, addr as usize, width, value);
    }

    fn arm7_slot_exec(addr: u32) -> (r: (usize, usize))
        ensures
            r.0 == arm7_slot(addr),
            r.0 < NUM_SLOTS,
            r.1 == (addr as int) % 0x2_0000,
    {
        let a = addr % 0x4_0000;
        (ARM7_WRAM_SLOTS + (a / 0x2_0000) as usize, (a % 0x2_0000) as usize)
    }

    /// An ARM7 read of `width` bytes at `addr`: the values of the banks
    /// mapped to that half of its window, ORed together.
    pub fn arm7_read(&self, addr: u32, width: usize) -> (r: u32)
        requires
            vram_wf(*self),
            width_ok(width),
            addr % (width as u32) == 0,
        ensures
            r == slot_value(*self, arm7_slot(addr), ((addr as int) % 0x2_0000) as usize, width, 9),
    {
        let (g, a) = VRAM::arm7_slot_exec(addr);
        proof {
            lemma_window_aligned(addr, width);
        }
        self.read_mapping(g, a, width)
    }

    /// An ARM7 write of `value` (of `width` bytes) at `addr`, to every bank
    /// mapped to that half of its window.
    pub fn arm7_write(&mut self, addr: u32, width: usize, value: u32)
        requires
            vram_wf(*old(self)),
            width_ok(width),
            addr % (width as u32) == 0,
            value < width_bound(width),
        ensures
            vram_wf(*final(self)),
            final(self).cnts == old(self).cnts,
            final(self).slots == old(self).slots,
            forall|i: int|
                0 <= i < VRAM_SIZE ==> #[trigger] final(self).mem@[i] == written_byte(
                    old(self).mem@,
                    old(self).slots@[arm7_slot(addr)],
                    ((addr as int) % 0x2_0000) as usize,
                    width,
                    value,
                    9,
                    i,
                ),
            (exists|b: int| 0 <= b < 9 && has_bank(old(self).slots@[arm7_slot(addr)], b)) ==> slot_value(
                *final(self),
                arm7_slot(addr),
                ((addr as int) % 0x2_0000) as usize,
                width,
                9,
            ) == value,
    {
        let (g, a) = VRAM::arm7_slot_exec(addr);
        proof {
            lemma_window_aligned(addr, width);
        }
        self.write_mapping(g, a, width, value);
    }
}


/// A VRAM bank, A to I.
#[derive(Clone, Copy, PartialEq, Eq, Structural, Debug)]
pub enum Bank {
    A,
    B,
    C,
    D,
    E,
    F,
    G,
    H,
    I,
}

impl Bank {
    /// The bank's position, A being 0.
    pub open spec fn index(self) -> int {
        match self {
            Bank::A => 0,
            Bank::B => 1,
            Bank::C => 2,
            Bank::D => 3,
            Bank::E => 4,
            Bank::F => 5,
            Bank::G => 6,
            Bank::H => 7,
            Bank::I => 8,
        }
    }

    /// The bank at position `index`.
    pub fn from_index(index: usize) -> (r: Bank)
        requires
            index < 9,
        ensures
            r.index() == index,
    {
        match index {
            0 => Bank::A,
            1 => Bank::B,
            2 => Bank::C,
            3 => Bank::D,
            4 => Bank::E,
            5 => Bank::F,
            6 => Bank::G,
            7 => Bank::H,
            _ => Bank::I,
        }
    }

    /// Where the bank lands in engine A's background or object space for
    /// the control register's offset field: 128K steps for A-D, none for
    /// E, and 16K and 64K steps for F and G. Banks H and I have no such
    /// mapping.
    pub fn get_engine_a_offset(&self, offset: u8) -> (r: usize)
        requires
            *self != Bank::H && *self != Bank::I,
            *self == Bank::E ==> offset == 0,
        ensures
            r == (match *self {
                Bank::A | Bank::B | Bank::C | Bank::D => 0x2_0000 * offset,
                Bank::E => 0,
                _ => 0x4000 * (offset % 2) + 0x1_0000 * ((offset / 2) % 2),
            }),
    {
        let offset = offset as usize;
        match self {
            Bank::A | Bank::B | Bank::C | Bank::D => 0x2_0000 * offset,
            Bank::E => 0,
            _ => 0x4000 * (offset % 2) + 0x1_0000 * ((offset / 2) % 2),
        }
    }

    /// Where the bank lands in texture space: 128K steps.
    pub fn get_textures_offset(&self, offset: u8) -> (r: usize)
        ensures
            r == offset * 0x2_0000,
    {
        offset as usize * 0x400 * 128
    }

    /// Where the bank lands in texture palette space: offset bit 0 picks
    /// slot 1 and bit 1 slot 4, in 16K steps.
    pub fn get_textures_pal_offset(&self, offset: u8) -> (r: usize)
        ensures
            r == (((offset / 2) % 2) * 4 + offset % 2) * 0x4000,
    {
        let slot = ((offset / 2) % 2) * 4 + (offset % 2);
        slot as usize * 0x400 * 16
    }

    /// Where the bank lands in extended background palette space: 16K
    /// steps, for offsets 0 and 1.
    pub fn get_ext_bg_pal_offset(&self, offset: u8) -> (r: usize)
        requires
            offset < 2,
        ensures
            r == offset * 0x4000,
    {
        offset as usize * 0x400 * 16
    }
}

} // verus!

