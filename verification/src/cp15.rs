//! The ARM9's system control coprocessor: the control register, the
//! exception vector base, the tightly coupled memories and the halt
//! command.
use vstd::prelude::*;

verus! {

/// Bytes of instruction TCM.
pub const ITCM_SIZE: u32 = 0x8000;

/// Bytes of data TCM.
pub const DTCM_SIZE: u32 = 0x4000;

/// The control register bits a write can change.
pub const CONTROL_MASK: u32 = 0x000F_F085;

/// The control register bits that always read as set.
pub const CONTROL_ALWAYS_SET: u32 = 0x0000_0078;

/// The control register at power-on.
pub const CONTROL_INITIAL: u32 = 0x0005_2078;

/// The control register bit that moves the exception vectors to
/// 0xFFFF0000.
pub const CONTROL_INTERRUPT_BASE: u32 = 0x0000_2000;

/// The cache type register.
pub const CACHE_TYPE: u32 = 0x0F0D_2112;

/// Whether `size` is 0x200 times a power of two.
pub open spec fn tcm_size_ok(size: int) -> bool
    decreases size,
{
    if size <= 0x200 {
        size == 0x200
    } else {
        size % 2 == 0 && tcm_size_ok(size / 2)
    }
}

/// The power of two that `size` is 0x200 times.
pub open spec fn tcm_shift(size: int) -> int
    decreases size,
{
    if size <= 0x200 {
        0
    } else {
        1 + tcm_shift(size / 2)
    }
}

/// The shift is no larger than the size.
proof fn lemma_tcm_shift_bound(size: int)
    requires
        size >= 0,
    ensures
        0 <= tcm_shift(size) <= size,
    decreases size,
{
    if size > 0x200 {
        lemma_tcm_shift_bound(size / 2);
    }
}

/// A tightly coupled memory's region: its base, its size and that size as
/// the shift of 0x200.
pub struct TCMControl {
    pub base: u32,
    pub virtual_size: u32,
    pub virtual_size_shift: u32,
}

/// Whether writing `value` to a TCM region register is one the hardware
/// takes: a size field of 3 to 23.
pub open spec fn tcm_write_ok(value: u32) -> bool {
    3 <= (value >> 1u32) & 0x1F <= 23
}

impl TCMControl {
    /// A region at `base` of `virtual_size` bytes.
    pub fn new(base: u32, virtual_size: u32) -> (r: TCMControl)
        requires
            tcm_size_ok(virtual_size as int),
        ensures
            r.base == base,
            r.virtual_size == virtual_size,
            r.virtual_size_shift == tcm_shift(virtual_size as int),
    {
        proof {
            lemma_tcm_shift_bound(virtual_size as int);
        }
        let mut v = virtual_size;
        let mut shift: u32 = 0;
        while v != 0x200
            invariant
                tcm_size_ok(v as int),
                shift + tcm_shift(v as int) == tcm_shift(virtual_size as int),
                tcm_shift(virtual_size as int) <= virtual_size,
            decreases v,
        {
            proof {
                lemma_tcm_shift_bound(v as int / 2);
            }
            shift = shift + 1;
            v = v / 2;
        }
        TCMControl { base, virtual_size, virtual_size_shift: shift }
    }

    /// The region register: the base with the size shift in bits 1 to 5.
    pub fn read(&self) -> (r: u32)
        ensures
            r == self.base | (self.virtual_size_shift << 1u32),
    {
        self.base | (self.virtual_size_shift << 1u32)
    }

    /// Sets the region: the base from the upper 20 bits, the size from the
    /// shift in bits 1 to 5.
    pub fn write(&mut self, value: u32)
        requires
            tcm_write_ok(value),
        ensures
            final(self).base == value & !0xFFFu32,
            final(self).virtual_size_shift == (value >> 1u32) & 0x1F,
            final(self).virtual_size == 0x200u32 << ((value >> 1u32) & 0x1F),
    {
        self.base = value & !0xFFFu32;
        self.virtual_size_shift = (value >> 1u32) & 0x1F;
        self.virtual_size = 0x200u32 << self.virtual_size_shift;
    }
}

/// The coprocessor: the control register, the exception vector base, the
/// two TCM regions and whether the ARM9 is halted.
pub struct CP15 {
    pub control: u32,
    pub interrupt_base: u32,
    pub itcm_control: TCMControl,
    pub dtcm_control: TCMControl,
    pub arm9_halted: bool,
}

/// Whether reading register `(n, m, p)` is one the coprocessor answers:
/// the cache type, the control register and the TCM regions.
pub open spec fn cp15_read_ok(n: u32, m: u32, p: u32) -> bool {
    ||| n == 0 && m == 0 && p == 1
    ||| n == 1
    ||| n == 9 && m == 1 && (p == 0 || p == 1)
}

/// Whether a cache command `(m, p)` with `value` is one the coprocessor
/// handles: wait for interrupt, cache invalidation and cleaning, and the
/// write buffer drain.
pub open spec fn cache_command_ok(m: u32, p: u32, value: u32) -> bool {
    ||| m == 0 && p == 4 && value == 0
    ||| m == 5 && p == 0 && value == 0
    ||| m == 5 && p == 1
    ||| m == 6 && p == 0 && value == 0
    ||| m == 6 && p == 1
    ||| m == 10 && p == 4 && value == 0
    ||| m == 14 && (p == 1 || p == 2)
}

/// Whether writing `value` to register `(n, m, p)` is one the coprocessor
/// handles: the control register, the memory protection and MMU registers
/// (ignored), the cache commands, the cache lockdown and the TCM regions
/// (the instruction TCM always at base 0).
pub open spec fn cp15_write_ok(n: u32, m: u32, p: u32, value: u32) -> bool {
    ||| n == 1 || n == 2 || n == 3 || n == 5 || n == 6 || n == 8 || n == 10
    ||| n == 7 && cache_command_ok(m, p, value)
    ||| n == 9 && m == 0 && (p == 0 || p == 1)
    ||| n == 9 && m == 1 && p == 0 && tcm_write_ok(value)
    ||| n == 9 && m == 1 && p == 1 && tcm_write_ok(value) && value & !0xFFFu32 == 0
}

impl CP15 {
    /// The coprocessor at power-on: vectors high, the instruction TCM at 0
    /// and the data TCM at 0x803000, not halted.
    pub fn new() -> (r: CP15)
        ensures
            r.control == CONTROL_INITIAL,
            r.interrupt_base == 0xFFFF_0000,
            r.itcm_control.base == 0 && r.itcm_control.virtual_size == ITCM_SIZE
                && r.itcm_control.virtual_size_shift == 6,
            r.dtcm_control.base == 0x0080_3000 && r.dtcm_control.virtual_size == DTCM_SIZE
                && r.dtcm_control.virtual_size_shift == 5,
            !r.arm9_halted,
    {
        proof {
            reveal_with_fuel(tcm_size_ok, 8);
            reveal_with_fuel(tcm_shift, 8);
        }
        CP15 {
            control: CONTROL_INITIAL,
            interrupt_base: 0xFFFF_0000,
            itcm_control: TCMControl::new(0, ITCM_SIZE),
            dtcm_control: TCMControl::new(0x0080_3000, DTCM_SIZE),
            arm9_halted: false,
        }
    }

    /// Reads register `(n, m, p)`: the cache type; the control register
    /// (0 unless `m` and `p` are 0); the data or instruction TCM region.
    pub fn read(&self, n: u32, m: u32, p: u32) -> (r: u32)
        requires
            cp15_read_ok(n, m, p),
        ensures
            r == (if n == 0 {
                CACHE_TYPE
            } else if n == 1 {
                if m == 0 && p == 0 {
                    self.control
                } else {
                    0
                }
            } else if p == 0 {
                self.dtcm_control.base | (self.dtcm_control.virtual_size_shift << 1u32)
            } else {
                self.itcm_control.base | (self.itcm_control.virtual_size_shift << 1u32)
            }),
    {
        if n == 0 {
            CACHE_TYPE
        } else if n == 1 {
            if m != 0 || p != 0 {
                0
            } else {
                self.control
            }
        } else if p == 0 {
            self.dtcm_control.read()
        } else {
            self.itcm_control.read()
        }
    }

    /// Writes `value` to register `(n, m, p)`. The control register (with
    /// `m` and `p` 0) takes the writable bits, keeps its fixed ones set, and
    /// moves the vector base with bit 13; wait for interrupt halts the ARM9;
    /// a TCM region register sets that region; everything else is ignored.
    pub fn write(&mut self, n: u32, m: u32, p: u32, value: u32)
        requires
            cp15_write_ok(n, m, p, value),
        ensures
            n == 1 && m == 0 && p == 0 ==> {
                let c = (value & CONTROL_MASK) | CONTROL_ALWAYS_SET;
                &&& final(self).control == c
                &&& final(self).interrupt_base == (if c & CONTROL_INTERRUPT_BASE != 0 {
                    0xFFFF_0000u32
                } else {
                    0u32
                })
                &&& final(self).arm9_halted == old(self).arm9_halted
                &&& final(self).itcm_control == old(self).itcm_control
                &&& final(self).dtcm_control == old(self).dtcm_control
            },
            n == 7 && m == 0 && p == 4 ==> final(self).arm9_halted && final(self).control == old(
                self,
            ).control && final(self).interrupt_base == old(self).interrupt_base
                && final(self).itcm_control == old(self).itcm_control && final(self).dtcm_control
                == old(self).dtcm_control,
            n == 9 && m == 1 && p == 0 ==> final(self).control == old(self).control
                && final(self).interrupt_base == old(self).interrupt_base && final(self).arm9_halted
                == old(self).arm9_halted && final(self).itcm_control == old(self).itcm_control
                && final(self).dtcm_control == (TCMControl {
                base: value & !0xFFFu32,
                virtual_size_shift: (value >> 1u32) & 0x1F,
                virtual_size: 0x200u32 << ((value >> 1u32) & 0x1F),
            }),
            n == 9 && m == 1 && p == 1 ==> final(self).control == old(self).control
                && final(self).interrupt_base == old(self).interrupt_base && final(self).arm9_halted
                == old(self).arm9_halted && final(self).dtcm_control == old(self).dtcm_control
                && final(self).itcm_control == (TCMControl {
                base: 0,
                virtual_size_shift: (value >> 1u32) & 0x1F,
                virtual_size: 0x200u32 << ((value >> 1u32) & 0x1F),
            }),
            !(n == 1 && m == 0 && p == 0) && !(n == 7 && m == 0 && p == 4) && !(n == 9 && m == 1)
                ==> *final(self) == *old(self),
    {
        if n == 1 {
            if m == 0 && p == 0 {
                let c = (value & CONTROL_MASK) | CONTROL_ALWAYS_SET;
                self.control = c;
                self.interrupt_base = if c & CONTROL_INTERRUPT_BASE != 0 {
                    0xFFFF_0000
                } else {
                    0
                };
            }
        } else if n == 7 {
            if m == 0 && p == 4 {
                self.arm9_halted = true;
            }
        } else if n == 9 && m == 1 {
            if p == 0 {
                self.dtcm_control.write(value);
            } else {
                self.itcm_control.write(value);
            }
        }
    }

    /// Whether `addr` falls in the instruction TCM, which starts at 0.
    pub fn addr_in_itcm(&self, addr: u32) -> (r: bool)
        ensures
            r == (addr < self.itcm_control.virtual_size),
    {
        addr < self.itcm_control.virtual_size
    }

    /// Whether `addr` falls in the data TCM.
    pub fn addr_in_dtcm(&self, addr: u32) -> (r: bool)
        requires
            self.dtcm_control.base + self.dtcm_control.virtual_size <= u32::MAX,
        ensures
            r == (self.dtcm_control.base <= addr < self.dtcm_control.base
                + self.dtcm_control.virtual_size),
    {
        self.dtcm_control.base <= addr && addr < self.dtcm_control.base + self.dtcm_control.virtual_size
    }

    /// Where the exception vectors are.
    pub fn interrupt_base(&self) -> (r: u32)
        ensures
            r == self.interrupt_base,
    {
        self.interrupt_base
    }
}

} // verus!
