//! The ARM core's register file, status flags, barrel shifter, adder and
//! condition evaluation.
use vstd::prelude::*;
use crate::mmu::AccessType;
use crate::bits::lemma_not_is_complement;

verus! {

pub const FLAG_N: u32 = 0x8000_0000;
pub const FLAG_Z: u32 = 0x4000_0000;
pub const FLAG_C: u32 = 0x2000_0000;
pub const FLAG_V: u32 = 0x1000_0000;
pub const FLAG_Q: u32 = 0x0800_0000;
pub const FLAG_I: u32 = 0x0000_0080;
pub const FLAG_F: u32 = 0x0000_0040;
pub const FLAG_T: u32 = 0x0000_0020;

/// Processor modes, each with its 5-bit encoding in the status register.
#[derive(Clone, Copy, PartialEq, Eq, Structural, Debug)]
pub enum Mode {
    USR,
    FIQ,
    IRQ,
    SVC,
    ABT,
    SYS,
    UND,
}

/// The 5-bit encoding of a mode.
pub open spec fn mode_bits(m: Mode) -> u32 {
    match m {
        Mode::USR => 0b10000,
        Mode::FIQ => 0b10001,
        Mode::IRQ => 0b10010,
        Mode::SVC => 0b10011,
        Mode::ABT => 0b10111,
        Mode::SYS => 0b11111,
        Mode::UND => 0b11011,
    }
}

/// Whether the low five bits of a status word name a mode.
pub open spec fn is_mode_encoding(bits: u32) -> bool {
    let m = bits & 0x1F;
    m == 0b10000 || m == 0b10001 || m == 0b10010 || m == 0b10011 || m == 0b10111 || m == 0b11111
        || m == 0b11011
}

/// The mode named by the low five bits of a status word.
pub open spec fn mode_of(bits: u32) -> Mode {
    let m = bits & 0x1F;
    if m == 0b10000 {
        Mode::USR
    } else if m == 0b10001 {
        Mode::FIQ
    } else if m == 0b10010 {
        Mode::IRQ
    } else if m == 0b10011 {
        Mode::SVC
    } else if m == 0b10111 {
        Mode::ABT
    } else if m == 0b11111 {
        Mode::SYS
    } else {
        Mode::UND
    }
}

/// Modes whose banked registers the register file keeps.
pub open spec fn is_banked_mode(m: Mode) -> bool {
    m != Mode::ABT && m != Mode::UND
}

impl Mode {
    /// The mode's 5-bit encoding.
    pub fn bits(&self) -> (r: u32)
        ensures
            r == mode_bits(*self),
    {
        match self {
            Mode::USR => 0b10000,
            Mode::FIQ => 0b10001,
            Mode::IRQ => 0b10010,
            Mode::SVC => 0b10011,
            Mode::ABT => 0b10111,
            Mode::SYS => 0b11111,
            Mode::UND => 0b11011,
        }
    }
}

/// Reads the mode out of a status word.
pub fn get_mode(bits: u32) -> (m: Mode)
    requires
        is_mode_encoding(bits),
    ensures
        m == mode_of(bits),
        mode_bits(m) == bits & 0x1F,
{
    let low = bits & 0x1F;
    if low == 0b10000 {
        Mode::USR
    } else if low == 0b10001 {
        Mode::FIQ
    } else if low == 0b10010 {
        Mode::IRQ
    } else if low == 0b10011 {
        Mode::SVC
    } else if low == 0b10111 {
        Mode::ABT
    } else if low == 0b11111 {
        Mode::SYS
    } else {
        Mode::UND
    }
}

/// `bits` with the bits of `mask` set when `v` holds and cleared otherwise.
pub open spec fn with_flag(bits: u32, mask: u32, v: bool) -> u32 {
    if v {
        bits | mask
    } else {
        bits & !mask
    }
}

/// Whether every bit of `mask` is set in `bits`.
pub open spec fn has_flag(bits: u32, mask: u32) -> bool {
    bits & mask == mask
}

/// The banked copies of r8-r14 (or r13-r14) that a mode keeps.
#[derive(Clone, Copy, Debug)]
pub struct RegValues {
    pub regs: [u32; 16],
    pub usr: [u32; 7],
    pub svc: [u32; 2],
    pub irq: [u32; 2],
    pub fiq: [u32; 7],
    pub cpsr: u32,
    pub spsr: [u32; 3],
}

/// The index of `m`'s saved status word, for modes that have one.
pub open spec fn spsr_index(m: Mode) -> int {
    match m {
        Mode::SVC => 0,
        Mode::IRQ => 1,
        _ => 2,
    }
}

/// Whether `m` has a saved status word of its own.
pub open spec fn has_spsr(m: Mode) -> bool {
    m == Mode::SVC || m == Mode::IRQ || m == Mode::FIQ
}

/// The banked registers that mode `m` keeps in `r`.
pub open spec fn banked_of(r: RegValues, m: Mode) -> Seq<u32> {
    match m {
        Mode::SVC => r.svc@,
        Mode::IRQ => r.irq@,
        Mode::FIQ => r.fiq@,
        _ => r.usr@,
    }
}

/// Which bank mode `m` uses: SVC, IRQ, FIQ, or the user bank shared by
/// User and System mode.
pub open spec fn bank_group(m: Mode) -> int {
    match m {
        Mode::SVC => 0,
        Mode::IRQ => 1,
        Mode::FIQ => 2,
        _ => 3,
    }
}

/// Bank `g` of `r` once the registers of mode `m0` have been saved into
/// their bank.
pub open spec fn bank_saved(r: RegValues, m0: Mode, g: int) -> Seq<u32> {
    if bank_group(m0) == g {
        r.regs@.subrange(15 - bank_len(m0), 15)
    } else if g == 0 {
        r.svc@
    } else if g == 1 {
        r.irq@
    } else if g == 2 {
        r.fiq@
    } else {
        r.usr@
    }
}

/// The registers after leaving mode `m0` for mode `m1`: those below `m1`'s
/// bank and the PC stay, and `m1`'s bank (as just saved) is loaded.
pub open spec fn regs_switched(r: RegValues, m0: Mode, m1: Mode) -> Seq<u32> {
    r.regs@.subrange(0, 15 - bank_len(m1)) + bank_saved(r, m0, bank_group(m1)) + r.regs@.subrange(15, 16)
}

/// The banks and registers of `f` are those of `r` after leaving mode
/// `m0` for mode `m1`.
pub open spec fn banks_switched(r: RegValues, f: RegValues, m0: Mode, m1: Mode) -> bool {
    &&& f.svc@ == bank_saved(r, m0, 0)
    &&& f.irq@ == bank_saved(r, m0, 1)
    &&& f.fiq@ == bank_saved(r, m0, 2)
    &&& f.usr@ == bank_saved(r, m0, 3)
    &&& f.regs@ == regs_switched(r, m0, m1)
}

/// How many registers mode `m` banks.
pub open spec fn bank_len(m: Mode) -> int {
    match m {
        Mode::SVC | Mode::IRQ => 2,
        _ => 7,
    }
}

impl RegValues {
    /// A register file as it is at reset: all registers zero, PC at the
    /// high exception vectors, and every status word in System mode.
    pub fn new() -> (r: RegValues)
        ensures
            r.regs@ == seq![0u32; 15].push(0xFFFF_0000u32),
            r.usr@ == seq![0u32; 7],
            r.fiq@ == seq![0u32; 7],
            r.svc@ == seq![0u32; 2],
            r.irq@ == seq![0u32; 2],
            r.cpsr == 0b11111,
            r.spsr@ == seq![0b11111u32; 3],
    {
        let mut regs = [0u32; 16];
        regs[15] = 0xFFFF_0000;
        let r = RegValues {
            regs,
            usr: [0; 7],
            svc: [0; 2],
            irq: [0; 2],
            fiq: [0; 7],
            cpsr: 0b11111,
            spsr: [0b11111; 3],
        };
        assert(r.regs@ =~= seq![0u32; 15].push(0xFFFF_0000u32));
        assert(r.usr@ =~= seq![0u32; 7]);
        assert(r.fiq@ =~= seq![0u32; 7]);
        assert(r.svc@ =~= seq![0u32; 2]);
        assert(r.irq@ =~= seq![0u32; 2]);
        assert(r.spsr@ =~= seq![0b11111u32; 3]);
        r
    }

    /// The register file as the BIOS leaves it before jumping to `pc`.
    pub fn direct_boot(pc: u32) -> (r: RegValues)
        ensures
            r.regs@ == seq![0u32; 12].push(pc).push(0x0300_3FC0u32).push(0u32).push(pc),
            r.irq@ == seq![0x0300_3F80u32, 0u32],
            r.svc@ == seq![0x0300_2F7Cu32, pc],
            r.usr@ == seq![0u32; 7],
            r.fiq@ == seq![0u32; 7],
            r.cpsr == 0xD3,
            r.spsr@ == seq![0b11111u32; 3],
    {
        let mut r = RegValues::new();
        r.regs[12] = pc;
        r.regs[13] = 0x0300_3FC0;
        r.regs[15] = pc;
        r.irq[0] = 0x0300_3F80;
        r.svc[0] = 0x0300_2F7C;
        r.svc[1] = pc;
        r.cpsr = 0xD3;
        assert(r.regs@ =~= seq![0u32; 12].push(pc).push(0x0300_3FC0u32).push(0u32).push(pc));
        assert(r.irq@ =~= seq![0x0300_3F80u32, 0u32]);
        assert(r.svc@ =~= seq![0x0300_2F7Cu32, pc]);
        r
    }

    /// The mode named by the current status word.
    pub fn get_mode(&self) -> (m: Mode)
        requires
            is_mode_encoding(self.cpsr),
        ensures
            m == mode_of(self.cpsr),
    {
        get_mode(self.cpsr)
    }

    /// Copies r8-r14 (or r13-r14) of the current mode into its bank.
    pub fn save_banked(&mut self)
        requires
            is_mode_encoding(old(self).cpsr),
            is_banked_mode(mode_of(old(self).cpsr)),
        ensures
            ({
                let m = mode_of(old(self).cpsr);
                let start = 15 - bank_len(m);
                &&& banked_of(*final(self), m) == old(self).regs@.subrange(start, 15)
                &&& final(self).regs == old(self).regs
                &&& final(self).cpsr == old(self).cpsr
                &&& final(self).spsr == old(self).spsr
                &&& m != Mode::USR && m != Mode::SYS ==> final(self).usr == old(self).usr
                &&& m != Mode::SVC ==> final(self).svc == old(self).svc
                &&& m != Mode::IRQ ==> final(self).irq == old(self).irq
                &&& m != Mode::FIQ ==> final(self).fiq == old(self).fiq
            }),
    {
        let m = get_mode(self.cpsr);
        match m {
            Mode::SVC => {
                self.svc[0] = self.regs[13];
                self.svc[1] = self.regs[14];
                assert(self.svc@ =~= self.regs@.subrange(13, 15));
            },
            Mode::IRQ => {
                self.irq[0] = self.regs[13];
                self.irq[1] = self.regs[14];
                assert(self.irq@ =~= self.regs@.subrange(13, 15));
            },
            Mode::FIQ => {
                let mut i: usize = 0;
                while i < 7
                    invariant
                        0 <= i <= 7,
                        forall|k: int| 0 <= k < i ==> self.fiq@[k] == self.regs@[8 + k],
                        self.regs == old(self).regs,
                        self.cpsr == old(self).cpsr,
                        self.spsr == old(self).spsr,
                        self.usr == old(self).usr,
                        self.svc == old(self).svc,
                        self.irq == old(self).irq,
                    decreases 7 - i,
                {
                    let v = self.regs[8 + i];
                    self.fiq[i] = v;
                    i = i + 1;
                }
                assert(self.fiq@ =~= self.regs@.subrange(8, 15));
            },
            _ => {
                let mut i: usize = 0;
                while i < 7
                    invariant
                        0 <= i <= 7,
                        forall|k: int| 0 <= k < i ==> self.usr@[k] == self.regs@[8 + k],
                        self.regs == old(self).regs,
                        self.cpsr == old(self).cpsr,
                        self.spsr == old(self).spsr,
                        self.fiq == old(self).fiq,
                        self.svc == old(self).svc,
                        self.irq == old(self).irq,
                    decreases 7 - i,
                {
                    let v = self.regs[8 + i];
                    self.usr[i] = v;
                    i = i + 1;
                }
                assert(self.usr@ =~= self.regs@.subrange(8, 15));
            },
        }
    }

    /// Copies the bank of `mode`, which must be the current mode, into
    /// r8-r14 (or r13-r14).
    pub fn load_banked(&mut self, mode: Mode)
        requires
            is_mode_encoding(old(self).cpsr),
            mode_of(old(self).cpsr) == mode,
            is_banked_mode(mode),
        ensures
            ({
                let start = 15 - bank_len(mode);
                &&& final(self).regs@ == old(self).regs@.subrange(0, start) + banked_of(
                    *old(self),
                    mode,
                ) + old(self).regs@.subrange(15, 16)
                &&& final(self).usr == old(self).usr
                &&& final(self).svc == old(self).svc
                &&& final(self).irq == old(self).irq
                &&& final(self).fiq == old(self).fiq
                &&& final(self).cpsr == old(self).cpsr
                &&& final(self).spsr == old(self).spsr
            }),
    {
        match mode {
            Mode::SVC => {
                self.regs[13] = self.svc[0];
                self.regs[14] = self.svc[1];
            },
            Mode::IRQ => {
                self.regs[13] = self.irq[0];
                self.regs[14] = self.irq[1];
            },
            Mode::FIQ => {
                let mut i: usize = 0;
                while i < 7
                    invariant
                        0 <= i <= 7,
                        forall|k: int| 0 <= k < i ==> self.regs@[8 + k] == self.fiq@[k],
                        forall|k: int| 0 <= k < 8 ==> self.regs@[k] == old(self).regs@[k],
                        self.regs@[15] == old(self).regs@[15],
                        self.cpsr == old(self).cpsr,
                        self.spsr == old(self).spsr,
                        self.usr == old(self).usr,
                        self.svc == old(self).svc,
                        self.irq == old(self).irq,
                        self.fiq == old(self).fiq,
                    decreases 7 - i,
                {
                    let v = self.fiq[i];
                    self.regs[8 + i] = v;
                    i = i + 1;
                }
            },
            _ => {
                let mut i: usize = 0;
                while i < 7
                    invariant
                        0 <= i <= 7,
                        forall|k: int| 0 <= k < i ==> self.regs@[8 + k] == self.usr@[k],
                        forall|k: int| 0 <= k < 8 ==> self.regs@[k] == old(self).regs@[k],
                        self.regs@[15] == old(self).regs@[15],
                        self.cpsr == old(self).cpsr,
                        self.spsr == old(self).spsr,
                        self.usr == old(self).usr,
                        self.svc == old(self).svc,
                        self.irq == old(self).irq,
                        self.fiq == old(self).fiq,
                    decreases 7 - i,
                {
                    let v = self.usr[i];
                    self.regs[8 + i] = v;
                    i = i + 1;
                }
            },
        }
        let ghost start = 15 - bank_len(mode);
        assert(self.regs@ =~= old(self).regs@.subrange(0, start) + banked_of(*old(self), mode)
            + old(self).regs@.subrange(15, 16));
    }

    /// The saved status word of the current mode; modes without one read
    /// the current status word.
    pub fn spsr(&self) -> (r: u32)
        requires
            is_mode_encoding(self.cpsr),
            is_banked_mode(mode_of(self.cpsr)),
        ensures
            r == (if has_spsr(mode_of(self.cpsr)) {
                self.spsr@[spsr_index(mode_of(self.cpsr))]
            } else {
                self.cpsr
            }),
    {
        match get_mode(self.cpsr) {
            Mode::SVC => self.spsr[0],
            Mode::IRQ => self.spsr[1],
            Mode::FIQ => self.spsr[2],
            _ => self.cpsr,
        }
    }

    /// Overwrites the saved status word of the current mode (the current
    /// status word for modes without one).
    pub fn set_spsr(&mut self, value: u32)
        requires
            is_mode_encoding(old(self).cpsr),
            is_banked_mode(mode_of(old(self).cpsr)),
        ensures
            ({
                let m = mode_of(old(self).cpsr);
                if has_spsr(m) {
                    &&& final(self).spsr@ == old(self).spsr@.update(spsr_index(m), value)
                    &&& final(self).cpsr == old(self).cpsr
                } else {
                    &&& final(self).spsr == old(self).spsr
                    &&& final(self).cpsr == value
                }
            }),
            final(self).regs == old(self).regs,
            final(self).usr == old(self).usr,
            final(self).svc == old(self).svc,
            final(self).irq == old(self).irq,
            final(self).fiq == old(self).fiq,
    {
        match get_mode(self.cpsr) {
            Mode::SVC => self.spsr[0] = value,
            Mode::IRQ => self.spsr[1] = value,
            Mode::FIQ => self.spsr[2] = value,
            _ => self.cpsr = value,
        }
    }

    /// The current status word.
    pub fn cpsr(&self) -> (r: u32)
        ensures
            r == self.cpsr,
    {
        self.cpsr
    }

    /// Switches to `mode` on an exception: the registers of the old mode
    /// are banked, those of the new mode loaded, and the old status word
    /// saved as the new mode's saved status word.
    pub fn change_mode(&mut self, mode: Mode)
        requires
            is_mode_encoding(old(self).cpsr),
            is_banked_mode(mode_of(old(self).cpsr)),
            is_banked_mode(mode),
        ensures
            final(self).cpsr & 0x1F == mode_bits(mode) || !has_spsr(mode),
            mode_of(final(self).cpsr) == mode || !has_spsr(mode),
            has_spsr(mode) ==> final(self).spsr@[spsr_index(mode)] == old(self).cpsr,
            has_spsr(mode) ==> final(self).cpsr == (old(self).cpsr & !0x1Fu32) | mode_bits(mode),
            !has_spsr(mode) ==> final(self).cpsr == old(self).cpsr,
            has_spsr(mode) ==> final(self).spsr@ == old(self).spsr@.update(spsr_index(mode), old(self).cpsr),
            !has_spsr(mode) ==> final(self).spsr == old(self).spsr,
            banks_switched(*old(self), *final(self), mode_of(old(self).cpsr), mode),
    {
        self.save_banked();
        let cpsr = self.cpsr;
        let bits = mode.bits();
        self.cpsr = (self.cpsr & !0x1F) | bits;
        proof {
            lemma_mode_roundtrip(cpsr, mode);
        }
        self.load_banked(mode);
        self.set_spsr(cpsr);
    }

    /// Switches to `mode` without saving the status word.
    pub fn set_mode(&mut self, mode: Mode)
        requires
            is_mode_encoding(old(self).cpsr),
            is_banked_mode(mode_of(old(self).cpsr)),
            is_banked_mode(mode),
        ensures
            final(self).cpsr == (old(self).cpsr & !0x1Fu32) | mode_bits(mode),
            mode_of(final(self).cpsr) == mode,
            final(self).spsr == old(self).spsr,
            banks_switched(*old(self), *final(self), mode_of(old(self).cpsr), mode),
    {
        self.save_banked();
        let bits = mode.bits();
        let cpsr = self.cpsr;
        self.cpsr = (self.cpsr & !0x1F) | bits;
        proof {
            lemma_mode_roundtrip(cpsr, mode);
        }
        self.load_banked(mode);
    }

    /// Returns from an exception: the saved status word becomes current and
    /// the registers of the mode it names are loaded.
    pub fn restore_cpsr(&mut self)
        requires
            is_mode_encoding(old(self).cpsr),
            is_banked_mode(mode_of(old(self).cpsr)),
            ({
                let m = mode_of(old(self).cpsr);
                let s = if has_spsr(m) { old(self).spsr@[spsr_index(m)] } else { old(self).cpsr };
                is_mode_encoding(s) && is_banked_mode(mode_of(s))
            }),
        ensures
            ({
                let m = mode_of(old(self).cpsr);
                final(self).cpsr == if has_spsr(m) {
                    old(self).spsr@[spsr_index(m)]
                } else {
                    old(self).cpsr
                }
            }),
            final(self).spsr == old(self).spsr,
            banks_switched(*old(self), *final(self), mode_of(old(self).cpsr), mode_of(final(self).cpsr)),
    {
        self.save_banked();
        let s = self.spsr();
        self.cpsr = s;
        let m = get_mode(self.cpsr);
        self.load_banked(m);
    }

    /// The stack pointer, r13.
    pub fn sp(&self) -> (r: u32)
        ensures
            r == self.regs@[13],
    {
        self.regs[13]
    }

    /// Sets the stack pointer, r13.
    pub fn set_sp(&mut self, value: u32)
        ensures
            final(self).regs@ == old(self).regs@.update(13, value),
            final(self).cpsr == old(self).cpsr,
    {
        self.regs[13] = value;
    }

    /// The link register, r14.
    pub fn lr(&self) -> (r: u32)
        ensures
            r == self.regs@[14],
    {
        self.regs[14]
    }

    /// Sets the link register, r14.
    pub fn set_lr(&mut self, value: u32)
        ensures
            final(self).regs@ == old(self).regs@.update(14, value),
            final(self).cpsr == old(self).cpsr,
    {
        self.regs[14] = value;
    }

    /// Whether the status flag (or flags) `mask` is set.
    pub fn get_flag(&self, mask: u32) -> (r: bool)
        ensures
            r == has_flag(self.cpsr, mask),
    {
        self.cpsr & mask == mask
    }

    /// Sets or clears the status flag (or flags) `mask`.
    pub fn set_flag(&mut self, mask: u32, value: bool)
        ensures
            final(self).cpsr == with_flag(old(self).cpsr, mask, value),
            final(self).regs == old(self).regs,
            final(self).spsr == old(self).spsr,
            final(self).usr == old(self).usr,
            final(self).svc == old(self).svc,
            final(self).irq == old(self).irq,
            final(self).fiq == old(self).fiq,
    {
        if value {
            self.cpsr = self.cpsr | mask;
        } else {
            self.cpsr = self.cpsr & !mask;
        }
    }

    /// The carry flag.
    pub fn get_c(&self) -> (r: bool)
        ensures
            r == has_flag(self.cpsr, FLAG_C),
    {
        self.get_flag(FLAG_C)
    }

    /// The IRQ-disable flag.
    pub fn get_i(&self) -> (r: bool)
        ensures
            r == has_flag(self.cpsr, FLAG_I),
    {
        self.get_flag(FLAG_I)
    }

    /// The Thumb-state flag.
    pub fn get_t(&self) -> (r: bool)
        ensures
            r == has_flag(self.cpsr, FLAG_T),
    {
        self.get_flag(FLAG_T)
    }

    /// The top byte of the status word: N, Z, C, V, Q and four reserved bits.
    pub fn get_flags(&self) -> (r: u32)
        ensures
            r == self.cpsr >> 24,
    {
        self.cpsr >> 24
    }
}

proof fn lemma_mode_roundtrip(cpsr: u32, mode: Mode)
    ensures
        is_mode_encoding((cpsr & !0x1Fu32) | mode_bits(mode)),
        mode_of((cpsr & !0x1Fu32) | mode_bits(mode)) == mode,
        ((cpsr & !0x1Fu32) | mode_bits(mode)) & 0x1F == mode_bits(mode),
{
    let b = mode_bits(mode);
    assert(b < 32);
    assert(((cpsr & !0x1Fu32) | b) & 0x1F == b) by (bit_vector)
        requires
            b < 32;
}


/// `op` rotated right by `s` bits, `0 <= s <= 32`.
pub open spec fn ror(op: u32, s: u32) -> u32 {
    if s == 0 || s == 32 {
        op
    } else {
        (op >> s) | (op << ((32 - s) as u32))
    }
}

/// `op` shifted right by `s` bits with its sign bit copied in, `0 <= s <= 31`.
pub open spec fn asr(op: u32, s: u32) -> u32 {
    if op & 0x8000_0000 == 0 {
        op >> s
    } else {
        (op >> s) | !(0xFFFF_FFFFu32 >> s)
    }
}

/// Bit `i` of `op` as a `bool`.
pub open spec fn bit(op: u32, i: u32) -> bool {
    (op >> i) & 1 != 0
}

/// The barrel shifter: the shifted operand, and the carry it produces when
/// it produces one. `st` selects LSL, LSR, ASR or ROR; an immediate shift
/// amount of 0 encodes LSL #0, LSR #32, ASR #32 and RRX; `c` is the carry
/// flag before the shift.
pub open spec fn shifter(st: u32, op: u32, sh: u32, imm: bool, c: bool) -> (u32, Option<bool>) {
    if imm && sh == 0 {
        if st == 0 {
            (op, None)
        } else if st == 1 {
            (0, Some(bit(op, 31)))
        } else if st == 2 {
            (if bit(op, 31) { 0xFFFF_FFFFu32 } else { 0u32 }, Some(bit(op, 31)))
        } else {
            ((if c { 0x8000_0000u32 } else { 0u32 }) | (op >> 1), Some(bit(op, 0)))
        }
    } else if sh > 31 {
        if st == 0 {
            (0, Some(sh == 32 && bit(op, 0)))
        } else if st == 1 {
            (0, Some(sh == 32 && bit(op, 31)))
        } else if st == 2 {
            (if bit(op, 31) { 0xFFFF_FFFFu32 } else { 0u32 }, Some(bit(op, 31)))
        } else {
            let s = if sh & 0x1F == 0 { 32u32 } else { sh & 0x1F };
            (ror(op, s), Some(bit(op, (s - 1) as u32)))
        }
    } else if sh == 0 {
        (op, None)
    } else {
        if st == 0 {
            (op << sh, Some(bit(op, (32 - sh) as u32)))
        } else if st == 1 {
            (op >> sh, Some(bit(op, (sh - 1) as u32)))
        } else if st == 2 {
            (asr(op, sh), Some(bit(op, (sh - 1) as u32)))
        } else {
            (ror(op, sh), Some(bit(op, (sh - 1) as u32)))
        }
    }
}

/// The register-amount shifts by 1 to 31 bits are arithmetic on the
/// operand: LSR divides by 2^sh, ASR of a non-negative operand too, and
/// LSL multiplies by 2^sh when the product fits in 32 bits. Each leaves
/// the last bit shifted out as the carry.
pub proof fn lemma_shifter_arith(op: u32, sh: u32, c: bool)
    requires
        1 <= sh <= 31,
    ensures
        shifter(1, op, sh, false, c).0 == op as nat / vstd::arithmetic::power2::pow2(sh as nat),
        shifter(1, op, sh, false, c).1 == Some(bit(op, (sh - 1) as u32)),
        op < 0x8000_0000 ==> shifter(2, op, sh, false, c).0 == op as nat
            / vstd::arithmetic::power2::pow2(sh as nat),
        op * vstd::arithmetic::power2::pow2(sh as nat) <= 0xFFFF_FFFF ==> shifter(0, op, sh, false, c).0
            == op * vstd::arithmetic::power2::pow2(sh as nat),
        shifter(0, op, sh, false, c).1 == Some(bit(op, (32 - sh) as u32)),
{
    vstd::bits::lemma_u32_shr_is_div(op, sh);
    if op * vstd::arithmetic::power2::pow2(sh as nat) <= 0xFFFF_FFFF {
        vstd::bits::lemma_u32_shl_is_mul(op, sh);
    }
    if op < 0x8000_0000 {
        assert(op & 0x8000_0000 == 0) by {
            lemma_shifter_bits(op, sh);
            vstd::bits::lemma_u32_shr_is_div(op, 31);
            vstd::arithmetic::power2::lemma2_to64();
        }
    }
}

/// The sum of `a` and `b` modulo 2^32, with its carry and signed overflow.
pub open spec fn add_with_flags(a: u32, b: u32, carry_in: bool) -> (u32, bool, bool) {
    let cin: int = if carry_in { 1 } else { 0 };
    let sum: int = a + b + cin;
    let r = (sum % 0x1_0000_0000) as u32;
    (r, sum >= 0x1_0000_0000, ((a ^ b) & 0x8000_0000 == 0) && ((a ^ r) & 0x8000_0000 != 0))
}

/// The status word after an arithmetic result `r` with carry `c` and
/// overflow `v` sets the four condition flags.
pub open spec fn with_nzcv(cpsr: u32, r: u32, c: bool, v: bool) -> u32 {
    with_flag(
        with_flag(with_flag(with_flag(cpsr, FLAG_C, c), FLAG_V, v), FLAG_Z, r == 0),
        FLAG_N,
        r & 0x8000_0000 != 0,
    )
}

/// Whether condition code `cond` passes for the flags `nzcv` (N in bit 3).
pub open spec fn condition_passes(nzcv: u32, cond: u32) -> bool {
    let n = nzcv & 0x8 != 0;
    let z = nzcv & 0x4 != 0;
    let c = nzcv & 0x2 != 0;
    let v = nzcv & 0x1 != 0;
    if cond == 0x0 {
        z
    } else if cond == 0x1 {
        !z
    } else if cond == 0x2 {
        c
    } else if cond == 0x3 {
        !c
    } else if cond == 0x4 {
        n
    } else if cond == 0x5 {
        !n
    } else if cond == 0x6 {
        v
    } else if cond == 0x7 {
        !v
    } else if cond == 0x8 {
        c && !z
    } else if cond == 0x9 {
        !c || z
    } else if cond == 0xA {
        n == v
    } else if cond == 0xB {
        n != v
    } else if cond == 0xC {
        !z && n == v
    } else if cond == 0xD {
        z || n != v
    } else {
        true
    }
}

/// The condition codes come in complementary pairs (EQ/NE, CS/CC, MI/PL,
/// VS/VC, HI/LS, GE/LT, GT/LE): the odd code of each pair passes exactly
/// when the even one fails. EQ passes on Z, CS on C, MI on N and VS on V,
/// GE when N equals V, and AL (and the unused code 15) always.
pub proof fn lemma_condition_pairs(nzcv: u32)
    ensures
        condition_passes(nzcv, 0x1) == !condition_passes(nzcv, 0x0),
        condition_passes(nzcv, 0x3) == !condition_passes(nzcv, 0x2),
        condition_passes(nzcv, 0x5) == !condition_passes(nzcv, 0x4),
        condition_passes(nzcv, 0x7) == !condition_passes(nzcv, 0x6),
        condition_passes(nzcv, 0x9) == !condition_passes(nzcv, 0x8),
        condition_passes(nzcv, 0xB) == !condition_passes(nzcv, 0xA),
        condition_passes(nzcv, 0xD) == !condition_passes(nzcv, 0xC),
        condition_passes(nzcv, 0x0) == (nzcv & 0x4 != 0),
        condition_passes(nzcv, 0x2) == (nzcv & 0x2 != 0),
        condition_passes(nzcv, 0x4) == (nzcv & 0x8 != 0),
        condition_passes(nzcv, 0x6) == (nzcv & 0x1 != 0),
        condition_passes(nzcv, 0x8) == (nzcv & 0x2 != 0 && nzcv & 0x4 == 0),
        condition_passes(nzcv, 0xA) == ((nzcv & 0x8 != 0) == (nzcv & 0x1 != 0)),
        condition_passes(nzcv, 0xC) == (nzcv & 0x4 == 0 && (nzcv & 0x8 != 0) == (nzcv & 0x1 != 0)),
        condition_passes(nzcv, 0xE),
        condition_passes(nzcv, 0xF),
{
}

/// Builds the table of condition results indexed by `nzcv << 4 | cond`.
pub fn gen_condition_table() -> (lut: [bool; 256])
    ensures
        forall|i: int| 0 <= i < 256 ==> #[trigger] lut@[i] == condition_passes(
            (i / 16) as u32,
            (i % 16) as u32,
        ),
{
    let mut lut = [false; 256];
    let mut flags: usize = 0;
    while flags <= 0xF
        invariant
            flags <= 16,
            forall|i: int| 0 <= i < flags * 16 ==> #[trigger] lut@[i] == condition_passes(
                (i / 16) as u32,
                (i % 16) as u32,
            ),
        decreases 16 - flags,
    {
        let mut condition: usize = 0;
        while condition <= 0xF
            invariant
                flags < 16,
                condition <= 16,
                forall|i: int| 0 <= i < flags * 16 + condition ==> #[trigger] lut@[i]
                    == condition_passes((i / 16) as u32, (i % 16) as u32),
            decreases 16 - condition,
        {
            let n = flags & 0x8 != 0;
            let z = flags & 0x4 != 0;
            let c = flags & 0x2 != 0;
            let v = flags & 0x1 != 0;
            let value = if condition == 0x0 {
                z
            } else if condition == 0x1 {
                !z
            } else if condition == 0x2 {
                c
            } else if condition == 0x3 {
                !c
            } else if condition == 0x4 {
                n
            } else if condition == 0x5 {
                !n
            } else if condition == 0x6 {
                v
            } else if condition == 0x7 {
                !v
            } else if condition == 0x8 {
                c && !z
            } else if condition == 0x9 {
                !c || z
            } else if condition == 0xA {
                n == v
            } else if condition == 0xB {
                n != v
            } else if condition == 0xC {
                !z && n == v
            } else if condition == 0xD {
                z || n != v
            } else {
                true
            };
            let idx: usize = flags * 16 + condition;
            proof {
                let fl = flags as u32;
                assert(fl & 0x8 == (flags as u32) & 0x8);
                assert(idx / 16 == flags && idx % 16 == condition);
            }
            lut[idx] = value;
            condition = condition + 1;
        }
        flags = flags + 1;
    }
    lut
}

/// The part of an ARM core that the data-processing instructions use: the
/// register file, the cycle count of the current instruction, the kind of
/// the next bus access, and the condition table.
pub struct ArmCore {
    pub cycles_spent: usize,
    pub regs: RegValues,
    pub next_access_type: AccessType,
    pub condition_lut: [bool; 256],
}

/// `core` after the only field that differs is its status word.
pub open spec fn only_cpsr_changed(old_core: ArmCore, new_core: ArmCore) -> bool {
    &&& new_core.regs.regs == old_core.regs.regs
    &&& new_core.regs.spsr == old_core.regs.spsr
    &&& new_core.regs.usr == old_core.regs.usr
    &&& new_core.regs.svc == old_core.regs.svc
    &&& new_core.regs.irq == old_core.regs.irq
    &&& new_core.regs.fiq == old_core.regs.fiq
    &&& new_core.condition_lut == old_core.condition_lut
}

impl ArmCore {
    /// A core with the given registers and a fresh condition table.
    pub fn new(regs: RegValues) -> (core: ArmCore)
        ensures
            core.cycles_spent == 0,
            core.regs == regs,
            core.next_access_type == AccessType::N,
            forall|i: int| 0 <= i < 256 ==> #[trigger] core.condition_lut@[i] == condition_passes(
                (i / 16) as u32,
                (i % 16) as u32,
            ),
    {
        ArmCore {
            cycles_spent: 0,
            regs,
            next_access_type: AccessType::N,
            condition_lut: gen_condition_table(),
        }
    }

    /// An internal cycle: one cycle passes and the next access is
    /// non-sequential.
    pub fn internal(&mut self)
        requires
            old(self).cycles_spent < usize::MAX,
        ensures
            final(self).cycles_spent == old(self).cycles_spent + 1,
            final(self).next_access_type == AccessType::N,
            final(self).regs == old(self).regs,
            final(self).condition_lut == old(self).condition_lut,
    {
        self.cycles_spent = self.cycles_spent + 1;
        self.next_access_type = AccessType::N;
    }

    /// Whether an instruction with condition code `condition` executes under
    /// the current flags.
    pub fn should_exec(&self, condition: u32) -> (r: bool)
        requires
            condition < 16,
            forall|i: int| 0 <= i < 256 ==> #[trigger] self.condition_lut@[i] == condition_passes(
                (i / 16) as u32,
                (i % 16) as u32,
            ),
        ensures
            r == condition_passes(self.regs.cpsr >> 28, condition),
    {
        let flags = self.regs.get_flags();
        let idx = (flags & 0xF0) | condition;
        proof {
            let cpsr = self.regs.cpsr;
            assert(idx / 16 == cpsr >> 28 && idx % 16 == condition && idx < 256) by (bit_vector)
                requires
                    flags == cpsr >> 24,
                    idx == (flags & 0xF0) | condition,
                    condition < 16;
        }
        self.condition_lut[idx as usize]
    }

    /// Rotates `op` right by `s` bits.
    fn ror32(op: u32, s: u32) -> (r: u32)
        requires
            s <= 32,
        ensures
            r == ror(op, s),
    {
        if s == 0 || s == 32 {
            op
        } else {
            (op >> s) | (op << (32 - s))
        }
    }

    /// The barrel shifter. It returns the shifted operand; when
    /// `change_status` holds and the shift produces a carry, that carry
    /// becomes the C flag. A register-specified shift takes an internal
    /// cycle.
    pub fn shift(&mut self, shift_type: u32, operand: u32, shift: u32, immediate: bool, change_status: bool) -> (r: u32)
        requires
            shift_type < 4,
            !(immediate && shift > 31),
            old(self).cycles_spent < usize::MAX,
        ensures
            ({
                let (value, carry) = shifter(
                    shift_type,
                    operand,
                    shift,
                    immediate,
                    has_flag(old(self).regs.cpsr, FLAG_C),
                );
                &&& r == value
                &&& final(self).regs.cpsr == (if change_status && carry is Some {
                    with_flag(old(self).regs.cpsr, FLAG_C, carry->0)
                } else {
                    old(self).regs.cpsr
                })
            }),
            only_cpsr_changed(*old(self), *final(self)),
            final(self).cycles_spent == old(self).cycles_spent + (if immediate { 0int } else { 1int }),
            final(self).next_access_type == (if immediate {
                old(self).next_access_type
            } else {
                AccessType::N
            }),
    {
        proof {
            lemma_shifter_bits(operand, shift);
        }
        if immediate && shift == 0 {
            if shift_type == 0 {
                operand
            } else if shift_type == 1 {
                if change_status {
                    self.regs.set_flag(FLAG_C, operand >> 31 != 0);
                }
                0
            } else if shift_type == 2 {
                let b = operand >> 31 != 0;
                if change_status {
                    self.regs.set_flag(FLAG_C, b);
                }
                if b {
                    0xFFFF_FFFF
                } else {
                    0
                }
            } else {
                let new_c = operand & 0x1 != 0;
                let old_c: u32 = if self.regs.get_c() { 1 } else { 0 };
                let op2 = old_c << 31 | operand >> 1;
                if change_status {
                    self.regs.set_flag(FLAG_C, new_c);
                }
                op2
            }
        } else if shift > 31 {
            self.internal();
            if shift_type == 0 {
                if change_status {
                    if shift == 32 {
                        let c = operand << 31u32 & 0x8000_0000 != 0;
                        self.regs.set_flag(FLAG_C, c);
                    } else {
                        self.regs.set_flag(FLAG_C, false);
                    }
                }
                0
            } else if shift_type == 1 {
                if change_status {
                    if shift == 32 {
                        let c = operand >> 31u32 & 0x1 != 0;
                        self.regs.set_flag(FLAG_C, c);
                    } else {
                        self.regs.set_flag(FLAG_C, false);
                    }
                }
                0
            } else if shift_type == 2 {
                let c = operand & 0x8000_0000 != 0;
                if change_status {
                    self.regs.set_flag(FLAG_C, c);
                }
                if c {
                    0xFFFF_FFFF
                } else {
                    0
                }
            } else {
                let s = shift & 0x1F;
                let s = if s == 0 { 0x20 } else { s };
                if change_status {
                    self.regs.set_flag(FLAG_C, operand >> (s - 1) & 0x1 != 0);
                }
                Self::ror32(operand, s)
            }
        } else {
            if !immediate {
                self.internal();
            }
            let change_status = change_status && shift != 0;
            if shift_type == 0 {
                if change_status {
                    let c = operand << (shift - 1) & 0x8000_0000 != 0;
                    self.regs.set_flag(FLAG_C, c);
                }
                operand << shift
            } else if shift_type == 1 {
                if change_status {
                    self.regs.set_flag(FLAG_C, operand >> (shift - 1) & 0x1 != 0);
                }
                operand >> shift
            } else if shift_type == 2 {
                if change_status {
                    self.regs.set_flag(FLAG_C, operand >> (shift - 1) & 0x1 != 0);
                }
                if operand & 0x8000_0000 == 0 {
                    operand >> shift
                } else {
                    (operand >> shift) | !(0xFFFF_FFFFu32 >> shift)
                }
            } else {
                if change_status {
                    self.regs.set_flag(FLAG_C, operand >> (shift - 1) & 0x1 != 0);
                }
                Self::ror32(operand, shift)
            }
        }
    }

    /// `op1 + op2`; with `change_status`, the result sets N, Z, C and V.
    pub fn add(&mut self, op1: u32, op2: u32, change_status: bool) -> (r: u32)
        ensures
            ({
                let (sum, c, v) = add_with_flags(op1, op2, false);
                &&& r == sum
                &&& final(self).regs.cpsr == (if change_status {
                    with_nzcv(old(self).regs.cpsr, sum, c, v)
                } else {
                    old(self).regs.cpsr
                })
            }),
            only_cpsr_changed(*old(self), *final(self)),
            final(self).cycles_spent == old(self).cycles_spent,
            final(self).next_access_type == old(self).next_access_type,
    {
        let wide: u64 = op1 as u64 + op2 as u64;
        let result: u32 = (wide % 0x1_0000_0000) as u32;
        let carry = wide >= 0x1_0000_0000;
        if change_status {
            let v = (op1 ^ op2) & 0x8000_0000 == 0 && (op1 ^ result) & 0x8000_0000 != 0;
            self.regs.set_flag(FLAG_C, carry);
            self.regs.set_flag(FLAG_V, v);
            self.regs.set_flag(FLAG_Z, result == 0);
            self.regs.set_flag(FLAG_N, result & 0x8000_0000 != 0);
        }
        result
    }

    /// `op1 + op2 + C`; with `change_status`, the result sets N, Z, C and V.
    pub fn adc(&mut self, op1: u32, op2: u32, change_status: bool) -> (r: u32)
        ensures
            ({
                let (sum, c, v) = add_with_flags(op1, op2, has_flag(old(self).regs.cpsr, FLAG_C));
                &&& r == sum
                &&& final(self).regs.cpsr == (if change_status {
                    with_nzcv(old(self).regs.cpsr, sum, c, v)
                } else {
                    old(self).regs.cpsr
                })
            }),
            only_cpsr_changed(*old(self), *final(self)),
            final(self).cycles_spent == old(self).cycles_spent,
            final(self).next_access_type == old(self).next_access_type,
    {
        let cin: u64 = if self.regs.get_c() { 1 } else { 0 };
        let wide: u64 = op1 as u64 + op2 as u64 + cin;
        let result: u32 = (wide % 0x1_0000_0000) as u32;
        if change_status {
            self.regs.set_flag(FLAG_C, wide >= 0x1_0000_0000);
            self.regs.set_flag(FLAG_Z, result == 0);
            self.regs.set_flag(FLAG_N, result & 0x8000_0000 != 0);
            self.regs.set_flag(FLAG_V, (!(op1 ^ op2)) & (op1 ^ result) & 0x8000_0000 != 0);
            proof {
                lemma_flag_order(old(self).regs.cpsr, op1, op2, result, wide >= 0x1_0000_0000);
            }
        }
        result
    }

    /// `op1 - op2`, computed as `op1 + !op2 + 1`; with `change_status`, the
    /// result sets N, Z, C (no borrow) and V.
    pub fn sub(&mut self, op1: u32, op2: u32, change_status: bool) -> (r: u32)
        ensures
            ({
                let (sum, c, v) = add_with_flags(op1, !op2, true);
                &&& r == sum
                &&& final(self).regs.cpsr == (if change_status {
                    with_nzcv(with_flag(old(self).regs.cpsr, FLAG_C, true), sum, c, v)
                } else {
                    old(self).regs.cpsr
                })
            }),
            only_cpsr_changed(*old(self), *final(self)),
            final(self).cycles_spent == old(self).cycles_spent,
            final(self).next_access_type == old(self).next_access_type,
    {
        let old_c = self.regs.get_c();
        let ghost before = self.regs.cpsr;
        self.regs.set_flag(FLAG_C, true);
        assert(has_flag(with_flag(before, FLAG_C, true), FLAG_C) && with_flag(
            with_flag(before, FLAG_C, true),
            FLAG_C,
            has_flag(before, FLAG_C),
        ) == before) by (bit_vector)
            requires
                FLAG_C == 0x2000_0000u32;
        let result = self.adc(op1, !op2, change_status);
        if !change_status {
            self.regs.set_flag(FLAG_C, old_c);
        }
        result
    }

    /// `op1 - op2 - !C`, computed as `op1 + !op2 + C`.
    pub fn sbc(&mut self, op1: u32, op2: u32, change_status: bool) -> (r: u32)
        ensures
            ({
                let (sum, c, v) = add_with_flags(op1, !op2, has_flag(old(self).regs.cpsr, FLAG_C));
                &&& r == sum
                &&& final(self).regs.cpsr == (if change_status {
                    with_nzcv(old(self).regs.cpsr, sum, c, v)
                } else {
                    old(self).regs.cpsr
                })
            }),
            only_cpsr_changed(*old(self), *final(self)),
            final(self).cycles_spent == old(self).cycles_spent,
            final(self).next_access_type == old(self).next_access_type,
    {
        self.adc(op1, !op2, change_status)
    }
}

/// The mask tested by the `k`-th internal cycle of a multiply (k from 0).
pub open spec fn mul_mask(k: nat) -> u32 {
    if k == 0 {
        0xFFFF_FF00
    } else if k == 1 {
        0xFFFF_0000
    } else if k == 2 {
        0xFF00_0000
    } else {
        0
    }
}

/// Whether the multiply's early-termination check stops after the cycle
/// that tests `mask`.
pub open spec fn mul_stops(op1: u32, signed: bool, mask: u32) -> bool {
    mask == 0 || op1 & mask == 0 || (signed && op1 & mask == mask)
}

/// The number of internal cycles a multiply by `op1` takes: one for each
/// mask tested up to and including the first one at which it stops.
pub open spec fn mul_cycles(op1: u32, signed: bool) -> nat {
    if mul_stops(op1, signed, mul_mask(0)) {
        1
    } else if mul_stops(op1, signed, mul_mask(1)) {
        2
    } else if mul_stops(op1, signed, mul_mask(2)) {
        3
    } else {
        4
    }
}

impl ArmCore {
    /// Spends the internal cycles of a multiply whose multiplier is `op1`:
    /// one per byte, stopping early once the remaining upper bytes are all
    /// zeros (or, for a signed multiply, all ones).
    pub fn inc_mul_clocks(&mut self, op1: u32, signed: bool)
        requires
            old(self).cycles_spent + 4 < usize::MAX,
        ensures
            final(self).cycles_spent == old(self).cycles_spent + mul_cycles(op1, signed),
            final(self).next_access_type == AccessType::N,
            final(self).regs == old(self).regs,
            final(self).condition_lut == old(self).condition_lut,
    {
        let mut mask: u32 = 0xFFFF_FF00;
        let mut k: usize = 0;
        loop
            invariant_except_break
                k <= 3,
                mask == mul_mask(k as nat),
                self.cycles_spent == old(self).cycles_spent + k,
                forall|j: nat| j < k ==> !mul_stops(op1, signed, #[trigger] mul_mask(j)),
                k > 0 ==> self.next_access_type == AccessType::N,
                k == 0 ==> self.next_access_type == old(self).next_access_type,
            invariant
                self.regs == old(self).regs,
                self.condition_lut == old(self).condition_lut,
                old(self).cycles_spent + 4 < usize::MAX,
            ensures
                self.cycles_spent == old(self).cycles_spent + mul_cycles(op1, signed),
                self.next_access_type == AccessType::N,
                self.regs == old(self).regs,
                self.condition_lut == old(self).condition_lut,
            decreases 4 - k,
        {
            self.internal();
            let value = op1 & mask;
            if mask == 0 || value == 0 || signed && value == mask {
                proof {
                    if k >= 1 {
                        assert(!mul_stops(op1, signed, mul_mask(0)));
                    }
                    if k >= 2 {
                        assert(!mul_stops(op1, signed, mul_mask(1)));
                    }
                }
                break;
            }
            assert(mask != 0);
            mask = mask << 8u32;
            assert(0xFFFF_FF00u32 << 8u32 == 0xFFFF_0000u32 && 0xFFFF_0000u32 << 8u32
                == 0xFF00_0000u32 && 0xFF00_0000u32 << 8u32 == 0u32) by (bit_vector);
            k = k + 1;
        }
    }
}

/// Subtraction through the adder: `a + !b + 1` is `a - b` modulo 2^32, and
/// its carry is set exactly when no borrow occurs (`a >= b`).
pub proof fn lemma_sub_is_subtraction(a: u32, b: u32)
    ensures
        add_with_flags(a, !b, true).0 == (a - b) % 0x1_0000_0000,
        add_with_flags(a, !b, true).1 == (a >= b),
{
    lemma_not_is_complement();
}

/// `shift - 1` for a positive shift amount.
pub open spec fn sub_one32(s: u32) -> u32 {
    (s - 1) as u32
}

proof fn lemma_flag_order(cpsr: u32, a: u32, b: u32, r: u32, c: bool)
    ensures
        with_flag(with_flag(with_flag(with_flag(cpsr, FLAG_C, c), FLAG_Z, r == 0), FLAG_N, r
            & 0x8000_0000 != 0), FLAG_V, (!(a ^ b)) & (a ^ r) & 0x8000_0000 != 0) == with_nzcv(
            cpsr,
            r,
            c,
            ((a ^ b) & 0x8000_0000 == 0) && ((a ^ r) & 0x8000_0000 != 0),
        ),
{
    let z = r == 0;
    let n = r & 0x8000_0000 != 0;
    let v = (!(a ^ b)) & (a ^ r) & 0x8000_0000 != 0;
    let v2 = ((a ^ b) & 0x8000_0000 == 0) && ((a ^ r) & 0x8000_0000 != 0);
    assert(v == v2 && with_flag(with_flag(with_flag(with_flag(cpsr, FLAG_C, c), FLAG_Z, z), FLAG_N, n), FLAG_V, v)
        == with_flag(with_flag(with_flag(with_flag(cpsr, FLAG_C, c), FLAG_V, v), FLAG_Z, z), FLAG_N, n))
        by (bit_vector)
        requires
            z == (r == 0),
            n == (r & 0x8000_0000 != 0),
            v == ((!(a ^ b)) & (a ^ r) & 0x8000_0000 != 0),
            v2 == (((a ^ b) & 0x8000_0000 == 0) && ((a ^ r) & 0x8000_0000 != 0));
}

proof fn lemma_shifter_bits(operand: u32, shift: u32)
    by (bit_vector)
    ensures
        (operand >> 31 != 0) == bit(operand, 31),
        (operand & 0x8000_0000 != 0) == bit(operand, 31),
        (operand & 0x1 != 0) == bit(operand, 0),
        (operand << 31u32 & 0x8000_0000 != 0) == bit(operand, 0),
        (0u32 << 31u32 | operand >> 1u32) == (0u32 | (operand >> 1u32)),
        (1u32 << 31u32 | operand >> 1u32) == (0x8000_0000u32 | (operand >> 1u32)),
        shift & 0x1F <= 31,
        operand << 0u32 == operand,
        operand >> 0u32 == operand,
        (operand >> 0u32) | !(0xFFFF_FFFFu32 >> 0u32) == operand,
        1 <= shift <= 31 ==> (operand << (sub_one32(shift)) & 0x8000_0000 != 0) == bit(
            operand,
            (32 - shift) as u32,
        ),
{
}


/// Whether Thumb ALU operation `op` is one of the register-amount shifts
/// (LSL, LSR, ASR, ROR).
pub open spec fn thumb_alu_shifts(op: u32) -> bool {
    op == 0x2 || op == 0x3 || op == 0x4 || op == 0x7
}

/// Whether Thumb ALU operation `op` writes its result back: the
/// comparisons (TST, CMP, CMN) do not.
pub open spec fn thumb_alu_writes(op: u32) -> bool {
    op != 0x8 && op != 0xA && op != 0xB
}

/// The result of Thumb ALU operation `op` on `dest` and `src`, and the
/// status word the operation itself leaves (before N and Z are set from
/// the result): AND, EOR, the shifts by the low byte of `src`, ADC, SBC,
/// TST, NEG, CMP, CMN, ORR, MUL, BIC and MVN.
pub open spec fn thumb_alu_op(op: u32, dest: u32, src: u32, cpsr: u32) -> (u32, u32) {
    let c = has_flag(cpsr, FLAG_C);
    if op == 0x0 || op == 0x8 {
        (dest & src, cpsr)
    } else if op == 0x1 {
        (dest ^ src, cpsr)
    } else if thumb_alu_shifts(op) {
        let st: u32 = if op == 0x7 {
            3
        } else {
            (op - 2) as u32
        };
        let (v, carry) = shifter(st, dest, src & 0xFF, false, c);
        (v, if carry is Some {
            with_flag(cpsr, FLAG_C, carry->0)
        } else {
            cpsr
        })
    } else if op == 0x5 {
        let (r, cc, v) = add_with_flags(dest, src, c);
        (r, with_nzcv(cpsr, r, cc, v))
    } else if op == 0x6 {
        let (r, cc, v) = add_with_flags(dest, !src, c);
        (r, with_nzcv(cpsr, r, cc, v))
    } else if op == 0x9 || op == 0xA {
        let a: u32 = if op == 0x9 {
            0
        } else {
            dest
        };
        let (r, cc, v) = add_with_flags(a, !src, true);
        (r, with_nzcv(with_flag(cpsr, FLAG_C, true), r, cc, v))
    } else if op == 0xB {
        let (r, cc, v) = add_with_flags(dest, src, false);
        (r, with_nzcv(cpsr, r, cc, v))
    } else if op == 0xC {
        (dest | src, cpsr)
    } else if op == 0xD {
        (((dest as int * src as int) % 0x1_0000_0000) as u32, cpsr)
    } else if op == 0xE {
        (dest & !src, cpsr)
    } else {
        (!src, cpsr)
    }
}

/// What each Thumb ALU operation computes, with `c` the carry flag it
/// starts from: AND, EOR, ORR and BIC are the bitwise operations (so an
/// EOR of a value with itself is zero), MVN the complement, MUL the low
/// word of the product, ADC `dest + src + c`, SBC `dest - src - (1 - c)`,
/// NEG `0 - src`, CMP `dest - src` and CMN `dest + src`, all modulo 2^32;
/// by 1 to 31 bits, LSR divides by a power of two, ASR too for a
/// non-negative value, and LSL multiplies when the product fits.
pub proof fn lemma_thumb_alu_results(op: u32, dest: u32, src: u32, cpsr: u32)
    ensures
        ({
            let r = thumb_alu_op(op, dest, src, cpsr).0;
            let c: int = if has_flag(cpsr, FLAG_C) { 1 } else { 0 };
            &&& (op == 0x0 || op == 0x8) ==> r == dest & src
            &&& op == 0x1 ==> r == dest ^ src && (dest == src ==> r == 0)
            &&& op == 0xC ==> r == dest | src
            &&& op == 0xE ==> r == dest & !src
            &&& op == 0xF ==> r == !src && r + src == 0xFFFF_FFFF
            &&& op == 0xD ==> r == (dest * src) % 0x1_0000_0000
            &&& op == 0x5 ==> r == (dest + src + c) % 0x1_0000_0000
            &&& op == 0x6 ==> r == (dest - src - 1 + c) % 0x1_0000_0000
            &&& op == 0x9 ==> r == (0 - src) % 0x1_0000_0000
            &&& op == 0xA ==> r == (dest - src) % 0x1_0000_0000
            &&& op == 0xB ==> r == (dest + src) % 0x1_0000_0000
            &&& (op == 0x3 && 1 <= (src & 0xFF) <= 31) ==> r == dest as nat / vstd::arithmetic::power2::pow2(
                (src & 0xFF) as nat,
            )
            &&& (op == 0x4 && 1 <= (src & 0xFF) <= 31 && dest < 0x8000_0000) ==> r == dest as nat
                / vstd::arithmetic::power2::pow2((src & 0xFF) as nat)
            &&& (op == 0x2 && 1 <= (src & 0xFF) <= 31 && dest * vstd::arithmetic::power2::pow2(
                (src & 0xFF) as nat,
            ) <= 0xFFFF_FFFF) ==> r == dest * vstd::arithmetic::power2::pow2((src & 0xFF) as nat)
        }),
{
    if 1 <= (src & 0xFF) <= 31 {
        lemma_shifter_arith(dest, src & 0xFF, has_flag(cpsr, FLAG_C));
    }
    lemma_not_is_complement();
    lemma_sub_is_subtraction(dest, src);
    lemma_sub_is_subtraction(0, src);
    assert(dest ^ dest == 0);
    let big: int = 0x1_0000_0000;
    let x: int = dest - src - 1 + big;
    assert(dest + (0xFFFF_FFFF - src) + 0 == x);
    assert(dest + (0xFFFF_FFFF - src) + 1 == x + 1);
    vstd::arithmetic::div_mod::lemma_mod_add_multiples_vanish(dest - src - 1, big);
    vstd::arithmetic::div_mod::lemma_mod_add_multiples_vanish(dest - src, big);
}

impl ArmCore {
    /// Thumb format 4: an ALU operation between two low registers. The
    /// operation's own flag effects come first, then N and Z follow the
    /// result; the comparisons leave the destination alone. Register-amount
    /// shifts take an internal cycle, and a multiply its multiplier cycles.
    /// The instruction fetch around it is the bus's.
    pub fn thumb_alu(&mut self, instr: u16)
        requires
            (instr >> 10u16) & 0x3F == 0x10,
            old(self).cycles_spent + 4 < usize::MAX,
        ensures
            ({
                let op = ((instr >> 6u16) & 0xF) as u32;
                let d = (instr & 0x7) as int;
                let dest = old(self).regs.regs@[d];
                let src = old(self).regs.regs@[((instr >> 3u16) & 0x7) as int];
                let (r, cpsr) = thumb_alu_op(op, dest, src, old(self).regs.cpsr);
                &&& final(self).regs.cpsr == with_flag(
                    with_flag(cpsr, FLAG_N, r & 0x8000_0000 != 0),
                    FLAG_Z,
                    r == 0,
                )
                &&& final(self).regs.regs@ == (if thumb_alu_writes(op) {
                    old(self).regs.regs@.update(d, r)
                } else {
                    old(self).regs.regs@
                })
                &&& final(self).cycles_spent == old(self).cycles_spent + (if thumb_alu_shifts(op) {
                    1
                } else if op == 0xD {
                    mul_cycles(dest, true) as int
                } else {
                    0
                })
                &&& final(self).next_access_type == (if thumb_alu_shifts(op) || op == 0xD {
                    AccessType::N
                } else {
                    old(self).next_access_type
                })
            }),
            final(self).regs.spsr == old(self).regs.spsr,
            final(self).regs.usr == old(self).regs.usr,
            final(self).regs.svc == old(self).regs.svc,
            final(self).regs.irq == old(self).regs.irq,
            final(self).regs.fiq == old(self).regs.fiq,
            final(self).condition_lut == old(self).condition_lut,
    {
        proof {
            crate::bits::lemma_mask_bounds();
        }
        let op = ((instr >> 6u16) & 0xF) as u32;
        let s = ((instr >> 3u16) & 0x7) as usize;
        let d = (instr & 0x7) as usize;
        let src = self.regs.regs[s];
        let dest = self.regs.regs[d];
        let result: u32 = if op == 0x0 || op == 0x8 {
            dest & src
        } else if op == 0x1 {
            dest ^ src
        } else if op == 0x2 {
            self.shift(0, dest, src & 0xFF, false, true)
        } else if op == 0x3 {
            self.shift(1, dest, src & 0xFF, false, true)
        } else if op == 0x4 {
            self.shift(2, dest, src & 0xFF, false, true)
        } else if op == 0x5 {
            self.adc(dest, src, true)
        } else if op == 0x6 {
            self.sbc(dest, src, true)
        } else if op == 0x7 {
            self.shift(3, dest, src & 0xFF, false, true)
        } else if op == 0x9 {
            self.sub(0, src, true)
        } else if op == 0xA {
            self.sub(dest, src, true)
        } else if op == 0xB {
            self.add(dest, src, true)
        } else if op == 0xC {
            dest | src
        } else if op == 0xD {
            self.inc_mul_clocks(dest, true);
            assert(dest as u64 * src as u64 <= 0xFFFF_FFFF * 0xFFFF_FFFFu64) by (nonlinear_arith)
                requires
                    dest <= 0xFFFF_FFFFu32,
                    src <= 0xFFFF_FFFFu32,
            ;
            ((dest as u64 * src as u64) % 0x1_0000_0000) as u32
        } else if op == 0xE {
            dest & !src
        } else {
            !src
        };
        self.regs.set_flag(FLAG_N, result & 0x8000_0000 != 0);
        self.regs.set_flag(FLAG_Z, result == 0);
        if op != 0x8 && op != 0xA && op != 0xB {
            self.regs.regs[d] = result;
        }
    }
}


/// A subtraction `a - b` (when `sub`) or an addition `a + b`, with the
/// status word the flag-setting form leaves.
pub open spec fn add_or_sub(cpsr: u32, a: u32, b: u32, sub: bool) -> (u32, u32) {
    if sub {
        let (r, c, v) = add_with_flags(a, !b, true);
        (r, with_nzcv(with_flag(cpsr, FLAG_C, true), r, c, v))
    } else {
        let (r, c, v) = add_with_flags(a, b, false);
        (r, with_nzcv(cpsr, r, c, v))
    }
}

/// A Thumb add or subtract gives `a + b` or `a - b` modulo 2^32; the
/// subtraction's carry is set exactly when no borrow occurs (`a >= b`) and
/// the addition's exactly when the sum passes 2^32.
pub proof fn lemma_add_or_sub_results(cpsr: u32, a: u32, b: u32)
    ensures
        add_or_sub(cpsr, a, b, false).0 == (a + b) % 0x1_0000_0000,
        add_or_sub(cpsr, a, b, true).0 == (a - b) % 0x1_0000_0000,
        add_with_flags(a, !b, true).1 == (a >= b),
        add_with_flags(a, b, false).1 == (a + b >= 0x1_0000_0000),
{
    lemma_sub_is_subtraction(a, b);
}

/// The three-bit register field of `instr` at bit `at`.
pub open spec fn low_reg(instr: u16, at: u16) -> int {
    ((instr >> at) & 0x7) as int
}

impl ArmCore {
    /// Thumb format 1: a low register shifted by an immediate amount (LSL,
    /// LSR, ASR) into another; the shifter sets the carry, then N and Z
    /// follow the result.
    pub fn thumb_move_shifted_reg(&mut self, instr: u16)
        requires
            instr >> 13u16 == 0,
            (instr >> 11u16) & 0x3 != 0x3,
            old(self).cycles_spent < usize::MAX,
        ensures
            ({
                let st = ((instr >> 11u16) & 0x3) as u32;
                let src = old(self).regs.regs@[low_reg(instr, 3)];
                let cpsr = old(self).regs.cpsr;
                let (r, carry) = shifter(st, src, ((instr >> 6u16) & 0x1F) as u32, true, has_flag(cpsr, FLAG_C));
                let c1 = if carry is Some {
                    with_flag(cpsr, FLAG_C, carry->0)
                } else {
                    cpsr
                };
                &&& final(self).regs.cpsr == with_flag(with_flag(c1, FLAG_N, r & 0x8000_0000 != 0), FLAG_Z, r == 0)
                &&& final(self).regs.regs@ == old(self).regs.regs@.update((instr & 0x7) as int, r)
            }),
            only_regs_changed(*old(self), *final(self)),
            final(self).cycles_spent == old(self).cycles_spent,
            final(self).next_access_type == old(self).next_access_type,
    {
        proof {
            crate::bits::lemma_mask_bounds();
        }
        let st = ((instr >> 11u16) & 0x3) as u32;
        let offset = ((instr >> 6u16) & 0x1F) as u32;
        let src = self.regs.regs[((instr >> 3u16) & 0x7) as usize];
        let d = (instr & 0x7) as usize;
        let result = self.shift(st, src, offset, true, true);
        self.regs.set_flag(FLAG_N, result & 0x8000_0000 != 0);
        self.regs.set_flag(FLAG_Z, result == 0);
        self.regs.regs[d] = result;
    }

    /// Thumb format 2: adds or subtracts a low register or a three-bit
    /// immediate to or from a low register, setting all four flags.
    pub fn thumb_add_sub(&mut self, instr: u16)
        requires
            instr >> 11u16 == 0x3,
        ensures
            ({
                let field = ((instr >> 6u16) & 0x7) as u32;
                let operand = if (instr >> 10u16) & 1 != 0 {
                    field
                } else {
                    old(self).regs.regs@[field as int]
                };
                let src = old(self).regs.regs@[low_reg(instr, 3)];
                let (r, cpsr) = add_or_sub(old(self).regs.cpsr, src, operand, (instr >> 9u16) & 1 != 0);
                &&& final(self).regs.cpsr == cpsr
                &&& final(self).regs.regs@ == old(self).regs.regs@.update((instr & 0x7) as int, r)
            }),
            only_regs_changed(*old(self), *final(self)),
            final(self).cycles_spent == old(self).cycles_spent,
            final(self).next_access_type == old(self).next_access_type,
    {
        proof {
            crate::bits::lemma_mask_bounds();
        }
        let field = ((instr >> 6u16) & 0x7) as u32;
        let operand = if (instr >> 10u16) & 1 != 0 {
            field
        } else {
            self.regs.regs[field as usize]
        };
        let src = self.regs.regs[((instr >> 3u16) & 0x7) as usize];
        let d = (instr & 0x7) as usize;
        let result = if (instr >> 9u16) & 1 != 0 {
            self.sub(src, operand, true)
        } else {
            self.add(src, operand, true)
        };
        self.regs.regs[d] = result;
    }

    /// Thumb format 3: MOV, CMP, ADD or SUB of an eight-bit immediate with
    /// a low register; Z and N follow the result, and CMP writes nothing
    /// back.
    pub fn thumb_immediate(&mut self, instr: u16)
        requires
            instr >> 13u16 == 1,
        ensures
            ({
                let op = (instr >> 11u16) & 0x3;
                let d = low_reg(instr, 8);
                let imm = (instr & 0xFF) as u32;
                let cpsr = old(self).regs.cpsr;
                let (r, c1) = if op == 0 {
                    (imm, cpsr)
                } else {
                    add_or_sub(cpsr, old(self).regs.regs@[d], imm, op != 2)
                };
                &&& final(self).regs.cpsr == with_flag(with_flag(c1, FLAG_Z, r == 0), FLAG_N, r & 0x8000_0000 != 0)
                &&& final(self).regs.regs@ == (if op == 1 {
                    old(self).regs.regs@
                } else {
                    old(self).regs.regs@.update(d, r)
                })
            }),
            only_regs_changed(*old(self), *final(self)),
            final(self).cycles_spent == old(self).cycles_spent,
            final(self).next_access_type == old(self).next_access_type,
    {
        proof {
            crate::bits::lemma_mask_bounds();
        }
        let op = (instr >> 11u16) & 0x3;
        let d = ((instr >> 8u16) & 0x7) as usize;
        let imm = (instr & 0xFF) as u32;
        let op1 = self.regs.regs[d];
        let result = if op == 0 {
            imm
        } else if op == 2 {
            self.add(op1, imm, true)
        } else {
            self.sub(op1, imm, true)
        };
        self.regs.set_flag(FLAG_Z, result == 0);
        self.regs.set_flag(FLAG_N, result & 0x8000_0000 != 0);
        if op != 1 {
            self.regs.regs[d] = result;
        }
    }

    /// Thumb format 12: a low register takes SP, or the word-aligned PC,
    /// plus four times an eight-bit offset.
    pub fn thumb_get_rel_addr(&mut self, instr: u16)
        requires
            (instr >> 12u16) & 0xF == 0xA,
        ensures
            ({
                let base = if (instr >> 11u16) & 1 != 0 {
                    old(self).regs.regs@[13]
                } else {
                    old(self).regs.regs@[15] & !2u32
                };
                let v = ((base + 4 * (instr & 0xFF)) % 0x1_0000_0000) as u32;
                final(self).regs.regs@ == old(self).regs.regs@.update(low_reg(instr, 8), v)
            }),
            final(self).regs.cpsr == old(self).regs.cpsr,
            only_regs_changed(*old(self), *final(self)),
            final(self).cycles_spent == old(self).cycles_spent,
            final(self).next_access_type == old(self).next_access_type,
    {
        proof {
            crate::bits::lemma_mask_bounds();
        }
        let base = if (instr >> 11u16) & 1 != 0 {
            self.regs.regs[13]
        } else {
            self.regs.regs[15] & !2u32
        };
        let d = ((instr >> 8u16) & 0x7) as usize;
        let offset = (instr & 0xFF) as u32;
        self.regs.regs[d] = base.wrapping_add(offset * 4);
    }

    /// Thumb format 13: SP moves up or down by four times a seven-bit
    /// offset.
    pub fn thumb_add_offset_sp(&mut self, instr: u16)
        requires
            (instr >> 8u16) & 0xFF == 0xB0,
        ensures
            ({
                let sp = old(self).regs.regs@[13];
                let offset = 4 * (instr & 0x7F);
                let v = if (instr >> 7u16) & 1 != 0 {
                    ((sp - offset) % 0x1_0000_0000) as u32
                } else {
                    ((sp + offset) % 0x1_0000_0000) as u32
                };
                final(self).regs.regs@ == old(self).regs.regs@.update(13, v)
            }),
            final(self).regs.cpsr == old(self).regs.cpsr,
            only_regs_changed(*old(self), *final(self)),
            final(self).cycles_spent == old(self).cycles_spent,
            final(self).next_access_type == old(self).next_access_type,
    {
        proof {
            crate::bits::lemma_mask_bounds();
        }
        let offset = ((instr & 0x7F) * 4) as u32;
        let sp = self.regs.regs[13];
        let v = if (instr >> 7u16) & 1 != 0 {
            sp.wrapping_sub(offset)
        } else {
            sp.wrapping_add(offset)
        };
        self.regs.regs[13] = v;
    }
}

/// `core` after at most its register file and status word changed.
pub open spec fn only_regs_changed(old_core: ArmCore, new_core: ArmCore) -> bool {
    &&& new_core.regs.spsr == old_core.regs.spsr
    &&& new_core.regs.usr == old_core.regs.usr
    &&& new_core.regs.svc == old_core.regs.svc
    &&& new_core.regs.irq == old_core.regs.irq
    &&& new_core.regs.fiq == old_core.regs.fiq
    &&& new_core.condition_lut == old_core.condition_lut
}


/// The registers named by the low `n` bits of a register list, lowest
/// first.
pub open spec fn listed_regs(list: u8, n: nat) -> Seq<u32>
    decreases n,
{
    if n == 0 {
        Seq::empty()
    } else {
        let prev = listed_regs(list, (n - 1) as nat);
        if (list >> ((n - 1) as u8)) & 1 == 1 {
            prev.push((n - 1) as u32)
        } else {
            prev
        }
    }
}

/// The registers a Thumb PUSH or POP transfers, in order: those of its
/// list, then LR (PUSH) or PC (POP) when bit 8 is set.
pub open spec fn push_pop_regs(instr: u16) -> Seq<u32> {
    let pop = (instr >> 11u16) & 1 != 0;
    listed_regs((instr & 0xFF) as u8, 8) + (if (instr >> 8u16) & 1 != 0 {
        seq![if pop { 15u32 } else { 14u32 }]
    } else {
        Seq::empty()
    })
}

/// The stack transfers of a Thumb PUSH or POP with stack pointer `sp`: each
/// register with its word's address, lowest register at the lowest
/// address, and the stack pointer afterwards. A PUSH stores below `sp` and
/// moves it down; a POP loads from `sp` upwards and moves it up. The
/// transfers themselves are the bus's.
pub fn push_pop_transfers(instr: u16, sp: u32) -> (r: (Vec<(u32, u32)>, u32))
    requires
        (instr >> 12u16) & 0xF == 0xB,
        (instr >> 9u16) & 0x3 == 0x2,
        (instr >> 11u16) & 1 != 0 ==> sp + 4 * push_pop_regs(instr).len() <= u32::MAX,
        (instr >> 11u16) & 1 == 0 ==> 4 * push_pop_regs(instr).len() <= sp,
    ensures
        ({
            let pop = (instr >> 11u16) & 1 != 0;
            let regs = push_pop_regs(instr);
            let start: int = if pop {
                sp as int
            } else {
                sp - 4 * regs.len()
            };
            &&& r.0@.len() == regs.len()
            &&& forall|i: int| 0 <= i < regs.len() ==> #[trigger] r.0@[i] == ((start + 4 * i) as u32, regs[i])
            &&& r.1 == (if pop {
                sp + 4 * regs.len()
            } else {
                start
            }) as u32
        }),
{
    let list = (instr & 0xFF) as u8;
    let pop = (instr >> 11u16) & 1 != 0;
    let extra = (instr >> 8u16) & 1 != 0;
    let ghost regs = push_pop_regs(instr);
    let mut count: u32 = 0;
    let mut k: u8 = 0;
    while k < 8
        invariant
            k <= 8,
            count == listed_regs(list, k as nat).len(),
            listed_regs(list, k as nat).len() <= k,
        decreases 8 - k,
    {
        if (list >> k) & 1 == 1 {
            count = count + 1;
        }
        k = k + 1;
    }
    if extra {
        count = count + 1;
    }
    assert(count == regs.len());
    let start: u32 = if pop { sp } else { sp - 4 * count };
    let mut out: Vec<(u32, u32)> = Vec::new();
    let mut addr: u32 = start;
    let mut k: u8 = 0;
    while k < 8
        invariant
            k <= 8,
            count == regs.len(),
            regs == push_pop_regs(instr),
            list == (instr & 0xFF) as u8,
            start as int + 4 * count <= u32::MAX,
            listed_regs(list, k as nat).len() <= k,
            listed_regs(list, k as nat).len() <= listed_regs(list, 8).len(),
            out@.len() == listed_regs(list, k as nat).len(),
            addr == start + 4 * out@.len(),
            forall|i: int| 0 <= i < out@.len() ==> #[trigger] out@[i] == ((start + 4 * i) as u32, listed_regs(list, k as nat)[i]),
        decreases 8 - k,
    {
        proof {
            lemma_listed_prefix(list, (k + 1) as nat, 8);
        }
        if (list >> k) & 1 == 1 {
            out.push((addr, k as u32));
            addr = addr + 4;
        }
        k = k + 1;
    }
    assert(regs == listed_regs(list, 8) + (if extra { seq![if pop { 15u32 } else { 14u32 }] } else { Seq::<u32>::empty() }));
    if extra {
        out.push((addr, if pop { 15 } else { 14 }));
    }
    let end: u32 = if pop { sp + 4 * count } else { start };
    (out, end)
}

/// The list's registers among the low `m` bits are a prefix of those
/// among the low `n`.
proof fn lemma_listed_prefix(list: u8, m: nat, n: nat)
    requires
        m <= n,
    ensures
        listed_regs(list, m).len() <= listed_regs(list, n).len(),
        forall|i: int| 0 <= i < listed_regs(list, m).len() ==> #[trigger] listed_regs(list, m)[i] == listed_regs(list, n)[i],
    decreases n - m,
{
    if m < n {
        lemma_listed_prefix(list, m, (n - 1) as nat);
    }
}


/// The registers of a list are exactly the set bits among its low `n`,
/// each once, in increasing order.
pub proof fn lemma_listed_regs(list: u8, n: nat)
    requires
        n <= 8,
    ensures
        forall|i: int|
            0 <= i < listed_regs(list, n).len() ==> #[trigger] listed_regs(list, n)[i] < n && (list
                >> (listed_regs(list, n)[i] as u8)) & 1 == 1,
        forall|i: int, j: int|
            0 <= i < j < listed_regs(list, n).len() ==> #[trigger] listed_regs(list, n)[i]
                < #[trigger] listed_regs(list, n)[j],
        forall|k: u8| k < n && #[trigger] ((list >> k) & 1) == 1 ==> listed_regs(list, n).contains(k as u32),
    decreases n,
{
    if n > 0 {
        let m: nat = (n - 1) as nat;
        lemma_listed_regs(list, m);
        let prev = listed_regs(list, m);
        if (list >> (m as u8)) & 1 == 1 {
            let cur = prev.push(m as u32);
            assert(listed_regs(list, n) == cur);
            assert(cur[prev.len() as int] == m as u32);
            assert forall|k: u8| k < n && #[trigger] ((list >> k) & 1) == 1 implies cur.contains(k as u32) by {
                if k < m {
                    let w = choose|w: int| 0 <= w < prev.len() && prev[w] == k as u32;
                    assert(cur[w] == k as u32);
                } else {
                    assert(cur[prev.len() as int] == k as u32);
                }
            }
        } else {
            assert forall|k: u8| k < n && #[trigger] ((list >> k) & 1) == 1 implies prev.contains(k as u32) by {
                if k == m {
                    assert(k as u8 == m as u8);
                }
            }
        }
    }
}

/// The word-aligned base of a Thumb LDMIA/STMIA whose base register holds
/// `raw`.
pub open spec fn block_base(raw: u32) -> int {
    raw - raw % 4
}

/// The address of word `i` of a Thumb LDMIA/STMIA: up from the aligned
/// base.
pub open spec fn block_addr(raw: u32, i: int) -> u32 {
    ((block_base(raw) + 4 * i) % 0x1_0000_0000) as u32
}

/// The base register's value after a Thumb LDMIA/STMIA of `n` words: past
/// the last word, with the base's low bits added back; an empty list moves
/// it by 0x3C and adds the low bits twice.
pub open spec fn block_final_base(raw: u32, n: int) -> int {
    let off = (raw % 4) as int;
    if n == 0 {
        (block_base(raw) + 0x3C + off) % 0x1_0000_0000 + off
    } else {
        (block_base(raw) + 4 * n) % 0x1_0000_0000 + off
    }
}

/// The registers after loading `words` into the registers of `list`.
pub open spec fn block_loaded(r: Seq<u32>, list: u8, words: Seq<u32>, k: int) -> Seq<u32> {
    Seq::new(
        16,
        |j: int|
            if 0 <= j < k && (list >> (j as u8)) & 1 == 1 {
                words[listed_regs(list, j as nat).len() as int]
            } else {
                r[j]
            },
    )
}

/// Whether a Thumb LDMIA writes the base back: not when the base is in the
/// list, unless it is the only register or not the last one.
pub open spec fn ldm_writes_back(list: u8, b: int) -> bool {
    let regs = listed_regs(list, 8);
    !((list >> (b as u8)) & 1 == 1) || regs.len() == 1 || regs.last() != b
}

/// A set bit `j` of the list is the register at its rank.
proof fn lemma_listed_rank(list: u8, j: nat)
    requires
        j < 8,
        (list >> (j as u8)) & 1 == 1,
    ensures
        listed_regs(list, j).len() < listed_regs(list, 8).len(),
        listed_regs(list, 8)[listed_regs(list, j).len() as int] == j,
{
    let i = listed_regs(list, j).len() as int;
    assert(listed_regs(list, j + 1) == listed_regs(list, j).push(j as u32));
    assert(listed_regs(list, j + 1)[i] == j as u32);
    lemma_listed_prefix(list, j + 1, 8);
    assert(listed_regs(list, j + 1)[i] == listed_regs(list, 8)[i]);
}

impl ArmCore {
    /// Thumb format 15, STMIA: stores the listed low registers, lowest
    /// first, at the word-aligned base upwards, and writes the final base
    /// back after the first store (so a base register stored later is
    /// stored with it). Returns the writes, address and value, for the bus.
    pub fn thumb_stm(&mut self, instr: u16) -> (writes: Vec<(u32, u32)>)
        requires
            instr >> 12u16 == 0xC,
            (instr >> 11u16) & 1 == 0,
            block_final_base(
                old(self).regs.regs@[low_reg(instr, 8)],
                listed_regs((instr & 0xFF) as u8, 8).len() as int,
            ) <= u32::MAX,
        ensures
            ({
                let b = low_reg(instr, 8);
                let raw = old(self).regs.regs@[b];
                let regs = listed_regs((instr & 0xFF) as u8, 8);
                let fb = block_final_base(raw, regs.len() as int) as u32;
                &&& writes@.len() == regs.len()
                &&& forall|i: int|
                    0 <= i < regs.len() ==> #[trigger] writes@[i] == (block_addr(raw, i), if regs[i] == b && i
                        > 0 {
                        fb
                    } else {
                        old(self).regs.regs@[regs[i] as int]
                    })
                &&& final(self).regs.regs@ == old(self).regs.regs@.update(b, fb)
            }),
            final(self).regs.cpsr == old(self).regs.cpsr,
            only_regs_changed(*old(self), *final(self)),
            final(self).cycles_spent == old(self).cycles_spent,
            final(self).next_access_type == old(self).next_access_type,
    {
        proof {
            crate::bits::lemma_mask_bounds();
        }
        let list = (instr & 0xFF) as u8;
        let b = ((instr >> 8u16) & 0x7) as usize;
        let raw = self.regs.regs[b];
        let off = raw % 4;
        let base = raw - off;
        let ghost regs = listed_regs(list, 8);
        let mut n: u32 = 0;
        let mut k: u8 = 0;
        while k < 8
            invariant
                k <= 8,
                n == listed_regs(list, k as nat).len(),
                listed_regs(list, k as nat).len() <= k,
            decreases 8 - k,
        {
            if (list >> k) & 1 == 1 {
                n = n + 1;
            }
            k = k + 1;
        }
        let fb: u32 = if n == 0 {
            base.wrapping_add(0x3C + off) + off
        } else {
            base.wrapping_add(4 * n) + off
        };
        let mut writes: Vec<(u32, u32)> = Vec::new();
        let mut addr = base;
        let mut k: u8 = 0;
        while k < 8
            invariant
                k <= 8,
                list == (instr & 0xFF) as u8,
                b == low_reg(instr, 8),
                b < 8,
                raw == old(self).regs.regs@[b as int],
                base == block_base(raw),
                regs == listed_regs(list, 8),
                fb == block_final_base(raw, regs.len() as int),
                writes@.len() == listed_regs(list, k as nat).len(),
                listed_regs(list, k as nat).len() <= k,
                addr == block_addr(raw, writes@.len() as int),
                self.regs.regs@ == (if writes@.len() > 0 {
                    old(self).regs.regs@.update(b as int, fb)
                } else {
                    old(self).regs.regs@
                }),
                self.regs.cpsr == old(self).regs.cpsr,
                only_regs_changed(*old(self), *self),
                self.cycles_spent == old(self).cycles_spent,
                self.next_access_type == old(self).next_access_type,
                forall|i: int|
                    0 <= i < writes@.len() ==> #[trigger] writes@[i] == (block_addr(raw, i), if regs[i] == b && i
                        > 0 {
                        fb
                    } else {
                        old(self).regs.regs@[regs[i] as int]
                    }),
            decreases 8 - k,
        {
            proof {
                lemma_listed_prefix(list, (k + 1) as nat, 8);
                lemma_listed_prefix(list, k as nat, 8);
            }
            if (list >> k) & 1 == 1 {
                proof {
                    lemma_listed_rank(list, k as nat);
                }
                let value = self.regs.regs[k as usize];
                writes.push((addr, value));
                if writes.len() == 1 {
                    self.regs.regs[b] = fb;
                }
                addr = addr.wrapping_add(4);
            }
            k = k + 1;
        }
        self.regs.regs[b] = fb;
        writes
    }
}


/// A register list names at most as many registers as bits looked at.
proof fn lemma_listed_len(list: u8, n: nat)
    ensures
        listed_regs(list, n).len() <= n,
    decreases n,
{
    if n > 0 {
        lemma_listed_len(list, (n - 1) as nat);
    }
}

impl ArmCore {
    /// Thumb format 15, LDMIA: loads `words`, which the bus read from the
    /// addresses `block_addr` gives, into the listed low registers, lowest
    /// first, then writes the final base back unless the base register was
    /// loaded as the last of several.
    pub fn thumb_ldm(&mut self, instr: u16, words: &[u32])
        requires
            instr >> 12u16 == 0xC,
            (instr >> 11u16) & 1 == 1,
            words@.len() == listed_regs((instr & 0xFF) as u8, 8).len(),
            block_final_base(old(self).regs.regs@[low_reg(instr, 8)], words@.len() as int) <= u32::MAX,
        ensures
            ({
                let b = low_reg(instr, 8);
                let list = (instr & 0xFF) as u8;
                let loaded = block_loaded(old(self).regs.regs@, list, words@, 8);
                final(self).regs.regs@ == (if ldm_writes_back(list, b) {
                    loaded.update(b, block_final_base(old(self).regs.regs@[b], words@.len() as int) as u32)
                } else {
                    loaded
                })
            }),
            final(self).regs.cpsr == old(self).regs.cpsr,
            only_regs_changed(*old(self), *final(self)),
            final(self).cycles_spent == old(self).cycles_spent,
            final(self).next_access_type == old(self).next_access_type,
    {
        proof {
            crate::bits::lemma_mask_bounds();
            lemma_listed_len((instr & 0xFF) as u8, 8);
        }
        let list = (instr & 0xFF) as u8;
        let b = ((instr >> 8u16) & 0x7) as usize;
        let raw = self.regs.regs[b];
        let off = raw % 4;
        let base = raw - off;
        let n = words.len() as u32;
        let fb: u32 = if n == 0 {
            base.wrapping_add(0x3C + off) + off
        } else {
            base.wrapping_add(4 * n) + off
        };
        let in_list = (list >> (b as u8)) & 1 == 1;
        let mut idx: usize = 0;
        let mut last: usize = 0;
        let mut k: u8 = 0;
        assert(self.regs.regs@ =~= block_loaded(old(self).regs.regs@, list, words@, 0));
        while k < 8
            invariant
                k <= 8,
                list == (instr & 0xFF) as u8,
                words@.len() == listed_regs(list, 8).len(),
                idx == listed_regs(list, k as nat).len(),
                idx <= words@.len(),
                idx > 0 ==> last == listed_regs(list, k as nat).last(),
                self.regs.regs@ == block_loaded(old(self).regs.regs@, list, words@, k as int),
                self.regs.cpsr == old(self).regs.cpsr,
                only_regs_changed(*old(self), *self),
                self.cycles_spent == old(self).cycles_spent,
                self.next_access_type == old(self).next_access_type,
            decreases 8 - k,
        {
            proof {
                lemma_listed_prefix(list, (k + 1) as nat, 8);
            }
            let ghost before = self.regs.regs@;
            if (list >> k) & 1 == 1 {
                proof {
                    lemma_listed_rank(list, k as nat);
                    assert(listed_regs(list, (k + 1) as nat) == listed_regs(list, k as nat).push(k as u32));
                }
                self.regs.regs[k as usize] = words[idx];
                idx = idx + 1;
                last = k as usize;
            }
            assert(self.regs.regs@ =~= block_loaded(old(self).regs.regs@, list, words@, (k + 1) as int));
            k = k + 1;
        }
        proof {
            if in_list {
                lemma_listed_rank(list, b as nat);
            }
        }
        if !in_list || n == 1 || b != last {
            self.regs.regs[b] = fb;
        }
    }
}


/// What the instruction pipeline needs after an instruction: nothing, or
/// a refill in Thumb or in ARM state.
#[derive(Clone, Copy, PartialEq, Eq, Structural, Debug)]
pub enum Refill {
    Keep,
    Thumb,
    Arm,
}

/// The source register of a Thumb format 5 instruction (bit 6 selects the
/// high half).
pub open spec fn hi_src(instr: u16) -> int {
    ((instr >> 6u16) & 1) * 8 + ((instr >> 3u16) & 7)
}

/// The destination register of a Thumb format 5 instruction (bit 7 selects
/// the high half).
pub open spec fn hi_dest(instr: u16) -> int {
    ((instr >> 7u16) & 1) * 8 + (instr & 7)
}

impl ArmCore {
    /// Thumb format 5: ADD (no flags), CMP or MOV with a high register, or
    /// BX, which jumps to the source register and picks the state by its
    /// bit 0. Writing PC needs a Thumb refill; BX a refill in the state it
    /// picks; the refill itself is the bus's.
    pub fn thumb_hi_reg_bx(&mut self, instr: u16) -> (r: Refill)
        requires
            instr >> 10u16 == 0x11,
            (instr >> 8u16) & 3 == 3 ==> (instr >> 7u16) & 1 == 0,
        ensures
            ({
                let op = (instr >> 8u16) & 3;
                let d = hi_dest(instr);
                let src = old(self).regs.regs@[hi_src(instr)];
                let dest = old(self).regs.regs@[d];
                let cpsr = old(self).regs.cpsr;
                let same = if d == 15 {
                    Refill::Thumb
                } else {
                    Refill::Keep
                };
                &&& op == 0 ==> final(self).regs.regs@ == old(self).regs.regs@.update(
                    d,
                    ((dest + src) % 0x1_0000_0000) as u32,
                ) && final(self).regs.cpsr == cpsr && r == same
                &&& op == 1 ==> final(self).regs.regs@ == old(self).regs.regs@ && final(self).regs.cpsr
                    == add_or_sub(cpsr, dest, src, true).1 && r == same
                &&& op == 2 ==> final(self).regs.regs@ == old(self).regs.regs@.update(d, src)
                    && final(self).regs.cpsr == cpsr && r == same
                &&& op == 3 && src & 1 != 0 ==> final(self).regs.regs@ == old(self).regs.regs@.update(
                    15,
                    src & !1u32,
                ) && final(self).regs.cpsr == cpsr && r == Refill::Thumb
                &&& op == 3 && src & 1 == 0 ==> final(self).regs.regs@ == old(self).regs.regs@.update(
                    15,
                    src & !2u32,
                ) && final(self).regs.cpsr == with_flag(cpsr, FLAG_T, false) && r == Refill::Arm
            }),
            only_regs_changed(*old(self), *final(self)),
            final(self).cycles_spent == old(self).cycles_spent,
            final(self).next_access_type == old(self).next_access_type,
    {
        proof {
            crate::bits::lemma_mask_bounds();
        }
        let op = (instr >> 8u16) & 3;
        let s = (((instr >> 6u16) & 1) * 8 + ((instr >> 3u16) & 7)) as usize;
        let d = (((instr >> 7u16) & 1) * 8 + (instr & 7)) as usize;
        let src = self.regs.regs[s];
        let dest = self.regs.regs[d];
        if op == 3 {
            if src & 1 != 0 {
                self.regs.regs[15] = src & !1u32;
                return Refill::Thumb;
            } else {
                self.regs.regs[15] = src & !2u32;
                self.regs.set_flag(FLAG_T, false);
                return Refill::Arm;
            }
        }
        if op == 0 {
            let result = self.add(dest, src, false);
            self.regs.regs[d] = result;
        } else if op == 1 {
            self.sub(dest, src, true);
        } else {
            self.regs.regs[d] = src;
        }
        if d == 15 {
            Refill::Thumb
        } else {
            Refill::Keep
        }
    }
}


/// An eight-bit field read as a two's complement number.
pub open spec fn sext8(v: int) -> int {
    if v >= 0x80 {
        v - 0x100
    } else {
        v
    }
}

/// An eleven-bit field read as a two's complement number.
pub open spec fn sext11(v: int) -> int {
    if v >= 0x400 {
        v - 0x800
    } else {
        v
    }
}

/// A branch offset field read as two's complement is the one number in
/// the signed range of its width that agrees with the field modulo 2^width.
pub proof fn lemma_sign_extension(v8: int, v11: int)
    requires
        0 <= v8 < 0x100,
        0 <= v11 < 0x800,
    ensures
        -0x80 <= sext8(v8) < 0x80,
        (v8 - sext8(v8)) % 0x100 == 0,
        -0x400 <= sext11(v11) < 0x400,
        (v11 - sext11(v11)) % 0x800 == 0,
{
}

/// `a + d` modulo 2^32.
pub open spec fn wrap32(a: int, d: int) -> u32 {
    ((a + d) % 0x1_0000_0000) as u32
}

/// `a + d` modulo 2^32 for a displacement of at most 2^24 either way.
fn add_disp(a: u32, d: i64) -> (r: u32)
    requires
        -0x100_0000 <= d <= 0x100_0000,
    ensures
        r == wrap32(a as int, d as int),
{
    let t: i64 = a as i64 + d;
    if t < 0 {
        (t + 0x1_0000_0000) as u32
    } else if t >= 0x1_0000_0000 {
        (t - 0x1_0000_0000) as u32
    } else {
        t as u32
    }
}

impl ArmCore {
    /// Thumb format 16: when the condition passes, PC moves by twice the
    /// signed eight-bit offset and the pipeline refills; otherwise nothing
    /// changes.
    pub fn thumb_cond_branch(&mut self, instr: u16) -> (r: Refill)
        requires
            instr >> 12u16 == 0xD,
            (instr >> 8u16) & 0xF < 0xE,
            forall|i: int| 0 <= i < 256 ==> #[trigger] old(self).condition_lut@[i] == condition_passes(
                (i / 16) as u32,
                (i % 16) as u32,
            ),
        ensures
            ({
                let taken = condition_passes(old(self).regs.cpsr >> 28, ((instr >> 8u16) & 0xF) as u32);
                let pc = old(self).regs.regs@[15];
                &&& taken ==> r == Refill::Thumb && final(self).regs.regs@ == old(self).regs.regs@.update(
                    15,
                    wrap32(pc as int, 2 * sext8((instr & 0xFF) as int)),
                )
                &&& !taken ==> r == Refill::Keep && final(self).regs.regs@ == old(self).regs.regs@
            }),
            final(self).regs.cpsr == old(self).regs.cpsr,
            only_regs_changed(*old(self), *final(self)),
            final(self).cycles_spent == old(self).cycles_spent,
            final(self).next_access_type == old(self).next_access_type,
    {
        proof {
            crate::bits::lemma_mask_bounds();
        }
        let condition = ((instr >> 8u16) & 0xF) as u32;
        if self.should_exec(condition) {
            let b = (instr & 0xFF) as i64;
            let o: i64 = if b >= 0x80 { b - 0x100 } else { b };
            self.regs.regs[15] = add_disp(self.regs.regs[15], 2 * o);
            Refill::Thumb
        } else {
            Refill::Keep
        }
    }

    /// Thumb format 18: PC moves by twice the signed eleven-bit offset and
    /// the pipeline refills.
    pub fn thumb_uncond_branch(&mut self, instr: u16) -> (r: Refill)
        requires
            instr >> 11u16 == 0x1C,
        ensures
            r == Refill::Thumb,
            final(self).regs.regs@ == old(self).regs.regs@.update(
                15,
                wrap32(old(self).regs.regs@[15] as int, 2 * sext11((instr & 0x7FF) as int)),
            ),
            final(self).regs.cpsr == old(self).regs.cpsr,
            only_regs_changed(*old(self), *final(self)),
            final(self).cycles_spent == old(self).cycles_spent,
            final(self).next_access_type == old(self).next_access_type,
    {
        proof {
            crate::bits::lemma_mask_bounds();
        }
        let b = (instr & 0x7FF) as i64;
        let o: i64 = if b >= 0x400 { b - 0x800 } else { b };
        self.regs.regs[15] = add_disp(self.regs.regs[15], 2 * o);
        Refill::Thumb
    }

    /// Thumb format 19, long branch with link: the first half puts PC plus
    /// the signed upper offset (shifted by 12) in LR; the second jumps to
    /// LR plus twice the lower offset, leaves the return address (with bit
    /// 0 set) in LR, and refills the pipeline.
    pub fn thumb_branch_with_link(&mut self, instr: u16) -> (r: Refill)
        requires
            instr >> 12u16 == 0xF,
        ensures
            ({
                let pc = old(self).regs.regs@[15] as int;
                let lr = old(self).regs.regs@[14] as int;
                let off = (instr & 0x7FF) as int;
                &&& (instr >> 11u16) & 1 != 0 ==> r == Refill::Thumb && final(self).regs.regs@ == old(
                    self,
                ).regs.regs@.update(15, wrap32(lr, 2 * off)).update(14, wrap32(pc, -2) | 1u32)
                &&& (instr >> 11u16) & 1 == 0 ==> r == Refill::Keep && final(self).regs.regs@ == old(
                    self,
                ).regs.regs@.update(14, wrap32(pc, 0x1000 * sext11(off)))
            }),
            final(self).regs.cpsr == old(self).regs.cpsr,
            only_regs_changed(*old(self), *final(self)),
            final(self).cycles_spent == old(self).cycles_spent,
            final(self).next_access_type == old(self).next_access_type,
    {
        proof {
            crate::bits::lemma_mask_bounds();
        }
        let b = (instr & 0x7FF) as i64;
        if (instr >> 11u16) & 1 != 0 {
            let next_pc = add_disp(self.regs.regs[15], -2);
            self.regs.regs[15] = add_disp(self.regs.regs[14], 2 * b);
            self.regs.regs[14] = next_pc | 1u32;
            Refill::Thumb
        } else {
            let o: i64 = if b >= 0x400 { b - 0x800 } else { b };
            self.regs.regs[14] = add_disp(self.regs.regs[15], 0x1000 * o);
            Refill::Keep
        }
    }
}

} // verus!
