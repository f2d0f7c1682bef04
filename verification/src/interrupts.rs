//! Interrupt enable, master-enable and request registers.
use vstd::prelude::*;

verus! {

pub const VBLANK: u32 = 1 << 0;
pub const HBLANK: u32 = 1 << 1;
pub const VCOUNTER_MATCH: u32 = 1 << 2;
pub const TIMER0_OVERFLOW: u32 = 1 << 3;
pub const TIMER1_OVERFLOW: u32 = 1 << 4;
pub const TIMER2_OVERFLOW: u32 = 1 << 5;
pub const TIMER3_OVERFLOW: u32 = 1 << 6;
pub const SERIAL: u32 = 1 << 7;
pub const DMA0: u32 = 1 << 8;
pub const DMA1: u32 = 1 << 9;
pub const DMA2: u32 = 1 << 10;
pub const DMA3: u32 = 1 << 11;
pub const KEYPAD: u32 = 1 << 12;
pub const GAME_PAK: u32 = 1 << 13;
pub const IPC_SYNC: u32 = 1 << 16;
pub const IPC_SEND_FIFO_EMPTY: u32 = 1 << 17;
pub const IPC_RECV_FIFO_NOT_EMPTY: u32 = 1 << 18;
pub const GAME_CARD_TRANSFER_COMPLETION: u32 = 1 << 19;
pub const GAME_CARD_IREQ_MC: u32 = 1 << 20;
pub const GEOMETRY_COMMAND_FIFO: u32 = 1 << 21;

/// Every interrupt source the enable register knows.
pub const ALL_SOURCES: u32 = 0x003F_3FFF;

/// A set of interrupt sources, one bit each.
#[derive(Clone, Copy, PartialEq, Eq, Structural, Debug)]
pub struct InterruptRequest {
    pub bits: u32,
}

impl InterruptRequest {
    /// No source.
    pub fn empty() -> (r: InterruptRequest)
        ensures
            r.bits == 0,
    {
        InterruptRequest { bits: 0 }
    }

    /// The set whose bits are `bits`.
    pub fn from_bits(bits: u32) -> (r: InterruptRequest)
        ensures
            r.bits == bits,
    {
        InterruptRequest { bits }
    }

    /// The sources in either set.
    pub fn union(self, other: InterruptRequest) -> (r: InterruptRequest)
        ensures
            r.bits == self.bits | other.bits,
    {
        InterruptRequest { bits: self.bits | other.bits }
    }

    /// Whether every source of `other` is in the set.
    pub fn contains(&self, other: InterruptRequest) -> (r: bool)
        ensures
            r == (self.bits & other.bits == other.bits),
    {
        self.bits & other.bits == other.bits
    }

    /// Whether the set is empty.
    pub fn is_empty(&self) -> (r: bool)
        ensures
            r == (self.bits == 0),
    {
        self.bits == 0
    }
}

/// Byte `byte` of a 32-bit register.
pub fn read_reg_byte(bits: u32, byte: usize) -> (r: u8)
    requires
        byte < 4,
    ensures
        r == (bits >> (8 * byte) as u32) as u8,
{
    (bits >> (8 * byte as u32)) as u8
}

/// The interrupt controller of one CPU.
pub struct InterruptController {
    pub enable: u32,
    pub master_enable: u32,
    pub request: InterruptRequest,
}

impl InterruptController {
    /// Everything disabled, nothing requested.
    pub fn new() -> (r: InterruptController)
        ensures
            r.enable == 0,
            r.master_enable == 0,
            r.request.bits == 0,
    {
        InterruptController { enable: 0, master_enable: 0, request: InterruptRequest::empty() }
    }

    /// Whether an enabled source is requested and, unless `ignore_ime`,
    /// interrupts are enabled at all.
    pub fn interrupts_requested(&self, ignore_ime: bool) -> (r: bool)
        ensures
            r == ((ignore_ime || self.master_enable != 0) && (self.request.bits & self.enable) != 0),
    {
        (ignore_ime || self.master_enable != 0) && (self.request.bits & self.enable) != 0
    }

    pub fn read_enable(&self, byte: usize) -> (r: u8)
        requires
            byte < 4,
        ensures
            r == (self.enable >> (8 * byte) as u32) as u8,
    {
        read_reg_byte(self.enable, byte)
    }

    pub fn read_master_enable(&self, byte: usize) -> (r: u8)
        requires
            byte < 4,
        ensures
            r == (self.master_enable >> (8 * byte) as u32) as u8,
    {
        read_reg_byte(self.master_enable, byte)
    }

    pub fn read_request(&self, byte: usize) -> (r: u8)
        requires
            byte < 4,
        ensures
            r == (self.request.bits >> (8 * byte) as u32) as u8,
    {
        read_reg_byte(self.request.bits, byte)
    }

    /// Replaces byte `byte` of the enable register.
    pub fn write_enable(&mut self, byte: usize, value: u8)
        requires
            byte < 4,
        ensures
            final(self).enable == (old(self).enable & !(0xFFu32 << (8 * byte) as u32)) | ((
            value as u32) << (8 * byte) as u32),
            final(self).master_enable == old(self).master_enable,
            final(self).request == old(self).request,
    {
        let shift: u32 = 8 * byte as u32;
        self.enable = self.enable & !(0xFFu32 << shift) | (value as u32) << shift;
    }

    /// Replaces byte `byte` of the master-enable register, keeping only the
    /// bits of known sources.
    pub fn write_master_enable(&mut self, byte: usize, value: u8)
        requires
            byte < 4,
        ensures
            final(self).master_enable == (old(self).master_enable & !(0xFFu32 << (8 * byte) as u32))
                | (((value as u32) << (8 * byte) as u32) & ALL_SOURCES),
            final(self).enable == old(self).enable,
            final(self).request == old(self).request,
    {
        let shift: u32 = 8 * byte as u32;
        self.master_enable = self.master_enable & !(0xFFu32 << shift) | (value as u32) << shift
            & ALL_SOURCES;
    }

    /// Acknowledges the requests whose bits are set in `value` (at byte
    /// `byte`): they are cleared, the others are kept.
    pub fn write_request(&mut self, byte: usize, value: u8)
        requires
            byte < 4,
        ensures
            final(self).request.bits == old(self).request.bits & !((value as u32) << (8 * byte) as u32),
            final(self).enable == old(self).enable,
            final(self).master_enable == old(self).master_enable,
    {
        let shift: u32 = 8 * byte as u32;
        self.request = InterruptRequest { bits: self.request.bits & !((value as u32) << shift) };
    }
}

/// Acknowledging clears exactly the written bits: a request stays pending
/// after a write exactly when it was pending and its bit was not written.
pub proof fn lemma_acknowledge(bits: u32, byte: u32, value: u8, bit: u32)
    requires
        byte < 4,
        bit < 32,
    ensures
        ((bits & !((value as u32) << (8 * byte) as u32)) >> bit) & 1 == if (((value as u32) << (8
            * byte) as u32) >> bit) & 1 == 1 {
            0
        } else {
            (bits >> bit) & 1
        },
{
    assert(((bits & !((value as u32) << (8 * byte) as u32)) >> bit) & 1 == if (((value as u32) << (8
        * byte) as u32) >> bit) & 1 == 1 {
        0
    } else {
        (bits >> bit) & 1
    }) by (bit_vector)
        requires
            byte < 4,
            bit < 32;
}

} // verus!
