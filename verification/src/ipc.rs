//! Inter-processor communication: the sync registers and the two 16-word
//! FIFOs between the ARM7 and the ARM9.
use vstd::prelude::*;
use std::collections::VecDeque;
use crate::interrupts::{
    InterruptRequest,
    IPC_RECV_FIFO_NOT_EMPTY,
    IPC_SEND_FIFO_EMPTY,
    IPC_SYNC,
};

verus! {

/// The capacity of each FIFO, in words.
pub const FIFO_LEN: usize = 16;

/// One CPU's sync register: the 4-bit... byte it shows the other CPU, the
/// byte the other CPU shows it, and its sync-interrupt enable.
#[derive(Clone, Copy, PartialEq, Eq, Structural, Debug)]
pub struct SYNC {
    pub input: u8,
    pub output: u8,
    pub sync_irq: bool,
}

impl SYNC {
    pub fn new() -> (r: SYNC)
        ensures
            r.input == 0,
            r.output == 0,
            !r.sync_irq,
    {
        SYNC { input: 0, output: 0, sync_irq: false }
    }

    /// Byte 0 is the input; byte 1 the output with the interrupt enable in
    /// bit 6; bytes 2 and 3 read zero.
    pub fn read(&self, byte: usize) -> (r: u8)
        requires
            byte < 4,
        ensures
            r == (if byte == 0 {
                self.input
            } else if byte == 1 {
                (if self.sync_irq { 0x40u8 } else { 0u8 }) | self.output
            } else {
                0u8
            }),
    {
        if byte == 0 {
            self.input
        } else if byte == 1 {
            (if self.sync_irq { 0x40u8 } else { 0u8 }) | self.output
        } else {
            0
        }
    }

    /// Writes byte `byte`. Byte 1 sets the output, which becomes the other
    /// side's input, and the interrupt enable; setting bit 5 requests a sync
    /// interrupt on the other side if it enabled one.
    pub fn write(&mut self, other: &mut SYNC, byte: usize, value: u8) -> (r: InterruptRequest)
        requires
            byte < 4,
        ensures
            byte == 1 ==> final(self).output == value && final(other).input == value
                && final(self).sync_irq == ((value >> 6) & 1 != 0) && final(self).input == old(self).input
                && final(other).output == old(other).output && final(other).sync_irq == old(other).sync_irq,
            byte != 1 ==> *final(self) == *old(self) && *final(other) == *old(other),
            r.bits == (if byte == 1 && old(other).sync_irq && (value >> 5) & 1 != 0 {
                IPC_SYNC
            } else {
                0
            }),
    {
        let irq = if byte == 1 {
            self.output = value;
            other.input = self.output;
            self.sync_irq = (value >> 6) & 0x1 != 0;
            other.sync_irq && (value >> 5) & 0x1 != 0
        } else {
            false
        };
        if irq {
            InterruptRequest::from_bits(IPC_SYNC)
        } else {
            InterruptRequest::empty()
        }
    }
}

/// The status bits of a FIFO holding `len` words: bit 0 empty, bit 1 full.
pub open spec fn fifo_status(len: nat) -> u8 {
    (if len == FIFO_LEN { 2u8 } else { 0u8 }) | (if len == 0 { 1u8 } else { 0u8 })
}

/// One CPU's FIFO control register.
#[derive(Clone, Copy, PartialEq, Eq, Structural, Debug)]
pub struct FIFOCNT {
    pub send_fifo_empty_irq: bool,
    pub recv_fifo_not_empty_irq: bool,
    pub error: bool,
    pub enable: bool,
}

impl FIFOCNT {
    pub fn new() -> (r: FIFOCNT)
        ensures
            !r.send_fifo_empty_irq,
            !r.recv_fifo_not_empty_irq,
            !r.error,
            !r.enable,
    {
        FIFOCNT {
            send_fifo_empty_irq: false,
            recv_fifo_not_empty_irq: false,
            error: false,
            enable: false,
        }
    }

    /// The empty and full bits of a FIFO.
    pub fn get_fifo_status(fifo: &VecDeque<u32>) -> (r: u8)
        requires
            fifo@.len() <= FIFO_LEN,
        ensures
            r == fifo_status(fifo@.len()),
    {
        let full: u8 = if fifo.len() == FIFO_LEN { 2 } else { 0 };
        let empty: u8 = if fifo.len() == 0 { 1 } else { 0 };
        full | empty
    }

    /// Byte 0: send-FIFO status and its empty interrupt enable; byte 1:
    /// receive-FIFO status, its not-empty interrupt enable, the error flag
    /// and the enable flag.
    pub fn read(&self, send_fifo: &VecDeque<u32>, recv_fifo: &VecDeque<u32>, byte: usize) -> (r: u8)
        requires
            byte < 4,
            send_fifo@.len() <= FIFO_LEN,
            recv_fifo@.len() <= FIFO_LEN,
        ensures
            r == (if byte == 0 {
                (if self.send_fifo_empty_irq { 0x04u8 } else { 0u8 }) | fifo_status(send_fifo@.len())
            } else if byte == 1 {
                (if self.enable { 0x80u8 } else { 0u8 }) | (if self.error { 0x40u8 } else { 0u8 })
                    | (if self.recv_fifo_not_empty_irq { 0x04u8 } else { 0u8 }) | fifo_status(
                    recv_fifo@.len(),
                )
            } else {
                0u8
            }),
    {
        if byte == 0 {
            (if self.send_fifo_empty_irq { 0x04u8 } else { 0u8 }) | FIFOCNT::get_fifo_status(send_fifo)
        } else if byte == 1 {
            (if self.enable { 0x80u8 } else { 0u8 }) | (if self.error { 0x40u8 } else { 0u8 }) | (
            if self.recv_fifo_not_empty_irq { 0x04u8 } else { 0u8 }) | FIFOCNT::get_fifo_status(
                recv_fifo,
            )
        } else {
            0
        }
    }

    /// Writes byte `byte`. Byte 0 sets the send-empty interrupt enable and,
    /// with bit 3, clears the send FIFO and the last received value; byte 1
    /// sets the receive interrupt enable and the enable flag and, with bit
    /// 6, acknowledges the error.
    pub fn write(&mut self, send_fifo: &mut VecDeque<u32>, prev_output: &mut u32, byte: usize, value: u8)
        requires
            byte < 4,
        ensures
            byte == 0 ==> final(self).send_fifo_empty_irq == ((value >> 2) & 1 != 0)
                && final(self).recv_fifo_not_empty_irq == old(self).recv_fifo_not_empty_irq
                && final(self).error == old(self).error && final(self).enable == old(self).enable,
            byte == 0 && (value >> 3) & 1 != 0 ==> final(send_fifo)@.len() == 0 && *final(prev_output) == 0,
            !(byte == 0 && (value >> 3) & 1 != 0) ==> final(send_fifo)@ == old(send_fifo)@
                && *final(prev_output) == *old(prev_output),
            byte == 1 ==> final(self).recv_fifo_not_empty_irq == ((value >> 2) & 1 != 0)
                && final(self).error == (old(self).error && (value >> 6) & 1 == 0)
                && final(self).enable == ((value >> 7) & 1 != 0)
                && final(self).send_fifo_empty_irq == old(self).send_fifo_empty_irq,
            byte > 1 ==> *final(self) == *old(self),
    {
        if byte == 0 {
            self.send_fifo_empty_irq = (value >> 2) & 0x1 != 0;
            if (value >> 3) & 0x1 != 0 {
                send_fifo.clear();
                *prev_output = 0;
            }
        } else if byte == 1 {
            self.recv_fifo_not_empty_irq = (value >> 2) & 0x1 != 0;
            self.error = self.error && (value >> 6) & 0x1 == 0;
            self.enable = (value >> 7) & 0x1 != 0;
        }
    }
}

/// The IPC unit: each CPU's sync and FIFO control registers, the FIFO it
/// sends into, and the last word it received.
pub struct IPC {
    pub fifocnt7: FIFOCNT,
    pub sync7: SYNC,
    pub output7: VecDeque<u32>,
    pub prev_value7: u32,
    pub fifocnt9: FIFOCNT,
    pub sync9: SYNC,
    pub output9: VecDeque<u32>,
    pub prev_value9: u32,
}

/// The interrupts that turning on a FIFO interrupt enable raises at once.
pub open spec fn fifo_enable_irqs(send_len: nat, recv_len: nat, prev: FIFOCNT, new: FIFOCNT) -> u32 {
    (if send_len == 0 && !prev.send_fifo_empty_irq && new.send_fifo_empty_irq {
        IPC_SEND_FIFO_EMPTY
    } else {
        0u32
    }) | (if recv_len != 0 && !prev.recv_fifo_not_empty_irq && new.recv_fifo_not_empty_irq {
        IPC_RECV_FIFO_NOT_EMPTY
    } else {
        0u32
    })
}

impl IPC {
    /// Both FIFOs hold at most `FIFO_LEN` words.
    pub open spec fn wf(&self) -> bool {
        self.output7@.len() <= FIFO_LEN && self.output9@.len() <= FIFO_LEN
    }

    pub fn new() -> (r: IPC)
        ensures
            r.wf(),
            r.output7@.len() == 0,
            r.output9@.len() == 0,
            r.fifocnt7 == FIFOCNT::new_spec(),
            r.fifocnt9 == FIFOCNT::new_spec(),
            r.prev_value7 == 0,
            r.prev_value9 == 0,
    {
        IPC {
            fifocnt7: FIFOCNT::new(),
            sync7: SYNC::new(),
            output7: VecDeque::new(),
            prev_value7: 0,
            fifocnt9: FIFOCNT::new(),
            sync9: SYNC::new(),
            output9: VecDeque::new(),
            prev_value9: 0,
        }
    }

    pub fn read_sync7(&self, byte: usize) -> (r: u8)
        requires
            byte < 4,
        ensures
            r == (if byte == 0 {
                self.sync7.input
            } else if byte == 1 {
                (if self.sync7.sync_irq { 0x40u8 } else { 0u8 }) | self.sync7.output
            } else {
                0u8
            }),
    {
        self.sync7.read(byte)
    }

    pub fn read_sync9(&self, byte: usize) -> (r: u8)
        requires
            byte < 4,
        ensures
            r == (if byte == 0 {
                self.sync9.input
            } else if byte == 1 {
                (if self.sync9.sync_irq { 0x40u8 } else { 0u8 }) | self.sync9.output
            } else {
                0u8
            }),
    {
        self.sync9.read(byte)
    }

    /// The ARM7's FIFO control register: its send FIFO is `output7`.
    pub fn read_fifocnt7(&self, byte: usize) -> (r: u8)
        requires
            byte < 4,
            self.wf(),
        ensures
            r == (if byte == 0 {
                (if self.fifocnt7.send_fifo_empty_irq { 0x04u8 } else { 0u8 }) | fifo_status(
                    self.output7@.len(),
                )
            } else if byte == 1 {
                (if self.fifocnt7.enable { 0x80u8 } else { 0u8 }) | (if self.fifocnt7.error {
                    0x40u8
                } else {
                    0u8
                }) | (if self.fifocnt7.recv_fifo_not_empty_irq { 0x04u8 } else { 0u8 })
                    | fifo_status(self.output9@.len())
            } else {
                0u8
            }),
    {
        self.fifocnt7.read(&self.output7, &self.output9, byte)
    }

    /// The ARM9's FIFO control register: its send FIFO is `output9`.
    pub fn read_fifocnt9(&self, byte: usize) -> (r: u8)
        requires
            byte < 4,
            self.wf(),
        ensures
            r == (if byte == 0 {
                (if self.fifocnt9.send_fifo_empty_irq { 0x04u8 } else { 0u8 }) | fifo_status(
                    self.output9@.len(),
                )
            } else if byte == 1 {
                (if self.fifocnt9.enable { 0x80u8 } else { 0u8 }) | (if self.fifocnt9.error {
                    0x40u8
                } else {
                    0u8
                }) | (if self.fifocnt9.recv_fifo_not_empty_irq { 0x04u8 } else { 0u8 })
                    | fifo_status(self.output7@.len())
            } else {
                0u8
            }),
    {
        self.fifocnt9.read(&self.output9, &self.output7, byte)
    }

    /// Takes the next word out of a FIFO. A disabled receiver reads the last
    /// word again; reading an empty FIFO sets the receiver's error flag and
    /// also reads the last word again. Emptying the FIFO raises the sender's
    /// send-empty interrupt if it enabled it.
    pub fn recv(send_cnt: &FIFOCNT, recv_cnt: &mut FIFOCNT, recv_fifo: &mut VecDeque<u32>, prev_value: &mut u32) -> (r: (u32, InterruptRequest))
        requires
            old(recv_cnt).enable ==> send_cnt.enable,
        ensures
            !old(recv_cnt).enable ==> r.0 == *old(prev_value) && r.1.bits == 0 && *final(recv_cnt)
                == *old(recv_cnt) && final(recv_fifo)@ == old(recv_fifo)@ && *final(prev_value) == *old(prev_value),
            old(recv_cnt).enable && old(recv_fifo)@.len() > 0 ==> r.0 == old(recv_fifo)@[0]
                && *final(prev_value) == old(recv_fifo)@[0]
                && final(recv_fifo)@ == old(recv_fifo)@.drop_first()
                && *final(recv_cnt) == *old(recv_cnt)
                && r.1.bits == (if send_cnt.send_fifo_empty_irq && old(recv_fifo)@.len() == 1 {
                    IPC_SEND_FIFO_EMPTY
                } else {
                    0
                }),
            old(recv_cnt).enable && old(recv_fifo)@.len() == 0 ==> r.0 == *old(prev_value) && r.1.bits
                == 0 && final(recv_fifo)@ == old(recv_fifo)@ && *final(prev_value) == *old(prev_value)
                && *final(recv_cnt) == (FIFOCNT { error: true, ..*old(recv_cnt) }),
    {
        if !recv_cnt.enable {
            return (*prev_value, InterruptRequest::empty());
        }
        let interrupt = match recv_fifo.pop_front() {
            Some(value) => {
                *prev_value = value;
                if send_cnt.enable && send_cnt.send_fifo_empty_irq && recv_fifo.len() == 0 {
                    InterruptRequest::from_bits(IPC_SEND_FIFO_EMPTY)
                } else {
                    InterruptRequest::empty()
                }
            },
            None => {
                recv_cnt.error = true;
                InterruptRequest::empty()
            },
        };
        (*prev_value, interrupt)
    }

    /// Puts a word into a FIFO. A disabled sender does nothing; a full FIFO
    /// sets the sender's error flag and drops the word. Sending into an
    /// empty FIFO raises the receiver's not-empty interrupt if it enabled
    /// it.
    pub fn send(send_cnt: &mut FIFOCNT, recv_cnt: &FIFOCNT, send_fifo: &mut VecDeque<u32>, value: u32) -> (r: InterruptRequest)
        requires
            old(send_fifo)@.len() <= FIFO_LEN,
        ensures
            final(send_fifo)@.len() <= FIFO_LEN,
            !old(send_cnt).enable ==> r.bits == 0 && *final(send_cnt) == *old(send_cnt)
                && final(send_fifo)@ == old(send_fifo)@,
            old(send_cnt).enable ==> r.bits == (if recv_cnt.enable && recv_cnt.recv_fifo_not_empty_irq
                && old(send_fifo)@.len() == 0 {
                IPC_RECV_FIFO_NOT_EMPTY
            } else {
                0
            }),
            old(send_cnt).enable && old(send_fifo)@.len() == FIFO_LEN ==> final(send_fifo)@ == old(
                send_fifo,
            )@ && *final(send_cnt) == (FIFOCNT { error: true, ..*old(send_cnt) }),
            old(send_cnt).enable && old(send_fifo)@.len() < FIFO_LEN ==> final(send_fifo)@ == old(
                send_fifo,
            )@.push(value) && *final(send_cnt) == *old(send_cnt),
    {
        if !send_cnt.enable {
            return InterruptRequest::empty();
        }
        let interrupt = if recv_cnt.enable && recv_cnt.recv_fifo_not_empty_irq && send_fifo.len()
            == 0 {
            InterruptRequest::from_bits(IPC_RECV_FIFO_NOT_EMPTY)
        } else {
            InterruptRequest::empty()
        };
        if send_fifo.len() == FIFO_LEN {
            send_cnt.error = true;
        } else {
            send_fifo.push_back(value);
        }
        interrupt
    }

    /// The interrupts raised by turning on a FIFO interrupt enable while its
    /// condition already holds.
    pub fn check_fifo_interrupt(send_fifo: &VecDeque<u32>, recv_fifo: &VecDeque<u32>, prev_cnt: &FIFOCNT, new_cnt: &FIFOCNT) -> (r: InterruptRequest)
        ensures
            r.bits == fifo_enable_irqs(send_fifo@.len(), recv_fifo@.len(), *prev_cnt, *new_cnt),
    {
        let empty_condition = send_fifo.len() == 0 && !prev_cnt.send_fifo_empty_irq
            && new_cnt.send_fifo_empty_irq;
        let not_empty_condition = recv_fifo.len() != 0 && !prev_cnt.recv_fifo_not_empty_irq
            && new_cnt.recv_fifo_not_empty_irq;
        let a = if empty_condition {
            InterruptRequest::from_bits(IPC_SEND_FIFO_EMPTY)
        } else {
            InterruptRequest::empty()
        };
        let b = if not_empty_condition {
            InterruptRequest::from_bits(IPC_RECV_FIFO_NOT_EMPTY)
        } else {
            InterruptRequest::empty()
        };
        a.union(b)
    }

    /// The ARM7 reads a word sent by the ARM9.
    pub fn arm7_recv(&mut self) -> (r: (u32, InterruptRequest))
        requires
            old(self).wf(),
            old(self).fifocnt7.enable ==> old(self).fifocnt9.enable,
        ensures
            final(self).wf(),
            final(self).output7 == old(self).output7,
            final(self).fifocnt9 == old(self).fifocnt9,
            final(self).prev_value7 == old(self).prev_value7,
            final(self).sync7 == old(self).sync7,
            final(self).sync9 == old(self).sync9,
            !old(self).fifocnt7.enable ==> r.0 == old(self).prev_value9 && r.1.bits == 0
                && final(self).output9@ == old(self).output9@ && final(self).fifocnt7 == old(self).fifocnt7
                && final(self).prev_value9 == old(self).prev_value9,
            old(self).fifocnt7.enable && old(self).output9@.len() > 0 ==> r.0 == old(self).output9@[0]
                && final(self).prev_value9 == old(self).output9@[0]
                && final(self).output9@ == old(self).output9@.drop_first()
                && final(self).fifocnt7 == old(self).fifocnt7
                && r.1.bits == (if old(self).fifocnt9.send_fifo_empty_irq && old(self).output9@.len() == 1 {
                    IPC_SEND_FIFO_EMPTY
                } else {
                    0
                }),
            old(self).fifocnt7.enable && old(self).output9@.len() == 0 ==> r.0 == old(self).prev_value9
                && r.1.bits == 0 && final(self).output9@ == old(self).output9@
                && final(self).prev_value9 == old(self).prev_value9
                && final(self).fifocnt7 == (FIFOCNT { error: true, ..old(self).fifocnt7 }),
    {
        IPC::recv(&self.fifocnt9, &mut self.fifocnt7, &mut self.output9, &mut self.prev_value9)
    }

    /// The ARM9 reads a word sent by the ARM7.
    pub fn arm9_recv(&mut self) -> (r: (u32, InterruptRequest))
        requires
            old(self).wf(),
            old(self).fifocnt9.enable ==> old(self).fifocnt7.enable,
        ensures
            final(self).wf(),
            final(self).output9 == old(self).output9,
            final(self).fifocnt7 == old(self).fifocnt7,
            final(self).prev_value9 == old(self).prev_value9,
            final(self).sync7 == old(self).sync7,
            final(self).sync9 == old(self).sync9,
            !old(self).fifocnt9.enable ==> r.0 == old(self).prev_value7 && r.1.bits == 0
                && final(self).output7@ == old(self).output7@ && final(self).fifocnt9 == old(self).fifocnt9
                && final(self).prev_value7 == old(self).prev_value7,
            old(self).fifocnt9.enable && old(self).output7@.len() > 0 ==> r.0 == old(self).output7@[0]
                && final(self).prev_value7 == old(self).output7@[0]
                && final(self).output7@ == old(self).output7@.drop_first()
                && final(self).fifocnt9 == old(self).fifocnt9
                && r.1.bits == (if old(self).fifocnt7.send_fifo_empty_irq && old(self).output7@.len() == 1 {
                    IPC_SEND_FIFO_EMPTY
                } else {
                    0
                }),
            old(self).fifocnt9.enable && old(self).output7@.len() == 0 ==> r.0 == old(self).prev_value7
                && r.1.bits == 0 && final(self).output7@ == old(self).output7@
                && final(self).prev_value7 == old(self).prev_value7
                && final(self).fifocnt9 == (FIFOCNT { error: true, ..old(self).fifocnt9 }),
    {
        IPC::recv(&self.fifocnt7, &mut self.fifocnt9, &mut self.output7, &mut self.prev_value7)
    }

    pub fn write_sync7(&mut self, byte: usize, value: u8) -> (r: InterruptRequest)
        requires
            byte < 4,
        ensures
            r.bits == (if byte == 1 && old(self).sync9.sync_irq && (value >> 5) & 1 != 0 {
                IPC_SYNC
            } else {
                0
            }),
            byte == 1 ==> final(self).sync7.output == value && final(self).sync9.input == value
                && final(self).sync7.sync_irq == ((value >> 6) & 1 != 0) && final(self).sync7.input == old(
                self,
            ).sync7.input && final(self).sync9.output == old(self).sync9.output && final(self).sync9.sync_irq
                == old(self).sync9.sync_irq,
            byte != 1 ==> final(self).sync7 == old(self).sync7 && final(self).sync9 == old(self).sync9,
            final(self).output7 == old(self).output7,
            final(self).output9 == old(self).output9,
            final(self).fifocnt7 == old(self).fifocnt7,
            final(self).fifocnt9 == old(self).fifocnt9,
            final(self).prev_value7 == old(self).prev_value7,
            final(self).prev_value9 == old(self).prev_value9,
    {
        IPC::write_sync_pair(&mut self.sync7, &mut self.sync9, byte, value)
    }

    pub fn write_sync9(&mut self, byte: usize, value: u8) -> (r: InterruptRequest)
        requires
            byte < 4,
        ensures
            r.bits == (if byte == 1 && old(self).sync7.sync_irq && (value >> 5) & 1 != 0 {
                IPC_SYNC
            } else {
                0
            }),
            byte == 1 ==> final(self).sync9.output == value && final(self).sync7.input == value
                && final(self).sync9.sync_irq == ((value >> 6) & 1 != 0) && final(self).sync9.input == old(
                self,
            ).sync9.input && final(self).sync7.output == old(self).sync7.output && final(self).sync7.sync_irq
                == old(self).sync7.sync_irq,
            byte != 1 ==> final(self).sync7 == old(self).sync7 && final(self).sync9 == old(self).sync9,
            final(self).output7 == old(self).output7,
            final(self).output9 == old(self).output9,
            final(self).fifocnt7 == old(self).fifocnt7,
            final(self).fifocnt9 == old(self).fifocnt9,
            final(self).prev_value7 == old(self).prev_value7,
            final(self).prev_value9 == old(self).prev_value9,
    {
        IPC::write_sync_pair(&mut self.sync9, &mut self.sync7, byte, value)
    }

    fn write_sync_pair(writer: &mut SYNC, other: &mut SYNC, byte: usize, value: u8) -> (r: InterruptRequest)
        requires
            byte < 4,
        ensures
            r.bits == (if byte == 1 && old(other).sync_irq && (value >> 5) & 1 != 0 {
                IPC_SYNC
            } else {
                0
            }),
            byte == 1 ==> final(writer).output == value && final(other).input == value
                && final(writer).sync_irq == ((value >> 6) & 1 != 0) && final(writer).input == old(writer).input
                && final(other).output == old(other).output && final(other).sync_irq == old(other).sync_irq,
            byte != 1 ==> *final(writer) == *old(writer) && *final(other) == *old(other),
    {
        writer.write(other, byte, value)
    }

    /// Writes the ARM7's FIFO control register and reports the interrupts
    /// that newly enabled conditions raise.
    pub fn write_fifocnt7(&mut self, byte: usize, value: u8) -> (r: InterruptRequest)
        requires
            byte < 4,
            old(self).wf(),
        ensures
            final(self).wf(),
            r.bits == fifo_enable_irqs(
                final(self).output7@.len(),
                final(self).output9@.len(),
                old(self).fifocnt7,
                final(self).fifocnt7,
            ),
            final(self).output9 == old(self).output9,
            final(self).fifocnt9 == old(self).fifocnt9,
            final(self).fifocnt7 == old(self).fifocnt7.written(byte, value),
            byte == 0 && (value >> 3) & 1 != 0 ==> final(self).output7@.len() == 0
                && final(self).prev_value7 == 0,
            !(byte == 0 && (value >> 3) & 1 != 0) ==> final(self).output7@ == old(self).output7@
                && final(self).prev_value7 == old(self).prev_value7,
            final(self).prev_value9 == old(self).prev_value9,
            final(self).sync7 == old(self).sync7,
            final(self).sync9 == old(self).sync9,
    {
        let prev_fifocnt = self.fifocnt7;
        self.fifocnt7.write(&mut self.output7, &mut self.prev_value7, byte, value);
        IPC::check_fifo_interrupt(&self.output7, &self.output9, &prev_fifocnt, &self.fifocnt7)
    }

    /// Writes the ARM9's FIFO control register and reports the interrupts
    /// that newly enabled conditions raise.
    pub fn write_fifocnt9(&mut self, byte: usize, value: u8) -> (r: InterruptRequest)
        requires
            byte < 4,
            old(self).wf(),
        ensures
            final(self).wf(),
            r.bits == fifo_enable_irqs(
                final(self).output9@.len(),
                final(self).output7@.len(),
                old(self).fifocnt9,
                final(self).fifocnt9,
            ),
            final(self).output7 == old(self).output7,
            final(self).fifocnt7 == old(self).fifocnt7,
            final(self).fifocnt9 == old(self).fifocnt9.written(byte, value),
            byte == 0 && (value >> 3) & 1 != 0 ==> final(self).output9@.len() == 0
                && final(self).prev_value9 == 0,
            !(byte == 0 && (value >> 3) & 1 != 0) ==> final(self).output9@ == old(self).output9@
                && final(self).prev_value9 == old(self).prev_value9,
            final(self).prev_value7 == old(self).prev_value7,
            final(self).sync7 == old(self).sync7,
            final(self).sync9 == old(self).sync9,
    {
        let prev_fifocnt = self.fifocnt9;
        self.fifocnt9.write(&mut self.output9, &mut self.prev_value9, byte, value);
        IPC::check_fifo_interrupt(&self.output9, &self.output7, &prev_fifocnt, &self.fifocnt9)
    }

    /// The ARM7 sends a word to the ARM9.
    pub fn arm7_send(&mut self, value: u32) -> (r: InterruptRequest)
        requires
            old(self).wf(),
        ensures
            final(self).wf(),
            final(self).output9 == old(self).output9,
            old(self).fifocnt7.enable && old(self).output7@.len() < FIFO_LEN ==> final(self).output7@
                == old(self).output7@.push(value),
            !(old(self).fifocnt7.enable && old(self).output7@.len() < FIFO_LEN) ==> final(self).output7@
                == old(self).output7@,
            final(self).fifocnt9 == old(self).fifocnt9,
            final(self).sync7 == old(self).sync7,
            final(self).sync9 == old(self).sync9,
            final(self).prev_value7 == old(self).prev_value7,
            final(self).prev_value9 == old(self).prev_value9,
            final(self).fifocnt7 == (if old(self).fifocnt7.enable && old(self).output7@.len() == FIFO_LEN {
                (FIFOCNT { error: true, ..old(self).fifocnt7 })
            } else {
                old(self).fifocnt7
            }),
            r.bits == (if old(self).fifocnt7.enable && old(self).fifocnt9.enable
                && old(self).fifocnt9.recv_fifo_not_empty_irq && old(self).output7@.len() == 0 {
                IPC_RECV_FIFO_NOT_EMPTY
            } else {
                0
            }),
    {
        IPC::send(&mut self.fifocnt7, &self.fifocnt9, &mut self.output7, value)
    }

    /// The ARM9 sends a word to the ARM7.
    pub fn arm9_send(&mut self, value: u32) -> (r: InterruptRequest)
        requires
            old(self).wf(),
        ensures
            final(self).wf(),
            final(self).output7 == old(self).output7,
            old(self).fifocnt9.enable && old(self).output9@.len() < FIFO_LEN ==> final(self).output9@
                == old(self).output9@.push(value),
            !(old(self).fifocnt9.enable && old(self).output9@.len() < FIFO_LEN) ==> final(self).output9@
                == old(self).output9@,
            final(self).fifocnt7 == old(self).fifocnt7,
            final(self).sync7 == old(self).sync7,
            final(self).sync9 == old(self).sync9,
            final(self).prev_value7 == old(self).prev_value7,
            final(self).prev_value9 == old(self).prev_value9,
            final(self).fifocnt9 == (if old(self).fifocnt9.enable && old(self).output9@.len() == FIFO_LEN {
                (FIFOCNT { error: true, ..old(self).fifocnt9 })
            } else {
                old(self).fifocnt9
            }),
            r.bits == (if old(self).fifocnt9.enable && old(self).fifocnt7.enable
                && old(self).fifocnt7.recv_fifo_not_empty_irq && old(self).output9@.len() == 0 {
                IPC_RECV_FIFO_NOT_EMPTY
            } else {
                0
            }),
    {
        IPC::send(&mut self.fifocnt9, &self.fifocnt7, &mut self.output9, value)
    }
}

impl FIFOCNT {
    /// The register after writing `value` to byte `byte`: byte 0 sets the
    /// send-empty interrupt enable; byte 1 sets the not-empty interrupt
    /// enable and the enable bit, and a set bit 6 acknowledges the error.
    pub open spec fn written(self, byte: usize, value: u8) -> FIFOCNT {
        if byte == 0 {
            FIFOCNT { send_fifo_empty_irq: (value >> 2) & 1 != 0, ..self }
        } else if byte == 1 {
            FIFOCNT {
                recv_fifo_not_empty_irq: (value >> 2) & 1 != 0,
                error: self.error && (value >> 6) & 1 == 0,
                enable: (value >> 7) & 1 != 0,
                ..self
            }
        } else {
            self
        }
    }

    /// The value `FIFOCNT::new` returns.
    pub open spec fn new_spec() -> FIFOCNT {
        FIFOCNT {
            send_fifo_empty_irq: false,
            recv_fifo_not_empty_irq: false,
            error: false,
            enable: false,
        }
    }
}

/// A FIFO is first in, first out: sending a word into a FIFO that is not
/// full and then reading it yields its oldest word, which is the word just
/// sent when the FIFO was empty.
pub proof fn lemma_fifo_order(q: Seq<u32>, v: u32)
    requires
        q.len() < FIFO_LEN,
    ensures
        q.push(v)[0] == if q.len() == 0 { v } else { q[0] },
        q.push(v).drop_first() == if q.len() == 0 { q } else { q.drop_first().push(v) },
{
    if q.len() > 0 {
        assert(q.push(v).drop_first() =~= q.drop_first().push(v));
    } else {
        assert(q.push(v).drop_first() =~= q);
    }
}

} // verus!
