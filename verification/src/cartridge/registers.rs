//! The cartridge bus control registers: AUXSPICNT and ROMCTRL.
use vstd::prelude::*;
use crate::bits::bit8;

verus! {

/// AUXSPICNT, the control register of the save chip's SPI bus.
#[derive(Clone, Copy, PartialEq, Eq, Structural, Debug)]
pub struct SPICNT {
    pub baudrate: u8,
    pub hold: bool,
    pub busy: bool,
    pub slot_mode: bool,
    pub transfer_ready_irq: bool,
    pub slot_enable: bool,
}

/// AUXSPICNT with all bits clear.
pub open spec fn spicnt_initial() -> SPICNT {
    SPICNT {
        baudrate: 0,
        hold: false,
        busy: false,
        slot_mode: false,
        transfer_ready_irq: false,
        slot_enable: false,
    }
}

impl SPICNT {
    /// All bits clear.
    pub fn new() -> (r: SPICNT)
        ensures
            r == spicnt_initial(),
    {
        SPICNT {
            baudrate: 0,
            hold: false,
            busy: false,
            slot_mode: false,
            transfer_ready_irq: false,
            slot_enable: false,
        }
    }

    /// Reads byte `byte`; without access the bus reads 0.
    pub fn read(&self, has_access: bool, byte: usize) -> (r: u8)
        requires
            has_access ==> byte < 2,
        ensures
            r == (if !has_access {
                0u8
            } else if byte == 0 {
                (if self.busy { 0x80u8 } else { 0u8 }) | (if self.hold { 0x40u8 } else { 0u8 })
                    | self.baudrate
            } else {
                (if self.slot_enable { 0x80u8 } else { 0u8 }) | (if self.transfer_ready_irq {
                    0x40u8
                } else {
                    0u8
                }) | (if self.slot_mode { 0x20u8 } else { 0u8 })
            }),
    {
        if !has_access {
            return 0;
        }
        if byte == 0 {
            (if self.busy { 0x80u8 } else { 0u8 }) | (if self.hold { 0x40u8 } else { 0u8 })
                | self.baudrate
        } else {
            (if self.slot_enable { 0x80u8 } else { 0u8 }) | (if self.transfer_ready_irq {
                0x40u8
            } else {
                0u8
            }) | (if self.slot_mode { 0x20u8 } else { 0u8 })
        }
    }

    /// Writes byte `byte`; without access nothing changes.
    pub fn write(&mut self, has_access: bool, byte: usize, value: u8)
        requires
            has_access ==> byte < 2,
        ensures
            !has_access ==> *final(self) == *old(self),
            has_access && byte == 0 ==> *final(self) == (SPICNT {
                baudrate: value & 0x3,
                hold: bit8(value, 6),
                busy: bit8(value, 7),
                ..*old(self)
            }),
            has_access && byte == 1 ==> *final(self) == (SPICNT {
                slot_mode: bit8(value, 5),
                transfer_ready_irq: bit8(value, 6),
                slot_enable: bit8(value, 7),
                ..*old(self)
            }),
    {
        if !has_access {
            return;
        }
        if byte == 0 {
            self.baudrate = value & 0x3;
            self.hold = (value >> 6u8) & 0x1 != 0;
            self.busy = (value >> 7u8) & 0x1 != 0;
        } else {
            self.slot_mode = (value >> 5u8) & 0x1 != 0;
            self.transfer_ready_irq = (value >> 6u8) & 0x1 != 0;
            self.slot_enable = (value >> 7u8) & 0x1 != 0;
        }
    }
}

/// ROMCTRL, the control register of the cartridge's ROM bus.
#[derive(Clone, Copy, PartialEq, Eq, Structural, Debug)]
pub struct ROMCTRL {
    pub key1_gap1_len: u16,
    pub key2_encrypt_data: bool,
    pub key2_apply_seed: bool,
    pub key1_gap2_len: u8,
    pub key2_encrypt_cmd: bool,
    pub data_word_ready: bool,
    pub data_block_size: u8,
    pub transfer_clk_rate: bool,
    pub key1_gap_clks: bool,
    pub resb_release_reset: bool,
    pub wr: bool,
    pub block_busy: bool,
}

/// ROMCTRL with all bits clear.
pub open spec fn romctrl_initial() -> ROMCTRL {
    ROMCTRL {
        key1_gap1_len: 0,
        key2_encrypt_data: false,
        key2_apply_seed: false,
        key1_gap2_len: 0,
        key2_encrypt_cmd: false,
        data_word_ready: false,
        data_block_size: 0,
        transfer_clk_rate: false,
        key1_gap_clks: false,
        resb_release_reset: false,
        wr: false,
        block_busy: false,
    }
}

impl ROMCTRL {
    /// All bits clear.
    pub fn new() -> (r: ROMCTRL)
        ensures
            r == romctrl_initial(),
    {
        ROMCTRL {
            key1_gap1_len: 0,
            key2_encrypt_data: false,
            key2_apply_seed: false,
            key1_gap2_len: 0,
            key2_encrypt_cmd: false,
            data_word_ready: false,
            data_block_size: 0,
            transfer_clk_rate: false,
            key1_gap_clks: false,
            resb_release_reset: false,
            wr: false,
            block_busy: false,
        }
    }

    /// Byte `byte` of the register as read.
    pub open spec fn byte_value(&self, byte: usize) -> u8 {
        if byte == 0 {
            self.key1_gap1_len as u8
        } else if byte == 1 {
            (if self.key2_encrypt_data { 0x40u8 } else { 0u8 }) | (if self.key2_encrypt_data {
                0x20u8
            } else {
                0u8
            }) | ((self.key1_gap1_len >> 8u16) as u8)
        } else if byte == 2 {
            (if self.data_word_ready { 0x80u8 } else { 0u8 }) | (if self.key2_encrypt_cmd {
                0x40u8
            } else {
                0u8
            }) | self.key1_gap2_len
        } else {
            (if self.block_busy { 0x80u8 } else { 0u8 }) | (if self.wr { 0x40u8 } else { 0u8 })
                | (if self.resb_release_reset { 0x20u8 } else { 0u8 }) | (if self.key1_gap_clks {
                0x10u8
            } else {
                0u8
            }) | (if self.transfer_clk_rate { 0x08u8 } else { 0u8 }) | self.data_block_size
        }
    }

    /// Reads byte `byte`; without access the bus reads 0.
    pub fn read(&self, has_access: bool, byte: usize) -> (r: u8)
        requires
            has_access ==> byte < 4,
        ensures
            r == (if has_access { self.byte_value(byte) } else { 0u8 }),
    {
        if !has_access {
            return 0;
        }
        if byte == 0 {
            self.key1_gap1_len as u8
        } else if byte == 1 {
            (if self.key2_encrypt_data { 0x40u8 } else { 0u8 }) | (if self.key2_encrypt_data {
                0x20u8
            } else {
                0u8
            }) | ((self.key1_gap1_len >> 8u16) as u8)
        } else if byte == 2 {
            (if self.data_word_ready { 0x80u8 } else { 0u8 }) | (if self.key2_encrypt_cmd {
                0x40u8
            } else {
                0u8
            }) | self.key1_gap2_len
        } else {
            (if self.block_busy { 0x80u8 } else { 0u8 }) | (if self.wr { 0x40u8 } else { 0u8 })
                | (if self.resb_release_reset { 0x20u8 } else { 0u8 }) | (if self.key1_gap_clks {
                0x10u8
            } else {
                0u8
            }) | (if self.transfer_clk_rate { 0x08u8 } else { 0u8 }) | self.data_block_size
        }
    }

    /// The register after writing `value` to byte `byte` (with access).
    pub open spec fn written(&self, byte: usize, value: u8) -> ROMCTRL {
        if byte == 0 {
            ROMCTRL { key1_gap1_len: (self.key1_gap1_len & !0xFFu16) | (value as u16), ..*self }
        } else if byte == 1 {
            ROMCTRL {
                key1_gap1_len: (self.key1_gap1_len & !0x1F00u16) | (((value as u16) & 0x1F)
                    << 4u16),
                key2_encrypt_data: bit8(value, 5),
                key2_apply_seed: bit8(value, 7),
                ..*self
            }
        } else if byte == 2 {
            ROMCTRL { key1_gap2_len: value & 0x3F, key2_encrypt_cmd: bit8(value, 6), ..*self }
        } else {
            ROMCTRL {
                data_block_size: value & 0x7,
                transfer_clk_rate: bit8(value, 3),
                key1_gap_clks: bit8(value, 4),
                resb_release_reset: self.resb_release_reset || bit8(value, 5),
                wr: bit8(value, 6),
                ..*self
            }
        }
    }

    /// Writes byte `byte`. The data-word status is read-only and the reset
    /// release, once set, stays set. Returns whether the write starts a
    /// block transfer (bit 7 of byte 3).
    pub fn write(&mut self, has_access: bool, byte: usize, value: u8) -> (start: bool)
        requires
            has_access ==> byte < 4,
        ensures
            *final(self) == (if has_access { old(self).written(byte, value) } else { *old(self) }),
            start == (has_access && byte == 3 && value & 0x80 != 0),
    {
        if !has_access {
            return false;
        }
        if byte == 0 {
            self.key1_gap1_len = (self.key1_gap1_len & !0xFFu16) | (value as u16);
        } else if byte == 1 {
            self.key1_gap1_len = (self.key1_gap1_len & !0x1F00u16) | (((value as u16) & 0x1F)
                << 4u16);
            self.key2_encrypt_data = (value >> 5u8) & 0x1 != 0;
            self.key2_apply_seed = (value >> 7u8) & 0x1 != 0;
        } else if byte == 2 {
            self.key1_gap2_len = value & 0x3F;
            self.key2_encrypt_cmd = (value >> 6u8) & 0x1 != 0;
        } else {
            self.data_block_size = value & 0x7;
            self.transfer_clk_rate = (value >> 3u8) & 0x1 != 0;
            self.key1_gap_clks = (value >> 4u8) & 0x1 != 0;
            self.resb_release_reset = self.resb_release_reset || (value >> 5u8) & 0x1 != 0;
            self.wr = (value >> 6u8) & 0x1 != 0;
            return value & 0x80 != 0;
        }
        false
    }
}

} // verus!
