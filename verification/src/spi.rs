//! The serial bus of the second processor: its control register and the
//! firmware chip on it, a read-only flash that answers the read command.
use vstd::prelude::*;
use crate::spu::bit;

verus! {

/// The device the bus talks to.
#[derive(Clone, Copy, PartialEq, Eq, Structural, Debug)]
pub enum Device {
    Powerman,
    Firmware,
    Touchscreen,
}

impl Device {
    /// The device's 2-bit number.
    pub open spec fn code(self) -> u8 {
        match self {
            Device::Powerman => 0,
            Device::Firmware => 1,
            Device::Touchscreen => 2,
        }
    }

    /// The device for number `value`; 3 is reserved.
    pub fn from_bits(value: u8) -> (r: Device)
        requires
            value < 3,
        ensures
            r.code() == value,
    {
        match value {
            0 => Device::Powerman,
            1 => Device::Firmware,
            _ => Device::Touchscreen,
        }
    }

    fn bits(&self) -> (r: u8)
        ensures
            r == self.code(),
    {
        match self {
            Device::Powerman => 0,
            Device::Firmware => 1,
            Device::Touchscreen => 2,
        }
    }
}

/// The bus control register.
pub struct CNT {
    pub baudrate: u8,
    pub busy: bool,
    pub device: Device,
    pub transfer16: bool,
    pub hold: bool,
    pub irq: bool,
    pub enable: bool,
}

/// Whether `value` can be written to byte `byte` of the control register:
/// 16-bit transfers and the reserved device are not handled.
pub open spec fn cnt_write_ok(byte: usize, value: u8) -> bool {
    byte == 1 ==> (value >> 2u8) & 0x1 == 0 && value & 0x3 != 3
}

impl CNT {
    /// The register at reset: disabled, talking to the power manager.
    pub fn new() -> (r: CNT)
        ensures
            r.baudrate == 0 && !r.busy && r.device == Device::Powerman && !r.transfer16 && !r.hold
                && !r.irq && !r.enable,
    {
        CNT {
            baudrate: 0,
            busy: false,
            device: Device::Powerman,
            transfer16: false,
            hold: false,
            irq: false,
            enable: false,
        }
    }

    /// Byte 0 holds the busy flag and the baud rate, byte 1 the enable,
    /// interrupt, hold, width and device fields.
    pub fn read(&self, byte: usize) -> (r: u8)
        requires
            byte < 2,
        ensures
            byte == 0 ==> r == (bit(self.busy) << 7u8) | self.baudrate,
            byte == 1 ==> r == (bit(self.enable) << 7u8) | (bit(self.irq) << 6u8) | (bit(self.hold) << 3u8)
                | (bit(self.transfer16) << 2u8) | self.device.code(),
    {
        if byte == 0 {
            ((self.busy as u8) << 7u8) | self.baudrate
        } else {
            ((self.enable as u8) << 7u8) | ((self.irq as u8) << 6u8) | ((self.hold as u8) << 3u8) | ((
            self.transfer16 as u8) << 2u8) | self.device.bits()
        }
    }

    /// Byte 0 sets the baud rate; byte 1 the enable, interrupt, hold,
    /// width and device fields.
    pub fn write(&mut self, byte: usize, value: u8)
        requires
            byte < 2,
            cnt_write_ok(byte, value),
        ensures
            byte == 0 ==> *final(self) == (CNT { baudrate: value & 0x3, ..*old(self) }),
            byte == 1 ==> *final(self) == (CNT {
                enable: (value >> 7u8) & 0x1 != 0,
                irq: (value >> 6u8) & 0x1 != 0,
                hold: (value >> 3u8) & 0x1 != 0,
                transfer16: false,
                device: if value & 0x3 == 0 {
                    Device::Powerman
                } else if value & 0x3 == 1 {
                    Device::Firmware
                } else {
                    Device::Touchscreen
                },
                ..*old(self)
            }),
    {
        if byte == 0 {
            self.baudrate = value & 0x3;
        } else {
            self.enable = (value >> 7u8) & 0x1 != 0;
            self.irq = (value >> 6u8) & 0x1 != 0;
            self.hold = (value >> 3u8) & 0x1 != 0;
            self.transfer16 = (value >> 2u8) & 0x1 != 0;
            proof {
                crate::bits::lemma_mask_bounds();
            }
            self.device = Device::from_bits(value & 0x3);
        }
    }
}

/// A firmware command in progress: a read collecting its three address
/// bytes, or a read streaming from an address.
#[derive(Clone, Copy, PartialEq, Eq, Structural, Debug)]
pub enum FirmwareInstr {
    Read(usize, u32),
    ContinuousRead(u32),
}

/// What the firmware chip waits for: a command byte, or the bytes of the
/// command in progress.
#[derive(Clone, Copy, PartialEq, Eq, Structural, Debug)]
pub enum FirmwareState {
    ReadInstr,
    HandleInstr(FirmwareInstr),
}

/// The firmware chip: its memory, its state, and the byte it drives.
pub struct Firmware {
    pub mem: Vec<u8>,
    pub state: FirmwareState,
    pub read_value: u8,
}

/// The chip's invariant: a read has collected at most three address
/// bytes.
pub open spec fn firmware_wf(f: Firmware) -> bool {
    match f.state {
        FirmwareState::HandleInstr(FirmwareInstr::Read(i, _)) => i <= 3,
        _ => true,
    }
}

/// Whether the chip handles byte `value` in its state: 3 (read) is the
/// only command, the byte after the address is a dummy 0, and a streamed
/// read stays inside the memory.
pub open spec fn firmware_write_ok(f: Firmware, value: u8) -> bool {
    match f.state {
        FirmwareState::ReadInstr => value == 3,
        FirmwareState::HandleInstr(FirmwareInstr::Read(i, addr)) => i == 3 ==> value == 0 && addr
            < f.mem@.len() && addr < u32::MAX,
        FirmwareState::HandleInstr(FirmwareInstr::ContinuousRead(addr)) => if value == 0 {
            addr < f.mem@.len() && addr < u32::MAX
        } else {
            value == 3
        },
    }
}

impl Firmware {
    /// The chip over `mem`, waiting for a command.
    pub fn new(mem: Vec<u8>) -> (r: Firmware)
        ensures
            r.mem@ == mem@,
            r.state == FirmwareState::ReadInstr,
            r.read_value == 0,
            firmware_wf(r),
    {
        Firmware { mem, state: FirmwareState::ReadInstr, read_value: 0 }
    }

    /// The byte the chip drives.
    pub fn read(&self) -> (r: u8)
        ensures
            r == self.read_value,
    {
        self.read_value
    }

    /// Clocks `value` in: a command byte starts a read; three address
    /// bytes follow, most significant first; then each 0 byte reads the
    /// next memory byte, and any other byte starts a new command.
    pub fn write(&mut self, value: u8)
        requires
            firmware_wf(*old(self)),
            firmware_write_ok(*old(self), value),
        ensures
            firmware_wf(*final(self)),
            final(self).mem@ == old(self).mem@,
            match old(self).state {
                FirmwareState::ReadInstr => final(self).state == FirmwareState::HandleInstr(
                    FirmwareInstr::Read(0, 0),
                ) && final(self).read_value == old(self).read_value,
                FirmwareState::HandleInstr(FirmwareInstr::Read(i, addr)) => if i == 3 {
                    final(self).read_value == old(self).mem@[addr as int] && final(self).state
                        == FirmwareState::HandleInstr(FirmwareInstr::ContinuousRead((addr + 1) as u32))
                } else {
                    final(self).state == FirmwareState::HandleInstr(
                        FirmwareInstr::Read((i + 1) as usize, (addr << 8u32) | value as u32),
                    ) && final(self).read_value == old(self).read_value
                },
                FirmwareState::HandleInstr(FirmwareInstr::ContinuousRead(addr)) => if value == 0 {
                    final(self).read_value == old(self).mem@[addr as int] && final(self).state
                        == FirmwareState::HandleInstr(FirmwareInstr::ContinuousRead((addr + 1) as u32))
                } else {
                    final(self).state == FirmwareState::HandleInstr(FirmwareInstr::Read(0, 0))
                        && final(self).read_value == old(self).read_value
                },
            },
    {
        match self.state {
            FirmwareState::ReadInstr => {
                self.state = FirmwareState::HandleInstr(FirmwareInstr::Read(0, 0));
            },
            FirmwareState::HandleInstr(FirmwareInstr::Read(i, addr)) => {
                if i == 3 {
                    self.read_value = self.mem[addr as usize];
                    self.state = FirmwareState::HandleInstr(FirmwareInstr::ContinuousRead(addr + 1));
                } else {
                    self.state = FirmwareState::HandleInstr(
                        FirmwareInstr::Read(i + 1, (addr << 8u32) | value as u32),
                    );
                }
            },
            FirmwareState::HandleInstr(FirmwareInstr::ContinuousRead(addr)) => {
                if value == 0 {
                    self.read_value = self.mem[addr as usize];
                    self.state = FirmwareState::HandleInstr(FirmwareInstr::ContinuousRead(addr + 1));
                } else {
                    // The byte is a new command; the only one is a read.
                    self.state = FirmwareState::HandleInstr(FirmwareInstr::Read(0, 0));
                }
            },
        }
    }
}

} // verus!
