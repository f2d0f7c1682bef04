//! The save chips of a cartridge: EEPROM, flash, or none. Each is a small
//! state machine clocked one byte at a time over the SPI bus; the memory it
//! holds is passed in and out as bytes.
use vstd::prelude::*;
use core::marker::PhantomData;
use crate::cartridge::header::Header;

verus! {

/// A save chip as the cartridge's SPI bus sees it.
pub trait Backup {
    /// Whether clocking `value` in (with `hold`) is a transfer the chip
    /// handles.
    spec fn write_ok(&self, hold: bool, value: u8) -> bool;

    /// The chip's memory.
    spec fn chip_mem(&self) -> Seq<u8>;

    /// The chip's state besides its memory.
    spec fn chip_regs(&self) -> ChipRegs;

    /// The memory after clocking `value` in (with `hold`).
    spec fn mem_after(&self, hold: bool, value: u8) -> Seq<u8>;

    /// The state besides the memory after clocking `value` in.
    spec fn regs_after(&self, hold: bool, value: u8) -> ChipRegs;

    /// The byte the chip drives on the bus.
    spec fn bus_byte(&self) -> u8;

    /// Whether a memory byte has been stored since the flag was last
    /// taken.
    spec fn is_dirty(&self) -> bool;

    /// Whether clocking `value` in (with `hold`) stores a memory byte.
    spec fn stores(&self, hold: bool, value: u8) -> bool;

    /// Whether the chip has a memory to save.
    spec fn has_mem(&self) -> bool;

    /// The byte the chip drives on the bus.
    fn read(&self) -> (r: u8)
        ensures
            r == self.bus_byte(),
    ;

    /// The chip's memory, as it is saved; only a chip with memory is
    /// asked for it.
    fn mem(&self) -> (r: &[u8])
        requires
            self.has_mem(),
        ensures
            r@ == self.chip_mem(),
    ;

    /// Clocks `value` into the chip; `hold` keeps the chip selected after
    /// the byte.
    fn write(&mut self, hold: bool, value: u8)
        requires
            old(self).write_ok(hold, value),
        ensures
            final(self).chip_mem() == old(self).mem_after(hold, value),
            final(self).chip_regs() == old(self).regs_after(hold, value),
            final(self).is_dirty() == (old(self).is_dirty() || old(self).stores(hold, value)),
    ;

    /// Takes the unsaved-writes flag: returns it and clears it, leaving
    /// the chip otherwise as it was.
    fn dirty(&mut self) -> (r: bool)
        ensures
            r == old(self).is_dirty(),
            r ==> final(self).has_mem(),
            final(self).has_mem() == old(self).has_mem(),
            !final(self).is_dirty(),
            final(self).chip_mem() == old(self).chip_mem(),
            final(self).chip_regs() == old(self).chip_regs(),
            final(self).bus_byte() == old(self).bus_byte(),
            forall|hold: bool, value: u8|
                #![trigger final(self).write_ok(hold, value)]
                #![trigger final(self).mem_after(hold, value)]
                #![trigger final(self).regs_after(hold, value)]
                #![trigger final(self).stores(hold, value)]
                final(self).write_ok(hold, value) == old(self).write_ok(hold, value)
                    && final(self).mem_after(hold, value) == old(self).mem_after(hold, value)
                    && final(self).regs_after(hold, value) == old(self).regs_after(hold, value)
                    && final(self).stores(hold, value) == old(self).stores(hold, value),
    ;
}

/// A save chip's state besides its memory: none, an EEPROM's mode,
/// output byte, write enable and write protection, or a flash's mode,
/// output byte and write enable.
#[derive(Clone, Copy, Debug)]
pub enum ChipRegs {
    NoChip,
    Eeprom(EepromMode, u8, bool, WriteProtect),
    Flash(FlashMode, u8, bool),
}

/// A cartridge without a save chip: it reads 0 and ignores writes.
pub struct NoBackup {}

impl NoBackup {
    /// The empty save chip.
    pub fn new() -> (r: NoBackup) {
        NoBackup {}
    }
}

impl Backup for NoBackup {
    open spec fn write_ok(&self, hold: bool, value: u8) -> bool {
        true
    }

    open spec fn chip_mem(&self) -> Seq<u8> {
        Seq::empty()
    }

    open spec fn chip_regs(&self) -> ChipRegs {
        ChipRegs::NoChip
    }

    open spec fn bus_byte(&self) -> u8 {
        0
    }

    open spec fn mem_after(&self, hold: bool, value: u8) -> Seq<u8> {
        Seq::empty()
    }

    open spec fn regs_after(&self, hold: bool, value: u8) -> ChipRegs {
        ChipRegs::NoChip
    }

    open spec fn is_dirty(&self) -> bool {
        false
    }

    open spec fn stores(&self, hold: bool, value: u8) -> bool {
        false
    }

    open spec fn has_mem(&self) -> bool {
        false
    }

    fn read(&self) -> (r: u8)
        ensures
            r == 0,
    {
        0
    }

    /// Never called: the chip has no memory.
    fn mem(&self) -> (r: &[u8]) {
        &[]
    }

    fn write(&mut self, _hold: bool, _value: u8) {
    }

    fn dirty(&mut self) -> (r: bool)
        ensures
            !r,
    {
        false
    }
}

/// The two EEPROM sizes, which differ in their address length and
/// command set.
pub trait EEPROMType {
    /// Whether this is the small (one address byte) EEPROM.
    spec fn small() -> bool;

    /// Whether this is the small EEPROM.
    fn is_small() -> (r: bool)
        ensures
            r == Self::small(),
    ;

    /// The size's name.
    fn debug_str() -> &'static str;
}

/// The 512-byte EEPROM with one address byte (the ninth address bit is in
/// the command).
pub struct EEPROMSmall {}

/// The EEPROM with two address bytes.
pub struct EEPROMNormal {}

impl EEPROMType for EEPROMSmall {
    open spec fn small() -> bool {
        true
    }

    fn is_small() -> (r: bool) {
        true
    }

    fn debug_str() -> (r: &'static str)
        ensures
            r@ == "Small"@,
    {
        "Small"
    }
}

impl EEPROMType for EEPROMNormal {
    open spec fn small() -> bool {
        false
    }

    fn is_small() -> (r: bool) {
        false
    }

    fn debug_str() -> (r: &'static str)
        ensures
            r@ == "Normal"@,
    {
        "Normal"
    }
}

/// An EEPROM command, with the address bytes still to come and the
/// address gathered so far for reads and writes.
#[derive(Clone, Copy, PartialEq, Eq, Structural, Debug)]
pub enum EepromCommand {
    Write(usize, usize),
    Read(usize, usize),
    ReadStatus,
    WriteEnable,
}

/// Whether the chip waits for a command byte or is inside a command.
#[derive(Clone, Copy, PartialEq, Eq, Structural, Debug)]
pub enum EepromMode {
    ReadCommand,
    HandleCommand(EepromCommand),
}

/// The write protection of the status register (always off here).
#[derive(Clone, Copy, PartialEq, Eq, Structural, Debug)]
pub enum WriteProtect {
    Unprotected,
    UpperQuarter,
    UpperHalf,
    All,
}

impl WriteProtect {
    /// The two status register bits.
    pub open spec fn code(self) -> u8 {
        match self {
            WriteProtect::Unprotected => 0,
            WriteProtect::UpperQuarter => 1,
            WriteProtect::UpperHalf => 2,
            WriteProtect::All => 3,
        }
    }
}

/// Whether `value` is an EEPROM command byte of the given size.
pub open spec fn eeprom_command_ok(small: bool, value: u8) -> bool {
    value == 0x02 || value == 0x03 || value == 0x05 || value == 0x06 || (small && (value == 0x0A
        || value == 0x0B))
}

/// The command a command byte starts: the small EEPROM takes one address
/// byte and encodes the ninth address bit in the command (0x0A/0x0B), the
/// normal one takes two address bytes.
pub open spec fn eeprom_command_of(small: bool, value: u8) -> EepromCommand {
    if value == 0x02 && small {
        EepromCommand::Write(1, 0)
    } else if value == 0x03 && small {
        EepromCommand::Read(1, 0)
    } else if value == 0x02 {
        EepromCommand::Write(2, 0)
    } else if value == 0x03 {
        EepromCommand::Read(2, 0)
    } else if value == 0x05 {
        EepromCommand::ReadStatus
    } else if value == 0x06 {
        EepromCommand::WriteEnable
    } else if value == 0x0A {
        EepromCommand::Write(1, 1)
    } else {
        EepromCommand::Read(1, 1)
    }
}

impl EepromCommand {
    /// Decodes a command byte.
    pub fn get<T: EEPROMType>(value: u8) -> (r: EepromCommand)
        requires
            eeprom_command_ok(T::small(), value),
        ensures
            r == eeprom_command_of(T::small(), value),
    {
        let small = T::is_small();
        if value == 0x02 && small {
            EepromCommand::Write(1, 0)
        } else if value == 0x03 && small {
            EepromCommand::Read(1, 0)
        } else if value == 0x02 {
            EepromCommand::Write(2, 0)
        } else if value == 0x03 {
            EepromCommand::Read(2, 0)
        } else if value == 0x05 {
            EepromCommand::ReadStatus
        } else if value == 0x06 {
            EepromCommand::WriteEnable
        } else if value == 0x0A {
            EepromCommand::Write(1, 1)
        } else {
            EepromCommand::Read(1, 1)
        }
    }
}

/// An EEPROM save chip holding `mem`.
pub struct EEPROM<T: EEPROMType> {
    pub eeprom_type: PhantomData<T>,
    pub mem: Vec<u8>,
    pub mode: EepromMode,
    pub value: u8,
    pub write_enable: bool,
    pub write_protect: WriteProtect,
    pub unsaved: bool,
}

/// Whether the byte `value` can be handled inside command `c` on a memory
/// of `len` bytes: a read's data phase is clocked with zeros, and reads and
/// (enabled) writes must stay inside the memory.
pub open spec fn eeprom_step_ok(c: EepromCommand, value: u8, len: int, write_enable: bool) -> bool {
    match c {
        EepromCommand::Read(0, addr) => value == 0 && addr < len,
        EepromCommand::Write(0, addr) => (write_enable ==> addr < len) && addr < usize::MAX,
        EepromCommand::ReadStatus => value == 0,
        _ => true,
    }
}

impl<T: EEPROMType> EEPROM<T> {
    /// An idle EEPROM over `mem`, writes disabled.
    pub fn new(mem: Vec<u8>) -> (r: EEPROM<T>)
        ensures
            r.mem@ == mem@,
            r.mode == EepromMode::ReadCommand,
            r.value == 0,
            !r.write_enable,
            r.write_protect == WriteProtect::Unprotected,
            !r.unsaved,
    {
        EEPROM {
            eeprom_type: PhantomData,
            mem,
            mode: EepromMode::ReadCommand,
            value: 0,
            write_enable: false,
            write_protect: WriteProtect::Unprotected,
            unsaved: false,
        }
    }

    /// Starts a command: write enable takes effect at once, the others
    /// wait for their bytes.
    fn set_command(&mut self, command: EepromCommand) -> (m: EepromMode)
        ensures
            command == EepromCommand::WriteEnable ==> m == EepromMode::ReadCommand
                && final(self).write_enable,
            command != EepromCommand::WriteEnable ==> m == EepromMode::HandleCommand(command)
                && final(self).write_enable == old(self).write_enable,
            final(self).mem == old(self).mem,
            final(self).value == old(self).value,
            final(self).mode == old(self).mode,
            final(self).write_protect == old(self).write_protect,
            final(self).unsaved == old(self).unsaved,
    {
        match command {
            EepromCommand::WriteEnable => {
                self.write_enable = true;
                EepromMode::ReadCommand
            },
            _ => EepromMode::HandleCommand(command),
        }
    }

    /// Handles one byte inside `command`: address bytes are shifted in,
    /// then each data byte reads (into the output latch) or writes one
    /// memory byte and moves to the next address; a status read returns
    /// the status register and ends the command.
    fn handle_command(&mut self, command: EepromCommand, value: u8) -> (m: EepromMode)
        requires
            command != EepromCommand::WriteEnable,
            eeprom_step_ok(command, value, old(self).mem.len() as int, old(self).write_enable),
        ensures
            final(self).write_enable == old(self).write_enable,
            final(self).write_protect == old(self).write_protect,
            final(self).mode == old(self).mode,
            final(self).unsaved == (old(self).unsaved || (command matches EepromCommand::Write(
                0,
                _,
            ) && old(self).write_enable)),
            command matches EepromCommand::Read(n, addr) ==> if n == 0 {
                &&& final(self).value == old(self).mem@[addr as int]
                &&& final(self).mem@ == old(self).mem@
                &&& m == EepromMode::HandleCommand(EepromCommand::Read(0, (addr + 1) as usize))
            } else {
                &&& final(self).value == old(self).value
                &&& final(self).mem@ == old(self).mem@
                &&& m == EepromMode::HandleCommand(
                    EepromCommand::Read((n - 1) as usize, (addr << 8usize) | (value as usize)),
                )
            },
            command matches EepromCommand::Write(n, addr) ==> if n == 0 {
                &&& final(self).value == old(self).value
                &&& final(self).mem@ == (if old(self).write_enable {
                    old(self).mem@.update(addr as int, value)
                } else {
                    old(self).mem@
                })
                &&& m == EepromMode::HandleCommand(EepromCommand::Write(0, (addr + 1) as usize))
            } else {
                &&& final(self).value == old(self).value
                &&& final(self).mem@ == old(self).mem@
                &&& m == EepromMode::HandleCommand(
                    EepromCommand::Write((n - 1) as usize, (addr << 8usize) | (value as usize)),
                )
            },
            command == EepromCommand::ReadStatus ==> {
                &&& final(self).value == (if T::small() { 0xF0u8 } else { 0u8 }) | (
                old(self).write_protect.code() * 4) as u8 | (if old(self).write_enable {
                    2u8
                } else {
                    0u8
                })
                &&& final(self).mem@ == old(self).mem@
                &&& m == EepromMode::ReadCommand
            },
    {
        match command {
            EepromCommand::Read(n, addr) => {
                if n == 0 {
                    self.value = self.mem[addr];
                    EepromMode::HandleCommand(EepromCommand::Read(0, addr + 1))
                } else {
                    EepromMode::HandleCommand(
                        EepromCommand::Read(n - 1, (addr << 8usize) | (value as usize)),
                    )
                }
            },
            EepromCommand::Write(n, addr) => {
                if n == 0 {
                    if self.write_enable {
                        self.mem.set(addr, value);
                        self.unsaved = true;
                    }
                    EepromMode::HandleCommand(EepromCommand::Write(0, addr + 1))
                } else {
                    EepromMode::HandleCommand(
                        EepromCommand::Write(n - 1, (addr << 8usize) | (value as usize)),
                    )
                }
            },
            EepromCommand::ReadStatus => {
                let protect: u8 = match self.write_protect {
                    WriteProtect::Unprotected => 0,
                    WriteProtect::UpperQuarter => 4,
                    WriteProtect::UpperHalf => 8,
                    WriteProtect::All => 12,
                };
                let high: u8 = if T::is_small() { 0xF0 } else { 0 };
                self.value = high | protect | (if self.write_enable { 2u8 } else { 0u8 });
                EepromMode::ReadCommand
            },
            EepromCommand::WriteEnable => EepromMode::ReadCommand,
        }
    }
}

/// Whether the EEPROM in mode `mode` handles `value`.
pub open spec fn eeprom_write_ok(small: bool, mode: EepromMode, value: u8, len: int, write_enable: bool) -> bool {
    match mode {
        EepromMode::ReadCommand => value == 0 || eeprom_command_ok(small, value),
        EepromMode::HandleCommand(c) => c != EepromCommand::WriteEnable && eeprom_step_ok(
            c,
            value,
            len,
            write_enable,
        ),
    }
}

/// One byte handled inside EEPROM command `c`: the memory, the next mode
/// and the output byte after it.
pub open spec fn eeprom_step(
    small: bool,
    c: EepromCommand,
    value: u8,
    mem: Seq<u8>,
    out: u8,
    write_enable: bool,
    write_protect: WriteProtect,
) -> (Seq<u8>, EepromMode, u8) {
    match c {
        EepromCommand::Read(n, addr) => if n == 0 {
            (mem, EepromMode::HandleCommand(EepromCommand::Read(0, (addr + 1) as usize)), mem[addr as int])
        } else {
            (
                mem,
                EepromMode::HandleCommand(EepromCommand::Read((n - 1) as usize, (addr << 8usize) | (value as usize))),
                out,
            )
        },
        EepromCommand::Write(n, addr) => if n == 0 {
            (
                if write_enable {
                    mem.update(addr as int, value)
                } else {
                    mem
                },
                EepromMode::HandleCommand(EepromCommand::Write(0, (addr + 1) as usize)),
                out,
            )
        } else {
            (
                mem,
                EepromMode::HandleCommand(EepromCommand::Write((n - 1) as usize, (addr << 8usize) | (value as usize))),
                out,
            )
        },
        EepromCommand::ReadStatus => (
            mem,
            EepromMode::ReadCommand,
            (if small { 0xF0u8 } else { 0u8 }) | (write_protect.code() * 4) as u8 | (if write_enable {
                2u8
            } else {
                0u8
            }),
        ),
        EepromCommand::WriteEnable => (mem, EepromMode::ReadCommand, out),
    }
}

/// An EEPROM after clocking `value` in: a zero byte while it waits for a
/// command changes nothing; a command byte starts the command (write
/// enable at once); a byte inside a command is handled by it; releasing
/// the chip returns it to waiting. The memory, mode, output byte and
/// write enable after it.
pub open spec fn eeprom_next<T: EEPROMType>(e: EEPROM<T>, hold: bool, value: u8) -> (Seq<u8>, EepromMode, u8, bool) {
    match e.mode {
        EepromMode::ReadCommand => if value == 0 {
            (e.mem@, e.mode, e.value, e.write_enable)
        } else {
            let c = eeprom_command_of(T::small(), value);
            let m = if c == EepromCommand::WriteEnable {
                EepromMode::ReadCommand
            } else {
                EepromMode::HandleCommand(c)
            };
            (e.mem@, if hold {
                m
            } else {
                EepromMode::ReadCommand
            }, e.value, e.write_enable || c == EepromCommand::WriteEnable)
        },
        EepromMode::HandleCommand(c) => {
            let (mem, m, out) = eeprom_step(T::small(), c, value, e.mem@, e.value, e.write_enable, e.write_protect);
            (mem, if hold {
                m
            } else {
                EepromMode::ReadCommand
            }, out, e.write_enable)
        },
    }
}

impl<T: EEPROMType> Backup for EEPROM<T> {
    open spec fn write_ok(&self, hold: bool, value: u8) -> bool {
        eeprom_write_ok(
            T::small(),
            self.mode,
            value,
            self.mem.len() as int,
            self.write_enable,
        )
    }

    open spec fn chip_mem(&self) -> Seq<u8> {
        self.mem@
    }

    open spec fn chip_regs(&self) -> ChipRegs {
        ChipRegs::Eeprom(self.mode, self.value, self.write_enable, self.write_protect)
    }

    open spec fn bus_byte(&self) -> u8 {
        self.value
    }

    open spec fn mem_after(&self, hold: bool, value: u8) -> Seq<u8> {
        eeprom_next(*self, hold, value).0
    }

    open spec fn regs_after(&self, hold: bool, value: u8) -> ChipRegs {
        let n = eeprom_next(*self, hold, value);
        ChipRegs::Eeprom(n.1, n.2, n.3, self.write_protect)
    }

    open spec fn is_dirty(&self) -> bool {
        self.unsaved
    }

    /// A data byte of a write command stores while writes are enabled.
    open spec fn stores(&self, hold: bool, value: u8) -> bool {
        self.mode matches EepromMode::HandleCommand(EepromCommand::Write(0, _)) && self.write_enable
    }

    open spec fn has_mem(&self) -> bool {
        true
    }

    fn dirty(&mut self) -> (r: bool) {
        let r = self.unsaved;
        self.unsaved = false;
        r
    }

    fn mem(&self) -> (r: &[u8]) {
        self.mem.as_slice()
    }

    fn read(&self) -> (r: u8)
        ensures
            r == self.value,
    {
        self.value
    }

    /// Clocks in one byte: a zero byte while waiting for a command is
    /// ignored (and keeps the chip waiting); otherwise it starts or
    /// continues a command, and releasing the chip (`!hold`) returns it to
    /// waiting for a command.
    fn write(&mut self, hold: bool, value: u8)
        ensures
            old(self).mode == EepromMode::ReadCommand && value == 0 ==> *final(self) == *old(self),
            !(old(self).mode == EepromMode::ReadCommand && value == 0) && !hold ==> final(self).mode
                == EepromMode::ReadCommand,
            old(self).mode == EepromMode::ReadCommand && value != 0 && hold ==> final(self).mode == (
            if eeprom_command_of(T::small(), value) == EepromCommand::WriteEnable {
                EepromMode::ReadCommand
            } else {
                EepromMode::HandleCommand(eeprom_command_of(T::small(), value))
            }),
            old(self).mode == EepromMode::ReadCommand && value != 0 ==> final(self).write_enable == (
            old(self).write_enable || eeprom_command_of(T::small(), value)
                == EepromCommand::WriteEnable) && final(self).mem == old(self).mem,
    {
        let mode = self.mode;
        let next = match mode {
            EepromMode::ReadCommand => {
                if value == 0 {
                    return;
                }
                let c = EepromCommand::get::<T>(value);
                self.set_command(c)
            },
            EepromMode::HandleCommand(command) => self.handle_command(command, value),
        };
        self.mode = next;
        if !hold {
            self.mode = EepromMode::ReadCommand;
        }
    }
}

/// A flash instruction, with the address bytes still to come and the
/// address gathered so far.
#[derive(Clone, Copy, PartialEq, Eq, Structural, Debug)]
pub enum FlashInstr {
    Read(usize, usize),
    ReadStatus,
    WriteEnable,
    PageWrite(usize, usize),
}

/// Whether the chip waits for an instruction byte or is inside one.
#[derive(Clone, Copy, PartialEq, Eq, Structural, Debug)]
pub enum FlashMode {
    ReadInstr,
    HandleInstr(FlashInstr),
}

/// Whether `value` is a flash instruction byte.
pub open spec fn flash_instr_ok(value: u8) -> bool {
    value == 0x03 || value == 0x05 || value == 0x06 || value == 0x0A
}

/// The instruction a byte starts; reads and page writes take three
/// address bytes.
pub open spec fn flash_instr_of(value: u8) -> FlashInstr {
    if value == 0x03 {
        FlashInstr::Read(3, 0)
    } else if value == 0x05 {
        FlashInstr::ReadStatus
    } else if value == 0x06 {
        FlashInstr::WriteEnable
    } else {
        FlashInstr::PageWrite(3, 0)
    }
}

impl FlashInstr {
    /// Decodes an instruction byte.
    pub fn get(value: u8) -> (r: FlashInstr)
        requires
            flash_instr_ok(value),
        ensures
            r == flash_instr_of(value),
    {
        if value == 0x03 {
            FlashInstr::Read(3, 0)
        } else if value == 0x05 {
            FlashInstr::ReadStatus
        } else if value == 0x06 {
            FlashInstr::WriteEnable
        } else {
            FlashInstr::PageWrite(3, 0)
        }
    }
}

/// A flash save chip.
pub struct Flash {
    pub mem: Vec<u8>,
    pub mode: FlashMode,
    pub value: u8,
    pub write_enable: bool,
    pub unsaved: bool,
}

/// Whether the byte `value` can be handled inside instruction `i` on a
/// memory of `len` bytes.
pub open spec fn flash_step_ok(i: FlashInstr, value: u8, len: int) -> bool {
    match i {
        FlashInstr::Read(0, addr) => value == 0 && addr < len,
        FlashInstr::PageWrite(0, addr) => addr < len,
        FlashInstr::ReadStatus => value == 0,
        FlashInstr::WriteEnable => false,
        _ => true,
    }
}

impl Flash {
    /// An erased flash (all bytes 0xFF) of `mem_size` bytes.
    pub fn new(mem_size: usize) -> (r: Flash)
        ensures
            r.mem@ == Seq::new(mem_size as nat, |_i: int| 0xFFu8),
            r.mode == FlashMode::ReadInstr,
            r.value == 0,
            !r.write_enable,
            !r.unsaved,
    {
        let mem = vec![0xFFu8; mem_size];
        assert(mem@ =~= Seq::new(mem_size as nat, |_i: int| 0xFFu8));
        Flash { mem, mode: FlashMode::ReadInstr, value: 0, write_enable: false, unsaved: false }
    }

    /// Starts an instruction: write enable takes effect at once.
    fn set_instr(&mut self, instr: FlashInstr) -> (m: FlashMode)
        ensures
            instr == FlashInstr::WriteEnable ==> m == FlashMode::ReadInstr && final(self).write_enable,
            instr != FlashInstr::WriteEnable ==> m == FlashMode::HandleInstr(instr)
                && final(self).write_enable == old(self).write_enable,
            final(self).mem == old(self).mem,
            final(self).value == old(self).value,
            final(self).mode == old(self).mode,
            final(self).unsaved == old(self).unsaved,
    {
        match instr {
            FlashInstr::WriteEnable => {
                self.write_enable = true;
                FlashMode::ReadInstr
            },
            _ => FlashMode::HandleInstr(instr),
        }
    }

    /// Handles one byte inside `instr`: address bytes are shifted in, then
    /// each data byte reads one memory byte, or (page write) latches the
    /// old byte and stores the new one; a status read ends the
    /// instruction.
    fn handle_instr(&mut self, instr: FlashInstr, value: u8) -> (m: FlashMode)
        requires
            flash_step_ok(instr, value, old(self).mem.len() as int),
        ensures
            final(self).write_enable == old(self).write_enable,
            final(self).mode == old(self).mode,
            final(self).unsaved == (old(self).unsaved || instr matches FlashInstr::PageWrite(0, _)),
            match instr {
                FlashInstr::Read(0, addr) => {
                    &&& final(self).value == old(self).mem@[addr as int]
                    &&& final(self).mem == old(self).mem
                    &&& m == FlashMode::HandleInstr(FlashInstr::Read(0, (addr + 1) as usize))
                },
                FlashInstr::Read(n, addr) => {
                    &&& final(self).value == old(self).value
                    &&& final(self).mem == old(self).mem
                    &&& m == FlashMode::HandleInstr(
                        FlashInstr::Read((n - 1) as usize, (addr << 8usize) | (value as usize)),
                    )
                },
                FlashInstr::PageWrite(0, addr) => {
                    &&& final(self).value == old(self).mem@[addr as int]
                    &&& final(self).mem@ == old(self).mem@.update(addr as int, value)
                    &&& m == FlashMode::HandleInstr(FlashInstr::PageWrite(0, (addr + 1) as usize))
                },
                FlashInstr::PageWrite(n, addr) => {
                    &&& final(self).value == old(self).value
                    &&& final(self).mem == old(self).mem
                    &&& m == FlashMode::HandleInstr(
                        FlashInstr::PageWrite((n - 1) as usize, (addr << 8usize) | (value as usize)),
                    )
                },
                FlashInstr::ReadStatus => {
                    &&& final(self).value == (if old(self).write_enable { 2u8 } else { 0u8 })
                    &&& final(self).mem == old(self).mem
                    &&& m == FlashMode::ReadInstr
                },
                FlashInstr::WriteEnable => true,
            },
    {
        match instr {
            FlashInstr::Read(0, addr) => {
                self.value = self.mem[addr];
                FlashMode::HandleInstr(FlashInstr::Read(0, addr + 1))
            },
            FlashInstr::Read(n, addr) => {
                FlashMode::HandleInstr(FlashInstr::Read(n - 1, (addr << 8usize) | (value as usize)))
            },
            FlashInstr::ReadStatus => {
                self.value = if self.write_enable { 2 } else { 0 };
                FlashMode::ReadInstr
            },
            FlashInstr::WriteEnable => FlashMode::ReadInstr,
            FlashInstr::PageWrite(0, addr) => {
                self.value = self.mem[addr];
                self.mem.set(addr, value);
                self.unsaved = true;
                FlashMode::HandleInstr(FlashInstr::PageWrite(0, addr + 1))
            },
            FlashInstr::PageWrite(n, addr) => {
                FlashMode::HandleInstr(
                    FlashInstr::PageWrite(n - 1, (addr << 8usize) | (value as usize)),
                )
            },
        }
    }
}

/// One byte handled inside flash instruction `i`: the memory, the next
/// mode and the output byte after it.
pub open spec fn flash_step(i: FlashInstr, value: u8, mem: Seq<u8>, out: u8, write_enable: bool) -> (Seq<u8>, FlashMode, u8) {
    match i {
        FlashInstr::Read(n, addr) => if n == 0 {
            (mem, FlashMode::HandleInstr(FlashInstr::Read(0, (addr + 1) as usize)), mem[addr as int])
        } else {
            (mem, FlashMode::HandleInstr(FlashInstr::Read((n - 1) as usize, (addr << 8usize) | (value as usize))), out)
        },
        FlashInstr::PageWrite(n, addr) => if n == 0 {
            (
                mem.update(addr as int, value),
                FlashMode::HandleInstr(FlashInstr::PageWrite(0, (addr + 1) as usize)),
                mem[addr as int],
            )
        } else {
            (
                mem,
                FlashMode::HandleInstr(FlashInstr::PageWrite((n - 1) as usize, (addr << 8usize) | (value as usize))),
                out,
            )
        },
        FlashInstr::ReadStatus => (mem, FlashMode::ReadInstr, if write_enable {
            2u8
        } else {
            0u8
        }),
        FlashInstr::WriteEnable => (mem, FlashMode::ReadInstr, out),
    }
}

/// A flash after clocking `value` in: an instruction byte starts the
/// instruction (write enable at once), a byte inside an instruction is
/// handled by it, and releasing the chip returns it to waiting. The
/// memory, mode, output byte and write enable after it.
pub open spec fn flash_next(f: Flash, hold: bool, value: u8) -> (Seq<u8>, FlashMode, u8, bool) {
    match f.mode {
        FlashMode::ReadInstr => {
            let i = flash_instr_of(value);
            let m = if i == FlashInstr::WriteEnable {
                FlashMode::ReadInstr
            } else {
                FlashMode::HandleInstr(i)
            };
            (f.mem@, if hold {
                m
            } else {
                FlashMode::ReadInstr
            }, f.value, f.write_enable || i == FlashInstr::WriteEnable)
        },
        FlashMode::HandleInstr(i) => {
            let (mem, m, out) = flash_step(i, value, f.mem@, f.value, f.write_enable);
            (mem, if hold {
                m
            } else {
                FlashMode::ReadInstr
            }, out, f.write_enable)
        },
    }
}

impl Backup for Flash {
    open spec fn write_ok(&self, hold: bool, value: u8) -> bool {
        match self.mode {
            FlashMode::ReadInstr => flash_instr_ok(value),
            FlashMode::HandleInstr(i) => flash_step_ok(i, value, self.mem.len() as int),
        }
    }

    open spec fn chip_mem(&self) -> Seq<u8> {
        self.mem@
    }

    open spec fn chip_regs(&self) -> ChipRegs {
        ChipRegs::Flash(self.mode, self.value, self.write_enable)
    }

    open spec fn bus_byte(&self) -> u8 {
        self.value
    }

    open spec fn mem_after(&self, hold: bool, value: u8) -> Seq<u8> {
        flash_next(*self, hold, value).0
    }

    open spec fn regs_after(&self, hold: bool, value: u8) -> ChipRegs {
        let n = flash_next(*self, hold, value);
        ChipRegs::Flash(n.1, n.2, n.3)
    }

    open spec fn is_dirty(&self) -> bool {
        self.unsaved
    }

    /// A data byte of a page write stores.
    open spec fn stores(&self, hold: bool, value: u8) -> bool {
        self.mode matches FlashMode::HandleInstr(FlashInstr::PageWrite(0, _))
    }

    open spec fn has_mem(&self) -> bool {
        true
    }

    fn dirty(&mut self) -> (r: bool) {
        let r = self.unsaved;
        self.unsaved = false;
        r
    }

    fn mem(&self) -> (r: &[u8]) {
        self.mem.as_slice()
    }

    fn read(&self) -> (r: u8)
        ensures
            r == self.value,
    {
        self.value
    }

    /// Clocks in one byte: it starts or continues an instruction, and
    /// releasing the chip (`!hold`) returns it to waiting for an
    /// instruction.
    fn write(&mut self, hold: bool, value: u8)
        ensures
            !hold ==> final(self).mode == FlashMode::ReadInstr,
            old(self).mode == FlashMode::ReadInstr && hold ==> final(self).mode == (if flash_instr_of(
                value,
            ) == FlashInstr::WriteEnable {
                FlashMode::ReadInstr
            } else {
                FlashMode::HandleInstr(flash_instr_of(value))
            }),
            old(self).mode == FlashMode::ReadInstr ==> final(self).write_enable == (
                old(self).write_enable || value == 0x06) && final(self).mem == old(self).mem,
    {
        let mode = self.mode;
        let next = match mode {
            FlashMode::ReadInstr => {
                let i = FlashInstr::get(value);
                self.set_instr(i)
            },
            FlashMode::HandleInstr(instr) => self.handle_instr(instr, value),
        };
        self.mode = next;
        if !hold {
            self.mode = FlashMode::ReadInstr;
        }
    }
}

/// One entry of a game database: a game code and the kind of save chip
/// the game has, as an index into a table of sizes.
#[derive(Clone, Copy, Debug)]
pub struct GameInfo {
    pub game_code: u32,
    pub sram_type: usize,
}

/// The save chip to build for a game, with its size in bytes.
#[derive(Clone, Copy, PartialEq, Eq, Structural, Debug)]
pub enum BackupKind {
    EepromSmall(usize),
    EepromNormal(usize),
    Flash(usize),
    NoBackup,
}

/// The little-endian value of four bytes.
pub open spec fn le_u32(b: Seq<u8>) -> u32 {
    (b[0] + b[1] * 0x100 + b[2] * 0x1_0000 + b[3] * 0x100_0000) as u32
}

/// Whether entry `i` is the first in `db` with game code `code`.
pub open spec fn first_match(db: Seq<GameInfo>, code: u32, i: int) -> bool {
    &&& 0 <= i < db.len()
    &&& db[i].game_code == code
    &&& forall|j: int| 0 <= j < i ==> db[j].game_code != code
}

/// The chip for save type `t`: type 1 is a small EEPROM, 2-4 an EEPROM,
/// 5-8 a flash, each of size `sizes[t]`.
pub open spec fn kind_of(t: usize, sizes: Seq<usize>) -> BackupKind {
    if t == 1 {
        BackupKind::EepromSmall(sizes[t as int])
    } else if 2 <= t <= 4 {
        BackupKind::EepromNormal(sizes[t as int])
    } else {
        BackupKind::Flash(sizes[t as int])
    }
}

/// Picks the save chip of a game from its header: the first entry of
/// `db` with the header's game code gives the type, and a game missing
/// from `db` has none.
pub fn detect_type(header: &Header, db: &[GameInfo], sizes: &[usize]) -> (r: BackupKind)
    requires
        forall|i: int| #[trigger]
            first_match(db@, le_u32(header.game_code@), i) ==> 1 <= db@[i].sram_type <= 8
                && db@[i].sram_type < sizes@.len(),
    ensures
        (forall|i: int| 0 <= i < db@.len() ==> db@[i].game_code != le_u32(header.game_code@)) ==> r
            == BackupKind::NoBackup,
        forall|i: int| #[trigger]
            first_match(db@, le_u32(header.game_code@), i) ==> r == kind_of(db@[i].sram_type, sizes@),
{
    let gc = header.game_code;
    let game_code: u32 = gc[0] as u32 + gc[1] as u32 * 0x100 + gc[2] as u32 * 0x1_0000 + gc[3] as u32
        * 0x100_0000;
    assert(game_code == le_u32(header.game_code@));
    let mut pos: usize = 0;
    while pos < db.len()
        invariant
            pos <= db@.len(),
            game_code == le_u32(header.game_code@),
            forall|j: int| 0 <= j < pos ==> db@[j].game_code != game_code,
            forall|i: int| #[trigger]
                first_match(db@, game_code, i) ==> 1 <= db@[i].sram_type <= 8 && db@[i].sram_type
                    < sizes@.len(),
        decreases db@.len() - pos,
    {
        if db[pos].game_code == game_code {
            assert(first_match(db@, game_code, pos as int));
            let t = db[pos].sram_type;
            let size = sizes[t];
            proof {
                assert forall|i: int| #[trigger] first_match(db@, game_code, i) implies i == pos by {
                    if i < pos {
                    } else if i > pos {
                        assert(db@[pos as int].game_code == game_code);
                    }
                }
            }
            if t == 1 {
                return BackupKind::EepromSmall(size);
            } else if t <= 4 {
                return BackupKind::EepromNormal(size);
            } else {
                return BackupKind::Flash(size);
            }
        }
        pos = pos + 1;
    }
    BackupKind::NoBackup
}

} // verus!

