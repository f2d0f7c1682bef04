//! The real-time clock: its date and time registers in BCD, its alarms,
//! and the serial protocol through which the ARM7 reads and writes them.
use vstd::prelude::*;
use crate::bits::lemma_mask_bounds;

verus! {

/// The command code in the high nibble of every command byte.
pub const COMMAND_CODE: u8 = 0b0110;

/// Whether `v` is a two-digit BCD number.
pub open spec fn bcd_ok(v: u8) -> bool {
    v & 0xF < 0xA && v >> 4u8 < 0xA
}

/// The number that a BCD byte stands for.
pub open spec fn bcd_num(v: u8) -> int {
    (v >> 4u8) * 10 + (v & 0xF)
}

/// A BCD counter that wraps from `max` back to `initial`.
#[derive(Clone, Copy, Debug)]
pub struct BCD {
    pub initial: u8,
    pub value: u8,
    pub max: u8,
}

/// The counter's invariant: both its value and its initial value are BCD,
/// and its maximum is at most 99.
pub open spec fn bcd_wf(b: BCD) -> bool {
    bcd_ok(b.initial) && bcd_ok(b.value) && b.max <= 0x99
}

/// Counting a BCD byte other than 99 up by one: add one, and carry a low
/// digit of ten into the high digit.
proof fn lemma_bcd_step(v: u8, next: u8)
    by (bit_vector)
    requires
        bcd_ok(v),
        next == v + 1,
    ensures
        next & 0xF0 <= 0x90,
        v == 0x99 ==> (next & 0xF0) + 0x10 == 0xA0 && next & 0xF > 0x9,
        v != 0x99 && next & 0xF > 0x9 ==> bcd_ok(((next & 0xF0) + 0x10) as u8) && bcd_num(
            ((next & 0xF0) + 0x10) as u8,
        ) == bcd_num(v) + 1,
        next & 0xF <= 0x9 ==> bcd_ok(next) && bcd_num(next) == bcd_num(v) + 1,
{
}

impl BCD {
    pub fn new(initial: u8, max: u8) -> (r: BCD)
        ensures
            r.initial == initial && r.value == initial && r.max == max,
    {
        BCD { initial, value: initial, max }
    }

    /// Counts up by one, wrapping past the counter's maximum; returns
    /// whether it wrapped.
    pub fn inc(&mut self) -> (wrapped: bool)
        requires
            bcd_wf(*old(self)),
        ensures
            bcd_wf(*final(self)),
            wrapped == (old(self).value + 1 > old(self).max),
            bcd_num(final(self).value) == if wrapped {
                bcd_num(old(self).initial)
            } else {
                bcd_num(old(self).value) + 1
            },
            final(self).initial == old(self).initial && final(self).max == old(self).max,
    {
        let max = self.max;
        self.inc_with_max(max)
    }

    /// Counts up by one, wrapping past `max` back to the initial value;
    /// returns whether it wrapped. The count is in decimal: one more than
    /// the number, or the initial number after a wrap.
    pub fn inc_with_max(&mut self, max: u8) -> (wrapped: bool)
        requires
            bcd_ok(old(self).initial),
            bcd_ok(old(self).value),
        ensures
            wrapped == (old(self).value + 1 > max),
            wrapped ==> final(self).value == old(self).initial,
            !wrapped && old(self).value != 0x99 ==> bcd_ok(final(self).value) && bcd_num(final(self).value)
                == bcd_num(old(self).value) + 1,
            !wrapped && old(self).value == 0x99 ==> final(self).value == 0xA0,
            final(self).initial == old(self).initial && final(self).max == old(self).max,
    {
        let v = self.value;
        if v >= max {
            self.value = self.initial;
            true
        } else {
            let next = v + 1;
            proof {
                lemma_bcd_step(v, next);
            }
            self.value = if next & 0xF > 0x9 {
                (next & 0xF0) + 0x10
            } else {
                next
            };
            false
        }
    }

    pub fn value(&self) -> (r: u8)
        ensures
            r == self.value,
    {
        self.value
    }

    /// Sets the counter to a BCD value.
    pub fn set_value(&mut self, value: u8)
        requires
            bcd_ok(value),
        ensures
            *final(self) == (BCD { value, ..*old(self) }),
    {
        self.value = value;
    }
}

/// An alarm: day of week, hour and minute, each with its compare flag.
#[derive(Clone, Copy, Debug)]
pub struct AlarmReg {
    pub day: u8,
    pub cmp_spec_day: bool,
    pub hour: u8,
    pub is_pm: bool,
    pub cmp_spec_hour: bool,
    pub min: u8,
    pub cmp_spec_min: bool,
}

/// Byte `byte` of an alarm: day, hour, minute, each with its compare flag
/// in bit 7 (and the PM flag in bit 6 of the hour).
pub open spec fn alarm_byte(a: AlarmReg, byte: u8) -> u8 {
    let c: u8 = if byte == 0 {
        if a.cmp_spec_day { 1 } else { 0 }
    } else if byte == 1 {
        if a.cmp_spec_hour { 1 } else { 0 }
    } else {
        if a.cmp_spec_min { 1 } else { 0 }
    };
    if byte == 0 {
        (c << 7u8) | a.day
    } else if byte == 1 {
        (c << 7u8) | ((if a.is_pm { 1u8 } else { 0u8 }) << 6u8) | a.hour
    } else {
        (c << 7u8) | a.min
    }
}

/// The alarm after writing `value` to byte `byte`.
pub open spec fn alarm_written(a: AlarmReg, byte: u8, value: u8) -> AlarmReg {
    if byte == 0 {
        AlarmReg { cmp_spec_day: (value >> 7u8) & 0x1 != 0, day: value & 0x7, ..a }
    } else if byte == 1 {
        AlarmReg {
            cmp_spec_hour: (value >> 7u8) & 0x1 != 0,
            is_pm: (value >> 6u8) & 0x1 != 0,
            hour: value & 0x3F,
            ..a
        }
    } else {
        AlarmReg { cmp_spec_min: (value >> 7u8) & 0x1 != 0, min: value & 0x7F, ..a }
    }
}

impl AlarmReg {
    pub fn new() -> (r: AlarmReg)
        ensures
            r.day == 0 && r.hour == 0 && r.min == 0,
            !r.cmp_spec_day && !r.is_pm && !r.cmp_spec_hour && !r.cmp_spec_min,
    {
        AlarmReg {
            day: 0,
            cmp_spec_day: false,
            hour: 0,
            is_pm: false,
            cmp_spec_hour: false,
            min: 0,
            cmp_spec_min: false,
        }
    }

    pub fn read(&self, byte: u8) -> (r: u8)
        requires
            byte < 3,
        ensures
            r == alarm_byte(*self, byte),
    {
        let flag = |b: bool| -> (r: u8)
            ensures
                r == (if b { 1u8 } else { 0u8 }),
            {
                if b {
                    1u8
                } else {
                    0u8
                }
            };
        if byte == 0 {
            (flag(self.cmp_spec_day) << 7u8) | self.day
        } else if byte == 1 {
            (flag(self.cmp_spec_hour) << 7u8) | (flag(self.is_pm) << 6u8) | self.hour
        } else {
            (flag(self.cmp_spec_min) << 7u8) | self.min
        }
    }

    pub fn write(&mut self, byte: u8, value: u8)
        requires
            byte < 3,
        ensures
            *final(self) == alarm_written(*old(self), byte, value),
    {
        if byte == 0 {
            self.cmp_spec_day = (value >> 7u8) & 0x1 != 0;
            self.day = value & 0x7;
        } else if byte == 1 {
            self.cmp_spec_hour = (value >> 7u8) & 0x1 != 0;
            self.is_pm = (value >> 6u8) & 0x1 != 0;
            self.hour = value & 0x3F;
        } else {
            self.cmp_spec_min = (value >> 7u8) & 0x1 != 0;
            self.min = value & 0x7F;
        }
    }
}

/// Reading an alarm byte after writing it gives back the written bits that
/// the byte holds: three for the day, seven for the hour (with the PM
/// flag) and the minute, and the compare flag.
pub proof fn lemma_alarm_roundtrip(a: AlarmReg, byte: u8, value: u8)
    requires
        byte < 3,
    ensures
        alarm_byte(alarm_written(a, byte, value), byte) == value & (if byte == 0 {
            0x87u8
        } else {
            0xFFu8
        }),
{
    let c: u8 = if (value >> 7u8) & 0x1 != 0 { 1 } else { 0 };
    let p: u8 = if (value >> 6u8) & 0x1 != 0 { 1 } else { 0 };
    assert((c << 7u8) | (value & 0x7) == value & 0x87) by (bit_vector)
        requires
            c == (if (value >> 7u8) & 0x1 != 0 { 1u8 } else { 0u8 }),
    ;
    assert((c << 7u8) | (p << 6u8) | (value & 0x3F) == value & 0xFF) by (bit_vector)
        requires
            c == (if (value >> 7u8) & 0x1 != 0 { 1u8 } else { 0u8 }),
            p == (if (value >> 6u8) & 0x1 != 0 { 1u8 } else { 0u8 }),
    ;
    assert((c << 7u8) | (value & 0x7F) == value & 0xFF) by (bit_vector)
        requires
            c == (if (value >> 7u8) & 0x1 != 0 { 1u8 } else { 0u8 }),
    ;
    let w = alarm_written(a, byte, value);
    if byte == 0 {
        assert(alarm_byte(w, byte) == (c << 7u8) | (value & 0x7));
    } else if byte == 1 {
        assert(alarm_byte(w, byte) == (c << 7u8) | (p << 6u8) | (value & 0x3F));
    } else {
        assert(alarm_byte(w, byte) == (c << 7u8) | (value & 0x7F));
    }
}

/// The clock's date, time, status and alarm registers.
#[derive(Clone, Copy, Debug)]
pub struct DateTime {
    pub is_24h: bool,
    pub gp_bits1: u8,
    pub int_mode: u8,
    pub gp_bits2: u8,
    pub int2_enable: bool,
    pub test_mode: bool,
    pub year: BCD,
    pub month: BCD,
    pub day: BCD,
    pub day_of_week: BCD,
    pub is_pm: bool,
    pub hour: BCD,
    pub minute: BCD,
    pub second: BCD,
    pub alarm1: AlarmReg,
    pub alarm2: AlarmReg,
    pub steady_int: u8,
    pub clock_adjust: u8,
}

/// The registers' invariant: every counter is a well-formed BCD counter.
pub open spec fn date_time_wf(dt: DateTime) -> bool {
    &&& bcd_wf(dt.year)
    &&& bcd_wf(dt.month)
    &&& bcd_wf(dt.day)
    &&& bcd_wf(dt.day_of_week)
    &&& bcd_wf(dt.hour)
    &&& bcd_wf(dt.minute)
    &&& bcd_wf(dt.second)
}

/// Byte `byte` of the date and time: year, month, day, day of week, hour
/// (with the PM flag in bit 6, which in 24-hour mode says whether the hour
/// is 12 or later), minute, second.
pub open spec fn date_time_byte(dt: DateTime, byte: u8) -> u8 {
    if byte == 0 {
        dt.year.value
    } else if byte == 1 {
        dt.month.value
    } else if byte == 2 {
        dt.day.value
    } else if byte == 3 {
        dt.day_of_week.value
    } else if byte == 4 {
        let pm = if dt.is_24h { dt.hour.value >= 0x12 } else { dt.is_pm };
        ((if pm { 1u8 } else { 0u8 }) << 6u8) | dt.hour.value
    } else if byte == 5 {
        dt.minute.value
    } else {
        dt.second.value
    }
}

/// The date and time after writing BCD `value` to byte `byte`; writing the
/// hour in 12-hour mode also sets the PM flag from bit 6.
pub open spec fn date_time_written(dt: DateTime, byte: u8, value: u8) -> DateTime {
    if byte == 0 {
        DateTime { year: BCD { value, ..dt.year }, ..dt }
    } else if byte == 1 {
        DateTime { month: BCD { value, ..dt.month }, ..dt }
    } else if byte == 2 {
        DateTime { day: BCD { value, ..dt.day }, ..dt }
    } else if byte == 3 {
        DateTime { day_of_week: BCD { value, ..dt.day_of_week }, ..dt }
    } else if byte == 4 {
        DateTime {
            hour: BCD { value, ..dt.hour },
            is_pm: if dt.is_24h { dt.is_pm } else { (value >> 6u8) & 0x1 != 0 },
            ..dt
        }
    } else if byte == 5 {
        DateTime { minute: BCD { value, ..dt.minute }, ..dt }
    } else {
        DateTime { second: BCD { value, ..dt.second }, ..dt }
    }
}

/// Reading a date or time byte after writing it gives back the written
/// byte, in 12-hour mode; in 24-hour mode the hour's bit 6 is computed from
/// the hour instead, and every other byte still reads back.
pub proof fn lemma_date_time_roundtrip(dt: DateTime, byte: u8, value: u8)
    requires
        byte < 7,
        !dt.is_24h || byte != 4,
    ensures
        date_time_byte(date_time_written(dt, byte, value), byte) == value,
{
    if byte == 4 {
        let p: u8 = if (value >> 6u8) & 0x1 != 0 { 1 } else { 0 };
        assert((p << 6u8) | value == value) by (bit_vector)
            requires
                p == (if (value >> 6u8) & 0x1 != 0 { 1u8 } else { 0u8 }),
        ;
    }
}

/// Status register 1: the general-purpose bits and the 24-hour flag.
pub open spec fn status_reg1(dt: DateTime) -> u8 {
    (dt.gp_bits1 << 2u8) | ((if dt.is_24h { 1u8 } else { 0u8 }) << 1u8)
}

/// Status register 2: test mode, second interrupt enable, general-purpose
/// bits and interrupt mode.
pub open spec fn status_reg2(dt: DateTime) -> u8 {
    ((if dt.test_mode { 1u8 } else { 0u8 }) << 7u8) | ((if dt.int2_enable { 1u8 } else { 0u8 }) << 6u8)
        | (dt.gp_bits2 << 4u8) | dt.int_mode
}

impl DateTime {
    /// The registers at power-on.
    pub open spec fn new_spec() -> DateTime {
        DateTime {
            is_24h: false,
            gp_bits1: 0,
            int_mode: 0,
            gp_bits2: 0,
            int2_enable: false,
            test_mode: false,
            year: BCD { initial: 0, value: 0, max: 0x99 },
            month: BCD { initial: 1, value: 1, max: 0x12 },
            day: BCD { initial: 1, value: 1, max: 0x30 },
            day_of_week: BCD { initial: 1, value: 1, max: 0x07 },
            is_pm: false,
            hour: BCD { initial: 0, value: 0, max: 0x23 },
            minute: BCD { initial: 0, value: 0, max: 0x59 },
            second: BCD { initial: 0, value: 0, max: 0x59 },
            alarm1: AlarmReg {
                day: 0,
                cmp_spec_day: false,
                hour: 0,
                is_pm: false,
                cmp_spec_hour: false,
                min: 0,
                cmp_spec_min: false,
            },
            alarm2: AlarmReg {
                day: 0,
                cmp_spec_day: false,
                hour: 0,
                is_pm: false,
                cmp_spec_hour: false,
                min: 0,
                cmp_spec_min: false,
            },
            steady_int: 0,
            clock_adjust: 0,
        }
    }

    /// The registers at power-on: 2000-01-01, day 1 of the week, midnight.
    pub fn new() -> (r: DateTime)
        ensures
            r == DateTime::new_spec(),
            date_time_wf(r),
            r.year.value == 0 && r.month.value == 1 && r.day.value == 1 && r.day_of_week.value == 1,
            r.hour.value == 0 && r.minute.value == 0 && r.second.value == 0,
            r.year.max == 0x99 && r.month.max == 0x12 && r.day.max == 0x30 && r.day_of_week.max == 0x07,
            r.hour.max == 0x23 && r.minute.max == 0x59 && r.second.max == 0x59,
            !r.is_24h && !r.is_pm && r.int_mode == 0 && r.steady_int == 0 && r.clock_adjust == 0,
    {
        proof {
            assert(bcd_ok(0) && bcd_ok(1)) by (bit_vector);
        }
        DateTime {
            is_24h: false,
            gp_bits1: 0,
            int_mode: 0,
            gp_bits2: 0,
            int2_enable: false,
            test_mode: false,
            year: BCD::new(0x0, 0x99),
            month: BCD::new(0x1, 0x12),
            day: BCD::new(0x1, 0x30),
            day_of_week: BCD::new(0x1, 0x07),
            is_pm: false,
            hour: BCD::new(0x0, 0x23),
            minute: BCD::new(0x0, 0x59),
            second: BCD::new(0x0, 0x59),
            alarm1: AlarmReg::new(),
            alarm2: AlarmReg::new(),
            steady_int: 0,
            clock_adjust: 0,
        }
    }

    /// Byte `byte` of the date and time.
    pub fn read(&self, byte: u8) -> (r: u8)
        requires
            byte < 7,
        ensures
            r == date_time_byte(*self, byte),
    {
        if byte == 0 {
            self.year.value()
        } else if byte == 1 {
            self.month.value()
        } else if byte == 2 {
            self.day.value()
        } else if byte == 3 {
            self.day_of_week.value()
        } else if byte == 4 {
            let hour = self.hour.value();
            let bit_6 = if self.is_24h { hour >= 0x12 } else { self.is_pm };
            ((bit_6 as u8) << 6u8) | hour
        } else if byte == 5 {
            self.minute.value()
        } else {
            self.second.value()
        }
    }

    pub fn read_status_reg1(&self) -> (r: u8)
        ensures
            r == status_reg1(*self),
    {
        (self.gp_bits1 << 2u8) | ((self.is_24h as u8) << 1u8)
    }

    pub fn read_status_reg2(&self) -> (r: u8)
        ensures
            r == status_reg2(*self),
    {
        ((self.test_mode as u8) << 7u8) | ((self.int2_enable as u8) << 6u8) | (self.gp_bits2 << 4u8)
            | self.int_mode
    }

    /// Writes BCD `value` to byte `byte` of the date and time.
    pub fn write(&mut self, byte: u8, value: u8)
        requires
            byte < 7,
            bcd_ok(value),
            date_time_wf(*old(self)),
        ensures
            *final(self) == date_time_written(*old(self), byte, value),
            date_time_wf(*final(self)),
    {
        if byte == 0 {
            self.year.set_value(value);
        } else if byte == 1 {
            self.month.set_value(value);
        } else if byte == 2 {
            self.day.set_value(value);
        } else if byte == 3 {
            self.day_of_week.set_value(value);
        } else if byte == 4 {
            self.hour.set_value(value);
            if !self.is_24h {
                self.is_pm = (value >> 6u8) & 0x1 != 0;
            }
        } else if byte == 5 {
            self.minute.set_value(value);
        } else {
            self.second.set_value(value);
        }
    }

    /// Status register 1: bit 1 selects 24-hour mode, bits 2-3 are general
    /// purpose; bit 0, a reset, must be clear.
    pub fn write_status_reg1(&mut self, value: u8)
        requires
            value & 0x1 == 0,
        ensures
            *final(self) == (DateTime {
                is_24h: (value >> 1u8) & 0x1 != 0,
                gp_bits1: (value >> 2u8) & 0x3,
                ..*old(self)
            }),
    {
        self.is_24h = (value >> 1u8) & 0x1 != 0;
        self.gp_bits1 = (value >> 2u8) & 0x3;
    }

    /// Status register 2: interrupt mode (bits 0-1), general-purpose bits
    /// (3-4), second interrupt enable (6) and test mode (7).
    pub fn write_status_reg2(&mut self, value: u8)
        ensures
            *final(self) == (DateTime {
                int_mode: value & 0x3,
                gp_bits2: (value >> 3u8) & 0x3,
                int2_enable: (value >> 6u8) & 0x1 != 0,
                test_mode: (value >> 7u8) & 0x1 != 0,
                ..*old(self)
            }),
    {
        self.int_mode = value & 0x3;
        self.gp_bits2 = (value >> 3u8) & 0x3;
        self.int2_enable = (value >> 6u8) & 0x1 != 0;
        self.test_mode = (value >> 7u8) & 0x1 != 0;
    }
}

impl DateTime {
    /// Writes `value` at `p`; returns the registers after `p` and whether
    /// `p` ends its group.
    pub fn write_parameter(&mut self, parameter: Parameter, value: u8) -> (r: (Parameter, bool))
        requires
            parameter_write_ok(*old(self), parameter, value),
            date_time_wf(*old(self)),
        ensures
            r.0 == parameter_next(*old(self), parameter),
            r.1 == parameter_last(*old(self), parameter),
            *final(self) == parameter_written(*old(self), parameter, value),
            date_time_wf(*final(self)),
    {
        match parameter {
            Parameter::StatusReg1 => {
                self.write_status_reg1(value);
                (Parameter::StatusReg1, true)
            },
            Parameter::StatusReg2 => {
                self.write_status_reg2(value);
                (Parameter::StatusReg2, true)
            },
            Parameter::DateTime(byte) => {
                self.write(byte, value);
                (Parameter::DateTime(byte + 1), byte == 7 - 1)
            },
            Parameter::Time(byte) => {
                self.write(byte + 4, value);
                (Parameter::Time(byte + 1), byte == 3 - 1)
            },
            Parameter::Alarm1FreqDuty(byte) => {
                if byte == 0 && self.int_mode & 0x1 == 0 {
                    self.steady_int = value;
                    (Parameter::Alarm1FreqDuty(0), true)
                } else {
                    let mut alarm = self.alarm1;
                    alarm.write(byte, value);
                    self.alarm1 = alarm;
                    (Parameter::Alarm1FreqDuty(byte + 1), byte == 3 - 1)
                }
            },
            Parameter::Alarm2(byte) => {
                let mut alarm = self.alarm2;
                alarm.write(byte, value);
                self.alarm2 = alarm;
                (Parameter::Alarm2(byte + 1), byte == 3 - 1)
            },
            Parameter::ClockAdjust => {
                self.clock_adjust = value;
                (Parameter::ClockAdjust, true)
            },
        }
    }
}

/// Which registers a command reads or writes, and the byte it is at.
#[derive(Clone, Copy, PartialEq, Eq, Structural, Debug)]
pub enum Parameter {
    StatusReg1,
    StatusReg2,
    DateTime(u8),
    Time(u8),
    Alarm1FreqDuty(u8),
    Alarm2(u8),
    ClockAdjust,
}

impl Parameter {
    /// The registers that command number `value` selects.
    pub fn from(value: u8) -> (r: Parameter)
        requires
            value < 7,
        ensures
            r == parameter_of(value),
    {
        if value == 0 {
            Parameter::StatusReg1
        } else if value == 1 {
            Parameter::StatusReg2
        } else if value == 2 {
            Parameter::DateTime(0)
        } else if value == 3 {
            Parameter::Time(0)
        } else if value == 4 {
            Parameter::Alarm1FreqDuty(0)
        } else if value == 5 {
            Parameter::Alarm2(0)
        } else {
            Parameter::ClockAdjust
        }
    }
}

/// The registers that command number `value` selects.
pub open spec fn parameter_of(value: u8) -> Parameter {
    if value == 0 {
        Parameter::StatusReg1
    } else if value == 1 {
        Parameter::StatusReg2
    } else if value == 2 {
        Parameter::DateTime(0)
    } else if value == 3 {
        Parameter::Time(0)
    } else if value == 4 {
        Parameter::Alarm1FreqDuty(0)
    } else if value == 5 {
        Parameter::Alarm2(0)
    } else {
        Parameter::ClockAdjust
    }
}

/// Whether the alarm 1 register at `byte` is the steady interrupt
/// frequency: in interrupt modes with bit 0 clear, its first byte is.
pub open spec fn is_steady(dt: DateTime, byte: u8) -> bool {
    byte == 0 && dt.int_mode & 0x1 == 0
}

/// Whether the registers at `p` exist.
pub open spec fn parameter_ok(dt: DateTime, p: Parameter) -> bool {
    match p {
        Parameter::DateTime(b) => b < 7,
        Parameter::Time(b) => b < 3,
        Parameter::Alarm1FreqDuty(b) => is_steady(dt, b) || b < 3,
        Parameter::Alarm2(b) => b < 3,
        _ => true,
    }
}

/// Whether `value` can be written at `p`: date and time bytes are BCD,
/// and the reset bit of status register 1 is clear.
pub open spec fn parameter_write_ok(dt: DateTime, p: Parameter, value: u8) -> bool {
    &&& parameter_ok(dt, p)
    &&& match p {
        Parameter::StatusReg1 => value & 0x1 == 0,
        Parameter::DateTime(_) | Parameter::Time(_) => bcd_ok(value),
        _ => true,
    }
}

/// The byte read at `p`.
pub open spec fn parameter_byte(dt: DateTime, p: Parameter) -> u8 {
    match p {
        Parameter::StatusReg1 => status_reg1(dt),
        Parameter::StatusReg2 => status_reg2(dt),
        Parameter::DateTime(b) => date_time_byte(dt, b),
        Parameter::Time(b) => date_time_byte(dt, (b + 4) as u8),
        Parameter::Alarm1FreqDuty(b) => if is_steady(dt, b) {
            dt.steady_int
        } else {
            alarm_byte(dt.alarm1, b)
        },
        Parameter::Alarm2(b) => alarm_byte(dt.alarm2, b),
        Parameter::ClockAdjust => dt.clock_adjust,
    }
}

/// The registers after `p`: the next byte of a multi-byte group, or `p`
/// itself for single registers.
pub open spec fn parameter_next(dt: DateTime, p: Parameter) -> Parameter {
    match p {
        Parameter::DateTime(b) => Parameter::DateTime((b + 1) as u8),
        Parameter::Time(b) => Parameter::Time((b + 1) as u8),
        Parameter::Alarm1FreqDuty(b) => if is_steady(dt, b) {
            p
        } else {
            Parameter::Alarm1FreqDuty((b + 1) as u8)
        },
        Parameter::Alarm2(b) => Parameter::Alarm2((b + 1) as u8),
        _ => p,
    }
}

/// Whether `p` is the last byte of its group.
pub open spec fn parameter_last(dt: DateTime, p: Parameter) -> bool {
    match p {
        Parameter::DateTime(b) => b == 6,
        Parameter::Time(b) => b == 2,
        Parameter::Alarm1FreqDuty(b) => is_steady(dt, b) || b == 2,
        Parameter::Alarm2(b) => b == 2,
        _ => true,
    }
}

/// The registers after writing `value` at `p`.
pub open spec fn parameter_written(dt: DateTime, p: Parameter, value: u8) -> DateTime {
    match p {
        Parameter::StatusReg1 => DateTime {
            is_24h: (value >> 1u8) & 0x1 != 0,
            gp_bits1: (value >> 2u8) & 0x3,
            ..dt
        },
        Parameter::StatusReg2 => DateTime {
            int_mode: value & 0x3,
            gp_bits2: (value >> 3u8) & 0x3,
            int2_enable: (value >> 6u8) & 0x1 != 0,
            test_mode: (value >> 7u8) & 0x1 != 0,
            ..dt
        },
        Parameter::DateTime(b) => date_time_written(dt, b, value),
        Parameter::Time(b) => date_time_written(dt, (b + 4) as u8, value),
        Parameter::Alarm1FreqDuty(b) => if is_steady(dt, b) {
            DateTime { steady_int: value, ..dt }
        } else {
            DateTime { alarm1: alarm_written(dt.alarm1, b, value), ..dt }
        },
        Parameter::Alarm2(b) => DateTime { alarm2: alarm_written(dt.alarm2, b, value), ..dt },
        Parameter::ClockAdjust => DateTime { clock_adjust: value, ..dt },
    }
}

/// Whether a command reads or writes, with the byte being shifted and the
/// number of bits done.
#[derive(Clone, Copy, PartialEq, Eq, Structural, Debug)]
pub enum AccessType {
    Read(u8, usize),
    Write(u8, usize),
}

/// Where the serial protocol is: waiting for a command, shifting in its
/// eight bits, running it, or waiting for the chip select to drop.
#[derive(Clone, Copy, PartialEq, Eq, Structural, Debug)]
pub enum Mode {
    StartCmd(bool),
    SetCmd(u8, usize),
    ExecCmd(Parameter, AccessType),
    EndCmd,
}

/// The clock chip: its pins as last written, the protocol state, and its
/// registers.
#[derive(Clone, Copy, Debug)]
pub struct RTC {
    pub data: bool,
    pub sck: bool,
    pub cs: bool,
    pub sck_write: bool,
    pub data_write: bool,
    pub cs_write: bool,
    pub mode: Mode,
    pub last_byte: bool,
    pub date_time: DateTime,
}

/// The clock's invariant: its registers are well formed and a bit count
/// never passes 7.
pub open spec fn rtc_wf(r: RTC) -> bool {
    &&& date_time_wf(r.date_time)
    &&& match r.mode {
        Mode::SetCmd(_, bit) => bit <= 7,
        Mode::ExecCmd(_, AccessType::Read(_, bit)) => bit <= 7,
        Mode::ExecCmd(_, AccessType::Write(_, bit)) => bit <= 7,
        _ => true,
    }
}

/// Bit `n` of `value` as a flag.
pub open spec fn bit8(value: u8, n: u8) -> bool {
    (value >> n) & 0x1 != 0
}

/// The clock with the pins of register value `value` latched.
pub open spec fn with_pins(r: RTC, value: u8) -> RTC {
    RTC {
        cs_write: bit8(value, 6),
        sck_write: bit8(value, 5),
        data_write: bit8(value, 4),
        cs: bit8(value, 2),
        sck: bit8(value, 1),
        data: bit8(value, 0),
        ..r
    }
}

/// The command byte once its last bit `data` is shifted in.
pub open spec fn full_command(command: u8, data: bool) -> u8 {
    ((command << 1u8) | (if data { 1u8 } else { 0u8 })) as u8
}

/// Whether writing `value` to byte `byte` keeps to the protocol: the chip
/// select and clock are driven, a command starts with the chip deselected,
/// is shifted in with the data pin driven, carries the command code and
/// names registers that exist, and a written byte suits its register.
pub open spec fn rtc_write_ok(r: RTC, byte: usize, value: u8) -> bool {
    let p = with_pins(r, value);
    let falling = r.sck && !p.sck;
    byte != 1 ==> {
        &&& p.cs_write && p.sck_write
        &&& match r.mode {
            Mode::StartCmd(false) => !p.cs,
            Mode::SetCmd(command, bit) => falling ==> p.data_write && (bit != 7 ==> p.cs) && (bit == 7 ==> {
                let c = full_command(command, p.data);
                &&& (c >> 4u8) & 0xF == COMMAND_CODE
                &&& (c >> 1u8) & 0x7 < 7
                &&& c & 0x1 != 0 ==> parameter_ok(r.date_time, parameter_of((c >> 1u8) & 0x7))
            }),
            Mode::ExecCmd(param, AccessType::Read(_, 7)) => falling && !r.last_byte ==> parameter_ok(
                r.date_time,
                param,
            ),
            Mode::ExecCmd(param, AccessType::Write(b, 7)) => falling ==> parameter_write_ok(
                r.date_time,
                param,
                b | ((if p.data { 1u8 } else { 0u8 }) << 7u8),
            ) && (!r.last_byte ==> b < 0xFF),
            _ => true,
        }
    }
}

/// The clock after writing `value` to byte `byte` of its register, which
/// `rtc_write_ok` allows: the pins are latched, and on a falling clock
/// edge a command bit is shifted in, a read bit is put on the data pin, or
/// a written bit is taken from it.
pub open spec fn rtc_written(r: RTC, byte: usize, value: u8) -> RTC {
    let p = with_pins(r, value);
    let falling = r.sck && !p.sck;
    let dt = r.date_time;
    if byte == 1 {
        r
    } else {
        match r.mode {
            Mode::StartCmd(false) => RTC { mode: Mode::StartCmd(true), ..p },
            Mode::StartCmd(true) => if p.cs && p.sck {
                RTC { mode: Mode::SetCmd(0, 0), ..p }
            } else {
                p
            },
            Mode::SetCmd(command, bit) => if !falling {
                p
            } else if bit == 7 {
                let c = full_command(command, p.data);
                let param = parameter_of((c >> 1u8) & 0x7);
                if c & 0x1 != 0 {
                    RTC {
                        mode: Mode::ExecCmd(
                            parameter_next(dt, param),
                            AccessType::Read(parameter_byte(dt, param), 0),
                        ),
                        last_byte: parameter_last(dt, param),
                        ..p
                    }
                } else {
                    RTC { mode: Mode::ExecCmd(param, AccessType::Write(0, 0)), ..p }
                }
            } else {
                RTC { mode: Mode::SetCmd(full_command(command, p.data), (bit + 1) as usize), ..p }
            },
            Mode::ExecCmd(param, AccessType::Read(b, bit)) => if !falling {
                p
            } else if bit == 7 {
                if r.last_byte {
                    RTC { mode: Mode::EndCmd, data: b & 0x1 != 0, ..p }
                } else {
                    RTC {
                        mode: Mode::ExecCmd(
                            parameter_next(dt, param),
                            AccessType::Read(parameter_byte(dt, param), 0),
                        ),
                        last_byte: parameter_last(dt, param),
                        data: b & 0x1 != 0,
                        ..p
                    }
                }
            } else {
                RTC {
                    mode: Mode::ExecCmd(param, AccessType::Read(b >> 1u8, (bit + 1) as usize)),
                    data: b & 0x1 != 0,
                    ..p
                }
            },
            Mode::ExecCmd(param, AccessType::Write(b, bit)) => if !falling {
                p
            } else if bit == 7 {
                let v = b | ((if p.data { 1u8 } else { 0u8 }) << 7u8);
                RTC {
                    mode: if r.last_byte {
                        Mode::EndCmd
                    } else {
                        Mode::ExecCmd(param, AccessType::Write((b + 1) as u8, 0))
                    },
                    date_time: parameter_written(dt, param, v),
                    last_byte: parameter_last(dt, param),
                    ..p
                }
            } else {
                RTC {
                    mode: Mode::ExecCmd(
                        param,
                        AccessType::Write(b | ((if p.data { 1u8 } else { 0u8 }) << bit as u8), (bit + 1) as usize),
                    ),
                    ..p
                }
            },
            Mode::EndCmd => if !p.cs {
                RTC { mode: Mode::StartCmd(false), ..p }
            } else {
                p
            },
        }
    }
}

/// The byte read from byte `byte` of the clock's register: the direction
/// bits and the pins; the clock pin always reads 0.
pub open spec fn rtc_byte(r: RTC, byte: usize) -> u8 {
    if byte == 1 {
        0
    } else {
        let cs: u8 = if !r.cs_write && r.cs { 1 } else { 0 };
        let data: u8 = if !r.data_write && r.data { 1 } else { 0 };
        ((if r.cs_write { 1u8 } else { 0u8 }) << 6u8) | ((if r.sck_write { 1u8 } else { 0u8 }) << 5u8) | ((
        if r.data_write { 1u8 } else { 0u8 }) << 4u8) | (cs << 2u8) | data
    }
}

impl RTC {
    pub fn new() -> (r: RTC)
        ensures
            rtc_wf(r),
            r.mode == Mode::StartCmd(false),
            !r.last_byte && !r.data && !r.sck && !r.cs && !r.sck_write && !r.data_write && !r.cs_write,
            r.date_time == DateTime::new_spec(),
    {
        RTC {
            data: false,
            sck: false,
            cs: false,
            sck_write: false,
            data_write: false,
            cs_write: false,
            mode: Mode::StartCmd(false),
            last_byte: false,
            date_time: DateTime::new(),
        }
    }

    /// Reads the byte at `p`; returns it with the registers after `p`, and
    /// notes whether `p` ends its group.
    pub fn read_parameter(&mut self, parameter: Parameter) -> (r: (u8, Parameter))
        requires
            parameter_ok(old(self).date_time, parameter),
        ensures
            r.0 == parameter_byte(old(self).date_time, parameter),
            r.1 == parameter_next(old(self).date_time, parameter),
            *final(self) == (RTC { last_byte: parameter_last(old(self).date_time, parameter), ..*old(self) }),
    {
        match parameter {
            Parameter::StatusReg1 => {
                self.last_byte = true;
                (self.date_time.read_status_reg1(), Parameter::StatusReg1)
            },
            Parameter::StatusReg2 => {
                self.last_byte = true;
                (self.date_time.read_status_reg2(), Parameter::StatusReg2)
            },
            Parameter::DateTime(byte) => {
                self.last_byte = byte == 7 - 1;
                (self.date_time.read(byte), Parameter::DateTime(byte + 1))
            },
            Parameter::Time(byte) => {
                self.last_byte = byte == 3 - 1;
                (self.date_time.read(byte + 4), Parameter::Time(byte + 1))
            },
            Parameter::Alarm1FreqDuty(byte) => {
                if byte == 0 && self.date_time.int_mode & 0x1 == 0 {
                    self.last_byte = true;
                    (self.date_time.steady_int, Parameter::Alarm1FreqDuty(0))
                } else {
                    self.last_byte = byte == 3 - 1;
                    (self.date_time.alarm1.read(byte), Parameter::Alarm1FreqDuty(byte + 1))
                }
            },
            Parameter::Alarm2(byte) => {
                self.last_byte = byte == 3 - 1;
                (self.date_time.alarm2.read(byte), Parameter::Alarm2(byte + 1))
            },
            Parameter::ClockAdjust => {
                self.last_byte = true;
                (self.date_time.clock_adjust, Parameter::ClockAdjust)
            },
        }
    }

    /// Writes `value` at `p`; returns the registers after `p`, and notes
    /// whether `p` ends its group.
    pub fn write_parameter(&mut self, parameter: Parameter, value: u8) -> (r: Parameter)
        requires
            parameter_write_ok(old(self).date_time, parameter, value),
            date_time_wf(old(self).date_time),
        ensures
            r == parameter_next(old(self).date_time, parameter),
            *final(self) == (RTC {
                date_time: parameter_written(old(self).date_time, parameter, value),
                last_byte: parameter_last(old(self).date_time, parameter),
                ..*old(self)
            }),
            date_time_wf(final(self).date_time),
    {
        let mut dt = self.date_time;
        let (next, last) = dt.write_parameter(parameter, value);
        self.date_time = dt;
        self.last_byte = last;
        next
    }

    /// Byte `byte` of the clock's register.
    pub fn read(&self, byte: usize) -> (r: u8)
        ensures
            r == rtc_byte(*self, byte),
    {
        if byte == 1 {
            return 0;
        }
        let cs: u8 = if !self.cs_write { self.cs as u8 } else { 0 };
        let data: u8 = if !self.data_write { self.data as u8 } else { 0 };
        ((self.cs_write as u8) << 6u8) | ((self.sck_write as u8) << 5u8) | ((self.data_write as u8) << 4u8)
            | (cs << 2u8) | data
    }

    /// Writes byte `byte` of the clock's register: latches the pins and
    /// steps the serial protocol on a falling clock edge.
    pub fn write(&mut self, byte: usize, value: u8)
        requires
            rtc_wf(*old(self)),
            rtc_write_ok(*old(self), byte, value),
        ensures
            rtc_wf(*final(self)),
            *final(self) == rtc_written(*old(self), byte, value),
    {
        if byte == 1 {
            return;
        }
        let prev_sck = self.sck;
        self.cs_write = (value >> 6u8) & 0x1 != 0;
        self.sck_write = (value >> 5u8) & 0x1 != 0;
        self.data_write = (value >> 4u8) & 0x1 != 0;
        self.cs = (value >> 2u8) & 0x1 != 0;
        self.sck = (value >> 1u8) & 0x1 != 0;
        self.data = (value >> 0u8) & 0x1 != 0;
        let falling = prev_sck && !self.sck;
        let mode = self.mode;
        self.mode = match mode {
            Mode::StartCmd(false) => Mode::StartCmd(true),
            Mode::StartCmd(true) => if self.cs && self.sck {
                Mode::SetCmd(0, 0)
            } else {
                mode
            },
            Mode::SetCmd(command, bit) => if !falling {
                mode
            } else if bit == 7 {
                let command = (command << 1u8) | (self.data as u8);
                proof {
                    lemma_mask_bounds();
                }
                let parameter = Parameter::from((command >> 1u8) & 0x7);
                if command & 0x1 != 0 {
                    let (parameter_byte, next_parameter) = self.read_parameter(parameter);
                    Mode::ExecCmd(next_parameter, AccessType::Read(parameter_byte, 0))
                } else {
                    Mode::ExecCmd(parameter, AccessType::Write(0, 0))
                }
            } else {
                Mode::SetCmd((command << 1u8) | (self.data as u8), bit + 1)
            },
            Mode::ExecCmd(parameter, AccessType::Read(b, bit)) => if !falling {
                mode
            } else if bit == 7 {
                let done = self.last_byte;
                self.data = b & 0x1 != 0;
                if done {
                    Mode::EndCmd
                } else {
                    let (parameter_byte, next_parameter) = self.read_parameter(parameter);
                    Mode::ExecCmd(next_parameter, AccessType::Read(parameter_byte, 0))
                }
            } else {
                self.data = b & 0x1 != 0;
                Mode::ExecCmd(parameter, AccessType::Read(b >> 1u8, bit + 1))
            },
            Mode::ExecCmd(parameter, AccessType::Write(b, bit)) => if !falling {
                mode
            } else if bit == 7 {
                let done = self.last_byte;
                self.write_parameter(parameter, b | ((self.data as u8) << 7u8));
                if done {
                    Mode::EndCmd
                } else {
                    Mode::ExecCmd(parameter, AccessType::Write(b + 1, 0))
                }
            } else {
                Mode::ExecCmd(parameter, AccessType::Write(b | ((self.data as u8) << bit as u8), bit + 1))
            },
            Mode::EndCmd => if !self.cs {
                Mode::StartCmd(false)
            } else {
                mode
            },
        };
    }
}

} // verus!
