//! The sound unit's registers and channel logic: the sound control, the
//! channels' control, address and length registers, the stepping through
//! sample memory, the IMA-ADPCM decoder, and the sound capture units.
use vstd::prelude::*;
use std::marker::PhantomData;
use crate::bits::lemma_mask_bounds;

verus! {

/// Which channel: one of the 8 plain channels, the 6 square-wave capable
/// ones, or the 2 noise capable ones.
#[derive(Clone, Copy, PartialEq, Eq, Structural, Debug)]
pub enum ChannelSpec {
    Base(usize),
    PSG(usize),
    Noise(usize),
}

/// What a kind of channel can generate besides samples.
pub trait ChannelType {
    spec fn spec_supports_psg() -> bool;

    spec fn spec_supports_noise() -> bool;

    fn supports_psg() -> (r: bool)
        ensures
            r == Self::spec_supports_psg(),
    ;

    fn supports_noise() -> (r: bool)
        ensures
            r == Self::spec_supports_noise(),
    ;
}

/// Channels 0-7: samples only.
#[derive(Clone, Copy, Debug)]
pub struct BaseChannel {}

/// Channels 8-13: samples or square waves.
#[derive(Clone, Copy, Debug)]
pub struct PSGChannel {}

/// Channels 14-15: samples or noise.
#[derive(Clone, Copy, Debug)]
pub struct NoiseChannel {}

impl ChannelType for BaseChannel {
    open spec fn spec_supports_psg() -> bool {
        false
    }

    open spec fn spec_supports_noise() -> bool {
        false
    }

    fn supports_psg() -> (r: bool) {
        false
    }

    fn supports_noise() -> (r: bool) {
        false
    }
}

impl ChannelType for PSGChannel {
    open spec fn spec_supports_psg() -> bool {
        true
    }

    open spec fn spec_supports_noise() -> bool {
        false
    }

    fn supports_psg() -> (r: bool) {
        true
    }

    fn supports_noise() -> (r: bool) {
        false
    }
}

impl ChannelType for NoiseChannel {
    open spec fn spec_supports_psg() -> bool {
        false
    }

    open spec fn spec_supports_noise() -> bool {
        true
    }

    fn supports_psg() -> (r: bool) {
        false
    }

    fn supports_noise() -> (r: bool) {
        true
    }
}

/// What an output of the sound unit plays.
#[derive(Clone, Copy, PartialEq, Eq, Structural, Debug)]
pub enum ChannelOutput {
    Mixer,
    Ch1,
    Ch3,
    Ch1Ch3,
}

impl ChannelOutput {
    pub open spec fn code(&self) -> u8 {
        match self {
            ChannelOutput::Mixer => 0,
            ChannelOutput::Ch1 => 1,
            ChannelOutput::Ch3 => 2,
            ChannelOutput::Ch1Ch3 => 3,
        }
    }

    pub fn from_bits(value: u8) -> (r: ChannelOutput)
        requires
            value < 4,
        ensures
            r.code() == value,
    {
        if value == 0 {
            ChannelOutput::Mixer
        } else if value == 1 {
            ChannelOutput::Ch1
        } else if value == 2 {
            ChannelOutput::Ch3
        } else {
            ChannelOutput::Ch1Ch3
        }
    }

    fn bits(&self) -> (r: u8)
        ensures
            r == self.code(),
    {
        match self {
            ChannelOutput::Mixer => 0,
            ChannelOutput::Ch1 => 1,
            ChannelOutput::Ch3 => 2,
            ChannelOutput::Ch1Ch3 => 3,
        }
    }
}

/// A flag as the bit it is stored in.
pub open spec fn bit(b: bool) -> u8 {
    if b {
        1
    } else {
        0
    }
}

/// A 7-bit volume or panning as a factor: 127 counts as 128.
pub open spec fn factor(v: u8) -> i32 {
    if v == 127 {
        128
    } else {
        v as i32
    }
}

/// The sound control register.
#[derive(Clone, Copy, Debug)]
pub struct SoundControl {
    pub master_volume: u8,
    pub left_output: ChannelOutput,
    pub right_output: ChannelOutput,
    pub output_1: bool,
    pub output_3: bool,
    pub enable: bool,
}

impl SoundControl {
    pub fn new() -> (r: SoundControl)
        ensures
            r.master_volume == 0 && r.left_output == ChannelOutput::Mixer && r.right_output
                == ChannelOutput::Mixer,
            !r.output_1 && !r.output_3 && !r.enable,
    {
        SoundControl {
            master_volume: 0,
            left_output: ChannelOutput::Mixer,
            right_output: ChannelOutput::Mixer,
            output_1: false,
            output_3: false,
            enable: false,
        }
    }

    /// The master volume as a factor.
    pub fn master_volume(&self) -> (r: i32)
        ensures
            r == factor(self.master_volume),
    {
        if self.master_volume == 127 {
            128
        } else {
            self.master_volume as i32
        }
    }

    /// Byte 0: the master volume; byte 1: enable, the channel 3 and 1
    /// mixer outputs, and the right and left output selects.
    pub fn read(&self, byte: usize) -> (r: u8)
        requires
            byte < 4,
        ensures
            r == if byte == 0 {
                self.master_volume
            } else if byte == 1 {
                (bit(self.enable) << 7u8) | (bit(self.output_3) << 5u8) | (bit(self.output_1) << 4u8) | (
                self.right_output.code() << 2u8) | self.left_output.code()
            } else {
                0
            },
    {
        if byte == 0 {
            self.master_volume
        } else if byte == 1 {
            ((self.enable as u8) << 7u8) | ((self.output_3 as u8) << 5u8) | ((self.output_1 as u8) << 4u8)
                | (self.right_output.bits() << 2u8) | self.left_output.bits()
        } else {
            0
        }
    }

    /// Writes byte `byte`; the output flags are set by any bit at or above
    /// their own.
    pub fn write(&mut self, byte: usize, value: u8)
        requires
            byte < 4,
        ensures
            byte == 0 ==> *final(self) == (SoundControl { master_volume: value & 0x7F, ..*old(self) }),
            byte == 1 ==> {
                &&& final(self).left_output.code() == value & 0x3
                &&& final(self).right_output.code() == (value >> 2u8) & 0x3
                &&& final(self).output_1 == (value >> 4u8 != 0)
                &&& final(self).output_3 == (value >> 5u8 != 0)
                &&& final(self).enable == (value >> 7u8 != 0)
                &&& final(self).master_volume == old(self).master_volume
            },
            byte > 1 ==> *final(self) == *old(self),
    {
        proof {
            lemma_mask_bounds();
        }
        if byte == 0 {
            self.master_volume = value & 0x7F;
        } else if byte == 1 {
            self.left_output = ChannelOutput::from_bits(value & 0x3);
            self.right_output = ChannelOutput::from_bits((value >> 2u8) & 0x3);
            self.output_1 = value >> 4u8 != 0;
            self.output_3 = value >> 5u8 != 0;
            self.enable = value >> 7u8 != 0;
        }
    }
}

/// How a channel repeats its sample.
#[derive(Clone, Copy, PartialEq, Eq, Structural, Debug)]
pub enum RepeatMode {
    Manual,
    Loop,
    OneShot,
}

impl RepeatMode {
    pub open spec fn code(&self) -> u8 {
        match self {
            RepeatMode::Manual => 0,
            RepeatMode::Loop => 1,
            RepeatMode::OneShot => 2,
        }
    }

    pub fn from_bits(value: u8) -> (r: RepeatMode)
        requires
            value < 3,
        ensures
            r.code() == value,
    {
        if value == 0 {
            RepeatMode::Manual
        } else if value == 1 {
            RepeatMode::Loop
        } else {
            RepeatMode::OneShot
        }
    }

    fn bits(&self) -> (r: u8)
        ensures
            r == self.code(),
    {
        match self {
            RepeatMode::Manual => 0,
            RepeatMode::Loop => 1,
            RepeatMode::OneShot => 2,
        }
    }
}

/// A channel's sample format.
#[derive(Clone, Copy, PartialEq, Eq, Structural, Debug)]
pub enum Format {
    PCM8,
    PCM16,
    ADPCM,
    Special,
}

impl Format {
    pub open spec fn code(&self) -> u8 {
        match self {
            Format::PCM8 => 0,
            Format::PCM16 => 1,
            Format::ADPCM => 2,
            Format::Special => 3,
        }
    }

    pub fn from_bits(value: u8) -> (r: Format)
        requires
            value < 4,
        ensures
            r.code() == value,
    {
        if value == 0 {
            Format::PCM8
        } else if value == 1 {
            Format::PCM16
        } else if value == 2 {
            Format::ADPCM
        } else {
            Format::Special
        }
    }

    fn bits(&self) -> (r: u8)
        ensures
            r == self.code(),
    {
        match self {
            Format::PCM8 => 0,
            Format::PCM16 => 1,
            Format::ADPCM => 2,
            Format::Special => 3,
        }
    }
}

/// A channel's control register.
pub struct ChannelControl<T: ChannelType> {
    pub volume_mul: u8,
    pub volume_div: u8,
    pub hold: bool,
    pub panning: u8,
    pub wave_duty: u8,
    pub repeat_mode: RepeatMode,
    pub format: Format,
    pub busy: bool,
    pub channel_type: PhantomData<T>,
}

/// Byte `byte` of a channel's control register.
pub open spec fn control_byte<T: ChannelType>(c: ChannelControl<T>, byte: usize) -> u8 {
    if byte == 0 {
        c.volume_mul
    } else if byte == 1 {
        (bit(c.hold) << 7u8) | c.volume_div
    } else if byte == 2 {
        c.panning
    } else {
        (bit(c.busy) << 7u8) | (c.format.code() << 5u8) | (c.repeat_mode.code() << 3u8) | c.wave_duty
    }
}

/// Whether `value` can be written to byte `byte` of a control register:
/// repeat mode 3 does not exist.
pub open spec fn control_write_ok(byte: usize, value: u8) -> bool {
    byte == 3 ==> (value >> 3u8) & 0x3 != 3
}

impl<T: ChannelType> ChannelControl<T> {
    pub fn new() -> (r: ChannelControl<T>)
        ensures
            r.volume_mul == 0 && r.volume_div == 0 && !r.hold && r.panning == 0 && r.wave_duty == 0,
            r.repeat_mode == RepeatMode::Manual && r.format == Format::PCM8 && !r.busy,
    {
        ChannelControl {
            volume_mul: 0,
            volume_div: 0,
            hold: false,
            panning: 0,
            wave_duty: 0,
            repeat_mode: RepeatMode::Manual,
            format: Format::PCM8,
            busy: false,
            channel_type: PhantomData,
        }
    }

    /// The right shift of the volume divider: 0, 1, 2 or 4.
    pub fn volume_shift(&self) -> (r: usize)
        requires
            self.volume_div < 4,
        ensures
            r == (if self.volume_div == 3 { 4 } else { self.volume_div as usize }),
    {
        let shifts: [usize; 4] = [0, 1, 2, 4];
        shifts[self.volume_div as usize]
    }

    /// The volume as a factor.
    pub fn volume_factor(&self) -> (r: i32)
        ensures
            r == factor(self.volume_mul),
    {
        if self.volume_mul == 127 {
            128
        } else {
            self.volume_mul as i32
        }
    }

    /// The panning as a factor.
    pub fn pan_factor(&self) -> (r: i32)
        ensures
            r == factor(self.panning),
    {
        if self.panning == 127 {
            128
        } else {
            self.panning as i32
        }
    }

    pub fn read(&self, byte: usize) -> (r: u8)
        requires
            byte < 4,
        ensures
            r == control_byte(*self, byte),
    {
        if byte == 0 {
            self.volume_mul
        } else if byte == 1 {
            ((self.hold as u8) << 7u8) | self.volume_div
        } else if byte == 2 {
            self.panning
        } else {
            ((self.busy as u8) << 7u8) | (self.format.bits() << 5u8) | (self.repeat_mode.bits() << 3u8)
                | self.wave_duty
        }
    }

    /// Writes byte `byte`: volume (0), hold and divider (1), panning (2),
    /// or duty, repeat mode, format and start (3).
    pub fn write(&mut self, byte: usize, value: u8)
        requires
            byte < 4,
            control_write_ok(byte, value),
        ensures
            byte == 0 ==> final(self).volume_mul == value & 0x7F,
            byte == 1 ==> final(self).hold == ((value >> 7u8) & 0x1 != 0) && final(self).volume_div == value
                & 0x3,
            byte == 2 ==> final(self).panning == value & 0x7F,
            byte == 3 ==> {
                &&& final(self).wave_duty == value & 0x7
                &&& final(self).repeat_mode.code() == (value >> 3u8) & 0x3
                &&& final(self).format.code() == (value >> 5u8) & 0x3
                &&& final(self).busy == ((value >> 7u8) & 0x1 != 0)
            },
            byte != 0 ==> final(self).volume_mul == old(self).volume_mul,
            byte != 1 ==> final(self).hold == old(self).hold && final(self).volume_div == old(self).volume_div,
            byte != 2 ==> final(self).panning == old(self).panning,
            byte != 3 ==> {
                &&& final(self).wave_duty == old(self).wave_duty
                &&& final(self).repeat_mode == old(self).repeat_mode
                &&& final(self).format == old(self).format
                &&& final(self).busy == old(self).busy
            },
    {
        proof {
            lemma_mask_bounds();
        }
        if byte == 0 {
            self.volume_mul = value & 0x7F;
        } else if byte == 1 {
            self.hold = (value >> 7u8) & 0x1 != 0;
            self.volume_div = value & 0x3;
        } else if byte == 2 {
            self.panning = value & 0x7F;
        } else {
            self.wave_duty = value & 0x7;
            self.repeat_mode = RepeatMode::from_bits((value >> 3u8) & 0x3);
            self.format = Format::from_bits((value >> 5u8) & 0x3);
            self.busy = (value >> 7u8) & 0x1 != 0;
        }
    }
}

/// Bit 3 of an ADPCM nibble is its sign: with it clear the decoded value
/// never goes down, with it set it never goes up, and short of the 16-bit
/// limits it moves by exactly the step's magnitude. (A magnitude of 0x8000
/// or more wraps negative as a 16-bit step, and is left out.)
pub proof fn lemma_adpcm_sign(v: i16, i: i32, data: u8)
    requires
        0 <= i <= 88,
        adpcm_diff(i, data) < 0x8000,
    ensures
        data & 0x8 == 0 ==> adpcm_step(v, i, data).0 >= v,
        data & 0x8 != 0 ==> adpcm_step(v, i, data).0 <= v,
        data & 0x8 == 0 && v + adpcm_diff(i, data) <= 0x7FFF ==> adpcm_step(v, i, data).0 == v
            + adpcm_diff(i, data),
        data & 0x8 != 0 && v - adpcm_diff(i, data) >= -0x8000 ==> adpcm_step(v, i, data).0 == v
            - adpcm_diff(i, data),
        0 <= adpcm_step(v, i, data).1 <= 88,
{
    let t = ADPCM_TABLE@[i as int] as int;
    assert(0 <= t);
    assert(0 <= adpcm_diff(i, data));
    assert((adpcm_diff(i, data) as u16) as i16 as int == adpcm_diff(i, data));
}

/// A sound capture unit's control register.
#[derive(Clone, Copy, Debug)]
pub struct CaptureControl {
    pub add: bool,
    pub use_channel: bool,
    pub no_repeat: bool,
    pub use_pcm8: bool,
    pub busy: bool,
}

impl CaptureControl {
    pub fn new() -> (r: CaptureControl)
        ensures
            !r.add && !r.use_channel && !r.no_repeat && !r.use_pcm8 && !r.busy,
    {
        CaptureControl { add: false, use_channel: false, no_repeat: false, use_pcm8: false, busy: false }
    }

    pub fn read(&self) -> (r: u8)
        ensures
            r == (bit(self.busy) << 7u8) | (bit(self.use_pcm8) << 3u8) | (bit(self.no_repeat) << 2u8) | (bit(
                self.use_channel,
            ) << 1u8) | bit(self.add),
    {
        ((self.busy as u8) << 7u8) | ((self.use_pcm8 as u8) << 3u8) | ((self.no_repeat as u8) << 2u8) | ((
        self.use_channel as u8) << 1u8) | (self.add as u8)
    }

    pub fn write(&mut self, value: u8)
        ensures
            *final(self) == (CaptureControl {
                add: value & 0x1 != 0,
                use_channel: (value >> 1u8) & 0x1 != 0,
                no_repeat: (value >> 2u8) & 0x1 != 0,
                use_pcm8: (value >> 3u8) & 0x1 != 0,
                busy: (value >> 7u8) & 0x1 != 0,
            }),
    {
        self.add = value & 0x1 != 0;
        self.use_channel = (value >> 1u8) & 0x1 != 0;
        self.no_repeat = (value >> 2u8) & 0x1 != 0;
        self.use_pcm8 = (value >> 3u8) & 0x1 != 0;
        self.busy = (value >> 7u8) & 0x1 != 0;
    }
}

/// The step sizes of the ADPCM decoder.
pub const ADPCM_TABLE: [u16; 89] = [
    0x0007, 0x0008, 0x0009, 0x000A, 0x000B, 0x000C, 0x000D, 0x000E, 0x0010, 0x0011, 0x0013, 0x0015,
    0x0017, 0x0019, 0x001C, 0x001F, 0x0022, 0x0025, 0x0029, 0x002D, 0x0032, 0x0037, 0x003C, 0x0042,
    0x0049, 0x0050, 0x0058, 0x0061, 0x006B, 0x0076, 0x0082, 0x008F, 0x009D, 0x00AD, 0x00BE, 0x00D1,
    0x00E6, 0x00FD, 0x0117, 0x0133, 0x0151, 0x0173, 0x0198, 0x01C1, 0x01EE, 0x0220, 0x0256, 0x0292,
    0x02D4, 0x031C, 0x036C, 0x03C3, 0x0424, 0x048E, 0x0502, 0x0583, 0x0610, 0x06AB, 0x0756, 0x0812,
    0x08E0, 0x09C3, 0x0ABD, 0x0BD0, 0x0CFF, 0x0E4C, 0x0FBA, 0x114C, 0x1307, 0x14EE, 0x1706, 0x1954,
    0x1BDC, 0x1EA5, 0x21B6, 0x2515, 0x28CA, 0x2CDF, 0x315B, 0x364B, 0x3BB9, 0x41B2, 0x4844, 0x4F7E,
    0x5771, 0x602F, 0x69CE, 0x7462, 0x7FFF,
];

/// How the ADPCM step index moves for the low three bits of a nibble.
pub const ADPCM_INDEX_TABLE: [i32; 8] = [-1, -1, -1, -1, 2, 4, 6, 8];

/// What a channel register write asks of the scheduler: nothing, to step
/// the channel after the given number of cycles, or to stop stepping it.
#[derive(Clone, Copy, PartialEq, Eq, Structural, Debug)]
pub enum ChannelAction {
    Nothing,
    Step(usize),
    Stop,
}

/// A sound channel: its registers and where it is in its sample.
pub struct Channel<T: ChannelType> {
    pub cnt: ChannelControl<T>,
    pub src_addr: u32,
    pub timer_val: u16,
    pub loop_start: u16,
    pub len: u32,
    pub spec: ChannelSpec,
    pub addr: u32,
    pub num_bytes_left: usize,
    pub sample: i16,
    pub adpcm_in_header: bool,
    pub adpcm_low_nibble: bool,
    pub adpcm_index: i32,
    pub adpcm_value: i16,
    pub initial_adpcm_index: i32,
    pub initial_adpcm_value: i16,
}

/// The channel's invariant: the volume divider is a 2-bit value, the ADPCM
/// step indices are in the table, and the addresses and length fit their
/// registers.
pub open spec fn channel_wf<T: ChannelType>(c: Channel<T>) -> bool {
    &&& c.cnt.volume_div < 4
    &&& 0 <= c.adpcm_index <= 88
    &&& 0 <= c.initial_adpcm_index <= 88
    &&& c.src_addr < 0x400_0000
    &&& c.len < 0x40_0000
}

/// The cycles until a channel's next step: the timer counts up from its
/// value to 0x10000.
pub open spec fn step_delay(timer: u16) -> usize {
    ((0x1_0000 - timer) % 0x1_0000) as usize
}

/// Whether a channel with this timer and these lengths can step: a timer
/// of 0 or an empty sample never does.
pub open spec fn schedulable<T: ChannelType>(c: Channel<T>) -> bool {
    c.timer_val != 0 && c.len + c.loop_start != 0
}

/// The scheduling that a change to a busy channel asks for.
pub open spec fn rescheduled<T: ChannelType>(c: Channel<T>) -> ChannelAction {
    if c.cnt.busy && schedulable(c) {
        ChannelAction::Step(step_delay(c.timer_val))
    } else {
        ChannelAction::Nothing
    }
}

/// `v` with byte lane `lane` of a 32-bit register replaced by `value`.
pub open spec fn lane32(v: u32, lane: int, value: u8) -> u32 {
    (v & !(0xFFu32 << (8 * lane) as u32)) | ((value as u32) << (8 * lane) as u32)
}

/// `v` with byte lane `lane` of a 16-bit register replaced by `value`.
pub open spec fn lane16(v: u16, lane: int, value: u8) -> u16 {
    (v & !(0xFFu16 << (8 * lane) as u16)) | ((value as u16) << (8 * lane) as u16)
}

/// The sample bytes of a channel: the loop start plus the length, in
/// words.
pub open spec fn sample_bytes(loop_start: u16, len: u32) -> usize {
    ((loop_start + len) * 4) as usize
}

impl<T: ChannelType> Channel<T> {
    pub fn new(spec: ChannelSpec) -> (r: Channel<T>)
        ensures
            channel_wf(r),
            r.spec == spec,
            r.src_addr == 0 && r.timer_val == 0 && r.loop_start == 0 && r.len == 0,
            r.addr == 0 && r.num_bytes_left == 0 && r.sample == 0,
            r.adpcm_in_header && r.adpcm_low_nibble,
            r.adpcm_index == 0 && r.adpcm_value == 0,
            !r.cnt.busy,
    {
        Channel {
            cnt: ChannelControl::new(),
            src_addr: 0,
            timer_val: 0,
            loop_start: 0,
            len: 0,
            spec,
            addr: 0,
            num_bytes_left: 0,
            sample: 0,
            adpcm_in_header: true,
            adpcm_low_nibble: true,
            adpcm_index: 0,
            adpcm_value: 0,
            initial_adpcm_index: 0,
            initial_adpcm_value: 0,
        }
    }

    /// The control bytes read back; the address, timer and length
    /// registers are write-only and read 0.
    pub fn read(&self, byte: usize) -> (r: u8)
        requires
            byte < 16,
        ensures
            r == if byte < 4 {
                control_byte(self.cnt, byte)
            } else {
                0
            },
    {
        if byte < 4 {
            self.cnt.read(byte)
        } else {
            0
        }
    }

    /// The step to schedule: after the timer's cycles, if the channel can
    /// step.
    pub fn schedule(&self) -> (r: Option<usize>)
        ensures
            r == if schedulable(*self) {
                Some(step_delay(self.timer_val))
            } else {
                None::<usize>
            },
    {
        if self.timer_val != 0 && self.len as u64 + self.loop_start as u64 != 0 {
            Some(((0x1_0000u32 - self.timer_val as u32) % 0x1_0000) as usize)
        } else {
            None
        }
    }

    fn reschedule(&self) -> (r: ChannelAction)
        ensures
            r == rescheduled(*self),
    {
        if self.cnt.busy {
            match self.schedule() {
                Some(delay) => ChannelAction::Step(delay),
                None => ChannelAction::Nothing,
            }
        } else {
            ChannelAction::Nothing
        }
    }

    /// Writes byte `byte` of the channel's registers. Starting the channel
    /// rewinds the ADPCM decoder and schedules its first step; stopping it
    /// stops the stepping; a new timer, loop start or length reschedules a
    /// busy channel.
    pub fn write(&mut self, byte: usize, value: u8) -> (r: ChannelAction)
        requires
            byte < 16,
            channel_wf(*old(self)),
            byte < 4 ==> control_write_ok(byte, value),
        ensures
            channel_wf(*final(self)),
            byte < 3 ==> r == ChannelAction::Nothing,
            byte == 3 ==> {
                &&& r == if !old(self).cnt.busy && final(self).cnt.busy {
                    rescheduled(*final(self))
                } else if !final(self).cnt.busy {
                    ChannelAction::Stop
                } else {
                    ChannelAction::Nothing
                }
                &&& !old(self).cnt.busy && final(self).cnt.busy ==> final(self).adpcm_in_header
                    && final(self).adpcm_low_nibble
            },
            4 <= byte < 8 ==> r == ChannelAction::Nothing && final(self).src_addr == lane32(
                old(self).src_addr,
                byte - 4,
                value,
            ) & 0x3FF_FFFF && final(self).addr == final(self).src_addr,
            8 <= byte < 10 ==> final(self).timer_val == lane16(old(self).timer_val, byte - 8, value) && r
                == rescheduled(*final(self)),
            10 <= byte < 12 ==> final(self).loop_start == lane16(old(self).loop_start, byte - 10, value)
                && final(self).num_bytes_left == sample_bytes(final(self).loop_start, final(self).len) && r
                == rescheduled(*final(self)),
            12 <= byte ==> final(self).len == lane32(old(self).len, byte - 12, value) & 0x3F_FFFF
                && final(self).num_bytes_left == sample_bytes(final(self).loop_start, final(self).len) && r
                == rescheduled(*final(self)),
            final(self).spec == old(self).spec,
    {
        proof {
            lemma_mask_bounds();
        }
        if byte < 3 {
            self.cnt.write(byte, value);
            ChannelAction::Nothing
        } else if byte == 3 {
            let prev_busy = self.cnt.busy;
            self.cnt.write(byte, value);
            if !prev_busy && self.cnt.busy {
                self.adpcm_in_header = true;
                self.adpcm_low_nibble = true;
                self.reschedule()
            } else if !self.cnt.busy {
                ChannelAction::Stop
            } else {
                ChannelAction::Nothing
            }
        } else if byte < 8 {
            let lane = byte - 4;
            let shift = (8 * lane) as u32;
            let src = ((self.src_addr & !(0xFFu32 << shift)) | ((value as u32) << shift)) & 0x3FF_FFFF;
            self.src_addr = src;
            self.addr = src;
            ChannelAction::Nothing
        } else if byte < 10 {
            let shift = (8 * (byte - 8)) as u16;
            self.timer_val = (self.timer_val & !(0xFFu16 << shift)) | ((value as u16) << shift);
            self.reschedule()
        } else if byte < 12 {
            let shift = (8 * (byte - 10)) as u16;
            self.loop_start = (self.loop_start & !(0xFFu16 << shift)) | ((value as u16) << shift);
            self.num_bytes_left = (self.loop_start as usize + self.len as usize) * 4;
            self.reschedule()
        } else {
            let shift = (8 * (byte - 12)) as u32;
            self.len = ((self.len & !(0xFFu32 << shift)) | ((value as u32) << shift)) & 0x3F_FFFF;
            self.num_bytes_left = (self.loop_start as usize + self.len as usize) * 4;
            self.reschedule()
        }
    }

    /// At the end of the sample: manual mode stops with a reset, looping
    /// restarts at the loop start, one-shot stops. Returns whether the
    /// sample is to be reset.
    fn handle_end(&mut self) -> (reset: bool)
        requires
            channel_wf(*old(self)),
        ensures
            channel_wf(*final(self)),
            reset == (old(self).cnt.repeat_mode != RepeatMode::Loop),
            *final(self) == channel_ended(*old(self)),
    {
        let (reset, new_busy) = match self.cnt.repeat_mode {
            RepeatMode::Manual => (true, true),
            RepeatMode::Loop => {
                self.addr = self.src_addr + self.loop_start as u32 * 4;
                self.adpcm_low_nibble = true;
                self.num_bytes_left = self.len as usize * 4;
                (false, true)
            },
            RepeatMode::OneShot => (true, false),
        };
        self.cnt.busy = new_busy;
        reset
    }

    /// The address of the next PCM sample of `width` bytes; returns it
    /// with whether the sample ended and is to be reset.
    pub fn next_addr_pcm(&mut self, width: usize) -> (r: (u32, bool))
        requires
            channel_wf(*old(self)),
            width == 1 || width == 2,
            old(self).num_bytes_left >= width,
            old(self).addr + width <= u32::MAX,
        ensures
            channel_wf(*final(self)),
            r.0 == old(self).addr,
            ({
                let stepped = Channel {
                    addr: (old(self).addr + width) as u32,
                    num_bytes_left: (old(self).num_bytes_left - width) as usize,
                    ..*old(self)
                };
                if old(self).num_bytes_left > width {
                    !r.1 && *final(self) == stepped
                } else {
                    r.1 == (old(self).cnt.repeat_mode != RepeatMode::Loop) && *final(self) == channel_ended(stepped)
                }
            }),
    {
        let return_addr = self.addr;
        self.addr = self.addr + width as u32;
        self.num_bytes_left = self.num_bytes_left - width;
        let reset = if self.num_bytes_left == 0 {
            self.handle_end()
        } else {
            false
        };
        (return_addr, reset)
    }

    /// Silences the channel and stops it.
    pub fn reset_sample(&mut self)
        ensures
            final(self).sample == 0,
            !final(self).cnt.busy,
            final(self).addr == old(self).addr && final(self).num_bytes_left == old(self).num_bytes_left,
    {
        self.sample = 0;
        self.cnt.busy = false;
    }

    /// Takes a PCM sample of `width` bytes: 8-bit samples fill the high
    /// byte.
    pub fn set_sample(&mut self, width: usize, sample: u16)
        requires
            width == 1 ==> sample < 0x100,
        ensures
            final(self).sample == (if width == 1 { (sample * 256) as u16 } else { sample }) as i16,
            final(self).addr == old(self).addr && final(self).cnt.busy == old(self).cnt.busy,
    {
        let s = if width == 1 {
            sample * 256
        } else {
            sample
        };
        self.sample = s as i16;
    }

    /// The address of the ADPCM header, the first time it is asked for:
    /// the decoder then moves past the header's word.
    pub fn initial_adpcm_addr(&mut self) -> (r: Option<u32>)
        requires
            channel_wf(*old(self)),
            old(self).adpcm_in_header ==> old(self).src_addr == old(self).addr && old(self).num_bytes_left
                >= 4,
        ensures
            channel_wf(*final(self)),
            old(self).adpcm_in_header ==> r == Some(old(self).addr) && !final(self).adpcm_in_header
                && final(self).addr == old(self).addr + 4 && final(self).num_bytes_left == old(self).num_bytes_left
                - 4,
            !old(self).adpcm_in_header ==> r.is_none() && final(self).addr == old(self).addr
                && final(self).num_bytes_left == old(self).num_bytes_left,
    {
        if self.adpcm_in_header {
            self.adpcm_in_header = false;
            let return_addr = self.addr;
            self.addr = self.addr + 4;
            self.num_bytes_left = self.num_bytes_left - 4;
            Some(return_addr)
        } else {
            None
        }
    }

    /// The address of the byte holding the next ADPCM nibble; after a high
    /// nibble the decoder moves to the next byte. Returns it with whether
    /// the sample ended and is to be reset.
    pub fn next_addr_adpcm(&mut self) -> (r: (u32, bool))
        requires
            channel_wf(*old(self)),
            old(self).num_bytes_left > 0,
            old(self).addr < u32::MAX,
        ensures
            channel_wf(*final(self)),
            r.0 == old(self).addr,
            old(self).adpcm_low_nibble ==> !r.1 && *final(self) == *old(self),
            ({
                let stepped = Channel {
                    addr: (old(self).addr + 1) as u32,
                    num_bytes_left: (old(self).num_bytes_left - 1) as usize,
                    ..*old(self)
                };
                !old(self).adpcm_low_nibble ==> if old(self).num_bytes_left > 1 {
                    !r.1 && *final(self) == stepped
                } else {
                    r.1 == (old(self).cnt.repeat_mode != RepeatMode::Loop) && *final(self) == channel_ended(stepped)
                }
            }),
    {
        let return_addr = self.addr;
        let reset = if self.adpcm_low_nibble {
            false
        } else {
            self.addr = self.addr + 1;
            self.num_bytes_left = self.num_bytes_left - 1;
            if self.num_bytes_left == 0 {
                self.handle_end()
            } else {
                false
            }
        };
        (return_addr, reset)
    }

    /// Decodes the next ADPCM nibble of `value` (low nibble first): the
    /// step from the table, scaled by the nibble's three low bits, moves
    /// the value up or down by its sign bit (saturating at 16 bits), and
    /// the step index moves by the index table, clamped to the table.
    pub fn set_adpcm_data(&mut self, value: u8)
        requires
            channel_wf(*old(self)),
        ensures
            channel_wf(*final(self)),
            final(self).adpcm_low_nibble == !old(self).adpcm_low_nibble,
            ({
                let data = if old(self).adpcm_low_nibble { value & 0xF } else { (value >> 4u8) & 0xF };
                let (v, i) = adpcm_step(old(self).adpcm_value, old(self).adpcm_index, data);
                &&& final(self).adpcm_value == v
                &&& final(self).adpcm_index == i
                &&& final(self).sample == v
            }),
            final(self).addr == old(self).addr && final(self).num_bytes_left == old(self).num_bytes_left,
    {
        proof {
            lemma_mask_bounds();
        }
        let data = if self.adpcm_low_nibble {
            value & 0xF
        } else {
            (value >> 4u8) & 0xF
        };
        self.adpcm_low_nibble = !self.adpcm_low_nibble;
        let table_val = ADPCM_TABLE[self.adpcm_index as usize];
        let mut diff: u16 = table_val / 8;
        if data & 0x1 != 0 {
            diff = diff + table_val / 4;
        }
        if data & 0x2 != 0 {
            diff = diff + table_val / 2;
        }
        if data & 0x4 != 0 {
            diff = diff + table_val;
        }
        let d = diff as i16 as i32;
        let sum = if data & 0x8 == 0 {
            self.adpcm_value as i32 + d
        } else {
            self.adpcm_value as i32 - d
        };
        self.adpcm_value = if sum > 0x7FFF {
            0x7FFF
        } else if sum < -0x8000 {
            -0x8000
        } else {
            sum as i16
        };
        let index = self.adpcm_index + ADPCM_INDEX_TABLE[(data & 0x7) as usize];
        self.adpcm_index = if index < 0 {
            0
        } else if index > 88 {
            88
        } else {
            index
        };
        self.sample = self.adpcm_value;
    }

    /// Takes the ADPCM header: the initial value in the low half, the
    /// initial step index in bits 16-22 (clamped to the table), and rewinds
    /// the decoder to them.
    pub fn set_initial_adpcm(&mut self, value: u32)
        requires
            channel_wf(*old(self)),
        ensures
            channel_wf(*final(self)),
            final(self).initial_adpcm_index == (if (value >> 16u32) & 0x7F > 88 {
                88
            } else {
                (value >> 16u32) & 0x7F
            }),
            final(self).initial_adpcm_value == value as u16 as i16,
            final(self).adpcm_index == final(self).initial_adpcm_index,
            final(self).adpcm_value == final(self).initial_adpcm_value,
    {
        proof {
            lemma_mask_bounds();
        }
        let index = (value >> 16u32) & 0x7F;
        self.initial_adpcm_index = if index > 88 {
            88
        } else {
            index as i32
        };
        self.initial_adpcm_value = value as u16 as i16;
        self.reset_adpcm();
    }

    /// Rewinds the ADPCM decoder to the header's value and index.
    pub fn reset_adpcm(&mut self)
        requires
            channel_wf(*old(self)),
        ensures
            channel_wf(*final(self)),
            final(self).adpcm_index == old(self).initial_adpcm_index,
            final(self).adpcm_value == old(self).initial_adpcm_value,
            final(self).initial_adpcm_index == old(self).initial_adpcm_index,
            final(self).initial_adpcm_value == old(self).initial_adpcm_value,
    {
        self.adpcm_index = self.initial_adpcm_index;
        self.adpcm_value = self.initial_adpcm_value;
    }

    pub fn format(&self) -> (r: Format)
        ensures
            r == self.cnt.format,
    {
        self.cnt.format
    }
}

/// A channel at the end of its sample: a looping one restarts at the loop
/// start (with the whole length to go and the low nibble next), a
/// one-shot one stops, a manual one stays busy.
pub open spec fn channel_ended<T: ChannelType>(c: Channel<T>) -> Channel<T> {
    let cnt = ChannelControl { busy: c.cnt.repeat_mode != RepeatMode::OneShot, ..c.cnt };
    if c.cnt.repeat_mode == RepeatMode::Loop {
        Channel {
            addr: (c.src_addr + c.loop_start * 4) as u32,
            adpcm_low_nibble: true,
            num_bytes_left: (c.len * 4) as usize,
            cnt,
            ..c
        }
    } else {
        Channel { cnt, ..c }
    }
}

/// The magnitude of an ADPCM step: an eighth of the table's step, plus a
/// quarter, a half and the whole step for nibble bits 0, 1 and 2.
pub open spec fn adpcm_diff(i: i32, data: u8) -> int {
    let t = ADPCM_TABLE@[i as int] as int;
    t / 8 + (if data & 0x1 != 0 { t / 4 } else { 0 }) + (if data & 0x2 != 0 { t / 2 } else { 0 }) + (
    if data & 0x4 != 0 { t } else { 0 })
}

/// The ADPCM step for nibble `data` from value `v` and step index `i`: the
/// new value and index.
pub open spec fn adpcm_step(v: i16, i: i32, data: u8) -> (i16, i32) {
    let d = (adpcm_diff(i, data) as u16) as i16 as int;
    let sum = if data & 0x8 == 0 {
        v + d
    } else {
        v - d
    };
    let nv: int = if sum > 0x7FFF {
        0x7FFF
    } else if sum < -0x8000 {
        -0x8000
    } else {
        sum
    };
    let ni: int = i + ADPCM_INDEX_TABLE@[(data & 0x7) as int];
    (nv as i16, (if ni < 0 {
        0
    } else if ni > 88 {
        88
    } else {
        ni
    }) as i32)
}

/// A sound capture unit: its control, destination and length registers,
/// and where it is writing.
pub struct Capture {
    pub cnt: CaptureControl,
    pub dest_addr: u32,
    pub len: usize,
    pub addr: u32,
    pub num_bytes_left: usize,
}

impl Capture {
    pub fn new() -> (r: Capture)
        ensures
            !r.cnt.busy && r.dest_addr == 0 && r.len == 0 && r.addr == 0 && r.num_bytes_left == 0,
    {
        Capture { cnt: CaptureControl::new(), dest_addr: 0, len: 0, addr: 0, num_bytes_left: 0 }
    }

    /// The address for the next captured value of `width` bytes; the unit
    /// stays busy while bytes are left.
    pub fn next_addr(&mut self, width: usize) -> (r: u32)
        requires
            width == 1 || width == 2,
            old(self).num_bytes_left >= width,
            old(self).addr + width <= u32::MAX,
        ensures
            r == old(self).addr,
            final(self).addr == old(self).addr + width,
            final(self).num_bytes_left == old(self).num_bytes_left - width,
            final(self).cnt.busy == (final(self).num_bytes_left > 0),
            final(self).dest_addr == old(self).dest_addr && final(self).len == old(self).len,
    {
        self.num_bytes_left = self.num_bytes_left - width;
        self.cnt.busy = self.num_bytes_left > 0;
        let return_addr = self.addr;
        self.addr = self.addr + width as u32;
        return_addr
    }

    /// Bytes 0-3 read the current address; the destination bytes 4-7 are
    /// write-only and read 0.
    pub fn read(&self, byte: usize) -> (r: u8)
        requires
            byte < 8,
        ensures
            r == if byte < 4 {
                (self.addr >> (8 * byte) as u32) as u8
            } else {
                0
            },
    {
        if byte < 4 {
            (self.addr >> (8 * byte) as u32) as u8
        } else {
            0
        }
    }

    /// Writes the control register; starting the unit rewinds it to the
    /// destination with the full length.
    pub fn write_cnt(&mut self, value: u8)
        requires
            old(self).len < 0x1_0000,
        ensures
            final(self).cnt == (CaptureControl {
                add: value & 0x1 != 0,
                use_channel: (value >> 1u8) & 0x1 != 0,
                no_repeat: (value >> 2u8) & 0x1 != 0,
                use_pcm8: (value >> 3u8) & 0x1 != 0,
                busy: (value >> 7u8) & 0x1 != 0,
            }),
            !old(self).cnt.busy && final(self).cnt.busy ==> final(self).num_bytes_left == old(self).len * 4
                && final(self).addr == old(self).dest_addr,
            !(!old(self).cnt.busy && final(self).cnt.busy) ==> final(self).num_bytes_left == old(self).num_bytes_left
                && final(self).addr == old(self).addr,
            final(self).dest_addr == old(self).dest_addr && final(self).len == old(self).len,
    {
        let prev_busy = self.cnt.busy;
        let mut cnt = self.cnt;
        cnt.write(value);
        self.cnt = cnt;
        if !prev_busy && self.cnt.busy {
            self.num_bytes_left = self.len * 4;
            self.addr = self.dest_addr;
        }
    }

    /// Writes byte `byte`: the destination (0-3), which keeps only the
    /// written byte in its lane, or the 16-bit length (4-7).
    pub fn write(&mut self, byte: usize, value: u8)
        requires
            byte < 8,
            old(self).len < 0x1_0000,
        ensures
            final(self).len < 0x1_0000,
            byte < 4 ==> final(self).dest_addr == ((value as u32) << (8 * byte) as u32) & 0x7FF_FFFF
                && final(self).addr == final(self).dest_addr && final(self).len == old(self).len
                && final(self).num_bytes_left == old(self).num_bytes_left,
            byte >= 4 ==> final(self).len == ((old(self).len & !(0xFFusize << (8 * (byte % 4)) as usize))
                | ((value as usize) << (8 * (byte % 4)) as usize)) as u16
                && final(self).num_bytes_left == final(self).len * 4
                && final(self).dest_addr == old(self).dest_addr && final(self).addr == old(self).addr,
            final(self).cnt == old(self).cnt,
    {
        if byte < 4 {
            let shift: u32 = (8 * byte) as u32;
            let dest = ((value as u32) << shift) & 0x7FF_FFFF;
            self.dest_addr = dest;
            self.addr = dest;
        } else {
            let shift: usize = 8 * (byte % 4);
            let mask = 0xFFusize << shift;
            self.len = ((self.len & !mask) | ((value as usize) << shift)) as u16 as usize;
            self.num_bytes_left = self.len * 4;
        }
    }
}

} // verus!
