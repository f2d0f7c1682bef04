//! The keypad: which keys are held (a cleared bit is a held key), and the
//! key interrupt condition.
use vstd::prelude::*;

verus! {

/// A key of the console.
#[derive(Clone, Copy, PartialEq, Eq, Structural, Debug)]
pub enum Key {
    A,
    B,
    Select,
    Start,
    Right,
    Left,
    Up,
    Down,
    R,
    L,
    X,
    Y,
}

impl Key {
    /// The key's number: 0-9 in the key input register, 10 and 11 (X and
    /// Y) in the extended one.
    pub open spec fn index(self) -> int {
        match self {
            Key::A => 0,
            Key::B => 1,
            Key::Select => 2,
            Key::Start => 3,
            Key::Right => 4,
            Key::Left => 5,
            Key::Up => 6,
            Key::Down => 7,
            Key::R => 8,
            Key::L => 9,
            Key::X => 10,
            Key::Y => 11,
        }
    }

    pub fn to_index(&self) -> (r: u16)
        ensures
            r == self.index(),
    {
        match self {
            Key::A => 0,
            Key::B => 1,
            Key::Select => 2,
            Key::Start => 3,
            Key::Right => 4,
            Key::Left => 5,
            Key::Up => 6,
            Key::Down => 7,
            Key::R => 8,
            Key::L => 9,
            Key::X => 10,
            Key::Y => 11,
        }
    }
}

/// The interrupt enable and the AND condition bits of the key control.
pub const IRQ_ENABLE: u16 = 1 << 14;
pub const IRQ_COND_AND: u16 = 1 << 15;
/// The bits the key control keeps.
pub const KEYCNT_ALL: u16 = 0xC3FF;
/// The bits of the extended key input that always read set.
pub const EXTKEYIN_MASK: u8 = 0b0011_0100;

/// The keypad's registers: key input (10 keys), key control, and the
/// extended key input (X, Y, debug, pen, hinge).
pub struct Keypad {
    pub keyinput: u16,
    pub keycnt: u16,
    pub extkeyin: u8,
}

/// Clearing and setting bit `i`: the bit changes and no other does.
pub proof fn lemma_bit_ops()
    by (bit_vector)
    ensures
        forall|x: u16, i: u16| i < 16 ==> #[trigger] ((x & !(1u16 << i)) >> i) & 1 == 0,
        forall|x: u16, i: u16| i < 16 ==> #[trigger] ((x | (1u16 << i)) >> i) & 1 == 1,
        forall|x: u16, i: u16, j: u16|
            i < 16 && j < 16 && i != j ==> #[trigger] ((x & !(1u16 << i)) >> j) & 1 == (x >> j) & 1,
        forall|x: u16, i: u16, j: u16|
            i < 16 && j < 16 && i != j ==> #[trigger] ((x | (1u16 << i)) >> j) & 1 == (x >> j) & 1,
        forall|x: u8, i: u8| i < 8 ==> #[trigger] ((x & !(1u8 << i)) >> i) & 1 == 0,
        forall|x: u8, i: u8| i < 8 ==> #[trigger] ((x | (1u8 << i)) >> i) & 1 == 1,
        forall|x: u8, i: u8, j: u8|
            i < 8 && j < 8 && i != j ==> #[trigger] ((x & !(1u8 << i)) >> j) & 1 == (x >> j) & 1,
        forall|x: u8, i: u8, j: u8|
            i < 8 && j < 8 && i != j ==> #[trigger] ((x | (1u8 << i)) >> j) & 1 == (x >> j) & 1,
{
}

/// Whether key `k` is held.
pub open spec fn held(p: Keypad, k: Key) -> bool {
    if k.index() < 10 {
        (p.keyinput >> (k.index() as u16)) & 1 == 0
    } else {
        (p.extkeyin >> ((k.index() - 10) as u8)) & 1 == 0
    }
}

/// Whether the keypad asks for an interrupt: with interrupts enabled, all
/// (AND) or any (OR) of the selected keys are held.
pub open spec fn key_irq(keycnt: u16, keyinput: u16) -> bool {
    if keycnt & IRQ_ENABLE == IRQ_ENABLE {
        let irq_keys = keycnt & !(IRQ_ENABLE | IRQ_COND_AND);
        if keycnt & IRQ_COND_AND == IRQ_COND_AND {
            irq_keys & !keyinput == irq_keys
        } else {
            irq_keys & !keyinput != 0
        }
    } else {
        false
    }
}

impl Keypad {
    /// No key held; interrupts off; the pen up, the hinge open.
    pub fn new() -> (r: Keypad)
        ensures
            r.keyinput == 0x3FF,
            r.keycnt == 0,
            r.extkeyin == 0x4B,
    {
        Keypad { keyinput: 0x3FF, keycnt: 0, extkeyin: 0x4B }
    }

    /// Holds key `key`.
    pub fn press_key(&mut self, key: Key)
        ensures
            key.index() < 10 ==> final(self).keyinput == old(self).keyinput & !(1u16 << (key.index() as u16))
                && final(self).extkeyin == old(self).extkeyin,
            key.index() >= 10 ==> final(self).extkeyin == old(self).extkeyin & !(1u8 << ((key.index() - 10) as u8))
                && final(self).keyinput == old(self).keyinput,
            final(self).keycnt == old(self).keycnt,
            held(*final(self), key),
            forall|k: Key| k != key ==> held(*final(self), k) == held(*old(self), k),
    {
        proof {
            lemma_bit_ops();
        }
        let i = key.to_index();
        if i < 10 {
            self.keyinput = self.keyinput & !(1u16 << i);
        } else {
            let j: u8 = (i - 10) as u8;
            self.extkeyin = self.extkeyin & !(1u8 << j);
        }
        proof {
            assert forall|k: Key| k != key implies held(*self, k) == held(*old(self), k) by {
                if k.index() < 10 && key.index() < 10 {
                    assert(k.index() != key.index());
                }
                if k.index() >= 10 && key.index() >= 10 {
                    assert(k.index() != key.index());
                }
            }
        }
    }

    /// Lets key `key` go.
    pub fn release_key(&mut self, key: Key)
        ensures
            key.index() < 10 ==> final(self).keyinput == old(self).keyinput | (1u16 << (key.index() as u16))
                && final(self).extkeyin == old(self).extkeyin,
            key.index() >= 10 ==> final(self).extkeyin == old(self).extkeyin | (1u8 << ((key.index() - 10) as u8))
                && final(self).keyinput == old(self).keyinput,
            final(self).keycnt == old(self).keycnt,
            !held(*final(self), key),
            forall|k: Key| k != key ==> held(*final(self), k) == held(*old(self), k),
    {
        proof {
            lemma_bit_ops();
        }
        let i = key.to_index();
        if i < 10 {
            self.keyinput = self.keyinput | (1u16 << i);
        } else {
            let j: u8 = (i - 10) as u8;
            self.extkeyin = self.extkeyin | (1u8 << j);
        }
        proof {
            assert forall|k: Key| k != key implies held(*self, k) == held(*old(self), k) by {
                if k.index() < 10 && key.index() < 10 {
                    assert(k.index() != key.index());
                }
                if k.index() >= 10 && key.index() >= 10 {
                    assert(k.index() != key.index());
                }
            }
        }
    }

    /// Whether the keypad asks for an interrupt.
    pub fn interrupt_requested(&self) -> (r: bool)
        ensures
            r == key_irq(self.keycnt, self.keyinput),
    {
        if self.keycnt & IRQ_ENABLE == IRQ_ENABLE {
            let irq_keys = self.keycnt & !(IRQ_ENABLE | IRQ_COND_AND);
            if self.keycnt & IRQ_COND_AND == IRQ_COND_AND {
                irq_keys & !self.keyinput == irq_keys
            } else {
                irq_keys & !self.keyinput != 0
            }
        } else {
            false
        }
    }

    /// Byte `byte` of the key input register.
    pub fn read_keyinput(&self, byte: usize) -> (r: u8)
        requires
            byte < 2,
        ensures
            r == (self.keyinput >> (8 * byte) as u16) as u8,
    {
        (self.keyinput >> (8 * byte) as u16) as u8
    }

    /// Byte `byte` of the key control register.
    pub fn read_keycnt(&self, byte: usize) -> (r: u8)
        requires
            byte < 2,
        ensures
            r == (self.keycnt >> (8 * byte) as u16) as u8,
    {
        (self.keycnt >> (8 * byte) as u16) as u8
    }

    /// Writes byte `byte` of the key control register; the unused bits
    /// stay clear.
    pub fn write_keycnt(&mut self, byte: usize, value: u8)
        requires
            byte < 2,
        ensures
            byte == 0 ==> final(self).keycnt == (old(self).keycnt & !0x00FFu16) | ((value as u16) & KEYCNT_ALL),
            byte == 1 ==> final(self).keycnt == (old(self).keycnt & !0xFF00u16) | (((value as u16) << 8u16)
                & KEYCNT_ALL),
            final(self).keyinput == old(self).keyinput,
            final(self).extkeyin == old(self).extkeyin,
    {
        if byte == 0 {
            self.keycnt = (self.keycnt & !0x00FFu16) | ((value as u16) & KEYCNT_ALL);
        } else {
            self.keycnt = (self.keycnt & !0xFF00u16) | (((value as u16) << 8u16) & KEYCNT_ALL);
        }
    }

    /// Byte `byte` of the extended key input: byte 0 with the always-set
    /// bits, byte 1 reads 0.
    pub fn read_extkeyin(&self, byte: usize) -> (r: u8)
        requires
            byte < 2,
        ensures
            r == if byte == 0 {
                self.extkeyin | EXTKEYIN_MASK
            } else {
                0
            },
    {
        if byte == 0 {
            self.extkeyin | EXTKEYIN_MASK
        } else {
            0
        }
    }
}

} // verus!
