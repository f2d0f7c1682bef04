//! The cartridge as the console's game card bus sees it: commands, the
//! words they produce, and the save chip behind the SPI bus.
use vstd::prelude::*;
use std::collections::VecDeque;
use super::backup::Backup;
use super::header::{Header, header_ok, le32};
use super::key1::{
    Key1Encryption,
    KEY_TABLE_SIZE,
    KEY_TABLE_START,
    bytes_in_order,
    bytes_of_words,
    cipher,
    keyed_table,
    words_in_order,
    words_of_bytes,
};
use super::registers::{ROMCTRL, SPICNT, romctrl_initial, spicnt_initial};

verus! {

/// The chip id the cartridge reports.
pub const CHIP_ID: u32 = 0x0000_0FC2;

/// A cartridge event for the scheduler: a word has been transferred, or a
/// block has ended; the flag says whether the ARM9 started the transfer.
#[derive(Clone, Copy, PartialEq, Eq, Structural, Debug)]
pub enum CardEvent {
    WordTransferred(bool),
    BlockEnded(bool),
}

/// What the caller has to do with the scheduler after a cartridge access.
#[derive(Clone, Copy, PartialEq, Eq, Structural, Debug)]
pub enum CardAction {
    Nothing,
    /// Run the event after this many cycles.
    Schedule(CardEvent, usize),
    /// Run the event at once.
    RunNow(CardEvent),
}

/// `n` copies of `v`.
pub open spec fn repeat_word(v: u32, n: nat) -> Seq<u32> {
    Seq::new(n, |_i: int| v)
}

/// The number of words a copy of `rom[start..end]` produces (a partial
/// last word is read whole).
pub open spec fn copy_len(start: int, end: int) -> int {
    if end <= start {
        0
    } else {
        (end - start + 3) / 4
    }
}

/// The little-endian words of `rom` from `start`, one per started group
/// of four bytes before `end`.
pub open spec fn rom_words(rom: Seq<u8>, start: int, end: int) -> Seq<u32> {
    Seq::new(copy_len(start, end) as nat, |i: int| le32(rom, start + 4 * i))
}

/// Whether copying `rom[start..end]` stays inside the image.
pub open spec fn copy_ok(rom: Seq<u8>, start: int, end: int) -> bool {
    0 <= start && start + 4 * copy_len(start, end) <= rom.len()
}

/// The game code as the key code of the cipher.
pub open spec fn game_id(h: Header) -> u32 {
    le32(h.game_code@, 0)
}

/// The address of a `B7` (read data) command: bytes 1 to 4, most
/// significant first.
pub open spec fn b7_addr(cmd: Seq<u8>) -> int {
    cmd[1] as int * 0x100_0000 + cmd[2] as int * 0x1_0000 + cmd[3] as int * 0x100 + cmd[4] as int
}

/// The address a `B7` read starts at: below 0x8000 the secure area is
/// mirrored into 0x8000..0xA000.
pub open spec fn b7_start(addr: int) -> int {
    if addr < 0x8000 {
        0x8000 + addr % 0x2000
    } else {
        addr
    }
}

/// Whether the bytes of `cmd` from `from` on are all zero.
pub open spec fn zero_from(cmd: Seq<u8>, from: int) -> bool {
    forall|i: int| from <= i < 8 ==> #[trigger] cmd[i] == 0
}

/// The words a `B7` read of `len` bytes from `start` produces: a read that
/// crosses a 4 KiB boundary wraps to the start of its block.
pub open spec fn b7_words(rom: Seq<u8>, start: int, len: int) -> Seq<u32> {
    let block = start - start % 0x1000;
    if start / 0x1000 % 2 != (start + len) / 0x1000 % 2 {
        rom_words(rom, start, block + 0x1000) + rom_words(
            rom,
            block,
            block + (len - (block + 0x1000 - start)),
        )
    } else {
        rom_words(rom, start, start + len)
    }
}

/// Whether a `B7` read of `len` bytes from `start` stays inside the image.
pub open spec fn b7_ok(rom: Seq<u8>, start: int, len: int) -> bool {
    let block = start - start % 0x1000;
    if start / 0x1000 % 2 != (start + len) / 0x1000 % 2 {
        copy_ok(rom, start, block + 0x1000) && copy_ok(
            rom,
            block,
            block + (len - (block + 0x1000 - start)),
        )
    } else {
        copy_ok(rom, start, start + len)
    }
}

/// Whether `b` is the same card as `a`: chip ID, header and image.
pub open spec fn same_card(a: Cartridge, b: Cartridge) -> bool {
    &&& a.chip_id == b.chip_id
    &&& a.header == b.header
    &&& a.rom@ == b.rom@
}

/// Over any run of cartridge states, each the same card as the one
/// before (as every method leaves it but `encrypt_secure_area`, which
/// rewrites the image), the last is the same card as the first: the chip
/// ID, header and image never change.
pub proof fn lemma_card_kept(s: Seq<Cartridge>)
    requires
        s.len() > 0,
        forall|i: int| 0 <= i < s.len() - 1 ==> same_card(#[trigger] s[i], s[i + 1]),
    ensures
        same_card(s[0], s.last()),
    decreases s.len(),
{
    if s.len() > 1 {
        let t = s.drop_last();
        assert forall|i: int| 0 <= i < t.len() - 1 implies same_card(#[trigger] t[i], t[i + 1]) by {
            assert(t[i] == s[i] && t[i + 1] == s[i + 1]);
        }
        lemma_card_kept(t);
        assert(same_card(s[s.len() - 2], s[s.len() - 1]));
    }
}

/// The game card: its image and header, the cipher, the bus registers, the
/// words of the current transfer and the save chip.
pub struct Cartridge {
    pub chip_id: u32,
    pub header: Header,
    pub rom: Vec<u8>,
    pub key1_encryption: Key1Encryption,
    pub spicnt: SPICNT,
    pub romctrl: ROMCTRL,
    pub command: [u8; 8],
    pub cur_game_card_word: u32,
    pub rom_bytes_left: usize,
    pub game_card_words: VecDeque<u32>,
    pub backup: Box<dyn Backup>,
}

impl Cartridge {
    /// A cartridge for `rom`, keyed from the ARM7 BIOS, with `backup` as
    /// its save chip.
    pub fn new(rom: Vec<u8>, bios7: &[u8], backup: Box<dyn Backup>) -> (c: Cartridge)
        requires
            header_ok(rom@),
            bios7@.len() >= KEY_TABLE_START + 4 * KEY_TABLE_SIZE,
        ensures
            c.chip_id == CHIP_ID,
            c.rom@ == rom@,
            c.header.game_code@ == rom@.subrange(0x00C, 0x010),
            c.header.arm9_rom_offset == le32(rom@, 0x020),
            !c.key1_encryption.in_use,
            c.spicnt == spicnt_initial(),
            c.romctrl == romctrl_initial(),
            c.command@ == seq![0u8, 0, 0, 0, 0, 0, 0, 0],
            c.cur_game_card_word == 0,
            c.rom_bytes_left == 0,
            c.game_card_words@ == Seq::<u32>::empty(),
    {
        let header = Header::new(&rom);
        let c = Cartridge {
            chip_id: CHIP_ID,
            header,
            rom,
            key1_encryption: Key1Encryption::new(bios7),
            spicnt: SPICNT::new(),
            romctrl: ROMCTRL::new(),
            command: [0u8; 8],
            cur_game_card_word: 0,
            rom_bytes_left: 0,
            game_card_words: VecDeque::new(),
            backup,
        };
        assert(c.command@ =~= seq![0u8, 0, 0, 0, 0, 0, 0, 0]);
        c
    }

    /// The chip id.
    pub fn chip_id(&self) -> (r: u32)
        ensures
            r == self.chip_id,
    {
        self.chip_id
    }

    /// The ROM image.
    pub fn rom(&self) -> (r: &Vec<u8>)
        ensures
            r@ == self.rom@,
    {
        &self.rom
    }

    /// The decoded header.
    pub fn header(&self) -> (r: &Header)
        ensures
            *r == self.header,
    {
        &self.header
    }

    /// Cycles per transferred byte: 8 at the slow clock, 5 at the fast one.
    pub fn transfer_byte_time(&self) -> (r: usize)
        ensures
            r == (if self.romctrl.transfer_clk_rate { 8usize } else { 5usize }),
    {
        if self.romctrl.transfer_clk_rate {
            8
        } else {
            5
        }
    }

    /// Queues `n` copies of `v`.
    fn push_repeated(&mut self, v: u32, n: usize)
        ensures
            final(self).game_card_words@ == old(self).game_card_words@ + repeat_word(v, n as nat),
            final(self).rom@ == old(self).rom@,
            final(self).header == old(self).header,
            final(self).command == old(self).command,
            final(self).rom_bytes_left == old(self).rom_bytes_left,
            final(self).romctrl == old(self).romctrl,
            final(self).spicnt == old(self).spicnt,
            final(self).chip_id == old(self).chip_id,
            final(self).cur_game_card_word == old(self).cur_game_card_word,
            final(self).key1_encryption.in_use == old(self).key1_encryption.in_use,
            final(self).key1_encryption.key_buf == old(self).key1_encryption.key_buf,
            final(self).key1_encryption.original_key_buf == old(self).key1_encryption.original_key_buf,
    {
        let mut i: usize = 0;
        while i < n
            invariant
                i <= n,
                self.game_card_words@ == old(self).game_card_words@ + repeat_word(v, i as nat),
                self.rom@ == old(self).rom@,
                self.header == old(self).header,
                self.command == old(self).command,
                self.rom_bytes_left == old(self).rom_bytes_left,
                self.romctrl == old(self).romctrl,
                self.spicnt == old(self).spicnt,
                self.chip_id == old(self).chip_id,
                self.cur_game_card_word == old(self).cur_game_card_word,
                self.key1_encryption.in_use == old(self).key1_encryption.in_use,
                self.key1_encryption.key_buf == old(self).key1_encryption.key_buf,
                self.key1_encryption.original_key_buf == old(self).key1_encryption.original_key_buf,
            decreases n - i,
        {
            self.game_card_words.push_back(v);
            i = i + 1;
            assert(self.game_card_words@ =~= old(self).game_card_words@ + repeat_word(v, i as nat));
        }
    }

    /// Queues the little-endian words of `rom[start..end]`.
    fn copy_rom(&mut self, start: usize, end: usize)
        requires
            copy_ok(old(self).rom@, start as int, end as int),
        ensures
            final(self).game_card_words@ == old(self).game_card_words@ + rom_words(
                old(self).rom@,
                start as int,
                end as int,
            ),
            final(self).rom@ == old(self).rom@,
            final(self).header == old(self).header,
            final(self).command == old(self).command,
            final(self).rom_bytes_left == old(self).rom_bytes_left,
            final(self).romctrl == old(self).romctrl,
            final(self).spicnt == old(self).spicnt,
            final(self).chip_id == old(self).chip_id,
            final(self).cur_game_card_word == old(self).cur_game_card_word,
            final(self).key1_encryption.in_use == old(self).key1_encryption.in_use,
            final(self).key1_encryption.key_buf == old(self).key1_encryption.key_buf,
            final(self).key1_encryption.original_key_buf == old(self).key1_encryption.original_key_buf,
    {
        let ghost words = rom_words(self.rom@, start as int, end as int);
        let count: usize = if end > start {
            (end - start) / 4 + if (end - start) % 4 != 0 { 1 } else { 0 }
        } else {
            0
        };
        assert(count == copy_len(start as int, end as int));
        let mut k: usize = 0;
        while k < count
            invariant
                copy_ok(self.rom@, start as int, end as int),
                count == copy_len(start as int, end as int),
                k <= count,
                words == rom_words(self.rom@, start as int, end as int),
                self.game_card_words@ == old(self).game_card_words@ + words.subrange(0, k as int),
                self.rom@ == old(self).rom@,
                self.header == old(self).header,
                self.command == old(self).command,
                self.rom_bytes_left == old(self).rom_bytes_left,
                self.romctrl == old(self).romctrl,
                self.spicnt == old(self).spicnt,
                self.chip_id == old(self).chip_id,
                self.cur_game_card_word == old(self).cur_game_card_word,
                self.key1_encryption.in_use == old(self).key1_encryption.in_use,
                self.key1_encryption.key_buf == old(self).key1_encryption.key_buf,
                self.key1_encryption.original_key_buf == old(self).key1_encryption.original_key_buf,
            decreases count - k,
        {
            assert(4 * k + 4 <= 4 * count) by (nonlinear_arith)
                requires
                    k < count;
            let addr = start + 4 * k;
            assert(addr + 4 <= self.rom.len());
            let w = self.rom[addr] as u32 + self.rom[addr + 1] as u32 * 0x100 + self.rom[addr + 2]
                as u32 * 0x1_0000 + self.rom[addr + 3] as u32 * 0x100_0000;
            assert(w == words[k as int]);
            self.game_card_words.push_back(w);
            k = k + 1;
            assert(words.subrange(0, k as int) =~= words.subrange(0, k - 1) + seq![w]);
        }
        assert(words.subrange(0, k as int) =~= words);
    }
}


/// The length of a block transfer for a ROMCTRL block size code: none,
/// 0x100 << code, or one word for code 7.
pub open spec fn block_len(size: u8) -> int {
    if size == 0 {
        0
    } else if size == 7 {
        4
    } else if size == 1 {
        0x200
    } else if size == 2 {
        0x400
    } else if size == 3 {
        0x800
    } else if size == 4 {
        0x1000
    } else if size == 5 {
        0x2000
    } else {
        0x4000
    }
}

/// Whether an unencrypted command can run with `left` bytes to transfer
/// (the command's reserved bytes must be zero, and reads must stay inside
/// the image).
pub open spec fn unencrypted_ok(c: &Cartridge, left: int) -> bool {
    let cmd = c.command@;
    0 <= left <= 0x4000 && if cmd[0] == 0x00 {
        zero_from(cmd, 1) && left < 0x1000 && copy_ok(c.rom@, 0, left)
    } else if cmd[0] == 0x3C {
        game_id(c.header) <= 0x7FFF_FFFF
    } else if cmd[0] == 0xB7 {
        zero_from(cmd, 5) && b7_addr(cmd) + left < c.rom@.len() && b7_ok(
            c.rom@,
            b7_start(b7_addr(cmd)),
            left,
        )
    } else if cmd[0] == 0xB8 || cmd[0] == 0x9F {
        zero_from(cmd, 1)
    } else {
        true
    }
}

/// The words an unencrypted command produces with `left` bytes to
/// transfer: the header (0x00), nothing (0x3C, which keys the cipher), ROM
/// data (0xB7), the chip id (0xB8, 0x90), open bus (0x9F) or zeros.
pub open spec fn unencrypted_words(c: &Cartridge, left: int) -> Seq<u32> {
    let cmd = c.command@;
    let n = (left / 4) as nat;
    if cmd[0] == 0x00 {
        rom_words(c.rom@, 0, left)
    } else if cmd[0] == 0x3C {
        Seq::empty()
    } else if cmd[0] == 0xB7 {
        b7_words(c.rom@, b7_start(b7_addr(cmd)), left)
    } else if cmd[0] == 0xB8 || cmd[0] == 0x90 {
        repeat_word(c.chip_id, n)
    } else if cmd[0] == 0x9F {
        repeat_word(0xFFFF_FFFF, n)
    } else {
        repeat_word(0, n)
    }
}

impl Cartridge {
    /// Runs the unencrypted command in `command`, queueing the words it
    /// produces; command 0x3C keys the cipher (level 2) instead.
    pub fn run_unencrypted_command(&mut self)
        requires
            unencrypted_ok(old(self), old(self).rom_bytes_left as int),
        ensures
            final(self).game_card_words@ == old(self).game_card_words@ + unencrypted_words(
                old(self),
                old(self).rom_bytes_left as int,
            ),
            old(self).command@[0] == 0x3C ==> final(self).key1_encryption.in_use
                && final(self).key1_encryption.key_buf@ == keyed_table(
                old(self).key1_encryption.original_key_buf@,
                game_id(old(self).header),
                2,
                2,
            ),
            old(self).command@[0] != 0x3C ==> final(self).key1_encryption.in_use == old(
                self,
            ).key1_encryption.in_use && final(self).key1_encryption.key_buf == old(
                self,
            ).key1_encryption.key_buf,
            final(self).key1_encryption.original_key_buf == old(self).key1_encryption.original_key_buf,
            final(self).rom@ == old(self).rom@,
            final(self).header == old(self).header,
            final(self).command == old(self).command,
            final(self).rom_bytes_left == old(self).rom_bytes_left,
            final(self).romctrl == old(self).romctrl,
            final(self).spicnt == old(self).spicnt,
            final(self).chip_id == old(self).chip_id,
            final(self).cur_game_card_word == old(self).cur_game_card_word,
            same_card(*old(self), *final(self)),
    {
        let left = self.rom_bytes_left;
        let c0 = self.command[0];
        if c0 == 0x00 {
            self.copy_rom(0, left);
        } else if c0 == 0x3C {
            let code = &self.header.game_code;
            let id = code[0] as u32 + code[1] as u32 * 0x100 + code[2] as u32 * 0x1_0000 + code[3]
                as u32 * 0x100_0000;
            assert(id == game_id(self.header));
            self.key1_encryption.init_key_code(id, 2, 2);
        } else if c0 == 0xB7 {
            self.read_data(left);
        } else if c0 == 0xB8 || c0 == 0x90 {
            let id = self.chip_id;
            self.push_repeated(id, left / 4);
        } else if c0 == 0x9F {
            self.push_repeated(0xFFFF_FFFF, left / 4);
        } else {
            self.push_repeated(0, left / 4);
        }
    }
}

impl Cartridge {
    /// Command 0xB7: queues `left` bytes of ROM data from the address in
    /// command bytes 1 to 4 (most significant first).
    fn read_data(&mut self, left: usize)
        requires
            left <= 0x4000,
            b7_addr(old(self).command@) + left < old(self).rom@.len(),
            b7_ok(old(self).rom@, b7_start(b7_addr(old(self).command@)), left as int),
        ensures
            final(self).game_card_words@ == old(self).game_card_words@ + b7_words(
                old(self).rom@,
                b7_start(b7_addr(old(self).command@)),
                left as int,
            ),
            final(self).key1_encryption.in_use == old(self).key1_encryption.in_use,
            final(self).key1_encryption.key_buf == old(self).key1_encryption.key_buf,
            final(self).key1_encryption.original_key_buf == old(self).key1_encryption.original_key_buf,
            final(self).rom@ == old(self).rom@,
            final(self).header == old(self).header,
            final(self).command == old(self).command,
            final(self).rom_bytes_left == old(self).rom_bytes_left,
            final(self).romctrl == old(self).romctrl,
            final(self).spicnt == old(self).spicnt,
            final(self).chip_id == old(self).chip_id,
            final(self).cur_game_card_word == old(self).cur_game_card_word,
    {
        let rom_len = self.rom.len();
        let addr: usize = self.command[1] as usize * 0x100_0000 + self.command[2] as usize
            * 0x1_0000 + self.command[3] as usize * 0x100 + self.command[4] as usize;
        assert(addr == b7_addr(self.command@));
        let addr = if addr < 0x8000 {
            0x8000 + addr % 0x2000
        } else {
            addr
        };
        let ghost w0 = self.game_card_words@;
        if addr / 0x1000 % 2 != (addr + left) / 0x1000 % 2 {
            let block4k_start = addr - addr % 0x1000;
            let block4k_end = block4k_start + 0x1000;
            assert(addr + left >= block4k_end);
            let extra_len = left - (block4k_end - addr);
            self.copy_rom(addr, block4k_end);
            self.copy_rom(block4k_start, block4k_start + extra_len);
            assert(self.game_card_words@ =~= w0 + b7_words(self.rom@, addr as int, left as int));
        } else {
            self.copy_rom(addr, addr + left);
        }
    }
}

/// The eight command bytes in reverse order.
pub open spec fn reversed8(b: Seq<u8>) -> Seq<u8> {
    Seq::new(8, |i: int| b[7 - i])
}

/// The command after KEY1 decryption: the bytes are reversed, read as two
/// words (`le_in` gives the byte order), deciphered, written back
/// (`le_out`) and reversed again.
pub open spec fn decrypted_command(k: Seq<u32>, cmd: Seq<u8>, le_in: bool, le_out: bool) -> Seq<u8> {
    let w = words_in_order(reversed8(cmd), le_in);
    reversed8(bytes_in_order(cipher(k, w.0, w.1, false), le_out))
}

/// The ROM address of encrypted command 2 (read secure area block).
pub open spec fn secure_addr(cmd: Seq<u8>) -> int {
    ((((cmd[2] as u32) & 0xF0) << 8u32) | ((cmd[1] as u32) << 8u32) | ((cmd[0] as u32) & 0x0F))
        as int
}

/// Whether the decrypted command `cmd` can run with `left` bytes to
/// transfer: a secure area read must name a 4 KiB block in 0x4000..=0x7000
/// and transfer exactly that block.
pub open spec fn encrypted_ok(rom: Seq<u8>, cmd: Seq<u8>, left: int) -> bool {
    cmd[0] / 16 == 2 ==> {
        let addr = secure_addr(cmd);
        &&& 0x4000 <= addr <= 0x7000
        &&& addr % 0x1000 == 0
        &&& left == 0x1000
        &&& copy_ok(rom, addr, addr + left)
    }
}

/// The words the decrypted command `cmd` produces: the chip id (1), a
/// secure area block (2), open bus (4) or zeros (0xA and the rest).
pub open spec fn encrypted_words(rom: Seq<u8>, chip_id: u32, cmd: Seq<u8>, left: int) -> Seq<u32> {
    let n = (left / 4) as nat;
    if cmd[0] / 16 == 1 {
        repeat_word(chip_id, n)
    } else if cmd[0] / 16 == 2 {
        rom_words(rom, secure_addr(cmd), secure_addr(cmd) + left)
    } else if cmd[0] / 16 == 4 {
        repeat_word(0xFFFF_FFFF, n)
    } else {
        repeat_word(0, n)
    }
}

/// The outcome of an encrypted command whose decryption is `cmd`.
pub open spec fn encrypted_outcome(old: &Cartridge, new: &Cartridge, cmd: Seq<u8>) -> bool {
    &&& new.command@ == cmd
    &&& new.game_card_words@ == old.game_card_words@ + encrypted_words(
        old.rom@,
        old.chip_id,
        cmd,
        old.rom_bytes_left as int,
    )
    &&& new.key1_encryption.in_use == (old.key1_encryption.in_use && cmd[0] / 16 != 0xA)
}

/// Whether the command in `c` can run as a block of size code `size`.
pub open spec fn command_ok(c: &Cartridge, size: u8) -> bool {
    &&& c.rom_bytes_left % 4 == 0
    &&& size < 8
    &&& c.key1_encryption.in_use ==> forall|a: bool, b: bool|
        encrypted_ok(
            c.rom@,
            #[trigger] decrypted_command(c.key1_encryption.key_buf@, c.command@, a, b),
            block_len(size),
        )
    &&& !c.key1_encryption.in_use ==> unencrypted_ok(c, block_len(size))
}

impl Cartridge {
    /// Runs the KEY1-encrypted command in `command`: the command is
    /// deciphered in place (it arrives most significant byte first), then
    /// the words it asks for are queued; command 0xA ends KEY1 mode.
    pub fn run_encrypted_command(&mut self)
        requires
            old(self).rom_bytes_left <= 0x4000,
            forall|a: bool, b: bool|
                encrypted_ok(
                    old(self).rom@,
                    #[trigger] decrypted_command(old(self).key1_encryption.key_buf@, old(self).command@, a, b),
                    old(self).rom_bytes_left as int,
                ),
        ensures
            exists|a: bool, b: bool|
                encrypted_outcome(
                    old(self),
                    final(self),
                    #[trigger] decrypted_command(old(self).key1_encryption.key_buf@, old(self).command@, a, b),
                ),
            final(self).key1_encryption.key_buf == old(self).key1_encryption.key_buf,
            final(self).key1_encryption.original_key_buf == old(self).key1_encryption.original_key_buf,
            final(self).rom@ == old(self).rom@,
            final(self).header == old(self).header,
            final(self).rom_bytes_left == old(self).rom_bytes_left,
            final(self).romctrl == old(self).romctrl,
            final(self).spicnt == old(self).spicnt,
            final(self).chip_id == old(self).chip_id,
            final(self).cur_game_card_word == old(self).cur_game_card_word,
            same_card(*old(self), *final(self)),
    {
        let ghost k = self.key1_encryption.key_buf@;
        let ghost cmd0 = self.command@;
        let c = self.command;
        let rev = [c[7], c[6], c[5], c[4], c[3], c[2], c[1], c[0]];
        assert(rev@ =~= reversed8(cmd0));
        let w = words_of_bytes(rev);
        let mut block = vec![w[0], w[1]];
        self.key1_encryption.decrypt(block.as_mut_slice());
        let d = bytes_of_words([block[0], block[1]]);
        self.command = [d[7], d[6], d[5], d[4], d[3], d[2], d[1], d[0]];
        let ghost le_in = (w@[0], w@[1]) == words_in_order(reversed8(cmd0), true);
        let ghost d2 = cipher(k, w@[0], w@[1], false);
        let ghost le_out = d@ == bytes_in_order(d2, true);
        assert(self.command@ =~= decrypted_command(k, cmd0, le_in, le_out));
        assert(encrypted_ok(self.rom@, self.command@, self.rom_bytes_left as int));
        let left = self.rom_bytes_left;
        let kind = self.command[0] / 16;
        if kind == 1 {
            let id = self.chip_id;
            self.push_repeated(id, left / 4);
        } else if kind == 2 {
            let addr: usize = ((((self.command[2] as u32) & 0xF0) << 8u32) | ((self.command[1] as u32)
                << 8u32) | ((self.command[0] as u32) & 0x0F)) as usize;
            self.copy_rom(addr, addr + left);
        } else if kind == 4 {
            self.push_repeated(0xFFFF_FFFF, left / 4);
        } else {
            if kind == 0xA {
                self.key1_encryption.in_use = false;
            }
            self.push_repeated(0, left / 4);
        }
        assert(encrypted_outcome(old(self), self, decrypted_command(k, cmd0, le_in, le_out)));
    }

    /// Starts the transfer for the command in `command`: sets the block
    /// length from ROMCTRL, marks the block busy, clears the queued words,
    /// runs the command (encrypted while KEY1 is in use) and says which
    /// event the caller schedules: the end of the block after the eight
    /// command bytes, or the first word after eight more bytes and a word.
    pub fn run_command(&mut self, is_arm9: bool) -> (a: CardAction)
        requires
            command_ok(old(self), old(self).romctrl.data_block_size),
        ensures
            final(self).rom_bytes_left == block_len(old(self).romctrl.data_block_size),
            final(self).romctrl == (ROMCTRL {
                block_busy: true,
                data_word_ready: false,
                ..old(self).romctrl
            }),
            !old(self).key1_encryption.in_use ==> final(self).game_card_words@ == unencrypted_words(
                old(self),
                block_len(old(self).romctrl.data_block_size),
            ),
            old(self).key1_encryption.in_use ==> exists|x: bool, y: bool|
                #[trigger] decrypted_command(old(self).key1_encryption.key_buf@, old(self).command@, x, y)
                    == final(self).command@ && final(self).game_card_words@ == encrypted_words(
                    old(self).rom@,
                    old(self).chip_id,
                    final(self).command@,
                    block_len(old(self).romctrl.data_block_size),
                ),
            a == (if final(self).rom_bytes_left == 0 {
                CardAction::Schedule(
                    CardEvent::BlockEnded(is_arm9),
                    (if old(self).romctrl.transfer_clk_rate { 64usize } else { 40usize }),
                )
            } else {
                CardAction::Schedule(
                    CardEvent::WordTransferred(is_arm9),
                    (if old(self).romctrl.transfer_clk_rate { 96usize } else { 60usize }),
                )
            }),
            final(self).rom@ == old(self).rom@,
            final(self).header == old(self).header,
            final(self).chip_id == old(self).chip_id,
            final(self).spicnt == old(self).spicnt,
            same_card(*old(self), *final(self)),
    {
        let size = self.romctrl.data_block_size;
        self.rom_bytes_left = if size == 0 {
            0
        } else if size == 7 {
            4
        } else if size == 1 {
            0x200
        } else if size == 2 {
            0x400
        } else if size == 3 {
            0x800
        } else if size == 4 {
            0x1000
        } else if size == 5 {
            0x2000
        } else {
            0x4000
        };
        self.romctrl.block_busy = true;
        self.romctrl.data_word_ready = false;
        self.game_card_words.clear();
        if self.key1_encryption.in_use {
            self.run_encrypted_command();
        } else {
            self.run_unencrypted_command();
        }
        let time = self.transfer_byte_time();
        if self.rom_bytes_left == 0 {
            CardAction::Schedule(CardEvent::BlockEnded(is_arm9), time * 8)
        } else {
            CardAction::Schedule(CardEvent::WordTransferred(is_arm9), time * 12)
        }
    }
}

impl Cartridge {
    /// Reads the current data word. With access and a word ready, the word
    /// is consumed: the byte count drops by four and the next word is
    /// scheduled, or the block ends at once when none is left.
    pub fn read_gamecard(&mut self, is_arm9: bool, has_access: bool) -> (r: (u32, CardAction))
        requires
            has_access && old(self).romctrl.data_word_ready ==> old(self).rom_bytes_left >= 4,
        ensures
            !has_access ==> r == (0u32, CardAction::Nothing) && *final(self) == *old(self),
            has_access && !old(self).romctrl.data_word_ready ==> r == (
                old(self).cur_game_card_word,
                CardAction::Nothing,
            ) && *final(self) == *old(self),
            has_access && old(self).romctrl.data_word_ready ==> {
                &&& final(self).romctrl == (ROMCTRL { data_word_ready: false, ..old(self).romctrl })
                &&& final(self).rom_bytes_left == old(self).rom_bytes_left - 4
                &&& r.0 == old(self).cur_game_card_word
                &&& r.1 == if final(self).rom_bytes_left > 0 {
                    CardAction::Schedule(
                        CardEvent::WordTransferred(is_arm9),
                        if old(self).romctrl.transfer_clk_rate { 32usize } else { 20usize },
                    )
                } else {
                    CardAction::RunNow(CardEvent::BlockEnded(is_arm9))
                }
                &&& *final(self) == (Cartridge {
                    romctrl: final(self).romctrl,
                    rom_bytes_left: final(self).rom_bytes_left,
                    ..*old(self)
                })
            },
            same_card(*old(self), *final(self)),
    {
        if !has_access {
            return (0, CardAction::Nothing);
        }
        if !self.romctrl.data_word_ready {
            return (self.cur_game_card_word, CardAction::Nothing);
        }
        self.romctrl.data_word_ready = false;
        self.rom_bytes_left = self.rom_bytes_left - 4;
        let action = if self.rom_bytes_left > 0 {
            let time = self.transfer_byte_time();
            CardAction::Schedule(CardEvent::WordTransferred(is_arm9), time * 4)
        } else {
            CardAction::RunNow(CardEvent::BlockEnded(is_arm9))
        };
        (self.cur_game_card_word, action)
    }

    /// A word has arrived: it becomes the current data word and is marked
    /// ready.
    pub fn word_transferred(&mut self)
        requires
            old(self).game_card_words@.len() > 0,
        ensures
            final(self).cur_game_card_word == old(self).game_card_words@[0],
            final(self).game_card_words@ == old(self).game_card_words@.drop_first(),
            final(self).romctrl == (ROMCTRL { data_word_ready: true, ..old(self).romctrl }),
            *final(self) == (Cartridge {
                cur_game_card_word: final(self).cur_game_card_word,
                game_card_words: final(self).game_card_words,
                romctrl: final(self).romctrl,
                ..*old(self)
            }),
            same_card(*old(self), *final(self)),
    {
        let w = self.game_card_words.pop_front();
        match w {
            Some(w) => self.cur_game_card_word = w,
            None => {},
        }
        self.romctrl.data_word_ready = true;
    }

    /// The block has ended: the bus is no longer busy. Returns whether the
    /// transfer-complete interrupt is requested.
    pub fn block_ended(&mut self) -> (irq: bool)
        ensures
            final(self).romctrl == (ROMCTRL { block_busy: false, ..old(self).romctrl }),
            irq == old(self).spicnt.transfer_ready_irq,
            *final(self) == (Cartridge { romctrl: final(self).romctrl, ..*old(self) }),
            same_card(*old(self), *final(self)),
    {
        self.romctrl.block_busy = false;
        self.spicnt.transfer_ready_irq
    }

    /// Reads the save chip's data byte (0 without access).
    pub fn read_spi_data(&self, has_access: bool) -> (r: u8)
        ensures
            !has_access ==> r == 0,
            has_access ==> r == self.backup.bus_byte(),
    {
        if !has_access {
            return 0;
        }
        self.backup.read()
    }

    /// Reads byte `byte` of ROMCTRL.
    pub fn read_romctrl(&self, has_access: bool, byte: usize) -> (r: u8)
        requires
            has_access ==> byte < 4,
        ensures
            r == (if has_access { self.romctrl.byte_value(byte) } else { 0u8 }),
    {
        self.romctrl.read(has_access, byte)
    }

    /// Clocks a byte into the save chip, keeping it selected while
    /// AUXSPICNT's hold bit is set; without access nothing happens.
    pub fn write_spi_data(&mut self, has_access: bool, value: u8)
        requires
            has_access ==> old(self).backup.write_ok(old(self).spicnt.hold, value),
        ensures
            has_access ==> final(self).backup.chip_mem() == old(self).backup.mem_after(old(self).spicnt.hold, value)
                && final(self).backup.chip_regs() == old(self).backup.regs_after(old(self).spicnt.hold, value),
            has_access ==> final(self).backup.is_dirty() == (old(self).backup.is_dirty()
                || old(self).backup.stores(old(self).spicnt.hold, value)),
            !has_access ==> *final(self) == *old(self),
            final(self).chip_id == old(self).chip_id,
            final(self).header == old(self).header,
            final(self).rom == old(self).rom,
            final(self).key1_encryption == old(self).key1_encryption,
            final(self).spicnt == old(self).spicnt,
            final(self).romctrl == old(self).romctrl,
            final(self).command == old(self).command,
            final(self).cur_game_card_word == old(self).cur_game_card_word,
            final(self).rom_bytes_left == old(self).rom_bytes_left,
            final(self).game_card_words == old(self).game_card_words,
            same_card(*old(self), *final(self)),
    {
        if !has_access {
            return;
        }
        let hold = self.spicnt.hold;
        self.backup.write(hold, value);
    }

    /// Writes byte `byte` of the command; without access nothing changes.
    pub fn write_command(&mut self, has_access: bool, byte: usize, value: u8)
        requires
            has_access ==> byte < 8,
        ensures
            final(self).command@ == (if has_access {
                old(self).command@.update(byte as int, value)
            } else {
                old(self).command@
            }),
            *final(self) == (Cartridge { command: final(self).command, ..*old(self) }),
            same_card(*old(self), *final(self)),
    {
        if !has_access {
            return;
        }
        self.command[byte] = value;
    }
}

impl Cartridge {
    /// Writes byte `byte` of ROMCTRL; a write that sets the block start bit
    /// runs the command (see `run_command`) and returns its scheduling.
    pub fn write_romctrl(&mut self, is_arm9: bool, has_access: bool, byte: usize, value: u8) -> (a: CardAction)
        requires
            has_access ==> byte < 4,
            has_access && byte == 3 && value & 0x80 != 0 ==> command_ok(old(self), value & 0x7),
        ensures
            final(self).chip_id == old(self).chip_id,
            final(self).rom@ == old(self).rom@,
            final(self).header == old(self).header,
            !(has_access && byte == 3 && value & 0x80 != 0) ==> a == CardAction::Nothing
                && final(self).romctrl == (if has_access {
                old(self).romctrl.written(byte, value)
            } else {
                old(self).romctrl
            }) && *final(self) == (Cartridge { romctrl: final(self).romctrl, ..*old(self) }),
            has_access && byte == 3 && value & 0x80 != 0 ==> final(self).rom_bytes_left == block_len(
                value & 0x7,
            ) && final(self).romctrl == (ROMCTRL {
                block_busy: true,
                data_word_ready: false,
                ..old(self).romctrl.written(byte, value)
            }) && a is Schedule,
            same_card(*old(self), *final(self)),
    {
        if self.romctrl.write(has_access, byte, value) {
            self.run_command(is_arm9)
        } else {
            CardAction::Nothing
        }
    }
}

} // verus!
