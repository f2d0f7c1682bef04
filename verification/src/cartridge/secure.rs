//! Re-encrypting the secure area of a decrypted ROM image, so that the
//! BIOS finds it as on a real card.
use vstd::prelude::*;
use super::card::{Cartridge, game_id};
use super::header::Header;
use super::key1::{
    be_word, bytes_in_order, cipher, code_after_two, keyed_table, le_bytes, le_word, words_in_order,
    words_of_bytes, Key1Encryption, KEY_TABLE_SIZE,
};

verus! {

/// The word a decrypted image keeps in the first three words of a secure
/// area whose contents were destroyed.
pub const DESTROYED_SECURE_AREA_ID: u32 = 0xE7FF_DEFF;

/// The bytes of the secure area.
pub const SECURE_AREA_SIZE: usize = 0x800;

/// "encryObj", which the BIOS expects in the first eight bytes of the
/// decrypted secure area.
pub open spec fn decrypted_id() -> Seq<u8> {
    seq![0x65u8, 0x6E, 0x63, 0x72, 0x79, 0x4F, 0x62, 0x6A]
}

/// The word at `at`, its bytes least significant first (`le`) or most
/// significant first.
pub open spec fn word_at(rom: Seq<u8>, at: int, le: bool) -> u32 {
    if le {
        le_word(rom.subrange(at, at + 4))
    } else {
        be_word(rom.subrange(at, at + 4))
    }
}

/// Whether the image holds, where the header puts the ARM9 code inside
/// 0x4000..0x8000, a secure area marked as destroyed: three ID words and
/// bytes 0xC, 0xD equal to 0xFF, 0xDE.
pub open spec fn secure_area_marked(rom: Seq<u8>, h: Header, le: bool) -> bool {
    let s = h.arm9_rom_offset as int;
    &&& 0x4000 <= s < 0x8000
    &&& s + SECURE_AREA_SIZE <= rom.len()
    &&& word_at(rom, s, le) == DESTROYED_SECURE_AREA_ID
    &&& word_at(rom, s + 4, le) == DESTROYED_SECURE_AREA_ID
    &&& word_at(rom, s + 8, le) == DESTROYED_SECURE_AREA_ID
    &&& rom[s + 0xC] == 0xFF
    &&& rom[s + 0xD] == 0xDE
}

/// The secure area at `s` with its first eight bytes replaced by the ID
/// string.
pub open spec fn secure_area_plain(rom: Seq<u8>, s: int) -> Seq<u8> {
    decrypted_id() + rom.subrange(s + 8, s + SECURE_AREA_SIZE as int)
}

/// The words of block `j` of the area enciphered with the level 3 table.
pub open spec fn level3_block(area: Seq<u8>, j: int, k3: Seq<u32>, le: bool) -> (u32, u32) {
    let p = words_in_order(area.subrange(8 * j, 8 * j + 8), le);
    cipher(k3, p.0, p.1, true)
}

/// The eight bytes of block `j` of the area after encryption: enciphered
/// with the level 3 table `k3`, and the first block once more with the
/// level 2 table `k2`; words are read and written in byte order `le`.
pub open spec fn encrypted_block(area: Seq<u8>, j: int, k3: Seq<u32>, k2: Seq<u32>, le: bool) -> Seq<u8> {
    let c = level3_block(area, j, k3, le);
    let d = if j == 0 {
        cipher(k2, c.0, c.1, true)
    } else {
        c
    };
    bytes_in_order(d, le)
}

/// The image after `encrypt_secure_area` in byte order `le`: a marked
/// secure area takes the ID string and is enciphered block by block at
/// level 3 (and its first block again at level 2), keyed by the game code
/// from the table `k0`; any other image is left as it is.
pub open spec fn secure_area_encrypted(rom: Seq<u8>, h: Header, k0: Seq<u32>, le: bool) -> Seq<u8> {
    if secure_area_marked(rom, h, le) {
        let s = h.arm9_rom_offset as int;
        let area = secure_area_plain(rom, s);
        let k3 = keyed_table(k0, game_id(h), 3, 2);
        let k2 = keyed_table(k0, game_id(h), 2, 2);
        Seq::new(
            rom.len(),
            |i: int|
                if s <= i < s + SECURE_AREA_SIZE {
                    encrypted_block(area, (i - s) / 8, k3, k2, le)[(i - s) % 8]
                } else {
                    rom[i]
                },
        )
    } else {
        rom
    }
}

/// Whether the image and cipher after `encrypt_secure_area` are those for
/// byte order `le`: the image as `secure_area_encrypted` gives it, and the
/// cipher keyed at level 2 and not in use when the area was encrypted,
/// unchanged otherwise.
pub open spec fn secure_area_outcome(
    rom0: Seq<u8>,
    h: Header,
    key0: Key1Encryption,
    rom1: Seq<u8>,
    key1: Key1Encryption,
    le: bool,
) -> bool {
    &&& rom1 == secure_area_encrypted(rom0, h, key0.original_key_buf@, le)
    &&& secure_area_marked(rom0, h, le) ==> {
        &&& !key1.in_use
        &&& key1.original_key_buf == key0.original_key_buf
        &&& key1.key_buf@ == keyed_table(key0.original_key_buf@, game_id(h), 2, 2)
    }
    &&& !secure_area_marked(rom0, h, le) ==> key1 == key0
}

/// Whether keying the cipher for the secure area stays within 32 bits
/// (the key code doubles the game code, and level 3 doubles word 1 again).
pub open spec fn secure_key_ok(h: Header, k0: Seq<u32>) -> bool {
    &&& game_id(h) <= 0x7FFF_FFFF
    &&& code_after_two(k0, game_id(h), 2)[1] <= 0x7FFF_FFFF
}

/// The word at byte `o` of `b`, read in byte order `le`.
fn word_of(b: [u8; 8], o: usize, le: bool) -> (w: u32)
    requires
        o == 0 || o == 4,
    ensures
        w == word_at(b@, o as int, le),
{
    if le {
        b[o] as u32 + b[o + 1] as u32 * 0x100 + b[o + 2] as u32 * 0x1_0000 + b[o + 3] as u32 * 0x100_0000
    } else {
        b[o + 3] as u32 + b[o + 2] as u32 * 0x100 + b[o + 1] as u32 * 0x1_0000 + b[o] as u32 * 0x100_0000
    }
}

/// The two words of `b`, each read in byte order `le`.
fn words_of(b: [u8; 8], le: bool) -> (r: (u32, u32))
    ensures
        r == words_in_order(b@, le),
{
    (word_of(b, 0, le), word_of(b, 4, le))
}

/// Writing two words as bytes and reading them back in the same byte
/// order gives the words.
proof fn lemma_bytes_words_roundtrip(w: (u32, u32), le: bool)
    ensures
        words_in_order(bytes_in_order(w, le), le) == w,
{
    let b = bytes_in_order(w, le);
    lemma_le_bytes_roundtrip(w.0);
    lemma_le_bytes_roundtrip(w.1);
    assert(b.subrange(0, 4) =~= if le { le_bytes(w.0) } else { le_bytes(w.0).reverse() });
    assert(b.subrange(4, 8) =~= if le { le_bytes(w.1) } else { le_bytes(w.1).reverse() });
}

/// A word's four bytes, least significant first, read back.
proof fn lemma_le_bytes_roundtrip(x: u32)
    ensures
        le_word(le_bytes(x)) == x,
        be_word(le_bytes(x).reverse()) == x,
{
    let b = le_bytes(x);
    assert(b[0] + b[1] * 0x100int + b[2] * 0x1_0000int + b[3] * 0x100_0000int == x) by (nonlinear_arith)
        requires
            b[0] == x % 0x100,
            b[1] == x / 0x100 % 0x100,
            b[2] == x / 0x1_0000 % 0x100,
            b[3] == x / 0x100_0000,
            0 <= x < 0x1_0000_0000,
    ;
    let r = b.reverse();
    assert(r[3] == b[0] && r[2] == b[1] && r[1] == b[2] && r[0] == b[3]);
}

/// The eight bytes of two words, each written in byte order `le`.
fn bytes_of(w: (u32, u32), le: bool) -> (r: [u8; 8])
    ensures
        r@ == bytes_in_order(w, le),
{
    let a = w.0;
    let b = w.1;
    let a0 = (a % 0x100) as u8;
    let a1 = (a / 0x100 % 0x100) as u8;
    let a2 = (a / 0x1_0000 % 0x100) as u8;
    let a3 = (a / 0x100_0000) as u8;
    let b0 = (b % 0x100) as u8;
    let b1 = (b / 0x100 % 0x100) as u8;
    let b2 = (b / 0x1_0000 % 0x100) as u8;
    let b3 = (b / 0x100_0000) as u8;
    let r = if le {
        [a0, a1, a2, a3, b0, b1, b2, b3]
    } else {
        [a3, a2, a1, a0, b3, b2, b1, b0]
    };
    assert(r@ =~= bytes_in_order(w, le));
    r
}

impl Cartridge {
    /// The eight bytes at `at`.
    fn rom_block(&self, at: usize) -> (r: [u8; 8])
        requires
            at + 8 <= self.rom.len(),
        ensures
            r@ == self.rom@.subrange(at as int, at as int + 8),
    {
        let r = [
            self.rom[at],
            self.rom[at + 1],
            self.rom[at + 2],
            self.rom[at + 3],
            self.rom[at + 4],
            self.rom[at + 5],
            self.rom[at + 6],
            self.rom[at + 7],
        ];
        assert(r@ =~= self.rom@.subrange(at as int, at as int + 8));
        r
    }

    /// Writes eight bytes at `at`.
    fn set_rom_block(&mut self, at: usize, b: [u8; 8])
        requires
            at + 8 <= old(self).rom.len(),
        ensures
            final(self).rom@ == Seq::new(
                old(self).rom@.len(),
                |i: int|
                    if at <= i < at + 8 {
                        b@[i - at]
                    } else {
                        old(self).rom@[i]
                    },
            ),
            *final(self) == (Cartridge { rom: final(self).rom, ..*old(self) }),
    {
        let mut k: usize = 0;
        while k < 8
            invariant
                k <= 8,
                at + 8 <= old(self).rom.len(),
                self.rom.len() == old(self).rom.len(),
                self.rom@ == Seq::new(
                    old(self).rom@.len(),
                    |i: int|
                        if at <= i < at + k {
                            b@[i - at]
                        } else {
                            old(self).rom@[i]
                        },
                ),
                *self == (Cartridge { rom: self.rom, ..*old(self) }),
            decreases 8 - k,
        {
            self.rom.set(at + k, b[k]);
            k = k + 1;
            assert(self.rom@ =~= Seq::new(
                old(self).rom@.len(),
                |i: int|
                    if at <= i < at + k {
                        b@[i - at]
                    } else {
                        old(self).rom@[i]
                    },
            ));
        }
    }

    /// Enciphers every block of the secure area at `start` with the cipher
    /// as it is keyed, in byte order `le`.
    fn encrypt_blocks_level3(&mut self, start: usize, le: bool, Ghost(area): Ghost<Seq<u8>>, Ghost(k3): Ghost<Seq<u32>>)
        requires
            start + SECURE_AREA_SIZE <= old(self).rom.len(),
            area.len() == SECURE_AREA_SIZE,
            old(self).rom@.subrange(start as int, start as int + SECURE_AREA_SIZE) == area,
            old(self).key1_encryption.key_buf@ == k3,
        ensures
            final(self).rom@ == Seq::new(
                old(self).rom@.len(),
                |i: int|
                    if start <= i < start + SECURE_AREA_SIZE {
                        bytes_in_order(level3_block(area, (i - start) / 8, k3, le), le)[(i - start) % 8]
                    } else {
                        old(self).rom@[i]
                    },
            ),
            *final(self) == (Cartridge { rom: final(self).rom, ..*old(self) }),
    {
        let ghost rom0 = self.rom@;
        let mut j: usize = 0;
        while j < SECURE_AREA_SIZE / 8
            invariant
                j <= SECURE_AREA_SIZE / 8,
                start + SECURE_AREA_SIZE <= rom0.len(),
                rom0.len() == self.rom.len(),
                area.len() == SECURE_AREA_SIZE,
                rom0.subrange(start as int, start as int + SECURE_AREA_SIZE) == area,
                self.key1_encryption.key_buf@ == k3,
                self.rom@ == Seq::new(
                    rom0.len(),
                    |i: int|
                        if start <= i < start + 8 * j {
                            bytes_in_order(level3_block(area, (i - start) / 8, k3, le), le)[(i - start) % 8]
                        } else {
                            rom0[i]
                        },
                ),
                *self == (Cartridge { rom: self.rom, ..*old(self) }),
            decreases SECURE_AREA_SIZE / 8 - j,
        {
            let at = start + 8 * j;
            let b = self.rom_block(at);
            assert(b@ =~= area.subrange(8 * j as int, 8 * j as int + 8)) by {
                assert forall|k: int| 0 <= k < 8 implies b@[k] == rom0[at + k] by {}
            }
            let p = words_of(b, le);
            let mut blk: [u32; 2] = [p.0, p.1];
            self.key1_encryption.encrypt(&mut blk);
            let out = bytes_of((blk[0], blk[1]), le);
            assert(out@ == bytes_in_order(level3_block(area, j as int, k3, le), le));
            self.set_rom_block(at, out);
            j = j + 1;
            assert(self.rom@ =~= Seq::new(
                rom0.len(),
                |i: int|
                    if start <= i < start + 8 * j {
                        bytes_in_order(level3_block(area, (i - start) / 8, k3, le), le)[(i - start) % 8]
                    } else {
                        rom0[i]
                    },
            ));
        }
    }

    /// Re-encrypts the secure area of a decrypted image so that the BIOS
    /// can decrypt it: when the header puts the ARM9 code inside
    /// 0x4000..0x8000 and the area there is marked as destroyed, its first
    /// eight bytes become "encryObj", the whole 2 KiB is enciphered at
    /// level 3 and its first eight bytes once more at level 2, and the
    /// cipher is left keyed but not in use. Otherwise nothing changes.
    /// Words are read and written in the machine's byte order, the one
    /// `bytemuck` casts in.
    #[verifier::spinoff_prover]
    #[verifier::rlimit(40)]
    pub fn encrypt_secure_area(&mut self)
        requires
            0x4000 <= old(self).header.arm9_rom_offset < 0x8000 ==> old(self).header.arm9_rom_offset
                + SECURE_AREA_SIZE <= old(self).rom@.len(),
            secure_area_marked(old(self).rom@, old(self).header, true) || secure_area_marked(
                old(self).rom@,
                old(self).header,
                false,
            ) ==> secure_key_ok(old(self).header, old(self).key1_encryption.original_key_buf@),
            old(self).key1_encryption.original_key_buf@.len() == KEY_TABLE_SIZE,
        ensures
            secure_area_outcome(
                old(self).rom@,
                old(self).header,
                old(self).key1_encryption,
                final(self).rom@,
                final(self).key1_encryption,
                true,
            ) || secure_area_outcome(
                old(self).rom@,
                old(self).header,
                old(self).key1_encryption,
                final(self).rom@,
                final(self).key1_encryption,
                false,
            ),
            *final(self) == (Cartridge {
                rom: final(self).rom,
                key1_encryption: final(self).key1_encryption,
                ..*old(self)
            }),
    {
        let probe = words_of_bytes([1, 0, 0, 0, 0, 0, 0, 0]);
        let le = probe[0] == 1;
        let ghost rom0 = self.rom@;
        let ghost h = self.header;
        let ghost key0 = self.key1_encryption;
        let start = self.header.arm9_rom_offset as usize;
        if !(0x4000 <= start && start < 0x8000) {
            assert(!secure_area_marked(rom0, h, le));
            return;
        }
        let first = self.rom_block(start);
        let head = words_of(first, le);
        let second = self.rom_block(start + 8);
        let third = words_of(second, le);
        proof {
            assert(first@.subrange(0, 4) =~= rom0.subrange(start as int, start as int + 4));
            assert(first@.subrange(4, 8) =~= rom0.subrange(start as int + 4, start as int + 8));
            assert(second@.subrange(0, 4) =~= rom0.subrange(start as int + 8, start as int + 12));
        }
        if head.0 != DESTROYED_SECURE_AREA_ID || head.1 != DESTROYED_SECURE_AREA_ID || third.0
            != DESTROYED_SECURE_AREA_ID {
            assert(!secure_area_marked(rom0, h, le));
            return;
        }
        if self.rom[start + 0xC] != 0xFF || self.rom[start + 0xD] != 0xDE {
            assert(!secure_area_marked(rom0, h, le));
            return;
        }
        assert(secure_area_marked(rom0, h, le));
        let ghost area = secure_area_plain(rom0, start as int);
        // "encryObj"
        self.set_rom_block(start, [0x65, 0x6E, 0x63, 0x72, 0x79, 0x4F, 0x62, 0x6A]);
        assert(self.rom@.subrange(start as int, start as int + SECURE_AREA_SIZE) =~= area);
        let code = &self.header.game_code;
        let id = code[0] as u32 + code[1] as u32 * 0x100 + code[2] as u32 * 0x1_0000 + code[3] as u32
            * 0x100_0000;
        assert(id == game_id(h));
        let ghost k3 = keyed_table(key0.original_key_buf@, id, 3, 2);
        let ghost k2 = keyed_table(key0.original_key_buf@, id, 2, 2);
        self.key1_encryption.init_key_code(id, 3, 2);
        self.encrypt_blocks_level3(start, le, Ghost(area), Ghost(k3));
        self.key1_encryption.init_key_code(id, 2, 2);
        let b = self.rom_block(start);
        assert(b@ =~= bytes_in_order(level3_block(area, 0, k3, le), le));
        proof {
            lemma_bytes_words_roundtrip(level3_block(area, 0, k3, le), le);
        }
        let p = words_of(b, le);
        let mut blk: [u32; 2] = [p.0, p.1];
        self.key1_encryption.encrypt(&mut blk);
        let out = bytes_of((blk[0], blk[1]), le);
        self.set_rom_block(start, out);
        self.key1_encryption.in_use = false;
        proof {
            assert(out@ == encrypted_block(area, 0, k3, k2, le));
            assert(self.rom@ =~= secure_area_encrypted(rom0, h, key0.original_key_buf@, le));
        }
    }
}

} // verus!
