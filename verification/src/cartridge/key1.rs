//! KEY1, the Blowfish-style cipher of the cartridge protocol: a 64-bit block
//! cipher keyed by a table of 0x412 words taken from the ARM7 BIOS.
use vstd::prelude::*;
use crate::bits::lemma_mask_bounds;

verus! {

/// Words in the key table: 18 round keys followed by four 256-entry boxes.
pub const KEY_TABLE_SIZE: usize = 0x412;

/// The first byte of the key table inside the ARM7 BIOS.
pub const KEY_TABLE_START: usize = 0x30;

/// Four bytes read least significant first.
pub open spec fn le_word(b: Seq<u8>) -> u32 {
    (b[0] as int + b[1] as int * 0x100 + b[2] as int * 0x1_0000 + b[3] as int * 0x100_0000) as u32
}

/// Four bytes read most significant first.
pub open spec fn be_word(b: Seq<u8>) -> u32 {
    (b[3] as int + b[2] as int * 0x100 + b[1] as int * 0x1_0000 + b[0] as int * 0x100_0000) as u32
}

/// The two words of eight bytes, each read least significant byte first
/// (`le`) or most significant byte first.
pub open spec fn words_in_order(b: Seq<u8>, le: bool) -> (u32, u32) {
    if le {
        (le_word(b.subrange(0, 4)), le_word(b.subrange(4, 8)))
    } else {
        (be_word(b.subrange(0, 4)), be_word(b.subrange(4, 8)))
    }
}

/// The four bytes of `w`, least significant first.
pub open spec fn le_bytes(w: u32) -> Seq<u8> {
    seq![(w % 0x100) as u8, (w / 0x100 % 0x100) as u8, (w / 0x1_0000 % 0x100) as u8, (w
        / 0x100_0000) as u8]
}

/// The eight bytes of two words, each written least significant byte first
/// (`le`) or most significant byte first.
pub open spec fn bytes_in_order(w: (u32, u32), le: bool) -> Seq<u8> {
    if le {
        le_bytes(w.0) + le_bytes(w.1)
    } else {
        le_bytes(w.0).reverse() + le_bytes(w.1).reverse()
    }
}

/// Words `2i` and `2i + 1` of `s`.
pub open spec fn word_pair(s: Seq<u32>, i: int) -> (u32, u32) {
    (s[2 * i], s[2 * i + 1])
}

/// Words `2i` and `2i + 1` of table `t` are the `i`-th eight bytes of the
/// key table inside the BIOS, in the machine's byte order.
pub open spec fn pair_from_bios(bios: Seq<u8>, t: Seq<u32>, i: int) -> bool {
    let b = bios.subrange(KEY_TABLE_START + 8 * i, KEY_TABLE_START + 8 * i + 8);
    word_pair(t, i) == words_in_order(b, true) || word_pair(t, i) == words_in_order(b, false)
}

/// `bytemuck::cast` from eight bytes to two `u32`s: a transmute, so each
/// word is read in the machine's byte order, least or most significant
/// byte first, the same for both.
#[verifier::external_body]
pub(crate) fn words_of_bytes(b: [u8; 8]) -> (r: [u32; 2])
    ensures
        (r@[0], r@[1]) == words_in_order(b@, true) || (r@[0], r@[1]) == words_in_order(b@, false),
{
    bytemuck::cast::<[u8; 8], [u32; 2]>(b)
}

/// `bytemuck::cast` from two `u32`s to eight bytes: a transmute, so each
/// word is written in the machine's byte order.
#[verifier::external_body]
pub(crate) fn bytes_of_words(w: [u32; 2]) -> (r: [u8; 8])
    ensures
        r@ == bytes_in_order((w@[0], w@[1]), true) || r@ == bytes_in_order((w@[0], w@[1]), false),
{
    bytemuck::cast::<[u32; 2], [u8; 8]>(w)
}

/// The byte-reversed word.
pub open spec fn swap32(v: u32) -> u32 {
    ((v & 0xFF) << 24u32) | (((v >> 8u32) & 0xFF) << 16u32) | (((v >> 16u32) & 0xFF) << 8u32) | (v
        >> 24u32)
}

fn swap32_exec(v: u32) -> (r: u32)
    ensures
        r == swap32(v),
{
    ((v & 0xFF) << 24u32) | (((v >> 8u32) & 0xFF) << 16u32) | (((v >> 16u32) & 0xFF) << 8u32) | (v
        >> 24u32)
}

/// The round function: four box lookups by the bytes of `z`, combined by
/// wrapping addition and exclusive or.
pub open spec fn round_f(k: Seq<u32>, z: u32) -> u32 {
    let a = k[18 + ((z >> 24u32) & 0xFF)];
    let b = k[274 + ((z >> 16u32) & 0xFF)];
    let c = k[530 + ((z >> 8u32) & 0xFF)];
    let d = k[786 + (z & 0xFF)];
    (a.wrapping_add(b) ^ c).wrapping_add(d)
}

/// The halves `(x, y)` after the first `n` rounds; encryption keys round
/// `j` with `k[j]`, decryption with `k[17 - j]`.
pub open spec fn rounds(k: Seq<u32>, x: u32, y: u32, n: nat, encrypt: bool) -> (u32, u32)
    decreases n,
{
    if n == 0 {
        (x, y)
    } else {
        let (px, py) = rounds(k, x, y, (n - 1) as nat, encrypt);
        let key = if encrypt {
            k[n - 1]
        } else {
            k[17 - (n - 1)]
        };
        let z = key ^ px;
        (round_f(k, z) ^ py, z)
    }
}

/// The block `(p0, p1)` enciphered (or deciphered) with key table `k`.
pub open spec fn cipher(k: Seq<u32>, p0: u32, p1: u32, encrypt: bool) -> (u32, u32) {
    let (x, y) = rounds(k, p1, p0, 16, encrypt);
    if encrypt {
        (x ^ k[16], y ^ k[17])
    } else {
        (x ^ k[1], y ^ k[0])
    }
}

/// The key table with its 18 round keys mixed with the byte-swapped key
/// code words (word `i` takes code word `i % modulo`).
pub open spec fn mix_round_keys(k: Seq<u32>, code: Seq<u32>, modulo: u32) -> Seq<u32> {
    Seq::new(
        k.len(),
        |i: int|
            if i <= 17 {
                k[i] ^ swap32(code[i % (modulo as int)])
            } else {
                k[i]
            },
    )
}

/// The table and the scratch block after the first `n` steps of refilling
/// the table: each step enciphers the scratch block with the current table
/// and stores its halves, swapped, in words `2n` and `2n + 1`.
pub open spec fn refill(k: Seq<u32>, n: nat) -> (Seq<u32>, (u32, u32))
    decreases n,
{
    if n == 0 {
        (k, (0, 0))
    } else {
        let (pk, s) = refill(k, (n - 1) as nat);
        let c = cipher(pk, s.0, s.1, true);
        (pk.update(2 * (n - 1), c.1).update(2 * (n - 1) + 1, c.0), c)
    }
}

/// The key code and the table after one application of the key code.
pub open spec fn apply_code(k: Seq<u32>, code: Seq<u32>, modulo: u32) -> (Seq<u32>, Seq<u32>) {
    let hi = cipher(k, code[1], code[2], true);
    let lo = cipher(k, code[0], hi.0, true);
    let code2 = seq![lo.0, lo.1, hi.1];
    (refill(mix_round_keys(k, code2, modulo), 521).0, code2)
}

/// The key code after the first two applications, before the third
/// (level 3 doubles word 1 and halves word 2 in between).
pub open spec fn code_after_two(k: Seq<u32>, id_code: u32, modulo: u32) -> Seq<u32> {
    let c0 = seq![id_code, id_code / 2, (id_code * 2) as u32];
    let (k1, c1) = apply_code(k, c0, modulo);
    apply_code(k1, c1, modulo).1
}

/// The key table that `init_key_code` leaves.
pub open spec fn keyed_table(k: Seq<u32>, id_code: u32, level: u32, modulo: u32) -> Seq<u32> {
    let c0 = seq![id_code, id_code / 2, (id_code * 2) as u32];
    let (k1, c1) = apply_code(k, c0, modulo);
    let (k2, c2) = apply_code(k1, c1, modulo);
    if level == 0 {
        k
    } else if level == 1 {
        k1
    } else if level == 2 {
        k2
    } else {
        apply_code(k2, seq![c2[0], (c2[1] * 2) as u32, c2[2] / 2], modulo).0
    }
}

proof fn lemma_xor_facts(a: u32, b: u32, c: u32)
    by (bit_vector)
    ensures
        a ^ (b ^ a) == b,
        (a ^ b) ^ b == a,
        a ^ ((a ^ b) ^ c) == b ^ c,
        a ^ b == b ^ a,
{
}

proof fn lemma_decrypt_rounds(k: Seq<u32>, p0: u32, p1: u32, j: nat)
    requires
        j <= 16,
        k.len() == KEY_TABLE_SIZE,
    ensures
        ({
            let c = cipher(k, p0, p1, true);
            let e = rounds(k, p1, p0, (16 - j) as nat, true);
            rounds(k, c.1, c.0, j, false) == (e.1 ^ k[17 - j], e.0 ^ k[16 - j])
        }),
    decreases j,
{
    let c = cipher(k, p0, p1, true);
    let e16 = rounds(k, p1, p0, 16, true);
    if j == 0 {
        lemma_xor_facts(e16.1, k[17], 0);
        lemma_xor_facts(e16.0, k[16], 0);
    } else {
        lemma_decrypt_rounds(k, p0, p1, (j - 1) as nat);
        let n = (16 - (j - 1)) as nat;
        let en = rounds(k, p1, p0, n, true);
        let ep = rounds(k, p1, p0, (n - 1) as nat, true);
        let (dx, dy) = rounds(k, c.1, c.0, (j - 1) as nat, false);
        let key = k[17 - (j - 1)];
        let z = key ^ dx;
        let zz = k[n - 1] ^ ep.0;
        assert(dx == en.1 ^ key);
        assert(en.1 == zz);
        lemma_xor_facts(key, en.1, 0);
        assert(z == zz);
        lemma_xor_facts(round_f(k, zz), ep.1, k[n as int]);
        lemma_xor_facts(k[n - 1], ep.0, 0);
    }
}

/// Deciphering a block enciphered with the same key table gives the block
/// back.
pub proof fn lemma_decrypt_undoes_encrypt(k: Seq<u32>, p0: u32, p1: u32)
    requires
        k.len() == KEY_TABLE_SIZE,
    ensures
        ({
            let c = cipher(k, p0, p1, true);
            cipher(k, c.0, c.1, false) == (p0, p1)
        }),
{
    lemma_decrypt_rounds(k, p0, p1, 16);
    let e0 = rounds(k, p1, p0, 0, true);
    lemma_xor_facts(e0.1, k[1], 0);
    lemma_xor_facts(e0.0, k[0], 0);
}

proof fn lemma_encrypt_rounds(k: Seq<u32>, p0: u32, p1: u32, j: nat)
    requires
        j <= 16,
        k.len() == KEY_TABLE_SIZE,
    ensures
        ({
            let c = cipher(k, p0, p1, false);
            let d = rounds(k, p1, p0, (16 - j) as nat, false);
            rounds(k, c.1, c.0, j, true) == (d.1 ^ k[j as int], d.0 ^ k[j + 1int])
        }),
    decreases j,
{
    if j > 0 {
        lemma_encrypt_rounds(k, p0, p1, (j - 1) as nat);
        let c = cipher(k, p0, p1, false);
        let n = (17 - j) as nat;
        let dn = rounds(k, p1, p0, n, false);
        let ep = rounds(k, p1, p0, (n - 1) as nat, false);
        let (ex, ey) = rounds(k, c.1, c.0, (j - 1) as nat, true);
        let key = k[j - 1];
        assert(ex == dn.1 ^ key);
        lemma_xor_facts(key, dn.1, 0);
        assert(key ^ ex == dn.1);
        assert(dn.1 == k[j + 1int] ^ ep.0);
        lemma_xor_facts(round_f(k, dn.1), ep.1, k[j as int]);
        lemma_xor_facts(k[j + 1int], ep.0, 0);
    }
}

/// Enciphering a block deciphered with the same key table gives the block
/// back.
pub proof fn lemma_encrypt_undoes_decrypt(k: Seq<u32>, p0: u32, p1: u32)
    requires
        k.len() == KEY_TABLE_SIZE,
    ensures
        ({
            let c = cipher(k, p0, p1, false);
            cipher(k, c.0, c.1, true) == (p0, p1)
        }),
{
    lemma_encrypt_rounds(k, p0, p1, 16);
    lemma_xor_facts(p0, k[16], 0);
    lemma_xor_facts(p1, k[17], 0);
}

/// The KEY1 cipher state: the key table in use and the one read from the
/// BIOS.
pub struct Key1Encryption {
    pub in_use: bool,
    pub key_buf: [u32; 0x412],
    pub original_key_buf: [u32; 0x412],
}

/// Enciphers or deciphers the block `(p0, p1)`.
fn cipher_block(key_buf: &[u32; 0x412], p0: u32, p1: u32, encrypt: bool) -> (r: (u32, u32))
    ensures
        r == cipher(key_buf@, p0, p1, encrypt),
{
    let mut y = p0;
    let mut x = p1;
    let ghost k = key_buf@;
    let mut j: usize = 0;
    while j < 16
        invariant
            j <= 16,
            k == key_buf@,
            k.len() == KEY_TABLE_SIZE,
            (x, y) == rounds(k, p1, p0, j as nat, encrypt),
        decreases 16 - j,
    {
        proof {
            lemma_mask_bounds();
        }
        let i = if encrypt { j } else { 17 - j };
        let z = key_buf[i] ^ x;
        let mut nx = key_buf[18 + ((z >> 24u32) & 0xFF) as usize];
        nx = nx.wrapping_add(key_buf[274 + ((z >> 16u32) & 0xFF) as usize]);
        nx = nx ^ key_buf[530 + ((z >> 8u32) & 0xFF) as usize];
        nx = nx.wrapping_add(key_buf[786 + (z & 0xFF) as usize]);
        x = nx ^ y;
        y = z;
        j = j + 1;
    }
    (x ^ if encrypt { key_buf[16] } else { key_buf[1] }, y ^ if encrypt {
        key_buf[17]
    } else {
        key_buf[0]
    })
}

/// Enciphers or deciphers the block in `ptr[0]`, `ptr[1]` in place.
fn encrypt_decrypt64(key_buf: &[u32; 0x412], ptr: &mut [u32], encrypt: bool)
    requires
        old(ptr)@.len() >= 2,
    ensures
        final(ptr)@.len() == old(ptr)@.len(),
        (final(ptr)@[0], final(ptr)@[1]) == cipher(key_buf@, old(ptr)@[0], old(ptr)@[1], encrypt),
        forall|i: int| 2 <= i < old(ptr)@.len() ==> final(ptr)@[i] == old(ptr)@[i],
{
    let r = cipher_block(key_buf, ptr[0], ptr[1], encrypt);
    ptr[0] = r.0;
    ptr[1] = r.1;
}

impl Key1Encryption {
    /// A cipher keyed by the table at 0x30..=0x1077 of the ARM7 BIOS, not
    /// yet in use.
    pub fn new(bios7: &[u8]) -> (r: Key1Encryption)
        requires
            bios7@.len() >= KEY_TABLE_START + 4 * KEY_TABLE_SIZE,
        ensures
            !r.in_use,
            r.key_buf == r.original_key_buf,
            forall|i: int| 0 <= i < KEY_TABLE_SIZE / 2 ==> #[trigger] pair_from_bios(bios7@, r.key_buf@, i),
    {
        let mut table = [0u32; 0x412];
        let mut i: usize = 0;
        while i < KEY_TABLE_SIZE / 2
            invariant
                i <= KEY_TABLE_SIZE / 2,
                bios7@.len() >= KEY_TABLE_START + 4 * KEY_TABLE_SIZE,
                forall|j: int| 0 <= j < i ==> #[trigger] pair_from_bios(bios7@, table@, j),
            decreases KEY_TABLE_SIZE / 2 - i,
        {
            let base = KEY_TABLE_START + 8 * i;
            let b = [
                bios7[base],
                bios7[base + 1],
                bios7[base + 2],
                bios7[base + 3],
                bios7[base + 4],
                bios7[base + 5],
                bios7[base + 6],
                bios7[base + 7],
            ];
            assert(b@ =~= bios7@.subrange(base as int, base as int + 8));
            let w = words_of_bytes(b);
            let ghost prev = table@;
            table[2 * i] = w[0];
            table[2 * i + 1] = w[1];
            assert(word_pair(table@, i as int) == (w@[0], w@[1]));
            assert(pair_from_bios(bios7@, table@, i as int));
            assert forall|j: int| 0 <= j < i implies #[trigger] pair_from_bios(bios7@, table@, j) by {
                assert(word_pair(table@, j) == word_pair(prev, j));
                assert(pair_from_bios(bios7@, prev, j));
            }
            i = i + 1;
        }
        Key1Encryption { in_use: false, key_buf: table, original_key_buf: table }
    }

    /// Deciphers the block in `ptr[0]`, `ptr[1]`.
    pub fn decrypt(&self, ptr: &mut [u32])
        requires
            old(ptr)@.len() >= 2,
        ensures
            final(ptr)@.len() == old(ptr)@.len(),
            (final(ptr)@[0], final(ptr)@[1]) == cipher(self.key_buf@, old(ptr)@[0], old(ptr)@[1], false),
            forall|i: int| 2 <= i < old(ptr)@.len() ==> final(ptr)@[i] == old(ptr)@[i],
    {
        encrypt_decrypt64(&self.key_buf, ptr, false)
    }

    /// Enciphers the block in `ptr[0]`, `ptr[1]`.
    pub fn encrypt(&self, ptr: &mut [u32])
        requires
            old(ptr)@.len() >= 2,
        ensures
            final(ptr)@.len() == old(ptr)@.len(),
            (final(ptr)@[0], final(ptr)@[1]) == cipher(self.key_buf@, old(ptr)@[0], old(ptr)@[1], true),
            forall|i: int| 2 <= i < old(ptr)@.len() ==> final(ptr)@[i] == old(ptr)@[i],
    {
        encrypt_decrypt64(&self.key_buf, ptr, true)
    }
}


impl Key1Encryption {
    /// Keys the cipher with a game's id code: starting from the BIOS table,
    /// the key code `[id, id / 2, id * 2]` is applied once per level, with
    /// word 1 doubled and word 2 halved before the third application.
    /// `modulo` (already divided by 4) picks which code word mixes into each
    /// round key.
    pub fn init_key_code(&mut self, id_code: u32, level: u32, modulo: u32)
        requires
            1 <= modulo <= 3,
            id_code <= 0x7FFF_FFFF,
            level >= 3 ==> code_after_two(old(self).original_key_buf@, id_code, modulo)[1]
                <= 0x7FFF_FFFF,
        ensures
            final(self).in_use,
            final(self).original_key_buf == old(self).original_key_buf,
            final(self).key_buf@ == keyed_table(old(self).original_key_buf@, id_code, level, modulo),
    {
        self.in_use = true;
        self.key_buf = self.original_key_buf;
        let mut key_code: [u32; 3] = [id_code, id_code / 2, id_code * 2];
        assert(key_code@ =~= seq![id_code, id_code / 2, (id_code * 2) as u32]);
        if level >= 1 {
            self.apply_keycode(&mut key_code, modulo);
        }
        if level >= 2 {
            self.apply_keycode(&mut key_code, modulo);
        }
        if level >= 3 {
            key_code[1] = key_code[1] * 2;
            key_code[2] = key_code[2] / 2;
            self.apply_keycode(&mut key_code, modulo);
        }
    }

    /// Applies the key code: enciphers it with the current table, mixes it
    /// into the round keys and refills the whole table by repeated
    /// encipherment.
    fn apply_keycode(&mut self, key_code: &mut [u32; 3], modulo: u32)
        requires
            1 <= modulo <= 3,
        ensures
            (final(self).key_buf@, final(key_code)@) == apply_code(old(self).key_buf@, old(key_code)@, modulo),
            final(self).in_use == old(self).in_use,
            final(self).original_key_buf == old(self).original_key_buf,
    {
        let ghost k0 = self.key_buf@;
        let ghost c0 = key_code@;
        let hi = cipher_block(&self.key_buf, key_code[1], key_code[2], true);
        key_code[1] = hi.0;
        key_code[2] = hi.1;
        let lo = cipher_block(&self.key_buf, key_code[0], key_code[1], true);
        key_code[0] = lo.0;
        key_code[1] = lo.1;
        assert(key_code@ =~= apply_code(k0, c0, modulo).1);
        let mut i: usize = 0;
        while i <= 17
            invariant
                i <= 18,
                1 <= modulo <= 3,
                k0.len() == KEY_TABLE_SIZE,
                key_code@ == apply_code(k0, c0, modulo).1,
                self.key_buf@.len() == KEY_TABLE_SIZE,
                forall|j: int|
                    0 <= j < KEY_TABLE_SIZE ==> #[trigger] self.key_buf@[j] == if j < i {
                        mix_round_keys(k0, key_code@, modulo)[j]
                    } else {
                        k0[j]
                    },
                self.in_use == old(self).in_use,
                self.original_key_buf == old(self).original_key_buf,
            decreases 18 - i,
        {
            let w = swap32_exec(key_code[i % (modulo as usize)]);
            assert(self.key_buf@[i as int] == k0[i as int]);
            self.key_buf[i] = self.key_buf[i] ^ w;
            assert(self.key_buf@[i as int] == mix_round_keys(k0, key_code@, modulo)[i as int]);
            i = i + 1;
        }
        let ghost mixed = mix_round_keys(k0, key_code@, modulo);
        assert(self.key_buf@ =~= mixed);
        let mut scratch: (u32, u32) = (0, 0);
        let mut n: usize = 0;
        while n < 521
            invariant
                n <= 521,
                self.key_buf@.len() == KEY_TABLE_SIZE,
                (self.key_buf@, scratch) == refill(mixed, n as nat),
                self.in_use == old(self).in_use,
                self.original_key_buf == old(self).original_key_buf,
                key_code@ == apply_code(k0, c0, modulo).1,
            decreases 521 - n,
        {
            scratch = cipher_block(&self.key_buf, scratch.0, scratch.1, true);
            self.key_buf[2 * n] = scratch.1;
            self.key_buf[2 * n + 1] = scratch.0;
            n = n + 1;
        }
    }
}

} // verus!
