//! The cartridge header: the first 0x160 bytes of a ROM image.
use vstd::prelude::*;

verus! {

/// The bytes of the header.
pub const HEADER_LEN: usize = 0x160;

/// The little-endian 16-bit value at `off`.
pub open spec fn le16(b: Seq<u8>, off: int) -> u16 {
    (b[off] as int + b[off + 1] as int * 0x100) as u16
}

/// The little-endian 32-bit value at `off`.
pub open spec fn le32(b: Seq<u8>, off: int) -> u32 {
    (b[off] as int + b[off + 1] as int * 0x100 + b[off + 2] as int * 0x1_0000 + b[off + 3] as int
        * 0x100_0000) as u32
}

/// The little-endian 64-bit value at `off`.
pub open spec fn le64(b: Seq<u8>, off: int) -> u64 {
    (le32(b, off) as int + le32(b, off + 4) as int * 0x1_0000_0000) as u64
}

fn read_u16(rom: &Vec<u8>, off: usize) -> (r: u16)
    requires
        off + 2 <= rom.len(),
    ensures
        r == le16(rom@, off as int),
{
    rom[off] as u16 + rom[off + 1] as u16 * 0x100
}

fn read_u32(rom: &Vec<u8>, off: usize) -> (r: u32)
    requires
        off + 4 <= rom.len(),
    ensures
        r == le32(rom@, off as int),
{
    rom[off] as u32 + rom[off + 1] as u32 * 0x100 + rom[off + 2] as u32 * 0x1_0000 + rom[off + 3]
        as u32 * 0x100_0000
}

fn read_u64(rom: &Vec<u8>, off: usize) -> (r: u64)
    requires
        off + 8 <= rom.len(),
    ensures
        r == le64(rom@, off as int),
{
    read_u32(rom, off) as u64 + read_u32(rom, off + 4) as u64 * 0x1_0000_0000
}

/// Copies `dst.len()` bytes of `rom` from `off` into `dst`.
fn copy_bytes(dst: &mut [u8], rom: &Vec<u8>, off: usize)
    requires
        off + old(dst)@.len() <= rom.len(),
    ensures
        final(dst)@ == rom@.subrange(off as int, off + old(dst)@.len()),
{
    let n = dst.len();
    let mut i: usize = 0;
    while i < n
        invariant
            n == dst@.len(),
            n == old(dst)@.len(),
            i <= n,
            off + n <= rom.len(),
            forall|j: int| 0 <= j < i ==> dst@[j] == rom@[off + j],
        decreases n - i,
    {
        dst[i] = rom[off + i];
        i = i + 1;
    }
    assert(dst@ =~= rom@.subrange(off as int, off + n));
}

/// The consoles a game runs on.
#[derive(Clone, Copy, PartialEq, Eq, Structural, Debug)]
pub enum UnitCode {
    NDS,
    Both,
    DSi,
}

/// The unit codes that occur in headers.
pub open spec fn is_unit_code(value: u8) -> bool {
    value == 0 || value == 2 || value == 3
}

/// The unit code a header byte names.
pub open spec fn unit_code_of(value: u8) -> UnitCode {
    if value == 0 {
        UnitCode::NDS
    } else if value == 2 {
        UnitCode::Both
    } else {
        UnitCode::DSi
    }
}

impl UnitCode {
    /// The unit code byte: 0 for the DS, 2 for DS and DSi, 3 for the DSi.
    pub fn from_byte(value: u8) -> (r: UnitCode)
        requires
            is_unit_code(value),
        ensures
            r == unit_code_of(value),
    {
        if value == 0 {
            UnitCode::NDS
        } else if value == 2 {
            UnitCode::Both
        } else {
            UnitCode::DSi
        }
    }
}

/// The region a game is locked to.
#[derive(Clone, Copy, PartialEq, Eq, Structural, Debug)]
pub enum Region {
    Normal,
    China,
    Korea,
}

/// The region codes that occur in headers.
pub open spec fn is_region_code(value: u8) -> bool {
    value == 0 || value == 0x80 || value == 0x40
}

/// The region a header byte names.
pub open spec fn region_of(value: u8) -> Region {
    if value == 0 {
        Region::Normal
    } else if value == 0x80 {
        Region::China
    } else {
        Region::Korea
    }
}

impl Region {
    /// The region byte: 0 for normal, 0x80 for China, 0x40 for Korea.
    pub fn from_byte(value: u8) -> (r: Region)
        requires
            is_region_code(value),
        ensures
            r == region_of(value),
    {
        if value == 0 {
            Region::Normal
        } else if value == 0x80 {
            Region::China
        } else {
            Region::Korea
        }
    }
}

/// The decoded cartridge header.
pub struct Header {
    pub game_title: [u8; 12],
    pub game_code: [u8; 4],
    pub maker_code: [u8; 2],
    pub unit_code: UnitCode,
    pub encryption_seed: u8,
    pub device_capacity: u8,
    pub reserved0: [u8; 7],
    pub reserved1: u8,
    pub region: Region,
    pub rom_version: u8,
    pub autostart: u8,
    pub arm9_rom_offset: u32,
    pub arm9_entry_addr: u32,
    pub arm9_ram_addr: u32,
    pub arm9_size: u32,
    pub arm7_rom_offset: u32,
    pub arm7_entry_addr: u32,
    pub arm7_ram_addr: u32,
    pub arm7_size: u32,
    pub fnt_offset: u32,
    pub fnt_size: u32,
    pub fat_offset: u32,
    pub fat_size: u32,
    pub arm9_overlay_offset: u32,
    pub arm9_overlay_size: u32,
    pub arm7_overlay_offset: u32,
    pub arm7_overlay_size: u32,
    pub port_settings_normal: u32,
    pub port_settings_key1: u32,
    pub icon_offset: u32,
    pub secure_area_checksum: u16,
    pub secure_area_delay: u16,
    pub arm9_auto_load_list_hook_ram_addr: u32,
    pub arm7_auto_load_list_hook_ram_addr: u32,
    pub secure_area_disable: u64,
    pub used_rom_size: u32,
    pub header_size: u32,
    pub reserved2: [u8; 0x28],
    pub reserved3: [u8; 0x10],
    pub nintendo_logo: [u8; 0x9C],
    pub nintendo_logo_checksum: u16,
    pub header_checksum: u16,
}

/// Whether `rom` holds a whole header with a known unit code and region.
pub open spec fn header_ok(rom: Seq<u8>) -> bool {
    rom.len() >= HEADER_LEN && is_unit_code(rom[0x12]) && is_region_code(rom[0x1D])
}

impl Header {
    /// Decodes the header at the start of `rom`; multi-byte numbers are
    /// little-endian.
    pub fn new(rom: &Vec<u8>) -> (h: Header)
        requires
            header_ok(rom@),
        ensures
            h.game_title@ == rom@.subrange(0x000, 0x00C),
            h.game_code@ == rom@.subrange(0x00C, 0x010),
            h.maker_code@ == rom@.subrange(0x010, 0x012),
            h.unit_code == unit_code_of(rom@[0x012]),
            h.encryption_seed == rom@[0x013],
            h.device_capacity == rom@[0x014],
            h.reserved0@ == rom@.subrange(0x015, 0x01C),
            h.reserved1 == rom@[0x01C],
            h.region == region_of(rom@[0x01D]),
            h.rom_version == rom@[0x01E],
            h.autostart == rom@[0x01F],
            h.arm9_rom_offset == le32(rom@, 0x020),
            h.arm9_entry_addr == le32(rom@, 0x024),
            h.arm9_ram_addr == le32(rom@, 0x028),
            h.arm9_size == le32(rom@, 0x02C),
            h.arm7_rom_offset == le32(rom@, 0x030),
            h.arm7_entry_addr == le32(rom@, 0x034),
            h.arm7_ram_addr == le32(rom@, 0x038),
            h.arm7_size == le32(rom@, 0x03C),
            h.fnt_offset == le32(rom@, 0x040),
            h.fnt_size == le32(rom@, 0x044),
            h.fat_offset == le32(rom@, 0x048),
            h.fat_size == le32(rom@, 0x04C),
            h.arm9_overlay_offset == le32(rom@, 0x050),
            h.arm9_overlay_size == le32(rom@, 0x054),
            h.arm7_overlay_offset == le32(rom@, 0x058),
            h.arm7_overlay_size == le32(rom@, 0x05C),
            h.port_settings_normal == le32(rom@, 0x060),
            h.port_settings_key1 == le32(rom@, 0x064),
            h.icon_offset == le32(rom@, 0x068),
            h.secure_area_checksum == le16(rom@, 0x06C),
            h.secure_area_delay == le16(rom@, 0x06E),
            h.arm9_auto_load_list_hook_ram_addr == le32(rom@, 0x070),
            h.arm7_auto_load_list_hook_ram_addr == le32(rom@, 0x074),
            h.secure_area_disable == le64(rom@, 0x078),
            h.used_rom_size == le32(rom@, 0x080),
            h.header_size == le32(rom@, 0x084),
            h.reserved2@ == rom@.subrange(0x088, 0x0B0),
            h.reserved3@ == rom@.subrange(0x0B0, 0x0C0),
            h.nintendo_logo@ == rom@.subrange(0x0C0, 0x15C),
            h.nintendo_logo_checksum == le16(rom@, 0x15C),
            h.header_checksum == le16(rom@, 0x15E),
    {
        let mut game_title = [0u8; 12];
        copy_bytes(&mut game_title, rom, 0x000);
        let mut game_code = [0u8; 4];
        copy_bytes(&mut game_code, rom, 0x00C);
        let mut maker_code = [0u8; 2];
        copy_bytes(&mut maker_code, rom, 0x010);
        let mut reserved0 = [0u8; 7];
        copy_bytes(&mut reserved0, rom, 0x015);
        let mut reserved2 = [0u8; 0x28];
        copy_bytes(&mut reserved2, rom, 0x088);
        let mut reserved3 = [0u8; 0x10];
        copy_bytes(&mut reserved3, rom, 0x0B0);
        let mut nintendo_logo = [0u8; 0x9C];
        copy_bytes(&mut nintendo_logo, rom, 0x0C0);
        Header {
            game_title,
            game_code,
            maker_code,
            unit_code: UnitCode::from_byte(rom[0x012]),
            encryption_seed: rom[0x013],
            device_capacity: rom[0x014],
            reserved0,
            reserved1: rom[0x01C],
            region: Region::from_byte(rom[0x01D]),
            rom_version: rom[0x01E],
            autostart: rom[0x01F],
            arm9_rom_offset: read_u32(rom, 0x020),
            arm9_entry_addr: read_u32(rom, 0x024),
            arm9_ram_addr: read_u32(rom, 0x028),
            arm9_size: read_u32(rom, 0x02C),
            arm7_rom_offset: read_u32(rom, 0x030),
            arm7_entry_addr: read_u32(rom, 0x034),
            arm7_ram_addr: read_u32(rom, 0x038),
            arm7_size: read_u32(rom, 0x03C),
            fnt_offset: read_u32(rom, 0x040),
            fnt_size: read_u32(rom, 0x044),
            fat_offset: read_u32(rom, 0x048),
            fat_size: read_u32(rom, 0x04C),
            arm9_overlay_offset: read_u32(rom, 0x050),
            arm9_overlay_size: read_u32(rom, 0x054),
            arm7_overlay_offset: read_u32(rom, 0x058),
            arm7_overlay_size: read_u32(rom, 0x05C),
            port_settings_normal: read_u32(rom, 0x060),
            port_settings_key1: read_u32(rom, 0x064),
            icon_offset: read_u32(rom, 0x068),
            secure_area_checksum: read_u16(rom, 0x06C),
            secure_area_delay: read_u16(rom, 0x06E),
            arm9_auto_load_list_hook_ram_addr: read_u32(rom, 0x070),
            arm7_auto_load_list_hook_ram_addr: read_u32(rom, 0x074),
            secure_area_disable: read_u64(rom, 0x078),
            used_rom_size: read_u32(rom, 0x080),
            header_size: read_u32(rom, 0x084),
            reserved2,
            reserved3,
            nintendo_logo,
            nintendo_logo_checksum: read_u16(rom, 0x15C),
            header_checksum: read_u16(rom, 0x15E),
        }
    }
}

} // verus!
