//! Cartridge metadata, read once from fixed header offsets of the ROM image
//! and consumed only to configure the bus's bank-controller behaviour.

use vstd::prelude::*;

verus! {

/// Header type code: ROM only, no bank controller.
pub const ROM_ONLY: u8 = 0x00;
/// Header type code: banked ROM controller.
pub const MBC1: u8 = 0x01;
/// Header type code: banked ROM controller with external RAM.
pub const MBC1_RAM: u8 = 0x02;
/// Header type code: banked ROM controller with battery-backed external RAM.
pub const MBC1_RAM_BATT: u8 = 0x03;

/// Immutable cartridge metadata parsed from the ROM header.
pub struct Cartridge {
    pub title: String,
    /// Target-hardware flag; 0x80 marks the colour model.
    pub gameboy_type: u8,
    /// Super-console flag; 0x00 plain, 0x03 super.
    pub is_super_gameboy: u8,
    /// Cartridge/bank-controller type code.
    pub cartridge_type: u8,
    /// ROM size code (how many banks).
    pub rom_size: u8,
    /// RAM size code (how many banks).
    pub ram_size: u8,
    /// Region: 0 Japanese, 1 elsewhere.
    pub region: u8,
    /// Licensee code.
    pub licensee: u8,
    pub version: u8,
    /// Header checksum word.
    pub checksum: u16,
}

impl Cartridge {
    /// A blank descriptor: the state before any ROM header has been read.
    /// The title starts as sixteen spaces, the width of the header field.
    pub fn new() -> (c: Cartridge)
        ensures
            c.title@ == "                "@,
            c.title@.len() == 16,
            c.gameboy_type == 0,
            c.is_super_gameboy == 0,
            c.cartridge_type == ROM_ONLY,
            c.rom_size == 0,
            c.ram_size == 0,
            c.region == 0,
            c.licensee == 0x33,
            c.version == 0,
            c.checksum == 0,
    {
        let title = "                ".to_string();
        proof {
            vstd::string::to_string_from_display_ensures_for_str("                ", title);
            reveal_strlit("                ");
        }
        Cartridge {
            title,
            gameboy_type: 0x00,
            is_super_gameboy: 0x00,
            cartridge_type: ROM_ONLY,
            rom_size: 0x00,
            ram_size: 0x00,
            region: 0x00,
            licensee: 0x33,
            version: 0x00,
            checksum: 0x0000,
        }
    }
}

} // verus!
