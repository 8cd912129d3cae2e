//! Loader tests over hand-built iNES images.

use lynes::cartridge::{
    create_rom, test_rom, Cartridge, CartridgeError, ScreenMirroring, TestRom,
};

const PRG_ROM_PAGE_SIZE: usize = 16384;
const CHR_ROM_PAGE_SIZE: usize = 8192;

#[test]
fn test() {
    let test_rom = create_rom(TestRom {
        header: vec![
            0x4E, 0x45, 0x53, 0x1A, 0x02, 0x01, 0x31, 00, 00, 00, 00, 00, 00, 00, 00, 00,
        ],
        trainer: None,
        prg_rom: vec![1; 2 * PRG_ROM_PAGE_SIZE],
        chr_rom: vec![2; 1 * CHR_ROM_PAGE_SIZE],
    });

    let rom: Cartridge = Cartridge::load_bytes(&test_rom).unwrap();

    assert_eq!(rom.chr_rom, vec!(2; 1 * CHR_ROM_PAGE_SIZE));
    assert_eq!(rom.prg_rom, vec!(1; 2 * PRG_ROM_PAGE_SIZE));
    assert_eq!(rom.mapper, 3);
    assert_eq!(rom.screen_mirroring, ScreenMirroring::Vertical);
}

#[test]
fn test_with_trainer() {
    let test_rom = create_rom(TestRom {
        header: vec![
            0x4E,
            0x45,
            0x53,
            0x1A,
            0x02,
            0x01,
            0x31 | 0b100,
            00,
            00,
            00,
            00,
            00,
            00,
            00,
            00,
            00,
        ],
        trainer: Some(vec![0; 512]),
        prg_rom: vec![1; 2 * PRG_ROM_PAGE_SIZE],
        chr_rom: vec![2; 1 * CHR_ROM_PAGE_SIZE],
    });

    let rom: Cartridge = Cartridge::load_bytes(&test_rom).unwrap();

    assert_eq!(rom.chr_rom, vec!(2; 1 * CHR_ROM_PAGE_SIZE));
    assert_eq!(rom.prg_rom, vec!(1; 2 * PRG_ROM_PAGE_SIZE));
    assert_eq!(rom.mapper, 3);
    assert_eq!(rom.screen_mirroring, ScreenMirroring::Vertical);
}

#[test]
fn load_rejects_unsupported_version() {
    let test_rom = create_rom(TestRom {
        header: vec![
            0x4E, 0x45, 0x53, 0x1A, 0x01, 0x01, 0x31, 0x8, 00, 00, 00, 00, 00, 00, 00, 00,
        ],
        trainer: None,
        prg_rom: vec![1; 1 * PRG_ROM_PAGE_SIZE],
        chr_rom: vec![2; 1 * CHR_ROM_PAGE_SIZE],
    });
    assert_eq!(
        Cartridge::load_bytes(&test_rom).err(),
        Some(CartridgeError::UnsupportedVersion)
    );
}

#[test]
fn load_rejects_bad_magic() {
    let bytes = vec![0x4E, 0x45, 0x53, 0x00, 0, 0, 0, 0, 0, 0, 0, 0, 0, 0, 0, 0];
    assert_eq!(
        Cartridge::load_bytes(&bytes).err(),
        Some(CartridgeError::BadMagic)
    );
    assert_eq!(
        Cartridge::load_bytes(&vec![]).err(),
        Some(CartridgeError::BadMagic)
    );
}

#[test]
fn load_rejects_truncated_image() {
    // The header declares one PRG page but the image ends after the header.
    let bytes = vec![0x4E, 0x45, 0x53, 0x1A, 0x01, 0x01, 0x00, 0, 0, 0, 0, 0, 0, 0, 0, 0];
    assert_eq!(
        Cartridge::load_bytes(&bytes).err(),
        Some(CartridgeError::Truncated)
    );
    // A bare magic with no full header is truncated too... unless the
    // magic itself is short, which reads as a magic failure.
    let short = vec![0x4E, 0x45, 0x53, 0x1A, 0x01];
    assert_eq!(
        Cartridge::load_bytes(&short).err(),
        Some(CartridgeError::Truncated)
    );
}

#[test]
fn test_rom_is_a_ready_vertical_cart() {
    let cart = test_rom(None);
    assert_eq!(cart.prg_rom.len(), 2 * PRG_ROM_PAGE_SIZE);
    assert_eq!(cart.chr_rom.len(), CHR_ROM_PAGE_SIZE);
    assert_eq!(cart.screen_mirroring, ScreenMirroring::Vertical);
    assert_eq!(cart.prg_rom[0], 1);

    let with_program = test_rom(Some(vec![0xA9, 0x05]));
    assert_eq!(with_program.prg_rom[0], 0xA9);
    assert_eq!(with_program.prg_rom[1], 0x05);
    assert_eq!(with_program.prg_rom[2], 0);
    // The reset vector points at the start of PRG.
    assert_eq!(with_program.prg_rom[0x7FFC], 0x00);
    assert_eq!(with_program.prg_rom[0x7FFD], 0x80);
}
