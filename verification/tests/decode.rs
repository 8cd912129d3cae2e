//! Tests of the opcode table, the addressing resolver and the interrupt
//! controller.

use lynes::cpu::instructions::decode;
use lynes::cpu::AddrMode;
use lynes::NES;

#[test]
fn decode_covers_every_opcode() {
    for opcode in 0..=255u8 {
        let instruction = decode(opcode);
        assert!(instruction.len >= 1 && instruction.len <= 3);
        assert!(instruction.cycles >= 1 && instruction.cycles <= 8);
        assert_eq!(instruction.size() as u8, instruction.len - 1);
    }
}

#[test]
fn decode_knows_the_documented_rows() {
    let lda = decode(0xA9);
    assert_eq!(lda.name, "LDA");
    assert_eq!(lda.mode, AddrMode::Immediate);
    assert_eq!(lda.cycles, 2);
    assert_eq!(lda.len, 2);
    assert!(lda.legal);

    let jmp = decode(0x6C);
    assert_eq!(jmp.name, "JMP");
    assert_eq!(jmp.mode, AddrMode::Indirect);
    assert_eq!(jmp.cycles, 5);

    let slo = decode(0x03);
    assert_eq!(slo.name, "SLO");
    assert!(!slo.legal);

    let brk = decode(0x00);
    assert_eq!(brk.name, "BRK");
    assert_eq!(brk.cycles, 7);
    assert_eq!(brk.len, 1);
}

#[test]
fn zero_page_indexing_wraps_within_the_page() {
    let mut nes = NES::default();
    nes.cpu_registers.program_counter = 0x0300;
    nes.cpu_write(0x0300, 0xF0);
    nes.cpu_registers.x = 0x20;

    let (addr, crossed) = nes.get_operating_address(&AddrMode::ZeroPageX);
    assert_eq!(addr, 0x0010);
    assert!(!crossed);
}

#[test]
fn absolute_indexed_reports_page_crossings() {
    let mut nes = NES::default();
    nes.cpu_registers.program_counter = 0x0300;
    nes.cpu_write(0x0300, 0xFF);
    nes.cpu_write(0x0301, 0x20);
    nes.cpu_registers.y = 0x02;

    let (addr, crossed) = nes.get_operating_address(&AddrMode::AbsoluteY);
    assert_eq!(addr, 0x2101);
    assert!(crossed);

    nes.cpu_registers.y = 0x00;
    let (addr, crossed) = nes.get_operating_address(&AddrMode::AbsoluteY);
    assert_eq!(addr, 0x20FF);
    assert!(!crossed);
}

#[test]
fn indirect_y_builds_pointer_from_the_zero_page() {
    let mut nes = NES::default();
    nes.cpu_registers.program_counter = 0x0300;
    nes.cpu_write(0x0300, 0x40);
    nes.cpu_write(0x0040, 0x80);
    nes.cpu_write(0x0041, 0x02);
    nes.cpu_registers.y = 0x10;

    let (addr, crossed) = nes.get_operating_address(&AddrMode::IndirectY);
    assert_eq!(addr, 0x0290);
    assert!(!crossed);
}

#[test]
fn indirect_x_wraps_its_zero_page_pointer() {
    let mut nes = NES::default();
    nes.cpu_registers.program_counter = 0x0300;
    nes.cpu_write(0x0300, 0xFE);
    nes.cpu_registers.x = 0x01;
    // Pointer $FF: low from $FF, high from $00 (wrapping in the page).
    nes.cpu_write(0x00FF, 0x34);
    nes.cpu_write(0x0000, 0x12);

    let (addr, _) = nes.get_operating_address(&AddrMode::IndirectX);
    assert_eq!(addr, 0x1234);
}

#[test]
fn nmi_is_unmaskable_and_irq_is_not() {
    let mut nes = NES::default();
    let mut prg = vec![0u8; 0x8000];
    prg[0x7FFA] = 0x11;
    prg[0x7FFE] = 0x22;
    nes.insert_cart(lynes::cartridge::Cartridge {
        prg_rom: prg,
        chr_rom: vec![0; 0x2000],
        mapper: 0,
        screen_mirroring: lynes::cartridge::ScreenMirroring::Horizontal,
    });

    // The power-on status has the interrupt-disable flag set.
    nes.cpu_registers.program_counter = 0x0400;
    nes.irq();
    assert_eq!(nes.cpu_registers.program_counter, 0x0400);

    nes.nmi();
    assert_eq!(nes.cpu_registers.program_counter, 0x0011);

    let mut nes = NES::default();
    let mut prg = vec![0u8; 0x8000];
    prg[0x7FFE] = 0x22;
    nes.insert_cart(lynes::cartridge::Cartridge {
        prg_rom: prg,
        chr_rom: vec![0; 0x2000],
        mapper: 0,
        screen_mirroring: lynes::cartridge::ScreenMirroring::Horizontal,
    });
    nes.cpu_registers.status.interrupt_disable = false;
    nes.cpu_registers.program_counter = 0x0400;
    let cycles_before = nes.cpu_cycles;
    nes.irq();
    assert_eq!(nes.cpu_registers.program_counter, 0x0022);
    assert_eq!(nes.cpu_cycles, cycles_before + 7);
}

#[test]
fn background_and_sprite_palettes_are_derived_from_tables() {
    let mut nes = NES::default();
    // Universal background color and palette 1 of the background half.
    nes.cpu_write(0x2006, 0x3F);
    nes.cpu_write(0x2006, 0x00);
    nes.cpu_write(0x2007, 0x0F);
    nes.cpu_write(0x2006, 0x3F);
    nes.cpu_write(0x2006, 0x05);
    for value in [0x02u8, 0x03, 0x04] {
        nes.cpu_write(0x2007, value);
    }
    // Attribute byte selecting palette 1 for the top-left quadrant.
    nes.cpu_write(0x2006, 0x23);
    nes.cpu_write(0x2006, 0xC0);
    nes.cpu_write(0x2007, 0b0000_0001);

    let colors = nes.background_palette(0, 0);
    assert_eq!(colors, [0x0F, 0x02, 0x03, 0x04]);

    // Sprite palette 2: entries $19 through $1B.
    nes.cpu_write(0x2006, 0x3F);
    nes.cpu_write(0x2006, 0x19);
    for value in [0x21u8, 0x22, 0x23] {
        nes.cpu_write(0x2007, value);
    }
    nes.oam_data[2] = 0b0000_0010;
    let sprite = nes.sprite_palette(0);
    assert_eq!(sprite, [0x00, 0x21, 0x22, 0x23]);
}
