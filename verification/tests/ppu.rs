//! PPU tests: register ports, mirroring, timing and the DMA path.

use lynes::Interrupt;
use lynes::NES;

/// Advances the PPU by at least `dots` dots (rounded up to whole CPU
/// cycles of three dots each).
fn advance_dots(nes: &mut NES, dots: u64) {
    let mut cycles = dots.div_ceil(3);
    while cycles > 0 {
        let step = cycles.min(999);
        nes.ppu_clock(step);
        cycles -= step;
    }
}

#[test]
fn oam_dma_copies_a_page_and_stalls_513_cycles() {
    let mut nes = NES::default();
    for i in 0..256u16 {
        nes.cpu_write(0x0200 + i, i as u8);
    }
    assert_eq!(nes.ppu_registers.oam_addr, 0);
    let before = nes.cpu_cycles;

    nes.cpu_write(0x4014, 0x02);

    for i in 0..256usize {
        assert_eq!(nes.oam_data[i], i as u8);
    }
    assert_eq!(nes.cpu_cycles, before + 513);
}

#[test]
fn vblank_entry_raises_nmi_and_services_it() {
    let mut nes = NES::default();
    let mut prg = vec![0u8; 0x8000];
    prg[0x7FFA] = 0x34;
    prg[0x7FFB] = 0x12;
    nes.insert_cart(lynes::cartridge::Cartridge {
        prg_rom: prg,
        chr_rom: vec![0; 0x2000],
        mapper: 0,
        screen_mirroring: lynes::cartridge::ScreenMirroring::Horizontal,
    });
    nes.cpu_write(0x2000, 0x80);
    assert_eq!(nes.next_interrupt, None);

    // Scanline 241 begins at dot 241 * 341.
    advance_dots(&mut nes, 241 * 341);

    assert_eq!(nes.next_interrupt, Some(Interrupt::NMI));
    assert!(nes.ppu_registers.status.vblank_started);

    let sp = nes.cpu_registers.stack_pointer;
    nes.cpu_registers.program_counter = 0x0300;
    nes.try_interrupt();

    assert_eq!(nes.cpu_registers.program_counter, 0x1234);
    assert_eq!(nes.next_interrupt, None);
    // Pushed P carries B = %10.
    let pushed = nes.cpu_peek(0x0100 + (sp as u16) - 2);
    assert_eq!((pushed / 16) % 4, 2);
}

#[test]
fn vblank_is_not_raised_with_nmi_disabled() {
    let mut nes = NES::default();
    advance_dots(&mut nes, 241 * 341);
    assert!(nes.ppu_registers.status.vblank_started);
    assert_eq!(nes.next_interrupt, None);
}

#[test]
fn frame_wraps_and_clears_vblank() {
    let mut nes = NES::default();
    advance_dots(&mut nes, 241 * 341);
    assert!(nes.ppu_registers.status.vblank_started);
    // The pre-render line clears the flag; the wrap ends the frame.
    advance_dots(&mut nes, (262 - 241) * 341);
    assert!(!nes.ppu_registers.status.vblank_started);
    assert_eq!(nes.ppu_scanline, 0);
}

#[test]
fn status_read_clears_vblank_and_latches() {
    let mut nes = NES::default();
    advance_dots(&mut nes, 241 * 341);

    // Half-load both latches so the read has something to rewind.
    nes.cpu_write(0x2006, 0x21);
    nes.cpu_write(0x2005, 0x7F);

    let first = nes.cpu_read(0x2002);
    assert_eq!(first & 0x80, 0x80);
    let second = nes.cpu_read(0x2002);
    assert_eq!(second & 0x80, 0x00);
    assert!(nes.ppu_registers.address.latch);
    assert!(!nes.ppu_registers.scroll.latch);
}

#[test]
fn nametable_mirroring_horizontal() {
    // With horizontal mirroring, $2400 shares RAM with $2000 and $2C00
    // with $2800.
    let mut nes = NES::default();

    nes.cpu_write(0x2006, 0x24);
    nes.cpu_write(0x2006, 0x00);
    nes.cpu_write(0x2007, 0x11);

    nes.cpu_write(0x2006, 0x2C);
    nes.cpu_write(0x2006, 0x00);
    nes.cpu_write(0x2007, 0x22);

    nes.cpu_write(0x2006, 0x20);
    nes.cpu_write(0x2006, 0x00);
    let _stale = nes.cpu_read(0x2007);
    assert_eq!(nes.cpu_read(0x2007), 0x11);

    nes.cpu_write(0x2006, 0x28);
    nes.cpu_write(0x2006, 0x00);
    let _stale = nes.cpu_read(0x2007);
    assert_eq!(nes.cpu_read(0x2007), 0x22);
}

#[test]
fn nametable_mirroring_vertical() {
    let mut nes = NES::default();
    nes.insert_cart(lynes::cartridge::test_rom(None));

    nes.cpu_write(0x2006, 0x28);
    nes.cpu_write(0x2006, 0x00);
    nes.cpu_write(0x2007, 0x33);

    nes.cpu_write(0x2006, 0x20);
    nes.cpu_write(0x2006, 0x00);
    let _stale = nes.cpu_read(0x2007);
    assert_eq!(nes.cpu_read(0x2007), 0x33);
}

#[test]
fn palette_mirroring_both_ways() {
    let mut nes = NES::default();

    // $3F10 aliases $3F00.
    nes.cpu_write(0x2006, 0x3F);
    nes.cpu_write(0x2006, 0x10);
    nes.cpu_write(0x2007, 0x5A);
    nes.cpu_write(0x2006, 0x3F);
    nes.cpu_write(0x2006, 0x00);
    assert_eq!(nes.cpu_read(0x2007), 0x5A);

    // And the other way round: $3F04 is visible at $3F14.
    nes.cpu_write(0x2006, 0x3F);
    nes.cpu_write(0x2006, 0x04);
    nes.cpu_write(0x2007, 0x33);
    nes.cpu_write(0x2006, 0x3F);
    nes.cpu_write(0x2006, 0x14);
    assert_eq!(nes.cpu_read(0x2007), 0x33);
}

#[test]
fn ppudata_reads_are_buffered_below_the_palette() {
    let mut nes = NES::default();

    nes.cpu_write(0x2006, 0x20);
    nes.cpu_write(0x2006, 0x00);
    nes.cpu_write(0x2007, 0x42);

    nes.cpu_write(0x2006, 0x20);
    nes.cpu_write(0x2006, 0x00);
    let stale = nes.cpu_read(0x2007);
    let fresh = nes.cpu_read(0x2007);
    assert_eq!(stale, 0x00);
    assert_eq!(fresh, 0x42);
}

#[test]
fn ppudata_address_increments_by_one_or_thirtytwo() {
    let mut nes = NES::default();
    nes.cpu_write(0x2006, 0x20);
    nes.cpu_write(0x2006, 0x00);
    nes.cpu_write(0x2007, 0x01);
    assert_eq!(nes.ppu_registers.address.as_u16(), 0x2001);

    nes.cpu_write(0x2000, 0x04);
    nes.cpu_write(0x2007, 0x02);
    assert_eq!(nes.ppu_registers.address.as_u16(), 0x2021);
}

#[test]
fn vram_address_is_masked_to_fourteen_bits() {
    let mut nes = NES::default();
    nes.cpu_write(0x2006, 0xFF);
    nes.cpu_write(0x2006, 0xFF);
    assert_eq!(nes.ppu_registers.address.as_u16(), 0x3FFF);
    // One more PPUDATA access wraps to $0000.
    let _ = nes.cpu_read(0x2007);
    assert_eq!(nes.ppu_registers.address.as_u16(), 0x0000);
}

#[test]
fn oam_port_writes_autoincrement_reads_do_not() {
    let mut nes = NES::default();
    nes.cpu_write(0x2003, 0x10);
    nes.cpu_write(0x2004, 0xAA);
    nes.cpu_write(0x2004, 0xBB);
    assert_eq!(nes.ppu_registers.oam_addr, 0x12);
    nes.cpu_write(0x2003, 0x10);
    assert_eq!(nes.cpu_read(0x2004), 0xAA);
    assert_eq!(nes.cpu_read(0x2004), 0xAA);
    assert_eq!(nes.oam_data[0x11], 0xBB);
}
