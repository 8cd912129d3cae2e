//! Whole-console tests: reset, cartridge mirroring, ticking and the joypad.

use lynes::cartridge::{test_rom, Cartridge, ScreenMirroring};
use lynes::color::{Color, ColorPalette};
use lynes::NES;

#[test]
fn reset_loads_the_reset_vector() {
    let mut nes = NES::default();
    nes.insert_cart(test_rom(Some(vec![0xEA])));
    nes.reset();

    assert_eq!(nes.cpu_registers.program_counter, 0x8000);
    assert_eq!(nes.cpu_registers.stack_pointer, 0xFD);
    assert_eq!(nes.cpu_registers.accumulator, 0);
    assert_eq!(nes.cpu_registers.status.bits(), 0x24);
    assert_eq!(nes.cpu_cycles, 7);
}

#[test]
fn sixteen_kib_carts_mirror_the_bank() {
    let mut nes = NES::default();
    let mut prg = vec![0u8; 0x4000];
    for (i, b) in prg.iter_mut().enumerate() {
        *b = (i % 251) as u8;
    }
    nes.insert_cart(Cartridge {
        prg_rom: prg,
        chr_rom: vec![0; 0x2000],
        mapper: 0,
        screen_mirroring: ScreenMirroring::Horizontal,
    });

    for k in 0..0x4000u16 {
        assert_eq!(nes.cpu_read(0x8000 + k), nes.cpu_read(0xC000 + k));
    }
}

#[test]
fn ticks_keep_the_console_well_formed() {
    let mut nes = NES::default();
    nes.insert_cart(test_rom(None));
    nes.reset();

    for _ in 0..5000 {
        nes.tick();
        assert!(nes.cpu_registers.stack_pointer <= 0xFF);
        assert!(nes.ppu_registers.address.as_u16() <= 0x3FFF);
        assert!(nes.ppu_scanline < 262);
    }
}

#[test]
fn controller_strobe_and_shift_out() {
    let mut nes = NES::default();
    nes.controller.button_state.a = true;
    nes.controller.button_state.start = true;
    nes.controller.button_state.right = true;

    // Strobe high captures the mask; strobe low lets reads shift it out,
    // A first.
    nes.cpu_write(0x4016, 1);
    nes.cpu_write(0x4016, 0);

    let expected = [1u8, 0, 0, 1, 0, 0, 0, 1];
    for bit in expected {
        assert_eq!(nes.cpu_read(0x4016), bit);
    }
    // Exhausted controllers read as 1.
    assert_eq!(nes.cpu_read(0x4016), 1);
    assert_eq!(nes.cpu_read(0x4016), 1);
}

#[test]
fn controller_held_strobe_repeats_button_a() {
    let mut nes = NES::default();
    nes.controller.button_state.a = true;
    nes.cpu_write(0x4016, 1);
    assert_eq!(nes.cpu_read(0x4016), 1);
    assert_eq!(nes.cpu_read(0x4016), 1);
    assert_eq!(nes.cpu_read(0x4016), 1);
}

#[test]
fn open_and_unwired_regions_read_zero() {
    let mut nes = NES::default();
    assert_eq!(nes.cpu_read(0x2000), 0);
    assert_eq!(nes.cpu_read(0x4000), 0);
    assert_eq!(nes.cpu_read(0x4015), 0);
    assert_eq!(nes.cpu_read(0x5000), 0);
    nes.cpu_write(0x5000, 0xAB);
    assert_eq!(nes.cpu_read(0x5000), 0);
    nes.cpu_write(0x8000, 0xAB);
    assert_eq!(nes.cpu_read(0x8000), 0);
}

#[test]
fn ram_mirrors_every_two_kib() {
    let mut nes = NES::default();
    nes.cpu_write(0x0005, 0x42);
    assert_eq!(nes.cpu_read(0x0805), 0x42);
    assert_eq!(nes.cpu_read(0x1005), 0x42);
    assert_eq!(nes.cpu_read(0x1805), 0x42);
    nes.cpu_write(0x1805, 0x43);
    assert_eq!(nes.cpu_read(0x0005), 0x43);
}

#[test]
fn peek_does_not_disturb_the_ppu() {
    let mut nes = NES::default();
    nes.cpu_write(0x2006, 0x21);
    assert!(!nes.ppu_registers.address.latch);
    // A peek of PPUSTATUS must not reset the address latch.
    let _ = nes.cpu_peek(0x2002);
    assert!(!nes.ppu_registers.address.latch);
    // A real read does.
    let _ = nes.cpu_read(0x2002);
    assert!(nes.ppu_registers.address.latch);
}

#[test]
fn frames_are_produced_and_sized() {
    let mut nes = NES::new(ColorPalette::load_bytes(&vec![16u8; 192]));
    nes.insert_cart(test_rom(None));
    nes.reset();

    let mut frames = 0;
    for _ in 0..200000 {
        if nes.tick() {
            frames += 1;
            if frames >= 2 {
                break;
            }
        }
    }
    assert!(frames >= 1);
    assert_eq!(nes.frame().data().len(), 256 * 240 * 3);
}

#[test]
fn system_palette_loads_rgb_triples() {
    let mut bytes = Vec::new();
    for i in 0..192u8 {
        bytes.push(i);
    }
    let palette = ColorPalette::load_bytes(&bytes);
    assert_eq!(palette.get(0), Color::new(0, 1, 2));
    assert_eq!(palette.get(63), Color::new(189, 190, 191));

    let mut palette = ColorPalette::new();
    assert_eq!(palette.get(10), Color::new(0, 0, 0));
    palette.set(10, Color::new(1, 2, 3));
    assert_eq!(palette.get(10), Color::new(1, 2, 3));
}

#[test]
fn viewport_bounds_points() {
    let rect = lynes::renderer::ViewPortRect::new(2, 3, 10, 12);
    assert!(rect.point_is_bounded(2, 3));
    assert!(rect.point_is_bounded(9, 11));
    assert!(!rect.point_is_bounded(10, 11));
    assert!(!rect.point_is_bounded(1, 5));
}

#[test]
fn frame_pixels_land_in_rgb_order() {
    let mut frame = lynes::renderer::Frame::new();
    frame.set_pixel(1, 0, (9, 8, 7));
    assert_eq!(frame.data()[3], 9);
    assert_eq!(frame.data()[4], 8);
    assert_eq!(frame.data()[5], 7);
    // Off-screen writes are ignored.
    frame.set_pixel(300, 0, (1, 1, 1));
    frame.set_pixel(0, 240, (1, 1, 1));
    assert_eq!(frame.data().iter().filter(|b| **b != 0).count(), 3);
}

#[test]
fn rendered_pixels_composite_sprites_over_background() {
    // System palette: entry i holds (i, 2i, 3i) so indices are readable.
    let mut palette_bytes = Vec::new();
    for i in 0..64u32 {
        palette_bytes.push(i as u8);
        palette_bytes.push((2 * i) as u8);
        palette_bytes.push((3 * i) as u8);
    }
    let mut nes = NES::new(ColorPalette::load_bytes(&palette_bytes));

    // CHR tile 0: the top row of the low plane is all ones, so every
    // pixel of row 0 has pattern value 1.
    let mut chr = vec![0u8; 0x2000];
    chr[0] = 0xFF;
    nes.insert_cart(Cartridge {
        prg_rom: vec![0; 0x8000],
        chr_rom: chr,
        mapper: 0,
        screen_mirroring: ScreenMirroring::Horizontal,
    });

    // Background palette entry 1 is color 5; sprite palette entry 1 is 9.
    nes.cpu_write(0x2006, 0x3F);
    nes.cpu_write(0x2006, 0x01);
    nes.cpu_write(0x2007, 5);
    nes.cpu_write(0x2006, 0x3F);
    nes.cpu_write(0x2006, 0x11);
    nes.cpu_write(0x2007, 9);

    let mut frames = 0;
    for _ in 0..200000 {
        if nes.tick() {
            frames += 1;
            break;
        }
    }
    assert_eq!(frames, 1);

    // Pixel (0, 0): all 64 sprites sit at (0, 0) with tile 0; sprite 0 is
    // topmost and opaque there, so the sprite color 9 wins.
    assert_eq!(&nes.frame().data()[0..3], &[9, 18, 27]);
    // Pixel (0, 8): below every sprite box; the background tile row shows
    // color 5.
    let base = (8 * 256) * 3;
    assert_eq!(&nes.frame().data()[base..base + 3], &[5, 10, 15]);
    // Pixel (0, 9): background pattern value 0 there, the universal
    // background color 0.
    let base = (9 * 256) * 3;
    assert_eq!(&nes.frame().data()[base..base + 3], &[0, 0, 0]);
}
