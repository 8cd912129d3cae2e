//! CPU tests: the original load tests plus the concrete instruction
//! scenarios.

use lynes::cpu::instructions::{beq, dec, dex, inc, inx, jmp, lda, pha, pla, rol, ror};
use lynes::cpu::AddrMode;
use lynes::NES;

#[test]
fn lda_sets_accumulator() {
    let mut nes = NES::default();

    nes.cpu_registers.accumulator = 0x00;
    nes.cpu_registers.program_counter += 1;
    nes.cpu_write(0x0001, 0x01);

    lda(&mut nes, &AddrMode::Immediate);

    assert_eq!(nes.cpu_registers.accumulator, 0x01);
}

#[test]
fn lda_sets_zero_flag() {
    let mut nes = NES::default();

    nes.cpu_registers.accumulator = 0x00;
    nes.cpu_registers.program_counter += 1;
    nes.cpu_write(0x0001, 0x00);

    lda(&mut nes, &AddrMode::Immediate);

    assert_eq!(nes.cpu_registers.accumulator, 0x00);
    assert_eq!(nes.cpu_registers.status.zero, true);
}

#[test]
fn lda_sets_negative_flag() {
    let mut nes = NES::default();

    nes.cpu_registers.accumulator = 0x00;
    nes.cpu_registers.program_counter += 1;
    nes.cpu_write(0x0001, 0xFF);

    lda(&mut nes, &AddrMode::Immediate);

    assert_eq!(nes.cpu_registers.accumulator, 0xFF);
    assert_eq!(nes.cpu_registers.status.negative, true);
}

#[test]
fn lda_immediate_through_tick_sets_flags() {
    // LDA #$FF at $0000: after one tick A is $FF with N set and Z clear.
    let mut nes = NES::default();
    nes.cpu_write(0x0000, 0xA9);
    nes.cpu_write(0x0001, 0xFF);

    nes.tick();

    assert_eq!(nes.cpu_registers.accumulator, 0xFF);
    assert_eq!(nes.cpu_registers.status.negative, true);
    assert_eq!(nes.cpu_registers.status.zero, false);
    assert_eq!(nes.cpu_registers.program_counter, 0x0002);
}

#[test]
fn branch_taken_across_page_costs_two_extra_cycles() {
    // BEQ +$10 with the relative operand at $00FE and Z set: the branch
    // lands on a new page, so the kernel reports both penalty cycles.
    let mut nes = NES::default();
    nes.cpu_registers.program_counter = 0x00FE;
    nes.cpu_write(0x00FE, 0x10);
    nes.cpu_registers.status.zero = true;

    let extra = beq(&mut nes, &AddrMode::Relative);

    assert_eq!(nes.cpu_registers.program_counter, 0x0110);
    assert_eq!(extra, 2);
}

#[test]
fn branch_not_taken_costs_nothing() {
    let mut nes = NES::default();
    nes.cpu_registers.program_counter = 0x00FE;
    nes.cpu_write(0x00FE, 0x10);
    nes.cpu_registers.status.zero = false;

    let extra = beq(&mut nes, &AddrMode::Relative);

    assert_eq!(nes.cpu_registers.program_counter, 0x00FE);
    assert_eq!(extra, 0);
}

#[test]
fn indirect_jmp_page_bug() {
    // JMP ($10FF): the pointer's high byte comes from $1000, not $1100,
    // so the target is $1234 rather than $AB34.
    let mut nes = NES::default();
    nes.cpu_write(0x10FF, 0x34);
    nes.cpu_write(0x1000, 0x12);
    nes.cpu_write(0x1100, 0xAB);
    nes.cpu_registers.program_counter = 0x0200;
    nes.cpu_write(0x0200, 0xFF);
    nes.cpu_write(0x0201, 0x10);

    jmp(&mut nes, &AddrMode::Indirect);

    assert_eq!(nes.cpu_registers.program_counter, 0x1234);
    assert_ne!(nes.cpu_registers.program_counter, 0xAB34);
}

#[test]
fn inc_then_dec_restores_the_cell() {
    let mut nes = NES::default();
    nes.cpu_write(0x0010, 0x7F);
    nes.cpu_registers.program_counter = 0x0300;
    nes.cpu_write(0x0300, 0x10);

    inc(&mut nes, &AddrMode::ZeroPage);
    assert_eq!(nes.cpu_peek(0x0010), 0x80);
    dec(&mut nes, &AddrMode::ZeroPage);
    assert_eq!(nes.cpu_peek(0x0010), 0x7F);

    // And around the wrap.
    nes.cpu_write(0x0010, 0xFF);
    inc(&mut nes, &AddrMode::ZeroPage);
    assert_eq!(nes.cpu_peek(0x0010), 0x00);
    assert_eq!(nes.cpu_registers.status.zero, true);
    dec(&mut nes, &AddrMode::ZeroPage);
    assert_eq!(nes.cpu_peek(0x0010), 0xFF);
}

#[test]
fn rol_then_ror_restores_accumulator_and_carry() {
    for value in [0x00u8, 0x01, 0x7F, 0x80, 0xA5, 0xFF] {
        for carry in [false, true] {
            let mut nes = NES::default();
            nes.cpu_registers.accumulator = value;
            nes.cpu_registers.status.carry = carry;

            rol(&mut nes, &AddrMode::Accumulator);
            ror(&mut nes, &AddrMode::Accumulator);

            assert_eq!(nes.cpu_registers.accumulator, value);
            assert_eq!(nes.cpu_registers.status.carry, carry);
        }
    }
}

#[test]
fn adc_carry_and_overflow() {
    // $50 + $50 overflows signed but not unsigned.
    let mut nes = NES::default();
    nes.cpu_registers.accumulator = 0x50;
    nes.cpu_registers.program_counter = 0x0040;
    nes.cpu_write(0x0040, 0x50);
    lynes::cpu::instructions::adc(&mut nes, &AddrMode::Immediate);
    assert_eq!(nes.cpu_registers.accumulator, 0xA0);
    assert_eq!(nes.cpu_registers.status.carry, false);
    assert_eq!(nes.cpu_registers.status.overflow, true);
    assert_eq!(nes.cpu_registers.status.negative, true);

    // $FF + $01 carries out and wraps to zero.
    let mut nes = NES::default();
    nes.cpu_registers.accumulator = 0xFF;
    nes.cpu_registers.program_counter = 0x0040;
    nes.cpu_write(0x0040, 0x01);
    lynes::cpu::instructions::adc(&mut nes, &AddrMode::Immediate);
    assert_eq!(nes.cpu_registers.accumulator, 0x00);
    assert_eq!(nes.cpu_registers.status.carry, true);
    assert_eq!(nes.cpu_registers.status.zero, true);
}

#[test]
fn sbc_is_adc_of_the_complement() {
    // With carry set (no borrow), $40 - $10 = $30.
    let mut nes = NES::default();
    nes.cpu_registers.accumulator = 0x40;
    nes.cpu_registers.status.carry = true;
    nes.cpu_registers.program_counter = 0x0040;
    nes.cpu_write(0x0040, 0x10);
    lynes::cpu::instructions::sbc(&mut nes, &AddrMode::Immediate);
    assert_eq!(nes.cpu_registers.accumulator, 0x30);
    assert_eq!(nes.cpu_registers.status.carry, true);
}

#[test]
fn php_pushes_b_bits_set_and_plp_clears_them() {
    let mut nes = NES::default();
    nes.cpu_registers.status.set_bits(0x24);
    let sp = nes.cpu_registers.stack_pointer;

    lynes::cpu::instructions::php(&mut nes, &AddrMode::Implied);
    let pushed = nes.cpu_peek(0x0100 + sp as u16);
    assert_eq!(pushed, 0x34);

    lynes::cpu::instructions::plp(&mut nes, &AddrMode::Implied);
    // The B pair reads back as %10 whatever was pushed.
    assert_eq!(nes.cpu_registers.status.b, 2);
    assert_eq!(nes.cpu_registers.status.interrupt_disable, true);
}

#[test]
fn status_byte_round_trips() {
    let mut nes = NES::default();
    nes.cpu_registers.status.set_bits(0xED);
    assert_eq!(nes.cpu_registers.status.bits(), 0xED);
    nes.cpu_registers.status.set_bits(0x00);
    assert_eq!(nes.cpu_registers.status.bits(), 0x00);
}

#[test]
fn brk_pushes_and_vectors_through_fffe() {
    let mut nes = NES::default();
    let mut prg = vec![0u8; 0x8000];
    prg[0x7FFE] = 0x34;
    prg[0x7FFF] = 0x12;
    nes.insert_cart(lynes::cartridge::Cartridge {
        prg_rom: prg,
        chr_rom: vec![0; 0x2000],
        mapper: 0,
        screen_mirroring: lynes::cartridge::ScreenMirroring::Horizontal,
    });
    nes.cpu_registers.program_counter = 0x0200;

    lynes::cpu::instructions::brk(&mut nes, &AddrMode::Implied);

    assert_eq!(nes.cpu_registers.program_counter, 0x1234);
    assert_eq!(nes.cpu_registers.status.interrupt_disable, true);
    // Return address $0201, then P with B = %11.
    assert_eq!(nes.cpu_peek(0x01FD), 0x02);
    assert_eq!(nes.cpu_peek(0x01FC), 0x01);
    let pushed = nes.cpu_peek(0x01FB);
    assert_eq!((pushed / 16) % 4, 3);
}

#[test]
fn inx_then_dex_restores_x() {
    for start in [0x00u8, 0x7F, 0xFF] {
        let mut nes = NES::default();
        nes.cpu_registers.x = start;
        inx(&mut nes, &AddrMode::Implied);
        dex(&mut nes, &AddrMode::Implied);
        assert_eq!(nes.cpu_registers.x, start);
    }
}

#[test]
fn pha_then_pla_restores_a_and_sp() {
    let mut nes = NES::default();
    nes.cpu_registers.accumulator = 0xC3;
    let sp = nes.cpu_registers.stack_pointer;
    pha(&mut nes, &AddrMode::Implied);
    nes.cpu_registers.accumulator = 0x00;
    pla(&mut nes, &AddrMode::Implied);
    assert_eq!(nes.cpu_registers.accumulator, 0xC3);
    assert_eq!(nes.cpu_registers.stack_pointer, sp);
}

#[test]
fn write_u16_lands_little_endian() {
    let mut nes = NES::default();
    nes.cpu_write_u16(0x0123, 0xBEEF);
    assert_eq!(nes.cpu_peek(0x0123), 0xEF);
    assert_eq!(nes.cpu_peek(0x0124), 0xBE);
    assert_eq!(nes.cpu_read_u16(0x0123), 0xBEEF);
}

#[test]
fn eor_twice_restores_the_accumulator() {
    let mut nes = NES::default();
    nes.cpu_registers.accumulator = 0x5C;
    nes.cpu_registers.program_counter = 0x0040;
    nes.cpu_write(0x0040, 0xA7);
    lynes::cpu::instructions::eor(&mut nes, &AddrMode::Immediate);
    assert_eq!(nes.cpu_registers.accumulator, 0xFB);
    lynes::cpu::instructions::eor(&mut nes, &AddrMode::Immediate);
    assert_eq!(nes.cpu_registers.accumulator, 0x5C);
}
