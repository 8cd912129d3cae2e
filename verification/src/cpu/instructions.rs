//! The 256-entry opcode table and the operation kernels it dispatches to.

use vstd::prelude::*;

verus! {

use crate::NES;
use crate::cpu::AddrMode;
use crate::cpu::registers::Status;
use crate::cpu::registers::b2u;
use crate::cpu::{
    spec_op_fetch_stable,
    spec_op_resolve,
    spec_page_crossed,
    signed8,
    wrap16,
    wrap8,
};

/// Modes that produce an operand address; Implied and Accumulator do not.
pub open spec fn mode_has_address(mode: AddrMode) -> bool {
    mode != AddrMode::Implied && mode != AddrMode::Accumulator
}

/// The operand address of the current instruction.
pub open spec fn op_addr(s: NES, mode: AddrMode) -> u16 {
    spec_op_resolve(s, mode).0
}

/// The page-cross penalty as a cycle count.
pub open spec fn op_extra(s: NES, mode: AddrMode) -> usize {
    if spec_op_resolve(s, mode).1 {
        1usize
    } else {
        0usize
    }
}

/// Resolving and reading the operand touches no live port, so the operand
/// byte is a pure function of the starting state.
pub open spec fn op_ok(s: NES, mode: AddrMode) -> bool {
    spec_op_fetch_stable(s, mode) && NES::stable_addr(op_addr(s, mode))
}

/// The operand byte itself.
pub open spec fn operand(s: NES, mode: AddrMode) -> u8 {
    s.spec_peek(op_addr(s, mode))
}

/// Resolving touches no live port and the operand address lands in RAM,
/// so a read-modify-write cycle stays a pure RAM update.
pub open spec fn op_ram(s: NES, mode: AddrMode) -> bool {
    spec_op_fetch_stable(s, mode) && op_addr(s, mode) < 0x2000
}

/// Status after refreshing Z and N from `v`: Z when `v` is zero, N when
/// bit 7 of `v` is set.
pub open spec fn spec_zn(st: Status, v: u8) -> Status {
    Status { zero: v == 0, negative: v >= 0x80, ..st }
}

/// The three outputs of the accumulator adder on A + v + C: the 8-bit sum,
/// the carry out, and signed overflow.
pub open spec fn spec_adc_sum(a: u8, v: u8, c: bool) -> u8 {
    wrap8(a + v + b2u(c))
}

pub open spec fn spec_adc_carry(a: u8, v: u8, c: bool) -> bool {
    a + v + b2u(c) > 0xFF
}

pub open spec fn spec_adc_overflow(a: u8, v: u8, c: bool) -> bool {
    (v ^ spec_adc_sum(a, v, c)) & (spec_adc_sum(a, v, c) ^ a) & 0x80 != 0
}

/// Status after an add-to-accumulator: C, V, Z and N all refreshed.
pub open spec fn spec_adc_status(st: Status, a: u8, v: u8, c: bool) -> Status {
    Status {
        carry: spec_adc_carry(a, v, c),
        overflow: spec_adc_overflow(a, v, c),
        ..spec_zn(st, spec_adc_sum(a, v, c))
    }
}

/// Status after a compare: C when the register is at least the operand,
/// Z and N from their 8-bit difference.
pub open spec fn spec_cmp_status(st: Status, reg: u8, v: u8) -> Status {
    Status { carry: reg >= v, ..spec_zn(st, wrap8(reg - v)) }
}

/// 8-bit increment and decrement.
pub open spec fn inc8(v: u8) -> u8 {
    wrap8(v + 1)
}

pub open spec fn dec8(v: u8) -> u8 {
    wrap8(v - 1)
}

/// Shift left; the bit shifted out goes to C.
pub open spec fn asl8(v: u8) -> u8 {
    wrap8(2 * v)
}

/// Shift right.
pub open spec fn lsr8(v: u8) -> u8 {
    v / 2
}

/// Rotate left through carry.
pub open spec fn rol8(v: u8, c: bool) -> u8 {
    wrap8(2 * v + b2u(c))
}

/// Rotate right through carry.
pub open spec fn ror8(v: u8, c: bool) -> u8 {
    (v / 2 + 128 * b2u(c)) as u8
}

/// Nothing outside the CPU register file moved.
pub open spec fn frame_regs_only(pre: NES, post: NES) -> bool {
    &&& NES::same_mem(pre, post)
    &&& NES::same_timing(pre, post)
    &&& NES::same_host(pre, post)
    &&& NES::same_ppu_regs(pre, post)
    &&& post.next_interrupt == pre.next_interrupt
}

/// Nothing outside the CPU register file and RAM moved.
pub open spec fn frame_regs_ram(pre: NES, post: NES) -> bool {
    &&& post.prg_rom@ == pre.prg_rom@
    &&& post.chr_rom@ == pre.chr_rom@
    &&& post.palette_table@ == pre.palette_table@
    &&& post.ppu_vram@ == pre.ppu_vram@
    &&& post.oam_data@ == pre.oam_data@
    &&& NES::same_timing(pre, post)
    &&& NES::same_host(pre, post)
    &&& NES::same_ppu_regs(pre, post)
    &&& post.next_interrupt == pre.next_interrupt
}

/// A, X, Y and SP kept.
pub open spec fn same_axys(pre: NES, post: NES) -> bool {
    &&& post.cpu_registers.accumulator == pre.cpu_registers.accumulator
    &&& post.cpu_registers.x == pre.cpu_registers.x
    &&& post.cpu_registers.y == pre.cpu_registers.y
    &&& post.cpu_registers.stack_pointer == pre.cpu_registers.stack_pointer
}

/// Refreshes Z and N from `value`.
pub fn update_zero_and_negative_flags(nes: &mut NES, value: u8)
    requires
        old(nes).wf(),
    ensures
        final(nes).wf(),
        final(nes).cpu_registers.status == spec_zn(old(nes).cpu_registers.status, value),
        final(nes).cpu_registers.accumulator == old(nes).cpu_registers.accumulator,
        final(nes).cpu_registers.x == old(nes).cpu_registers.x,
        final(nes).cpu_registers.y == old(nes).cpu_registers.y,
        final(nes).cpu_registers.stack_pointer == old(nes).cpu_registers.stack_pointer,
        final(nes).cpu_registers.program_counter == old(nes).cpu_registers.program_counter,
        frame_regs_only(*old(nes), *final(nes)),
{
    nes.cpu_registers.status.zero = value == 0;
    nes.cpu_registers.status.negative = value >= 0x80;
}

/// Loads the accumulator and refreshes Z and N.
pub fn set_accumulator(nes: &mut NES, value: u8)
    requires
        old(nes).wf(),
    ensures
        final(nes).wf(),
        final(nes).cpu_registers.accumulator == value,
        final(nes).cpu_registers.status == spec_zn(old(nes).cpu_registers.status, value),
        final(nes).cpu_registers.x == old(nes).cpu_registers.x,
        final(nes).cpu_registers.y == old(nes).cpu_registers.y,
        final(nes).cpu_registers.stack_pointer == old(nes).cpu_registers.stack_pointer,
        final(nes).cpu_registers.program_counter == old(nes).cpu_registers.program_counter,
        frame_regs_only(*old(nes), *final(nes)),
{
    nes.cpu_registers.accumulator = value;
    update_zero_and_negative_flags(nes, value);
}

/// The 9-bit adder behind ADC and SBC: A becomes the 8-bit sum of
/// A + value + C, with C, V, Z and N refreshed.
pub fn add_to_accumulator(nes: &mut NES, value: u8)
    requires
        old(nes).wf(),
    ensures
        final(nes).wf(),
        final(nes).cpu_registers.accumulator == spec_adc_sum(
            old(nes).cpu_registers.accumulator,
            value,
            old(nes).cpu_registers.status.carry,
        ),
        final(nes).cpu_registers.status == spec_adc_status(
            old(nes).cpu_registers.status,
            old(nes).cpu_registers.accumulator,
            value,
            old(nes).cpu_registers.status.carry,
        ),
        final(nes).cpu_registers.x == old(nes).cpu_registers.x,
        final(nes).cpu_registers.y == old(nes).cpu_registers.y,
        final(nes).cpu_registers.stack_pointer == old(nes).cpu_registers.stack_pointer,
        final(nes).cpu_registers.program_counter == old(nes).cpu_registers.program_counter,
        frame_regs_only(*old(nes), *final(nes)),
{
    let carry_in: u16 = if nes.cpu_registers.status.carry {
        1
    } else {
        0
    };
    let sum: u16 = nes.cpu_registers.accumulator as u16 + value as u16 + carry_in;
    nes.cpu_registers.status.carry = sum > 0xFF;

    let result = (sum % 256) as u8;
    nes.cpu_registers.status.overflow = (value ^ result) & (result ^ nes.cpu_registers.accumulator)
        & 0x80 != 0;
    set_accumulator(nes, result);
}

/// Compare: C is set when `register >= value`; Z and N come from the
/// 8-bit difference.
pub fn compare(nes: &mut NES, register: u8, value: u8)
    requires
        old(nes).wf(),
    ensures
        final(nes).wf(),
        final(nes).cpu_registers.status == spec_cmp_status(
            old(nes).cpu_registers.status,
            register,
            value,
        ),
        final(nes).cpu_registers.accumulator == old(nes).cpu_registers.accumulator,
        final(nes).cpu_registers.x == old(nes).cpu_registers.x,
        final(nes).cpu_registers.y == old(nes).cpu_registers.y,
        final(nes).cpu_registers.stack_pointer == old(nes).cpu_registers.stack_pointer,
        final(nes).cpu_registers.program_counter == old(nes).cpu_registers.program_counter,
        frame_regs_only(*old(nes), *final(nes)),
{
    let result = if register >= value {
        register - value
    } else {
        // Wraps below zero.
        (register as u16 + 256 - value as u16) as u8
    };
    nes.cpu_registers.status.carry = register >= value;
    update_zero_and_negative_flags(nes, result);
}

/// The branch target: the program counter points at the relative operand;
/// the instruction ends two bytes on, and the signed operand is added to
/// that.
pub open spec fn spec_branch_target(pc: u16, off: u8) -> u16 {
    wrap16(pc + 2 + signed8(off))
}

/// A taken branch costs one extra cycle, and one more when the target
/// leaves the page of the opcode (one byte below the operand).
pub open spec fn spec_branch_cycles(pc: u16, off: u8) -> usize {
    if spec_page_crossed(wrap16(pc - 1), spec_branch_target(pc, off)) {
        2usize
    } else {
        1usize
    }
}

/// Conditional branch from the current program counter, which points at
/// the relative operand byte.
pub fn branch(nes: &mut NES, condition: bool) -> (r: usize)
    requires
        old(nes).wf(),
    ensures
        final(nes).wf(),
        !condition ==> r == 0 && NES::same_state(*old(nes), *final(nes)),
        condition && NES::stable_addr(old(nes).cpu_registers.program_counter) ==> ({
            let pc = old(nes).cpu_registers.program_counter;
            let off = old(nes).spec_peek(pc);
            &&& final(nes).cpu_registers.program_counter == spec_branch_target(pc, off)
            &&& r == spec_branch_cycles(pc, off)
            &&& final(nes).cpu_registers.status == old(nes).cpu_registers.status
            &&& same_axys(*old(nes), *final(nes))
            &&& frame_regs_only(*old(nes), *final(nes))
        }),
        NES::same_mem(*old(nes), *final(nes)),
        NES::same_timing(*old(nes), *final(nes)),
        r <= 2,
{
    if !condition {
        return 0;
    }
    let pc = nes.cpu_registers.program_counter;
    let offset = nes.cpu_read(pc);
    let base = crate::cpu::add16(pc, 2);
    let new_addr = if offset < 128 {
        crate::cpu::add16(base, offset as u16)
    } else {
        crate::cpu::add16(base, (offset as u16) + 0xFF00)
    };
    proof {
        crate::cpu::lemma_wrap_signed(pc + 2, offset);
    }
    let opcode_addr = if pc == 0 {
        0xFFFF
    } else {
        pc - 1
    };
    let cycles: usize = if crate::cpu::page_crossed(opcode_addr, new_addr) {
        2
    } else {
        1
    };
    nes.cpu_registers.program_counter = new_addr;
    cycles
}

/// Adds one to the byte at `addr` through the bus, refreshing Z and N,
/// and hands the new byte back.
pub fn increment_memory(nes: &mut NES, addr: u16) -> (r: u8)
    requires
        old(nes).wf(),
        old(nes).cpu_cycles <= 0xE000,
    ensures
        final(nes).wf(),
        NES::stable_addr(addr) && addr < 0x2000 ==> ({
            let v = inc8(old(nes).spec_peek(addr));
            &&& r == v
            &&& final(nes).cpu_ram@ == old(nes).cpu_ram@.update(addr as int % 0x800, v)
            &&& final(nes).cpu_registers.status == spec_zn(old(nes).cpu_registers.status, v)
            &&& same_axys(*old(nes), *final(nes))
            &&& final(nes).cpu_registers.program_counter == old(nes).cpu_registers.program_counter
            &&& frame_regs_ram(*old(nes), *final(nes))
        }),
        addr != 0x4014 ==> NES::same_timing(*old(nes), *final(nes)),
        final(nes).cpu_cycles <= old(nes).cpu_cycles + 513,
        final(nes).prg_rom@ == old(nes).prg_rom@ && final(nes).chr_rom@ == old(nes).chr_rom@,
{
    let old_value = nes.cpu_read(addr);
    let result = crate::cpu::add8(old_value, 1);
    nes.cpu_write(addr, result);
    update_zero_and_negative_flags(nes, result);
    result
}


/// Add with carry: A gains the operand plus C, setting C, V, Z, N.
pub fn adc(nes: &mut NES, mode: &AddrMode) -> (r: usize)
    requires
        old(nes).wf(),
        mode_has_address(*mode),
    ensures
        rel_adc(*old(nes), *final(nes), *mode, r),

{
    let (addr, crossed) = nes.get_operating_address(mode);
    let value = nes.cpu_read(addr);
    add_to_accumulator(nes, value);
    if crossed {
        1
    } else {
        0
    }
}

/// Subtract with borrow: adds the operand's complement, $FF - v.
pub fn sbc(nes: &mut NES, mode: &AddrMode) -> (r: usize)
    requires
        old(nes).wf(),
        mode_has_address(*mode),
    ensures
        rel_sbc(*old(nes), *final(nes), *mode, r),

{
    let (addr, crossed) = nes.get_operating_address(mode);
    let value = nes.cpu_read(addr);
    let complement = 255 - value;
    add_to_accumulator(nes, complement);
    if crossed {
        1
    } else {
        0
    }
}

/// Bitwise AND into the accumulator, setting Z and N.
pub fn and(nes: &mut NES, mode: &AddrMode) -> (r: usize)
    requires
        old(nes).wf(),
        mode_has_address(*mode),
    ensures
        rel_and(*old(nes), *final(nes), *mode, r),

{
    let (addr, crossed) = nes.get_operating_address(mode);
    let value = nes.cpu_read(addr);
    let result = nes.cpu_registers.accumulator & value;
    set_accumulator(nes, result);
    if crossed {
        1
    } else {
        0
    }
}

/// Bitwise OR into the accumulator, setting Z and N.
pub fn ora(nes: &mut NES, mode: &AddrMode) -> (r: usize)
    requires
        old(nes).wf(),
        mode_has_address(*mode),
    ensures
        rel_ora(*old(nes), *final(nes), *mode, r),

{
    let (addr, crossed) = nes.get_operating_address(mode);
    let value = nes.cpu_read(addr);
    let result = nes.cpu_registers.accumulator | value;
    set_accumulator(nes, result);
    if crossed {
        1
    } else {
        0
    }
}

/// Bitwise exclusive OR into the accumulator, setting Z and N.
pub fn eor(nes: &mut NES, mode: &AddrMode) -> (r: usize)
    requires
        old(nes).wf(),
        mode_has_address(*mode),
    ensures
        rel_eor(*old(nes), *final(nes), *mode, r),

{
    let (addr, crossed) = nes.get_operating_address(mode);
    let value = nes.cpu_read(addr);
    let result = nes.cpu_registers.accumulator ^ value;
    set_accumulator(nes, result);
    if crossed {
        1
    } else {
        0
    }
}

/// Compare the accumulator with the operand.
pub fn cmp(nes: &mut NES, mode: &AddrMode) -> (r: usize)
    requires
        old(nes).wf(),
        mode_has_address(*mode),
    ensures
        rel_cmp(*old(nes), *final(nes), *mode, r),

{
    let (addr, crossed) = nes.get_operating_address(mode);
    let value = nes.cpu_read(addr);
    compare(nes, nes.cpu_registers.accumulator, value);
    if crossed {
        1
    } else {
        0
    }
}

/// Compare X with the operand.
pub fn cpx(nes: &mut NES, mode: &AddrMode) -> (r: usize)
    requires
        old(nes).wf(),
        mode_has_address(*mode),
    ensures
        rel_cpx(*old(nes), *final(nes), *mode, r),

{
    let (addr, crossed) = nes.get_operating_address(mode);
    let value = nes.cpu_read(addr);
    compare(nes, nes.cpu_registers.x, value);
    let _ = crossed;
    0
}

/// Compare Y with the operand.
pub fn cpy(nes: &mut NES, mode: &AddrMode) -> (r: usize)
    requires
        old(nes).wf(),
        mode_has_address(*mode),
    ensures
        rel_cpy(*old(nes), *final(nes), *mode, r),

{
    let (addr, crossed) = nes.get_operating_address(mode);
    let value = nes.cpu_read(addr);
    compare(nes, nes.cpu_registers.y, value);
    let _ = crossed;
    0
}

/// Load the accumulator, setting Z and N.
pub fn lda(nes: &mut NES, mode: &AddrMode) -> (r: usize)
    requires
        old(nes).wf(),
        mode_has_address(*mode),
    ensures
        rel_lda(*old(nes), *final(nes), *mode, r),

{
    let (addr, crossed) = nes.get_operating_address(mode);
    let value = nes.cpu_read(addr);
    set_accumulator(nes, value);
    if crossed {
        1
    } else {
        0
    }
}

/// Load X, setting Z and N.
pub fn ldx(nes: &mut NES, mode: &AddrMode) -> (r: usize)
    requires
        old(nes).wf(),
        mode_has_address(*mode),
    ensures
        rel_ldx(*old(nes), *final(nes), *mode, r),

{
    let (addr, crossed) = nes.get_operating_address(mode);
    let value = nes.cpu_read(addr);
    nes.cpu_registers.x = value;
    update_zero_and_negative_flags(nes, value);
    if crossed {
        1
    } else {
        0
    }
}

/// Load Y, setting Z and N.
pub fn ldy(nes: &mut NES, mode: &AddrMode) -> (r: usize)
    requires
        old(nes).wf(),
        mode_has_address(*mode),
    ensures
        rel_ldy(*old(nes), *final(nes), *mode, r),

{
    let (addr, crossed) = nes.get_operating_address(mode);
    let value = nes.cpu_read(addr);
    nes.cpu_registers.y = value;
    update_zero_and_negative_flags(nes, value);
    if crossed {
        1
    } else {
        0
    }
}

/// Load both A and X from the operand, setting Z and N.
pub fn lax(nes: &mut NES, mode: &AddrMode) -> (r: usize)
    requires
        old(nes).wf(),
        mode_has_address(*mode),
    ensures
        rel_lax(*old(nes), *final(nes), *mode, r),

{
    let (addr, crossed) = nes.get_operating_address(mode);
    let value = nes.cpu_read(addr);
    nes.cpu_registers.x = value;
    set_accumulator(nes, value);
    if crossed {
        1
    } else {
        0
    }
}

/// Bit test: Z from A AND the operand, V and N from operand bits 6 and 7;
/// A itself is untouched.
pub fn bit(nes: &mut NES, mode: &AddrMode) -> (r: usize)
    requires
        old(nes).wf(),
        mode_has_address(*mode),
    ensures
        rel_bit(*old(nes), *final(nes), *mode, r),

{
    let (addr, _) = nes.get_operating_address(mode);
    let value = nes.cpu_read(addr);
    let result = nes.cpu_registers.accumulator & value;
    nes.cpu_registers.status.zero = result == 0;
    nes.cpu_registers.status.overflow = value & 0x40 != 0;
    nes.cpu_registers.status.negative = value >= 0x80;
    0
}

/// Store the accumulator at the operand address.
pub fn sta(nes: &mut NES, mode: &AddrMode) -> (r: usize)
    requires
        old(nes).wf(),
        mode_has_address(*mode),
        old(nes).cpu_cycles <= 0xF000,
    ensures
        rel_sta(*old(nes), *final(nes), *mode, r),

{
    let (addr, _) = nes.get_operating_address(mode);
    let ghost mid = *nes;
    let value = nes.cpu_registers.accumulator;
    nes.cpu_write(addr, value);
    proof {
        if crate::cpu::spec_op_fetch_stable(*old(nes), *mode) {
            crate::cpu::lemma_bus_write_congruence(*old(nes), mid, *nes, addr, value);
        }
    }
    0
}

/// Store X at the operand address.
pub fn stx(nes: &mut NES, mode: &AddrMode) -> (r: usize)
    requires
        old(nes).wf(),
        mode_has_address(*mode),
        old(nes).cpu_cycles <= 0xF000,
    ensures
        rel_stx(*old(nes), *final(nes), *mode, r),

{
    let (addr, _) = nes.get_operating_address(mode);
    let ghost mid = *nes;
    let value = nes.cpu_registers.x;
    nes.cpu_write(addr, value);
    proof {
        if crate::cpu::spec_op_fetch_stable(*old(nes), *mode) {
            crate::cpu::lemma_bus_write_congruence(*old(nes), mid, *nes, addr, value);
        }
    }
    0
}

/// Store Y at the operand address.
pub fn sty(nes: &mut NES, mode: &AddrMode) -> (r: usize)
    requires
        old(nes).wf(),
        mode_has_address(*mode),
        old(nes).cpu_cycles <= 0xF000,
    ensures
        rel_sty(*old(nes), *final(nes), *mode, r),

{
    let (addr, _) = nes.get_operating_address(mode);
    let ghost mid = *nes;
    let value = nes.cpu_registers.y;
    nes.cpu_write(addr, value);
    proof {
        if crate::cpu::spec_op_fetch_stable(*old(nes), *mode) {
            crate::cpu::lemma_bus_write_congruence(*old(nes), mid, *nes, addr, value);
        }
    }
    0
}

/// Store A AND X at the operand address.
pub fn sax(nes: &mut NES, mode: &AddrMode) -> (r: usize)
    requires
        old(nes).wf(),
        mode_has_address(*mode),
        old(nes).cpu_cycles <= 0xF000,
    ensures
        rel_sax(*old(nes), *final(nes), *mode, r),

{
    let (addr, _) = nes.get_operating_address(mode);
    let ghost mid = *nes;
    let value = nes.cpu_registers.accumulator & nes.cpu_registers.x;
    nes.cpu_write(addr, value);
    proof {
        if crate::cpu::spec_op_fetch_stable(*old(nes), *mode) {
            crate::cpu::lemma_bus_write_congruence(*old(nes), mid, *nes, addr, value);
        }
    }
    0
}

/// Transfer A to X, setting Z and N.
pub fn tax(nes: &mut NES, _mode: &AddrMode) -> (r: usize)
    requires
        old(nes).wf(),
    ensures
        rel_tax(*old(nes), *final(nes), *_mode, r),

{
    nes.cpu_registers.x = nes.cpu_registers.accumulator;
    let x = nes.cpu_registers.x;
    update_zero_and_negative_flags(nes, x);
    0
}

/// Transfer A to Y, setting Z and N.
pub fn tay(nes: &mut NES, _mode: &AddrMode) -> (r: usize)
    requires
        old(nes).wf(),
    ensures
        rel_tay(*old(nes), *final(nes), *_mode, r),

{
    nes.cpu_registers.y = nes.cpu_registers.accumulator;
    let y = nes.cpu_registers.y;
    update_zero_and_negative_flags(nes, y);
    0
}

/// Transfer SP to X, setting Z and N.
pub fn tsx(nes: &mut NES, _mode: &AddrMode) -> (r: usize)
    requires
        old(nes).wf(),
    ensures
        rel_tsx(*old(nes), *final(nes), *_mode, r),

{
    nes.cpu_registers.x = nes.cpu_registers.stack_pointer;
    let x = nes.cpu_registers.x;
    update_zero_and_negative_flags(nes, x);
    0
}

/// Transfer X to A, setting Z and N.
pub fn txa(nes: &mut NES, _mode: &AddrMode) -> (r: usize)
    requires
        old(nes).wf(),
    ensures
        rel_txa(*old(nes), *final(nes), *_mode, r),

{
    let x = nes.cpu_registers.x;
    set_accumulator(nes, x);
    0
}

/// Transfer Y to A, setting Z and N.
pub fn tya(nes: &mut NES, _mode: &AddrMode) -> (r: usize)
    requires
        old(nes).wf(),
    ensures
        rel_tya(*old(nes), *final(nes), *_mode, r),

{
    let y = nes.cpu_registers.y;
    set_accumulator(nes, y);
    0
}

/// Transfer X to SP; no flags change.
pub fn txs(nes: &mut NES, _mode: &AddrMode) -> (r: usize)
    requires
        old(nes).wf(),
    ensures
        rel_txs(*old(nes), *final(nes), *_mode, r),

{
    nes.cpu_registers.stack_pointer = nes.cpu_registers.x;
    0
}

/// Increment X, setting Z and N.
pub fn inx(nes: &mut NES, _mode: &AddrMode) -> (r: usize)
    requires
        old(nes).wf(),
    ensures
        rel_inx(*old(nes), *final(nes), *_mode, r),

{
    let result = crate::cpu::add8(nes.cpu_registers.x, 1);
    nes.cpu_registers.x = result;
    update_zero_and_negative_flags(nes, result);
    0
}

/// Increment Y, setting Z and N.
pub fn iny(nes: &mut NES, _mode: &AddrMode) -> (r: usize)
    requires
        old(nes).wf(),
    ensures
        rel_iny(*old(nes), *final(nes), *_mode, r),

{
    let result = crate::cpu::add8(nes.cpu_registers.y, 1);
    nes.cpu_registers.y = result;
    update_zero_and_negative_flags(nes, result);
    0
}

/// Decrement X, setting Z and N.
pub fn dex(nes: &mut NES, _mode: &AddrMode) -> (r: usize)
    requires
        old(nes).wf(),
    ensures
        rel_dex(*old(nes), *final(nes), *_mode, r),

{
    let result = crate::cpu::add8(nes.cpu_registers.x, 255);
    nes.cpu_registers.x = result;
    update_zero_and_negative_flags(nes, result);
    0
}

/// Decrement Y, setting Z and N.
pub fn dey(nes: &mut NES, _mode: &AddrMode) -> (r: usize)
    requires
        old(nes).wf(),
    ensures
        rel_dey(*old(nes), *final(nes), *_mode, r),

{
    let result = crate::cpu::add8(nes.cpu_registers.y, 255);
    nes.cpu_registers.y = result;
    update_zero_and_negative_flags(nes, result);
    0
}

/// Clear the carry flag.
pub fn clc(nes: &mut NES, _mode: &AddrMode) -> (r: usize)
    requires
        old(nes).wf(),
    ensures
        rel_clc(*old(nes), *final(nes), *_mode, r),

{
    nes.cpu_registers.status.carry = false;
    0
}

/// Set the carry flag.
pub fn sec(nes: &mut NES, _mode: &AddrMode) -> (r: usize)
    requires
        old(nes).wf(),
    ensures
        rel_sec(*old(nes), *final(nes), *_mode, r),

{
    nes.cpu_registers.status.carry = true;
    0
}

/// Clear the decimal flag (no arithmetic effect here).
pub fn cld(nes: &mut NES, _mode: &AddrMode) -> (r: usize)
    requires
        old(nes).wf(),
    ensures
        rel_cld(*old(nes), *final(nes), *_mode, r),

{
    nes.cpu_registers.status.decimal = false;
    0
}

/// Set the decimal flag (no arithmetic effect here).
pub fn sed(nes: &mut NES, _mode: &AddrMode) -> (r: usize)
    requires
        old(nes).wf(),
    ensures
        rel_sed(*old(nes), *final(nes), *_mode, r),

{
    nes.cpu_registers.status.decimal = true;
    0
}

/// Clear the interrupt-disable flag.
pub fn cli(nes: &mut NES, _mode: &AddrMode) -> (r: usize)
    requires
        old(nes).wf(),
    ensures
        rel_cli(*old(nes), *final(nes), *_mode, r),

{
    nes.cpu_registers.status.interrupt_disable = false;
    0
}

/// Set the interrupt-disable flag.
pub fn sei(nes: &mut NES, _mode: &AddrMode) -> (r: usize)
    requires
        old(nes).wf(),
    ensures
        rel_sei(*old(nes), *final(nes), *_mode, r),

{
    nes.cpu_registers.status.interrupt_disable = true;
    0
}

/// Clear the overflow flag.
pub fn clv(nes: &mut NES, _mode: &AddrMode) -> (r: usize)
    requires
        old(nes).wf(),
    ensures
        rel_clv(*old(nes), *final(nes), *_mode, r),

{
    nes.cpu_registers.status.overflow = false;
    0
}

/// Branch when carry is clear.
pub fn bcc(nes: &mut NES, _mode: &AddrMode) -> (r: usize)
    requires
        old(nes).wf(),
    ensures
        rel_bcc(*old(nes), *final(nes), *_mode, r),

{
    let condition = !nes.cpu_registers.status.carry;
    branch(nes, condition)
}

/// Branch when carry is set.
pub fn bcs(nes: &mut NES, _mode: &AddrMode) -> (r: usize)
    requires
        old(nes).wf(),
    ensures
        rel_bcs(*old(nes), *final(nes), *_mode, r),

{
    let condition = nes.cpu_registers.status.carry;
    branch(nes, condition)
}

/// Branch when the zero flag is set.
pub fn beq(nes: &mut NES, _mode: &AddrMode) -> (r: usize)
    requires
        old(nes).wf(),
    ensures
        rel_beq(*old(nes), *final(nes), *_mode, r),

{
    let condition = nes.cpu_registers.status.zero;
    branch(nes, condition)
}

/// Branch when the zero flag is clear.
pub fn bne(nes: &mut NES, _mode: &AddrMode) -> (r: usize)
    requires
        old(nes).wf(),
    ensures
        rel_bne(*old(nes), *final(nes), *_mode, r),

{
    let condition = !nes.cpu_registers.status.zero;
    branch(nes, condition)
}

/// Branch when the negative flag is set.
pub fn bmi(nes: &mut NES, _mode: &AddrMode) -> (r: usize)
    requires
        old(nes).wf(),
    ensures
        rel_bmi(*old(nes), *final(nes), *_mode, r),

{
    let condition = nes.cpu_registers.status.negative;
    branch(nes, condition)
}

/// Branch when the negative flag is clear.
pub fn bpl(nes: &mut NES, _mode: &AddrMode) -> (r: usize)
    requires
        old(nes).wf(),
    ensures
        rel_bpl(*old(nes), *final(nes), *_mode, r),

{
    let condition = !nes.cpu_registers.status.negative;
    branch(nes, condition)
}

/// Branch when overflow is clear.
pub fn bvc(nes: &mut NES, _mode: &AddrMode) -> (r: usize)
    requires
        old(nes).wf(),
    ensures
        rel_bvc(*old(nes), *final(nes), *_mode, r),

{
    let condition = !nes.cpu_registers.status.overflow;
    branch(nes, condition)
}

/// Branch when overflow is set.
pub fn bvs(nes: &mut NES, _mode: &AddrMode) -> (r: usize)
    requires
        old(nes).wf(),
    ensures
        rel_bvs(*old(nes), *final(nes), *_mode, r),

{
    let condition = nes.cpu_registers.status.overflow;
    branch(nes, condition)
}

/// Does nothing.
pub fn nop(nes: &mut NES, _mode: &AddrMode) -> (r: usize)
    requires
        old(nes).wf(),
    ensures
        rel_nop(*old(nes), *final(nes), *_mode, r),

{
    let _ = nes;
    0
}

/// A halt opcode on real silicon; treated as a no-op here.
pub fn kil(nes: &mut NES, _mode: &AddrMode) -> (r: usize)
    requires
        old(nes).wf(),
    ensures
        rel_kil(*old(nes), *final(nes), *_mode, r),

{
    let _ = nes;
    0
}

/// Double-byte no-op: the operand byte is skipped unread.
pub fn dop(nes: &mut NES, _mode: &AddrMode) -> (r: usize)
    requires
        old(nes).wf(),
    ensures
        rel_dop(*old(nes), *final(nes), *_mode, r),

{
    let _ = nes;
    0
}

/// Triple-byte no-op: resolves its operand only to account for the
/// page-cross penalty of the indexed forms.
pub fn top(nes: &mut NES, mode: &AddrMode) -> (r: usize)
    requires
        old(nes).wf(),
        mode_has_address(*mode),
    ensures
        rel_top(*old(nes), *final(nes), *mode, r),

{
    let (_, crossed) = nes.get_operating_address(mode);
    if crossed {
        1
    } else {
        0
    }
}


/// Arithmetic shift left; bit 7 moves into C.
pub fn asl(nes: &mut NES, mode: &AddrMode) -> (r: usize)
    requires
        old(nes).wf(),
        *mode != AddrMode::Implied,
        old(nes).cpu_cycles <= 0xF000,
    ensures
        rel_asl(*old(nes), *final(nes), *mode, r),

{
    let old_value = if let AddrMode::Accumulator = mode {
        let old_value = nes.cpu_registers.accumulator;
        let result = ((old_value as u16 * 2) % 256) as u8;
        set_accumulator(nes, result);
        old_value
    } else {
        let (addr, _) = nes.get_operating_address(mode);
        let old_value = nes.cpu_read(addr);
        let result = ((old_value as u16 * 2) % 256) as u8;
        nes.cpu_write(addr, result);
        update_zero_and_negative_flags(nes, result);
        old_value
    };
    nes.cpu_registers.status.carry = old_value >= 0x80;
    0
}

/// Logical shift right; bit 0 moves into C.
pub fn lsr(nes: &mut NES, mode: &AddrMode) -> (r: usize)
    requires
        old(nes).wf(),
        *mode != AddrMode::Implied,
        old(nes).cpu_cycles <= 0xF000,
    ensures
        rel_lsr(*old(nes), *final(nes), *mode, r),

{
    let old_value = if let AddrMode::Accumulator = mode {
        let old_value = nes.cpu_registers.accumulator;
        let result = old_value / 2;
        set_accumulator(nes, result);
        old_value
    } else {
        let (addr, _) = nes.get_operating_address(mode);
        let old_value = nes.cpu_read(addr);
        let result = old_value / 2;
        nes.cpu_write(addr, result);
        update_zero_and_negative_flags(nes, result);
        old_value
    };
    nes.cpu_registers.status.carry = old_value % 2 == 1;
    0
}

/// Rotate left through the carry flag.
pub fn rol(nes: &mut NES, mode: &AddrMode) -> (r: usize)
    requires
        old(nes).wf(),
        *mode != AddrMode::Implied,
        old(nes).cpu_cycles <= 0xF000,
    ensures
        rel_rol(*old(nes), *final(nes), *mode, r),

{
    let old_value = if let AddrMode::Accumulator = mode {
        let old_value = nes.cpu_registers.accumulator;
        let result = ((old_value as u16 * 2 + (if nes.cpu_registers.status.carry {
            1u16
        } else {
            0u16
        })) % 256) as u8;
        set_accumulator(nes, result);
        old_value
    } else {
        let (addr, _) = nes.get_operating_address(mode);
        let old_value = nes.cpu_read(addr);
        let result = ((old_value as u16 * 2 + (if nes.cpu_registers.status.carry {
            1u16
        } else {
            0u16
        })) % 256) as u8;
        nes.cpu_write(addr, result);
        update_zero_and_negative_flags(nes, result);
        old_value
    };
    nes.cpu_registers.status.carry = old_value >= 0x80;
    0
}

/// Rotate right through the carry flag.
pub fn ror(nes: &mut NES, mode: &AddrMode) -> (r: usize)
    requires
        old(nes).wf(),
        *mode != AddrMode::Implied,
        old(nes).cpu_cycles <= 0xF000,
    ensures
        rel_ror(*old(nes), *final(nes), *mode, r),

{
    let old_value = if let AddrMode::Accumulator = mode {
        let old_value = nes.cpu_registers.accumulator;
        let result = old_value / 2 + (if nes.cpu_registers.status.carry {
            128u8
        } else {
            0u8
        });
        set_accumulator(nes, result);
        old_value
    } else {
        let (addr, _) = nes.get_operating_address(mode);
        let old_value = nes.cpu_read(addr);
        let result = old_value / 2 + (if nes.cpu_registers.status.carry {
            128u8
        } else {
            0u8
        });
        nes.cpu_write(addr, result);
        update_zero_and_negative_flags(nes, result);
        old_value
    };
    nes.cpu_registers.status.carry = old_value % 2 == 1;
    0
}

/// Increment the byte at the operand address, setting Z and N.
pub fn inc(nes: &mut NES, mode: &AddrMode) -> (r: usize)
    requires
        old(nes).wf(),
        mode_has_address(*mode),
        old(nes).cpu_cycles <= 0xE000,
    ensures
        rel_inc(*old(nes), *final(nes), *mode, r),

{
    let (addr, _) = nes.get_operating_address(mode);
    increment_memory(nes, addr);
    0
}

/// Decrement the byte at the operand address, setting Z and N.
pub fn dec(nes: &mut NES, mode: &AddrMode) -> (r: usize)
    requires
        old(nes).wf(),
        mode_has_address(*mode),
        old(nes).cpu_cycles <= 0xF000,
    ensures
        rel_dec(*old(nes), *final(nes), *mode, r),

{
    let (addr, _) = nes.get_operating_address(mode);
    let old_value = nes.cpu_read(addr);
    let result = crate::cpu::add8(old_value, 255);
    nes.cpu_write(addr, result);
    update_zero_and_negative_flags(nes, result);
    0
}

/// Jump: the program counter becomes the resolved operand address,
/// including the page-wrap quirk of the indirect form.
pub fn jmp(nes: &mut NES, mode: &AddrMode) -> (r: usize)
    requires
        old(nes).wf(),
        mode_has_address(*mode),
    ensures
        rel_jmp(*old(nes), *final(nes), *mode, r),

{
    let (addr, _) = nes.get_operating_address(mode);
    nes.cpu_registers.program_counter = addr;
    0
}

/// Jump to subroutine: pushes the address of the last byte of this
/// instruction, then jumps to the operand address.
pub fn jsr(nes: &mut NES, mode: &AddrMode) -> (r: usize)
    requires
        old(nes).wf(),
        mode_has_address(*mode),
        old(nes).cpu_cycles <= 0xF000,
    ensures
        rel_jsr(*old(nes), *final(nes), *mode, r),

{
    let (addr, _) = nes.get_operating_address(mode);
    let pc = nes.cpu_registers.program_counter;
    nes.stack_push_u16(crate::cpu::add16(pc, 1));
    nes.cpu_registers.program_counter = addr;
    0
}

/// Return from subroutine: pops the return address and continues one
/// byte past it.
pub fn rts(nes: &mut NES, _mode: &AddrMode) -> (r: usize)
    requires
        old(nes).wf(),
    ensures
        rel_rts(*old(nes), *final(nes), *_mode, r),

{
    let popped = nes.stack_pop_u16();
    nes.cpu_registers.program_counter = crate::cpu::add16(popped, 1);
    0
}

/// Return from interrupt: pops P (forcing the B pair to %10), then the
/// program counter, without the one-byte adjustment of RTS.
pub fn rti(nes: &mut NES, _mode: &AddrMode) -> (r: usize)
    requires
        old(nes).wf(),
    ensures
        rel_rti(*old(nes), *final(nes), *_mode, r),

{
    let status = nes.stack_pop();
    let program_counter = nes.stack_pop_u16();
    nes.cpu_registers.status.set_bits(status);
    nes.cpu_registers.status.b = 2;
    nes.cpu_registers.program_counter = program_counter;
    0
}

/// Push the accumulator.
pub fn pha(nes: &mut NES, _mode: &AddrMode) -> (r: usize)
    requires
        old(nes).wf(),
        old(nes).cpu_cycles <= 0xF000,
    ensures
        rel_pha(*old(nes), *final(nes), *_mode, r),

{
    let a = nes.cpu_registers.accumulator;
    nes.stack_push(a);
    0
}

/// Push P with the B pair forced to %11, as the hardware does for
/// software pushes; the live register keeps its own B pair.
pub fn php(nes: &mut NES, _mode: &AddrMode) -> (r: usize)
    requires
        old(nes).wf(),
        old(nes).cpu_cycles <= 0xF000,
    ensures
        rel_php(*old(nes), *final(nes), *_mode, r),

{
    let mut status = nes.cpu_registers.status;
    status.b = 3;
    let bits = status.bits();
    nes.stack_push(bits);
    0
}

/// Pop into the accumulator, setting Z and N.
pub fn pla(nes: &mut NES, _mode: &AddrMode) -> (r: usize)
    requires
        old(nes).wf(),
    ensures
        rel_pla(*old(nes), *final(nes), *_mode, r),

{
    let result = nes.stack_pop();
    set_accumulator(nes, result);
    0
}

/// Pop P, forcing the B pair to %10.
pub fn plp(nes: &mut NES, _mode: &AddrMode) -> (r: usize)
    requires
        old(nes).wf(),
    ensures
        rel_plp(*old(nes), *final(nes), *_mode, r),

{
    let result = nes.stack_pop();
    nes.cpu_registers.status.set_bits(result);
    nes.cpu_registers.status.b = 2;
    0
}

/// Software interrupt: pushes the address one past the operand byte and P
/// with B forced to %11, sets the interrupt-disable flag, and fetches the
/// new program counter from the IRQ vector at $FFFE.
pub fn brk(nes: &mut NES, _mode: &AddrMode) -> (r: usize)
    requires
        old(nes).wf(),
        old(nes).cpu_cycles <= 0xF000,
    ensures
        rel_brk(*old(nes), *final(nes), *_mode, r),

{
    let pc = nes.cpu_registers.program_counter;
    nes.stack_push_u16(crate::cpu::add16(pc, 1));
    let mut status = nes.cpu_registers.status;
    status.b = 3;
    let bits = status.bits();
    nes.stack_push(bits);
    nes.cpu_registers.status.interrupt_disable = true;
    let target = nes.cpu_read_u16(0xFFFE);
    nes.cpu_registers.program_counter = target;
    0
}


/// AND into A, then copy the new N flag into C.
pub fn anc(nes: &mut NES, mode: &AddrMode) -> (r: usize)
    requires
        old(nes).wf(),
        mode_has_address(*mode),
    ensures
        rel_anc(*old(nes), *final(nes), *mode, r),

{
    let (addr, _) = nes.get_operating_address(mode);
    let value = nes.cpu_read(addr);
    let result = nes.cpu_registers.accumulator & value;
    set_accumulator(nes, result);
    nes.cpu_registers.status.carry = nes.cpu_registers.status.negative;
    0
}

/// AND into A, then shift the result right; C takes the bit shifted out.
pub fn asr(nes: &mut NES, mode: &AddrMode) -> (r: usize)
    requires
        old(nes).wf(),
        mode_has_address(*mode),
    ensures
        rel_asr(*old(nes), *final(nes), *mode, r),

{
    let (addr, _) = nes.get_operating_address(mode);
    let value = nes.cpu_read(addr);
    let masked = nes.cpu_registers.accumulator & value;
    let result = masked / 2;
    set_accumulator(nes, result);
    nes.cpu_registers.status.carry = masked % 2 == 1;
    0
}

/// AND into A, then rotate right; C and V come from bits 6 and 5 of the
/// rotated result.
pub fn arr(nes: &mut NES, mode: &AddrMode) -> (r: usize)
    requires
        old(nes).wf(),
        mode_has_address(*mode),
    ensures
        rel_arr(*old(nes), *final(nes), *mode, r),

{
    let (addr, _) = nes.get_operating_address(mode);
    let value = nes.cpu_read(addr);
    let masked = nes.cpu_registers.accumulator & value;
    let result = masked / 2 + (if nes.cpu_registers.status.carry {
        128u8
    } else {
        0u8
    });
    set_accumulator(nes, result);
    let fifth_bit = (result / 32) % 2;
    let sixth_bit = (result / 64) % 2;
    nes.cpu_registers.status.carry = sixth_bit == 1;
    nes.cpu_registers.status.overflow = (fifth_bit == 1) != (sixth_bit == 1);
    0
}

/// X becomes (A AND X) minus the operand, with compare-style flags.
pub fn axs(nes: &mut NES, mode: &AddrMode) -> (r: usize)
    requires
        old(nes).wf(),
        mode_has_address(*mode),
    ensures
        rel_axs(*old(nes), *final(nes), *mode, r),

{
    let (addr, _) = nes.get_operating_address(mode);
    let value = nes.cpu_read(addr);
    let x_and_a = nes.cpu_registers.accumulator & nes.cpu_registers.x;
    let result = if x_and_a >= value {
        x_and_a - value
    } else {
        (x_and_a as u16 + 256 - value as u16) as u8
    };
    compare(nes, x_and_a, value);
    nes.cpu_registers.x = result;
    0
}

/// A, X and SP all take SP AND the operand, with Z and N refreshed.
pub fn las(nes: &mut NES, mode: &AddrMode) -> (r: usize)
    requires
        old(nes).wf(),
        mode_has_address(*mode),
    ensures
        rel_las(*old(nes), *final(nes), *mode, r),

{
    let (addr, crossed) = nes.get_operating_address(mode);
    let value = nes.cpu_read(addr);
    let result = nes.cpu_registers.stack_pointer & value;
    set_accumulator(nes, result);
    nes.cpu_registers.x = result;
    nes.cpu_registers.stack_pointer = result;
    if crossed {
        1
    } else {
        0
    }
}

/// A and X both take A AND the operand.
pub fn lxa(nes: &mut NES, mode: &AddrMode) -> (r: usize)
    requires
        old(nes).wf(),
        mode_has_address(*mode),
    ensures
        rel_lxa(*old(nes), *final(nes), *mode, r),

{
    let (addr, _) = nes.get_operating_address(mode);
    let value = nes.cpu_read(addr);
    let result = nes.cpu_registers.accumulator & value;
    nes.cpu_registers.x = result;
    set_accumulator(nes, result);
    0
}

/// A takes X, then A takes A AND the operand: net effect X AND operand.
pub fn xaa(nes: &mut NES, mode: &AddrMode) -> (r: usize)
    requires
        old(nes).wf(),
        mode_has_address(*mode),
    ensures
        rel_xaa(*old(nes), *final(nes), *mode, r),

{
    let (addr, _) = nes.get_operating_address(mode);
    let value = nes.cpu_read(addr);
    let x = nes.cpu_registers.x;
    set_accumulator(nes, x);
    let masked = nes.cpu_registers.accumulator & value;
    set_accumulator(nes, masked);
    0
}

/// Shift the operand left in memory, then OR the result into A.
pub fn slo(nes: &mut NES, mode: &AddrMode) -> (r: usize)
    requires
        old(nes).wf(),
        mode_has_address(*mode),
        old(nes).cpu_cycles <= 0xF000,
    ensures
        rel_slo(*old(nes), *final(nes), *mode, r),

{
    let (addr, _) = nes.get_operating_address(mode);
    let value = nes.cpu_read(addr);
    let result = ((value as u16 * 2) % 256) as u8;
    nes.cpu_write(addr, result);
    nes.cpu_registers.status.carry = value >= 0x80;
    let combined = result | nes.cpu_registers.accumulator;
    set_accumulator(nes, combined);
    0
}

/// Rotate the operand left in memory, then AND the result into A.
pub fn rla(nes: &mut NES, mode: &AddrMode) -> (r: usize)
    requires
        old(nes).wf(),
        mode_has_address(*mode),
        old(nes).cpu_cycles <= 0xF000,
    ensures
        rel_rla(*old(nes), *final(nes), *mode, r),

{
    let (addr, _) = nes.get_operating_address(mode);
    let value = nes.cpu_read(addr);
    let result = ((value as u16 * 2 + (if nes.cpu_registers.status.carry {
        1u16
    } else {
        0u16
    })) % 256) as u8;
    nes.cpu_write(addr, result);
    nes.cpu_registers.status.carry = value >= 0x80;
    let combined = nes.cpu_registers.accumulator & result;
    set_accumulator(nes, combined);
    0
}

/// Shift the operand right in memory, then XOR the result into A.
pub fn sre(nes: &mut NES, mode: &AddrMode) -> (r: usize)
    requires
        old(nes).wf(),
        mode_has_address(*mode),
        old(nes).cpu_cycles <= 0xF000,
    ensures
        rel_sre(*old(nes), *final(nes), *mode, r),

{
    let (addr, _) = nes.get_operating_address(mode);
    let value = nes.cpu_read(addr);
    let result = value / 2;
    nes.cpu_write(addr, result);
    nes.cpu_registers.status.carry = value % 2 == 1;
    let combined = result ^ nes.cpu_registers.accumulator;
    set_accumulator(nes, combined);
    0
}

/// Rotate the operand right in memory, then add it to A with the carry the rotation produced.
pub fn rra(nes: &mut NES, mode: &AddrMode) -> (r: usize)
    requires
        old(nes).wf(),
        mode_has_address(*mode),
        old(nes).cpu_cycles <= 0xF000,
    ensures
        rel_rra(*old(nes), *final(nes), *mode, r),

{
    let (addr, _) = nes.get_operating_address(mode);
    let value = nes.cpu_read(addr);
    let result = value / 2 + (if nes.cpu_registers.status.carry {
        128u8
    } else {
        0u8
    });
    nes.cpu_write(addr, result);
    nes.cpu_registers.status.carry = value % 2 == 1;
    add_to_accumulator(nes, result);
    0
}

/// Decrement the operand in memory, then compare A against the result.
pub fn dcp(nes: &mut NES, mode: &AddrMode) -> (r: usize)
    requires
        old(nes).wf(),
        mode_has_address(*mode),
        old(nes).cpu_cycles <= 0xF000,
    ensures
        rel_dcp(*old(nes), *final(nes), *mode, r),

{
    let (addr, _) = nes.get_operating_address(mode);
    let value = nes.cpu_read(addr);
    let result = crate::cpu::add8(value, 255);
    nes.cpu_write(addr, result);
    nes.cpu_registers.status.carry = nes.cpu_registers.accumulator >= result;
    let a = nes.cpu_registers.accumulator;
    compare(nes, a, result);
    0
}

/// Increment the operand in memory, then subtract it from A with borrow.
pub fn isb(nes: &mut NES, mode: &AddrMode) -> (r: usize)
    requires
        old(nes).wf(),
        mode_has_address(*mode),
        old(nes).cpu_cycles <= 0xE000,
    ensures
        rel_isb(*old(nes), *final(nes), *mode, r),

{
    let (addr, _) = nes.get_operating_address(mode);
    let value = increment_memory(nes, addr);
    let complement = 255 - value;
    add_to_accumulator(nes, complement);
    0
}

/// Store A AND X AND the high byte of the target address.
pub fn axa(nes: &mut NES, mode: &AddrMode) -> (r: usize)
    requires
        old(nes).wf(),
        mode_has_address(*mode),
        old(nes).cpu_cycles <= 0xF000,
    ensures
        rel_axa(*old(nes), *final(nes), *mode, r),

{
    let (addr, _) = nes.get_operating_address(mode);
    let value = (nes.cpu_registers.x & nes.cpu_registers.accumulator) & (addr / 256) as u8;
    nes.cpu_write(addr, value);
    0
}

/// Store X AND one more than the high byte of the target address.
pub fn sxa(nes: &mut NES, mode: &AddrMode) -> (r: usize)
    requires
        old(nes).wf(),
        mode_has_address(*mode),
        old(nes).cpu_cycles <= 0xF000,
    ensures
        rel_sxa(*old(nes), *final(nes), *mode, r),

{
    let (addr, _) = nes.get_operating_address(mode);
    let value = nes.cpu_registers.x & crate::cpu::add8((addr / 256) as u8, 1);
    nes.cpu_write(addr, value);
    0
}

/// Store Y AND one more than the high byte of the target address.
pub fn sya(nes: &mut NES, mode: &AddrMode) -> (r: usize)
    requires
        old(nes).wf(),
        mode_has_address(*mode),
        old(nes).cpu_cycles <= 0xF000,
    ensures
        rel_sya(*old(nes), *final(nes), *mode, r),

{
    let (addr, _) = nes.get_operating_address(mode);
    let value = nes.cpu_registers.y & crate::cpu::add8((addr / 256) as u8, 1);
    nes.cpu_write(addr, value);
    0
}

/// SP takes A AND X; that AND one more than the target's high byte is stored.
pub fn xas(nes: &mut NES, mode: &AddrMode) -> (r: usize)
    requires
        old(nes).wf(),
        mode_has_address(*mode),
        old(nes).cpu_cycles <= 0xF000,
    ensures
        rel_xas(*old(nes), *final(nes), *mode, r),

{
    let result = nes.cpu_registers.x & nes.cpu_registers.accumulator;
    let (addr, _) = nes.get_operating_address(mode);
    nes.cpu_registers.stack_pointer = result;
    let value = result & crate::cpu::add8((addr / 256) as u8, 1);
    nes.cpu_write(addr, value);
    0
}

/// One variant per operation kernel; the decode table pairs each
/// opcode with one of these and an addressing mode.
#[derive(Clone, Copy, Debug, PartialEq, Eq, Structural)]
pub enum Op {
    Adc,
    Anc,
    And,
    Arr,
    Asl,
    Asr,
    Axa,
    Axs,
    Bcc,
    Bcs,
    Beq,
    Bit,
    Bmi,
    Bne,
    Bpl,
    Brk,
    Bvc,
    Bvs,
    Clc,
    Cld,
    Cli,
    Clv,
    Cmp,
    Cpx,
    Cpy,
    Dcp,
    Dec,
    Dex,
    Dey,
    Dop,
    Eor,
    Inc,
    Inx,
    Iny,
    Isb,
    Jmp,
    Jsr,
    Kil,
    Las,
    Lax,
    Lda,
    Ldx,
    Ldy,
    Lsr,
    Lxa,
    Nop,
    Ora,
    Pha,
    Php,
    Pla,
    Plp,
    Rla,
    Rol,
    Ror,
    Rra,
    Rti,
    Rts,
    Sax,
    Sbc,
    Sec,
    Sed,
    Sei,
    Slo,
    Sre,
    Sta,
    Stx,
    Sty,
    Sxa,
    Sya,
    Tax,
    Tay,
    Top,
    Tsx,
    Txa,
    Txs,
    Tya,
    Xaa,
    Xas,
}

/// Kernels that resolve an operand address.
pub open spec fn op_needs_address(op: Op) -> bool {
    match op {
        Op::Adc | Op::And | Op::Bit | Op::Cmp | Op::Cpx | Op::Cpy | Op::Dec | Op::Eor | Op::Inc | Op::Jmp | Op::Jsr | Op::Lda | Op::Ldx | Op::Ldy | Op::Ora | Op::Sbc | Op::Sta | Op::Stx | Op::Sty | Op::Anc | Op::Arr | Op::Asr | Op::Axa | Op::Axs | Op::Dcp | Op::Isb | Op::Las | Op::Lax | Op::Lxa | Op::Rla | Op::Rra | Op::Sax | Op::Slo | Op::Sre | Op::Sxa | Op::Sya | Op::Top | Op::Xaa | Op::Xas => true,
        _ => false,
    }
}

/// Kernels that act on either the accumulator or memory.
pub open spec fn op_is_shift(op: Op) -> bool {
    match op {
        Op::Asl | Op::Lsr | Op::Rol | Op::Ror => true,
        _ => false,
    }
}

/// One row of the opcode table: mnemonic, addressing mode, base cycle
/// count, instruction length in bytes, kernel, and whether the opcode is
/// documented.
pub struct Instruction {
    pub name: &'static str,
    pub mode: AddrMode,
    pub cycles: usize,
    pub len: u8,
    pub op: Op,
    pub legal: bool,
}

impl Instruction {
    /// Every table row pairs its kernel with a mode the kernel accepts
    /// and carries plausible length and cycle counts.
    pub open spec fn wf(self) -> bool {
        &&& 1 <= self.len <= 3
        &&& 1 <= self.cycles <= 8
        &&& (op_needs_address(self.op) ==> mode_has_address(self.mode))
        &&& (op_is_shift(self.op) ==> self.mode != AddrMode::Implied)
    }

    /// How far the program counter advances past the opcode byte when the
    /// kernel leaves it alone.
    pub fn size(&self) -> (r: u16)
        requires
            self.wf(),
        ensures
            r == self.len - 1,
    {
        (self.len - 1) as u16
    }

    /// Runs the kernel and returns its total cycle count: the table's
    /// base cycles plus any page-cross or branch penalty.
    pub fn execute(&self, nes: &mut NES) -> (r: usize)
        requires
            old(nes).wf(),
            self.wf(),
            old(nes).cpu_cycles <= 0xE000,
        ensures
            final(nes).wf(),
            final(nes).cpu_cycles <= old(nes).cpu_cycles + 513,
            self.cycles <= r <= self.cycles + 2,
            op_rel(self.op, self.mode, *old(nes), *final(nes), (r - self.cycles) as usize),
    {
        let extra = match self.op {
            Op::Adc | Op::Asl | Op::Bcc | Op::Bmi | Op::Bvc | Op::Cli | Op::Cpy | Op::Dey | Op::Inx | Op::Jsr | Op::Lda | Op::Lxa | Op::Php | Op::Rol | Op::Rts | Op::Sed | Op::Sta | Op::Sya | Op::Tsx | Op::Xaa => run_ops_a(nes, self.op, &self.mode),
            Op::Anc | Op::Asr | Op::Bcs | Op::Bne | Op::Bvs | Op::Clv | Op::Dcp | Op::Dop | Op::Iny | Op::Kil | Op::Ldx | Op::Nop | Op::Pla | Op::Ror | Op::Sax | Op::Sei | Op::Stx | Op::Tax | Op::Txa | Op::Xas => run_ops_b(nes, self.op, &self.mode),
            Op::And | Op::Axa | Op::Beq | Op::Bpl | Op::Clc | Op::Cmp | Op::Dec | Op::Eor | Op::Isb | Op::Las | Op::Ldy | Op::Ora | Op::Plp | Op::Rra | Op::Sbc | Op::Slo | Op::Sty | Op::Tay | Op::Txs => run_ops_c(nes, self.op, &self.mode),
            Op::Arr | Op::Axs | Op::Bit | Op::Brk | Op::Cld | Op::Cpx | Op::Dex | Op::Inc | Op::Jmp | Op::Lax | Op::Lsr | Op::Pha | Op::Rla | Op::Rti | Op::Sec | Op::Sre | Op::Sxa | Op::Top | Op::Tya => run_ops_d(nes, self.op, &self.mode),
        };
        extra + self.cycles
    }
}


/// Dispatches one quarter of the kernel set.
#[verifier::rlimit(100)]
#[verifier::spinoff_prover]
fn run_ops_a(nes: &mut NES, op: Op, mode: &AddrMode) -> (r: usize)
    requires
        old(nes).wf(),
        op == Op::Adc || op == Op::Asl || op == Op::Bcc || op == Op::Bmi || op == Op::Bvc || op == Op::Cli || op == Op::Cpy || op == Op::Dey || op == Op::Inx || op == Op::Jsr || op == Op::Lda || op == Op::Lxa || op == Op::Php || op == Op::Rol || op == Op::Rts || op == Op::Sed || op == Op::Sta || op == Op::Sya || op == Op::Tsx || op == Op::Xaa,
        op_needs_address(op) ==> mode_has_address(*mode),
        op_is_shift(op) ==> *mode != AddrMode::Implied,
        old(nes).cpu_cycles <= 0xE000,
    ensures
        final(nes).wf(),
        final(nes).cpu_cycles <= old(nes).cpu_cycles + 513,
        op_rel(op, *mode, *old(nes), *final(nes), r),
        r <= 2,
{
    match op {
        Op::Adc => adc(nes, mode),
        Op::Asl => asl(nes, mode),
        Op::Bcc => bcc(nes, mode),
        Op::Bmi => bmi(nes, mode),
        Op::Bvc => bvc(nes, mode),
        Op::Cli => cli(nes, mode),
        Op::Cpy => cpy(nes, mode),
        Op::Dey => dey(nes, mode),
        Op::Inx => inx(nes, mode),
        Op::Jsr => jsr(nes, mode),
        Op::Lda => lda(nes, mode),
        Op::Lxa => lxa(nes, mode),
        Op::Php => php(nes, mode),
        Op::Rol => rol(nes, mode),
        Op::Rts => rts(nes, mode),
        Op::Sed => sed(nes, mode),
        Op::Sta => sta(nes, mode),
        Op::Sya => sya(nes, mode),
        Op::Tsx => tsx(nes, mode),
        Op::Xaa => xaa(nes, mode),
        _ => 0,
    }
}

/// Dispatches one quarter of the kernel set.
#[verifier::rlimit(100)]
#[verifier::spinoff_prover]
fn run_ops_b(nes: &mut NES, op: Op, mode: &AddrMode) -> (r: usize)
    requires
        old(nes).wf(),
        op == Op::Anc || op == Op::Asr || op == Op::Bcs || op == Op::Bne || op == Op::Bvs || op == Op::Clv || op == Op::Dcp || op == Op::Dop || op == Op::Iny || op == Op::Kil || op == Op::Ldx || op == Op::Nop || op == Op::Pla || op == Op::Ror || op == Op::Sax || op == Op::Sei || op == Op::Stx || op == Op::Tax || op == Op::Txa || op == Op::Xas,
        op_needs_address(op) ==> mode_has_address(*mode),
        op_is_shift(op) ==> *mode != AddrMode::Implied,
        old(nes).cpu_cycles <= 0xE000,
    ensures
        final(nes).wf(),
        final(nes).cpu_cycles <= old(nes).cpu_cycles + 513,
        op_rel(op, *mode, *old(nes), *final(nes), r),
        r <= 2,
{
    match op {
        Op::Anc => anc(nes, mode),
        Op::Asr => asr(nes, mode),
        Op::Bcs => bcs(nes, mode),
        Op::Bne => bne(nes, mode),
        Op::Bvs => bvs(nes, mode),
        Op::Clv => clv(nes, mode),
        Op::Dcp => dcp(nes, mode),
        Op::Dop => dop(nes, mode),
        Op::Iny => iny(nes, mode),
        Op::Kil => kil(nes, mode),
        Op::Ldx => ldx(nes, mode),
        Op::Nop => nop(nes, mode),
        Op::Pla => pla(nes, mode),
        Op::Ror => ror(nes, mode),
        Op::Sax => sax(nes, mode),
        Op::Sei => sei(nes, mode),
        Op::Stx => stx(nes, mode),
        Op::Tax => tax(nes, mode),
        Op::Txa => txa(nes, mode),
        Op::Xas => xas(nes, mode),
        _ => 0,
    }
}

/// Dispatches one quarter of the kernel set.
#[verifier::rlimit(100)]
#[verifier::spinoff_prover]
fn run_ops_c(nes: &mut NES, op: Op, mode: &AddrMode) -> (r: usize)
    requires
        old(nes).wf(),
        op == Op::And || op == Op::Axa || op == Op::Beq || op == Op::Bpl || op == Op::Clc || op == Op::Cmp || op == Op::Dec || op == Op::Eor || op == Op::Isb || op == Op::Las || op == Op::Ldy || op == Op::Ora || op == Op::Plp || op == Op::Rra || op == Op::Sbc || op == Op::Slo || op == Op::Sty || op == Op::Tay || op == Op::Txs,
        op_needs_address(op) ==> mode_has_address(*mode),
        op_is_shift(op) ==> *mode != AddrMode::Implied,
        old(nes).cpu_cycles <= 0xE000,
    ensures
        final(nes).wf(),
        final(nes).cpu_cycles <= old(nes).cpu_cycles + 513,
        op_rel(op, *mode, *old(nes), *final(nes), r),
        r <= 2,
{
    match op {
        Op::And => and(nes, mode),
        Op::Axa => axa(nes, mode),
        Op::Beq => beq(nes, mode),
        Op::Bpl => bpl(nes, mode),
        Op::Clc => clc(nes, mode),
        Op::Cmp => cmp(nes, mode),
        Op::Dec => dec(nes, mode),
        Op::Eor => eor(nes, mode),
        Op::Isb => isb(nes, mode),
        Op::Las => las(nes, mode),
        Op::Ldy => ldy(nes, mode),
        Op::Ora => ora(nes, mode),
        Op::Plp => plp(nes, mode),
        Op::Rra => rra(nes, mode),
        Op::Sbc => sbc(nes, mode),
        Op::Slo => slo(nes, mode),
        Op::Sty => sty(nes, mode),
        Op::Tay => tay(nes, mode),
        Op::Txs => txs(nes, mode),
        _ => 0,
    }
}

/// Dispatches one quarter of the kernel set.
#[verifier::rlimit(100)]
#[verifier::spinoff_prover]
fn run_ops_d(nes: &mut NES, op: Op, mode: &AddrMode) -> (r: usize)
    requires
        old(nes).wf(),
        op == Op::Arr || op == Op::Axs || op == Op::Bit || op == Op::Brk || op == Op::Cld || op == Op::Cpx || op == Op::Dex || op == Op::Inc || op == Op::Jmp || op == Op::Lax || op == Op::Lsr || op == Op::Pha || op == Op::Rla || op == Op::Rti || op == Op::Sec || op == Op::Sre || op == Op::Sxa || op == Op::Top || op == Op::Tya,
        op_needs_address(op) ==> mode_has_address(*mode),
        op_is_shift(op) ==> *mode != AddrMode::Implied,
        old(nes).cpu_cycles <= 0xE000,
    ensures
        final(nes).wf(),
        final(nes).cpu_cycles <= old(nes).cpu_cycles + 513,
        op_rel(op, *mode, *old(nes), *final(nes), r),
        r <= 2,
{
    match op {
        Op::Arr => arr(nes, mode),
        Op::Axs => axs(nes, mode),
        Op::Bit => bit(nes, mode),
        Op::Brk => brk(nes, mode),
        Op::Cld => cld(nes, mode),
        Op::Cpx => cpx(nes, mode),
        Op::Dex => dex(nes, mode),
        Op::Inc => inc(nes, mode),
        Op::Jmp => jmp(nes, mode),
        Op::Lax => lax(nes, mode),
        Op::Lsr => lsr(nes, mode),
        Op::Pha => pha(nes, mode),
        Op::Rla => rla(nes, mode),
        Op::Rti => rti(nes, mode),
        Op::Sec => sec(nes, mode),
        Op::Sre => sre(nes, mode),
        Op::Sxa => sxa(nes, mode),
        Op::Top => top(nes, mode),
        Op::Tya => tya(nes, mode),
        _ => 0,
    }
}

/// The full effect of the `adc` kernel: state `s0` to state `s1`
/// with `extra` penalty cycles reported.
pub open spec fn rel_adc(s0: NES, s1: NES, mode: AddrMode, extra: usize) -> bool {
    &&& (s1.wf())
    &&& (op_ok(s0, mode) ==> ({
            let v = operand(s0, mode);
            let pre = s0.cpu_registers;
            &&& s1.cpu_registers.accumulator == spec_adc_sum(pre.accumulator, v, pre.status.carry)
            &&& s1.cpu_registers.status == spec_adc_status(pre.status, pre.accumulator, v, pre.status.carry)
            &&& s1.cpu_registers.x == pre.x && s1.cpu_registers.y == pre.y
            &&& s1.cpu_registers.stack_pointer == pre.stack_pointer
            &&& s1.cpu_registers.program_counter == pre.program_counter
            &&& extra == op_extra(s0, mode)
            &&& frame_regs_only(s0, s1)
        }))
    &&& (NES::same_mem(s0, s1))
    &&& (NES::same_timing(s0, s1))
    &&& (extra <= 1)
}

/// The full effect of the `anc` kernel: state `s0` to state `s1`
/// with `extra` penalty cycles reported.
pub open spec fn rel_anc(s0: NES, s1: NES, mode: AddrMode, extra: usize) -> bool {
    &&& (s1.wf())
    &&& (op_ok(s0, mode) ==> ({
            let v = operand(s0, mode);
            let pre = s0.cpu_registers;
            let a = (pre.accumulator & v) as u8;
            &&& s1.cpu_registers.accumulator == a
            &&& s1.cpu_registers.status == (Status {
                carry: a >= 0x80,
                ..spec_zn(pre.status, a)
            })
            &&& s1.cpu_registers.x == pre.x && s1.cpu_registers.y == pre.y
            &&& s1.cpu_registers.stack_pointer == pre.stack_pointer
            &&& s1.cpu_registers.program_counter == pre.program_counter
            &&& frame_regs_only(s0, s1)
        }))
    &&& (NES::same_mem(s0, s1))
    &&& (NES::same_timing(s0, s1))
    &&& (extra == 0)
}

/// The full effect of the `and` kernel: state `s0` to state `s1`
/// with `extra` penalty cycles reported.
pub open spec fn rel_and(s0: NES, s1: NES, mode: AddrMode, extra: usize) -> bool {
    &&& (s1.wf())
    &&& (op_ok(s0, mode) ==> ({
            let v = operand(s0, mode);
            let pre = s0.cpu_registers;
            &&& s1.cpu_registers.accumulator == (pre.accumulator & v)
            &&& s1.cpu_registers.status == spec_zn(pre.status, pre.accumulator & v)
            &&& s1.cpu_registers.x == pre.x && s1.cpu_registers.y == pre.y
            &&& s1.cpu_registers.stack_pointer == pre.stack_pointer
            &&& s1.cpu_registers.program_counter == pre.program_counter
            &&& extra == op_extra(s0, mode)
            &&& frame_regs_only(s0, s1)
        }))
    &&& (NES::same_mem(s0, s1))
    &&& (NES::same_timing(s0, s1))
    &&& (extra <= 1)
}

/// The full effect of the `arr` kernel: state `s0` to state `s1`
/// with `extra` penalty cycles reported.
pub open spec fn rel_arr(s0: NES, s1: NES, mode: AddrMode, extra: usize) -> bool {
    &&& (s1.wf())
    &&& (op_ok(s0, mode) ==> ({
            let v = operand(s0, mode);
            let pre = s0.cpu_registers;
            let a = ror8((pre.accumulator & v) as u8, pre.status.carry);
            &&& s1.cpu_registers.accumulator == a
            &&& s1.cpu_registers.status == (Status {
                carry: (a / 64) % 2 == 1,
                overflow: ((a / 32) % 2 == 1) != ((a / 64) % 2 == 1),
                ..spec_zn(pre.status, a)
            })
            &&& s1.cpu_registers.x == pre.x && s1.cpu_registers.y == pre.y
            &&& s1.cpu_registers.stack_pointer == pre.stack_pointer
            &&& s1.cpu_registers.program_counter == pre.program_counter
            &&& frame_regs_only(s0, s1)
        }))
    &&& (NES::same_mem(s0, s1))
    &&& (NES::same_timing(s0, s1))
    &&& (extra == 0)
}

/// The full effect of the `asl` kernel: state `s0` to state `s1`
/// with `extra` penalty cycles reported.
pub open spec fn rel_asl(s0: NES, s1: NES, mode: AddrMode, extra: usize) -> bool {
    &&& (s1.wf())
    &&& (mode == AddrMode::Accumulator ==> ({
            let pre = s0.cpu_registers;
            let v = pre.accumulator;
            &&& s1.cpu_registers.accumulator == asl8(v)
            &&& s1.cpu_registers.status == (Status {
                carry: v >= 0x80,
                ..spec_zn(pre.status, asl8(v))
            })
            &&& s1.cpu_registers.x == pre.x && s1.cpu_registers.y == pre.y
            &&& s1.cpu_registers.stack_pointer == pre.stack_pointer
            &&& s1.cpu_registers.program_counter == pre.program_counter
            &&& frame_regs_only(s0, s1)
        }))
    &&& (mode != AddrMode::Accumulator && op_ram(s0, mode) ==> ({
            let v = operand(s0, mode);
            let pre = s0.cpu_registers;
            &&& s1.cpu_ram@ == s0.cpu_ram@.update(
                op_addr(s0, mode) as int % 0x800,
                asl8(v),
            )
            &&& s1.cpu_registers.status == (Status {
                carry: v >= 0x80,
                ..spec_zn(pre.status, asl8(v))
            })
            &&& same_axys(s0, s1)
            &&& s1.cpu_registers.program_counter == pre.program_counter
            &&& frame_regs_ram(s0, s1)
        }))
    &&& (s1.cpu_cycles <= s0.cpu_cycles + 513)
    &&& (extra == 0)
}

/// The full effect of the `asr` kernel: state `s0` to state `s1`
/// with `extra` penalty cycles reported.
pub open spec fn rel_asr(s0: NES, s1: NES, mode: AddrMode, extra: usize) -> bool {
    &&& (s1.wf())
    &&& (op_ok(s0, mode) ==> ({
            let v = operand(s0, mode);
            let pre = s0.cpu_registers;
            let masked = (pre.accumulator & v) as u8;
            &&& s1.cpu_registers.accumulator == masked / 2
            &&& s1.cpu_registers.status == (Status {
                carry: masked % 2 == 1,
                ..spec_zn(pre.status, masked / 2)
            })
            &&& s1.cpu_registers.x == pre.x && s1.cpu_registers.y == pre.y
            &&& s1.cpu_registers.stack_pointer == pre.stack_pointer
            &&& s1.cpu_registers.program_counter == pre.program_counter
            &&& frame_regs_only(s0, s1)
        }))
    &&& (NES::same_mem(s0, s1))
    &&& (NES::same_timing(s0, s1))
    &&& (extra == 0)
}

/// The full effect of the `axa` kernel: state `s0` to state `s1`
/// with `extra` penalty cycles reported.
pub open spec fn rel_axa(s0: NES, s1: NES, mode: AddrMode, extra: usize) -> bool {
    &&& (s1.wf())
    &&& (op_ram(s0, mode) ==> ({
            let pre = s0.cpu_registers;
            let a = op_addr(s0, mode);
            &&& s1.cpu_ram@ == s0.cpu_ram@.update(a as int % 0x800, ((pre.x & pre.accumulator) as u8 & (a / 256) as u8) as u8)
            &&& s1.cpu_registers.accumulator == pre.accumulator
            &&& s1.cpu_registers.x == pre.x && s1.cpu_registers.y == pre.y
            &&& s1.cpu_registers.stack_pointer == pre.stack_pointer
            &&& s1.cpu_registers.status == pre.status
            &&& s1.cpu_registers.program_counter == pre.program_counter
            &&& frame_regs_ram(s0, s1)
        }))
    &&& (s1.cpu_cycles <= s0.cpu_cycles + 513)
    &&& (extra == 0)
}

/// The full effect of the `axs` kernel: state `s0` to state `s1`
/// with `extra` penalty cycles reported.
pub open spec fn rel_axs(s0: NES, s1: NES, mode: AddrMode, extra: usize) -> bool {
    &&& (s1.wf())
    &&& (op_ok(s0, mode) ==> ({
            let v = operand(s0, mode);
            let pre = s0.cpu_registers;
            let masked = (pre.accumulator & pre.x) as u8;
            &&& s1.cpu_registers.x == wrap8(masked - v)
            &&& s1.cpu_registers.status == spec_cmp_status(pre.status, masked, v)
            &&& s1.cpu_registers.accumulator == pre.accumulator
            &&& s1.cpu_registers.y == pre.y
            &&& s1.cpu_registers.stack_pointer == pre.stack_pointer
            &&& s1.cpu_registers.program_counter == pre.program_counter
            &&& frame_regs_only(s0, s1)
        }))
    &&& (NES::same_mem(s0, s1))
    &&& (NES::same_timing(s0, s1))
    &&& (extra == 0)
}

/// The full effect of the `bcc` kernel: state `s0` to state `s1`
/// with `extra` penalty cycles reported.
pub open spec fn rel_bcc(s0: NES, s1: NES, mode: AddrMode, extra: usize) -> bool {
    &&& (s1.wf())
    &&& (!(!s0.cpu_registers.status.carry) ==> extra == 0 && NES::same_state(s0, s1))
    &&& ((!s0.cpu_registers.status.carry) && NES::stable_addr(s0.cpu_registers.program_counter) ==> ({
            let pc = s0.cpu_registers.program_counter;
            let off = s0.spec_peek(pc);
            &&& s1.cpu_registers.program_counter == spec_branch_target(pc, off)
            &&& extra == spec_branch_cycles(pc, off)
            &&& s1.cpu_registers.status == s0.cpu_registers.status
            &&& same_axys(s0, s1)
            &&& frame_regs_only(s0, s1)
        }))
    &&& (NES::same_mem(s0, s1))
    &&& (NES::same_timing(s0, s1))
    &&& (extra <= 2)
}

/// The full effect of the `bcs` kernel: state `s0` to state `s1`
/// with `extra` penalty cycles reported.
pub open spec fn rel_bcs(s0: NES, s1: NES, mode: AddrMode, extra: usize) -> bool {
    &&& (s1.wf())
    &&& (!(s0.cpu_registers.status.carry) ==> extra == 0 && NES::same_state(s0, s1))
    &&& ((s0.cpu_registers.status.carry) && NES::stable_addr(s0.cpu_registers.program_counter) ==> ({
            let pc = s0.cpu_registers.program_counter;
            let off = s0.spec_peek(pc);
            &&& s1.cpu_registers.program_counter == spec_branch_target(pc, off)
            &&& extra == spec_branch_cycles(pc, off)
            &&& s1.cpu_registers.status == s0.cpu_registers.status
            &&& same_axys(s0, s1)
            &&& frame_regs_only(s0, s1)
        }))
    &&& (NES::same_mem(s0, s1))
    &&& (NES::same_timing(s0, s1))
    &&& (extra <= 2)
}

/// The full effect of the `beq` kernel: state `s0` to state `s1`
/// with `extra` penalty cycles reported.
pub open spec fn rel_beq(s0: NES, s1: NES, mode: AddrMode, extra: usize) -> bool {
    &&& (s1.wf())
    &&& (!(s0.cpu_registers.status.zero) ==> extra == 0 && NES::same_state(s0, s1))
    &&& ((s0.cpu_registers.status.zero) && NES::stable_addr(s0.cpu_registers.program_counter) ==> ({
            let pc = s0.cpu_registers.program_counter;
            let off = s0.spec_peek(pc);
            &&& s1.cpu_registers.program_counter == spec_branch_target(pc, off)
            &&& extra == spec_branch_cycles(pc, off)
            &&& s1.cpu_registers.status == s0.cpu_registers.status
            &&& same_axys(s0, s1)
            &&& frame_regs_only(s0, s1)
        }))
    &&& (NES::same_mem(s0, s1))
    &&& (NES::same_timing(s0, s1))
    &&& (extra <= 2)
}

/// The full effect of the `bit` kernel: state `s0` to state `s1`
/// with `extra` penalty cycles reported.
pub open spec fn rel_bit(s0: NES, s1: NES, mode: AddrMode, extra: usize) -> bool {
    &&& (s1.wf())
    &&& (op_ok(s0, mode) ==> ({
            let v = operand(s0, mode);
            let pre = s0.cpu_registers;
            &&& s1.cpu_registers.status == (Status {
                zero: pre.accumulator & v == 0,
                overflow: v & 0x40 != 0,
                negative: v >= 0x80,
                ..pre.status
            })
            &&& same_axys(s0, s1)
            &&& s1.cpu_registers.program_counter == pre.program_counter
            &&& extra == 0
            &&& frame_regs_only(s0, s1)
        }))
    &&& (NES::same_mem(s0, s1))
    &&& (NES::same_timing(s0, s1))
    &&& (extra == 0)
}

/// The full effect of the `bmi` kernel: state `s0` to state `s1`
/// with `extra` penalty cycles reported.
pub open spec fn rel_bmi(s0: NES, s1: NES, mode: AddrMode, extra: usize) -> bool {
    &&& (s1.wf())
    &&& (!(s0.cpu_registers.status.negative) ==> extra == 0 && NES::same_state(s0, s1))
    &&& ((s0.cpu_registers.status.negative) && NES::stable_addr(s0.cpu_registers.program_counter) ==> ({
            let pc = s0.cpu_registers.program_counter;
            let off = s0.spec_peek(pc);
            &&& s1.cpu_registers.program_counter == spec_branch_target(pc, off)
            &&& extra == spec_branch_cycles(pc, off)
            &&& s1.cpu_registers.status == s0.cpu_registers.status
            &&& same_axys(s0, s1)
            &&& frame_regs_only(s0, s1)
        }))
    &&& (NES::same_mem(s0, s1))
    &&& (NES::same_timing(s0, s1))
    &&& (extra <= 2)
}

/// The full effect of the `bne` kernel: state `s0` to state `s1`
/// with `extra` penalty cycles reported.
pub open spec fn rel_bne(s0: NES, s1: NES, mode: AddrMode, extra: usize) -> bool {
    &&& (s1.wf())
    &&& (!(!s0.cpu_registers.status.zero) ==> extra == 0 && NES::same_state(s0, s1))
    &&& ((!s0.cpu_registers.status.zero) && NES::stable_addr(s0.cpu_registers.program_counter) ==> ({
            let pc = s0.cpu_registers.program_counter;
            let off = s0.spec_peek(pc);
            &&& s1.cpu_registers.program_counter == spec_branch_target(pc, off)
            &&& extra == spec_branch_cycles(pc, off)
            &&& s1.cpu_registers.status == s0.cpu_registers.status
            &&& same_axys(s0, s1)
            &&& frame_regs_only(s0, s1)
        }))
    &&& (NES::same_mem(s0, s1))
    &&& (NES::same_timing(s0, s1))
    &&& (extra <= 2)
}

/// The full effect of the `bpl` kernel: state `s0` to state `s1`
/// with `extra` penalty cycles reported.
pub open spec fn rel_bpl(s0: NES, s1: NES, mode: AddrMode, extra: usize) -> bool {
    &&& (s1.wf())
    &&& (!(!s0.cpu_registers.status.negative) ==> extra == 0 && NES::same_state(s0, s1))
    &&& ((!s0.cpu_registers.status.negative) && NES::stable_addr(s0.cpu_registers.program_counter) ==> ({
            let pc = s0.cpu_registers.program_counter;
            let off = s0.spec_peek(pc);
            &&& s1.cpu_registers.program_counter == spec_branch_target(pc, off)
            &&& extra == spec_branch_cycles(pc, off)
            &&& s1.cpu_registers.status == s0.cpu_registers.status
            &&& same_axys(s0, s1)
            &&& frame_regs_only(s0, s1)
        }))
    &&& (NES::same_mem(s0, s1))
    &&& (NES::same_timing(s0, s1))
    &&& (extra <= 2)
}

/// The full effect of the `brk` kernel: state `s0` to state `s1`
/// with `extra` penalty cycles reported.
pub open spec fn rel_brk(s0: NES, s1: NES, mode: AddrMode, extra: usize) -> bool {
    &&& (s1.wf())
    &&& (({
            let pre = s0.cpu_registers;
            let ret = wrap16(pre.program_counter + 1);
            &&& s1.cpu_ram@ == s0.cpu_ram@.update(
                0x100 + pre.stack_pointer as int,
                (ret / 256) as u8,
            ).update(0x100 + wrap8(pre.stack_pointer - 1) as int, (ret % 256) as u8).update(
                0x100 + wrap8(pre.stack_pointer - 2) as int,
                (Status { b: 3, ..pre.status }).spec_bits(),
            )
            &&& s1.cpu_registers.stack_pointer == wrap8(pre.stack_pointer - 3)
            &&& s1.cpu_registers.status == (Status {
                interrupt_disable: true,
                ..pre.status
            })
            &&& s1.cpu_registers.program_counter == s0.spec_peek16(0xFFFE)
            &&& s1.cpu_registers.accumulator == pre.accumulator
            &&& s1.cpu_registers.x == pre.x && s1.cpu_registers.y == pre.y
        }))
    &&& (frame_regs_ram(s0, s1))
    &&& (extra == 0)
}

/// The full effect of the `bvc` kernel: state `s0` to state `s1`
/// with `extra` penalty cycles reported.
pub open spec fn rel_bvc(s0: NES, s1: NES, mode: AddrMode, extra: usize) -> bool {
    &&& (s1.wf())
    &&& (!(!s0.cpu_registers.status.overflow) ==> extra == 0 && NES::same_state(s0, s1))
    &&& ((!s0.cpu_registers.status.overflow) && NES::stable_addr(s0.cpu_registers.program_counter) ==> ({
            let pc = s0.cpu_registers.program_counter;
            let off = s0.spec_peek(pc);
            &&& s1.cpu_registers.program_counter == spec_branch_target(pc, off)
            &&& extra == spec_branch_cycles(pc, off)
            &&& s1.cpu_registers.status == s0.cpu_registers.status
            &&& same_axys(s0, s1)
            &&& frame_regs_only(s0, s1)
        }))
    &&& (NES::same_mem(s0, s1))
    &&& (NES::same_timing(s0, s1))
    &&& (extra <= 2)
}

/// The full effect of the `bvs` kernel: state `s0` to state `s1`
/// with `extra` penalty cycles reported.
pub open spec fn rel_bvs(s0: NES, s1: NES, mode: AddrMode, extra: usize) -> bool {
    &&& (s1.wf())
    &&& (!(s0.cpu_registers.status.overflow) ==> extra == 0 && NES::same_state(s0, s1))
    &&& ((s0.cpu_registers.status.overflow) && NES::stable_addr(s0.cpu_registers.program_counter) ==> ({
            let pc = s0.cpu_registers.program_counter;
            let off = s0.spec_peek(pc);
            &&& s1.cpu_registers.program_counter == spec_branch_target(pc, off)
            &&& extra == spec_branch_cycles(pc, off)
            &&& s1.cpu_registers.status == s0.cpu_registers.status
            &&& same_axys(s0, s1)
            &&& frame_regs_only(s0, s1)
        }))
    &&& (NES::same_mem(s0, s1))
    &&& (NES::same_timing(s0, s1))
    &&& (extra <= 2)
}

/// The full effect of the `clc` kernel: state `s0` to state `s1`
/// with `extra` penalty cycles reported.
pub open spec fn rel_clc(s0: NES, s1: NES, mode: AddrMode, extra: usize) -> bool {
    &&& (s1.wf())
    &&& (s1.cpu_registers.status == (Status {
            carry: false,
            ..s0.cpu_registers.status
        }))
    &&& (same_axys(s0, s1))
    &&& (s1.cpu_registers.program_counter == s0.cpu_registers.program_counter)
    &&& (frame_regs_only(s0, s1))
    &&& (extra == 0)
}

/// The full effect of the `cld` kernel: state `s0` to state `s1`
/// with `extra` penalty cycles reported.
pub open spec fn rel_cld(s0: NES, s1: NES, mode: AddrMode, extra: usize) -> bool {
    &&& (s1.wf())
    &&& (s1.cpu_registers.status == (Status {
            decimal: false,
            ..s0.cpu_registers.status
        }))
    &&& (same_axys(s0, s1))
    &&& (s1.cpu_registers.program_counter == s0.cpu_registers.program_counter)
    &&& (frame_regs_only(s0, s1))
    &&& (extra == 0)
}

/// The full effect of the `cli` kernel: state `s0` to state `s1`
/// with `extra` penalty cycles reported.
pub open spec fn rel_cli(s0: NES, s1: NES, mode: AddrMode, extra: usize) -> bool {
    &&& (s1.wf())
    &&& (s1.cpu_registers.status == (Status {
            interrupt_disable: false,
            ..s0.cpu_registers.status
        }))
    &&& (same_axys(s0, s1))
    &&& (s1.cpu_registers.program_counter == s0.cpu_registers.program_counter)
    &&& (frame_regs_only(s0, s1))
    &&& (extra == 0)
}

/// The full effect of the `clv` kernel: state `s0` to state `s1`
/// with `extra` penalty cycles reported.
pub open spec fn rel_clv(s0: NES, s1: NES, mode: AddrMode, extra: usize) -> bool {
    &&& (s1.wf())
    &&& (s1.cpu_registers.status == (Status {
            overflow: false,
            ..s0.cpu_registers.status
        }))
    &&& (same_axys(s0, s1))
    &&& (s1.cpu_registers.program_counter == s0.cpu_registers.program_counter)
    &&& (frame_regs_only(s0, s1))
    &&& (extra == 0)
}

/// The full effect of the `cmp` kernel: state `s0` to state `s1`
/// with `extra` penalty cycles reported.
pub open spec fn rel_cmp(s0: NES, s1: NES, mode: AddrMode, extra: usize) -> bool {
    &&& (s1.wf())
    &&& (op_ok(s0, mode) ==> ({
            let v = operand(s0, mode);
            let pre = s0.cpu_registers;
            &&& s1.cpu_registers.accumulator == pre.accumulator
            &&& s1.cpu_registers.status == spec_cmp_status(pre.status, pre.accumulator, v)
            &&& s1.cpu_registers.x == pre.x && s1.cpu_registers.y == pre.y
            &&& s1.cpu_registers.stack_pointer == pre.stack_pointer
            &&& s1.cpu_registers.program_counter == pre.program_counter
            &&& extra == op_extra(s0, mode)
            &&& frame_regs_only(s0, s1)
        }))
    &&& (NES::same_mem(s0, s1))
    &&& (NES::same_timing(s0, s1))
    &&& (extra <= 1)
}

/// The full effect of the `cpx` kernel: state `s0` to state `s1`
/// with `extra` penalty cycles reported.
pub open spec fn rel_cpx(s0: NES, s1: NES, mode: AddrMode, extra: usize) -> bool {
    &&& (s1.wf())
    &&& (op_ok(s0, mode) ==> ({
            let v = operand(s0, mode);
            let pre = s0.cpu_registers;
            &&& s1.cpu_registers.accumulator == pre.accumulator
            &&& s1.cpu_registers.status == spec_cmp_status(pre.status, pre.x, v)
            &&& s1.cpu_registers.x == pre.x && s1.cpu_registers.y == pre.y
            &&& s1.cpu_registers.stack_pointer == pre.stack_pointer
            &&& s1.cpu_registers.program_counter == pre.program_counter
            &&& extra == 0usize
            &&& frame_regs_only(s0, s1)
        }))
    &&& (NES::same_mem(s0, s1))
    &&& (NES::same_timing(s0, s1))
    &&& (extra <= 0)
}

/// The full effect of the `cpy` kernel: state `s0` to state `s1`
/// with `extra` penalty cycles reported.
pub open spec fn rel_cpy(s0: NES, s1: NES, mode: AddrMode, extra: usize) -> bool {
    &&& (s1.wf())
    &&& (op_ok(s0, mode) ==> ({
            let v = operand(s0, mode);
            let pre = s0.cpu_registers;
            &&& s1.cpu_registers.accumulator == pre.accumulator
            &&& s1.cpu_registers.status == spec_cmp_status(pre.status, pre.y, v)
            &&& s1.cpu_registers.x == pre.x && s1.cpu_registers.y == pre.y
            &&& s1.cpu_registers.stack_pointer == pre.stack_pointer
            &&& s1.cpu_registers.program_counter == pre.program_counter
            &&& extra == 0usize
            &&& frame_regs_only(s0, s1)
        }))
    &&& (NES::same_mem(s0, s1))
    &&& (NES::same_timing(s0, s1))
    &&& (extra <= 0)
}

/// The full effect of the `dcp` kernel: state `s0` to state `s1`
/// with `extra` penalty cycles reported.
pub open spec fn rel_dcp(s0: NES, s1: NES, mode: AddrMode, extra: usize) -> bool {
    &&& (s1.wf())
    &&& (op_ram(s0, mode) ==> ({
            let v = operand(s0, mode);
            let pre = s0.cpu_registers;
            &&& s1.cpu_ram@ == s0.cpu_ram@.update(
                op_addr(s0, mode) as int % 0x800,
                dec8(v),
            )
            &&& s1.cpu_registers.status == spec_cmp_status(pre.status, pre.accumulator, dec8(v))
            &&& same_axys(s0, s1)
            &&& s1.cpu_registers.program_counter == pre.program_counter
            &&& frame_regs_ram(s0, s1)
        }))
    &&& (s1.cpu_cycles <= s0.cpu_cycles + 513)
    &&& (extra == 0)
}

/// The full effect of the `dec` kernel: state `s0` to state `s1`
/// with `extra` penalty cycles reported.
pub open spec fn rel_dec(s0: NES, s1: NES, mode: AddrMode, extra: usize) -> bool {
    &&& (s1.wf())
    &&& (op_ram(s0, mode) ==> ({
            let v = dec8(operand(s0, mode));
            &&& s1.cpu_ram@ == s0.cpu_ram@.update(
                op_addr(s0, mode) as int % 0x800,
                v,
            )
            &&& s1.cpu_registers.status == spec_zn(s0.cpu_registers.status, v)
            &&& same_axys(s0, s1)
            &&& s1.cpu_registers.program_counter == s0.cpu_registers.program_counter
            &&& frame_regs_ram(s0, s1)
        }))
    &&& (s1.cpu_cycles <= s0.cpu_cycles + 513)
    &&& (extra == 0)
}

/// The full effect of the `dex` kernel: state `s0` to state `s1`
/// with `extra` penalty cycles reported.
pub open spec fn rel_dex(s0: NES, s1: NES, mode: AddrMode, extra: usize) -> bool {
    &&& (s1.wf())
    &&& (({
            let pre = s0.cpu_registers;
            &&& s1.cpu_registers.x == dec8(pre.x)
            &&& s1.cpu_registers.status == spec_zn(pre.status, dec8(pre.x))
            &&& s1.cpu_registers.accumulator == pre.accumulator && s1.cpu_registers.y == pre.y
            &&& s1.cpu_registers.stack_pointer == pre.stack_pointer
            &&& s1.cpu_registers.program_counter == pre.program_counter
        }))
    &&& (frame_regs_only(s0, s1))
    &&& (extra == 0)
}

/// The full effect of the `dey` kernel: state `s0` to state `s1`
/// with `extra` penalty cycles reported.
pub open spec fn rel_dey(s0: NES, s1: NES, mode: AddrMode, extra: usize) -> bool {
    &&& (s1.wf())
    &&& (({
            let pre = s0.cpu_registers;
            &&& s1.cpu_registers.y == dec8(pre.y)
            &&& s1.cpu_registers.status == spec_zn(pre.status, dec8(pre.y))
            &&& s1.cpu_registers.accumulator == pre.accumulator && s1.cpu_registers.x == pre.x
            &&& s1.cpu_registers.stack_pointer == pre.stack_pointer
            &&& s1.cpu_registers.program_counter == pre.program_counter
        }))
    &&& (frame_regs_only(s0, s1))
    &&& (extra == 0)
}

/// The full effect of the `dop` kernel: state `s0` to state `s1`
/// with `extra` penalty cycles reported.
pub open spec fn rel_dop(s0: NES, s1: NES, mode: AddrMode, extra: usize) -> bool {
    &&& (s1.wf())
    &&& (NES::same_state(s0, s1))
    &&& (extra == 0)
}

/// The full effect of the `eor` kernel: state `s0` to state `s1`
/// with `extra` penalty cycles reported.
pub open spec fn rel_eor(s0: NES, s1: NES, mode: AddrMode, extra: usize) -> bool {
    &&& (s1.wf())
    &&& (op_ok(s0, mode) ==> ({
            let v = operand(s0, mode);
            let pre = s0.cpu_registers;
            &&& s1.cpu_registers.accumulator == (pre.accumulator ^ v)
            &&& s1.cpu_registers.status == spec_zn(pre.status, pre.accumulator ^ v)
            &&& s1.cpu_registers.x == pre.x && s1.cpu_registers.y == pre.y
            &&& s1.cpu_registers.stack_pointer == pre.stack_pointer
            &&& s1.cpu_registers.program_counter == pre.program_counter
            &&& extra == op_extra(s0, mode)
            &&& frame_regs_only(s0, s1)
        }))
    &&& (NES::same_mem(s0, s1))
    &&& (NES::same_timing(s0, s1))
    &&& (extra <= 1)
}

/// The full effect of the `inc` kernel: state `s0` to state `s1`
/// with `extra` penalty cycles reported.
pub open spec fn rel_inc(s0: NES, s1: NES, mode: AddrMode, extra: usize) -> bool {
    &&& (s1.wf())
    &&& (op_ram(s0, mode) ==> ({
            let v = inc8(operand(s0, mode));
            &&& s1.cpu_ram@ == s0.cpu_ram@.update(
                op_addr(s0, mode) as int % 0x800,
                v,
            )
            &&& s1.cpu_registers.status == spec_zn(s0.cpu_registers.status, v)
            &&& same_axys(s0, s1)
            &&& s1.cpu_registers.program_counter == s0.cpu_registers.program_counter
            &&& frame_regs_ram(s0, s1)
        }))
    &&& (s1.cpu_cycles <= s0.cpu_cycles + 513)
    &&& (extra == 0)
}

/// The full effect of the `inx` kernel: state `s0` to state `s1`
/// with `extra` penalty cycles reported.
pub open spec fn rel_inx(s0: NES, s1: NES, mode: AddrMode, extra: usize) -> bool {
    &&& (s1.wf())
    &&& (({
            let pre = s0.cpu_registers;
            &&& s1.cpu_registers.x == inc8(pre.x)
            &&& s1.cpu_registers.status == spec_zn(pre.status, inc8(pre.x))
            &&& s1.cpu_registers.accumulator == pre.accumulator && s1.cpu_registers.y == pre.y
            &&& s1.cpu_registers.stack_pointer == pre.stack_pointer
            &&& s1.cpu_registers.program_counter == pre.program_counter
        }))
    &&& (frame_regs_only(s0, s1))
    &&& (extra == 0)
}

/// The full effect of the `iny` kernel: state `s0` to state `s1`
/// with `extra` penalty cycles reported.
pub open spec fn rel_iny(s0: NES, s1: NES, mode: AddrMode, extra: usize) -> bool {
    &&& (s1.wf())
    &&& (({
            let pre = s0.cpu_registers;
            &&& s1.cpu_registers.y == inc8(pre.y)
            &&& s1.cpu_registers.status == spec_zn(pre.status, inc8(pre.y))
            &&& s1.cpu_registers.accumulator == pre.accumulator && s1.cpu_registers.x == pre.x
            &&& s1.cpu_registers.stack_pointer == pre.stack_pointer
            &&& s1.cpu_registers.program_counter == pre.program_counter
        }))
    &&& (frame_regs_only(s0, s1))
    &&& (extra == 0)
}

/// The full effect of the `isb` kernel: state `s0` to state `s1`
/// with `extra` penalty cycles reported.
pub open spec fn rel_isb(s0: NES, s1: NES, mode: AddrMode, extra: usize) -> bool {
    &&& (s1.wf())
    &&& (op_ram(s0, mode) ==> ({
            let v = inc8(operand(s0, mode));
            let pre = s0.cpu_registers;
            &&& s1.cpu_ram@ == s0.cpu_ram@.update(
                op_addr(s0, mode) as int % 0x800,
                v,
            )
            &&& s1.cpu_registers.accumulator == spec_adc_sum(
                pre.accumulator,
                (255 - v) as u8,
                pre.status.carry,
            )
            &&& s1.cpu_registers.status == spec_adc_status(
                pre.status,
                pre.accumulator,
                (255 - v) as u8,
                pre.status.carry,
            )
            &&& s1.cpu_registers.x == pre.x && s1.cpu_registers.y == pre.y
            &&& s1.cpu_registers.stack_pointer == pre.stack_pointer
            &&& s1.cpu_registers.program_counter == pre.program_counter
            &&& frame_regs_ram(s0, s1)
        }))
    &&& (s1.cpu_cycles <= s0.cpu_cycles + 513)
    &&& (extra == 0)
}

/// The full effect of the `jmp` kernel: state `s0` to state `s1`
/// with `extra` penalty cycles reported.
pub open spec fn rel_jmp(s0: NES, s1: NES, mode: AddrMode, extra: usize) -> bool {
    &&& (s1.wf())
    &&& (crate::cpu::spec_op_fetch_stable(s0, mode) ==> ({
            &&& s1.cpu_registers.program_counter == op_addr(s0, mode)
            &&& s1.cpu_registers.status == s0.cpu_registers.status
            &&& same_axys(s0, s1)
            &&& frame_regs_only(s0, s1)
        }))
    &&& (NES::same_mem(s0, s1))
    &&& (NES::same_timing(s0, s1))
    &&& (extra == 0)
}

/// The full effect of the `jsr` kernel: state `s0` to state `s1`
/// with `extra` penalty cycles reported.
pub open spec fn rel_jsr(s0: NES, s1: NES, mode: AddrMode, extra: usize) -> bool {
    &&& (s1.wf())
    &&& (crate::cpu::spec_op_fetch_stable(s0, mode) ==> ({
            let pre = s0.cpu_registers;
            let ret = wrap16(pre.program_counter + 1);
            &&& s1.cpu_ram@ == s0.cpu_ram@.update(
                0x100 + pre.stack_pointer as int,
                (ret / 256) as u8,
            ).update(0x100 + wrap8(pre.stack_pointer - 1) as int, (ret % 256) as u8)
            &&& s1.cpu_registers.stack_pointer == wrap8(pre.stack_pointer - 2)
            &&& s1.cpu_registers.program_counter == op_addr(s0, mode)
            &&& s1.cpu_registers.status == pre.status
            &&& s1.cpu_registers.accumulator == pre.accumulator
            &&& s1.cpu_registers.x == pre.x && s1.cpu_registers.y == pre.y
            &&& frame_regs_ram(s0, s1)
        }))
    &&& (NES::same_timing(s0, s1))
    &&& (extra == 0)
}

/// The full effect of the `kil` kernel: state `s0` to state `s1`
/// with `extra` penalty cycles reported.
pub open spec fn rel_kil(s0: NES, s1: NES, mode: AddrMode, extra: usize) -> bool {
    &&& (s1.wf())
    &&& (NES::same_state(s0, s1))
    &&& (extra == 0)
}

/// The full effect of the `las` kernel: state `s0` to state `s1`
/// with `extra` penalty cycles reported.
pub open spec fn rel_las(s0: NES, s1: NES, mode: AddrMode, extra: usize) -> bool {
    &&& (s1.wf())
    &&& (op_ok(s0, mode) ==> ({
            let v = operand(s0, mode);
            let pre = s0.cpu_registers;
            let result = (pre.stack_pointer & v) as u8;
            &&& s1.cpu_registers.accumulator == result
            &&& s1.cpu_registers.x == result
            &&& s1.cpu_registers.stack_pointer == result
            &&& s1.cpu_registers.status == spec_zn(pre.status, result)
            &&& s1.cpu_registers.y == pre.y
            &&& s1.cpu_registers.program_counter == pre.program_counter
            &&& extra == op_extra(s0, mode)
            &&& frame_regs_only(s0, s1)
        }))
    &&& (NES::same_mem(s0, s1))
    &&& (NES::same_timing(s0, s1))
    &&& (extra <= 1)
}

/// The full effect of the `lax` kernel: state `s0` to state `s1`
/// with `extra` penalty cycles reported.
pub open spec fn rel_lax(s0: NES, s1: NES, mode: AddrMode, extra: usize) -> bool {
    &&& (s1.wf())
    &&& (op_ok(s0, mode) ==> ({
            let v = operand(s0, mode);
            let pre = s0.cpu_registers;
            &&& s1.cpu_registers.accumulator == v && s1.cpu_registers.x == v
            &&& s1.cpu_registers.status == spec_zn(pre.status, v)
            &&& s1.cpu_registers.y == pre.y
            &&& s1.cpu_registers.stack_pointer == pre.stack_pointer
            &&& s1.cpu_registers.program_counter == pre.program_counter
            &&& extra == op_extra(s0, mode)
            &&& frame_regs_only(s0, s1)
        }))
    &&& (NES::same_mem(s0, s1))
    &&& (NES::same_timing(s0, s1))
    &&& (extra <= 1)
}

/// The full effect of the `lda` kernel: state `s0` to state `s1`
/// with `extra` penalty cycles reported.
pub open spec fn rel_lda(s0: NES, s1: NES, mode: AddrMode, extra: usize) -> bool {
    &&& (s1.wf())
    &&& (op_ok(s0, mode) ==> ({
            let v = operand(s0, mode);
            let pre = s0.cpu_registers;
            &&& s1.cpu_registers.accumulator == v
            &&& s1.cpu_registers.status == spec_zn(pre.status, v)
            &&& s1.cpu_registers.x == pre.x && s1.cpu_registers.y == pre.y
            &&& s1.cpu_registers.stack_pointer == pre.stack_pointer
            &&& s1.cpu_registers.program_counter == pre.program_counter
            &&& extra == op_extra(s0, mode)
            &&& frame_regs_only(s0, s1)
        }))
    &&& (NES::same_mem(s0, s1))
    &&& (NES::same_timing(s0, s1))
    &&& (extra <= 1)
}

/// The full effect of the `ldx` kernel: state `s0` to state `s1`
/// with `extra` penalty cycles reported.
pub open spec fn rel_ldx(s0: NES, s1: NES, mode: AddrMode, extra: usize) -> bool {
    &&& (s1.wf())
    &&& (op_ok(s0, mode) ==> ({
            let v = operand(s0, mode);
            let pre = s0.cpu_registers;
            &&& s1.cpu_registers.x == v
            &&& s1.cpu_registers.status == spec_zn(pre.status, v)
            &&& s1.cpu_registers.accumulator == pre.accumulator && s1.cpu_registers.y == pre.y
            &&& s1.cpu_registers.stack_pointer == pre.stack_pointer
            &&& s1.cpu_registers.program_counter == pre.program_counter
            &&& extra == op_extra(s0, mode)
            &&& frame_regs_only(s0, s1)
        }))
    &&& (NES::same_mem(s0, s1))
    &&& (NES::same_timing(s0, s1))
    &&& (extra <= 1)
}

/// The full effect of the `ldy` kernel: state `s0` to state `s1`
/// with `extra` penalty cycles reported.
pub open spec fn rel_ldy(s0: NES, s1: NES, mode: AddrMode, extra: usize) -> bool {
    &&& (s1.wf())
    &&& (op_ok(s0, mode) ==> ({
            let v = operand(s0, mode);
            let pre = s0.cpu_registers;
            &&& s1.cpu_registers.y == v
            &&& s1.cpu_registers.status == spec_zn(pre.status, v)
            &&& s1.cpu_registers.accumulator == pre.accumulator && s1.cpu_registers.x == pre.x
            &&& s1.cpu_registers.stack_pointer == pre.stack_pointer
            &&& s1.cpu_registers.program_counter == pre.program_counter
            &&& extra == op_extra(s0, mode)
            &&& frame_regs_only(s0, s1)
        }))
    &&& (NES::same_mem(s0, s1))
    &&& (NES::same_timing(s0, s1))
    &&& (extra <= 1)
}

/// The full effect of the `lsr` kernel: state `s0` to state `s1`
/// with `extra` penalty cycles reported.
pub open spec fn rel_lsr(s0: NES, s1: NES, mode: AddrMode, extra: usize) -> bool {
    &&& (s1.wf())
    &&& (mode == AddrMode::Accumulator ==> ({
            let pre = s0.cpu_registers;
            let v = pre.accumulator;
            &&& s1.cpu_registers.accumulator == lsr8(v)
            &&& s1.cpu_registers.status == (Status {
                carry: v % 2 == 1,
                ..spec_zn(pre.status, lsr8(v))
            })
            &&& s1.cpu_registers.x == pre.x && s1.cpu_registers.y == pre.y
            &&& s1.cpu_registers.stack_pointer == pre.stack_pointer
            &&& s1.cpu_registers.program_counter == pre.program_counter
            &&& frame_regs_only(s0, s1)
        }))
    &&& (mode != AddrMode::Accumulator && op_ram(s0, mode) ==> ({
            let v = operand(s0, mode);
            let pre = s0.cpu_registers;
            &&& s1.cpu_ram@ == s0.cpu_ram@.update(
                op_addr(s0, mode) as int % 0x800,
                lsr8(v),
            )
            &&& s1.cpu_registers.status == (Status {
                carry: v % 2 == 1,
                ..spec_zn(pre.status, lsr8(v))
            })
            &&& same_axys(s0, s1)
            &&& s1.cpu_registers.program_counter == pre.program_counter
            &&& frame_regs_ram(s0, s1)
        }))
    &&& (s1.cpu_cycles <= s0.cpu_cycles + 513)
    &&& (extra == 0)
}

/// The full effect of the `lxa` kernel: state `s0` to state `s1`
/// with `extra` penalty cycles reported.
pub open spec fn rel_lxa(s0: NES, s1: NES, mode: AddrMode, extra: usize) -> bool {
    &&& (s1.wf())
    &&& (op_ok(s0, mode) ==> ({
            let v = operand(s0, mode);
            let pre = s0.cpu_registers;
            let result = (pre.accumulator & v) as u8;
            &&& s1.cpu_registers.accumulator == result
            &&& s1.cpu_registers.x == result
            &&& s1.cpu_registers.status == spec_zn(pre.status, result)
            &&& s1.cpu_registers.y == pre.y
            &&& s1.cpu_registers.stack_pointer == pre.stack_pointer
            &&& s1.cpu_registers.program_counter == pre.program_counter
            &&& frame_regs_only(s0, s1)
        }))
    &&& (NES::same_mem(s0, s1))
    &&& (NES::same_timing(s0, s1))
    &&& (extra == 0)
}

/// The full effect of the `nop` kernel: state `s0` to state `s1`
/// with `extra` penalty cycles reported.
pub open spec fn rel_nop(s0: NES, s1: NES, mode: AddrMode, extra: usize) -> bool {
    &&& (s1.wf())
    &&& (NES::same_state(s0, s1))
    &&& (extra == 0)
}

/// The full effect of the `ora` kernel: state `s0` to state `s1`
/// with `extra` penalty cycles reported.
pub open spec fn rel_ora(s0: NES, s1: NES, mode: AddrMode, extra: usize) -> bool {
    &&& (s1.wf())
    &&& (op_ok(s0, mode) ==> ({
            let v = operand(s0, mode);
            let pre = s0.cpu_registers;
            &&& s1.cpu_registers.accumulator == (pre.accumulator | v)
            &&& s1.cpu_registers.status == spec_zn(pre.status, pre.accumulator | v)
            &&& s1.cpu_registers.x == pre.x && s1.cpu_registers.y == pre.y
            &&& s1.cpu_registers.stack_pointer == pre.stack_pointer
            &&& s1.cpu_registers.program_counter == pre.program_counter
            &&& extra == op_extra(s0, mode)
            &&& frame_regs_only(s0, s1)
        }))
    &&& (NES::same_mem(s0, s1))
    &&& (NES::same_timing(s0, s1))
    &&& (extra <= 1)
}

/// The full effect of the `pha` kernel: state `s0` to state `s1`
/// with `extra` penalty cycles reported.
pub open spec fn rel_pha(s0: NES, s1: NES, mode: AddrMode, extra: usize) -> bool {
    &&& (s1.wf())
    &&& (s1.cpu_ram@ == s0.cpu_ram@.update(
            0x100 + s0.cpu_registers.stack_pointer as int,
            s0.cpu_registers.accumulator,
        ))
    &&& (s1.cpu_registers.stack_pointer == wrap8(
            s0.cpu_registers.stack_pointer - 1,
        ))
    &&& (s1.cpu_registers.accumulator == s0.cpu_registers.accumulator)
    &&& (s1.cpu_registers.x == s0.cpu_registers.x)
    &&& (s1.cpu_registers.y == s0.cpu_registers.y)
    &&& (s1.cpu_registers.status == s0.cpu_registers.status)
    &&& (s1.cpu_registers.program_counter == s0.cpu_registers.program_counter)
    &&& (frame_regs_ram(s0, s1))
    &&& (extra == 0)
}

/// The full effect of the `php` kernel: state `s0` to state `s1`
/// with `extra` penalty cycles reported.
pub open spec fn rel_php(s0: NES, s1: NES, mode: AddrMode, extra: usize) -> bool {
    &&& (s1.wf())
    &&& (s1.cpu_ram@ == s0.cpu_ram@.update(
            0x100 + s0.cpu_registers.stack_pointer as int,
            (Status { b: 3, ..s0.cpu_registers.status }).spec_bits(),
        ))
    &&& (s1.cpu_registers.stack_pointer == wrap8(
            s0.cpu_registers.stack_pointer - 1,
        ))
    &&& (s1.cpu_registers.accumulator == s0.cpu_registers.accumulator)
    &&& (s1.cpu_registers.x == s0.cpu_registers.x)
    &&& (s1.cpu_registers.y == s0.cpu_registers.y)
    &&& (s1.cpu_registers.status == s0.cpu_registers.status)
    &&& (s1.cpu_registers.program_counter == s0.cpu_registers.program_counter)
    &&& (frame_regs_ram(s0, s1))
    &&& (extra == 0)
}

/// The full effect of the `pla` kernel: state `s0` to state `s1`
/// with `extra` penalty cycles reported.
pub open spec fn rel_pla(s0: NES, s1: NES, mode: AddrMode, extra: usize) -> bool {
    &&& (s1.wf())
    &&& (({
            let pre = s0.cpu_registers;
            let v = s0.cpu_ram@[0x100 + wrap8(pre.stack_pointer + 1) as int];
            &&& s1.cpu_registers.accumulator == v
            &&& s1.cpu_registers.status == spec_zn(pre.status, v)
            &&& s1.cpu_registers.stack_pointer == wrap8(pre.stack_pointer + 1)
            &&& s1.cpu_registers.x == pre.x && s1.cpu_registers.y == pre.y
            &&& s1.cpu_registers.program_counter == pre.program_counter
        }))
    &&& (NES::same_mem(s0, s1))
    &&& (frame_regs_only(s0, s1))
    &&& (extra == 0)
}

/// The full effect of the `plp` kernel: state `s0` to state `s1`
/// with `extra` penalty cycles reported.
pub open spec fn rel_plp(s0: NES, s1: NES, mode: AddrMode, extra: usize) -> bool {
    &&& (s1.wf())
    &&& (({
            let pre = s0.cpu_registers;
            let v = s0.cpu_ram@[0x100 + wrap8(pre.stack_pointer + 1) as int];
            &&& s1.cpu_registers.status == (Status { b: 2, ..Status::spec_from_bits(v) })
            &&& s1.cpu_registers.stack_pointer == wrap8(pre.stack_pointer + 1)
            &&& s1.cpu_registers.accumulator == pre.accumulator
            &&& s1.cpu_registers.x == pre.x && s1.cpu_registers.y == pre.y
            &&& s1.cpu_registers.program_counter == pre.program_counter
        }))
    &&& (NES::same_mem(s0, s1))
    &&& (frame_regs_only(s0, s1))
    &&& (extra == 0)
}

/// The full effect of the `rla` kernel: state `s0` to state `s1`
/// with `extra` penalty cycles reported.
pub open spec fn rel_rla(s0: NES, s1: NES, mode: AddrMode, extra: usize) -> bool {
    &&& (s1.wf())
    &&& (op_ram(s0, mode) ==> ({
            let v = operand(s0, mode);
            let pre = s0.cpu_registers;
            &&& s1.cpu_ram@ == s0.cpu_ram@.update(
                op_addr(s0, mode) as int % 0x800,
                rol8(v, pre.status.carry),
            )
            &&& s1.cpu_registers.accumulator == (pre.accumulator & rol8(v, pre.status.carry))
            &&& s1.cpu_registers.status == (Status {
                carry: v >= 0x80,
                ..spec_zn(pre.status, pre.accumulator & rol8(v, pre.status.carry))
            })
            &&& s1.cpu_registers.x == pre.x && s1.cpu_registers.y == pre.y
            &&& s1.cpu_registers.stack_pointer == pre.stack_pointer
            &&& s1.cpu_registers.program_counter == pre.program_counter
            &&& frame_regs_ram(s0, s1)
        }))
    &&& (s1.cpu_cycles <= s0.cpu_cycles + 513)
    &&& (extra == 0)
}

/// The full effect of the `rol` kernel: state `s0` to state `s1`
/// with `extra` penalty cycles reported.
pub open spec fn rel_rol(s0: NES, s1: NES, mode: AddrMode, extra: usize) -> bool {
    &&& (s1.wf())
    &&& (mode == AddrMode::Accumulator ==> ({
            let pre = s0.cpu_registers;
            let v = pre.accumulator;
            &&& s1.cpu_registers.accumulator == rol8(v, pre.status.carry)
            &&& s1.cpu_registers.status == (Status {
                carry: v >= 0x80,
                ..spec_zn(pre.status, rol8(v, pre.status.carry))
            })
            &&& s1.cpu_registers.x == pre.x && s1.cpu_registers.y == pre.y
            &&& s1.cpu_registers.stack_pointer == pre.stack_pointer
            &&& s1.cpu_registers.program_counter == pre.program_counter
            &&& frame_regs_only(s0, s1)
        }))
    &&& (mode != AddrMode::Accumulator && op_ram(s0, mode) ==> ({
            let v = operand(s0, mode);
            let pre = s0.cpu_registers;
            &&& s1.cpu_ram@ == s0.cpu_ram@.update(
                op_addr(s0, mode) as int % 0x800,
                rol8(v, pre.status.carry),
            )
            &&& s1.cpu_registers.status == (Status {
                carry: v >= 0x80,
                ..spec_zn(pre.status, rol8(v, pre.status.carry))
            })
            &&& same_axys(s0, s1)
            &&& s1.cpu_registers.program_counter == pre.program_counter
            &&& frame_regs_ram(s0, s1)
        }))
    &&& (s1.cpu_cycles <= s0.cpu_cycles + 513)
    &&& (extra == 0)
}

/// The full effect of the `ror` kernel: state `s0` to state `s1`
/// with `extra` penalty cycles reported.
pub open spec fn rel_ror(s0: NES, s1: NES, mode: AddrMode, extra: usize) -> bool {
    &&& (s1.wf())
    &&& (mode == AddrMode::Accumulator ==> ({
            let pre = s0.cpu_registers;
            let v = pre.accumulator;
            &&& s1.cpu_registers.accumulator == ror8(v, pre.status.carry)
            &&& s1.cpu_registers.status == (Status {
                carry: v % 2 == 1,
                ..spec_zn(pre.status, ror8(v, pre.status.carry))
            })
            &&& s1.cpu_registers.x == pre.x && s1.cpu_registers.y == pre.y
            &&& s1.cpu_registers.stack_pointer == pre.stack_pointer
            &&& s1.cpu_registers.program_counter == pre.program_counter
            &&& frame_regs_only(s0, s1)
        }))
    &&& (mode != AddrMode::Accumulator && op_ram(s0, mode) ==> ({
            let v = operand(s0, mode);
            let pre = s0.cpu_registers;
            &&& s1.cpu_ram@ == s0.cpu_ram@.update(
                op_addr(s0, mode) as int % 0x800,
                ror8(v, pre.status.carry),
            )
            &&& s1.cpu_registers.status == (Status {
                carry: v % 2 == 1,
                ..spec_zn(pre.status, ror8(v, pre.status.carry))
            })
            &&& same_axys(s0, s1)
            &&& s1.cpu_registers.program_counter == pre.program_counter
            &&& frame_regs_ram(s0, s1)
        }))
    &&& (s1.cpu_cycles <= s0.cpu_cycles + 513)
    &&& (extra == 0)
}

/// The full effect of the `rra` kernel: state `s0` to state `s1`
/// with `extra` penalty cycles reported.
pub open spec fn rel_rra(s0: NES, s1: NES, mode: AddrMode, extra: usize) -> bool {
    &&& (s1.wf())
    &&& (op_ram(s0, mode) ==> ({
            let v = operand(s0, mode);
            let pre = s0.cpu_registers;
            &&& s1.cpu_ram@ == s0.cpu_ram@.update(
                op_addr(s0, mode) as int % 0x800,
                ror8(v, pre.status.carry),
            )
            &&& s1.cpu_registers.accumulator == spec_adc_sum(
                pre.accumulator,
                ror8(v, pre.status.carry),
                v % 2 == 1,
            )
            &&& s1.cpu_registers.status == spec_adc_status(
                pre.status,
                pre.accumulator,
                ror8(v, pre.status.carry),
                v % 2 == 1,
            )
            &&& s1.cpu_registers.x == pre.x && s1.cpu_registers.y == pre.y
            &&& s1.cpu_registers.stack_pointer == pre.stack_pointer
            &&& s1.cpu_registers.program_counter == pre.program_counter
            &&& frame_regs_ram(s0, s1)
        }))
    &&& (s1.cpu_cycles <= s0.cpu_cycles + 513)
    &&& (extra == 0)
}

/// The full effect of the `rti` kernel: state `s0` to state `s1`
/// with `extra` penalty cycles reported.
pub open spec fn rel_rti(s0: NES, s1: NES, mode: AddrMode, extra: usize) -> bool {
    &&& (s1.wf())
    &&& (({
            let pre = s0.cpu_registers;
            let st = s0.cpu_ram@[0x100 + wrap8(pre.stack_pointer + 1) as int];
            let low = s0.cpu_ram@[0x100 + wrap8(pre.stack_pointer + 2) as int];
            let high = s0.cpu_ram@[0x100 + wrap8(pre.stack_pointer + 3) as int];
            &&& s1.cpu_registers.status == (Status { b: 2, ..Status::spec_from_bits(st) })
            &&& s1.cpu_registers.program_counter == low + 256 * high
            &&& s1.cpu_registers.stack_pointer == wrap8(pre.stack_pointer + 3)
            &&& s1.cpu_registers.accumulator == pre.accumulator
            &&& s1.cpu_registers.x == pre.x && s1.cpu_registers.y == pre.y
        }))
    &&& (NES::same_mem(s0, s1))
    &&& (frame_regs_only(s0, s1))
    &&& (extra == 0)
}

/// The full effect of the `rts` kernel: state `s0` to state `s1`
/// with `extra` penalty cycles reported.
pub open spec fn rel_rts(s0: NES, s1: NES, mode: AddrMode, extra: usize) -> bool {
    &&& (s1.wf())
    &&& (({
            let pre = s0.cpu_registers;
            let low = s0.cpu_ram@[0x100 + wrap8(pre.stack_pointer + 1) as int];
            let high = s0.cpu_ram@[0x100 + wrap8(pre.stack_pointer + 2) as int];
            &&& s1.cpu_registers.program_counter == wrap16(low + 256 * high + 1)
            &&& s1.cpu_registers.stack_pointer == wrap8(pre.stack_pointer + 2)
            &&& s1.cpu_registers.status == pre.status
            &&& s1.cpu_registers.accumulator == pre.accumulator
            &&& s1.cpu_registers.x == pre.x && s1.cpu_registers.y == pre.y
        }))
    &&& (NES::same_mem(s0, s1))
    &&& (frame_regs_only(s0, s1))
    &&& (extra == 0)
}

/// The full effect of the `sax` kernel: state `s0` to state `s1`
/// with `extra` penalty cycles reported.
pub open spec fn rel_sax(s0: NES, s1: NES, mode: AddrMode, extra: usize) -> bool {
    &&& (s1.wf())
    &&& (crate::cpu::spec_op_fetch_stable(s0, mode) ==> crate::cpu::rel_bus_write(
            s0,
            s1,
            op_addr(s0, mode),
            s0.cpu_registers.accumulator & s0.cpu_registers.x,
        ))
    &&& (s1.cpu_registers == s0.cpu_registers)
    &&& (s1.prg_rom@ == s0.prg_rom@ && s1.chr_rom@ == s0.chr_rom@)
    &&& (s1.cpu_cycles <= s0.cpu_cycles + 513)
    &&& (extra == 0)
}

/// The full effect of the `sbc` kernel: state `s0` to state `s1`
/// with `extra` penalty cycles reported.
pub open spec fn rel_sbc(s0: NES, s1: NES, mode: AddrMode, extra: usize) -> bool {
    &&& (s1.wf())
    &&& (op_ok(s0, mode) ==> ({
            let v = operand(s0, mode);
            let pre = s0.cpu_registers;
            &&& s1.cpu_registers.accumulator == spec_adc_sum(pre.accumulator, (255 - v) as u8, pre.status.carry)
            &&& s1.cpu_registers.status == spec_adc_status(pre.status, pre.accumulator, (255 - v) as u8, pre.status.carry)
            &&& s1.cpu_registers.x == pre.x && s1.cpu_registers.y == pre.y
            &&& s1.cpu_registers.stack_pointer == pre.stack_pointer
            &&& s1.cpu_registers.program_counter == pre.program_counter
            &&& extra == op_extra(s0, mode)
            &&& frame_regs_only(s0, s1)
        }))
    &&& (NES::same_mem(s0, s1))
    &&& (NES::same_timing(s0, s1))
    &&& (extra <= 1)
}

/// The full effect of the `sec` kernel: state `s0` to state `s1`
/// with `extra` penalty cycles reported.
pub open spec fn rel_sec(s0: NES, s1: NES, mode: AddrMode, extra: usize) -> bool {
    &&& (s1.wf())
    &&& (s1.cpu_registers.status == (Status {
            carry: true,
            ..s0.cpu_registers.status
        }))
    &&& (same_axys(s0, s1))
    &&& (s1.cpu_registers.program_counter == s0.cpu_registers.program_counter)
    &&& (frame_regs_only(s0, s1))
    &&& (extra == 0)
}

/// The full effect of the `sed` kernel: state `s0` to state `s1`
/// with `extra` penalty cycles reported.
pub open spec fn rel_sed(s0: NES, s1: NES, mode: AddrMode, extra: usize) -> bool {
    &&& (s1.wf())
    &&& (s1.cpu_registers.status == (Status {
            decimal: true,
            ..s0.cpu_registers.status
        }))
    &&& (same_axys(s0, s1))
    &&& (s1.cpu_registers.program_counter == s0.cpu_registers.program_counter)
    &&& (frame_regs_only(s0, s1))
    &&& (extra == 0)
}

/// The full effect of the `sei` kernel: state `s0` to state `s1`
/// with `extra` penalty cycles reported.
pub open spec fn rel_sei(s0: NES, s1: NES, mode: AddrMode, extra: usize) -> bool {
    &&& (s1.wf())
    &&& (s1.cpu_registers.status == (Status {
            interrupt_disable: true,
            ..s0.cpu_registers.status
        }))
    &&& (same_axys(s0, s1))
    &&& (s1.cpu_registers.program_counter == s0.cpu_registers.program_counter)
    &&& (frame_regs_only(s0, s1))
    &&& (extra == 0)
}

/// The full effect of the `slo` kernel: state `s0` to state `s1`
/// with `extra` penalty cycles reported.
pub open spec fn rel_slo(s0: NES, s1: NES, mode: AddrMode, extra: usize) -> bool {
    &&& (s1.wf())
    &&& (op_ram(s0, mode) ==> ({
            let v = operand(s0, mode);
            let pre = s0.cpu_registers;
            &&& s1.cpu_ram@ == s0.cpu_ram@.update(
                op_addr(s0, mode) as int % 0x800,
                asl8(v),
            )
            &&& s1.cpu_registers.accumulator == (asl8(v) | pre.accumulator)
            &&& s1.cpu_registers.status == (Status {
                carry: v >= 0x80,
                ..spec_zn(pre.status, asl8(v) | pre.accumulator)
            })
            &&& s1.cpu_registers.x == pre.x && s1.cpu_registers.y == pre.y
            &&& s1.cpu_registers.stack_pointer == pre.stack_pointer
            &&& s1.cpu_registers.program_counter == pre.program_counter
            &&& frame_regs_ram(s0, s1)
        }))
    &&& (s1.cpu_cycles <= s0.cpu_cycles + 513)
    &&& (extra == 0)
}

/// The full effect of the `sre` kernel: state `s0` to state `s1`
/// with `extra` penalty cycles reported.
pub open spec fn rel_sre(s0: NES, s1: NES, mode: AddrMode, extra: usize) -> bool {
    &&& (s1.wf())
    &&& (op_ram(s0, mode) ==> ({
            let v = operand(s0, mode);
            let pre = s0.cpu_registers;
            &&& s1.cpu_ram@ == s0.cpu_ram@.update(
                op_addr(s0, mode) as int % 0x800,
                lsr8(v),
            )
            &&& s1.cpu_registers.accumulator == (lsr8(v) ^ pre.accumulator)
            &&& s1.cpu_registers.status == (Status {
                carry: v % 2 == 1,
                ..spec_zn(pre.status, lsr8(v) ^ pre.accumulator)
            })
            &&& s1.cpu_registers.x == pre.x && s1.cpu_registers.y == pre.y
            &&& s1.cpu_registers.stack_pointer == pre.stack_pointer
            &&& s1.cpu_registers.program_counter == pre.program_counter
            &&& frame_regs_ram(s0, s1)
        }))
    &&& (s1.cpu_cycles <= s0.cpu_cycles + 513)
    &&& (extra == 0)
}

/// The full effect of the `sta` kernel: state `s0` to state `s1`
/// with `extra` penalty cycles reported.
pub open spec fn rel_sta(s0: NES, s1: NES, mode: AddrMode, extra: usize) -> bool {
    &&& (s1.wf())
    &&& (crate::cpu::spec_op_fetch_stable(s0, mode) ==> crate::cpu::rel_bus_write(
            s0,
            s1,
            op_addr(s0, mode),
            s0.cpu_registers.accumulator,
        ))
    &&& (s1.cpu_registers == s0.cpu_registers)
    &&& (s1.prg_rom@ == s0.prg_rom@ && s1.chr_rom@ == s0.chr_rom@)
    &&& (s1.cpu_cycles <= s0.cpu_cycles + 513)
    &&& (extra == 0)
}

/// The full effect of the `stx` kernel: state `s0` to state `s1`
/// with `extra` penalty cycles reported.
pub open spec fn rel_stx(s0: NES, s1: NES, mode: AddrMode, extra: usize) -> bool {
    &&& (s1.wf())
    &&& (crate::cpu::spec_op_fetch_stable(s0, mode) ==> crate::cpu::rel_bus_write(
            s0,
            s1,
            op_addr(s0, mode),
            s0.cpu_registers.x,
        ))
    &&& (s1.cpu_registers == s0.cpu_registers)
    &&& (s1.prg_rom@ == s0.prg_rom@ && s1.chr_rom@ == s0.chr_rom@)
    &&& (s1.cpu_cycles <= s0.cpu_cycles + 513)
    &&& (extra == 0)
}

/// The full effect of the `sty` kernel: state `s0` to state `s1`
/// with `extra` penalty cycles reported.
pub open spec fn rel_sty(s0: NES, s1: NES, mode: AddrMode, extra: usize) -> bool {
    &&& (s1.wf())
    &&& (crate::cpu::spec_op_fetch_stable(s0, mode) ==> crate::cpu::rel_bus_write(
            s0,
            s1,
            op_addr(s0, mode),
            s0.cpu_registers.y,
        ))
    &&& (s1.cpu_registers == s0.cpu_registers)
    &&& (s1.prg_rom@ == s0.prg_rom@ && s1.chr_rom@ == s0.chr_rom@)
    &&& (s1.cpu_cycles <= s0.cpu_cycles + 513)
    &&& (extra == 0)
}

/// The full effect of the `sxa` kernel: state `s0` to state `s1`
/// with `extra` penalty cycles reported.
pub open spec fn rel_sxa(s0: NES, s1: NES, mode: AddrMode, extra: usize) -> bool {
    &&& (s1.wf())
    &&& (op_ram(s0, mode) ==> ({
            let pre = s0.cpu_registers;
            let a = op_addr(s0, mode);
            &&& s1.cpu_ram@ == s0.cpu_ram@.update(a as int % 0x800, (pre.x & wrap8(a / 256 + 1)) as u8)
            &&& s1.cpu_registers.accumulator == pre.accumulator
            &&& s1.cpu_registers.x == pre.x && s1.cpu_registers.y == pre.y
            &&& s1.cpu_registers.stack_pointer == pre.stack_pointer
            &&& s1.cpu_registers.status == pre.status
            &&& s1.cpu_registers.program_counter == pre.program_counter
            &&& frame_regs_ram(s0, s1)
        }))
    &&& (s1.cpu_cycles <= s0.cpu_cycles + 513)
    &&& (extra == 0)
}

/// The full effect of the `sya` kernel: state `s0` to state `s1`
/// with `extra` penalty cycles reported.
pub open spec fn rel_sya(s0: NES, s1: NES, mode: AddrMode, extra: usize) -> bool {
    &&& (s1.wf())
    &&& (op_ram(s0, mode) ==> ({
            let pre = s0.cpu_registers;
            let a = op_addr(s0, mode);
            &&& s1.cpu_ram@ == s0.cpu_ram@.update(a as int % 0x800, (pre.y & wrap8(a / 256 + 1)) as u8)
            &&& s1.cpu_registers.accumulator == pre.accumulator
            &&& s1.cpu_registers.x == pre.x && s1.cpu_registers.y == pre.y
            &&& s1.cpu_registers.stack_pointer == pre.stack_pointer
            &&& s1.cpu_registers.status == pre.status
            &&& s1.cpu_registers.program_counter == pre.program_counter
            &&& frame_regs_ram(s0, s1)
        }))
    &&& (s1.cpu_cycles <= s0.cpu_cycles + 513)
    &&& (extra == 0)
}

/// The full effect of the `tax` kernel: state `s0` to state `s1`
/// with `extra` penalty cycles reported.
pub open spec fn rel_tax(s0: NES, s1: NES, mode: AddrMode, extra: usize) -> bool {
    &&& (s1.wf())
    &&& (({
            let pre = s0.cpu_registers;
            &&& s1.cpu_registers.x == pre.accumulator
            &&& s1.cpu_registers.status == spec_zn(pre.status, pre.accumulator)
            &&& s1.cpu_registers.accumulator == pre.accumulator && s1.cpu_registers.y == pre.y
            &&& s1.cpu_registers.stack_pointer == pre.stack_pointer
            &&& s1.cpu_registers.program_counter == pre.program_counter
        }))
    &&& (frame_regs_only(s0, s1))
    &&& (extra == 0)
}

/// The full effect of the `tay` kernel: state `s0` to state `s1`
/// with `extra` penalty cycles reported.
pub open spec fn rel_tay(s0: NES, s1: NES, mode: AddrMode, extra: usize) -> bool {
    &&& (s1.wf())
    &&& (({
            let pre = s0.cpu_registers;
            &&& s1.cpu_registers.y == pre.accumulator
            &&& s1.cpu_registers.status == spec_zn(pre.status, pre.accumulator)
            &&& s1.cpu_registers.accumulator == pre.accumulator && s1.cpu_registers.x == pre.x
            &&& s1.cpu_registers.stack_pointer == pre.stack_pointer
            &&& s1.cpu_registers.program_counter == pre.program_counter
        }))
    &&& (frame_regs_only(s0, s1))
    &&& (extra == 0)
}

/// The full effect of the `top` kernel: state `s0` to state `s1`
/// with `extra` penalty cycles reported.
pub open spec fn rel_top(s0: NES, s1: NES, mode: AddrMode, extra: usize) -> bool {
    &&& (s1.wf())
    &&& (crate::cpu::spec_op_fetch_stable(s0, mode) ==> NES::same_state(
            s0,
            s1,
        ) && extra == op_extra(s0, mode))
    &&& (NES::same_mem(s0, s1))
    &&& (NES::same_timing(s0, s1))
    &&& (s1.cpu_registers == s0.cpu_registers)
    &&& (extra <= 1)
}

/// The full effect of the `tsx` kernel: state `s0` to state `s1`
/// with `extra` penalty cycles reported.
pub open spec fn rel_tsx(s0: NES, s1: NES, mode: AddrMode, extra: usize) -> bool {
    &&& (s1.wf())
    &&& (({
            let pre = s0.cpu_registers;
            &&& s1.cpu_registers.x == pre.stack_pointer
            &&& s1.cpu_registers.status == spec_zn(pre.status, pre.stack_pointer)
            &&& s1.cpu_registers.accumulator == pre.accumulator && s1.cpu_registers.y == pre.y
            &&& s1.cpu_registers.stack_pointer == pre.stack_pointer
            &&& s1.cpu_registers.program_counter == pre.program_counter
        }))
    &&& (frame_regs_only(s0, s1))
    &&& (extra == 0)
}

/// The full effect of the `txa` kernel: state `s0` to state `s1`
/// with `extra` penalty cycles reported.
pub open spec fn rel_txa(s0: NES, s1: NES, mode: AddrMode, extra: usize) -> bool {
    &&& (s1.wf())
    &&& (({
            let pre = s0.cpu_registers;
            &&& s1.cpu_registers.accumulator == pre.x
            &&& s1.cpu_registers.status == spec_zn(pre.status, pre.x)
            &&& s1.cpu_registers.x == pre.x && s1.cpu_registers.y == pre.y
            &&& s1.cpu_registers.stack_pointer == pre.stack_pointer
            &&& s1.cpu_registers.program_counter == pre.program_counter
        }))
    &&& (frame_regs_only(s0, s1))
    &&& (extra == 0)
}

/// The full effect of the `txs` kernel: state `s0` to state `s1`
/// with `extra` penalty cycles reported.
pub open spec fn rel_txs(s0: NES, s1: NES, mode: AddrMode, extra: usize) -> bool {
    &&& (s1.wf())
    &&& (({
            let pre = s0.cpu_registers;
            &&& s1.cpu_registers.stack_pointer == pre.x
            &&& s1.cpu_registers.status == pre.status
            &&& s1.cpu_registers.accumulator == pre.accumulator && s1.cpu_registers.x == pre.x
            &&& s1.cpu_registers.y == pre.y
            &&& s1.cpu_registers.program_counter == pre.program_counter
        }))
    &&& (frame_regs_only(s0, s1))
    &&& (extra == 0)
}

/// The full effect of the `tya` kernel: state `s0` to state `s1`
/// with `extra` penalty cycles reported.
pub open spec fn rel_tya(s0: NES, s1: NES, mode: AddrMode, extra: usize) -> bool {
    &&& (s1.wf())
    &&& (({
            let pre = s0.cpu_registers;
            &&& s1.cpu_registers.accumulator == pre.y
            &&& s1.cpu_registers.status == spec_zn(pre.status, pre.y)
            &&& s1.cpu_registers.x == pre.x && s1.cpu_registers.y == pre.y
            &&& s1.cpu_registers.stack_pointer == pre.stack_pointer
            &&& s1.cpu_registers.program_counter == pre.program_counter
        }))
    &&& (frame_regs_only(s0, s1))
    &&& (extra == 0)
}

/// The full effect of the `xaa` kernel: state `s0` to state `s1`
/// with `extra` penalty cycles reported.
pub open spec fn rel_xaa(s0: NES, s1: NES, mode: AddrMode, extra: usize) -> bool {
    &&& (s1.wf())
    &&& (op_ok(s0, mode) ==> ({
            let v = operand(s0, mode);
            let pre = s0.cpu_registers;
            let result = (pre.x & v) as u8;
            &&& s1.cpu_registers.accumulator == result
            &&& s1.cpu_registers.status == spec_zn(pre.status, result)
            &&& s1.cpu_registers.x == pre.x && s1.cpu_registers.y == pre.y
            &&& s1.cpu_registers.stack_pointer == pre.stack_pointer
            &&& s1.cpu_registers.program_counter == pre.program_counter
            &&& frame_regs_only(s0, s1)
        }))
    &&& (NES::same_mem(s0, s1))
    &&& (NES::same_timing(s0, s1))
    &&& (extra == 0)
}

/// The full effect of the `xas` kernel: state `s0` to state `s1`
/// with `extra` penalty cycles reported.
pub open spec fn rel_xas(s0: NES, s1: NES, mode: AddrMode, extra: usize) -> bool {
    &&& (s1.wf())
    &&& (op_ram(s0, mode) ==> ({
            let pre = s0.cpu_registers;
            let a = op_addr(s0, mode);
            &&& s1.cpu_ram@ == s0.cpu_ram@.update(a as int % 0x800, ((pre.x & pre.accumulator) as u8 & wrap8(a / 256 + 1)) as u8)
            &&& s1.cpu_registers.accumulator == pre.accumulator
            &&& s1.cpu_registers.x == pre.x && s1.cpu_registers.y == pre.y
            &&& s1.cpu_registers.stack_pointer == (pre.x & pre.accumulator) as u8
            &&& s1.cpu_registers.status == pre.status
            &&& s1.cpu_registers.program_counter == pre.program_counter
            &&& frame_regs_ram(s0, s1)
        }))
    &&& (s1.cpu_cycles <= s0.cpu_cycles + 513)
    &&& (extra == 0)
}

/// The effect of the kernel `op` dispatches to.
pub open spec fn op_rel(op: Op, mode: AddrMode, s0: NES, s1: NES, extra: usize) -> bool {
    match op {
        Op::Adc => rel_adc(s0, s1, mode, extra),
        Op::Anc => rel_anc(s0, s1, mode, extra),
        Op::And => rel_and(s0, s1, mode, extra),
        Op::Arr => rel_arr(s0, s1, mode, extra),
        Op::Asl => rel_asl(s0, s1, mode, extra),
        Op::Asr => rel_asr(s0, s1, mode, extra),
        Op::Axa => rel_axa(s0, s1, mode, extra),
        Op::Axs => rel_axs(s0, s1, mode, extra),
        Op::Bcc => rel_bcc(s0, s1, mode, extra),
        Op::Bcs => rel_bcs(s0, s1, mode, extra),
        Op::Beq => rel_beq(s0, s1, mode, extra),
        Op::Bit => rel_bit(s0, s1, mode, extra),
        Op::Bmi => rel_bmi(s0, s1, mode, extra),
        Op::Bne => rel_bne(s0, s1, mode, extra),
        Op::Bpl => rel_bpl(s0, s1, mode, extra),
        Op::Brk => rel_brk(s0, s1, mode, extra),
        Op::Bvc => rel_bvc(s0, s1, mode, extra),
        Op::Bvs => rel_bvs(s0, s1, mode, extra),
        Op::Clc => rel_clc(s0, s1, mode, extra),
        Op::Cld => rel_cld(s0, s1, mode, extra),
        Op::Cli => rel_cli(s0, s1, mode, extra),
        Op::Clv => rel_clv(s0, s1, mode, extra),
        Op::Cmp => rel_cmp(s0, s1, mode, extra),
        Op::Cpx => rel_cpx(s0, s1, mode, extra),
        Op::Cpy => rel_cpy(s0, s1, mode, extra),
        Op::Dcp => rel_dcp(s0, s1, mode, extra),
        Op::Dec => rel_dec(s0, s1, mode, extra),
        Op::Dex => rel_dex(s0, s1, mode, extra),
        Op::Dey => rel_dey(s0, s1, mode, extra),
        Op::Dop => rel_dop(s0, s1, mode, extra),
        Op::Eor => rel_eor(s0, s1, mode, extra),
        Op::Inc => rel_inc(s0, s1, mode, extra),
        Op::Inx => rel_inx(s0, s1, mode, extra),
        Op::Iny => rel_iny(s0, s1, mode, extra),
        Op::Isb => rel_isb(s0, s1, mode, extra),
        Op::Jmp => rel_jmp(s0, s1, mode, extra),
        Op::Jsr => rel_jsr(s0, s1, mode, extra),
        Op::Kil => rel_kil(s0, s1, mode, extra),
        Op::Las => rel_las(s0, s1, mode, extra),
        Op::Lax => rel_lax(s0, s1, mode, extra),
        Op::Lda => rel_lda(s0, s1, mode, extra),
        Op::Ldx => rel_ldx(s0, s1, mode, extra),
        Op::Ldy => rel_ldy(s0, s1, mode, extra),
        Op::Lsr => rel_lsr(s0, s1, mode, extra),
        Op::Lxa => rel_lxa(s0, s1, mode, extra),
        Op::Nop => rel_nop(s0, s1, mode, extra),
        Op::Ora => rel_ora(s0, s1, mode, extra),
        Op::Pha => rel_pha(s0, s1, mode, extra),
        Op::Php => rel_php(s0, s1, mode, extra),
        Op::Pla => rel_pla(s0, s1, mode, extra),
        Op::Plp => rel_plp(s0, s1, mode, extra),
        Op::Rla => rel_rla(s0, s1, mode, extra),
        Op::Rol => rel_rol(s0, s1, mode, extra),
        Op::Ror => rel_ror(s0, s1, mode, extra),
        Op::Rra => rel_rra(s0, s1, mode, extra),
        Op::Rti => rel_rti(s0, s1, mode, extra),
        Op::Rts => rel_rts(s0, s1, mode, extra),
        Op::Sax => rel_sax(s0, s1, mode, extra),
        Op::Sbc => rel_sbc(s0, s1, mode, extra),
        Op::Sec => rel_sec(s0, s1, mode, extra),
        Op::Sed => rel_sed(s0, s1, mode, extra),
        Op::Sei => rel_sei(s0, s1, mode, extra),
        Op::Slo => rel_slo(s0, s1, mode, extra),
        Op::Sre => rel_sre(s0, s1, mode, extra),
        Op::Sta => rel_sta(s0, s1, mode, extra),
        Op::Stx => rel_stx(s0, s1, mode, extra),
        Op::Sty => rel_sty(s0, s1, mode, extra),
        Op::Sxa => rel_sxa(s0, s1, mode, extra),
        Op::Sya => rel_sya(s0, s1, mode, extra),
        Op::Tax => rel_tax(s0, s1, mode, extra),
        Op::Tay => rel_tay(s0, s1, mode, extra),
        Op::Top => rel_top(s0, s1, mode, extra),
        Op::Tsx => rel_tsx(s0, s1, mode, extra),
        Op::Txa => rel_txa(s0, s1, mode, extra),
        Op::Txs => rel_txs(s0, s1, mode, extra),
        Op::Tya => rel_tya(s0, s1, mode, extra),
        Op::Xaa => rel_xaa(s0, s1, mode, extra),
        Op::Xas => rel_xas(s0, s1, mode, extra),
    }
}

/// The opcode table as a specification: the row `decode` returns for
/// each opcode byte.
pub open spec fn spec_decode(opcode: u8) -> Instruction {
    if opcode == 0 {
        Instruction {
            name: "BRK",
            mode: AddrMode::Implied,
            cycles: 7,
            len: 1,
            op: Op::Brk,
            legal: true,
        }
    } else if opcode == 1 {
        Instruction {
            name: "ORA",
            mode: AddrMode::IndirectX,
            cycles: 6,
            len: 2,
            op: Op::Ora,
            legal: true,
        }
    } else if opcode == 2 {
        Instruction {
            name: "KIL",
            mode: AddrMode::Implied,
            cycles: 2,
            len: 1,
            op: Op::Kil,
            legal: false,
        }
    } else if opcode == 3 {
        Instruction {
            name: "SLO",
            mode: AddrMode::IndirectX,
            cycles: 8,
            len: 2,
            op: Op::Slo,
            legal: false,
        }
    } else if opcode == 4 {
        Instruction {
            name: "DOP",
            mode: AddrMode::ZeroPage,
            cycles: 3,
            len: 2,
            op: Op::Dop,
            legal: false,
        }
    } else if opcode == 5 {
        Instruction {
            name: "ORA",
            mode: AddrMode::ZeroPage,
            cycles: 3,
            len: 2,
            op: Op::Ora,
            legal: true,
        }
    } else if opcode == 6 {
        Instruction {
            name: "ASL",
            mode: AddrMode::ZeroPage,
            cycles: 5,
            len: 2,
            op: Op::Asl,
            legal: true,
        }
    } else if opcode == 7 {
        Instruction {
            name: "SLO",
            mode: AddrMode::ZeroPage,
            cycles: 5,
            len: 2,
            op: Op::Slo,
            legal: false,
        }
    } else if opcode == 8 {
        Instruction {
            name: "PHP",
            mode: AddrMode::Implied,
            cycles: 3,
            len: 1,
            op: Op::Php,
            legal: true,
        }
    } else if opcode == 9 {
        Instruction {
            name: "ORA",
            mode: AddrMode::Immediate,
            cycles: 2,
            len: 2,
            op: Op::Ora,
            legal: true,
        }
    } else if opcode == 10 {
        Instruction {
            name: "ASL",
            mode: AddrMode::Accumulator,
            cycles: 2,
            len: 1,
            op: Op::Asl,
            legal: true,
        }
    } else if opcode == 11 {
        Instruction {
            name: "ANC",
            mode: AddrMode::Immediate,
            cycles: 2,
            len: 2,
            op: Op::Anc,
            legal: false,
        }
    } else if opcode == 12 {
        Instruction {
            name: "TOP",
            mode: AddrMode::Absolute,
            cycles: 4,
            len: 3,
            op: Op::Top,
            legal: false,
        }
    } else if opcode == 13 {
        Instruction {
            name: "ORA",
            mode: AddrMode::Absolute,
            cycles: 4,
            len: 3,
            op: Op::Ora,
            legal: true,
        }
    } else if opcode == 14 {
        Instruction {
            name: "ASL",
            mode: AddrMode::Absolute,
            cycles: 6,
            len: 3,
            op: Op::Asl,
            legal: true,
        }
    } else if opcode == 15 {
        Instruction {
            name: "SLO",
            mode: AddrMode::Absolute,
            cycles: 6,
            len: 3,
            op: Op::Slo,
            legal: false,
        }
    } else if opcode == 16 {
        Instruction {
            name: "BPL",
            mode: AddrMode::Relative,
            cycles: 2,
            len: 2,
            op: Op::Bpl,
            legal: true,
        }
    } else if opcode == 17 {
        Instruction {
            name: "ORA",
            mode: AddrMode::IndirectY,
            cycles: 5,
            len: 2,
            op: Op::Ora,
            legal: true,
        }
    } else if opcode == 18 {
        Instruction {
            name: "KIL",
            mode: AddrMode::Implied,
            cycles: 2,
            len: 1,
            op: Op::Kil,
            legal: false,
        }
    } else if opcode == 19 {
        Instruction {
            name: "SLO",
            mode: AddrMode::IndirectY,
            cycles: 8,
            len: 2,
            op: Op::Slo,
            legal: false,
        }
    } else if opcode == 20 {
        Instruction {
            name: "DOP",
            mode: AddrMode::ZeroPageX,
            cycles: 4,
            len: 2,
            op: Op::Dop,
            legal: false,
        }
    } else if opcode == 21 {
        Instruction {
            name: "ORA",
            mode: AddrMode::ZeroPageX,
            cycles: 4,
            len: 2,
            op: Op::Ora,
            legal: true,
        }
    } else if opcode == 22 {
        Instruction {
            name: "ASL",
            mode: AddrMode::ZeroPageX,
            cycles: 6,
            len: 2,
            op: Op::Asl,
            legal: true,
        }
    } else if opcode == 23 {
        Instruction {
            name: "SLO",
            mode: AddrMode::ZeroPageX,
            cycles: 6,
            len: 2,
            op: Op::Slo,
            legal: false,
        }
    } else if opcode == 24 {
        Instruction {
            name: "CLC",
            mode: AddrMode::Implied,
            cycles: 2,
            len: 1,
            op: Op::Clc,
            legal: true,
        }
    } else if opcode == 25 {
        Instruction {
            name: "ORA",
            mode: AddrMode::AbsoluteY,
            cycles: 4,
            len: 3,
            op: Op::Ora,
            legal: true,
        }
    } else if opcode == 26 {
        Instruction {
            name: "NOP",
            mode: AddrMode::Implied,
            cycles: 2,
            len: 1,
            op: Op::Nop,
            legal: false,
        }
    } else if opcode == 27 {
        Instruction {
            name: "SLO",
            mode: AddrMode::AbsoluteY,
            cycles: 7,
            len: 3,
            op: Op::Slo,
            legal: false,
        }
    } else if opcode == 28 {
        Instruction {
            name: "TOP",
            mode: AddrMode::AbsoluteX,
            cycles: 4,
            len: 3,
            op: Op::Top,
            legal: false,
        }
    } else if opcode == 29 {
        Instruction {
            name: "ORA",
            mode: AddrMode::AbsoluteX,
            cycles: 4,
            len: 3,
            op: Op::Ora,
            legal: true,
        }
    } else if opcode == 30 {
        Instruction {
            name: "ASL",
            mode: AddrMode::AbsoluteX,
            cycles: 7,
            len: 3,
            op: Op::Asl,
            legal: true,
        }
    } else if opcode == 31 {
        Instruction {
            name: "SLO",
            mode: AddrMode::AbsoluteX,
            cycles: 7,
            len: 3,
            op: Op::Slo,
            legal: false,
        }
    } else if opcode == 32 {
        Instruction {
            name: "JSR",
            mode: AddrMode::Absolute,
            cycles: 6,
            len: 3,
            op: Op::Jsr,
            legal: true,
        }
    } else if opcode == 33 {
        Instruction {
            name: "AND",
            mode: AddrMode::IndirectX,
            cycles: 6,
            len: 2,
            op: Op::And,
            legal: true,
        }
    } else if opcode == 34 {
        Instruction {
            name: "KIL",
            mode: AddrMode::Implied,
            cycles: 2,
            len: 1,
            op: Op::Kil,
            legal: false,
        }
    } else if opcode == 35 {
        Instruction {
            name: "RLA",
            mode: AddrMode::IndirectX,
            cycles: 8,
            len: 2,
            op: Op::Rla,
            legal: false,
        }
    } else if opcode == 36 {
        Instruction {
            name: "BIT",
            mode: AddrMode::ZeroPage,
            cycles: 3,
            len: 2,
            op: Op::Bit,
            legal: true,
        }
    } else if opcode == 37 {
        Instruction {
            name: "AND",
            mode: AddrMode::ZeroPage,
            cycles: 3,
            len: 2,
            op: Op::And,
            legal: true,
        }
    } else if opcode == 38 {
        Instruction {
            name: "ROL",
            mode: AddrMode::ZeroPage,
            cycles: 5,
            len: 2,
            op: Op::Rol,
            legal: true,
        }
    } else if opcode == 39 {
        Instruction {
            name: "RLA",
            mode: AddrMode::ZeroPage,
            cycles: 5,
            len: 2,
            op: Op::Rla,
            legal: false,
        }
    } else if opcode == 40 {
        Instruction {
            name: "PLP",
            mode: AddrMode::Implied,
            cycles: 4,
            len: 1,
            op: Op::Plp,
            legal: true,
        }
    } else if opcode == 41 {
        Instruction {
            name: "AND",
            mode: AddrMode::Immediate,
            cycles: 2,
            len: 2,
            op: Op::And,
            legal: true,
        }
    } else if opcode == 42 {
        Instruction {
            name: "ROL",
            mode: AddrMode::Accumulator,
            cycles: 2,
            len: 1,
            op: Op::Rol,
            legal: true,
        }
    } else if opcode == 43 {
        Instruction {
            name: "ANC",
            mode: AddrMode::Immediate,
            cycles: 2,
            len: 2,
            op: Op::Anc,
            legal: false,
        }
    } else if opcode == 44 {
        Instruction {
            name: "BIT",
            mode: AddrMode::Absolute,
            cycles: 4,
            len: 3,
            op: Op::Bit,
            legal: true,
        }
    } else if opcode == 45 {
        Instruction {
            name: "AND",
            mode: AddrMode::Absolute,
            cycles: 4,
            len: 3,
            op: Op::And,
            legal: true,
        }
    } else if opcode == 46 {
        Instruction {
            name: "ROL",
            mode: AddrMode::Absolute,
            cycles: 6,
            len: 3,
            op: Op::Rol,
            legal: true,
        }
    } else if opcode == 47 {
        Instruction {
            name: "RLA",
            mode: AddrMode::Absolute,
            cycles: 6,
            len: 3,
            op: Op::Rla,
            legal: false,
        }
    } else if opcode == 48 {
        Instruction {
            name: "BMI",
            mode: AddrMode::Relative,
            cycles: 2,
            len: 2,
            op: Op::Bmi,
            legal: true,
        }
    } else if opcode == 49 {
        Instruction {
            name: "AND",
            mode: AddrMode::IndirectY,
            cycles: 5,
            len: 2,
            op: Op::And,
            legal: true,
        }
    } else if opcode == 50 {
        Instruction {
            name: "KIL",
            mode: AddrMode::Implied,
            cycles: 2,
            len: 1,
            op: Op::Kil,
            legal: false,
        }
    } else if opcode == 51 {
        Instruction {
            name: "RLA",
            mode: AddrMode::IndirectY,
            cycles: 8,
            len: 2,
            op: Op::Rla,
            legal: false,
        }
    } else if opcode == 52 {
        Instruction {
            name: "DOP",
            mode: AddrMode::ZeroPageX,
            cycles: 4,
            len: 2,
            op: Op::Dop,
            legal: false,
        }
    } else if opcode == 53 {
        Instruction {
            name: "AND",
            mode: AddrMode::ZeroPageX,
            cycles: 4,
            len: 2,
            op: Op::And,
            legal: true,
        }
    } else if opcode == 54 {
        Instruction {
            name: "ROL",
            mode: AddrMode::ZeroPageX,
            cycles: 6,
            len: 2,
            op: Op::Rol,
            legal: true,
        }
    } else if opcode == 55 {
        Instruction {
            name: "RLA",
            mode: AddrMode::ZeroPageX,
            cycles: 6,
            len: 2,
            op: Op::Rla,
            legal: false,
        }
    } else if opcode == 56 {
        Instruction {
            name: "SEC",
            mode: AddrMode::Implied,
            cycles: 2,
            len: 1,
            op: Op::Sec,
            legal: true,
        }
    } else if opcode == 57 {
        Instruction {
            name: "AND",
            mode: AddrMode::AbsoluteY,
            cycles: 4,
            len: 3,
            op: Op::And,
            legal: true,
        }
    } else if opcode == 58 {
        Instruction {
            name: "NOP",
            mode: AddrMode::Implied,
            cycles: 2,
            len: 1,
            op: Op::Nop,
            legal: false,
        }
    } else if opcode == 59 {
        Instruction {
            name: "RLA",
            mode: AddrMode::AbsoluteY,
            cycles: 7,
            len: 3,
            op: Op::Rla,
            legal: false,
        }
    } else if opcode == 60 {
        Instruction {
            name: "TOP",
            mode: AddrMode::AbsoluteX,
            cycles: 4,
            len: 3,
            op: Op::Top,
            legal: false,
        }
    } else if opcode == 61 {
        Instruction {
            name: "AND",
            mode: AddrMode::AbsoluteX,
            cycles: 4,
            len: 3,
            op: Op::And,
            legal: true,
        }
    } else if opcode == 62 {
        Instruction {
            name: "ROL",
            mode: AddrMode::AbsoluteX,
            cycles: 7,
            len: 3,
            op: Op::Rol,
            legal: true,
        }
    } else if opcode == 63 {
        Instruction {
            name: "RLA",
            mode: AddrMode::AbsoluteX,
            cycles: 7,
            len: 3,
            op: Op::Rla,
            legal: false,
        }
    } else if opcode == 64 {
        Instruction {
            name: "RTI",
            mode: AddrMode::Implied,
            cycles: 6,
            len: 1,
            op: Op::Rti,
            legal: true,
        }
    } else if opcode == 65 {
        Instruction {
            name: "EOR",
            mode: AddrMode::IndirectX,
            cycles: 6,
            len: 2,
            op: Op::Eor,
            legal: true,
        }
    } else if opcode == 66 {
        Instruction {
            name: "KIL",
            mode: AddrMode::Implied,
            cycles: 2,
            len: 1,
            op: Op::Kil,
            legal: false,
        }
    } else if opcode == 67 {
        Instruction {
            name: "SRE",
            mode: AddrMode::IndirectX,
            cycles: 8,
            len: 2,
            op: Op::Sre,
            legal: false,
        }
    } else if opcode == 68 {
        Instruction {
            name: "DOP",
            mode: AddrMode::ZeroPage,
            cycles: 3,
            len: 2,
            op: Op::Dop,
            legal: false,
        }
    } else if opcode == 69 {
        Instruction {
            name: "EOR",
            mode: AddrMode::ZeroPage,
            cycles: 3,
            len: 2,
            op: Op::Eor,
            legal: true,
        }
    } else if opcode == 70 {
        Instruction {
            name: "LSR",
            mode: AddrMode::ZeroPage,
            cycles: 5,
            len: 2,
            op: Op::Lsr,
            legal: true,
        }
    } else if opcode == 71 {
        Instruction {
            name: "SRE",
            mode: AddrMode::ZeroPage,
            cycles: 5,
            len: 2,
            op: Op::Sre,
            legal: false,
        }
    } else if opcode == 72 {
        Instruction {
            name: "PHA",
            mode: AddrMode::Implied,
            cycles: 3,
            len: 1,
            op: Op::Pha,
            legal: true,
        }
    } else if opcode == 73 {
        Instruction {
            name: "EOR",
            mode: AddrMode::Immediate,
            cycles: 2,
            len: 2,
            op: Op::Eor,
            legal: true,
        }
    } else if opcode == 74 {
        Instruction {
            name: "LSR",
            mode: AddrMode::Accumulator,
            cycles: 2,
            len: 1,
            op: Op::Lsr,
            legal: true,
        }
    } else if opcode == 75 {
        Instruction {
            name: "ASR",
            mode: AddrMode::Immediate,
            cycles: 2,
            len: 2,
            op: Op::Asr,
            legal: false,
        }
    } else if opcode == 76 {
        Instruction {
            name: "JMP",
            mode: AddrMode::Absolute,
            cycles: 3,
            len: 3,
            op: Op::Jmp,
            legal: true,
        }
    } else if opcode == 77 {
        Instruction {
            name: "EOR",
            mode: AddrMode::Absolute,
            cycles: 4,
            len: 3,
            op: Op::Eor,
            legal: true,
        }
    } else if opcode == 78 {
        Instruction {
            name: "LSR",
            mode: AddrMode::Absolute,
            cycles: 6,
            len: 3,
            op: Op::Lsr,
            legal: true,
        }
    } else if opcode == 79 {
        Instruction {
            name: "SRE",
            mode: AddrMode::Absolute,
            cycles: 6,
            len: 3,
            op: Op::Sre,
            legal: false,
        }
    } else if opcode == 80 {
        Instruction {
            name: "BVC",
            mode: AddrMode::Relative,
            cycles: 2,
            len: 2,
            op: Op::Bvc,
            legal: true,
        }
    } else if opcode == 81 {
        Instruction {
            name: "EOR",
            mode: AddrMode::IndirectY,
            cycles: 5,
            len: 2,
            op: Op::Eor,
            legal: true,
        }
    } else if opcode == 82 {
        Instruction {
            name: "KIL",
            mode: AddrMode::Implied,
            cycles: 2,
            len: 1,
            op: Op::Kil,
            legal: false,
        }
    } else if opcode == 83 {
        Instruction {
            name: "SRE",
            mode: AddrMode::IndirectY,
            cycles: 8,
            len: 2,
            op: Op::Sre,
            legal: false,
        }
    } else if opcode == 84 {
        Instruction {
            name: "DOP",
            mode: AddrMode::ZeroPageX,
            cycles: 4,
            len: 2,
            op: Op::Dop,
            legal: false,
        }
    } else if opcode == 85 {
        Instruction {
            name: "EOR",
            mode: AddrMode::ZeroPageX,
            cycles: 4,
            len: 2,
            op: Op::Eor,
            legal: true,
        }
    } else if opcode == 86 {
        Instruction {
            name: "LSR",
            mode: AddrMode::ZeroPageX,
            cycles: 6,
            len: 2,
            op: Op::Lsr,
            legal: true,
        }
    } else if opcode == 87 {
        Instruction {
            name: "SRE",
            mode: AddrMode::ZeroPageX,
            cycles: 6,
            len: 2,
            op: Op::Sre,
            legal: false,
        }
    } else if opcode == 88 {
        Instruction {
            name: "CLI",
            mode: AddrMode::Implied,
            cycles: 2,
            len: 1,
            op: Op::Cli,
            legal: true,
        }
    } else if opcode == 89 {
        Instruction {
            name: "EOR",
            mode: AddrMode::AbsoluteY,
            cycles: 4,
            len: 3,
            op: Op::Eor,
            legal: true,
        }
    } else if opcode == 90 {
        Instruction {
            name: "NOP",
            mode: AddrMode::Implied,
            cycles: 2,
            len: 1,
            op: Op::Nop,
            legal: false,
        }
    } else if opcode == 91 {
        Instruction {
            name: "SRE",
            mode: AddrMode::AbsoluteY,
            cycles: 7,
            len: 3,
            op: Op::Sre,
            legal: false,
        }
    } else if opcode == 92 {
        Instruction {
            name: "TOP",
            mode: AddrMode::AbsoluteX,
            cycles: 4,
            len: 3,
            op: Op::Top,
            legal: false,
        }
    } else if opcode == 93 {
        Instruction {
            name: "EOR",
            mode: AddrMode::AbsoluteX,
            cycles: 4,
            len: 3,
            op: Op::Eor,
            legal: true,
        }
    } else if opcode == 94 {
        Instruction {
            name: "LSR",
            mode: AddrMode::AbsoluteX,
            cycles: 7,
            len: 3,
            op: Op::Lsr,
            legal: true,
        }
    } else if opcode == 95 {
        Instruction {
            name: "SRE",
            mode: AddrMode::AbsoluteX,
            cycles: 7,
            len: 3,
            op: Op::Sre,
            legal: false,
        }
    } else if opcode == 96 {
        Instruction {
            name: "RTS",
            mode: AddrMode::Implied,
            cycles: 6,
            len: 1,
            op: Op::Rts,
            legal: true,
        }
    } else if opcode == 97 {
        Instruction {
            name: "ADC",
            mode: AddrMode::IndirectX,
            cycles: 6,
            len: 2,
            op: Op::Adc,
            legal: true,
        }
    } else if opcode == 98 {
        Instruction {
            name: "KIL",
            mode: AddrMode::Implied,
            cycles: 2,
            len: 1,
            op: Op::Kil,
            legal: false,
        }
    } else if opcode == 99 {
        Instruction {
            name: "RRA",
            mode: AddrMode::IndirectX,
            cycles: 8,
            len: 2,
            op: Op::Rra,
            legal: false,
        }
    } else if opcode == 100 {
        Instruction {
            name: "DOP",
            mode: AddrMode::ZeroPage,
            cycles: 3,
            len: 2,
            op: Op::Dop,
            legal: false,
        }
    } else if opcode == 101 {
        Instruction {
            name: "ADC",
            mode: AddrMode::ZeroPage,
            cycles: 3,
            len: 2,
            op: Op::Adc,
            legal: true,
        }
    } else if opcode == 102 {
        Instruction {
            name: "ROR",
            mode: AddrMode::ZeroPage,
            cycles: 5,
            len: 2,
            op: Op::Ror,
            legal: true,
        }
    } else if opcode == 103 {
        Instruction {
            name: "RRA",
            mode: AddrMode::ZeroPage,
            cycles: 5,
            len: 2,
            op: Op::Rra,
            legal: false,
        }
    } else if opcode == 104 {
        Instruction {
            name: "PLA",
            mode: AddrMode::Implied,
            cycles: 4,
            len: 1,
            op: Op::Pla,
            legal: true,
        }
    } else if opcode == 105 {
        Instruction {
            name: "ADC",
            mode: AddrMode::Immediate,
            cycles: 2,
            len: 2,
            op: Op::Adc,
            legal: true,
        }
    } else if opcode == 106 {
        Instruction {
            name: "ROR",
            mode: AddrMode::Accumulator,
            cycles: 2,
            len: 1,
            op: Op::Ror,
            legal: true,
        }
    } else if opcode == 107 {
        Instruction {
            name: "ARR",
            mode: AddrMode::Immediate,
            cycles: 2,
            len: 2,
            op: Op::Arr,
            legal: false,
        }
    } else if opcode == 108 {
        Instruction {
            name: "JMP",
            mode: AddrMode::Indirect,
            cycles: 5,
            len: 3,
            op: Op::Jmp,
            legal: true,
        }
    } else if opcode == 109 {
        Instruction {
            name: "ADC",
            mode: AddrMode::Absolute,
            cycles: 4,
            len: 3,
            op: Op::Adc,
            legal: true,
        }
    } else if opcode == 110 {
        Instruction {
            name: "ROR",
            mode: AddrMode::Absolute,
            cycles: 6,
            len: 3,
            op: Op::Ror,
            legal: true,
        }
    } else if opcode == 111 {
        Instruction {
            name: "RRA",
            mode: AddrMode::Absolute,
            cycles: 6,
            len: 3,
            op: Op::Rra,
            legal: false,
        }
    } else if opcode == 112 {
        Instruction {
            name: "BVS",
            mode: AddrMode::Relative,
            cycles: 2,
            len: 2,
            op: Op::Bvs,
            legal: true,
        }
    } else if opcode == 113 {
        Instruction {
            name: "ADC",
            mode: AddrMode::IndirectY,
            cycles: 5,
            len: 2,
            op: Op::Adc,
            legal: true,
        }
    } else if opcode == 114 {
        Instruction {
            name: "KIL",
            mode: AddrMode::Implied,
            cycles: 2,
            len: 1,
            op: Op::Kil,
            legal: false,
        }
    } else if opcode == 115 {
        Instruction {
            name: "RRA",
            mode: AddrMode::IndirectY,
            cycles: 8,
            len: 2,
            op: Op::Rra,
            legal: false,
        }
    } else if opcode == 116 {
        Instruction {
            name: "DOP",
            mode: AddrMode::ZeroPageX,
            cycles: 4,
            len: 2,
            op: Op::Dop,
            legal: false,
        }
    } else if opcode == 117 {
        Instruction {
            name: "ADC",
            mode: AddrMode::ZeroPageX,
            cycles: 4,
            len: 2,
            op: Op::Adc,
            legal: true,
        }
    } else if opcode == 118 {
        Instruction {
            name: "ROR",
            mode: AddrMode::ZeroPageX,
            cycles: 6,
            len: 2,
            op: Op::Ror,
            legal: true,
        }
    } else if opcode == 119 {
        Instruction {
            name: "RRA",
            mode: AddrMode::ZeroPageX,
            cycles: 6,
            len: 2,
            op: Op::Rra,
            legal: false,
        }
    } else if opcode == 120 {
        Instruction {
            name: "SEI",
            mode: AddrMode::Implied,
            cycles: 2,
            len: 1,
            op: Op::Sei,
            legal: true,
        }
    } else if opcode == 121 {
        Instruction {
            name: "ADC",
            mode: AddrMode::AbsoluteY,
            cycles: 4,
            len: 3,
            op: Op::Adc,
            legal: true,
        }
    } else if opcode == 122 {
        Instruction {
            name: "NOP",
            mode: AddrMode::Implied,
            cycles: 2,
            len: 1,
            op: Op::Nop,
            legal: false,
        }
    } else if opcode == 123 {
        Instruction {
            name: "RRA",
            mode: AddrMode::AbsoluteY,
            cycles: 7,
            len: 3,
            op: Op::Rra,
            legal: false,
        }
    } else if opcode == 124 {
        Instruction {
            name: "TOP",
            mode: AddrMode::AbsoluteX,
            cycles: 4,
            len: 3,
            op: Op::Top,
            legal: false,
        }
    } else if opcode == 125 {
        Instruction {
            name: "ADC",
            mode: AddrMode::AbsoluteX,
            cycles: 4,
            len: 3,
            op: Op::Adc,
            legal: true,
        }
    } else if opcode == 126 {
        Instruction {
            name: "ROR",
            mode: AddrMode::AbsoluteX,
            cycles: 7,
            len: 3,
            op: Op::Ror,
            legal: true,
        }
    } else if opcode == 127 {
        Instruction {
            name: "RRA",
            mode: AddrMode::AbsoluteX,
            cycles: 7,
            len: 3,
            op: Op::Rra,
            legal: false,
        }
    } else if opcode == 128 {
        Instruction {
            name: "DOP",
            mode: AddrMode::Immediate,
            cycles: 2,
            len: 2,
            op: Op::Dop,
            legal: false,
        }
    } else if opcode == 129 {
        Instruction {
            name: "STA",
            mode: AddrMode::IndirectX,
            cycles: 6,
            len: 2,
            op: Op::Sta,
            legal: true,
        }
    } else if opcode == 130 {
        Instruction {
            name: "DOP",
            mode: AddrMode::Immediate,
            cycles: 2,
            len: 2,
            op: Op::Dop,
            legal: false,
        }
    } else if opcode == 131 {
        Instruction {
            name: "SAX",
            mode: AddrMode::IndirectX,
            cycles: 6,
            len: 2,
            op: Op::Sax,
            legal: false,
        }
    } else if opcode == 132 {
        Instruction {
            name: "STY",
            mode: AddrMode::ZeroPage,
            cycles: 3,
            len: 2,
            op: Op::Sty,
            legal: true,
        }
    } else if opcode == 133 {
        Instruction {
            name: "STA",
            mode: AddrMode::ZeroPage,
            cycles: 3,
            len: 2,
            op: Op::Sta,
            legal: true,
        }
    } else if opcode == 134 {
        Instruction {
            name: "STX",
            mode: AddrMode::ZeroPage,
            cycles: 3,
            len: 2,
            op: Op::Stx,
            legal: true,
        }
    } else if opcode == 135 {
        Instruction {
            name: "SAX",
            mode: AddrMode::ZeroPage,
            cycles: 3,
            len: 2,
            op: Op::Sax,
            legal: false,
        }
    } else if opcode == 136 {
        Instruction {
            name: "DEY",
            mode: AddrMode::Implied,
            cycles: 2,
            len: 1,
            op: Op::Dey,
            legal: true,
        }
    } else if opcode == 137 {
        Instruction {
            name: "DOP",
            mode: AddrMode::Immediate,
            cycles: 2,
            len: 2,
            op: Op::Dop,
            legal: false,
        }
    } else if opcode == 138 {
        Instruction {
            name: "TXA",
            mode: AddrMode::Implied,
            cycles: 2,
            len: 1,
            op: Op::Txa,
            legal: true,
        }
    } else if opcode == 139 {
        Instruction {
            name: "XAA",
            mode: AddrMode::Immediate,
            cycles: 2,
            len: 2,
            op: Op::Xaa,
            legal: false,
        }
    } else if opcode == 140 {
        Instruction {
            name: "STY",
            mode: AddrMode::Absolute,
            cycles: 4,
            len: 3,
            op: Op::Sty,
            legal: true,
        }
    } else if opcode == 141 {
        Instruction {
            name: "STA",
            mode: AddrMode::Absolute,
            cycles: 4,
            len: 3,
            op: Op::Sta,
            legal: true,
        }
    } else if opcode == 142 {
        Instruction {
            name: "STX",
            mode: AddrMode::Absolute,
            cycles: 4,
            len: 3,
            op: Op::Stx,
            legal: true,
        }
    } else if opcode == 143 {
        Instruction {
            name: "SAX",
            mode: AddrMode::Absolute,
            cycles: 4,
            len: 3,
            op: Op::Sax,
            legal: false,
        }
    } else if opcode == 144 {
        Instruction {
            name: "BCC",
            mode: AddrMode::Relative,
            cycles: 2,
            len: 2,
            op: Op::Bcc,
            legal: true,
        }
    } else if opcode == 145 {
        Instruction {
            name: "STA",
            mode: AddrMode::IndirectY,
            cycles: 6,
            len: 2,
            op: Op::Sta,
            legal: true,
        }
    } else if opcode == 146 {
        Instruction {
            name: "KIL",
            mode: AddrMode::Implied,
            cycles: 2,
            len: 1,
            op: Op::Kil,
            legal: false,
        }
    } else if opcode == 147 {
        Instruction {
            name: "AXA",
            mode: AddrMode::IndirectY,
            cycles: 6,
            len: 2,
            op: Op::Axa,
            legal: false,
        }
    } else if opcode == 148 {
        Instruction {
            name: "STY",
            mode: AddrMode::ZeroPageX,
            cycles: 4,
            len: 2,
            op: Op::Sty,
            legal: true,
        }
    } else if opcode == 149 {
        Instruction {
            name: "STA",
            mode: AddrMode::ZeroPageX,
            cycles: 4,
            len: 2,
            op: Op::Sta,
            legal: true,
        }
    } else if opcode == 150 {
        Instruction {
            name: "STX",
            mode: AddrMode::ZeroPageY,
            cycles: 4,
            len: 2,
            op: Op::Stx,
            legal: true,
        }
    } else if opcode == 151 {
        Instruction {
            name: "SAX",
            mode: AddrMode::ZeroPageY,
            cycles: 4,
            len: 2,
            op: Op::Sax,
            legal: false,
        }
    } else if opcode == 152 {
        Instruction {
            name: "TYA",
            mode: AddrMode::Implied,
            cycles: 2,
            len: 1,
            op: Op::Tya,
            legal: true,
        }
    } else if opcode == 153 {
        Instruction {
            name: "STA",
            mode: AddrMode::AbsoluteY,
            cycles: 5,
            len: 3,
            op: Op::Sta,
            legal: true,
        }
    } else if opcode == 154 {
        Instruction {
            name: "TXS",
            mode: AddrMode::Implied,
            cycles: 2,
            len: 1,
            op: Op::Txs,
            legal: true,
        }
    } else if opcode == 155 {
        Instruction {
            name: "XAS",
            mode: AddrMode::AbsoluteY,
            cycles: 5,
            len: 3,
            op: Op::Xas,
            legal: false,
        }
    } else if opcode == 156 {
        Instruction {
            name: "SYA",
            mode: AddrMode::AbsoluteX,
            cycles: 5,
            len: 3,
            op: Op::Sya,
            legal: false,
        }
    } else if opcode == 157 {
        Instruction {
            name: "STA",
            mode: AddrMode::AbsoluteX,
            cycles: 5,
            len: 3,
            op: Op::Sta,
            legal: true,
        }
    } else if opcode == 158 {
        Instruction {
            name: "SXA",
            mode: AddrMode::AbsoluteY,
            cycles: 5,
            len: 3,
            op: Op::Sxa,
            legal: false,
        }
    } else if opcode == 159 {
        Instruction {
            name: "AXA",
            mode: AddrMode::AbsoluteY,
            cycles: 5,
            len: 3,
            op: Op::Axa,
            legal: false,
        }
    } else if opcode == 160 {
        Instruction {
            name: "LDY",
            mode: AddrMode::Immediate,
            cycles: 2,
            len: 2,
            op: Op::Ldy,
            legal: true,
        }
    } else if opcode == 161 {
        Instruction {
            name: "LDA",
            mode: AddrMode::IndirectX,
            cycles: 6,
            len: 2,
            op: Op::Lda,
            legal: true,
        }
    } else if opcode == 162 {
        Instruction {
            name: "LDX",
            mode: AddrMode::Immediate,
            cycles: 2,
            len: 2,
            op: Op::Ldx,
            legal: true,
        }
    } else if opcode == 163 {
        Instruction {
            name: "LAX",
            mode: AddrMode::IndirectX,
            cycles: 6,
            len: 2,
            op: Op::Lax,
            legal: false,
        }
    } else if opcode == 164 {
        Instruction {
            name: "LDY",
            mode: AddrMode::ZeroPage,
            cycles: 3,
            len: 2,
            op: Op::Ldy,
            legal: true,
        }
    } else if opcode == 165 {
        Instruction {
            name: "LDA",
            mode: AddrMode::ZeroPage,
            cycles: 3,
            len: 2,
            op: Op::Lda,
            legal: true,
        }
    } else if opcode == 166 {
        Instruction {
            name: "LDX",
            mode: AddrMode::ZeroPage,
            cycles: 3,
            len: 2,
            op: Op::Ldx,
            legal: true,
        }
    } else if opcode == 167 {
        Instruction {
            name: "LAX",
            mode: AddrMode::ZeroPage,
            cycles: 3,
            len: 2,
            op: Op::Lax,
            legal: false,
        }
    } else if opcode == 168 {
        Instruction {
            name: "TAY",
            mode: AddrMode::Implied,
            cycles: 2,
            len: 1,
            op: Op::Tay,
            legal: true,
        }
    } else if opcode == 169 {
        Instruction {
            name: "LDA",
            mode: AddrMode::Immediate,
            cycles: 2,
            len: 2,
            op: Op::Lda,
            legal: true,
        }
    } else if opcode == 170 {
        Instruction {
            name: "TAX",
            mode: AddrMode::Implied,
            cycles: 2,
            len: 1,
            op: Op::Tax,
            legal: true,
        }
    } else if opcode == 171 {
        Instruction {
            name: "LXA",
            mode: AddrMode::Immediate,
            cycles: 2,
            len: 2,
            op: Op::Lxa,
            legal: false,
        }
    } else if opcode == 172 {
        Instruction {
            name: "LDY",
            mode: AddrMode::Absolute,
            cycles: 4,
            len: 3,
            op: Op::Ldy,
            legal: true,
        }
    } else if opcode == 173 {
        Instruction {
            name: "LDA",
            mode: AddrMode::Absolute,
            cycles: 4,
            len: 3,
            op: Op::Lda,
            legal: true,
        }
    } else if opcode == 174 {
        Instruction {
            name: "LDX",
            mode: AddrMode::Absolute,
            cycles: 4,
            len: 3,
            op: Op::Ldx,
            legal: true,
        }
    } else if opcode == 175 {
        Instruction {
            name: "LAX",
            mode: AddrMode::Absolute,
            cycles: 4,
            len: 3,
            op: Op::Lax,
            legal: false,
        }
    } else if opcode == 176 {
        Instruction {
            name: "BCS",
            mode: AddrMode::Relative,
            cycles: 2,
            len: 2,
            op: Op::Bcs,
            legal: true,
        }
    } else if opcode == 177 {
        Instruction {
            name: "LDA",
            mode: AddrMode::IndirectY,
            cycles: 5,
            len: 2,
            op: Op::Lda,
            legal: true,
        }
    } else if opcode == 178 {
        Instruction {
            name: "KIL",
            mode: AddrMode::Implied,
            cycles: 2,
            len: 1,
            op: Op::Kil,
            legal: false,
        }
    } else if opcode == 179 {
        Instruction {
            name: "LAX",
            mode: AddrMode::IndirectY,
            cycles: 5,
            len: 2,
            op: Op::Lax,
            legal: false,
        }
    } else if opcode == 180 {
        Instruction {
            name: "LDY",
            mode: AddrMode::ZeroPageX,
            cycles: 4,
            len: 2,
            op: Op::Ldy,
            legal: true,
        }
    } else if opcode == 181 {
        Instruction {
            name: "LDA",
            mode: AddrMode::ZeroPageX,
            cycles: 4,
            len: 2,
            op: Op::Lda,
            legal: true,
        }
    } else if opcode == 182 {
        Instruction {
            name: "LDX",
            mode: AddrMode::ZeroPageY,
            cycles: 4,
            len: 2,
            op: Op::Ldx,
            legal: true,
        }
    } else if opcode == 183 {
        Instruction {
            name: "LAX",
            mode: AddrMode::ZeroPageY,
            cycles: 4,
            len: 2,
            op: Op::Lax,
            legal: false,
        }
    } else if opcode == 184 {
        Instruction {
            name: "CLV",
            mode: AddrMode::Implied,
            cycles: 2,
            len: 1,
            op: Op::Clv,
            legal: true,
        }
    } else if opcode == 185 {
        Instruction {
            name: "LDA",
            mode: AddrMode::AbsoluteY,
            cycles: 4,
            len: 3,
            op: Op::Lda,
            legal: true,
        }
    } else if opcode == 186 {
        Instruction {
            name: "TSX",
            mode: AddrMode::Implied,
            cycles: 2,
            len: 1,
            op: Op::Tsx,
            legal: true,
        }
    } else if opcode == 187 {
        Instruction {
            name: "LAS",
            mode: AddrMode::AbsoluteY,
            cycles: 4,
            len: 3,
            op: Op::Las,
            legal: false,
        }
    } else if opcode == 188 {
        Instruction {
            name: "LDY",
            mode: AddrMode::AbsoluteX,
            cycles: 4,
            len: 3,
            op: Op::Ldy,
            legal: true,
        }
    } else if opcode == 189 {
        Instruction {
            name: "LDA",
            mode: AddrMode::AbsoluteX,
            cycles: 4,
            len: 3,
            op: Op::Lda,
            legal: true,
        }
    } else if opcode == 190 {
        Instruction {
            name: "LDX",
            mode: AddrMode::AbsoluteY,
            cycles: 4,
            len: 3,
            op: Op::Ldx,
            legal: true,
        }
    } else if opcode == 191 {
        Instruction {
            name: "LAX",
            mode: AddrMode::AbsoluteY,
            cycles: 4,
            len: 3,
            op: Op::Lax,
            legal: false,
        }
    } else if opcode == 192 {
        Instruction {
            name: "CPY",
            mode: AddrMode::Immediate,
            cycles: 2,
            len: 2,
            op: Op::Cpy,
            legal: true,
        }
    } else if opcode == 193 {
        Instruction {
            name: "CMP",
            mode: AddrMode::IndirectX,
            cycles: 6,
            len: 2,
            op: Op::Cmp,
            legal: true,
        }
    } else if opcode == 194 {
        Instruction {
            name: "DOP",
            mode: AddrMode::Immediate,
            cycles: 2,
            len: 2,
            op: Op::Dop,
            legal: false,
        }
    } else if opcode == 195 {
        Instruction {
            name: "DCP",
            mode: AddrMode::IndirectX,
            cycles: 8,
            len: 2,
            op: Op::Dcp,
            legal: false,
        }
    } else if opcode == 196 {
        Instruction {
            name: "CPY",
            mode: AddrMode::ZeroPage,
            cycles: 3,
            len: 2,
            op: Op::Cpy,
            legal: true,
        }
    } else if opcode == 197 {
        Instruction {
            name: "CMP",
            mode: AddrMode::ZeroPage,
            cycles: 3,
            len: 2,
            op: Op::Cmp,
            legal: true,
        }
    } else if opcode == 198 {
        Instruction {
            name: "DEC",
            mode: AddrMode::ZeroPage,
            cycles: 5,
            len: 2,
            op: Op::Dec,
            legal: true,
        }
    } else if opcode == 199 {
        Instruction {
            name: "DCP",
            mode: AddrMode::ZeroPage,
            cycles: 5,
            len: 2,
            op: Op::Dcp,
            legal: false,
        }
    } else if opcode == 200 {
        Instruction {
            name: "INY",
            mode: AddrMode::Implied,
            cycles: 2,
            len: 1,
            op: Op::Iny,
            legal: true,
        }
    } else if opcode == 201 {
        Instruction {
            name: "CMP",
            mode: AddrMode::Immediate,
            cycles: 2,
            len: 2,
            op: Op::Cmp,
            legal: true,
        }
    } else if opcode == 202 {
        Instruction {
            name: "DEX",
            mode: AddrMode::Implied,
            cycles: 2,
            len: 1,
            op: Op::Dex,
            legal: true,
        }
    } else if opcode == 203 {
        Instruction {
            name: "AXS",
            mode: AddrMode::Immediate,
            cycles: 2,
            len: 2,
            op: Op::Axs,
            legal: false,
        }
    } else if opcode == 204 {
        Instruction {
            name: "CPY",
            mode: AddrMode::Absolute,
            cycles: 4,
            len: 3,
            op: Op::Cpy,
            legal: true,
        }
    } else if opcode == 205 {
        Instruction {
            name: "CMP",
            mode: AddrMode::Absolute,
            cycles: 4,
            len: 3,
            op: Op::Cmp,
            legal: true,
        }
    } else if opcode == 206 {
        Instruction {
            name: "DEC",
            mode: AddrMode::Absolute,
            cycles: 6,
            len: 3,
            op: Op::Dec,
            legal: true,
        }
    } else if opcode == 207 {
        Instruction {
            name: "DCP",
            mode: AddrMode::Absolute,
            cycles: 6,
            len: 3,
            op: Op::Dcp,
            legal: false,
        }
    } else if opcode == 208 {
        Instruction {
            name: "BNE",
            mode: AddrMode::Relative,
            cycles: 2,
            len: 2,
            op: Op::Bne,
            legal: true,
        }
    } else if opcode == 209 {
        Instruction {
            name: "CMP",
            mode: AddrMode::IndirectY,
            cycles: 5,
            len: 2,
            op: Op::Cmp,
            legal: true,
        }
    } else if opcode == 210 {
        Instruction {
            name: "KIL",
            mode: AddrMode::Implied,
            cycles: 2,
            len: 1,
            op: Op::Kil,
            legal: false,
        }
    } else if opcode == 211 {
        Instruction {
            name: "DCP",
            mode: AddrMode::IndirectY,
            cycles: 8,
            len: 2,
            op: Op::Dcp,
            legal: false,
        }
    } else if opcode == 212 {
        Instruction {
            name: "DOP",
            mode: AddrMode::ZeroPageX,
            cycles: 4,
            len: 2,
            op: Op::Dop,
            legal: false,
        }
    } else if opcode == 213 {
        Instruction {
            name: "CMP",
            mode: AddrMode::ZeroPageX,
            cycles: 4,
            len: 2,
            op: Op::Cmp,
            legal: true,
        }
    } else if opcode == 214 {
        Instruction {
            name: "DEC",
            mode: AddrMode::ZeroPageX,
            cycles: 6,
            len: 2,
            op: Op::Dec,
            legal: true,
        }
    } else if opcode == 215 {
        Instruction {
            name: "DCP",
            mode: AddrMode::ZeroPageX,
            cycles: 6,
            len: 2,
            op: Op::Dcp,
            legal: false,
        }
    } else if opcode == 216 {
        Instruction {
            name: "CLD",
            mode: AddrMode::Implied,
            cycles: 2,
            len: 1,
            op: Op::Cld,
            legal: true,
        }
    } else if opcode == 217 {
        Instruction {
            name: "CMP",
            mode: AddrMode::AbsoluteY,
            cycles: 4,
            len: 3,
            op: Op::Cmp,
            legal: true,
        }
    } else if opcode == 218 {
        Instruction {
            name: "NOP",
            mode: AddrMode::Implied,
            cycles: 2,
            len: 1,
            op: Op::Nop,
            legal: false,
        }
    } else if opcode == 219 {
        Instruction {
            name: "DCP",
            mode: AddrMode::AbsoluteY,
            cycles: 7,
            len: 3,
            op: Op::Dcp,
            legal: false,
        }
    } else if opcode == 220 {
        Instruction {
            name: "TOP",
            mode: AddrMode::AbsoluteX,
            cycles: 4,
            len: 3,
            op: Op::Top,
            legal: false,
        }
    } else if opcode == 221 {
        Instruction {
            name: "CMP",
            mode: AddrMode::AbsoluteX,
            cycles: 4,
            len: 3,
            op: Op::Cmp,
            legal: true,
        }
    } else if opcode == 222 {
        Instruction {
            name: "DEC",
            mode: AddrMode::AbsoluteX,
            cycles: 7,
            len: 3,
            op: Op::Dec,
            legal: true,
        }
    } else if opcode == 223 {
        Instruction {
            name: "DCP",
            mode: AddrMode::AbsoluteX,
            cycles: 7,
            len: 3,
            op: Op::Dcp,
            legal: false,
        }
    } else if opcode == 224 {
        Instruction {
            name: "CPX",
            mode: AddrMode::Immediate,
            cycles: 2,
            len: 2,
            op: Op::Cpx,
            legal: true,
        }
    } else if opcode == 225 {
        Instruction {
            name: "SBC",
            mode: AddrMode::IndirectX,
            cycles: 6,
            len: 2,
            op: Op::Sbc,
            legal: true,
        }
    } else if opcode == 226 {
        Instruction {
            name: "DOP",
            mode: AddrMode::Immediate,
            cycles: 2,
            len: 2,
            op: Op::Dop,
            legal: false,
        }
    } else if opcode == 227 {
        Instruction {
            name: "ISB",
            mode: AddrMode::IndirectX,
            cycles: 8,
            len: 2,
            op: Op::Isb,
            legal: false,
        }
    } else if opcode == 228 {
        Instruction {
            name: "CPX",
            mode: AddrMode::ZeroPage,
            cycles: 3,
            len: 2,
            op: Op::Cpx,
            legal: true,
        }
    } else if opcode == 229 {
        Instruction {
            name: "SBC",
            mode: AddrMode::ZeroPage,
            cycles: 3,
            len: 2,
            op: Op::Sbc,
            legal: true,
        }
    } else if opcode == 230 {
        Instruction {
            name: "INC",
            mode: AddrMode::ZeroPage,
            cycles: 5,
            len: 2,
            op: Op::Inc,
            legal: true,
        }
    } else if opcode == 231 {
        Instruction {
            name: "ISB",
            mode: AddrMode::ZeroPage,
            cycles: 5,
            len: 2,
            op: Op::Isb,
            legal: false,
        }
    } else if opcode == 232 {
        Instruction {
            name: "INX",
            mode: AddrMode::Implied,
            cycles: 2,
            len: 1,
            op: Op::Inx,
            legal: true,
        }
    } else if opcode == 233 {
        Instruction {
            name: "SBC",
            mode: AddrMode::Immediate,
            cycles: 2,
            len: 2,
            op: Op::Sbc,
            legal: true,
        }
    } else if opcode == 234 {
        Instruction {
            name: "NOP",
            mode: AddrMode::Implied,
            cycles: 2,
            len: 1,
            op: Op::Nop,
            legal: true,
        }
    } else if opcode == 235 {
        Instruction {
            name: "SBC",
            mode: AddrMode::Immediate,
            cycles: 2,
            len: 2,
            op: Op::Sbc,
            legal: false,
        }
    } else if opcode == 236 {
        Instruction {
            name: "CPX",
            mode: AddrMode::Absolute,
            cycles: 4,
            len: 3,
            op: Op::Cpx,
            legal: true,
        }
    } else if opcode == 237 {
        Instruction {
            name: "SBC",
            mode: AddrMode::Absolute,
            cycles: 4,
            len: 3,
            op: Op::Sbc,
            legal: true,
        }
    } else if opcode == 238 {
        Instruction {
            name: "INC",
            mode: AddrMode::Absolute,
            cycles: 6,
            len: 3,
            op: Op::Inc,
            legal: true,
        }
    } else if opcode == 239 {
        Instruction {
            name: "ISB",
            mode: AddrMode::Absolute,
            cycles: 6,
            len: 3,
            op: Op::Isb,
            legal: false,
        }
    } else if opcode == 240 {
        Instruction {
            name: "BEQ",
            mode: AddrMode::Relative,
            cycles: 2,
            len: 2,
            op: Op::Beq,
            legal: true,
        }
    } else if opcode == 241 {
        Instruction {
            name: "SBC",
            mode: AddrMode::IndirectY,
            cycles: 5,
            len: 2,
            op: Op::Sbc,
            legal: true,
        }
    } else if opcode == 242 {
        Instruction {
            name: "KIL",
            mode: AddrMode::Implied,
            cycles: 2,
            len: 1,
            op: Op::Kil,
            legal: false,
        }
    } else if opcode == 243 {
        Instruction {
            name: "ISB",
            mode: AddrMode::IndirectY,
            cycles: 8,
            len: 2,
            op: Op::Isb,
            legal: false,
        }
    } else if opcode == 244 {
        Instruction {
            name: "DOP",
            mode: AddrMode::ZeroPageX,
            cycles: 4,
            len: 2,
            op: Op::Dop,
            legal: false,
        }
    } else if opcode == 245 {
        Instruction {
            name: "SBC",
            mode: AddrMode::ZeroPageX,
            cycles: 4,
            len: 2,
            op: Op::Sbc,
            legal: true,
        }
    } else if opcode == 246 {
        Instruction {
            name: "INC",
            mode: AddrMode::ZeroPageX,
            cycles: 6,
            len: 2,
            op: Op::Inc,
            legal: true,
        }
    } else if opcode == 247 {
        Instruction {
            name: "ISB",
            mode: AddrMode::ZeroPageX,
            cycles: 6,
            len: 2,
            op: Op::Isb,
            legal: false,
        }
    } else if opcode == 248 {
        Instruction {
            name: "SED",
            mode: AddrMode::Implied,
            cycles: 2,
            len: 1,
            op: Op::Sed,
            legal: true,
        }
    } else if opcode == 249 {
        Instruction {
            name: "SBC",
            mode: AddrMode::AbsoluteY,
            cycles: 4,
            len: 3,
            op: Op::Sbc,
            legal: true,
        }
    } else if opcode == 250 {
        Instruction {
            name: "NOP",
            mode: AddrMode::Implied,
            cycles: 2,
            len: 1,
            op: Op::Nop,
            legal: false,
        }
    } else if opcode == 251 {
        Instruction {
            name: "ISB",
            mode: AddrMode::AbsoluteY,
            cycles: 7,
            len: 3,
            op: Op::Isb,
            legal: false,
        }
    } else if opcode == 252 {
        Instruction {
            name: "TOP",
            mode: AddrMode::AbsoluteX,
            cycles: 4,
            len: 3,
            op: Op::Top,
            legal: false,
        }
    } else if opcode == 253 {
        Instruction {
            name: "SBC",
            mode: AddrMode::AbsoluteX,
            cycles: 4,
            len: 3,
            op: Op::Sbc,
            legal: true,
        }
    } else if opcode == 254 {
        Instruction {
            name: "INC",
            mode: AddrMode::AbsoluteX,
            cycles: 7,
            len: 3,
            op: Op::Inc,
            legal: true,
        }
    } else {
        Instruction {
            name: "ISB",
            mode: AddrMode::AbsoluteX,
            cycles: 7,
            len: 3,
            op: Op::Isb,
            legal: false,
        }
    }
}

/// The flat 256-entry opcode table, one row per opcode byte, exactly as
/// `spec_decode` states it.  Undocumented opcodes decode to their de facto
/// kernels and are marked illegal.
#[verifier::rlimit(100)]
#[verifier::spinoff_prover]
pub fn decode(opcode: u8) -> (r: Instruction)
    ensures
        r == spec_decode(opcode),
        r.wf(),
{
    match opcode {
        0 => Instruction {
            name: "BRK",
            mode: AddrMode::Implied,
            cycles: 7,
            len: 1,
            op: Op::Brk,
            legal: true,
        },
        1 => Instruction {
            name: "ORA",
            mode: AddrMode::IndirectX,
            cycles: 6,
            len: 2,
            op: Op::Ora,
            legal: true,
        },
        2 => Instruction {
            name: "KIL",
            mode: AddrMode::Implied,
            cycles: 2,
            len: 1,
            op: Op::Kil,
            legal: false,
        },
        3 => Instruction {
            name: "SLO",
            mode: AddrMode::IndirectX,
            cycles: 8,
            len: 2,
            op: Op::Slo,
            legal: false,
        },
        4 => Instruction {
            name: "DOP",
            mode: AddrMode::ZeroPage,
            cycles: 3,
            len: 2,
            op: Op::Dop,
            legal: false,
        },
        5 => Instruction {
            name: "ORA",
            mode: AddrMode::ZeroPage,
            cycles: 3,
            len: 2,
            op: Op::Ora,
            legal: true,
        },
        6 => Instruction {
            name: "ASL",
            mode: AddrMode::ZeroPage,
            cycles: 5,
            len: 2,
            op: Op::Asl,
            legal: true,
        },
        7 => Instruction {
            name: "SLO",
            mode: AddrMode::ZeroPage,
            cycles: 5,
            len: 2,
            op: Op::Slo,
            legal: false,
        },
        8 => Instruction {
            name: "PHP",
            mode: AddrMode::Implied,
            cycles: 3,
            len: 1,
            op: Op::Php,
            legal: true,
        },
        9 => Instruction {
            name: "ORA",
            mode: AddrMode::Immediate,
            cycles: 2,
            len: 2,
            op: Op::Ora,
            legal: true,
        },
        10 => Instruction {
            name: "ASL",
            mode: AddrMode::Accumulator,
            cycles: 2,
            len: 1,
            op: Op::Asl,
            legal: true,
        },
        11 => Instruction {
            name: "ANC",
            mode: AddrMode::Immediate,
            cycles: 2,
            len: 2,
            op: Op::Anc,
            legal: false,
        },
        12 => Instruction {
            name: "TOP",
            mode: AddrMode::Absolute,
            cycles: 4,
            len: 3,
            op: Op::Top,
            legal: false,
        },
        13 => Instruction {
            name: "ORA",
            mode: AddrMode::Absolute,
            cycles: 4,
            len: 3,
            op: Op::Ora,
            legal: true,
        },
        14 => Instruction {
            name: "ASL",
            mode: AddrMode::Absolute,
            cycles: 6,
            len: 3,
            op: Op::Asl,
            legal: true,
        },
        15 => Instruction {
            name: "SLO",
            mode: AddrMode::Absolute,
            cycles: 6,
            len: 3,
            op: Op::Slo,
            legal: false,
        },
        16 => Instruction {
            name: "BPL",
            mode: AddrMode::Relative,
            cycles: 2,
            len: 2,
            op: Op::Bpl,
            legal: true,
        },
        17 => Instruction {
            name: "ORA",
            mode: AddrMode::IndirectY,
            cycles: 5,
            len: 2,
            op: Op::Ora,
            legal: true,
        },
        18 => Instruction {
            name: "KIL",
            mode: AddrMode::Implied,
            cycles: 2,
            len: 1,
            op: Op::Kil,
            legal: false,
        },
        19 => Instruction {
            name: "SLO",
            mode: AddrMode::IndirectY,
            cycles: 8,
            len: 2,
            op: Op::Slo,
            legal: false,
        },
        20 => Instruction {
            name: "DOP",
            mode: AddrMode::ZeroPageX,
            cycles: 4,
            len: 2,
            op: Op::Dop,
            legal: false,
        },
        21 => Instruction {
            name: "ORA",
            mode: AddrMode::ZeroPageX,
            cycles: 4,
            len: 2,
            op: Op::Ora,
            legal: true,
        },
        22 => Instruction {
            name: "ASL",
            mode: AddrMode::ZeroPageX,
            cycles: 6,
            len: 2,
            op: Op::Asl,
            legal: true,
        },
        23 => Instruction {
            name: "SLO",
            mode: AddrMode::ZeroPageX,
            cycles: 6,
            len: 2,
            op: Op::Slo,
            legal: false,
        },
        24 => Instruction {
            name: "CLC",
            mode: AddrMode::Implied,
            cycles: 2,
            len: 1,
            op: Op::Clc,
            legal: true,
        },
        25 => Instruction {
            name: "ORA",
            mode: AddrMode::AbsoluteY,
            cycles: 4,
            len: 3,
            op: Op::Ora,
            legal: true,
        },
        26 => Instruction {
            name: "NOP",
            mode: AddrMode::Implied,
            cycles: 2,
            len: 1,
            op: Op::Nop,
            legal: false,
        },
        27 => Instruction {
            name: "SLO",
            mode: AddrMode::AbsoluteY,
            cycles: 7,
            len: 3,
            op: Op::Slo,
            legal: false,
        },
        28 => Instruction {
            name: "TOP",
            mode: AddrMode::AbsoluteX,
            cycles: 4,
            len: 3,
            op: Op::Top,
            legal: false,
        },
        29 => Instruction {
            name: "ORA",
            mode: AddrMode::AbsoluteX,
            cycles: 4,
            len: 3,
            op: Op::Ora,
            legal: true,
        },
        30 => Instruction {
            name: "ASL",
            mode: AddrMode::AbsoluteX,
            cycles: 7,
            len: 3,
            op: Op::Asl,
            legal: true,
        },
        31 => Instruction {
            name: "SLO",
            mode: AddrMode::AbsoluteX,
            cycles: 7,
            len: 3,
            op: Op::Slo,
            legal: false,
        },
        32 => Instruction {
            name: "JSR",
            mode: AddrMode::Absolute,
            cycles: 6,
            len: 3,
            op: Op::Jsr,
            legal: true,
        },
        33 => Instruction {
            name: "AND",
            mode: AddrMode::IndirectX,
            cycles: 6,
            len: 2,
            op: Op::And,
            legal: true,
        },
        34 => Instruction {
            name: "KIL",
            mode: AddrMode::Implied,
            cycles: 2,
            len: 1,
            op: Op::Kil,
            legal: false,
        },
        35 => Instruction {
            name: "RLA",
            mode: AddrMode::IndirectX,
            cycles: 8,
            len: 2,
            op: Op::Rla,
            legal: false,
        },
        36 => Instruction {
            name: "BIT",
            mode: AddrMode::ZeroPage,
            cycles: 3,
            len: 2,
            op: Op::Bit,
            legal: true,
        },
        37 => Instruction {
            name: "AND",
            mode: AddrMode::ZeroPage,
            cycles: 3,
            len: 2,
            op: Op::And,
            legal: true,
        },
        38 => Instruction {
            name: "ROL",
            mode: AddrMode::ZeroPage,
            cycles: 5,
            len: 2,
            op: Op::Rol,
            legal: true,
        },
        39 => Instruction {
            name: "RLA",
            mode: AddrMode::ZeroPage,
            cycles: 5,
            len: 2,
            op: Op::Rla,
            legal: false,
        },
        40 => Instruction {
            name: "PLP",
            mode: AddrMode::Implied,
            cycles: 4,
            len: 1,
            op: Op::Plp,
            legal: true,
        },
        41 => Instruction {
            name: "AND",
            mode: AddrMode::Immediate,
            cycles: 2,
            len: 2,
            op: Op::And,
            legal: true,
        },
        42 => Instruction {
            name: "ROL",
            mode: AddrMode::Accumulator,
            cycles: 2,
            len: 1,
            op: Op::Rol,
            legal: true,
        },
        43 => Instruction {
            name: "ANC",
            mode: AddrMode::Immediate,
            cycles: 2,
            len: 2,
            op: Op::Anc,
            legal: false,
        },
        44 => Instruction {
            name: "BIT",
            mode: AddrMode::Absolute,
            cycles: 4,
            len: 3,
            op: Op::Bit,
            legal: true,
        },
        45 => Instruction {
            name: "AND",
            mode: AddrMode::Absolute,
            cycles: 4,
            len: 3,
            op: Op::And,
            legal: true,
        },
        46 => Instruction {
            name: "ROL",
            mode: AddrMode::Absolute,
            cycles: 6,
            len: 3,
            op: Op::Rol,
            legal: true,
        },
        47 => Instruction {
            name: "RLA",
            mode: AddrMode::Absolute,
            cycles: 6,
            len: 3,
            op: Op::Rla,
            legal: false,
        },
        48 => Instruction {
            name: "BMI",
            mode: AddrMode::Relative,
            cycles: 2,
            len: 2,
            op: Op::Bmi,
            legal: true,
        },
        49 => Instruction {
            name: "AND",
            mode: AddrMode::IndirectY,
            cycles: 5,
            len: 2,
            op: Op::And,
            legal: true,
        },
        50 => Instruction {
            name: "KIL",
            mode: AddrMode::Implied,
            cycles: 2,
            len: 1,
            op: Op::Kil,
            legal: false,
        },
        51 => Instruction {
            name: "RLA",
            mode: AddrMode::IndirectY,
            cycles: 8,
            len: 2,
            op: Op::Rla,
            legal: false,
        },
        52 => Instruction {
            name: "DOP",
            mode: AddrMode::ZeroPageX,
            cycles: 4,
            len: 2,
            op: Op::Dop,
            legal: false,
        },
        53 => Instruction {
            name: "AND",
            mode: AddrMode::ZeroPageX,
            cycles: 4,
            len: 2,
            op: Op::And,
            legal: true,
        },
        54 => Instruction {
            name: "ROL",
            mode: AddrMode::ZeroPageX,
            cycles: 6,
            len: 2,
            op: Op::Rol,
            legal: true,
        },
        55 => Instruction {
            name: "RLA",
            mode: AddrMode::ZeroPageX,
            cycles: 6,
            len: 2,
            op: Op::Rla,
            legal: false,
        },
        56 => Instruction {
            name: "SEC",
            mode: AddrMode::Implied,
            cycles: 2,
            len: 1,
            op: Op::Sec,
            legal: true,
        },
        57 => Instruction {
            name: "AND",
            mode: AddrMode::AbsoluteY,
            cycles: 4,
            len: 3,
            op: Op::And,
            legal: true,
        },
        58 => Instruction {
            name: "NOP",
            mode: AddrMode::Implied,
            cycles: 2,
            len: 1,
            op: Op::Nop,
            legal: false,
        },
        59 => Instruction {
            name: "RLA",
            mode: AddrMode::AbsoluteY,
            cycles: 7,
            len: 3,
            op: Op::Rla,
            legal: false,
        },
        60 => Instruction {
            name: "TOP",
            mode: AddrMode::AbsoluteX,
            cycles: 4,
            len: 3,
            op: Op::Top,
            legal: false,
        },
        61 => Instruction {
            name: "AND",
            mode: AddrMode::AbsoluteX,
            cycles: 4,
            len: 3,
            op: Op::And,
            legal: true,
        },
        62 => Instruction {
            name: "ROL",
            mode: AddrMode::AbsoluteX,
            cycles: 7,
            len: 3,
            op: Op::Rol,
            legal: true,
        },
        63 => Instruction {
            name: "RLA",
            mode: AddrMode::AbsoluteX,
            cycles: 7,
            len: 3,
            op: Op::Rla,
            legal: false,
        },
        64 => Instruction {
            name: "RTI",
            mode: AddrMode::Implied,
            cycles: 6,
            len: 1,
            op: Op::Rti,
            legal: true,
        },
        65 => Instruction {
            name: "EOR",
            mode: AddrMode::IndirectX,
            cycles: 6,
            len: 2,
            op: Op::Eor,
            legal: true,
        },
        66 => Instruction {
            name: "KIL",
            mode: AddrMode::Implied,
            cycles: 2,
            len: 1,
            op: Op::Kil,
            legal: false,
        },
        67 => Instruction {
            name: "SRE",
            mode: AddrMode::IndirectX,
            cycles: 8,
            len: 2,
            op: Op::Sre,
            legal: false,
        },
        68 => Instruction {
            name: "DOP",
            mode: AddrMode::ZeroPage,
            cycles: 3,
            len: 2,
            op: Op::Dop,
            legal: false,
        },
        69 => Instruction {
            name: "EOR",
            mode: AddrMode::ZeroPage,
            cycles: 3,
            len: 2,
            op: Op::Eor,
            legal: true,
        },
        70 => Instruction {
            name: "LSR",
            mode: AddrMode::ZeroPage,
            cycles: 5,
            len: 2,
            op: Op::Lsr,
            legal: true,
        },
        71 => Instruction {
            name: "SRE",
            mode: AddrMode::ZeroPage,
            cycles: 5,
            len: 2,
            op: Op::Sre,
            legal: false,
        },
        72 => Instruction {
            name: "PHA",
            mode: AddrMode::Implied,
            cycles: 3,
            len: 1,
            op: Op::Pha,
            legal: true,
        },
        73 => Instruction {
            name: "EOR",
            mode: AddrMode::Immediate,
            cycles: 2,
            len: 2,
            op: Op::Eor,
            legal: true,
        },
        74 => Instruction {
            name: "LSR",
            mode: AddrMode::Accumulator,
            cycles: 2,
            len: 1,
            op: Op::Lsr,
            legal: true,
        },
        75 => Instruction {
            name: "ASR",
            mode: AddrMode::Immediate,
            cycles: 2,
            len: 2,
            op: Op::Asr,
            legal: false,
        },
        76 => Instruction {
            name: "JMP",
            mode: AddrMode::Absolute,
            cycles: 3,
            len: 3,
            op: Op::Jmp,
            legal: true,
        },
        77 => Instruction {
            name: "EOR",
            mode: AddrMode::Absolute,
            cycles: 4,
            len: 3,
            op: Op::Eor,
            legal: true,
        },
        78 => Instruction {
            name: "LSR",
            mode: AddrMode::Absolute,
            cycles: 6,
            len: 3,
            op: Op::Lsr,
            legal: true,
        },
        79 => Instruction {
            name: "SRE",
            mode: AddrMode::Absolute,
            cycles: 6,
            len: 3,
            op: Op::Sre,
            legal: false,
        },
        80 => Instruction {
            name: "BVC",
            mode: AddrMode::Relative,
            cycles: 2,
            len: 2,
            op: Op::Bvc,
            legal: true,
        },
        81 => Instruction {
            name: "EOR",
            mode: AddrMode::IndirectY,
            cycles: 5,
            len: 2,
            op: Op::Eor,
            legal: true,
        },
        82 => Instruction {
            name: "KIL",
            mode: AddrMode::Implied,
            cycles: 2,
            len: 1,
            op: Op::Kil,
            legal: false,
        },
        83 => Instruction {
            name: "SRE",
            mode: AddrMode::IndirectY,
            cycles: 8,
            len: 2,
            op: Op::Sre,
            legal: false,
        },
        84 => Instruction {
            name: "DOP",
            mode: AddrMode::ZeroPageX,
            cycles: 4,
            len: 2,
            op: Op::Dop,
            legal: false,
        },
        85 => Instruction {
            name: "EOR",
            mode: AddrMode::ZeroPageX,
            cycles: 4,
            len: 2,
            op: Op::Eor,
            legal: true,
        },
        86 => Instruction {
            name: "LSR",
            mode: AddrMode::ZeroPageX,
            cycles: 6,
            len: 2,
            op: Op::Lsr,
            legal: true,
        },
        87 => Instruction {
            name: "SRE",
            mode: AddrMode::ZeroPageX,
            cycles: 6,
            len: 2,
            op: Op::Sre,
            legal: false,
        },
        88 => Instruction {
            name: "CLI",
            mode: AddrMode::Implied,
            cycles: 2,
            len: 1,
            op: Op::Cli,
            legal: true,
        },
        89 => Instruction {
            name: "EOR",
            mode: AddrMode::AbsoluteY,
            cycles: 4,
            len: 3,
            op: Op::Eor,
            legal: true,
        },
        90 => Instruction {
            name: "NOP",
            mode: AddrMode::Implied,
            cycles: 2,
            len: 1,
            op: Op::Nop,
            legal: false,
        },
        91 => Instruction {
            name: "SRE",
            mode: AddrMode::AbsoluteY,
            cycles: 7,
            len: 3,
            op: Op::Sre,
            legal: false,
        },
        92 => Instruction {
            name: "TOP",
            mode: AddrMode::AbsoluteX,
            cycles: 4,
            len: 3,
            op: Op::Top,
            legal: false,
        },
        93 => Instruction {
            name: "EOR",
            mode: AddrMode::AbsoluteX,
            cycles: 4,
            len: 3,
            op: Op::Eor,
            legal: true,
        },
        94 => Instruction {
            name: "LSR",
            mode: AddrMode::AbsoluteX,
            cycles: 7,
            len: 3,
            op: Op::Lsr,
            legal: true,
        },
        95 => Instruction {
            name: "SRE",
            mode: AddrMode::AbsoluteX,
            cycles: 7,
            len: 3,
            op: Op::Sre,
            legal: false,
        },
        96 => Instruction {
            name: "RTS",
            mode: AddrMode::Implied,
            cycles: 6,
            len: 1,
            op: Op::Rts,
            legal: true,
        },
        97 => Instruction {
            name: "ADC",
            mode: AddrMode::IndirectX,
            cycles: 6,
            len: 2,
            op: Op::Adc,
            legal: true,
        },
        98 => Instruction {
            name: "KIL",
            mode: AddrMode::Implied,
            cycles: 2,
            len: 1,
            op: Op::Kil,
            legal: false,
        },
        99 => Instruction {
            name: "RRA",
            mode: AddrMode::IndirectX,
            cycles: 8,
            len: 2,
            op: Op::Rra,
            legal: false,
        },
        100 => Instruction {
            name: "DOP",
            mode: AddrMode::ZeroPage,
            cycles: 3,
            len: 2,
            op: Op::Dop,
            legal: false,
        },
        101 => Instruction {
            name: "ADC",
            mode: AddrMode::ZeroPage,
            cycles: 3,
            len: 2,
            op: Op::Adc,
            legal: true,
        },
        102 => Instruction {
            name: "ROR",
            mode: AddrMode::ZeroPage,
            cycles: 5,
            len: 2,
            op: Op::Ror,
            legal: true,
        },
        103 => Instruction {
            name: "RRA",
            mode: AddrMode::ZeroPage,
            cycles: 5,
            len: 2,
            op: Op::Rra,
            legal: false,
        },
        104 => Instruction {
            name: "PLA",
            mode: AddrMode::Implied,
            cycles: 4,
            len: 1,
            op: Op::Pla,
            legal: true,
        },
        105 => Instruction {
            name: "ADC",
            mode: AddrMode::Immediate,
            cycles: 2,
            len: 2,
            op: Op::Adc,
            legal: true,
        },
        106 => Instruction {
            name: "ROR",
            mode: AddrMode::Accumulator,
            cycles: 2,
            len: 1,
            op: Op::Ror,
            legal: true,
        },
        107 => Instruction {
            name: "ARR",
            mode: AddrMode::Immediate,
            cycles: 2,
            len: 2,
            op: Op::Arr,
            legal: false,
        },
        108 => Instruction {
            name: "JMP",
            mode: AddrMode::Indirect,
            cycles: 5,
            len: 3,
            op: Op::Jmp,
            legal: true,
        },
        109 => Instruction {
            name: "ADC",
            mode: AddrMode::Absolute,
            cycles: 4,
            len: 3,
            op: Op::Adc,
            legal: true,
        },
        110 => Instruction {
            name: "ROR",
            mode: AddrMode::Absolute,
            cycles: 6,
            len: 3,
            op: Op::Ror,
            legal: true,
        },
        111 => Instruction {
            name: "RRA",
            mode: AddrMode::Absolute,
            cycles: 6,
            len: 3,
            op: Op::Rra,
            legal: false,
        },
        112 => Instruction {
            name: "BVS",
            mode: AddrMode::Relative,
            cycles: 2,
            len: 2,
            op: Op::Bvs,
            legal: true,
        },
        113 => Instruction {
            name: "ADC",
            mode: AddrMode::IndirectY,
            cycles: 5,
            len: 2,
            op: Op::Adc,
            legal: true,
        },
        114 => Instruction {
            name: "KIL",
            mode: AddrMode::Implied,
            cycles: 2,
            len: 1,
            op: Op::Kil,
            legal: false,
        },
        115 => Instruction {
            name: "RRA",
            mode: AddrMode::IndirectY,
            cycles: 8,
            len: 2,
            op: Op::Rra,
            legal: false,
        },
        116 => Instruction {
            name: "DOP",
            mode: AddrMode::ZeroPageX,
            cycles: 4,
            len: 2,
            op: Op::Dop,
            legal: false,
        },
        117 => Instruction {
            name: "ADC",
            mode: AddrMode::ZeroPageX,
            cycles: 4,
            len: 2,
            op: Op::Adc,
            legal: true,
        },
        118 => Instruction {
            name: "ROR",
            mode: AddrMode::ZeroPageX,
            cycles: 6,
            len: 2,
            op: Op::Ror,
            legal: true,
        },
        119 => Instruction {
            name: "RRA",
            mode: AddrMode::ZeroPageX,
            cycles: 6,
            len: 2,
            op: Op::Rra,
            legal: false,
        },
        120 => Instruction {
            name: "SEI",
            mode: AddrMode::Implied,
            cycles: 2,
            len: 1,
            op: Op::Sei,
            legal: true,
        },
        121 => Instruction {
            name: "ADC",
            mode: AddrMode::AbsoluteY,
            cycles: 4,
            len: 3,
            op: Op::Adc,
            legal: true,
        },
        122 => Instruction {
            name: "NOP",
            mode: AddrMode::Implied,
            cycles: 2,
            len: 1,
            op: Op::Nop,
            legal: false,
        },
        123 => Instruction {
            name: "RRA",
            mode: AddrMode::AbsoluteY,
            cycles: 7,
            len: 3,
            op: Op::Rra,
            legal: false,
        },
        124 => Instruction {
            name: "TOP",
            mode: AddrMode::AbsoluteX,
            cycles: 4,
            len: 3,
            op: Op::Top,
            legal: false,
        },
        125 => Instruction {
            name: "ADC",
            mode: AddrMode::AbsoluteX,
            cycles: 4,
            len: 3,
            op: Op::Adc,
            legal: true,
        },
        126 => Instruction {
            name: "ROR",
            mode: AddrMode::AbsoluteX,
            cycles: 7,
            len: 3,
            op: Op::Ror,
            legal: true,
        },
        127 => Instruction {
            name: "RRA",
            mode: AddrMode::AbsoluteX,
            cycles: 7,
            len: 3,
            op: Op::Rra,
            legal: false,
        },
        128 => Instruction {
            name: "DOP",
            mode: AddrMode::Immediate,
            cycles: 2,
            len: 2,
            op: Op::Dop,
            legal: false,
        },
        129 => Instruction {
            name: "STA",
            mode: AddrMode::IndirectX,
            cycles: 6,
            len: 2,
            op: Op::Sta,
            legal: true,
        },
        130 => Instruction {
            name: "DOP",
            mode: AddrMode::Immediate,
            cycles: 2,
            len: 2,
            op: Op::Dop,
            legal: false,
        },
        131 => Instruction {
            name: "SAX",
            mode: AddrMode::IndirectX,
            cycles: 6,
            len: 2,
            op: Op::Sax,
            legal: false,
        },
        132 => Instruction {
            name: "STY",
            mode: AddrMode::ZeroPage,
            cycles: 3,
            len: 2,
            op: Op::Sty,
            legal: true,
        },
        133 => Instruction {
            name: "STA",
            mode: AddrMode::ZeroPage,
            cycles: 3,
            len: 2,
            op: Op::Sta,
            legal: true,
        },
        134 => Instruction {
            name: "STX",
            mode: AddrMode::ZeroPage,
            cycles: 3,
            len: 2,
            op: Op::Stx,
            legal: true,
        },
        135 => Instruction {
            name: "SAX",
            mode: AddrMode::ZeroPage,
            cycles: 3,
            len: 2,
            op: Op::Sax,
            legal: false,
        },
        136 => Instruction {
            name: "DEY",
            mode: AddrMode::Implied,
            cycles: 2,
            len: 1,
            op: Op::Dey,
            legal: true,
        },
        137 => Instruction {
            name: "DOP",
            mode: AddrMode::Immediate,
            cycles: 2,
            len: 2,
            op: Op::Dop,
            legal: false,
        },
        138 => Instruction {
            name: "TXA",
            mode: AddrMode::Implied,
            cycles: 2,
            len: 1,
            op: Op::Txa,
            legal: true,
        },
        139 => Instruction {
            name: "XAA",
            mode: AddrMode::Immediate,
            cycles: 2,
            len: 2,
            op: Op::Xaa,
            legal: false,
        },
        140 => Instruction {
            name: "STY",
            mode: AddrMode::Absolute,
            cycles: 4,
            len: 3,
            op: Op::Sty,
            legal: true,
        },
        141 => Instruction {
            name: "STA",
            mode: AddrMode::Absolute,
            cycles: 4,
            len: 3,
            op: Op::Sta,
            legal: true,
        },
        142 => Instruction {
            name: "STX",
            mode: AddrMode::Absolute,
            cycles: 4,
            len: 3,
            op: Op::Stx,
            legal: true,
        },
        143 => Instruction {
            name: "SAX",
            mode: AddrMode::Absolute,
            cycles: 4,
            len: 3,
            op: Op::Sax,
            legal: false,
        },
        144 => Instruction {
            name: "BCC",
            mode: AddrMode::Relative,
            cycles: 2,
            len: 2,
            op: Op::Bcc,
            legal: true,
        },
        145 => Instruction {
            name: "STA",
            mode: AddrMode::IndirectY,
            cycles: 6,
            len: 2,
            op: Op::Sta,
            legal: true,
        },
        146 => Instruction {
            name: "KIL",
            mode: AddrMode::Implied,
            cycles: 2,
            len: 1,
            op: Op::Kil,
            legal: false,
        },
        147 => Instruction {
            name: "AXA",
            mode: AddrMode::IndirectY,
            cycles: 6,
            len: 2,
            op: Op::Axa,
            legal: false,
        },
        148 => Instruction {
            name: "STY",
            mode: AddrMode::ZeroPageX,
            cycles: 4,
            len: 2,
            op: Op::Sty,
            legal: true,
        },
        149 => Instruction {
            name: "STA",
            mode: AddrMode::ZeroPageX,
            cycles: 4,
            len: 2,
            op: Op::Sta,
            legal: true,
        },
        150 => Instruction {
            name: "STX",
            mode: AddrMode::ZeroPageY,
            cycles: 4,
            len: 2,
            op: Op::Stx,
            legal: true,
        },
        151 => Instruction {
            name: "SAX",
            mode: AddrMode::ZeroPageY,
            cycles: 4,
            len: 2,
            op: Op::Sax,
            legal: false,
        },
        152 => Instruction {
            name: "TYA",
            mode: AddrMode::Implied,
            cycles: 2,
            len: 1,
            op: Op::Tya,
            legal: true,
        },
        153 => Instruction {
            name: "STA",
            mode: AddrMode::AbsoluteY,
            cycles: 5,
            len: 3,
            op: Op::Sta,
            legal: true,
        },
        154 => Instruction {
            name: "TXS",
            mode: AddrMode::Implied,
            cycles: 2,
            len: 1,
            op: Op::Txs,
            legal: true,
        },
        155 => Instruction {
            name: "XAS",
            mode: AddrMode::AbsoluteY,
            cycles: 5,
            len: 3,
            op: Op::Xas,
            legal: false,
        },
        156 => Instruction {
            name: "SYA",
            mode: AddrMode::AbsoluteX,
            cycles: 5,
            len: 3,
            op: Op::Sya,
            legal: false,
        },
        157 => Instruction {
            name: "STA",
            mode: AddrMode::AbsoluteX,
            cycles: 5,
            len: 3,
            op: Op::Sta,
            legal: true,
        },
        158 => Instruction {
            name: "SXA",
            mode: AddrMode::AbsoluteY,
            cycles: 5,
            len: 3,
            op: Op::Sxa,
            legal: false,
        },
        159 => Instruction {
            name: "AXA",
            mode: AddrMode::AbsoluteY,
            cycles: 5,
            len: 3,
            op: Op::Axa,
            legal: false,
        },
        160 => Instruction {
            name: "LDY",
            mode: AddrMode::Immediate,
            cycles: 2,
            len: 2,
            op: Op::Ldy,
            legal: true,
        },
        161 => Instruction {
            name: "LDA",
            mode: AddrMode::IndirectX,
            cycles: 6,
            len: 2,
            op: Op::Lda,
            legal: true,
        },
        162 => Instruction {
            name: "LDX",
            mode: AddrMode::Immediate,
            cycles: 2,
            len: 2,
            op: Op::Ldx,
            legal: true,
        },
        163 => Instruction {
            name: "LAX",
            mode: AddrMode::IndirectX,
            cycles: 6,
            len: 2,
            op: Op::Lax,
            legal: false,
        },
        164 => Instruction {
            name: "LDY",
            mode: AddrMode::ZeroPage,
            cycles: 3,
            len: 2,
            op: Op::Ldy,
            legal: true,
        },
        165 => Instruction {
            name: "LDA",
            mode: AddrMode::ZeroPage,
            cycles: 3,
            len: 2,
            op: Op::Lda,
            legal: true,
        },
        166 => Instruction {
            name: "LDX",
            mode: AddrMode::ZeroPage,
            cycles: 3,
            len: 2,
            op: Op::Ldx,
            legal: true,
        },
        167 => Instruction {
            name: "LAX",
            mode: AddrMode::ZeroPage,
            cycles: 3,
            len: 2,
            op: Op::Lax,
            legal: false,
        },
        168 => Instruction {
            name: "TAY",
            mode: AddrMode::Implied,
            cycles: 2,
            len: 1,
            op: Op::Tay,
            legal: true,
        },
        169 => Instruction {
            name: "LDA",
            mode: AddrMode::Immediate,
            cycles: 2,
            len: 2,
            op: Op::Lda,
            legal: true,
        },
        170 => Instruction {
            name: "TAX",
            mode: AddrMode::Implied,
            cycles: 2,
            len: 1,
            op: Op::Tax,
            legal: true,
        },
        171 => Instruction {
            name: "LXA",
            mode: AddrMode::Immediate,
            cycles: 2,
            len: 2,
            op: Op::Lxa,
            legal: false,
        },
        172 => Instruction {
            name: "LDY",
            mode: AddrMode::Absolute,
            cycles: 4,
            len: 3,
            op: Op::Ldy,
            legal: true,
        },
        173 => Instruction {
            name: "LDA",
            mode: AddrMode::Absolute,
            cycles: 4,
            len: 3,
            op: Op::Lda,
            legal: true,
        },
        174 => Instruction {
            name: "LDX",
            mode: AddrMode::Absolute,
            cycles: 4,
            len: 3,
            op: Op::Ldx,
            legal: true,
        },
        175 => Instruction {
            name: "LAX",
            mode: AddrMode::Absolute,
            cycles: 4,
            len: 3,
            op: Op::Lax,
            legal: false,
        },
        176 => Instruction {
            name: "BCS",
            mode: AddrMode::Relative,
            cycles: 2,
            len: 2,
            op: Op::Bcs,
            legal: true,
        },
        177 => Instruction {
            name: "LDA",
            mode: AddrMode::IndirectY,
            cycles: 5,
            len: 2,
            op: Op::Lda,
            legal: true,
        },
        178 => Instruction {
            name: "KIL",
            mode: AddrMode::Implied,
            cycles: 2,
            len: 1,
            op: Op::Kil,
            legal: false,
        },
        179 => Instruction {
            name: "LAX",
            mode: AddrMode::IndirectY,
            cycles: 5,
            len: 2,
            op: Op::Lax,
            legal: false,
        },
        180 => Instruction {
            name: "LDY",
            mode: AddrMode::ZeroPageX,
            cycles: 4,
            len: 2,
            op: Op::Ldy,
            legal: true,
        },
        181 => Instruction {
            name: "LDA",
            mode: AddrMode::ZeroPageX,
            cycles: 4,
            len: 2,
            op: Op::Lda,
            legal: true,
        },
        182 => Instruction {
            name: "LDX",
            mode: AddrMode::ZeroPageY,
            cycles: 4,
            len: 2,
            op: Op::Ldx,
            legal: true,
        },
        183 => Instruction {
            name: "LAX",
            mode: AddrMode::ZeroPageY,
            cycles: 4,
            len: 2,
            op: Op::Lax,
            legal: false,
        },
        184 => Instruction {
            name: "CLV",
            mode: AddrMode::Implied,
            cycles: 2,
            len: 1,
            op: Op::Clv,
            legal: true,
        },
        185 => Instruction {
            name: "LDA",
            mode: AddrMode::AbsoluteY,
            cycles: 4,
            len: 3,
            op: Op::Lda,
            legal: true,
        },
        186 => Instruction {
            name: "TSX",
            mode: AddrMode::Implied,
            cycles: 2,
            len: 1,
            op: Op::Tsx,
            legal: true,
        },
        187 => Instruction {
            name: "LAS",
            mode: AddrMode::AbsoluteY,
            cycles: 4,
            len: 3,
            op: Op::Las,
            legal: false,
        },
        188 => Instruction {
            name: "LDY",
            mode: AddrMode::AbsoluteX,
            cycles: 4,
            len: 3,
            op: Op::Ldy,
            legal: true,
        },
        189 => Instruction {
            name: "LDA",
            mode: AddrMode::AbsoluteX,
            cycles: 4,
            len: 3,
            op: Op::Lda,
            legal: true,
        },
        190 => Instruction {
            name: "LDX",
            mode: AddrMode::AbsoluteY,
            cycles: 4,
            len: 3,
            op: Op::Ldx,
            legal: true,
        },
        191 => Instruction {
            name: "LAX",
            mode: AddrMode::AbsoluteY,
            cycles: 4,
            len: 3,
            op: Op::Lax,
            legal: false,
        },
        192 => Instruction {
            name: "CPY",
            mode: AddrMode::Immediate,
            cycles: 2,
            len: 2,
            op: Op::Cpy,
            legal: true,
        },
        193 => Instruction {
            name: "CMP",
            mode: AddrMode::IndirectX,
            cycles: 6,
            len: 2,
            op: Op::Cmp,
            legal: true,
        },
        194 => Instruction {
            name: "DOP",
            mode: AddrMode::Immediate,
            cycles: 2,
            len: 2,
            op: Op::Dop,
            legal: false,
        },
        195 => Instruction {
            name: "DCP",
            mode: AddrMode::IndirectX,
            cycles: 8,
            len: 2,
            op: Op::Dcp,
            legal: false,
        },
        196 => Instruction {
            name: "CPY",
            mode: AddrMode::ZeroPage,
            cycles: 3,
            len: 2,
            op: Op::Cpy,
            legal: true,
        },
        197 => Instruction {
            name: "CMP",
            mode: AddrMode::ZeroPage,
            cycles: 3,
            len: 2,
            op: Op::Cmp,
            legal: true,
        },
        198 => Instruction {
            name: "DEC",
            mode: AddrMode::ZeroPage,
            cycles: 5,
            len: 2,
            op: Op::Dec,
            legal: true,
        },
        199 => Instruction {
            name: "DCP",
            mode: AddrMode::ZeroPage,
            cycles: 5,
            len: 2,
            op: Op::Dcp,
            legal: false,
        },
        200 => Instruction {
            name: "INY",
            mode: AddrMode::Implied,
            cycles: 2,
            len: 1,
            op: Op::Iny,
            legal: true,
        },
        201 => Instruction {
            name: "CMP",
            mode: AddrMode::Immediate,
            cycles: 2,
            len: 2,
            op: Op::Cmp,
            legal: true,
        },
        202 => Instruction {
            name: "DEX",
            mode: AddrMode::Implied,
            cycles: 2,
            len: 1,
            op: Op::Dex,
            legal: true,
        },
        203 => Instruction {
            name: "AXS",
            mode: AddrMode::Immediate,
            cycles: 2,
            len: 2,
            op: Op::Axs,
            legal: false,
        },
        204 => Instruction {
            name: "CPY",
            mode: AddrMode::Absolute,
            cycles: 4,
            len: 3,
            op: Op::Cpy,
            legal: true,
        },
        205 => Instruction {
            name: "CMP",
            mode: AddrMode::Absolute,
            cycles: 4,
            len: 3,
            op: Op::Cmp,
            legal: true,
        },
        206 => Instruction {
            name: "DEC",
            mode: AddrMode::Absolute,
            cycles: 6,
            len: 3,
            op: Op::Dec,
            legal: true,
        },
        207 => Instruction {
            name: "DCP",
            mode: AddrMode::Absolute,
            cycles: 6,
            len: 3,
            op: Op::Dcp,
            legal: false,
        },
        208 => Instruction {
            name: "BNE",
            mode: AddrMode::Relative,
            cycles: 2,
            len: 2,
            op: Op::Bne,
            legal: true,
        },
        209 => Instruction {
            name: "CMP",
            mode: AddrMode::IndirectY,
            cycles: 5,
            len: 2,
            op: Op::Cmp,
            legal: true,
        },
        210 => Instruction {
            name: "KIL",
            mode: AddrMode::Implied,
            cycles: 2,
            len: 1,
            op: Op::Kil,
            legal: false,
        },
        211 => Instruction {
            name: "DCP",
            mode: AddrMode::IndirectY,
            cycles: 8,
            len: 2,
            op: Op::Dcp,
            legal: false,
        },
        212 => Instruction {
            name: "DOP",
            mode: AddrMode::ZeroPageX,
            cycles: 4,
            len: 2,
            op: Op::Dop,
            legal: false,
        },
        213 => Instruction {
            name: "CMP",
            mode: AddrMode::ZeroPageX,
            cycles: 4,
            len: 2,
            op: Op::Cmp,
            legal: true,
        },
        214 => Instruction {
            name: "DEC",
            mode: AddrMode::ZeroPageX,
            cycles: 6,
            len: 2,
            op: Op::Dec,
            legal: true,
        },
        215 => Instruction {
            name: "DCP",
            mode: AddrMode::ZeroPageX,
            cycles: 6,
            len: 2,
            op: Op::Dcp,
            legal: false,
        },
        216 => Instruction {
            name: "CLD",
            mode: AddrMode::Implied,
            cycles: 2,
            len: 1,
            op: Op::Cld,
            legal: true,
        },
        217 => Instruction {
            name: "CMP",
            mode: AddrMode::AbsoluteY,
            cycles: 4,
            len: 3,
            op: Op::Cmp,
            legal: true,
        },
        218 => Instruction {
            name: "NOP",
            mode: AddrMode::Implied,
            cycles: 2,
            len: 1,
            op: Op::Nop,
            legal: false,
        },
        219 => Instruction {
            name: "DCP",
            mode: AddrMode::AbsoluteY,
            cycles: 7,
            len: 3,
            op: Op::Dcp,
            legal: false,
        },
        220 => Instruction {
            name: "TOP",
            mode: AddrMode::AbsoluteX,
            cycles: 4,
            len: 3,
            op: Op::Top,
            legal: false,
        },
        221 => Instruction {
            name: "CMP",
            mode: AddrMode::AbsoluteX,
            cycles: 4,
            len: 3,
            op: Op::Cmp,
            legal: true,
        },
        222 => Instruction {
            name: "DEC",
            mode: AddrMode::AbsoluteX,
            cycles: 7,
            len: 3,
            op: Op::Dec,
            legal: true,
        },
        223 => Instruction {
            name: "DCP",
            mode: AddrMode::AbsoluteX,
            cycles: 7,
            len: 3,
            op: Op::Dcp,
            legal: false,
        },
        224 => Instruction {
            name: "CPX",
            mode: AddrMode::Immediate,
            cycles: 2,
            len: 2,
            op: Op::Cpx,
            legal: true,
        },
        225 => Instruction {
            name: "SBC",
            mode: AddrMode::IndirectX,
            cycles: 6,
            len: 2,
            op: Op::Sbc,
            legal: true,
        },
        226 => Instruction {
            name: "DOP",
            mode: AddrMode::Immediate,
            cycles: 2,
            len: 2,
            op: Op::Dop,
            legal: false,
        },
        227 => Instruction {
            name: "ISB",
            mode: AddrMode::IndirectX,
            cycles: 8,
            len: 2,
            op: Op::Isb,
            legal: false,
        },
        228 => Instruction {
            name: "CPX",
            mode: AddrMode::ZeroPage,
            cycles: 3,
            len: 2,
            op: Op::Cpx,
            legal: true,
        },
        229 => Instruction {
            name: "SBC",
            mode: AddrMode::ZeroPage,
            cycles: 3,
            len: 2,
            op: Op::Sbc,
            legal: true,
        },
        230 => Instruction {
            name: "INC",
            mode: AddrMode::ZeroPage,
            cycles: 5,
            len: 2,
            op: Op::Inc,
            legal: true,
        },
        231 => Instruction {
            name: "ISB",
            mode: AddrMode::ZeroPage,
            cycles: 5,
            len: 2,
            op: Op::Isb,
            legal: false,
        },
        232 => Instruction {
            name: "INX",
            mode: AddrMode::Implied,
            cycles: 2,
            len: 1,
            op: Op::Inx,
            legal: true,
        },
        233 => Instruction {
            name: "SBC",
            mode: AddrMode::Immediate,
            cycles: 2,
            len: 2,
            op: Op::Sbc,
            legal: true,
        },
        234 => Instruction {
            name: "NOP",
            mode: AddrMode::Implied,
            cycles: 2,
            len: 1,
            op: Op::Nop,
            legal: true,
        },
        235 => Instruction {
            name: "SBC",
            mode: AddrMode::Immediate,
            cycles: 2,
            len: 2,
            op: Op::Sbc,
            legal: false,
        },
        236 => Instruction {
            name: "CPX",
            mode: AddrMode::Absolute,
            cycles: 4,
            len: 3,
            op: Op::Cpx,
            legal: true,
        },
        237 => Instruction {
            name: "SBC",
            mode: AddrMode::Absolute,
            cycles: 4,
            len: 3,
            op: Op::Sbc,
            legal: true,
        },
        238 => Instruction {
            name: "INC",
            mode: AddrMode::Absolute,
            cycles: 6,
            len: 3,
            op: Op::Inc,
            legal: true,
        },
        239 => Instruction {
            name: "ISB",
            mode: AddrMode::Absolute,
            cycles: 6,
            len: 3,
            op: Op::Isb,
            legal: false,
        },
        240 => Instruction {
            name: "BEQ",
            mode: AddrMode::Relative,
            cycles: 2,
            len: 2,
            op: Op::Beq,
            legal: true,
        },
        241 => Instruction {
            name: "SBC",
            mode: AddrMode::IndirectY,
            cycles: 5,
            len: 2,
            op: Op::Sbc,
            legal: true,
        },
        242 => Instruction {
            name: "KIL",
            mode: AddrMode::Implied,
            cycles: 2,
            len: 1,
            op: Op::Kil,
            legal: false,
        },
        243 => Instruction {
            name: "ISB",
            mode: AddrMode::IndirectY,
            cycles: 8,
            len: 2,
            op: Op::Isb,
            legal: false,
        },
        244 => Instruction {
            name: "DOP",
            mode: AddrMode::ZeroPageX,
            cycles: 4,
            len: 2,
            op: Op::Dop,
            legal: false,
        },
        245 => Instruction {
            name: "SBC",
            mode: AddrMode::ZeroPageX,
            cycles: 4,
            len: 2,
            op: Op::Sbc,
            legal: true,
        },
        246 => Instruction {
            name: "INC",
            mode: AddrMode::ZeroPageX,
            cycles: 6,
            len: 2,
            op: Op::Inc,
            legal: true,
        },
        247 => Instruction {
            name: "ISB",
            mode: AddrMode::ZeroPageX,
            cycles: 6,
            len: 2,
            op: Op::Isb,
            legal: false,
        },
        248 => Instruction {
            name: "SED",
            mode: AddrMode::Implied,
            cycles: 2,
            len: 1,
            op: Op::Sed,
            legal: true,
        },
        249 => Instruction {
            name: "SBC",
            mode: AddrMode::AbsoluteY,
            cycles: 4,
            len: 3,
            op: Op::Sbc,
            legal: true,
        },
        250 => Instruction {
            name: "NOP",
            mode: AddrMode::Implied,
            cycles: 2,
            len: 1,
            op: Op::Nop,
            legal: false,
        },
        251 => Instruction {
            name: "ISB",
            mode: AddrMode::AbsoluteY,
            cycles: 7,
            len: 3,
            op: Op::Isb,
            legal: false,
        },
        252 => Instruction {
            name: "TOP",
            mode: AddrMode::AbsoluteX,
            cycles: 4,
            len: 3,
            op: Op::Top,
            legal: false,
        },
        253 => Instruction {
            name: "SBC",
            mode: AddrMode::AbsoluteX,
            cycles: 4,
            len: 3,
            op: Op::Sbc,
            legal: true,
        },
        254 => Instruction {
            name: "INC",
            mode: AddrMode::AbsoluteX,
            cycles: 7,
            len: 3,
            op: Op::Inc,
            legal: true,
        },
        255 => Instruction {
            name: "ISB",
            mode: AddrMode::AbsoluteX,
            cycles: 7,
            len: 3,
            op: Op::Isb,
            legal: false,
        },
    }
}


/// Increment and decrement invert one another: the INC/DEC and INX/DEX
/// and INY/DEY pairs, whose kernels store exactly `inc8` and `dec8` of the
/// old value, round-trip any cell or register they touch.
pub proof fn lemma_inc_dec_roundtrip(v: u8)
    ensures
        dec8(inc8(v)) == v,
        inc8(dec8(v)) == v,
{
}

/// Rotations through carry invert one another with the carry preserved:
/// ROL leaves its carry-out and result such that ROR with that carry
/// restores both the value and the original carry, and the other way
/// around.  The ROL/ROR kernels store exactly `rol8` and `ror8`, so a
/// rotate pair over any cell or the accumulator is a round trip.
pub proof fn lemma_rol_ror_roundtrip(v: u8, c: bool)
    ensures
        ror8(rol8(v, c), v >= 0x80) == v,
        (rol8(v, c) % 2 == 1) == c,
        rol8(ror8(v, c), v % 2 == 1) == v,
        (ror8(v, c) >= 0x80) == c,
{
}


/// A push followed by a pop is a round trip: the byte stored at the old
/// stack slot is exactly what the pop reads back, and the stack pointer
/// returns to where it began.  PHA/PLA and the PHP/PLP pair (up to the B
/// bits PLP forces) compose this way, as do the pairs inside JSR/RTS.
pub proof fn lemma_push_pop_roundtrip(ram: Seq<u8>, sp: u8, value: u8)
    requires
        ram.len() == 2048,
    ensures
        wrap8(wrap8(sp - 1) + 1) == sp,
        ram.update(0x100 + sp as int, value)[0x100 + wrap8(wrap8(sp - 1) + 1) as int] == value,
{
}


/// Exclusive OR is its own inverse: EOR with the same operand twice
/// restores the accumulator, since the kernel stores exactly the XOR of
/// the old accumulator and the operand.
pub proof fn lemma_eor_self_inverse(a: u8, v: u8)
    ensures
        (a ^ v) ^ v == a,
{
    assert((a ^ v) ^ v == a) by (bit_vector);
}

} // verus!
