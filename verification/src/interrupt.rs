//! The interrupt controller: the common stack frame and vector dispatch
//! shared by NMI, IRQ and BRK.

use vstd::prelude::*;

verus! {

use crate::NES;
use crate::cpu::registers::Status;
use crate::cpu::{wrap8, wrap16};

/// What one interrupt entry does to the console: the program counter is
/// pushed high byte then low, P follows with the B pair forced to
/// `new_b`, the interrupt-disable flag is set, seven cycles are billed,
/// and the program counter vectors through the little-endian pair at
/// `addr` (in ROM for every real vector).
pub open spec fn rel_interrupt(pre: NES, post: NES, new_b: u8, addr: u16) -> bool {
    let regs = pre.cpu_registers;
    let pc = regs.program_counter;
    &&& post.cpu_ram@ == pre.cpu_ram@.update(
        0x100 + regs.stack_pointer as int,
        (pc / 256) as u8,
    ).update(0x100 + wrap8(regs.stack_pointer - 1) as int, (pc % 256) as u8).update(
        0x100 + wrap8(regs.stack_pointer - 2) as int,
        (Status { b: new_b, ..regs.status }).spec_bits(),
    )
    &&& post.cpu_registers.stack_pointer == wrap8(regs.stack_pointer - 3)
    &&& post.cpu_registers.status == (Status { interrupt_disable: true, ..regs.status })
    &&& post.cpu_registers.accumulator == regs.accumulator
    &&& post.cpu_registers.x == regs.x && post.cpu_registers.y == regs.y
    &&& (addr >= 0x8000 ==> post.cpu_registers.program_counter == pre.spec_peek16(addr))
    &&& post.cpu_cycles == pre.cpu_cycles + 7
    &&& post.clock_count == vstd::wrapping::u64_specs::wrapping_add(pre.clock_count, 7)
    &&& post.prg_rom@ == pre.prg_rom@ && post.chr_rom@ == pre.chr_rom@
    &&& post.palette_table@ == pre.palette_table@ && post.ppu_vram@ == pre.ppu_vram@
        && post.oam_data@ == pre.oam_data@
    &&& NES::same_host(pre, post)
    &&& NES::same_ppu_regs(pre, post)
    &&& post.next_interrupt == pre.next_interrupt
    &&& post.ppu_cycles == pre.ppu_cycles && post.ppu_scanline == pre.ppu_scanline
}

/// The common interrupt sequence; its whole effect is `rel_interrupt`.
pub fn interrupt(nes: &mut NES, new_b: u8, addr: u16)
    requires
        old(nes).wf(),
        old(nes).cpu_cycles <= 0xF000,
        new_b < 4,
        NES::stable_addr(addr) && NES::stable_addr(wrap16(addr + 1)),
    ensures
        final(nes).wf(),
        rel_interrupt(*old(nes), *final(nes), new_b, addr),
{
    let pc = nes.cpu_registers.program_counter;
    nes.stack_push_u16(pc);

    let mut status = nes.cpu_registers.status;
    status.b = new_b;
    let bits = status.bits();
    nes.stack_push(bits);
    nes.cpu_registers.status.interrupt_disable = true;

    self_add_cycles(nes);

    let target = nes.cpu_read_u16(addr);
    nes.cpu_registers.program_counter = target;
}

/// Bills the seven cycles an interrupt entry costs.
fn self_add_cycles(nes: &mut NES)
    requires
        old(nes).wf(),
        old(nes).cpu_cycles <= 0xF007,
    ensures
        final(nes).wf(),
        final(nes).cpu_cycles == old(nes).cpu_cycles + 7,
        final(nes).clock_count == vstd::wrapping::u64_specs::wrapping_add(
            old(nes).clock_count,
            7,
        ),
        NES::same_mem(*old(nes), *final(nes)),
        NES::same_host(*old(nes), *final(nes)),
        NES::same_ppu_regs(*old(nes), *final(nes)),
        final(nes).cpu_registers == old(nes).cpu_registers,
        final(nes).next_interrupt == old(nes).next_interrupt,
        final(nes).ppu_cycles == old(nes).ppu_cycles && final(nes).ppu_scanline == old(
            nes,
        ).ppu_scanline,
{
    nes.cpu_cycles = nes.cpu_cycles + 7;
    nes.clock_count = nes.clock_count.wrapping_add(7);
}

impl NES {
    /// A maskable interrupt request: honoured through the $FFFE vector
    /// with the B pair pushed as %10, unless the interrupt-disable flag
    /// holds it off.
    pub fn irq(&mut self)
        requires
            old(self).wf(),
            old(self).cpu_cycles <= 0xF000,
        ensures
            final(self).wf(),
            old(self).cpu_registers.status.interrupt_disable ==> NES::same_state(
                *old(self),
                *final(self),
            ),
            !old(self).cpu_registers.status.interrupt_disable ==> rel_interrupt(
                *old(self),
                *final(self),
                2,
                0xFFFE,
            ),
    {
        if !self.cpu_registers.status.interrupt_disable {
            interrupt(self, 2, 0xFFFE);
        }
    }

    /// The non-maskable interrupt: always honoured, through the $FFFA
    /// vector with the B pair pushed as %10.
    pub fn nmi(&mut self)
        requires
            old(self).wf(),
            old(self).cpu_cycles <= 0xF000,
        ensures
            final(self).wf(),
            rel_interrupt(*old(self), *final(self), 2, 0xFFFA),
    {
        interrupt(self, 2, 0xFFFA);
    }

    /// A software interrupt raised outside instruction flow: the $FFFE
    /// vector with the B pair pushed as %11, held off by the
    /// interrupt-disable flag.
    pub fn brk(&mut self)
        requires
            old(self).wf(),
            old(self).cpu_cycles <= 0xF000,
        ensures
            final(self).wf(),
            old(self).cpu_registers.status.interrupt_disable ==> NES::same_state(
                *old(self),
                *final(self),
            ),
            !old(self).cpu_registers.status.interrupt_disable ==> rel_interrupt(
                *old(self),
                *final(self),
                3,
                0xFFFE,
            ),
    {
        if !self.cpu_registers.status.interrupt_disable {
            interrupt(self, 3, 0xFFFE);
        }
    }
}

} // verus!
