//! The 6502 interpreter: addressing modes, the memory bus as the CPU sees
//! it, and the instruction clock.

pub mod instructions;
pub mod registers;

use vstd::prelude::*;

verus! {

/// The thirteen addressing modes of the 6502.
#[derive(Clone, Copy, Debug, PartialEq, Eq, Structural)]
pub enum AddrMode {
    Implied,
    Accumulator,
    Immediate,
    ZeroPage,
    ZeroPageX,
    ZeroPageY,
    Relative,
    Absolute,
    AbsoluteX,
    AbsoluteY,
    Indirect,
    IndirectX,
    IndirectY,
}

/// True when two addresses fall on different 256-byte pages.
pub open spec fn spec_page_crossed(old_addr: u16, new_addr: u16) -> bool {
    old_addr / 256 != new_addr / 256
}

pub fn page_crossed(old_addr: u16, new_addr: u16) -> (r: bool)
    ensures
        r == spec_page_crossed(old_addr, new_addr),
{
    old_addr / 256 != new_addr / 256
}

/// 16-bit wraparound addition.
pub open spec fn wrap16(x: int) -> u16 {
    (x % 0x10000) as u16
}

/// 8-bit wraparound addition.
pub open spec fn wrap8(x: int) -> u8 {
    (x % 0x100) as u8
}

/// A relative operand sign-extended to the signed offset it denotes.
pub open spec fn signed8(off: u8) -> int {
    if off < 128 {
        off as int
    } else {
        off - 256
    }
}

pub fn add16(a: u16, b: u16) -> (r: u16)
    ensures
        r == wrap16(a + b),
{
    if a <= 0xFFFF - b {
        a + b
    } else {
        // Wraps: a + b - 0x10000.
        (a - (0x10000 - b as u32) as u16)
    }
}

pub fn add8(a: u8, b: u8) -> (r: u8)
    ensures
        r == wrap8(a + b),
{
    if a <= 0xFF - b {
        a + b
    } else {
        (a - (0x100 - b as u16) as u8)
    }
}

use crate::NES;

/// The effective address of an operand under `mode`,
/// with `addr` pointing at the byte after the opcode, and whether the
/// access pays a page-crossing penalty.  Implied, Accumulator and
/// Immediate have no entry here.
pub open spec fn spec_resolve(s: NES, mode: AddrMode, addr: u16) -> (u16, bool) {
    match mode {
        AddrMode::ZeroPage => (s.spec_peek(addr) as u16, false),
        AddrMode::ZeroPageX => (wrap8(s.spec_peek(addr) + s.cpu_registers.x) as u16, false),
        AddrMode::ZeroPageY => (wrap8(s.spec_peek(addr) + s.cpu_registers.y) as u16, false),
        AddrMode::Relative => {
            let t = wrap16(addr + 1 + signed8(s.spec_peek(addr)));
            (t, spec_page_crossed(addr, t))
        },
        AddrMode::Absolute => (s.spec_peek16(addr), false),
        AddrMode::AbsoluteX => {
            let b = s.spec_peek16(addr);
            let t = wrap16(b + s.cpu_registers.x);
            (t, spec_page_crossed(b, t))
        },
        AddrMode::AbsoluteY => {
            let b = s.spec_peek16(addr);
            let t = wrap16(b + s.cpu_registers.y);
            (t, spec_page_crossed(b, t))
        },
        AddrMode::Indirect => {
            let p = s.spec_peek16(addr);
            if p % 256 == 0xFF {
                // The pointer's high byte is fetched without carrying into
                // the next page.
                ((s.spec_peek(p) + 256 * s.spec_peek((p - 0xFF) as u16)) as u16, false)
            } else {
                (s.spec_peek16(p), false)
            }
        },
        AddrMode::IndirectX => {
            let z = wrap8(s.spec_peek(addr) + s.cpu_registers.x);
            ((s.spec_peek(z as u16) + 256 * s.spec_peek(wrap8(z + 1) as u16)) as u16, false)
        },
        AddrMode::IndirectY => {
            let z = s.spec_peek(addr);
            let b = (s.spec_peek(z as u16) + 256 * s.spec_peek(wrap8(z + 1) as u16)) as u16;
            let t = wrap16(b + s.cpu_registers.y);
            (t, spec_page_crossed(b, t))
        },
        _ => (0u16, false),
    }
}

/// Every byte the resolver fetches for `mode` lies at a side-effect-free
/// address, so resolving reads the state without changing it.  Zero-page
/// pointer chains always do; only the operand bytes and an Indirect
/// pointer can land on a live port.
pub open spec fn spec_fetch_stable(s: NES, mode: AddrMode, addr: u16) -> bool {
    match mode {
        AddrMode::ZeroPage | AddrMode::ZeroPageX | AddrMode::ZeroPageY | AddrMode::Relative
            | AddrMode::IndirectX | AddrMode::IndirectY => NES::stable_addr(addr),
        AddrMode::Absolute | AddrMode::AbsoluteX | AddrMode::AbsoluteY => NES::stable_addr(addr)
            && NES::stable_addr(wrap16(addr + 1)),
        AddrMode::Indirect => {
            let p = s.spec_peek16(addr);
            &&& NES::stable_addr(addr)
            &&& NES::stable_addr(wrap16(addr + 1))
            &&& NES::stable_addr(p)
            &&& (if p % 256 == 0xFF {
                NES::stable_addr((p - 0xFF) as u16)
            } else {
                NES::stable_addr(wrap16(p + 1))
            })
        },
        _ => true,
    }
}

/// Adding a sign-extended byte to a base, in 16-bit wraparound
/// arithmetic, equals adding the raw byte (plus $FF00 for a negative one)
/// with wraparound at each step.
pub proof fn lemma_wrap_signed(b: int, off: u8)
    requires
        b >= 0,
    ensures
        off < 128 ==> wrap16(wrap16(b) + off) == wrap16(b + signed8(off)),
        off >= 128 ==> wrap16(wrap16(b) + off + 0xFF00) == wrap16(b + signed8(off)),
{
    let m = 0x10000int;
    vstd::arithmetic::div_mod::lemma_small_mod(off as nat, m as nat);
    vstd::arithmetic::div_mod::lemma_small_mod((off + 0xFF00) as nat, m as nat);
    vstd::arithmetic::div_mod::lemma_add_mod_noop(b, off as int, m);
    vstd::arithmetic::div_mod::lemma_add_mod_noop(b, off + 0xFF00, m);
    if off >= 128 {
        vstd::arithmetic::div_mod::lemma_mod_multiples_vanish(1, b + off - 256, m);
    }
}

/// `spec_resolve` at the program counter, with Immediate folded in: an
/// immediate operand is the byte at the program counter itself.
pub open spec fn spec_op_resolve(s: NES, mode: AddrMode) -> (u16, bool) {
    if mode == AddrMode::Immediate {
        (s.cpu_registers.program_counter, false)
    } else {
        spec_resolve(s, mode, s.cpu_registers.program_counter)
    }
}

/// `spec_fetch_stable` at the program counter, with Immediate folded in.
pub open spec fn spec_op_fetch_stable(s: NES, mode: AddrMode) -> bool {
    if mode == AddrMode::Immediate {
        true
    } else {
        spec_fetch_stable(s, mode, s.cpu_registers.program_counter)
    }
}

/// What a read of PPUSTATUS through the bus does to the console.
pub open spec fn rel_read_status(pre: NES, post: NES) -> bool {
    &&& post.ppu_registers.status.vblank_started == false
    &&& post.ppu_registers.status.sprite_zero_hit == pre.ppu_registers.status.sprite_zero_hit
    &&& post.ppu_registers.status.sprite_overflow == pre.ppu_registers.status.sprite_overflow
    &&& post.ppu_registers.address.latch == true
    &&& post.ppu_registers.address.high == pre.ppu_registers.address.high
    &&& post.ppu_registers.address.low == pre.ppu_registers.address.low
    &&& post.ppu_registers.scroll.latch == false
    &&& post.ppu_registers.scroll.scroll_x == pre.ppu_registers.scroll.scroll_x
    &&& post.ppu_registers.scroll.scroll_y == pre.ppu_registers.scroll.scroll_y
    &&& post.ppu_registers.control == pre.ppu_registers.control
    &&& post.ppu_registers.mask == pre.ppu_registers.mask
    &&& post.ppu_registers.oam_addr == pre.ppu_registers.oam_addr
    &&& post.ppu_read_buffer == pre.ppu_read_buffer
    &&& post.next_interrupt == pre.next_interrupt
    &&& NES::same_but_ppu_ports(pre, post)
}

/// What a read of PPUDATA through the bus does to the console.
pub open spec fn rel_read_ppudata(pre: NES, post: NES) -> bool {
    &&& post.ppu_registers.address.spec_value() == (pre.ppu_registers.address.spec_value() + (
    if pre.ppu_registers.control.vram_address_increment {
        32int
    } else {
        1int
    })) % 0x4000
    &&& post.ppu_registers.address.latch == pre.ppu_registers.address.latch
    &&& ({
        let a = pre.ppu_registers.address.spec_value();
        if a < 0x2000 {
            post.ppu_read_buffer == pre.chr_rom@[a]
        } else if a < 0x3F00 {
            post.ppu_read_buffer == pre.ppu_vram@[pre.spec_mirror_vram(a as u16)]
        } else {
            post.ppu_read_buffer == pre.ppu_read_buffer
        }
    })
    &&& post.ppu_registers.control == pre.ppu_registers.control
    &&& post.ppu_registers.status == pre.ppu_registers.status
    &&& post.ppu_registers.scroll == pre.ppu_registers.scroll
    &&& post.ppu_registers.mask == pre.ppu_registers.mask
    &&& post.ppu_registers.oam_addr == pre.ppu_registers.oam_addr
    &&& post.next_interrupt == pre.next_interrupt
    &&& NES::same_but_ppu_ports(pre, post)
}

/// What a read of the joypad port does to the console: the shift index
/// advances unless the strobe is held or the register is exhausted.
pub open spec fn rel_read_controller(pre: NES, post: NES) -> bool {
    &&& post.controller.button_index == (if pre.controller.button_index <= 7
        && !pre.controller.strobe {
        (pre.controller.button_index + 1) as u8
    } else {
        pre.controller.button_index
    })
    &&& post.controller.strobe == pre.controller.strobe
    &&& post.controller.snapshot == pre.controller.snapshot
    &&& post.controller.button_state == pre.controller.button_state
    &&& NES::same_mem(pre, post)
    &&& NES::same_timing(pre, post)
    &&& NES::same_ppu_regs(pre, post)
    &&& post.cpu_registers == pre.cpu_registers
    &&& post.next_interrupt == pre.next_interrupt
    &&& post.mirroring == pre.mirroring
    &&& post.system_palette.0@ == pre.system_palette.0@
    &&& post.current_frame.0@ == pre.current_frame.0@
}

/// What a write to PPUCTRL through the bus does to the console.
pub open spec fn rel_write_control(pre: NES, post: NES, data: u8) -> bool {
    &&& post.ppu_registers.control == crate::ppu::registers::Control::spec_from_bits(data)
    &&& post.next_interrupt == (if !pre.ppu_registers.control.generate_nmi
        && crate::ppu::registers::Control::spec_from_bits(data).generate_nmi
        && pre.ppu_registers.status.vblank_started {
        Option::<crate::Interrupt>::Some(crate::Interrupt::NMI)
    } else {
        pre.next_interrupt
    })
    &&& post.ppu_registers.address == pre.ppu_registers.address
    &&& post.ppu_registers.status == pre.ppu_registers.status
    &&& post.ppu_registers.scroll == pre.ppu_registers.scroll
    &&& post.ppu_registers.mask == pre.ppu_registers.mask
    &&& post.ppu_registers.oam_addr == pre.ppu_registers.oam_addr
    &&& post.ppu_read_buffer == pre.ppu_read_buffer
    &&& NES::same_but_ppu_ports(pre, post)
}

/// What a write to PPUMASK through the bus does to the console.
pub open spec fn rel_write_mask(pre: NES, post: NES, data: u8) -> bool {
    &&& post.ppu_registers.mask == crate::ppu::registers::Mask::spec_from_bits(data)
    &&& post.ppu_registers.address == pre.ppu_registers.address
    &&& post.ppu_registers.control == pre.ppu_registers.control
    &&& post.ppu_registers.status == pre.ppu_registers.status
    &&& post.ppu_registers.scroll == pre.ppu_registers.scroll
    &&& post.ppu_registers.oam_addr == pre.ppu_registers.oam_addr
    &&& post.ppu_read_buffer == pre.ppu_read_buffer
    &&& post.next_interrupt == pre.next_interrupt
    &&& NES::same_but_ppu_ports(pre, post)
}

/// What a write to OAMADDR through the bus does to the console.
pub open spec fn rel_write_oam_addr(pre: NES, post: NES, data: u8) -> bool {
    &&& post.ppu_registers.oam_addr == data
    &&& post.ppu_registers.address == pre.ppu_registers.address
    &&& post.ppu_registers.control == pre.ppu_registers.control
    &&& post.ppu_registers.status == pre.ppu_registers.status
    &&& post.ppu_registers.scroll == pre.ppu_registers.scroll
    &&& post.ppu_registers.mask == pre.ppu_registers.mask
    &&& post.ppu_read_buffer == pre.ppu_read_buffer
    &&& post.next_interrupt == pre.next_interrupt
    &&& NES::same_but_ppu_ports(pre, post)
}

/// What a write to OAMDATA through the bus does to the console.
pub open spec fn rel_write_oam_data(pre: NES, post: NES, data: u8) -> bool {
    &&& post.oam_data@ == pre.oam_data@.update(pre.ppu_registers.oam_addr as int, data)
    &&& post.ppu_registers.oam_addr == (pre.ppu_registers.oam_addr + 1) % 256
    &&& post.ppu_registers.address == pre.ppu_registers.address
    &&& post.ppu_registers.control == pre.ppu_registers.control
    &&& post.ppu_registers.status == pre.ppu_registers.status
    &&& post.ppu_registers.scroll == pre.ppu_registers.scroll
    &&& post.ppu_registers.mask == pre.ppu_registers.mask
    &&& post.ppu_read_buffer == pre.ppu_read_buffer
    &&& post.next_interrupt == pre.next_interrupt
    &&& post.cpu_ram@ == pre.cpu_ram@
    &&& post.prg_rom@ == pre.prg_rom@
    &&& post.chr_rom@ == pre.chr_rom@
    &&& post.palette_table@ == pre.palette_table@
    &&& post.ppu_vram@ == pre.ppu_vram@
    &&& NES::same_timing(pre, post)
    &&& NES::same_host(pre, post)
    &&& post.cpu_registers == pre.cpu_registers
}

/// What a write to PPUSCROLL through the bus does to the console.
pub open spec fn rel_write_scroll(pre: NES, post: NES, data: u8) -> bool {
    &&& (pre.ppu_registers.scroll.latch ==> post.ppu_registers.scroll.scroll_y == data
        && post.ppu_registers.scroll.scroll_x == pre.ppu_registers.scroll.scroll_x)
    &&& (!pre.ppu_registers.scroll.latch ==> post.ppu_registers.scroll.scroll_x == data
        && post.ppu_registers.scroll.scroll_y == pre.ppu_registers.scroll.scroll_y)
    &&& post.ppu_registers.scroll.latch == !pre.ppu_registers.scroll.latch
    &&& post.ppu_registers.address == pre.ppu_registers.address
    &&& post.ppu_registers.control == pre.ppu_registers.control
    &&& post.ppu_registers.status == pre.ppu_registers.status
    &&& post.ppu_registers.mask == pre.ppu_registers.mask
    &&& post.ppu_registers.oam_addr == pre.ppu_registers.oam_addr
    &&& post.ppu_read_buffer == pre.ppu_read_buffer
    &&& post.next_interrupt == pre.next_interrupt
    &&& NES::same_but_ppu_ports(pre, post)
}

/// What a write to PPUADDR through the bus does to the console.
pub open spec fn rel_write_address(pre: NES, post: NES, data: u8) -> bool {
    &&& (pre.ppu_registers.address.latch ==> post.ppu_registers.address.spec_value() == (data
        * 256 + pre.ppu_registers.address.low) % 0x4000)
    &&& (!pre.ppu_registers.address.latch ==> post.ppu_registers.address.spec_value() == (
    pre.ppu_registers.address.high * 256 + data) % 0x4000)
    &&& post.ppu_registers.address.latch == !pre.ppu_registers.address.latch
    &&& post.ppu_registers.control == pre.ppu_registers.control
    &&& post.ppu_registers.status == pre.ppu_registers.status
    &&& post.ppu_registers.scroll == pre.ppu_registers.scroll
    &&& post.ppu_registers.mask == pre.ppu_registers.mask
    &&& post.ppu_registers.oam_addr == pre.ppu_registers.oam_addr
    &&& post.ppu_read_buffer == pre.ppu_read_buffer
    &&& post.next_interrupt == pre.next_interrupt
    &&& NES::same_but_ppu_ports(pre, post)
}

/// What a write through PPUDATA does to the console.
pub open spec fn rel_write_ppudata(pre: NES, post: NES, data: u8) -> bool {
    &&& ({
        let a = pre.ppu_registers.address.spec_value();
        &&& (a < 0x2000 ==> post.ppu_vram@ == pre.ppu_vram@ && post.palette_table@
            == pre.palette_table@)
        &&& (0x2000 <= a < 0x3F00 ==> post.ppu_vram@ == pre.ppu_vram@.update(
            pre.spec_mirror_vram(a as u16),
            data,
        ) && post.palette_table@ == pre.palette_table@)
        &&& (0x3F00 <= a ==> post.palette_table@ == pre.palette_table@.update(
            NES::spec_palette_index(a),
            data,
        ) && post.ppu_vram@ == pre.ppu_vram@)
    })
    &&& post.ppu_registers.address.spec_value() == (pre.ppu_registers.address.spec_value() + (
    if pre.ppu_registers.control.vram_address_increment {
        32int
    } else {
        1int
    })) % 0x4000
    &&& post.ppu_registers.address.latch == pre.ppu_registers.address.latch
    &&& post.ppu_registers.control == pre.ppu_registers.control
    &&& post.ppu_registers.status == pre.ppu_registers.status
    &&& post.ppu_registers.scroll == pre.ppu_registers.scroll
    &&& post.ppu_registers.mask == pre.ppu_registers.mask
    &&& post.ppu_registers.oam_addr == pre.ppu_registers.oam_addr
    &&& post.ppu_read_buffer == pre.ppu_read_buffer
    &&& post.next_interrupt == pre.next_interrupt
    &&& post.cpu_ram@ == pre.cpu_ram@
    &&& post.prg_rom@ == pre.prg_rom@
    &&& post.chr_rom@ == pre.chr_rom@
    &&& post.oam_data@ == pre.oam_data@
    &&& NES::same_timing(pre, post)
    &&& NES::same_host(pre, post)
    &&& post.cpu_registers == pre.cpu_registers
}

/// What a write to the joypad strobe port does to the console.
pub open spec fn rel_write_controller(pre: NES, post: NES, data: u8) -> bool {
    &&& post.controller.strobe == (data % 2 == 1)
    &&& (data % 2 == 1 ==> post.controller.button_index == 0 && post.controller.snapshot
        == pre.controller.button_state.spec_bits())
    &&& (data % 2 != 1 ==> post.controller.button_index == pre.controller.button_index
        && post.controller.snapshot == pre.controller.snapshot)
    &&& post.controller.button_state == pre.controller.button_state
    &&& NES::same_mem(pre, post)
    &&& NES::same_timing(pre, post)
    &&& NES::same_ppu_regs(pre, post)
    &&& post.cpu_registers == pre.cpu_registers
    &&& post.next_interrupt == pre.next_interrupt
    &&& post.mirroring == pre.mirroring
    &&& post.system_palette.0@ == pre.system_palette.0@
    &&& post.current_frame.0@ == pre.current_frame.0@
}

/// What one CPU write of `data` to `addr` does to the console, region by
/// region: RAM with its 2 KiB mirror, the eight PPU ports with theirs, the
/// OAM DMA trigger, the joypad strobe, and the regions that swallow
/// writes.
pub open spec fn rel_bus_write(pre: NES, post: NES, addr: u16, data: u8) -> bool {
    &&& (addr < 0x2000 ==> post.cpu_ram@ == pre.cpu_ram@.update(addr as int % 0x800, data)
        && NES::same_timing(pre, post) && NES::same_host(pre, post) && NES::same_ppu_regs(
        pre,
        post,
    ) && post.cpu_registers == pre.cpu_registers && post.next_interrupt == pre.next_interrupt
        && post.prg_rom@ == pre.prg_rom@ && post.chr_rom@ == pre.chr_rom@ && post.palette_table@
        == pre.palette_table@ && post.ppu_vram@ == pre.ppu_vram@ && post.oam_data@
        == pre.oam_data@)
    &&& (0x2000 <= addr < 0x4000 ==> ({
        let reg = addr % 8;
        &&& (reg == 0 ==> rel_write_control(pre, post, data))
        &&& (reg == 1 ==> rel_write_mask(pre, post, data))
        &&& (reg == 2 ==> NES::same_state(pre, post))
        &&& (reg == 3 ==> rel_write_oam_addr(pre, post, data))
        &&& (reg == 4 ==> rel_write_oam_data(pre, post, data))
        &&& (reg == 5 ==> rel_write_scroll(pre, post, data))
        &&& (reg == 6 ==> rel_write_address(pre, post, data))
        &&& (reg == 7 ==> rel_write_ppudata(pre, post, data))
    }))
    &&& (addr == 0x4014 ==> ({
        &&& post.cpu_cycles == pre.cpu_cycles + 513
        &&& post.clock_count == vstd::wrapping::u64_specs::wrapping_add(pre.clock_count, 513)
        &&& (NES::dma_src_stable(data) ==> ({
            &&& forall|i: int|
                0 <= i < 256 ==> post.oam_data@[(pre.ppu_registers.oam_addr + i) % 256]
                    == pre.spec_dma_byte(data, i)
            &&& post.cpu_ram@ == pre.cpu_ram@
            &&& post.prg_rom@ == pre.prg_rom@
            &&& post.chr_rom@ == pre.chr_rom@
            &&& post.palette_table@ == pre.palette_table@
            &&& post.ppu_vram@ == pre.ppu_vram@
            &&& post.ppu_registers == pre.ppu_registers
            &&& post.ppu_read_buffer == pre.ppu_read_buffer
            &&& post.next_interrupt == pre.next_interrupt
            &&& NES::same_host(pre, post)
            &&& post.cpu_registers == pre.cpu_registers
        }))
    }))
    &&& (addr == 0x4016 ==> rel_write_controller(pre, post, data))
    &&& ((0x4000 <= addr && addr != 0x4014 && addr != 0x4016) || addr == 0x2002
        ==> NES::same_state(pre, post))
}

/// Two states that agree on every field observe the same bytes.
pub proof fn lemma_peek_congruence(a: NES, b: NES)
    requires
        NES::same_state(a, b),
    ensures
        forall|x: u16| #[trigger] a.spec_peek(x) == b.spec_peek(x),
{
    assert forall|x: u16| #[trigger] a.spec_peek(x) == b.spec_peek(x) by {
        assert(a.cpu_ram@ == b.cpu_ram@);
        assert(a.ppu_registers == b.ppu_registers);
    }
}

/// A bus write relates two states the same way whichever of two equal
/// pre-states it is read against.
pub proof fn lemma_bus_write_congruence(a: NES, b: NES, post: NES, addr: u16, data: u8)
    requires
        NES::same_state(a, b),
        rel_bus_write(b, post, addr, data),
    ensures
        rel_bus_write(a, post, addr, data),
{
    lemma_peek_congruence(b, a);
    lemma_peek_congruence(a, b);
    if addr == 0x4014 && NES::dma_src_stable(data) {
        assert forall|i: int|
            0 <= i < 256 implies post.oam_data@[(a.ppu_registers.oam_addr + i) % 256]
            == a.spec_dma_byte(data, i) by {
            assert(post.oam_data@[(b.ppu_registers.oam_addr + i) % 256] == b.spec_dma_byte(
                data,
                i,
            ));
            assert(b.spec_peek((data * 256 + i) as u16) == a.spec_peek((data * 256 + i) as u16));
        }
    }
}

impl NES {
    /// Reads the CPU-visible byte at `addr` without disturbing anything:
    /// the side-effect-free twin of `cpu_read`, fit for tracing.
    pub fn cpu_peek(&self, addr: u16) -> (r: u8)
        requires
            self.wf(),
        ensures
            r == self.spec_peek(addr),
    {
        if addr < 0x2000 {
            self.cpu_ram[(addr % 0x800) as usize]
        } else if addr < 0x4000 {
            let reg = addr % 8;
            if reg == 2 {
                self.ppu_registers.status.bits()
            } else if reg == 4 {
                self.ppu_read_oam_data()
            } else if reg == 7 {
                let a = self.ppu_registers.address.as_u16();
                if a >= 0x3F00 {
                    let i = ((a - 0x3F00) % 32) as usize;
                    if i == 0x10 || i == 0x14 || i == 0x18 || i == 0x1C {
                        self.palette_table[i - 0x10]
                    } else {
                        self.palette_table[i]
                    }
                } else {
                    self.ppu_read_buffer
                }
            } else {
                0
            }
        } else if addr == 0x4016 {
            if self.controller.button_index > 7 {
                1
            } else {
                let e = self.controller.button_index;
                let p: u8 = if e == 0 {
                    1
                } else if e == 1 {
                    2
                } else if e == 2 {
                    4
                } else if e == 3 {
                    8
                } else if e == 4 {
                    16
                } else if e == 5 {
                    32
                } else if e == 6 {
                    64
                } else {
                    128
                };
                (self.controller.snapshot / p) % 2
            }
        } else if addr < 0x8000 {
            0
        } else {
            let mut a = addr - 0x8000;
            if self.prg_rom.len() == 0x4000 && a >= 0x4000 {
                a = a - 0x4000;
            }
            proof {
                let a0 = addr - 0x8000;
                if self.prg_rom@.len() == 0x4000 {
                    assert(a0 % 0x4000 == (if a0 < 0x4000 {
                        a0
                    } else {
                        a0 - 0x4000
                    }));
                } else {
                    assert(a0 % 0x8000 == a0);
                }
            }
            self.prg_rom[a as usize]
        }
    }

    /// One CPU read of `addr`.  The value is always `spec_peek`; outside
    /// the three live ports ($2002, $2007, $4016) the console is left
    /// exactly as it was.
    pub fn cpu_read(&mut self, addr: u16) -> (r: u8)
        requires
            old(self).wf(),
        ensures
            final(self).wf(),
            r == old(self).spec_peek(addr),
            NES::stable_addr(addr) ==> NES::same_state(*old(self), *final(self)),
            0x2000 <= addr < 0x4000 && addr % 8 == 2 ==> rel_read_status(
                *old(self),
                *final(self),
            ),
            0x2000 <= addr < 0x4000 && addr % 8 == 7 ==> rel_read_ppudata(
                *old(self),
                *final(self),
            ),
            addr == 0x4016 ==> rel_read_controller(*old(self), *final(self)),
            NES::same_timing(*old(self), *final(self)),
            final(self).cpu_registers == old(self).cpu_registers,
            NES::same_mem(*old(self), *final(self)),
    {
        if addr < 0x2000 {
            self.cpu_ram[(addr % 0x800) as usize]
        } else if addr < 0x4000 {
            let reg = addr % 8;
            if reg == 2 {
                self.ppu_read_status()
            } else if reg == 4 {
                self.ppu_read_oam_data()
            } else if reg == 7 {
                self.ppu_read()
            } else {
                0
            }
        } else if addr == 0x4016 {
            self.controller.read()
        } else if addr < 0x8000 {
            0
        } else {
            let mut a = addr - 0x8000;
            if self.prg_rom.len() == 0x4000 && a >= 0x4000 {
                a = a - 0x4000;
            }
            proof {
                let a0 = addr - 0x8000;
                if self.prg_rom@.len() == 0x4000 {
                    assert(a0 % 0x4000 == (if a0 < 0x4000 {
                        a0
                    } else {
                        a0 - 0x4000
                    }));
                } else {
                    assert(a0 % 0x8000 == a0);
                }
            }
            self.prg_rom[a as usize]
        }
    }

    /// All 256 source addresses of an OAM DMA from page `h` are free of
    /// read side effects; pages outside $20-$3F (and page $40) always are.
    pub open spec fn dma_src_stable(h: u8) -> bool {
        forall|a: u16| h * 256 <= a < h * 256 + 256 ==> #[trigger] NES::stable_addr(a)
    }

    /// The byte a DMA from page `h` fetches at offset `i`.
    pub open spec fn spec_dma_byte(self, h: u8, i: int) -> u8 {
        self.spec_peek((h * 256 + i) as u16)
    }

    /// One CPU write of `data` to `addr`.  RAM takes it through the 2 KiB
    /// mirror; the PPU ports act as the register block defines; $4014 runs
    /// a 256-byte OAM DMA and
    /// stalls the CPU for 513 cycles; ROM and unwired regions swallow the
    /// write.
    pub fn cpu_write(&mut self, addr: u16, data: u8)
        requires
            old(self).wf(),
            old(self).cpu_cycles <= 0xF000,
        ensures
            final(self).wf(),
            rel_bus_write(*old(self), *final(self), addr, data),
            final(self).ppu_scanline == old(self).ppu_scanline && final(self).ppu_cycles == old(
                self,
            ).ppu_cycles,
            final(self).cpu_registers == old(self).cpu_registers,
            final(self).prg_rom@ == old(self).prg_rom@ && final(self).chr_rom@ == old(
                self,
            ).chr_rom@,
            addr != 0x4014 ==> NES::same_timing(*old(self), *final(self)),
    {
        if addr < 0x2000 {
            let idx = (addr % 0x800) as usize;
            self.cpu_ram[idx] = data;
        } else if addr < 0x4000 {
            let reg = addr % 8;
            if reg == 0 {
                self.ppu_write_control(data);
            } else if reg == 1 {
                self.ppu_write_mask(data);
            } else if reg == 3 {
                self.ppu_write_oam_address(data);
            } else if reg == 4 {
                self.ppu_write_oam_data(data);
            } else if reg == 5 {
                self.ppu_write_scroll(data);
            } else if reg == 6 {
                self.ppu_write_address(data);
            } else if reg == 7 {
                self.ppu_write(data);
            }
            // Writes to PPUSTATUS ($2002) are dropped.
        } else if addr == 0x4014 {
            self.oam_dma(data);
        } else if addr == 0x4016 {
            self.controller.write(data);
        }
        // $4000-$4013, $4015, $4017-$401F: APU and I/O, not wired.
        // $4020-$7FFF: expansion area, not wired.  $8000-$FFFF: ROM.
    }

    /// The $4014 transfer: 256 bytes from CPU page `h` stream into OAM,
    /// and the CPU stalls for 513 cycles.
    fn oam_dma(&mut self, h: u8)
        requires
            old(self).wf(),
            old(self).cpu_cycles <= 0xF000,
        ensures
            final(self).wf(),
            final(self).cpu_cycles == old(self).cpu_cycles + 513,
            final(self).clock_count == vstd::wrapping::u64_specs::wrapping_add(
                old(self).clock_count,
                513,
            ),
            final(self).ppu_scanline == old(self).ppu_scanline && final(self).ppu_cycles == old(
                self,
            ).ppu_cycles,
            final(self).cpu_registers == old(self).cpu_registers,
            final(self).prg_rom@ == old(self).prg_rom@ && final(self).chr_rom@ == old(
                self,
            ).chr_rom@,
            NES::dma_src_stable(h) ==> ({
                &&& forall|i: int|
                    0 <= i < 256 ==> final(self).oam_data@[(old(self).ppu_registers.oam_addr + i)
                        % 256] == old(self).spec_dma_byte(h, i)
                &&& final(self).cpu_ram@ == old(self).cpu_ram@
                &&& final(self).prg_rom@ == old(self).prg_rom@
                &&& final(self).chr_rom@ == old(self).chr_rom@
                &&& final(self).palette_table@ == old(self).palette_table@
                &&& final(self).ppu_vram@ == old(self).ppu_vram@
                &&& final(self).ppu_registers == old(self).ppu_registers
                &&& final(self).ppu_read_buffer == old(self).ppu_read_buffer
                &&& final(self).next_interrupt == old(self).next_interrupt
                &&& NES::same_host(*old(self), *final(self))
                &&& final(self).cpu_registers == old(self).cpu_registers
            }),
    {
        let hi: u16 = (h as u16) * 256;
        let mut buffer: Vec<u8> = Vec::new();
        let mut i: usize = 0;
        while i < 256
            invariant
                i <= 256,
                self.wf(),
                hi == h * 256,
                buffer@.len() == i,
                NES::same_timing(*old(self), *self),
                self.cpu_registers == old(self).cpu_registers,
                self.prg_rom@ == old(self).prg_rom@ && self.chr_rom@ == old(self).chr_rom@,
                NES::same_mem(*old(self), *self),
                self.cpu_cycles <= 0xF000,
                NES::dma_src_stable(h) ==> NES::same_state(*old(self), *self) && forall|j: int|
                    0 <= j < i ==> buffer@[j] == old(self).spec_dma_byte(h, j),
            decreases 256 - i,
        {
            let b = self.cpu_read(hi + i as u16);
            buffer.push(b);
            i = i + 1;
        }
        let ghost mid = *self;
        self.ppu_write_oam_dma(&buffer);
        proof {
            if NES::dma_src_stable(h) {
                assert forall|k: int|
                    0 <= k < 256 implies self.oam_data@[(old(self).ppu_registers.oam_addr + k)
                        % 256] == old(self).spec_dma_byte(h, k) by {
                    assert(self.oam_data@[(mid.ppu_registers.oam_addr + k) % 256] == buffer@[k]);
                }
            }
        }
        self.cpu_cycles = self.cpu_cycles + 513;
        self.clock_count = self.clock_count.wrapping_add(513);
    }

    /// Little-endian 16-bit read: the byte at `addr` is the low half, the
    /// byte after it (wrapping at $FFFF) the high half.
    pub fn cpu_read_u16(&mut self, addr: u16) -> (r: u16)
        requires
            old(self).wf(),
        ensures
            final(self).wf(),
            NES::stable_addr(addr) && NES::stable_addr(wrap16(addr + 1)) ==> r == old(
                self,
            ).spec_peek16(addr) && NES::same_state(*old(self), *final(self)),
            NES::same_timing(*old(self), *final(self)),
            final(self).cpu_registers == old(self).cpu_registers,
            NES::same_mem(*old(self), *final(self)),
    {
        let low = self.cpu_read(addr);
        let high = self.cpu_read(add16(addr, 1));
        (high as u16) * 256 + (low as u16)
    }

    /// Little-endian 16-bit write: low byte at `addr`, high byte just
    /// above it (wrapping at $FFFF).
    pub fn cpu_write_u16(&mut self, addr: u16, data: u16)
        requires
            old(self).wf(),
            old(self).cpu_cycles <= 0xE000,
        ensures
            final(self).wf(),
            addr < 0x2000 && wrap16(addr + 1) < 0x2000 ==> final(self).cpu_ram@ == old(
                self,
            ).cpu_ram@.update(addr as int % 0x800, (data % 256) as u8).update(
                wrap16(addr + 1) as int % 0x800,
                (data / 256) as u8,
            ) && NES::same_timing(*old(self), *final(self)) && NES::same_host(
                *old(self),
                *final(self),
            ) && NES::same_ppu_regs(*old(self), *final(self)) && final(self).cpu_registers == old(
                self,
            ).cpu_registers && final(self).next_interrupt == old(self).next_interrupt,
            final(self).cpu_registers == old(self).cpu_registers,
            final(self).prg_rom@ == old(self).prg_rom@ && final(self).chr_rom@ == old(
                self,
            ).chr_rom@,
    {
        let low = (data % 256) as u8;
        let high = (data / 256) as u8;
        self.cpu_write(addr, low);
        self.cpu_write(add16(addr, 1), high);
    }

    /// Pushes one byte: stores at $0100 + SP, then SP steps down,
    /// wrapping within the stack page.
    pub fn stack_push(&mut self, data: u8)
        requires
            old(self).wf(),
            old(self).cpu_cycles <= 0xF000,
        ensures
            final(self).wf(),
            final(self).cpu_ram@ == old(self).cpu_ram@.update(
                0x100 + old(self).cpu_registers.stack_pointer as int,
                data,
            ),
            final(self).cpu_registers.stack_pointer == wrap8(
                old(self).cpu_registers.stack_pointer - 1,
            ),
            final(self).cpu_registers.accumulator == old(self).cpu_registers.accumulator,
            final(self).cpu_registers.x == old(self).cpu_registers.x,
            final(self).cpu_registers.y == old(self).cpu_registers.y,
            final(self).cpu_registers.status == old(self).cpu_registers.status,
            final(self).cpu_registers.program_counter == old(
                self,
            ).cpu_registers.program_counter,
            NES::same_timing(*old(self), *final(self)),
            NES::same_host(*old(self), *final(self)),
            NES::same_ppu_regs(*old(self), *final(self)),
            final(self).next_interrupt == old(self).next_interrupt,
            final(self).prg_rom@ == old(self).prg_rom@ && final(self).chr_rom@ == old(
                self,
            ).chr_rom@,
            final(self).palette_table@ == old(self).palette_table@ && final(self).ppu_vram@
                == old(self).ppu_vram@ && final(self).oam_data@ == old(self).oam_data@,
    {
        let sp = self.cpu_registers.stack_pointer;
        self.cpu_write(0x0100 + sp as u16, data);
        self.cpu_registers.stack_pointer = if sp == 0 {
            0xFF
        } else {
            sp - 1
        };
    }

    /// Pops one byte: SP steps up (wrapping), then the byte at
    /// $0100 + SP is read.
    pub fn stack_pop(&mut self) -> (r: u8)
        requires
            old(self).wf(),
        ensures
            final(self).wf(),
            final(self).cpu_registers.stack_pointer == wrap8(
                old(self).cpu_registers.stack_pointer + 1,
            ),
            r == old(self).cpu_ram@[0x100 + wrap8(old(self).cpu_registers.stack_pointer + 1) as int],
            final(self).cpu_registers.accumulator == old(self).cpu_registers.accumulator,
            final(self).cpu_registers.x == old(self).cpu_registers.x,
            final(self).cpu_registers.y == old(self).cpu_registers.y,
            final(self).cpu_registers.status == old(self).cpu_registers.status,
            final(self).cpu_registers.program_counter == old(
                self,
            ).cpu_registers.program_counter,
            NES::same_mem(*old(self), *final(self)),
            NES::same_timing(*old(self), *final(self)),
            NES::same_host(*old(self), *final(self)),
            NES::same_ppu_regs(*old(self), *final(self)),
            final(self).next_interrupt == old(self).next_interrupt,
    {
        let sp = if self.cpu_registers.stack_pointer == 0xFF {
            0
        } else {
            self.cpu_registers.stack_pointer + 1
        };
        self.cpu_registers.stack_pointer = sp;
        self.cpu_read(0x0100 + sp as u16)
    }

    /// Pushes a 16-bit value, high byte first, as interrupts and JSR do.
    pub fn stack_push_u16(&mut self, data: u16)
        requires
            old(self).wf(),
            old(self).cpu_cycles <= 0xF000,
        ensures
            final(self).wf(),
            final(self).cpu_ram@ == old(self).cpu_ram@.update(
                0x100 + old(self).cpu_registers.stack_pointer as int,
                (data / 256) as u8,
            ).update(
                0x100 + wrap8(old(self).cpu_registers.stack_pointer - 1) as int,
                (data % 256) as u8,
            ),
            final(self).cpu_registers.stack_pointer == wrap8(
                old(self).cpu_registers.stack_pointer - 2,
            ),
            final(self).cpu_registers.accumulator == old(self).cpu_registers.accumulator,
            final(self).cpu_registers.x == old(self).cpu_registers.x,
            final(self).cpu_registers.y == old(self).cpu_registers.y,
            final(self).cpu_registers.status == old(self).cpu_registers.status,
            final(self).cpu_registers.program_counter == old(
                self,
            ).cpu_registers.program_counter,
            NES::same_timing(*old(self), *final(self)),
            NES::same_host(*old(self), *final(self)),
            NES::same_ppu_regs(*old(self), *final(self)),
            final(self).next_interrupt == old(self).next_interrupt,
            final(self).prg_rom@ == old(self).prg_rom@ && final(self).chr_rom@ == old(
                self,
            ).chr_rom@,
            final(self).palette_table@ == old(self).palette_table@ && final(self).ppu_vram@
                == old(self).ppu_vram@ && final(self).oam_data@ == old(self).oam_data@,
    {
        let high = (data / 256) as u8;
        let low = (data % 256) as u8;
        self.stack_push(high);
        self.stack_push(low);
    }

    /// Pops a 16-bit value, low byte first, as RTS and RTI do.
    pub fn stack_pop_u16(&mut self) -> (r: u16)
        requires
            old(self).wf(),
        ensures
            final(self).wf(),
            final(self).cpu_registers.stack_pointer == wrap8(
                old(self).cpu_registers.stack_pointer + 2,
            ),
            r == old(self).cpu_ram@[0x100 + wrap8(old(self).cpu_registers.stack_pointer + 1) as int]
                + 256 * old(self).cpu_ram@[0x100 + wrap8(
                old(self).cpu_registers.stack_pointer + 2,
            ) as int],
            final(self).cpu_registers.accumulator == old(self).cpu_registers.accumulator,
            final(self).cpu_registers.x == old(self).cpu_registers.x,
            final(self).cpu_registers.y == old(self).cpu_registers.y,
            final(self).cpu_registers.status == old(self).cpu_registers.status,
            final(self).cpu_registers.program_counter == old(
                self,
            ).cpu_registers.program_counter,
            NES::same_mem(*old(self), *final(self)),
            NES::same_timing(*old(self), *final(self)),
            NES::same_host(*old(self), *final(self)),
            NES::same_ppu_regs(*old(self), *final(self)),
            final(self).next_interrupt == old(self).next_interrupt,
    {
        let low = self.stack_pop();
        let high = self.stack_pop();
        (high as u16) * 256 + (low as u16)
    }
}


/// The fetch step of an instruction: the program counter moves one past
/// the opcode byte and nothing else changes.
pub open spec fn rel_fetch(pre: NES, mid: NES) -> bool {
    &&& NES::same_mem(pre, mid)
    &&& NES::same_timing(pre, mid)
    &&& NES::same_host(pre, mid)
    &&& NES::same_ppu_regs(pre, mid)
    &&& mid.next_interrupt == pre.next_interrupt
    &&& mid.cpu_registers.accumulator == pre.cpu_registers.accumulator
    &&& mid.cpu_registers.x == pre.cpu_registers.x
    &&& mid.cpu_registers.y == pre.cpu_registers.y
    &&& mid.cpu_registers.stack_pointer == pre.cpu_registers.stack_pointer
    &&& mid.cpu_registers.status == pre.cpu_registers.status
    &&& mid.cpu_registers.program_counter == wrap16(pre.cpu_registers.program_counter + 1)
    &&& mid.wf()
}

/// The retire step of an instruction: everything but the program counter
/// and the cycle counters is kept; the counters absorb the instruction's
/// `r` cycles.
pub open spec fn rel_retire(end: NES, post: NES, r: usize) -> bool {
    &&& NES::same_mem(end, post)
    &&& NES::same_host(end, post)
    &&& NES::same_ppu_regs(end, post)
    &&& post.next_interrupt == end.next_interrupt
    &&& post.cpu_registers.accumulator == end.cpu_registers.accumulator
    &&& post.cpu_registers.x == end.cpu_registers.x
    &&& post.cpu_registers.y == end.cpu_registers.y
    &&& post.cpu_registers.stack_pointer == end.cpu_registers.stack_pointer
    &&& post.cpu_registers.status == end.cpu_registers.status
    &&& post.cpu_cycles == end.cpu_cycles + r
    &&& post.clock_count == vstd::wrapping::u64_specs::wrapping_add(end.clock_count, r as u64)
    &&& post.ppu_cycles == end.ppu_cycles && post.ppu_scanline == end.ppu_scanline
}

/// One whole instruction, as seen from a state about to fetch: the byte
/// at the program counter decodes to its table row; after the fetch step,
/// the row's kernel relates the intermediate states and reports the
/// penalty cycles; the program counter then advances by the row's
/// remaining length exactly when the kernel left it alone; and the cycle
/// counters absorb the row's base cycles plus the penalty, which is `r`.
pub open spec fn rel_instruction_step(pre: NES, post: NES, r: usize) -> bool {
    let pc = pre.cpu_registers.program_counter;
    let row = crate::cpu::instructions::spec_decode(pre.spec_peek(pc));
    &&& row.cycles <= r <= row.cycles + 2
    &&& exists|mid: NES, end: NES|
        {
            &&& #[trigger] crate::cpu::instructions::op_rel(
                row.op,
                row.mode,
                mid,
                end,
                (r - row.cycles) as usize,
            )
            &&& rel_fetch(pre, mid)
            &&& rel_retire(end, post, r)
            &&& post.cpu_registers.program_counter == (
            if end.cpu_registers.program_counter == mid.cpu_registers.program_counter {
                wrap16(end.cpu_registers.program_counter + row.len - 1)
            } else {
                end.cpu_registers.program_counter
            })
        }
}

impl NES {
    /// Runs the opcode's kernel through the table and reports how far the
    /// program counter should advance when the kernel left it alone, plus
    /// the instruction's cycle count.
    pub fn execute_instruction(&mut self, opcode: u8) -> (r: (u16, usize))
        requires
            old(self).wf(),
            old(self).cpu_cycles <= 0xE000,
        ensures
            final(self).wf(),
            final(self).cpu_cycles <= old(self).cpu_cycles + 513,
            ({
                let row = crate::cpu::instructions::spec_decode(opcode);
                &&& r.0 == row.len - 1
                &&& row.cycles <= r.1 <= row.cycles + 2
                &&& crate::cpu::instructions::op_rel(
                    row.op,
                    row.mode,
                    *old(self),
                    *final(self),
                    (r.1 - row.cycles) as usize,
                )
            }),
            r.0 <= 2,
            1 <= r.1 <= 10,
    {
        let instruction = crate::cpu::instructions::decode(opcode);
        let cycles = instruction.execute(self);
        (instruction.size(), cycles)
    }

    /// One CPU clock: when the budget from the last instruction is spent,
    /// fetches and executes the next instruction and returns its cycle
    /// count; otherwise just pays one cycle down and returns zero.
    pub fn cpu_clock(&mut self) -> (r: usize)
        requires
            old(self).wf(),
        ensures
            final(self).wf(),
            r <= 600,
            old(self).cpu_cycles > 0 ==> ({
                &&& r == 0
                &&& final(self).cpu_cycles == old(self).cpu_cycles - 1
                &&& NES::same_mem(*old(self), *final(self))
                &&& NES::same_host(*old(self), *final(self))
                &&& NES::same_ppu_regs(*old(self), *final(self))
                &&& final(self).cpu_registers == old(self).cpu_registers
                &&& final(self).next_interrupt == old(self).next_interrupt
                &&& final(self).clock_count == old(self).clock_count
                &&& final(self).ppu_cycles == old(self).ppu_cycles
                &&& final(self).ppu_scanline == old(self).ppu_scanline
            }),
            old(self).cpu_cycles == 0 ==> 1 <= r && final(self).cpu_cycles <= 1000,
            old(self).cpu_cycles == 0 && NES::stable_addr(
                old(self).cpu_registers.program_counter,
            ) ==> rel_instruction_step(*old(self), *final(self), r),
    {
        if self.cpu_cycles == 0 {
            let pc = self.cpu_registers.program_counter;
            let opcode = self.cpu_read(pc);
            self.cpu_registers.program_counter = add16(self.cpu_registers.program_counter, 1);
            let ghost mid = *self;
            let old_program_counter = self.cpu_registers.program_counter;
            let (length, cycles) = self.execute_instruction(opcode);
            let ghost end = *self;
            if old_program_counter == self.cpu_registers.program_counter {
                self.cpu_registers.program_counter = add16(
                    self.cpu_registers.program_counter,
                    length,
                );
            }
            self.cpu_cycles = self.cpu_cycles + cycles as u64;
            self.clock_count = self.clock_count.wrapping_add(cycles as u64);
            proof {
                if NES::stable_addr(old(self).cpu_registers.program_counter) {
                    let row = crate::cpu::instructions::spec_decode(
                        old(self).spec_peek(old(self).cpu_registers.program_counter),
                    );
                    assert(crate::cpu::instructions::op_rel(
                        row.op,
                        row.mode,
                        mid,
                        end,
                        (cycles - row.cycles) as usize,
                    ));
                    assert(rel_fetch(*old(self), mid));
                    assert(rel_retire(end, *self, cycles));
                }
            }
            return cycles;
        }
        self.cpu_cycles = self.cpu_cycles - 1;
        0
    }
}


/// A 16 KiB cartridge repeats its single PRG bank: for every offset `k`
/// inside the bank, the bytes read at $8000 + k and $C000 + k agree.
pub proof fn lemma_prg_bank_mirroring(s: NES, k: u16)
    requires
        s.wf(),
        s.prg_rom@.len() == 0x4000,
        k <= 0x3FFF,
    ensures
        s.spec_peek((0x8000 + k) as u16) == s.spec_peek((0xC000 + k) as u16),
{
    vstd::arithmetic::div_mod::lemma_small_mod(k as nat, 0x4000);
    vstd::arithmetic::div_mod::lemma_mod_multiples_vanish(1, k as int, 0x4000);
}

} // verus!
