//! Cycle-driven core of an 8-bit NES console emulator: a 6502-family CPU
//! and a scanline PPU co-simulated over a shared, mirrored memory bus with
//! an OAM DMA path and an NMI hand-off.

pub mod cartridge;
pub mod color;
pub mod cpu;
pub mod input;
pub mod interrupt;
pub mod ppu;
pub mod renderer;

use vstd::prelude::*;

verus! {

use crate::cartridge::{Cartridge, ScreenMirroring};
use crate::color::ColorPalette;
use crate::cpu::AddrMode;
use crate::cpu::registers::CpuRegisters;
use crate::input::Controller;
use crate::ppu::registers::PpuRegisters;
use crate::renderer::Frame;

/// The two asynchronous interrupt sources; BRK shares the IRQ vector.
#[derive(Clone, Copy, Debug, PartialEq, Eq, Structural)]
pub enum Interrupt {
    NMI,
    IRQ,
}

impl Interrupt {
    /// Where the 16-bit handler address of this source lives.
    pub fn address(&self) -> (r: u16)
        ensures
            *self == Interrupt::NMI ==> r == 0xFFFA,
            *self == Interrupt::IRQ ==> r == 0xFFFE,
    {
        match self {
            Interrupt::NMI => 0xFFFA,
            Interrupt::IRQ => 0xFFFE,
        }
    }
}

/// The interrupt-service step before the next instruction: with nothing
/// pending the console is untouched; a pending source is consumed, its
/// frame pushed with the B pair as %10, and the program counter vectors
/// through $FFFA for NMI or $FFFE for IRQ, at a cost of seven cycles.
pub open spec fn rel_service_interrupt(pre: NES, post: NES) -> bool {
    &&& (post.wf())
    &&& (pre.next_interrupt is None ==> NES::same_state(pre, post))
    &&& (pre.next_interrupt is Some ==> ({
                let vector: u16 = if pre.next_interrupt == Some(Interrupt::NMI) {
                    0xFFFAu16
                } else {
                    0xFFFEu16
                };
                let regs = pre.cpu_registers;
                let pc = regs.program_counter;
                &&& post.cpu_ram@ == pre.cpu_ram@.update(
                    0x100 + regs.stack_pointer as int,
                    (pc / 256) as u8,
                ).update(
                    0x100 + crate::cpu::wrap8(regs.stack_pointer - 1) as int,
                    (pc % 256) as u8,
                ).update(
                    0x100 + crate::cpu::wrap8(regs.stack_pointer - 2) as int,
                    (crate::cpu::registers::Status { b: 2, ..regs.status }).spec_bits(),
                )
                &&& post.cpu_registers.stack_pointer == crate::cpu::wrap8(
                    regs.stack_pointer - 3,
                )
                &&& post.cpu_registers.status == (crate::cpu::registers::Status {
                    interrupt_disable: true,
                    ..regs.status
                })
                &&& post.cpu_registers.program_counter == pre.spec_peek16(vector)
                &&& post.cpu_cycles == pre.cpu_cycles + 7
                &&& post.next_interrupt is None
            }))
}

/// The 2-bit pattern value of the tile at CHR offset `base`, pixel row
/// `row`, taken `shift` bits from the right of each plane: bit 0 from the
/// low plane at `base + row`, bit 1 from the high plane eight bytes on.
pub open spec fn spec_tile_pixel(chr: Seq<u8>, base: int, row: int, shift: int) -> int {
    2 * ((chr[base + row + 8] as usize >> shift) % 2) + ((chr[base + row] as usize >> shift) % 2)
}

/// The palette-table index the background shows at pixel (px, py): the
/// tile of the active nametable under the pixel, its attribute quadrant's
/// palette, and the universal background color for pattern value zero.
pub open spec fn spec_bg_index(s: NES, px: int, py: int) -> u8 {
    let tile_x = px / 8;
    let tile_y = py / 8;
    let nt_base = s.spec_mirror_vram(
        (0x2000 + 0x400 * (s.ppu_registers.control.nametable as int)) as u16,
    );
    let tile = s.ppu_vram@[nt_base + tile_y * 32 + tile_x] as int;
    let attr = s.ppu_vram@[nt_base + 0x3C0 + (tile_y / 4) * 8 + tile_x / 4];
    let pal = NES::spec_attr_quadrant(attr, tile_x, tile_y);
    let bank: int = if s.ppu_registers.control.background_pattern_address {
        0x1000
    } else {
        0
    };
    let v = spec_tile_pixel(s.chr_rom@, bank + tile * 16, py % 8, 7 - px % 8);
    if v == 0 {
        s.palette_table@[0]
    } else {
        s.palette_table@[pal * 4 + v]
    }
}

/// Whether the 8x8 box of the sprite whose OAM record starts at `4 * i`
/// covers pixel (px, py).
pub open spec fn spec_sprite_covers(s: NES, i: int, px: int, py: int) -> bool {
    let y0 = s.oam_data@[4 * i] as int;
    let x0 = s.oam_data@[4 * i + 3] as int;
    x0 <= px < x0 + 8 && y0 <= py < y0 + 8
}

/// The 2-bit pattern value sprite `i` shows at pixel (px, py), its
/// horizontal and vertical flips applied; zero is transparent.
pub open spec fn spec_sprite_value(s: NES, i: int, px: int, py: int) -> int {
    let y0 = s.oam_data@[4 * i] as int;
    let tile = s.oam_data@[4 * i + 1] as int;
    let attr = s.oam_data@[4 * i + 2];
    let x0 = s.oam_data@[4 * i + 3] as int;
    let col: int = if (attr / 64) % 2 == 1 {
        7 - (px - x0)
    } else {
        px - x0
    };
    let row: int = if (attr / 128) % 2 == 1 {
        7 - (py - y0)
    } else {
        py - y0
    };
    let bank: int = if s.ppu_registers.control.sprite_pattern_address {
        0x1000
    } else {
        0
    };
    spec_tile_pixel(s.chr_rom@, bank + tile * 16, row, 7 - col)
}

/// The palette-table index of sprite `i` at pixel (px, py), from the
/// sprite half of the palette.
pub open spec fn spec_sprite_color(s: NES, i: int, px: int, py: int) -> u8 {
    let attr = s.oam_data@[4 * i + 2];
    s.palette_table@[0x10 + (attr % 4) * 4 + spec_sprite_value(s, i, px, py)]
}

/// The palette-table index shown at (px, py) once sprites below index `i`
/// are ruled out: the lowest-index sprite with an opaque pixel there wins
/// (sprite 0 is topmost), and the background shows through otherwise.
pub open spec fn spec_pixel_from(s: NES, px: int, py: int, i: int) -> u8
    decreases 64 - i,
{
    if i >= 64 {
        spec_bg_index(s, px, py)
    } else if spec_sprite_covers(s, i, px, py) && spec_sprite_value(s, i, px, py) != 0 {
        spec_sprite_color(s, i, px, py)
    } else {
        spec_pixel_from(s, px, py, i + 1)
    }
}

/// The RGB color shown at (px, py): the composited palette-table index,
/// folded into the 64-entry system palette.
pub open spec fn spec_pixel_rgb(s: NES, px: int, py: int) -> crate::color::Color {
    s.system_palette.0@[spec_pixel_from(s, px, py, 0) as int % 64]
}

/// The three bytes of frame `f` at pixel (x, y) hold that pixel's
/// composited color for state `s`.
pub open spec fn spec_pixel_painted(s: NES, f: Seq<u8>, x: int, y: int) -> bool {
    let c = spec_pixel_rgb(s, x, y);
    &&& f[(y * 256 + x) * 3] == c.r
    &&& f[(y * 256 + x) * 3 + 1] == c.g
    &&& f[(y * 256 + x) * 3 + 2] == c.b
}

/// The frame-render step: every pixel of the frame buffer takes its
/// composited color and everything else is kept.
pub open spec fn rel_render(pre: NES, post: NES) -> bool {
    &&& (post.wf())
    &&& (NES::same_mem(pre, post))
    &&& (NES::same_timing(pre, post))
    &&& (NES::same_ppu_regs(pre, post))
    &&& (post.cpu_registers == pre.cpu_registers)
    &&& (post.next_interrupt == pre.next_interrupt)
    &&& (post.mirroring == pre.mirroring)
    &&& (post.system_palette.0@ == pre.system_palette.0@)
    &&& (post.current_frame.0@.len() == 256 * 240 * 3)
    &&& (forall|x: int, y: int|
        0 <= x < 256 && 0 <= y < 240 ==> #[trigger] spec_pixel_painted(
            pre,
            post.current_frame.0@,
            x,
            y,
        ))
}

/// One full fetch-case tick, in the order the master clock dictates: an
/// instruction step per `rel_instruction_step`; the PPU advanced three
/// dots per cycle the instruction took, per `rel_ppu_advance`; a pending
/// interrupt serviced per `rel_service_interrupt`; and, exactly when the
/// beam wrapped, the finished frame rendered.
pub open spec fn rel_tick_step(pre: NES, post: NES, frame: bool) -> bool {
    exists|r: usize, s1: NES|
        {
            &&& #[trigger] crate::cpu::rel_instruction_step(pre, s1, r)
            &&& 1 <= r <= 600
            &&& exists|s2: NES|
                {
                    &&& #[trigger] crate::ppu::rel_ppu_advance(s1, s2, r as u64, frame)
                    &&& exists|s3: NES|
                        {
                            &&& #[trigger] rel_service_interrupt(s2, s3)
                            &&& if frame {
                                rel_render(s3, post)
                            } else {
                                NES::same_state(s3, post)
                            }
                        }
                }
        }
}

/// The whole console: CPU state, PPU state, memories, the joypad and the
/// frame under construction, owned together so that bus accesses can touch
/// any of them.
pub struct NES {
    // CPU side
    pub cpu_ram: Vec<u8>,
    pub prg_rom: Vec<u8>,
    /// Cycles still owed for the last instruction; a new instruction is
    /// fetched only when this reaches zero.
    pub cpu_cycles: u64,
    /// Total cycles since power-on.
    pub clock_count: u64,
    pub cpu_registers: CpuRegisters,
    // PPU side
    pub chr_rom: Vec<u8>,
    pub palette_table: Vec<u8>,
    pub ppu_vram: Vec<u8>,
    pub oam_data: Vec<u8>,
    pub mirroring: ScreenMirroring,
    /// Current dot within the scanline, 0..341.
    pub ppu_cycles: u64,
    /// Current scanline, 0..262.
    pub ppu_scanline: u64,
    pub ppu_registers: PpuRegisters,
    /// The PPUDATA read-behind buffer.
    pub ppu_read_buffer: u8,
    // misc
    pub next_interrupt: Option<Interrupt>,
    pub controller: Controller,
    pub system_palette: ColorPalette,
    pub current_frame: Frame,
}

impl NES {
    /// Structural well-formedness: every memory has its hardware size, the
    /// bit-packed registers are in range, and the timing counters are
    /// inside one frame.
    pub open spec fn wf(self) -> bool {
        &&& self.cpu_ram@.len() == 2048
        &&& (self.prg_rom@.len() == 0x4000 || self.prg_rom@.len() == 0x8000)
        &&& self.chr_rom@.len() == 0x2000
        &&& self.palette_table@.len() == 32
        &&& self.ppu_vram@.len() == 2048
        &&& self.oam_data@.len() == 256
        &&& self.cpu_registers.status.wf()
        &&& self.ppu_registers.wf()
        &&& self.ppu_cycles < 341
        &&& self.ppu_scanline < 262
        &&& self.cpu_cycles <= 0xFFFF
        &&& self.system_palette.wf()
        &&& self.current_frame.wf()
    }

    /// Index into the palette table for a PPU address at or above $3F00:
    /// the 32-byte table repeats through $3FFF, and entries $10/$14/$18/$1C
    /// alias the background entries $00/$04/$08/$0C.
    pub open spec fn spec_palette_index(addr: int) -> int {
        let i = (addr - 0x3F00) % 32;
        if i == 0x10 || i == 0x14 || i == 0x18 || i == 0x1C {
            i - 0x10
        } else {
            i
        }
    }

    /// Physical nametable RAM index for a logical PPU address, after the
    /// cartridge's mirroring collapses four logical tables onto 2 KiB.
    /// Four-screen carts would need their own RAM; here they fold onto the
    /// two physical tables like vertical mirroring.
    pub open spec fn spec_mirror_vram(self, addr: u16) -> int {
        let idx = (addr % 0x1000) as int;
        let nt = idx / 0x400;
        if self.mirroring == ScreenMirroring::Horizontal {
            if nt == 1 || nt == 2 {
                idx - 0x400
            } else if nt == 3 {
                idx - 0x800
            } else {
                idx
            }
        } else {
            idx % 0x800
        }
    }

    /// What a PPUDATA read returns without disturbing anything: the live
    /// palette byte for palette addresses, the read-behind buffer
    /// otherwise.
    pub open spec fn spec_ppudata_value(self) -> u8 {
        let a = self.ppu_registers.address.spec_value();
        if a >= 0x3F00 {
            self.palette_table@[NES::spec_palette_index(a)]
        } else {
            self.ppu_read_buffer
        }
    }

    /// The bit a $4016 read would shift out of the joypad.
    pub open spec fn spec_controller_bit(self) -> u8 {
        if self.controller.button_index > 7 {
            1u8
        } else {
            ((self.controller.snapshot as int / crate::input::pow2_small(
                self.controller.button_index as nat,
            )) % 2) as u8
        }
    }

    /// The value a CPU read of `addr` observes, as a function of the
    /// current state alone.  RAM repeats every 2 KiB; PPU ports repeat
    /// every 8 bytes; unwired regions read as zero; PRG ROM fills the top
    /// 32 KiB, with 16 KiB carts repeating their single bank.
    pub open spec fn spec_peek(self, addr: u16) -> u8 {
        if addr < 0x2000 {
            self.cpu_ram@[addr as int % 0x800]
        } else if addr < 0x4000 {
            let reg = addr % 8;
            if reg == 2 {
                self.ppu_registers.status.spec_bits()
            } else if reg == 4 {
                self.oam_data@[self.ppu_registers.oam_addr as int]
            } else if reg == 7 {
                self.spec_ppudata_value()
            } else {
                0u8
            }
        } else if addr == 0x4016 {
            self.spec_controller_bit()
        } else if addr < 0x8000 {
            0u8
        } else {
            self.prg_rom@[(addr - 0x8000) % self.prg_rom@.len() as int]
        }
    }

    /// Little-endian pair of reads, the second wrapping at the top of the
    /// address space.
    pub open spec fn spec_peek16(self, addr: u16) -> u16 {
        (self.spec_peek(addr) + 256 * self.spec_peek(crate::cpu::wrap16(addr + 1))) as u16
    }

    /// A read of `addr` returns `spec_peek` and leaves the console
    /// untouched, except at the three live ports: PPUSTATUS ($2002),
    /// PPUDATA ($2007) and the joypad ($4016).
    pub open spec fn stable_addr(addr: u16) -> bool {
        !((0x2000 <= addr < 0x4000 && (addr % 8 == 2 || addr % 8 == 7)) || addr == 0x4016)
    }

    // Frame conditions: which groups of fields two states share.
    /// Same memories everywhere.
    pub open spec fn same_mem(a: NES, b: NES) -> bool {
        &&& a.cpu_ram@ == b.cpu_ram@
        &&& a.prg_rom@ == b.prg_rom@
        &&& a.chr_rom@ == b.chr_rom@
        &&& a.palette_table@ == b.palette_table@
        &&& a.ppu_vram@ == b.ppu_vram@
        &&& a.oam_data@ == b.oam_data@
    }

    /// Same cycle counters and PPU beam position.
    pub open spec fn same_timing(a: NES, b: NES) -> bool {
        &&& a.cpu_cycles == b.cpu_cycles
        &&& a.clock_count == b.clock_count
        &&& a.ppu_cycles == b.ppu_cycles
        &&& a.ppu_scanline == b.ppu_scanline
    }

    /// Same joypad, cartridge wiring, palette file and frame buffer.
    pub open spec fn same_host(a: NES, b: NES) -> bool {
        &&& a.controller.strobe == b.controller.strobe
        &&& a.controller.button_index == b.controller.button_index
        &&& a.controller.snapshot == b.controller.snapshot
        &&& a.controller.button_state == b.controller.button_state
        &&& a.mirroring == b.mirroring
        &&& a.system_palette.0@ == b.system_palette.0@
        &&& a.current_frame.0@ == b.current_frame.0@
    }

    /// Same PPU register block and read buffer.
    pub open spec fn same_ppu_regs(a: NES, b: NES) -> bool {
        &&& a.ppu_registers == b.ppu_registers
        &&& a.ppu_read_buffer == b.ppu_read_buffer
    }

    /// Everything equal.
    pub open spec fn same_state(a: NES, b: NES) -> bool {
        &&& NES::same_mem(a, b)
        &&& NES::same_timing(a, b)
        &&& NES::same_host(a, b)
        &&& NES::same_ppu_regs(a, b)
        &&& a.cpu_registers == b.cpu_registers
        &&& a.next_interrupt == b.next_interrupt
    }
}

impl Default for NES {
    /// A console with no cartridge: every memory zeroed, a 32 KiB blank
    /// PRG bank and blank CHR in place, horizontal mirroring, a black
    /// system palette.
    fn default() -> (r: NES)
        ensures
            r.wf(),
            forall|i: int| 0 <= i < 2048 ==> r.cpu_ram@[i] == 0u8,
            forall|i: int| 0 <= i < 0x8000 ==> r.prg_rom@[i] == 0u8,
            r.prg_rom@.len() == 0x8000,
            forall|i: int| 0 <= i < 0x2000 ==> r.chr_rom@[i] == 0u8,
            forall|i: int| 0 <= i < 32 ==> r.palette_table@[i] == 0u8,
            forall|i: int| 0 <= i < 2048 ==> r.ppu_vram@[i] == 0u8,
            forall|i: int| 0 <= i < 256 ==> r.oam_data@[i] == 0u8,
            r.cpu_registers == CpuRegisters::default_spec(),
            r.ppu_registers == PpuRegisters::default_spec(),
            r.cpu_cycles == 0 && r.clock_count == 0,
            r.ppu_cycles == 0 && r.ppu_scanline == 0,
            r.ppu_read_buffer == 0,
            r.mirroring == ScreenMirroring::Horizontal,
            r.next_interrupt is None,
            r.controller.strobe == false && r.controller.button_index == 0
                && r.controller.snapshot == 0,
    {
        NES {
            cpu_ram: crate::cartridge::zero_filled(2048),
            prg_rom: crate::cartridge::zero_filled(0x8000),
            cpu_cycles: 0,
            clock_count: 0,
            cpu_registers: CpuRegisters::default(),
            chr_rom: crate::cartridge::zero_filled(0x2000),
            palette_table: crate::cartridge::zero_filled(32),
            ppu_vram: crate::cartridge::zero_filled(2048),
            oam_data: crate::cartridge::zero_filled(256),
            mirroring: ScreenMirroring::Horizontal,
            ppu_cycles: 0,
            ppu_scanline: 0,
            ppu_registers: PpuRegisters::default(),
            ppu_read_buffer: 0,
            next_interrupt: None,
            controller: Controller::new(),
            system_palette: ColorPalette::new(),
            current_frame: Frame::new(),
        }
    }
}

impl NES {
    /// A console wired to the given 64-color system palette, otherwise in
    /// the power-on state of `Default`: every memory zeroed, blank 32 KiB
    /// PRG and 8 KiB CHR banks, horizontal mirroring, the beam at dot zero
    /// and no interrupt pending.
    pub fn new(system_palette: ColorPalette) -> (r: NES)
        requires
            system_palette.wf(),
        ensures
            r.wf(),
            r.system_palette.0@ == system_palette.0@,
            forall|i: int| 0 <= i < 2048 ==> r.cpu_ram@[i] == 0u8,
            r.prg_rom@.len() == 0x8000,
            forall|i: int| 0 <= i < 0x8000 ==> r.prg_rom@[i] == 0u8,
            forall|i: int| 0 <= i < 0x2000 ==> r.chr_rom@[i] == 0u8,
            forall|i: int| 0 <= i < 32 ==> r.palette_table@[i] == 0u8,
            forall|i: int| 0 <= i < 2048 ==> r.ppu_vram@[i] == 0u8,
            forall|i: int| 0 <= i < 256 ==> r.oam_data@[i] == 0u8,
            r.cpu_registers == CpuRegisters::default_spec(),
            r.ppu_registers == PpuRegisters::default_spec(),
            r.cpu_cycles == 0 && r.clock_count == 0,
            r.ppu_cycles == 0 && r.ppu_scanline == 0,
            r.ppu_read_buffer == 0,
            r.mirroring == ScreenMirroring::Horizontal,
            r.next_interrupt is None,
            r.controller.strobe == false && r.controller.button_index == 0
                && r.controller.snapshot == 0,
    {
        let mut nes = NES::default();
        nes.system_palette = system_palette;
        nes
    }

    /// Installs a cartridge: PRG, CHR and the nametable mirroring mode.
    /// Only mapper-0 sizes are accepted.
    pub fn insert_cart(&mut self, cart: Cartridge)
        requires
            old(self).wf(),
            cart.prg_rom@.len() == 0x4000 || cart.prg_rom@.len() == 0x8000,
            cart.chr_rom@.len() == 0x2000,
        ensures
            final(self).wf(),
            final(self).prg_rom@ == cart.prg_rom@,
            final(self).chr_rom@ == cart.chr_rom@,
            final(self).mirroring == cart.screen_mirroring,
            final(self).cpu_ram@ == old(self).cpu_ram@,
            final(self).ppu_vram@ == old(self).ppu_vram@,
            final(self).palette_table@ == old(self).palette_table@,
            final(self).oam_data@ == old(self).oam_data@,
            final(self).cpu_registers == old(self).cpu_registers,
            final(self).ppu_registers == old(self).ppu_registers,
            NES::same_timing(*old(self), *final(self)),
    {
        self.prg_rom = cart.prg_rom;
        self.chr_rom = cart.chr_rom;
        self.mirroring = cart.screen_mirroring;
    }
}

impl NES {
    /// Effective address and page-cross flag of the current instruction's
    /// operand.  Implied and Accumulator have no operating address and are
    /// excluded; Immediate operands sit at the program counter itself.
    pub fn get_operating_address(&mut self, mode: &AddrMode) -> (r: (u16, bool))
        requires
            old(self).wf(),
            *mode != AddrMode::Implied && *mode != AddrMode::Accumulator,
        ensures
            final(self).wf(),
            crate::cpu::spec_op_fetch_stable(*old(self), *mode) ==> NES::same_state(
                *old(self),
                *final(self),
            ) && r == crate::cpu::spec_op_resolve(*old(self), *mode),
            final(self).cpu_registers == old(self).cpu_registers,
            NES::same_timing(*old(self), *final(self)),
            NES::same_mem(*old(self), *final(self)),
    {
        match mode {
            AddrMode::Immediate => (self.cpu_registers.program_counter, false),
            _ => {
                let pc = self.cpu_registers.program_counter;
                self.get_absolute_address(pc, mode)
            },
        }
    }

    /// Resolves `mode` against the operand bytes at `addr`, per the
    /// addressing-mode table: zero-page indexing wraps within the page,
    /// the Indirect pointer's high fetch cannot leave its page, and the
    /// indexed modes report whether a page boundary was crossed.
    pub fn get_absolute_address(&mut self, addr: u16, mode: &AddrMode) -> (r: (u16, bool))
        requires
            old(self).wf(),
            *mode != AddrMode::Implied && *mode != AddrMode::Accumulator && *mode
                != AddrMode::Immediate,
        ensures
            final(self).wf(),
            crate::cpu::spec_fetch_stable(*old(self), *mode, addr) ==> NES::same_state(
                *old(self),
                *final(self),
            ) && r == crate::cpu::spec_resolve(*old(self), *mode, addr),
            final(self).cpu_registers == old(self).cpu_registers,
            NES::same_timing(*old(self), *final(self)),
            NES::same_mem(*old(self), *final(self)),
    {
        match mode {
            AddrMode::ZeroPage => {
                let a = self.cpu_read(addr) as u16;
                (a, false)
            },
            AddrMode::ZeroPageX => {
                let a = crate::cpu::add8(self.cpu_read(addr), self.cpu_registers.x) as u16;
                (a, false)
            },
            AddrMode::ZeroPageY => {
                let a = crate::cpu::add8(self.cpu_read(addr), self.cpu_registers.y) as u16;
                (a, false)
            },
            AddrMode::Relative => {
                let offset = self.cpu_read(addr);
                let base = crate::cpu::add16(addr, 1);
                let new_addr = if offset < 128 {
                    crate::cpu::add16(base, offset as u16)
                } else {
                    crate::cpu::add16(base, (offset as u16) + 0xFF00)
                };
                proof {
                    crate::cpu::lemma_wrap_signed(addr + 1, offset);
                }
                (new_addr, crate::cpu::page_crossed(addr, new_addr))
            },
            AddrMode::Absolute => {
                let a = self.cpu_read_u16(addr);
                (a, false)
            },
            AddrMode::AbsoluteX => {
                let base = self.cpu_read_u16(addr);
                let a = crate::cpu::add16(base, self.cpu_registers.x as u16);
                (a, crate::cpu::page_crossed(base, a))
            },
            AddrMode::AbsoluteY => {
                let base = self.cpu_read_u16(addr);
                let a = crate::cpu::add16(base, self.cpu_registers.y as u16);
                (a, crate::cpu::page_crossed(base, a))
            },
            AddrMode::Indirect => {
                let p = self.cpu_read_u16(addr);
                let a = if p % 256 == 0xFF {
                    let low = self.cpu_read(p);
                    let high = self.cpu_read(p - 0xFF);
                    (high as u16) * 256 + (low as u16)
                } else {
                    self.cpu_read_u16(p)
                };
                (a, false)
            },
            AddrMode::IndirectX => {
                let zero_page_addr = self.cpu_read(addr);
                let pointer = crate::cpu::add8(zero_page_addr, self.cpu_registers.x);
                let low = self.cpu_read(pointer as u16);
                let high = self.cpu_read(crate::cpu::add8(pointer, 1) as u16);
                ((high as u16) * 256 + (low as u16), false)
            },
            AddrMode::IndirectY => {
                let zero_page_addr = self.cpu_read(addr);
                let low = self.cpu_read(zero_page_addr as u16);
                let high = self.cpu_read(crate::cpu::add8(zero_page_addr, 1) as u16);
                let base = (high as u16) * 256 + (low as u16);
                let a = crate::cpu::add16(base, self.cpu_registers.y as u16);
                (a, crate::cpu::page_crossed(base, a))
            },
            _ => (0, false),
        }
    }
}

impl NES {
    /// Reinitialises the CPU as the reset line does: registers cleared,
    /// SP at $FD, P at %00100100, the program counter loaded from the
    /// reset vector at $FFFC, and a seven-cycle start-up budget.  Memory
    /// and the PPU are left as they were.
    pub fn reset(&mut self)
        requires
            old(self).wf(),
        ensures
            final(self).wf(),
            final(self).cpu_registers.accumulator == 0,
            final(self).cpu_registers.x == 0,
            final(self).cpu_registers.y == 0,
            final(self).cpu_registers.stack_pointer == 0xFD,
            final(self).cpu_registers.status == crate::cpu::registers::Status::spec_from_bits(
                0x24,
            ),
            final(self).cpu_registers.program_counter == old(self).spec_peek16(0xFFFC),
            final(self).cpu_cycles == 7 && final(self).clock_count == 7,
            final(self).ppu_cycles == 21,
            final(self).ppu_scanline == old(self).ppu_scanline,
            NES::same_mem(*old(self), *final(self)),
            NES::same_host(*old(self), *final(self)),
            NES::same_ppu_regs(*old(self), *final(self)),
            final(self).next_interrupt == old(self).next_interrupt,
    {
        self.cpu_registers.accumulator = 0;
        self.cpu_registers.x = 0;
        self.cpu_registers.y = 0;
        self.cpu_registers.stack_pointer = 0xFD;
        self.cpu_registers.status.set_bits(0b0010_0100);
        let pc = self.cpu_read_u16(0xFFFC);
        self.cpu_registers.program_counter = pc;

        self.cpu_cycles = 7;
        self.clock_count = 7;
        self.ppu_cycles = 21;
    }

    /// Services a pending interrupt, if any, before the next instruction:
    /// the common stack frame is pushed with B as %10 and the program
    /// counter vectors through $FFFA (NMI) or $FFFE (IRQ); the pending
    /// flag is consumed.
    pub fn try_interrupt(&mut self)
        requires
            old(self).wf(),
            old(self).cpu_cycles <= 0xF000,
        ensures
            rel_service_interrupt(*old(self), *final(self)),

    {
        if let Some(interrupt) = self.next_interrupt {
            let vector = interrupt.address();
            crate::interrupt::interrupt(self, 2, vector);
            self.next_interrupt = None;
        }
    }

    /// Drives the whole console one step: one CPU clock, three PPU dots
    /// per cycle spent, interrupt service, and, when the beam wrapped, a
    /// render of the finished frame.  Returns true when a new frame is
    /// ready.
    ///
    /// After any tick the program counter fits in 16 bits, the stack
    /// pointer in 8, and the PPU VRAM address never exceeds $3FFF.
    pub fn tick(&mut self) -> (frame: bool)
        requires
            old(self).wf(),
        ensures
            final(self).wf(),
            final(self).cpu_registers.program_counter <= 0xFFFF,
            final(self).cpu_registers.stack_pointer <= 0xFF,
            final(self).ppu_registers.address.spec_value() <= 0x3FFF,
            old(self).cpu_cycles > 0 ==> !frame && final(self).cpu_cycles == old(self).cpu_cycles
                - 1 && NES::same_mem(*old(self), *final(self)) && final(self).cpu_registers == old(
                self,
            ).cpu_registers && NES::same_ppu_regs(*old(self), *final(self)) && final(self).next_interrupt
                == old(self).next_interrupt,
            old(self).cpu_cycles == 0 && NES::stable_addr(
                old(self).cpu_registers.program_counter,
            ) ==> rel_tick_step(*old(self), *final(self), frame),
    {
        let ghost fetching = self.cpu_cycles == 0 && NES::stable_addr(
            self.cpu_registers.program_counter,
        );
        let cycles = self.cpu_clock();
        let ghost s1 = *self;

        if cycles > 0 {
            let new_frame = self.ppu_clock(cycles as u64);
            let ghost s2 = *self;
            self.try_interrupt();
            let ghost s3 = *self;
            if new_frame {
                self.render();
                proof {
                    if fetching {
                        assert(crate::cpu::rel_instruction_step(*old(self), s1, cycles));
                        assert(crate::ppu::rel_ppu_advance(s1, s2, cycles as u64, new_frame));
                        assert(rel_service_interrupt(s2, s3));
                        assert(rel_render(s3, *self));
                    }
                    assert(self.ppu_registers.address.spec_value() <= 0x3F * 256 + 255);
                }
                return true;
            }
            proof {
                if fetching {
                    assert(crate::cpu::rel_instruction_step(*old(self), s1, cycles));
                    assert(crate::ppu::rel_ppu_advance(s1, s2, cycles as u64, new_frame));
                    assert(rel_service_interrupt(s2, s3));
                    assert(NES::same_state(s3, *self));
                }
            }
        }
        proof {
            assert(self.ppu_registers.address.spec_value() <= 0x3F * 256 + 255);
        }
        false
    }

    /// The composited palette-table index at pixel (px, py): scans the 64
    /// sprites from sprite 0 down (the topmost first) for an opaque pixel,
    /// and falls back to the background tile under the pixel.  Painting
    /// each pixel with its topmost color equals compositing the sprites
    /// from last to first over the background.
    fn pixel_color_index(&self, px: usize, py: usize) -> (r: u8)
        requires
            self.wf(),
            px < 256,
            py < 240,
        ensures
            r == spec_pixel_from(*self, px as int, py as int, 0),
    {
        let mut i: usize = 0;
        while i < 64
            invariant
                self.wf(),
                px < 256,
                py < 240,
                i <= 64,
                spec_pixel_from(*self, px as int, py as int, 0) == spec_pixel_from(
                    *self,
                    px as int,
                    py as int,
                    i as int,
                ),
            decreases 64 - i,
        {
            let rec = 4 * i;
            let sprite_y = self.oam_data[rec] as usize;
            let sprite_x = self.oam_data[rec + 3] as usize;
            if px >= sprite_x && px < sprite_x + 8 && py >= sprite_y && py < sprite_y + 8 {
                let tile = self.oam_data[rec + 1] as usize;
                let attr = self.oam_data[rec + 2];
                let col: usize = if (attr / 64) % 2 == 1 {
                    7 - (px - sprite_x)
                } else {
                    px - sprite_x
                };
                let row: usize = if (attr / 128) % 2 == 1 {
                    7 - (py - sprite_y)
                } else {
                    py - sprite_y
                };
                let bank: usize = if self.ppu_registers.control.sprite_pattern_address {
                    0x1000
                } else {
                    0
                };
                let shift = 7 - col;
                let plane0 = self.chr_rom[bank + tile * 16 + row];
                let plane1 = self.chr_rom[bank + tile * 16 + row + 8];
                let value = 2 * ((plane1 as usize >> shift) % 2) + ((plane0 as usize >> shift)
                    % 2);
                if value != 0 {
                    return self.palette_table[0x10 + (attr as usize % 4) * 4 + value];
                }
            }
            i = i + 1;
        }

        let tile_x = px / 8;
        let tile_y = py / 8;
        let table_addr = self.ppu_registers.control.name_table_address();
        let nt_base_u16 = self.mirror_vram_address(table_addr);
        proof {
            assert(nt_base_u16 == 0 || nt_base_u16 == 0x400);
        }
        let nt_base = nt_base_u16 as usize;
        let tile = self.ppu_vram[nt_base + tile_y * 32 + tile_x] as usize;
        let attr = self.ppu_vram[nt_base + 0x3C0 + tile_y / 4 * 8 + tile_x / 4];
        let x_side: usize = tile_x % 4 / 2;
        let y_side: usize = tile_y % 4 / 2;
        let pal: u8 = if x_side == 0 && y_side == 0 {
            attr % 4
        } else if x_side == 1 && y_side == 0 {
            (attr / 4) % 4
        } else if x_side == 0 {
            (attr / 16) % 4
        } else {
            (attr / 64) % 4
        };
        let bank: usize = if self.ppu_registers.control.background_pattern_address {
            0x1000
        } else {
            0
        };
        let shift = 7 - px % 8;
        let plane0 = self.chr_rom[bank + tile * 16 + py % 8];
        let plane1 = self.chr_rom[bank + tile * 16 + py % 8 + 8];
        let value = 2 * ((plane1 as usize >> shift) % 2) + ((plane0 as usize >> shift) % 2);
        if value == 0 {
            self.palette_table[0]
        } else {
            self.palette_table[pal as usize * 4 + value]
        }
    }

    /// Paints the finished frame pixel by pixel: each of the 256 x 240
    /// pixels takes its composited color, the topmost opaque sprite pixel
    /// over the background of the active nametable.
    fn render(&mut self)
        requires
            old(self).wf(),
        ensures
            rel_render(*old(self), *final(self)),
    {
        let mut py: usize = 0;
        while py < 240
            invariant
                self.wf(),
                py <= 240,
                NES::same_mem(*old(self), *self),
                NES::same_timing(*old(self), *self),
                NES::same_ppu_regs(*old(self), *self),
                self.cpu_registers == old(self).cpu_registers,
                self.next_interrupt == old(self).next_interrupt,
                self.mirroring == old(self).mirroring,
                self.system_palette.0@ == old(self).system_palette.0@,
                forall|x: int, y: int|
                    0 <= x < 256 && 0 <= y < py ==> #[trigger] spec_pixel_painted(
                        *old(self),
                        self.current_frame.0@,
                        x,
                        y,
                    ),
            decreases 240 - py,
        {
            let mut px: usize = 0;
            while px < 256
                invariant
                    self.wf(),
                    px <= 256,
                    py < 240,
                    NES::same_mem(*old(self), *self),
                    NES::same_timing(*old(self), *self),
                    NES::same_ppu_regs(*old(self), *self),
                    self.cpu_registers == old(self).cpu_registers,
                    self.next_interrupt == old(self).next_interrupt,
                    self.mirroring == old(self).mirroring,
                    self.system_palette.0@ == old(self).system_palette.0@,
                    forall|x: int, y: int|
                        0 <= x < 256 && 0 <= y < py ==> #[trigger] spec_pixel_painted(
                            *old(self),
                            self.current_frame.0@,
                            x,
                            y,
                        ),
                    forall|x: int|
                        0 <= x < px ==> #[trigger] spec_pixel_painted(
                            *old(self),
                            self.current_frame.0@,
                            x,
                            py as int,
                        ),
                decreases 256 - px,
            {
                let index = self.pixel_color_index(px, py);
                proof {
                    lemma_pixel_congruence(*self, *old(self), px as int, py as int, 0);
                }
                let color = self.system_palette.get(index % 64);
                let ghost before = self.current_frame.0@;
                self.current_frame.set_pixel(px, py, (color.r, color.g, color.b));
                proof {
                    let after = self.current_frame.0@;
                    let base = (py as int * 256 + px as int) * 3;
                    assert(spec_pixel_painted(*old(self), after, px as int, py as int));
                    assert forall|x: int, y: int|
                        0 <= x < 256 && 0 <= y < py implies #[trigger] spec_pixel_painted(
                        *old(self),
                        after,
                        x,
                        y,
                    ) by {
                        assert(spec_pixel_painted(*old(self), before, x, y));
                        assert((y * 256 + x) * 3 + 2 < base);
                    }
                    assert forall|x: int|
                        0 <= x < px implies #[trigger] spec_pixel_painted(
                        *old(self),
                        after,
                        x,
                        py as int,
                    ) by {
                        assert(spec_pixel_painted(*old(self), before, x, py as int));
                        assert((py as int * 256 + x) * 3 + 2 < base);
                    }
                }
                px = px + 1;
            }
            py = py + 1;
        }
    }

    /// The frame most recently completed (or being built).
    pub fn frame(&self) -> (r: &Frame)
        ensures
            r.0@ == self.current_frame.0@,
    {
        &self.current_frame
    }
}

impl CpuRegisters {
    /// The power-on register file as a spec value.
    pub open spec fn default_spec() -> CpuRegisters {
        CpuRegisters {
            accumulator: 0,
            x: 0,
            y: 0,
            stack_pointer: 0xFD,
            status: crate::cpu::registers::Status::spec_from_bits(0x24),
            program_counter: 0,
        }
    }
}

impl PpuRegisters {
    /// The power-on PPU register block as a spec value.
    pub open spec fn default_spec() -> PpuRegisters {
        PpuRegisters {
            address: crate::ppu::registers::Address { high: 0, low: 0, latch: true },
            control: crate::ppu::registers::Control::spec_from_bits(0),
            status: crate::ppu::registers::Status {
                sprite_overflow: false,
                sprite_zero_hit: false,
                vblank_started: false,
            },
            scroll: crate::ppu::registers::Scroll { scroll_x: 0, scroll_y: 0, latch: false },
            mask: crate::ppu::registers::Mask::spec_from_bits(0),
            oam_addr: 0,
        }
    }
}


/// The composited pixel color reads only the video memories, the control
/// register and the mirroring mode, so two states that agree on those
/// agree on every pixel.
pub proof fn lemma_pixel_congruence(a: NES, b: NES, px: int, py: int, i: int)
    requires
        NES::same_mem(a, b),
        a.ppu_registers.control == b.ppu_registers.control,
        a.mirroring == b.mirroring,
    ensures
        spec_pixel_from(a, px, py, i) == spec_pixel_from(b, px, py, i),
    decreases 64 - i,
{
    if i < 64 {
        lemma_pixel_congruence(a, b, px, py, i + 1);
    }
}

} // verus!
