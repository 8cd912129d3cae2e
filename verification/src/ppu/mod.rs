//! The picture processing unit: the register ports the CPU bus exposes at
//! $2000-$2007, the dot/scanline timing engine, and the mirrored video
//! memories behind PPUDATA.

pub mod registers;

use vstd::prelude::*;

verus! {

use crate::Interrupt;
use crate::NES;
use crate::cartridge::ScreenMirroring;

/// Dots per scanline.
pub const DOTS_PER_SCANLINE: u64 = 341;

/// Scanlines per frame, the pre-render line included.
pub const SCANLINES_PER_FRAME: u64 = 262;

/// First scanline of the vertical blank; entering it sets the vblank flag
/// and may raise NMI.
pub const VBLANK_SCANLINE: u64 = 241;

/// The pre-render scanline; entering it clears the status flags.
pub const PRERENDER_SCANLINE: u64 = 261;

/// The whole effect of advancing the PPU by `cycles` CPU cycles: the
/// beam arithmetic, the vblank and status-flag transitions, the NMI
/// latch, and the frame signal.
pub open spec fn rel_ppu_advance(pre: NES, post: NES, cycles: u64, frame: bool) -> bool {
    &&& (post.wf())
    &&& (({
                let pos = pre.spec_beam_pos();
                let total = pos + 3 * cycles;
                let wrapped = total >= 262 * 341;
                &&& frame == wrapped
                &&& post.spec_beam_pos() == (if wrapped {
                    total - 262 * 341
                } else {
                    total
                })
                &&& post.ppu_cycles == (if wrapped {
                    total - 262 * 341
                } else {
                    total
                }) % 341
                &&& post.ppu_registers.status.vblank_started == (if NES::spec_crossed(
                    pos,
                    total,
                    261 * 341int,
                ) {
                    false
                } else if NES::spec_crossed(pos, total, 241 * 341int) {
                    true
                } else {
                    pre.ppu_registers.status.vblank_started
                })
                &&& post.ppu_registers.status.sprite_zero_hit == (if NES::spec_crossed(
                    pos,
                    total,
                    261 * 341int,
                ) || NES::spec_crossed(pos, total, 241 * 341int) {
                    false
                } else {
                    pre.ppu_registers.status.sprite_zero_hit
                })
                &&& post.ppu_registers.status.sprite_overflow == (if NES::spec_crossed(
                    pos,
                    total,
                    261 * 341int,
                ) {
                    false
                } else {
                    pre.ppu_registers.status.sprite_overflow
                })
                &&& post.next_interrupt == (if wrapped {
                    Option::<Interrupt>::None
                } else if NES::spec_crossed(pos, total, 241 * 341int)
                    && pre.ppu_registers.control.generate_nmi {
                    Option::<Interrupt>::Some(Interrupt::NMI)
                } else {
                    pre.next_interrupt
                })
            }))
    &&& (NES::same_mem(pre, post))
    &&& (NES::same_host(pre, post))
    &&& (post.cpu_registers == pre.cpu_registers)
    &&& (post.cpu_cycles == pre.cpu_cycles)
    &&& (post.clock_count == pre.clock_count)
    &&& (post.ppu_registers.address == pre.ppu_registers.address)
    &&& (post.ppu_registers.control == pre.ppu_registers.control)
    &&& (post.ppu_registers.scroll == pre.ppu_registers.scroll)
    &&& (post.ppu_registers.mask == pre.ppu_registers.mask)
    &&& (post.ppu_registers.oam_addr == pre.ppu_registers.oam_addr)
    &&& (post.ppu_read_buffer == pre.ppu_read_buffer)
}

impl NES {
    /// Absolute beam position inside the frame, in dots.
    pub open spec fn spec_beam_pos(self) -> int {
        self.ppu_scanline * 341 + self.ppu_cycles
    }

    /// Whether advancing from `pos` by the dots consumed so far steps the
    /// scanline counter past boundary `p` (a multiple of 341).
    pub open spec fn spec_crossed(pos: int, consumed_to: int, p: int) -> bool {
        pos < p <= consumed_to
    }

    /// Advances the PPU by `cycles` CPU cycles, three dots each, detecting
    /// the vblank entry (scanline 241: vblank set, sprite-zero-hit cleared,
    /// NMI raised when enabled), the pre-render line (261: status flags
    /// cleared) and the end of the frame (wrap to scanline 0, pending NMI
    /// dropped).  Returns true when a frame completed.
    pub fn ppu_clock(&mut self, cycles: u64) -> (frame: bool)
        requires
            old(self).wf(),
            cycles <= 1000,
        ensures
            rel_ppu_advance(*old(self), *final(self), cycles, frame),
    {
        let ghost pos = old(self).spec_beam_pos();
        let ghost total = pos + 3 * cycles;
        self.ppu_cycles = self.ppu_cycles + 3 * cycles;
        let mut frame = false;
        while self.ppu_cycles >= DOTS_PER_SCANLINE
            invariant
                self.wf_except_dot(),
                self.spec_consumed(frame) + self.ppu_cycles == total,
                total == pos + 3 * cycles,
                pos < 262 * 341,
                cycles <= 1000,
                frame == (262 * 341int <= self.spec_consumed(frame)),
                pos < self.spec_consumed(frame) + 341,
                self.ppu_registers.status.vblank_started == (if NES::spec_crossed(
                    pos,
                    self.spec_consumed(frame),
                    261 * 341int,
                ) {
                    false
                } else if NES::spec_crossed(pos, self.spec_consumed(frame), 241 * 341int) {
                    true
                } else {
                    old(self).ppu_registers.status.vblank_started
                }),
                self.ppu_registers.status.sprite_zero_hit == (if NES::spec_crossed(
                    pos,
                    self.spec_consumed(frame),
                    261 * 341int,
                ) || NES::spec_crossed(pos, self.spec_consumed(frame), 241 * 341int) {
                    false
                } else {
                    old(self).ppu_registers.status.sprite_zero_hit
                }),
                self.ppu_registers.status.sprite_overflow == (if NES::spec_crossed(
                    pos,
                    self.spec_consumed(frame),
                    261 * 341int,
                ) {
                    false
                } else {
                    old(self).ppu_registers.status.sprite_overflow
                }),
                self.next_interrupt == (if frame {
                    Option::<Interrupt>::None
                } else if NES::spec_crossed(pos, self.spec_consumed(frame), 241 * 341int) && old(
                    self,
                ).ppu_registers.control.generate_nmi {
                    Option::<Interrupt>::Some(Interrupt::NMI)
                } else {
                    old(self).next_interrupt
                }),
                NES::same_mem(*old(self), *self),
                NES::same_host(*old(self), *self),
                self.cpu_registers == old(self).cpu_registers,
                self.cpu_cycles == old(self).cpu_cycles,
                self.clock_count == old(self).clock_count,
                self.ppu_registers.address == old(self).ppu_registers.address,
                self.ppu_registers.control == old(self).ppu_registers.control,
                self.ppu_registers.scroll == old(self).ppu_registers.scroll,
                self.ppu_registers.mask == old(self).ppu_registers.mask,
                self.ppu_registers.oam_addr == old(self).ppu_registers.oam_addr,
                self.ppu_read_buffer == old(self).ppu_read_buffer,
            decreases self.ppu_cycles,
        {
            self.ppu_cycles = self.ppu_cycles - DOTS_PER_SCANLINE;
            self.ppu_scanline = self.ppu_scanline + 1;

            if self.ppu_scanline == VBLANK_SCANLINE {
                self.ppu_registers.status.vblank_started = true;
                self.ppu_registers.status.sprite_zero_hit = false;
                if self.ppu_registers.control.generate_nmi {
                    self.next_interrupt = Some(Interrupt::NMI);
                }
            }
            if self.ppu_scanline == PRERENDER_SCANLINE {
                self.ppu_registers.status.vblank_started = false;
                self.ppu_registers.status.sprite_zero_hit = false;
                self.ppu_registers.status.sprite_overflow = false;
            }
            if self.ppu_scanline >= SCANLINES_PER_FRAME {
                self.ppu_scanline = 0;
                self.next_interrupt = None;
                frame = true;
            }
        }
        proof {
            let s = self.ppu_scanline + (if frame {
                262int
            } else {
                0int
            });
            let consumed = self.spec_consumed(frame);
            assert(consumed == s * 341) by (nonlinear_arith)
                requires
                    consumed == self.ppu_scanline * 341 + (if frame {
                        262 * 341int
                    } else {
                        0int
                    }),
                    s == self.ppu_scanline + (if frame {
                        262int
                    } else {
                        0int
                    }),
            ;
            lemma_scanline_crossing(s, 241, total, self.ppu_cycles as int);
            lemma_scanline_crossing(s, 261, total, self.ppu_cycles as int);
            lemma_scanline_crossing(s, 262, total, self.ppu_cycles as int);
            vstd::arithmetic::div_mod::lemma_fundamental_div_mod_converse(
                total - (if frame {
                    262 * 341int
                } else {
                    0int
                }),
                341,
                self.ppu_scanline as int,
                self.ppu_cycles as int,
            );
        }
        frame
    }

    /// Dots consumed since the call began, measured at scanline
    /// granularity plus the dots still pending.
    pub open spec fn spec_consumed(self, frame: bool) -> int {
        self.ppu_scanline * 341 + (if frame {
            262 * 341int
        } else {
            0int
        })
    }

    /// Well-formedness apart from the dot counter, which may exceed one
    /// scanline while the timing loop is catching up.
    pub open spec fn wf_except_dot(self) -> bool {
        &&& self.cpu_ram@.len() == 2048
        &&& (self.prg_rom@.len() == 0x4000 || self.prg_rom@.len() == 0x8000)
        &&& self.chr_rom@.len() == 0x2000
        &&& self.palette_table@.len() == 32
        &&& self.ppu_vram@.len() == 2048
        &&& self.oam_data@.len() == 256
        &&& self.cpu_registers.status.wf()
        &&& self.ppu_registers.wf()
        &&& self.ppu_scanline < 262
        &&& self.cpu_cycles <= 0xFFFF
        &&& self.system_palette.wf()
        &&& self.current_frame.wf()
    }
}

impl NES {
    /// Everything but the PPU register block, the read buffer and the
    /// pending interrupt agrees.
    pub open spec fn same_but_ppu_ports(a: NES, b: NES) -> bool {
        &&& NES::same_mem(a, b)
        &&& NES::same_timing(a, b)
        &&& NES::same_host(a, b)
        &&& a.cpu_registers == b.cpu_registers
    }

    /// A read of PPUSTATUS ($2002): returns the status byte, then clears
    /// the vblank flag and rewinds both two-write latches.
    pub fn ppu_read_status(&mut self) -> (r: u8)
        requires
            old(self).wf(),
        ensures
            final(self).wf(),
            r == old(self).ppu_registers.status.spec_bits(),
            final(self).ppu_registers.status.vblank_started == false,
            final(self).ppu_registers.status.sprite_zero_hit == old(
                self,
            ).ppu_registers.status.sprite_zero_hit,
            final(self).ppu_registers.status.sprite_overflow == old(
                self,
            ).ppu_registers.status.sprite_overflow,
            final(self).ppu_registers.address.latch == true,
            final(self).ppu_registers.address.high == old(self).ppu_registers.address.high,
            final(self).ppu_registers.address.low == old(self).ppu_registers.address.low,
            final(self).ppu_registers.scroll.latch == false,
            final(self).ppu_registers.scroll.scroll_x == old(
                self,
            ).ppu_registers.scroll.scroll_x,
            final(self).ppu_registers.scroll.scroll_y == old(
                self,
            ).ppu_registers.scroll.scroll_y,
            final(self).ppu_registers.control == old(self).ppu_registers.control,
            final(self).ppu_registers.mask == old(self).ppu_registers.mask,
            final(self).ppu_registers.oam_addr == old(self).ppu_registers.oam_addr,
            final(self).ppu_read_buffer == old(self).ppu_read_buffer,
            final(self).next_interrupt == old(self).next_interrupt,
            NES::same_but_ppu_ports(*old(self), *final(self)),
    {
        let data = self.ppu_registers.status.bits();
        self.ppu_registers.status.vblank_started = false;
        self.ppu_registers.address.reset_latch();
        self.ppu_registers.scroll.reset_latch();
        data
    }

    /// A read of OAMDATA ($2004): the byte under OAMADDR, no increment.
    pub fn ppu_read_oam_data(&self) -> (r: u8)
        requires
            self.wf(),
        ensures
            r == self.oam_data@[self.ppu_registers.oam_addr as int],
    {
        self.oam_data[self.ppu_registers.oam_addr as usize]
    }

    /// A write to OAMADDR ($2003).
    pub fn ppu_write_oam_address(&mut self, data: u8)
        requires
            old(self).wf(),
        ensures
            final(self).wf(),
            final(self).ppu_registers.oam_addr == data,
            final(self).ppu_registers.address == old(self).ppu_registers.address,
            final(self).ppu_registers.control == old(self).ppu_registers.control,
            final(self).ppu_registers.status == old(self).ppu_registers.status,
            final(self).ppu_registers.scroll == old(self).ppu_registers.scroll,
            final(self).ppu_registers.mask == old(self).ppu_registers.mask,
            final(self).ppu_read_buffer == old(self).ppu_read_buffer,
            final(self).next_interrupt == old(self).next_interrupt,
            NES::same_but_ppu_ports(*old(self), *final(self)),
    {
        self.ppu_registers.oam_addr = data;
    }

    /// A write to OAMDATA ($2004): stores at OAMADDR, which then advances,
    /// wrapping within the 256-byte table.
    pub fn ppu_write_oam_data(&mut self, data: u8)
        requires
            old(self).wf(),
        ensures
            final(self).wf(),
            final(self).oam_data@ == old(self).oam_data@.update(
                old(self).ppu_registers.oam_addr as int,
                data,
            ),
            final(self).ppu_registers.oam_addr == (old(self).ppu_registers.oam_addr + 1) % 256,
            final(self).ppu_registers.address == old(self).ppu_registers.address,
            final(self).ppu_registers.control == old(self).ppu_registers.control,
            final(self).ppu_registers.status == old(self).ppu_registers.status,
            final(self).ppu_registers.scroll == old(self).ppu_registers.scroll,
            final(self).ppu_registers.mask == old(self).ppu_registers.mask,
            final(self).ppu_read_buffer == old(self).ppu_read_buffer,
            final(self).next_interrupt == old(self).next_interrupt,
            final(self).cpu_ram@ == old(self).cpu_ram@,
            final(self).prg_rom@ == old(self).prg_rom@,
            final(self).chr_rom@ == old(self).chr_rom@,
            final(self).palette_table@ == old(self).palette_table@,
            final(self).ppu_vram@ == old(self).ppu_vram@,
            NES::same_timing(*old(self), *final(self)),
            NES::same_host(*old(self), *final(self)),
            final(self).cpu_registers == old(self).cpu_registers,
    {
        let idx = self.ppu_registers.oam_addr as usize;
        self.oam_data[idx] = data;
        self.ppu_registers.oam_addr = if self.ppu_registers.oam_addr == 255 {
            0
        } else {
            self.ppu_registers.oam_addr + 1
        };
    }

    /// The OAM DMA body: 256 bytes stream into OAM through OAMDATA,
    /// starting at the current OAMADDR and wrapping, which leaves OAMADDR
    /// where it began.
    pub fn ppu_write_oam_dma(&mut self, buffer: &Vec<u8>)
        requires
            old(self).wf(),
            buffer@.len() == 256,
        ensures
            final(self).wf(),
            forall|i: int|
                0 <= i < 256 ==> final(self).oam_data@[(old(self).ppu_registers.oam_addr + i)
                    % 256] == buffer@[i],
            final(self).ppu_registers == old(self).ppu_registers,
            final(self).ppu_read_buffer == old(self).ppu_read_buffer,
            final(self).next_interrupt == old(self).next_interrupt,
            final(self).cpu_ram@ == old(self).cpu_ram@,
            final(self).prg_rom@ == old(self).prg_rom@,
            final(self).chr_rom@ == old(self).chr_rom@,
            final(self).palette_table@ == old(self).palette_table@,
            final(self).ppu_vram@ == old(self).ppu_vram@,
            NES::same_timing(*old(self), *final(self)),
            NES::same_host(*old(self), *final(self)),
            final(self).cpu_registers == old(self).cpu_registers,
    {
        let ghost start = old(self).ppu_registers.oam_addr as int;
        let mut i: usize = 0;
        while i < 256
            invariant
                i <= 256,
                self.wf(),
                buffer@.len() == 256,
                self.ppu_registers.oam_addr == (start + i) % 256,
                forall|j: int|
                    0 <= j < i ==> self.oam_data@[(start + j) % 256] == buffer@[j],
                self.ppu_registers.address == old(self).ppu_registers.address,
                self.ppu_registers.control == old(self).ppu_registers.control,
                self.ppu_registers.status == old(self).ppu_registers.status,
                self.ppu_registers.scroll == old(self).ppu_registers.scroll,
                self.ppu_registers.mask == old(self).ppu_registers.mask,
                self.ppu_read_buffer == old(self).ppu_read_buffer,
                self.next_interrupt == old(self).next_interrupt,
                self.cpu_ram@ == old(self).cpu_ram@,
                self.prg_rom@ == old(self).prg_rom@,
                self.chr_rom@ == old(self).chr_rom@,
                self.palette_table@ == old(self).palette_table@,
                self.ppu_vram@ == old(self).ppu_vram@,
                NES::same_timing(*old(self), *self),
                NES::same_host(*old(self), *self),
                self.cpu_registers == old(self).cpu_registers,
                0 <= start < 256,
            decreases 256 - i,
        {
            self.ppu_write_oam_data(buffer[i]);
            i = i + 1;
        }
        proof {
            assert(self.ppu_registers.oam_addr == (start + 256) % 256);
            assert((start + 256) % 256 == start % 256);
            assert(self.ppu_registers == old(self).ppu_registers);
        }
    }

    /// A write to PPUCTRL ($2000).  When the generate-NMI bit rises while
    /// the vblank flag is set, an NMI becomes pending at once.
    pub fn ppu_write_control(&mut self, data: u8)
        requires
            old(self).wf(),
        ensures
            final(self).wf(),
            final(self).ppu_registers.control
                == crate::ppu::registers::Control::spec_from_bits(data),
            final(self).next_interrupt == (if !old(self).ppu_registers.control.generate_nmi
                && crate::ppu::registers::Control::spec_from_bits(data).generate_nmi && old(
                self,
            ).ppu_registers.status.vblank_started {
                Option::<Interrupt>::Some(Interrupt::NMI)
            } else {
                old(self).next_interrupt
            }),
            final(self).ppu_registers.address == old(self).ppu_registers.address,
            final(self).ppu_registers.status == old(self).ppu_registers.status,
            final(self).ppu_registers.scroll == old(self).ppu_registers.scroll,
            final(self).ppu_registers.mask == old(self).ppu_registers.mask,
            final(self).ppu_registers.oam_addr == old(self).ppu_registers.oam_addr,
            final(self).ppu_read_buffer == old(self).ppu_read_buffer,
            NES::same_but_ppu_ports(*old(self), *final(self)),
    {
        let nmi_status_before = self.ppu_registers.control.generate_nmi;
        self.ppu_registers.control.update(data);
        let nmi_status_after = self.ppu_registers.control.generate_nmi;
        if !nmi_status_before && nmi_status_after && self.ppu_registers.status.vblank_started {
            self.next_interrupt = Some(Interrupt::NMI);
        }
    }

    /// A write to PPUMASK ($2001).
    pub fn ppu_write_mask(&mut self, data: u8)
        requires
            old(self).wf(),
        ensures
            final(self).wf(),
            final(self).ppu_registers.mask == crate::ppu::registers::Mask::spec_from_bits(data),
            final(self).ppu_registers.address == old(self).ppu_registers.address,
            final(self).ppu_registers.control == old(self).ppu_registers.control,
            final(self).ppu_registers.status == old(self).ppu_registers.status,
            final(self).ppu_registers.scroll == old(self).ppu_registers.scroll,
            final(self).ppu_registers.oam_addr == old(self).ppu_registers.oam_addr,
            final(self).ppu_read_buffer == old(self).ppu_read_buffer,
            final(self).next_interrupt == old(self).next_interrupt,
            NES::same_but_ppu_ports(*old(self), *final(self)),
    {
        self.ppu_registers.mask.update(data);
    }

    /// A write to PPUSCROLL ($2005): X on the first write of a pair, Y on
    /// the second.
    pub fn ppu_write_scroll(&mut self, data: u8)
        requires
            old(self).wf(),
        ensures
            final(self).wf(),
            old(self).ppu_registers.scroll.latch ==> final(self).ppu_registers.scroll.scroll_y
                == data && final(self).ppu_registers.scroll.scroll_x == old(
                self,
            ).ppu_registers.scroll.scroll_x,
            !old(self).ppu_registers.scroll.latch ==> final(self).ppu_registers.scroll.scroll_x
                == data && final(self).ppu_registers.scroll.scroll_y == old(
                self,
            ).ppu_registers.scroll.scroll_y,
            final(self).ppu_registers.scroll.latch == !old(self).ppu_registers.scroll.latch,
            final(self).ppu_registers.address == old(self).ppu_registers.address,
            final(self).ppu_registers.control == old(self).ppu_registers.control,
            final(self).ppu_registers.status == old(self).ppu_registers.status,
            final(self).ppu_registers.mask == old(self).ppu_registers.mask,
            final(self).ppu_registers.oam_addr == old(self).ppu_registers.oam_addr,
            final(self).ppu_read_buffer == old(self).ppu_read_buffer,
            final(self).next_interrupt == old(self).next_interrupt,
            NES::same_but_ppu_ports(*old(self), *final(self)),
    {
        self.ppu_registers.scroll.update(data);
    }

    /// A write to PPUADDR ($2006): high byte first, then low; the
    /// composite stays masked to 14 bits.
    pub fn ppu_write_address(&mut self, data: u8)
        requires
            old(self).wf(),
        ensures
            final(self).wf(),
            old(self).ppu_registers.address.latch ==> final(self).ppu_registers.address.spec_value() == (data * 256 + old(
                self,
            ).ppu_registers.address.low) % 0x4000,
            !old(self).ppu_registers.address.latch ==> final(self).ppu_registers.address.spec_value() == (old(self).ppu_registers.address.high * 256
                + data) % 0x4000,
            final(self).ppu_registers.address.latch == !old(self).ppu_registers.address.latch,
            final(self).ppu_registers.control == old(self).ppu_registers.control,
            final(self).ppu_registers.status == old(self).ppu_registers.status,
            final(self).ppu_registers.scroll == old(self).ppu_registers.scroll,
            final(self).ppu_registers.mask == old(self).ppu_registers.mask,
            final(self).ppu_registers.oam_addr == old(self).ppu_registers.oam_addr,
            final(self).ppu_read_buffer == old(self).ppu_read_buffer,
            final(self).next_interrupt == old(self).next_interrupt,
            NES::same_but_ppu_ports(*old(self), *final(self)),
    {
        self.ppu_registers.address.update(data);
    }

    /// Physical nametable index for a logical PPU address, per the
    /// cartridge's mirroring.
    pub fn mirror_vram_address(&self, address: u16) -> (r: u16)
        ensures
            r == self.spec_mirror_vram(address),
            r < 0x800,
    {
        let mirrored_vram = address % 0x1000;
        let name_table = mirrored_vram / 0x400;
        match (&self.mirroring, name_table) {
            (ScreenMirroring::Horizontal, 1) => mirrored_vram - 0x400,
            (ScreenMirroring::Horizontal, 2) => mirrored_vram - 0x400,
            (ScreenMirroring::Horizontal, 3) => mirrored_vram - 0x800,
            (ScreenMirroring::Horizontal, _) => mirrored_vram,
            (_, _) => mirrored_vram % 0x800,
        }
    }
}

/// Palette table index for a PPU address at or above $3F00, with the
/// 32-byte repeat and the $3F10/$3F14/$3F18/$3F1C aliases applied.
fn palette_index_of(addr: u16) -> (r: usize)
    requires
        0x3F00 <= addr,
    ensures
        r == NES::spec_palette_index(addr as int),
        r < 32,
{
    let i = ((addr - 0x3F00) % 32) as usize;
    if i == 0x10 || i == 0x14 || i == 0x18 || i == 0x1C {
        i - 0x10
    } else {
        i
    }
}

impl NES {
    /// A read of PPUDATA ($2007): palette addresses read live; everything
    /// below returns the read-behind buffer, which refills from the
    /// addressed byte.  The VRAM address then steps by 1 or 32.
    pub fn ppu_read(&mut self) -> (r: u8)
        requires
            old(self).wf(),
        ensures
            final(self).wf(),
            r == old(self).spec_ppudata_value(),
            final(self).ppu_registers.address.spec_value() == (old(
                self,
            ).ppu_registers.address.spec_value() + (if old(
                self,
            ).ppu_registers.control.vram_address_increment {
                32int
            } else {
                1int
            })) % 0x4000,
            final(self).ppu_registers.address.latch == old(self).ppu_registers.address.latch,
            ({
                let a = old(self).ppu_registers.address.spec_value();
                if a < 0x2000 {
                    final(self).ppu_read_buffer == old(self).chr_rom@[a]
                } else if a < 0x3F00 {
                    final(self).ppu_read_buffer == old(self).ppu_vram@[old(self).spec_mirror_vram(
                        a as u16,
                    )]
                } else {
                    final(self).ppu_read_buffer == old(self).ppu_read_buffer
                }
            }),
            final(self).ppu_registers.control == old(self).ppu_registers.control,
            final(self).ppu_registers.status == old(self).ppu_registers.status,
            final(self).ppu_registers.scroll == old(self).ppu_registers.scroll,
            final(self).ppu_registers.mask == old(self).ppu_registers.mask,
            final(self).ppu_registers.oam_addr == old(self).ppu_registers.oam_addr,
            final(self).next_interrupt == old(self).next_interrupt,
            NES::same_but_ppu_ports(*old(self), *final(self)),
    {
        let address = self.ppu_registers.address.as_u16();
        self.ppu_registers.increment_vram_address();

        if address < 0x2000 {
            let result = self.ppu_read_buffer;
            self.ppu_read_buffer = self.chr_rom[address as usize];
            result
        } else if address < 0x3F00 {
            let mirrored = self.mirror_vram_address(address);
            let result = self.ppu_read_buffer;
            self.ppu_read_buffer = self.ppu_vram[mirrored as usize];
            result
        } else {
            self.palette_table[palette_index_of(address)]
        }
    }

    /// A write through PPUDATA ($2007): CHR is ROM and ignores it; the
    /// nametable range goes through mirroring; palette addresses land in
    /// the 32-byte table with its aliases.  The VRAM address then steps by
    /// 1 or 32.
    pub fn ppu_write(&mut self, value: u8)
        requires
            old(self).wf(),
        ensures
            final(self).wf(),
            ({
                let a = old(self).ppu_registers.address.spec_value();
                &&& (a < 0x2000 ==> final(self).ppu_vram@ == old(self).ppu_vram@ && final(self).palette_table@ == old(self).palette_table@)
                &&& (0x2000 <= a < 0x3F00 ==> final(self).ppu_vram@ == old(
                    self,
                ).ppu_vram@.update(old(self).spec_mirror_vram(a as u16), value) && final(self).palette_table@ == old(self).palette_table@)
                &&& (0x3F00 <= a ==> final(self).palette_table@ == old(
                    self,
                ).palette_table@.update(NES::spec_palette_index(a), value) && final(self).ppu_vram@
                    == old(self).ppu_vram@)
            }),
            final(self).ppu_registers.address.spec_value() == (old(
                self,
            ).ppu_registers.address.spec_value() + (if old(
                self,
            ).ppu_registers.control.vram_address_increment {
                32int
            } else {
                1int
            })) % 0x4000,
            final(self).ppu_registers.address.latch == old(self).ppu_registers.address.latch,
            final(self).ppu_registers.control == old(self).ppu_registers.control,
            final(self).ppu_registers.status == old(self).ppu_registers.status,
            final(self).ppu_registers.scroll == old(self).ppu_registers.scroll,
            final(self).ppu_registers.mask == old(self).ppu_registers.mask,
            final(self).ppu_registers.oam_addr == old(self).ppu_registers.oam_addr,
            final(self).ppu_read_buffer == old(self).ppu_read_buffer,
            final(self).next_interrupt == old(self).next_interrupt,
            final(self).cpu_ram@ == old(self).cpu_ram@,
            final(self).prg_rom@ == old(self).prg_rom@,
            final(self).chr_rom@ == old(self).chr_rom@,
            final(self).oam_data@ == old(self).oam_data@,
            NES::same_timing(*old(self), *final(self)),
            NES::same_host(*old(self), *final(self)),
            final(self).cpu_registers == old(self).cpu_registers,
    {
        let address = self.ppu_registers.address.as_u16();
        if address < 0x2000 {
            // CHR is ROM on mapper 0; the write is dropped.
        } else if address < 0x3F00 {
            let mirrored = self.mirror_vram_address(address);
            self.ppu_vram[mirrored as usize] = value;
        } else {
            let idx = palette_index_of(address);
            self.palette_table[idx] = value;
        }
        self.ppu_registers.increment_vram_address();
    }

    /// The two attribute bits that pick the palette of a 2x2-tile
    /// quadrant: bits 0-1, 2-3, 4-5 or 6-7 of the attribute byte for the
    /// top-left, top-right, bottom-left and bottom-right quadrant.
    pub open spec fn spec_attr_quadrant(v: u8, tile_x: int, tile_y: int) -> int {
        if tile_x % 4 < 2 && tile_y % 4 < 2 {
            (v % 4) as int
        } else if tile_x % 4 >= 2 && tile_y % 4 < 2 {
            ((v / 4) % 4) as int
        } else if tile_x % 4 < 2 {
            ((v / 16) % 4) as int
        } else {
            ((v / 64) % 4) as int
        }
    }

    /// The four palette-table entries a background tile uses: the
    /// universal background color, then the three colors of the palette
    /// its attribute quadrant selects.
    pub fn background_palette(&self, tile_x: usize, tile_y: usize) -> (r: [u8; 4])
        requires
            self.wf(),
            tile_x < 32,
            tile_y < 30,
        ensures
            ({
                let v = self.ppu_vram@[0x3C0 + (tile_y as int / 4) * 8 + tile_x as int / 4];
                let start = NES::spec_attr_quadrant(v, tile_x as int, tile_y as int) * 4 + 1;
                &&& r@.len() == 4
                &&& r@[0] == self.palette_table@[0]
                &&& r@[1] == self.palette_table@[start]
                &&& r@[2] == self.palette_table@[start + 1]
                &&& r@[3] == self.palette_table@[start + 2]
            }),
    {
        let attribute_table_index = tile_y / 4 * 8 + tile_x / 4;
        let attribute_table_value = self.ppu_vram[0x3C0 + attribute_table_index];

        let x_side: usize = tile_x % 4 / 2;
        let y_side: usize = tile_y % 4 / 2;
        let palette_table_index: u8 = if x_side == 0 && y_side == 0 {
            attribute_table_value % 4
        } else if x_side == 1 && y_side == 0 {
            (attribute_table_value / 4) % 4
        } else if x_side == 0 {
            (attribute_table_value / 16) % 4
        } else {
            (attribute_table_value / 64) % 4
        };
        let palette_start: usize = palette_table_index as usize * 4 + 1;

        [
            self.palette_table[0],
            self.palette_table[palette_start],
            self.palette_table[palette_start + 1],
            self.palette_table[palette_start + 2],
        ]
    }

    /// The four palette-table entries of the sprite whose OAM record
    /// starts at `index`; entry 0 is transparent and reads as zero.
    pub fn sprite_palette(&self, index: usize) -> (r: [u8; 4])
        requires
            self.wf(),
            index + 2 < 256,
        ensures
            ({
                let start = 0x11 + (self.oam_data@[index as int + 2] % 4) * 4;
                &&& r@.len() == 4
                &&& r@[0] == 0u8
                &&& r@[1] == self.palette_table@[start as int]
                &&& r@[2] == self.palette_table@[start as int + 1]
                &&& r@[3] == self.palette_table@[start as int + 2]
            }),
    {
        let palette_index = self.oam_data[index + 2] % 4;
        let palette_start: usize = 0x11 + (palette_index as usize) * 4;

        [
            0,
            self.palette_table[palette_start],
            self.palette_table[palette_start + 1],
            self.palette_table[palette_start + 2],
        ]
    }
}

/// Once clear, the vblank flag stays clear across any bus write short of
/// an OAM DMA trigger: no register write sets it.  Together with
/// `lemma_reads_never_set_vblank` and the timing contract of `ppu_clock`,
/// a status read keeps reading bit 7 clear until the beam next enters
/// scanline 241.
pub proof fn lemma_writes_never_set_vblank(pre: NES, post: NES, addr: u16, data: u8)
    requires
        !pre.ppu_registers.status.vblank_started,
        crate::cpu::rel_bus_write(pre, post, addr, data),
        addr != 0x4014,
    ensures
        !post.ppu_registers.status.vblank_started,
{
}

/// Nor does the timing engine set the vblank flag before the beam
/// actually enters scanline 241: an advance that does not cross the
/// vblank boundary leaves a cleared flag cleared.  With the read and
/// write lemmas beside it, a status read keeps reading bit 7 clear under
/// any interleaving of bus accesses and clocking, until the next vblank
/// entry.
pub proof fn lemma_clock_keeps_vblank_clear(pre: NES, post: NES, cycles: u64, frame: bool)
    requires
        !pre.ppu_registers.status.vblank_started,
        rel_ppu_advance(pre, post, cycles, frame),
        !NES::spec_crossed(
            pre.spec_beam_pos(),
            pre.spec_beam_pos() + 3 * cycles,
            241 * 341int,
        ),
    ensures
        !post.ppu_registers.status.vblank_started,
{
}

/// No bus read sets the vblank flag either: a status read clears it, and
/// the PPUDATA and joypad ports leave it alone.
pub proof fn lemma_reads_never_set_vblank(pre: NES, post: NES)
    requires
        !pre.ppu_registers.status.vblank_started,
        crate::cpu::rel_read_status(pre, post) || crate::cpu::rel_read_ppudata(pre, post)
            || crate::cpu::rel_read_controller(pre, post) || NES::same_state(pre, post),
    ensures
        !post.ppu_registers.status.vblank_started,
{
}

/// When the beam ends `dot` dots past boundary `s` (with `dot` inside one
/// scanline), a boundary `m` lies at or below the final position exactly
/// when it lies at or below `s`.
proof fn lemma_scanline_crossing(s: int, m: int, total: int, dot: int)
    by (nonlinear_arith)
    requires
        total == s * 341 + dot,
        0 <= dot < 341,
    ensures
        (m * 341 <= total) == (m * 341 <= s * 341),
{
}


/// Palette mirroring: the four sprite background-color slots $3F10, $3F14,
/// $3F18 and $3F1C alias the background slots $3F00, $3F04, $3F08 and
/// $3F0C.  Both PPUDATA reads and writes address the palette through this
/// index, so a write to either member of a pair is observable at both.
pub proof fn lemma_palette_mirroring(k: int)
    requires
        0 <= k < 4,
    ensures
        NES::spec_palette_index(0x3F10 + 4 * k) == NES::spec_palette_index(0x3F00 + 4 * k),
{
}

/// Palette mirroring, observed through the bus: after a PPUDATA write with
/// the VRAM address on either member of an aliased pair, the stored byte
/// is what a read of either member returns.
pub proof fn lemma_palette_mirror_observable(pre: NES, post: NES, data: u8, k: int)
    requires
        0 <= k < 4,
        pre.wf(),
        pre.ppu_registers.address.spec_value() == 0x3F10 + 4 * k || pre.ppu_registers.address.spec_value() == 0x3F00 + 4 * k,
        crate::cpu::rel_write_ppudata(pre, post, data),
    ensures
        post.palette_table@[NES::spec_palette_index(0x3F00 + 4 * k)] == data,
        post.palette_table@[NES::spec_palette_index(0x3F10 + 4 * k)] == data,
{
}

/// Reading PPUSTATUS clears the vblank flag and rewinds both two-write
/// latches: every later status read returns a byte with bit 7 clear,
/// until the timing engine next enters the vertical blank.
pub proof fn lemma_status_read_clears_vblank(pre: NES, post: NES)
    requires
        pre.wf(),
        crate::cpu::rel_read_status(pre, post),
    ensures
        post.ppu_registers.status.spec_bits() < 0x80,
        post.ppu_registers.address.latch == true,
        post.ppu_registers.scroll.latch == false,
{
}

} // verus!
