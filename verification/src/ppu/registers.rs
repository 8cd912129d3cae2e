//! The PPU register block: control, mask, status, the two-write address and
//! scroll latches, and the OAM address.

use vstd::prelude::*;

verus! {

use crate::cpu::registers::b2u;

/// The VRAM address register behind port $2006.
///
/// Two writes load it high byte first; the composite value is always kept
/// masked to 14 bits, so it never exceeds $3FFF.
#[derive(Clone, Copy, Debug, PartialEq, Eq, Structural)]
pub struct Address {
    pub high: u8,
    pub low: u8,
    /// True when the next write goes to the high byte.
    pub latch: bool,
}

impl Default for Address {
    fn default() -> (r: Address)
        ensures
            r.high == 0 && r.low == 0 && r.latch == true,
    {
        Address { high: 0, low: 0, latch: true }
    }
}

impl Address {
    /// The composite 14-bit address.
    pub open spec fn spec_value(self) -> int {
        self.high * 256 + self.low
    }

    /// The high byte never holds more than 6 bits.
    pub open spec fn wf(self) -> bool {
        self.high < 0x40
    }

    /// Replaces the composite value outright (used by the bus mirror).
    fn set(&mut self, data: u16)
        ensures
            final(self).spec_value() == data,
            final(self).latch == old(self).latch,
            data <= 0x3FFF ==> final(self).wf(),
    {
        self.high = (data / 256) as u8;
        self.low = (data % 256) as u8;
    }

    /// Masks the composite down to 14 bits.
    fn mirror_down(&mut self)
        ensures
            final(self).spec_value() == old(self).spec_value() % 0x4000,
            final(self).latch == old(self).latch,
            final(self).wf(),
    {
        proof {
            lemma_mask14(self.high, self.low);
        }
        self.high = self.high % 0x40;
    }

    fn flip_latch(&mut self)
        ensures
            final(self).latch == !old(self).latch,
            final(self).high == old(self).high && final(self).low == old(self).low,
    {
        self.latch = !self.latch;
    }

    /// One write through port $2006: the first write of a pair sets the
    /// high byte, the second the low byte; the result is masked to 14 bits
    /// and the write toggle advances.
    pub fn update(&mut self, data: u8)
        ensures
            old(self).latch ==> final(self).spec_value() == (data * 256 + old(self).low) % 0x4000,
            !old(self).latch ==> final(self).spec_value() == (old(self).high * 256 + data)
                % 0x4000,
            final(self).latch == !old(self).latch,
            final(self).wf(),
    {
        if self.latch {
            self.high = data;
        } else {
            self.low = data;
        }
        self.mirror_down();
        self.flip_latch();
    }

    /// Adds the PPUDATA step (1 or 32) to the address, wrapping within 14
    /// bits.
    pub fn increment(&mut self, amt: u8)
        requires
            old(self).wf(),
        ensures
            final(self).spec_value() == (old(self).spec_value() + amt) % 0x4000,
            final(self).latch == old(self).latch,
            final(self).wf(),
    {
        let original_low = self.low;
        self.low = add_wrap8(self.low, amt);
        if original_low > self.low {
            // The low byte wrapped; carry into the high byte.
            self.high = self.high + 1;
        }
        proof {
            let oh = old(self).high;
            let ol = old(self).low;
            let nh = self.high;
            let nl = self.low;
            assert(nh * 256 + nl == oh * 256 + ol + amt) by (nonlinear_arith)
                requires
                    nl == (ol + amt) % 256,
                    ol + amt >= 256 ==> nh == oh + 1,
                    ol + amt < 256 ==> nh == oh,
                    ol < 256 && amt < 256,
            ;
        }
        self.mirror_down();
    }

    /// Makes the next write target the high byte again.
    pub fn reset_latch(&mut self)
        ensures
            final(self).latch == true,
            final(self).high == old(self).high && final(self).low == old(self).low,
    {
        self.latch = true;
    }

    pub fn as_u16(&self) -> (r: u16)
        requires
            self.wf(),
        ensures
            r == self.spec_value(),
            r <= 0x3FFF,
    {
        (self.high as u16) * 256 + (self.low as u16)
    }
}

/// Masking the high byte to 6 bits is the same as taking the composite
/// address modulo $4000.
proof fn lemma_mask14(h: u8, l: u8)
    ensures
        ((h % 0x40) as int) * 256 + l == (h * 256 + l) % 0x4000,
{
    assert(((h % 0x40) as u16) * 256 + (l as u16) == ((h as u16) * 256 + (l as u16)) % 0x4000)
        by (bit_vector);
}

/// 8-bit wraparound addition.
fn add_wrap8(a: u8, b: u8) -> (r: u8)
    ensures
        r == (a + b) % 256,
{
    if a <= 0xFF - b {
        a + b
    } else {
        a - (0x100 - b as u16) as u8
    }
}

/// The PPUCTRL byte, kept as named fields.
#[derive(Clone, Copy, Debug, PartialEq, Eq, Structural)]
pub struct Control {
    /// Base nametable select, two bits.
    pub nametable: u8,
    /// False: PPUDATA steps by 1; true: by 32.
    pub vram_address_increment: bool,
    /// Sprite pattern table at $0000 (false) or $1000 (true).
    pub sprite_pattern_address: bool,
    /// Background pattern table at $0000 (false) or $1000 (true).
    pub background_pattern_address: bool,
    pub sprite_size: bool,
    pub master_slave_select: bool,
    /// Raise NMI on entry to the vertical blank.
    pub generate_nmi: bool,
}

impl Control {
    pub open spec fn wf(self) -> bool {
        self.nametable < 4
    }

    pub open spec fn spec_from_bits(bits: u8) -> Control {
        Control {
            nametable: (bits % 4) as u8,
            vram_address_increment: (bits / 4) % 2 == 1,
            sprite_pattern_address: (bits / 8) % 2 == 1,
            background_pattern_address: (bits / 16) % 2 == 1,
            sprite_size: (bits / 32) % 2 == 1,
            master_slave_select: (bits / 64) % 2 == 1,
            generate_nmi: (bits / 128) % 2 == 1,
        }
    }

    pub open spec fn spec_bits(self) -> u8 {
        ((self.nametable % 4) + 4 * b2u(self.vram_address_increment) + 8 * b2u(
            self.sprite_pattern_address,
        ) + 16 * b2u(self.background_pattern_address) + 32 * b2u(self.sprite_size) + 64 * b2u(
            self.master_slave_select,
        ) + 128 * b2u(self.generate_nmi)) as u8
    }

    pub fn bits(&self) -> (r: u8)
        requires
            self.wf(),
        ensures
            r == self.spec_bits(),
    {
        (self.nametable % 4) + 4 * b2u_exec(self.vram_address_increment) + 8 * b2u_exec(
            self.sprite_pattern_address,
        ) + 16 * b2u_exec(self.background_pattern_address) + 32 * b2u_exec(self.sprite_size) + 64
            * b2u_exec(self.master_slave_select) + 128 * b2u_exec(self.generate_nmi)
    }

    /// The base nametable address the two select bits denote.
    pub fn name_table_address(&self) -> (r: u16)
        requires
            self.wf(),
        ensures
            r == 0x2000 + 0x400 * self.nametable,
    {
        0x2000 + 0x400 * (self.nametable as u16)
    }

    /// The PPUDATA auto-increment step.
    pub fn vram_address_increment_amount(&self) -> (r: u8)
        ensures
            r == (if self.vram_address_increment {
                32u8
            } else {
                1u8
            }),
    {
        if self.vram_address_increment {
            32
        } else {
            1
        }
    }

    pub fn background_pattern_address_value(&self) -> (r: u16)
        ensures
            r == (if self.background_pattern_address {
                0x1000u16
            } else {
                0u16
            }),
    {
        if self.background_pattern_address {
            0x1000
        } else {
            0x0000
        }
    }

    pub fn sprite_pattern_address_value(&self) -> (r: u16)
        ensures
            r == (if self.sprite_pattern_address {
                0x1000u16
            } else {
                0u16
            }),
    {
        if self.sprite_pattern_address {
            0x1000
        } else {
            0x0000
        }
    }

    /// Stores a whole byte written through port $2000.
    pub fn update(&mut self, bits: u8)
        ensures
            *final(self) == Control::spec_from_bits(bits),
            final(self).wf(),
    {
        self.nametable = bits % 4;
        self.vram_address_increment = (bits / 4) % 2 == 1;
        self.sprite_pattern_address = (bits / 8) % 2 == 1;
        self.background_pattern_address = (bits / 16) % 2 == 1;
        self.sprite_size = (bits / 32) % 2 == 1;
        self.master_slave_select = (bits / 64) % 2 == 1;
        self.generate_nmi = (bits / 128) % 2 == 1;
    }
}

fn b2u_exec(b: bool) -> (r: u8)
    ensures
        r == b2u(b),
{
    if b {
        1
    } else {
        0
    }
}

/// The PPUSTATUS byte: the five low bits read as zero here.
#[derive(Clone, Copy, Debug, PartialEq, Eq, Structural)]
pub struct Status {
    pub sprite_overflow: bool,
    pub sprite_zero_hit: bool,
    pub vblank_started: bool,
}

impl Status {
    pub open spec fn spec_bits(self) -> u8 {
        (32 * b2u(self.sprite_overflow) + 64 * b2u(self.sprite_zero_hit) + 128 * b2u(
            self.vblank_started,
        )) as u8
    }

    pub fn bits(&self) -> (r: u8)
        ensures
            r == self.spec_bits(),
    {
        32 * b2u_exec(self.sprite_overflow) + 64 * b2u_exec(self.sprite_zero_hit) + 128 * b2u_exec(
            self.vblank_started,
        )
    }
}

/// The PPUSCROLL pair behind port $2005: X first, then Y.
#[derive(Clone, Copy, Debug, PartialEq, Eq, Structural, Default)]
pub struct Scroll {
    pub scroll_x: u8,
    pub scroll_y: u8,
    /// True when the next write goes to Y.
    pub latch: bool,
}

impl Scroll {
    /// One write through port $2005; the toggle advances each time.
    pub fn update(&mut self, data: u8)
        ensures
            old(self).latch ==> final(self).scroll_y == data && final(self).scroll_x == old(
                self,
            ).scroll_x,
            !old(self).latch ==> final(self).scroll_x == data && final(self).scroll_y == old(
                self,
            ).scroll_y,
            final(self).latch == !old(self).latch,
    {
        if self.latch {
            self.scroll_y = data;
        } else {
            self.scroll_x = data;
        }
        self.latch = !self.latch;
    }

    /// Makes the next write target X again.
    pub fn reset_latch(&mut self)
        ensures
            final(self).latch == false,
            final(self).scroll_x == old(self).scroll_x && final(self).scroll_y == old(
                self,
            ).scroll_y,
    {
        self.latch = false;
    }
}

/// The PPUMASK byte, kept as named fields.
#[derive(Clone, Copy, Debug, PartialEq, Eq, Structural, Default)]
pub struct Mask {
    pub greyscale: bool,
    pub leftmost_8px_background: bool,
    pub leftmost_8px_sprite: bool,
    pub show_background: bool,
    pub show_sprite: bool,
    pub emphasize_red: bool,
    pub emphasize_green: bool,
    pub emphasize_blue: bool,
}

impl Mask {
    pub open spec fn spec_from_bits(bits: u8) -> Mask {
        Mask {
            greyscale: bits % 2 == 1,
            leftmost_8px_background: (bits / 2) % 2 == 1,
            leftmost_8px_sprite: (bits / 4) % 2 == 1,
            show_background: (bits / 8) % 2 == 1,
            show_sprite: (bits / 16) % 2 == 1,
            emphasize_red: (bits / 32) % 2 == 1,
            emphasize_green: (bits / 64) % 2 == 1,
            emphasize_blue: (bits / 128) % 2 == 1,
        }
    }

    /// Stores a whole byte written through port $2001.
    pub fn update(&mut self, bits: u8)
        ensures
            *final(self) == Mask::spec_from_bits(bits),
    {
        self.greyscale = bits % 2 == 1;
        self.leftmost_8px_background = (bits / 2) % 2 == 1;
        self.leftmost_8px_sprite = (bits / 4) % 2 == 1;
        self.show_background = (bits / 8) % 2 == 1;
        self.show_sprite = (bits / 16) % 2 == 1;
        self.emphasize_red = (bits / 32) % 2 == 1;
        self.emphasize_green = (bits / 64) % 2 == 1;
        self.emphasize_blue = (bits / 128) % 2 == 1;
    }
}

/// Every register of the PPU port block.
#[derive(Clone, Copy, Debug, PartialEq, Eq, Structural)]
pub struct PpuRegisters {
    pub address: Address,
    pub control: Control,
    pub status: Status,
    pub scroll: Scroll,
    pub mask: Mask,
    pub oam_addr: u8,
}

impl PpuRegisters {
    pub open spec fn wf(self) -> bool {
        self.address.wf() && self.control.wf()
    }
}

impl Default for PpuRegisters {
    /// Power-on state: everything clear; the address latch starts on the
    /// high byte, the scroll latch on X.
    fn default() -> (r: PpuRegisters)
        ensures
            r.address.high == 0 && r.address.low == 0 && r.address.latch == true,
            r.control == Control::spec_from_bits(0),
            r.status.sprite_overflow == false && r.status.sprite_zero_hit == false
                && r.status.vblank_started == false,
            r.scroll.scroll_x == 0 && r.scroll.scroll_y == 0 && r.scroll.latch == false,
            r.mask == Mask::spec_from_bits(0),
            r.oam_addr == 0,
            r.wf(),
    {
        PpuRegisters {
            address: Address::default(),
            control: Control {
                nametable: 0,
                vram_address_increment: false,
                sprite_pattern_address: false,
                background_pattern_address: false,
                sprite_size: false,
                master_slave_select: false,
                generate_nmi: false,
            },
            status: Status { sprite_overflow: false, sprite_zero_hit: false, vblank_started: false },
            scroll: Scroll { scroll_x: 0, scroll_y: 0, latch: false },
            mask: Mask::spec_from_bits_exec(0),
            oam_addr: 0,
        }
    }
}

impl Mask {
    fn spec_from_bits_exec(bits: u8) -> (r: Mask)
        ensures
            r == Mask::spec_from_bits(bits),
    {
        let mut m = Mask {
            greyscale: false,
            leftmost_8px_background: false,
            leftmost_8px_sprite: false,
            show_background: false,
            show_sprite: false,
            emphasize_red: false,
            emphasize_green: false,
            emphasize_blue: false,
        };
        m.update(bits);
        m
    }
}

impl PpuRegisters {
    /// PPUDATA access advances the VRAM address by the control register's
    /// step.
    pub fn increment_vram_address(&mut self)
        requires
            old(self).wf(),
        ensures
            final(self).address.spec_value() == (old(self).address.spec_value() + (if old(
                self,
            ).control.vram_address_increment {
                32int
            } else {
                1int
            })) % 0x4000,
            final(self).address.latch == old(self).address.latch,
            final(self).control == old(self).control && final(self).status == old(self).status,
            final(self).scroll == old(self).scroll && final(self).mask == old(self).mask,
            final(self).oam_addr == old(self).oam_addr,
            final(self).wf(),
    {
        let amt = self.control.vram_address_increment_amount();
        self.address.increment(amt);
    }
}

} // verus!
