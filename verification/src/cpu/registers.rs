//! The 6502 register file and its bit-packed status byte.

use vstd::prelude::*;

verus! {

/// The processor status byte P, kept as named fields.
///
/// Layout, bit 0 upward: Carry, Zero, InterruptDisable, Decimal, the two
/// B bits (only visible when P is pushed), Overflow, Negative.  Decimal has
/// no arithmetic effect on this CPU variant.
#[derive(Clone, Copy, Debug, PartialEq, Eq, Structural)]
pub struct Status {
    pub carry: bool,
    pub zero: bool,
    pub interrupt_disable: bool,
    pub decimal: bool,
    pub b: u8,
    pub overflow: bool,
    pub negative: bool,
}

pub open spec fn b2u(b: bool) -> u8 {
    if b {
        1u8
    } else {
        0u8
    }
}

impl Status {
    /// The B pair is two bits wide.
    pub open spec fn wf(self) -> bool {
        self.b < 4
    }

    /// The packed byte value of P.
    pub open spec fn spec_bits(self) -> u8 {
        (b2u(self.carry) + 2 * b2u(self.zero) + 4 * b2u(self.interrupt_disable) + 8 * b2u(
            self.decimal,
        ) + 16 * (self.b % 4) + 64 * b2u(self.overflow) + 128 * b2u(self.negative)) as u8
    }

    /// The status value a packed byte denotes.
    pub open spec fn spec_from_bits(bits: u8) -> Status {
        Status {
            carry: bits % 2 == 1,
            zero: (bits / 2) % 2 == 1,
            interrupt_disable: (bits / 4) % 2 == 1,
            decimal: (bits / 8) % 2 == 1,
            b: ((bits / 16) % 4) as u8,
            overflow: (bits / 64) % 2 == 1,
            negative: (bits / 128) % 2 == 1,
        }
    }

    /// Packs the fields into the byte pushed on the stack.
    pub fn bits(&self) -> (r: u8)
        requires
            self.wf(),
        ensures
            r == self.spec_bits(),
    {
        let mut r: u8 = 0;
        if self.carry {
            r = r + 1;
        }
        if self.zero {
            r = r + 2;
        }
        if self.interrupt_disable {
            r = r + 4;
        }
        if self.decimal {
            r = r + 8;
        }
        r = r + 16 * (self.b % 4);
        if self.overflow {
            r = r + 64;
        }
        if self.negative {
            r = r + 128;
        }
        r
    }

    /// Replaces every field, B pair included, from a packed byte.
    pub fn set_bits(&mut self, bits: u8)
        ensures
            *final(self) == Status::spec_from_bits(bits),
            final(self).wf(),
    {
        self.carry = bits % 2 == 1;
        self.zero = (bits / 2) % 2 == 1;
        self.interrupt_disable = (bits / 4) % 2 == 1;
        self.decimal = (bits / 8) % 2 == 1;
        self.b = (bits / 16) % 4;
        self.overflow = (bits / 64) % 2 == 1;
        self.negative = (bits / 128) % 2 == 1;
    }
}

/// Packing and unpacking the status byte lose nothing: every byte value
/// round-trips through the named fields, and well-formed fields round-trip
/// through the byte, B pair included.
#[verifier::rlimit(60)]
pub proof fn lemma_status_bits_roundtrip(bits: u8, s: Status)
    requires
        s.wf(),
    ensures
        Status::spec_from_bits(bits).spec_bits() == bits,
        Status::spec_from_bits(s.spec_bits()) == s,
{
    assert((bits % 2 + 2 * ((bits / 2) % 2) + 4 * ((bits / 4) % 2) + 8 * ((bits / 8) % 2) + 16 * (((
    bits / 16) % 4) % 4) + 64 * ((bits / 64) % 2) + 128 * ((bits / 128) % 2)) as u8 == bits)
        by (bit_vector);
    let x = s.spec_bits();
    let (c, z, i, d, b, v, n) = (
        s.carry,
        s.zero,
        s.interrupt_disable,
        s.decimal,
        s.b,
        s.overflow,
        s.negative,
    );
    assert({
        let y = (b2u(c) + 2 * b2u(z) + 4 * b2u(i) + 8 * b2u(d) + 16 * (b % 4) + 64 * b2u(v) + 128
            * b2u(n)) as u8;
        b < 4 ==> ((y % 2 == 1) == c && ((y / 2) % 2 == 1) == z && ((y / 4) % 2 == 1) == i && ((y
            / 8) % 2 == 1) == d && ((y / 16) % 4) as u8 == b && ((y / 64) % 2 == 1) == v && ((y
            / 128) % 2 == 1) == n)
    }) by (bit_vector);
}

/// A, X, Y, the stack pointer (low byte of page $0100), the program
/// counter, and the status byte.
#[derive(Clone, Copy, Debug, PartialEq, Eq, Structural)]
pub struct CpuRegisters {
    pub accumulator: u8,
    pub x: u8,
    pub y: u8,
    pub stack_pointer: u8,
    pub status: Status,
    pub program_counter: u16,
}

impl Default for CpuRegisters {
    /// Power-on state: registers clear, SP at $FD, P = %00100100.
    fn default() -> (r: CpuRegisters)
        ensures
            r.accumulator == 0 && r.x == 0 && r.y == 0,
            r.stack_pointer == 0xFD,
            r.program_counter == 0,
            r.status == Status::spec_from_bits(0x24),
            r.status.wf(),
    {
        CpuRegisters {
            accumulator: 0,
            x: 0,
            y: 0,
            stack_pointer: 0xFD,
            status: Status {
                carry: false,
                zero: false,
                interrupt_disable: true,
                decimal: false,
                b: 2,
                overflow: false,
                negative: false,
            },
            program_counter: 0,
        }
    }
}

} // verus!
