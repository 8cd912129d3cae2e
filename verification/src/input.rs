//! The standard joypad: a strobe latch and an 8-bit shift-out register
//! behind port $4016.

use vstd::prelude::*;

verus! {

use crate::cpu::registers::b2u;

/// The eight buttons, A first; bit order on the wire is A, B, Select,
/// Start, Up, Down, Left, Right, least significant first.
#[derive(Clone, Copy, Debug, PartialEq, Eq, Structural, Default)]
pub struct ButtonState {
    pub a: bool,
    pub b: bool,
    pub select: bool,
    pub start: bool,
    pub up: bool,
    pub down: bool,
    pub left: bool,
    pub right: bool,
}

impl ButtonState {
    /// The packed button mask, A in bit 0.
    pub open spec fn spec_bits(self) -> u8 {
        (b2u(self.a) + 2 * b2u(self.b) + 4 * b2u(self.select) + 8 * b2u(self.start) + 16 * b2u(
            self.up,
        ) + 32 * b2u(self.down) + 64 * b2u(self.left) + 128 * b2u(self.right)) as u8
    }

    #[verifier::rlimit(30)]
    pub fn bits(&self) -> (r: u8)
        ensures
            r == self.spec_bits(),
    {
        let mut r: u8 = 0;
        if self.a {
            r = r + 1;
        }
        if self.b {
            r = r + 2;
        }
        if self.select {
            r = r + 4;
        }
        if self.start {
            r = r + 8;
        }
        if self.up {
            r = r + 16;
        }
        if self.down {
            r = r + 32;
        }
        if self.left {
            r = r + 64;
        }
        if self.right {
            r = r + 128;
        }
        r
    }
}

impl ButtonState {
    pub fn set_a(&mut self, pressed: bool)
        ensures
            *final(self) == (ButtonState { a: pressed, ..*old(self) }),
    {
        self.a = pressed;
    }

    pub fn set_b(&mut self, pressed: bool)
        ensures
            *final(self) == (ButtonState { b: pressed, ..*old(self) }),
    {
        self.b = pressed;
    }

    pub fn set_select(&mut self, pressed: bool)
        ensures
            *final(self) == (ButtonState { select: pressed, ..*old(self) }),
    {
        self.select = pressed;
    }

    pub fn set_start(&mut self, pressed: bool)
        ensures
            *final(self) == (ButtonState { start: pressed, ..*old(self) }),
    {
        self.start = pressed;
    }

    pub fn set_up(&mut self, pressed: bool)
        ensures
            *final(self) == (ButtonState { up: pressed, ..*old(self) }),
    {
        self.up = pressed;
    }

    pub fn set_down(&mut self, pressed: bool)
        ensures
            *final(self) == (ButtonState { down: pressed, ..*old(self) }),
    {
        self.down = pressed;
    }

    pub fn set_left(&mut self, pressed: bool)
        ensures
            *final(self) == (ButtonState { left: pressed, ..*old(self) }),
    {
        self.left = pressed;
    }

    pub fn set_right(&mut self, pressed: bool)
        ensures
            *final(self) == (ButtonState { right: pressed, ..*old(self) }),
    {
        self.right = pressed;
    }
}

/// The joypad itself.  The host sets `button_state` between ticks; a strobe
/// write snapshots it and reads shift the snapshot out bit by bit.
pub struct Controller {
    pub strobe: bool,
    pub button_index: u8,
    pub snapshot: u8,
    pub button_state: ButtonState,
}

impl Controller {
    pub fn new() -> (c: Controller)
        ensures
            c.strobe == false,
            c.button_index == 0,
            c.snapshot == 0,
            c.button_state == ButtonState::default_spec(),
    {
        Controller {
            strobe: false,
            button_index: 0,
            snapshot: 0,
            button_state: ButtonState {
                a: false,
                b: false,
                select: false,
                start: false,
                up: false,
                down: false,
                left: false,
                right: false,
            },
        }
    }

    /// A write to port $4016.  Bit 0 set captures the current button mask
    /// and rewinds the shift index; bit 0 clear freezes the snapshot so
    /// reads can shift it out.
    pub fn write(&mut self, data: u8)
        ensures
            final(self).strobe == (data % 2 == 1),
            data % 2 == 1 ==> final(self).button_index == 0 && final(self).snapshot == old(
                self,
            ).button_state.spec_bits(),
            data % 2 != 1 ==> final(self).button_index == old(self).button_index
                && final(self).snapshot == old(self).snapshot,
            final(self).button_state == old(self).button_state,
    {
        self.strobe = data % 2 == 1;
        if self.strobe {
            self.button_index = 0;
            self.snapshot = self.button_state.bits();
        }
    }

    /// A read from port $4016: bit `button_index` of the snapshot, least
    /// significant bit first.  With the strobe clear the index advances up
    /// to 8; once every button has been shifted out further reads return 1.
    pub fn read(&mut self) -> (r: u8)
        ensures
            old(self).button_index > 7 ==> r == 1 && *final(self) == *old(self),
            old(self).button_index <= 7 ==> r == (old(self).snapshot as int / pow2_small(
                old(self).button_index as nat,
            )) % 2,
            old(self).button_index <= 7 && !old(self).strobe ==> final(self).button_index == old(
                self,
            ).button_index + 1,
            old(self).button_index <= 7 && old(self).strobe ==> final(self).button_index == old(
                self,
            ).button_index,
            final(self).strobe == old(self).strobe && final(self).snapshot == old(self).snapshot,
            final(self).button_state == old(self).button_state,
            r <= 1,
    {
        if self.button_index > 7 {
            return 1;
        }
        let response = (self.snapshot / pow2_small_exec(self.button_index)) % 2;
        if !self.strobe {
            self.button_index = self.button_index + 1;
        }
        response
    }
}

impl ButtonState {
    pub open spec fn default_spec() -> ButtonState {
        ButtonState {
            a: false,
            b: false,
            select: false,
            start: false,
            up: false,
            down: false,
            left: false,
            right: false,
        }
    }
}

/// 2 to the `e` for the eight bit positions of a byte.
pub open spec fn pow2_small(e: nat) -> int {
    if e == 0 {
        1
    } else if e == 1 {
        2
    } else if e == 2 {
        4
    } else if e == 3 {
        8
    } else if e == 4 {
        16
    } else if e == 5 {
        32
    } else if e == 6 {
        64
    } else {
        128
    }
}

fn pow2_small_exec(e: u8) -> (r: u8)
    requires
        e <= 7,
    ensures
        r == pow2_small(e as nat),
{
    if e == 0 {
        1
    } else if e == 1 {
        2
    } else if e == 2 {
        4
    } else if e == 3 {
        8
    } else if e == 4 {
        16
    } else if e == 5 {
        32
    } else if e == 6 {
        64
    } else {
        128
    }
}

} // verus!
