//! The RGB24 frame buffer handed to the host once per completed frame.

use vstd::prelude::*;

verus! {

pub const FRAME_WIDTH: usize = 256;

pub const FRAME_HEIGHT: usize = 240;

/// A 256 x 240 image, three bytes per pixel, rows top to bottom.
#[derive(Clone, Debug)]
pub struct Frame(pub Vec<u8>);

impl Frame {
    pub open spec fn wf(self) -> bool {
        self.0@.len() == 256 * 240 * 3
    }

    /// An all-black frame.
    pub fn new() -> (f: Frame)
        ensures
            f.wf(),
            forall|i: int| 0 <= i < 256 * 240 * 3 ==> f.0@[i] == 0u8,
    {
        Frame(crate::cartridge::zero_filled(FRAME_WIDTH * FRAME_HEIGHT * 3))
    }

    pub fn data(&self) -> (r: &Vec<u8>)
        ensures
            r@ == self.0@,
    {
        &self.0
    }

    /// Writes one pixel; coordinates off the screen are ignored.
    pub fn set_pixel(&mut self, x: usize, y: usize, color: (u8, u8, u8))
        requires
            old(self).wf(),
        ensures
            final(self).wf(),
            x < 256 && y < 240 ==> final(self).0@ == old(self).0@.update(
                (y * 256 + x) * 3,
                color.0,
            ).update((y * 256 + x) * 3 + 1, color.1).update((y * 256 + x) * 3 + 2, color.2),
            !(x < 256 && y < 240) ==> final(self).0@ == old(self).0@,
    {
        if x < 256 && y < 240 {
            let index = (y * FRAME_WIDTH + x) * 3;
            proof {
                assert(y * 256 + x <= 239 * 256 + 255) by (nonlinear_arith)
                    requires
                        x < 256 && y < 240,
                ;
            }
            self.0[index] = color.0;
            self.0[index + 1] = color.1;
            self.0[index + 2] = color.2;
        }
    }
}

/// A sink for finished frames, for the host layer to implement over
/// whatever display it drives.
pub trait Renderer {
    fn render(&mut self, frame: &Frame);
}

/// An axis-aligned clip rectangle, lower bounds inclusive and upper bounds
/// exclusive.
#[derive(Clone, Copy, Debug, PartialEq, Eq, Structural)]
pub struct ViewPortRect {
    pub x1: usize,
    pub y1: usize,
    pub x2: usize,
    pub y2: usize,
}

impl ViewPortRect {
    pub fn new(x1: usize, y1: usize, x2: usize, y2: usize) -> (r: ViewPortRect)
        ensures
            r.x1 == x1 && r.y1 == y1 && r.x2 == x2 && r.y2 == y2,
    {
        ViewPortRect { x1, y1, x2, y2 }
    }

    pub fn point_is_bounded(&self, x: usize, y: usize) -> (r: bool)
        ensures
            r == (self.x1 <= x < self.x2 && self.y1 <= y < self.y2),
    {
        x >= self.x1 && x < self.x2 && y >= self.y1 && y < self.y2
    }
}

} // verus!
