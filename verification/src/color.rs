//! RGB colors and the 64-entry system palette of the console.

use vstd::prelude::*;

verus! {

/// One RGB24 color.
#[derive(Clone, Copy, Debug, PartialEq, Eq, Structural)]
pub struct Color {
    pub r: u8,
    pub g: u8,
    pub b: u8,
}

impl Default for Color {
    /// Black.
    fn default() -> (c: Color)
        ensures
            c.r == 0 && c.g == 0 && c.b == 0,
    {
        Color { r: 0, g: 0, b: 0 }
    }
}

impl Color {
    pub fn new(r: u8, g: u8, b: u8) -> (c: Color)
        ensures
            c.r == r && c.g == g && c.b == b,
    {
        Color { r, g, b }
    }
}

impl From<(u8, u8, u8)> for Color {
    fn from(rgb: (u8, u8, u8)) -> (c: Color)
        ensures
            c.r == rgb.0 && c.g == rgb.1 && c.b == rgb.2,
    {
        Color { r: rgb.0, g: rgb.1, b: rgb.2 }
    }
}

impl vstd::std_specs::convert::FromSpecImpl<(u8, u8, u8)> for Color {
    open spec fn obeys_from_spec() -> bool {
        true
    }

    open spec fn from_spec(rgb: (u8, u8, u8)) -> Color {
        Color { r: rgb.0, g: rgb.1, b: rgb.2 }
    }
}

/// The 64-color master palette of the console, normally read from a
/// 192-byte file of RGB triples by the host layer.
#[derive(Clone, Debug)]
pub struct ColorPalette(pub Vec<Color>);

impl ColorPalette {
    /// Every palette holds exactly 64 entries.
    pub open spec fn wf(self) -> bool {
        self.0@.len() == 64
    }

    /// All-black palette.
    pub fn new() -> (p: ColorPalette)
        ensures
            p.wf(),
            forall|i: int| 0 <= i < 64 ==> p.0@[i] == (Color { r: 0, g: 0, b: 0 }),
    {
        let mut v: Vec<Color> = Vec::new();
        let mut i: usize = 0;
        while i < 64
            invariant
                i <= 64,
                v@.len() == i,
                forall|j: int| 0 <= j < i ==> v@[j] == (Color { r: 0, g: 0, b: 0 }),
            decreases 64 - i,
        {
            v.push(Color { r: 0, g: 0, b: 0 });
            i = i + 1;
        }
        ColorPalette(v)
    }

    /// Fills entries from consecutive RGB triples; entries with no complete
    /// triple in `bytes` stay black.
    pub fn load_bytes(bytes: &Vec<u8>) -> (p: ColorPalette)
        ensures
            p.wf(),
            forall|i: int|
                0 <= i < 64 && 3 * i + 2 < bytes@.len() ==> p.0@[i] == (Color {
                    r: bytes@[3 * i],
                    g: bytes@[3 * i + 1],
                    b: bytes@[3 * i + 2],
                }),
            forall|i: int|
                0 <= i < 64 && 3 * i + 2 >= bytes@.len() ==> p.0@[i] == (Color {
                    r: 0,
                    g: 0,
                    b: 0,
                }),
    {
        let mut palette = ColorPalette::new();
        let mut i: usize = 0;
        while i < 64
            invariant
                i <= 64,
                palette.wf(),
                forall|j: int|
                    0 <= j < i && 3 * j + 2 < bytes@.len() ==> palette.0@[j] == (Color {
                        r: bytes@[3 * j],
                        g: bytes@[3 * j + 1],
                        b: bytes@[3 * j + 2],
                    }),
                forall|j: int|
                    (i <= j < 64 || (0 <= j < i && 3 * j + 2 >= bytes@.len())) ==> palette.0@[j]
                        == (Color { r: 0, g: 0, b: 0 }),
            decreases 64 - i,
        {
            if 3 * i + 2 < bytes.len() {
                let c = Color::new(bytes[3 * i], bytes[3 * i + 1], bytes[3 * i + 2]);
                palette.0[i] = c;
            }
            i = i + 1;
        }
        palette
    }

    pub fn get(&self, index: u8) -> (c: Color)
        requires
            self.wf(),
            index < 64,
        ensures
            c == self.0@[index as int],
    {
        self.0[index as usize]
    }

    pub fn set(&mut self, index: u8, color: Color)
        requires
            old(self).wf(),
            index < 64,
        ensures
            final(self).wf(),
            final(self).0@ == old(self).0@.update(index as int, color),
    {
        self.0[index as usize] = color;
    }
}

} // verus!
