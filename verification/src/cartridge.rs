//! Cartridge images in the iNES container format: a 16-byte header, an
//! optional 512-byte trainer, then PRG ROM (16 KiB pages) and CHR ROM
//! (8 KiB pages).

use vstd::prelude::*;

verus! {

pub const PRG_ROM_PAGE_SIZE: usize = 16384;

pub const CHR_ROM_PAGE_SIZE: usize = 8192;

/// How the two physical nametables are aliased over the four logical ones.
#[derive(Clone, Copy, Debug, PartialEq, Eq, Structural)]
pub enum ScreenMirroring {
    Vertical,
    Horizontal,
    FourScreen,
}

/// Reasons a byte image is rejected by the loader.
#[derive(Clone, Copy, Debug, PartialEq, Eq, Structural)]
pub enum CartridgeError {
    /// The image does not start with the `NES\x1A` magic.
    BadMagic,
    /// Header bits 2..3 of byte 7 select a container version other than 0.
    UnsupportedVersion,
    /// The image ends before the header, trainer, PRG or CHR data does.
    Truncated,
}

pub struct Cartridge {
    pub prg_rom: Vec<u8>,
    pub chr_rom: Vec<u8>,
    pub mapper: u8,
    pub screen_mirroring: ScreenMirroring,
}

/// The four magic bytes `N`, `E`, `S`, `\x1A` open every iNES image.
pub open spec fn has_magic(bytes: Seq<u8>) -> bool {
    bytes.len() >= 4 && bytes[0] == 0x4E && bytes[1] == 0x45 && bytes[2] == 0x53 && bytes[3] == 0x1A
}

/// Container version stored in bits 2..3 of header byte 7.
pub open spec fn spec_ines_version(bytes: Seq<u8>) -> u8 {
    (bytes[7] / 4) % 4
}

/// Mapper number: high nibble of byte 7, low nibble from the high nibble of
/// byte 6.
pub open spec fn spec_mapper(bytes: Seq<u8>) -> u8 {
    ((bytes[7] / 16) * 16 + bytes[6] / 16) as u8
}

pub open spec fn spec_mirroring(bytes: Seq<u8>) -> ScreenMirroring {
    if (bytes[6] / 8) % 2 != 0 {
        ScreenMirroring::FourScreen
    } else if bytes[6] % 2 != 0 {
        ScreenMirroring::Vertical
    } else {
        ScreenMirroring::Horizontal
    }
}

pub open spec fn spec_prg_size(bytes: Seq<u8>) -> int {
    bytes[4] * (PRG_ROM_PAGE_SIZE as int)
}

pub open spec fn spec_chr_size(bytes: Seq<u8>) -> int {
    bytes[5] * (CHR_ROM_PAGE_SIZE as int)
}

/// PRG data starts after the header and, when byte 6 bit 2 is set, after a
/// 512-byte trainer.
pub open spec fn spec_prg_start(bytes: Seq<u8>) -> int {
    16 + if (bytes[6] / 4) % 2 != 0 {
        512int
    } else {
        0int
    }
}

/// A well-formed image: magic, version 0, and room for all declared data.
pub open spec fn spec_cart_ok(bytes: Seq<u8>) -> bool {
    &&& has_magic(bytes)
    &&& bytes.len() >= 16
    &&& spec_ines_version(bytes) == 0
    &&& bytes.len() >= spec_prg_start(bytes) + spec_prg_size(bytes) + spec_chr_size(bytes)
}

impl Cartridge {
    /// Parses an iNES byte image.
    ///
    /// Succeeds exactly on well-formed images; the PRG and CHR vectors are
    /// the declared subranges of the input, and mapper and mirroring come
    /// from header bytes 6 and 7.
    pub fn load_bytes(bytes: &Vec<u8>) -> (r: Result<Cartridge, CartridgeError>)
        ensures
            r is Ok <==> spec_cart_ok(bytes@),
            !has_magic(bytes@) ==> r == Result::<Cartridge, CartridgeError>::Err(
                CartridgeError::BadMagic,
            ),
            has_magic(bytes@) && bytes@.len() >= 16 && spec_ines_version(bytes@) != 0 ==> r
                == Result::<Cartridge, CartridgeError>::Err(CartridgeError::UnsupportedVersion),
            r is Ok ==> {
                let cart = r->Ok_0;
                &&& cart.prg_rom@ == bytes@.subrange(
                    spec_prg_start(bytes@),
                    spec_prg_start(bytes@) + spec_prg_size(bytes@),
                )
                &&& cart.chr_rom@ == bytes@.subrange(
                    spec_prg_start(bytes@) + spec_prg_size(bytes@),
                    spec_prg_start(bytes@) + spec_prg_size(bytes@) + spec_chr_size(bytes@),
                )
                &&& cart.mapper == spec_mapper(bytes@)
                &&& cart.screen_mirroring == spec_mirroring(bytes@)
            },
    {
        if bytes.len() < 4 || bytes[0] != 0x4E || bytes[1] != 0x45 || bytes[2] != 0x53 || bytes[3]
            != 0x1A {
            return Err(CartridgeError::BadMagic);
        }
        if bytes.len() < 16 {
            return Err(CartridgeError::Truncated);
        }
        let mapper = (bytes[7] / 16) * 16 + bytes[6] / 16;
        let ines_ver = (bytes[7] / 4) % 4;
        if ines_ver != 0 {
            return Err(CartridgeError::UnsupportedVersion);
        }
        let screen_mirroring = if (bytes[6] / 8) % 2 != 0 {
            ScreenMirroring::FourScreen
        } else if bytes[6] % 2 != 0 {
            ScreenMirroring::Vertical
        } else {
            ScreenMirroring::Horizontal
        };

        let prg_rom_size: usize = bytes[4] as usize * PRG_ROM_PAGE_SIZE;
        let chr_rom_size: usize = bytes[5] as usize * CHR_ROM_PAGE_SIZE;
        let prg_rom_start: usize = if (bytes[6] / 4) % 2 != 0 {
            16 + 512
        } else {
            16
        };
        let chr_rom_start = prg_rom_start + prg_rom_size;

        if bytes.len() < chr_rom_start + chr_rom_size {
            return Err(CartridgeError::Truncated);
        }
        let prg_rom = copy_range(bytes, prg_rom_start, prg_rom_size);
        let chr_rom = copy_range(bytes, chr_rom_start, chr_rom_size);
        Ok(Cartridge { prg_rom, chr_rom, mapper, screen_mirroring })
    }
}

/// Copies `len` bytes of `bytes` starting at `start` into a fresh vector.
fn copy_range(bytes: &Vec<u8>, start: usize, len: usize) -> (r: Vec<u8>)
    requires
        start + len <= bytes@.len(),
    ensures
        r@ == bytes@.subrange(start as int, start as int + len as int),
{
    let mut out: Vec<u8> = Vec::new();
    let total: usize = bytes.len();
    let mut i: usize = 0;
    while i < len
        invariant
            i <= len,
            start + len <= total,
            total == bytes@.len(),
            out@ == bytes@.subrange(start as int, start as int + i as int),
        decreases len - i,
    {
        out.push(bytes[start + i]);
        proof {
            assert(out@ =~= bytes@.subrange(start as int, start as int + i as int + 1));
        }
        i = i + 1;
    }
    out
}

/// A fully zero header apart from the sizes given; builds the byte image of
/// a cartridge for tests: header, optional trainer, PRG, then CHR.
pub struct TestRom {
    pub header: Vec<u8>,
    pub trainer: Option<Vec<u8>>,
    pub prg_rom: Vec<u8>,
    pub chr_rom: Vec<u8>,
}

pub fn create_rom(rom: TestRom) -> (r: Vec<u8>)
    ensures
        rom.trainer is Some ==> r@ == rom.header@ + rom.trainer->0@ + rom.prg_rom@ + rom.chr_rom@,
        rom.trainer is None ==> r@ == rom.header@ + rom.prg_rom@ + rom.chr_rom@,
{
    let mut result: Vec<u8> = Vec::new();
    append_all(&mut result, &rom.header);
    match &rom.trainer {
        Some(t) => append_all(&mut result, t),
        None => (),
    }
    append_all(&mut result, &rom.prg_rom);
    append_all(&mut result, &rom.chr_rom);
    result
}

fn append_all(dst: &mut Vec<u8>, src: &Vec<u8>)
    ensures
        final(dst)@ == old(dst)@ + src@,
{
    let mut i: usize = 0;
    while i < src.len()
        invariant
            i <= src@.len(),
            dst@ == old(dst)@ + src@.subrange(0, i as int),
        decreases src@.len() - i,
    {
        dst.push(src[i]);
        proof {
            assert(dst@ =~= old(dst)@ + src@.subrange(0, i as int + 1));
        }
        i = i + 1;
    }
    proof {
        assert(dst@ =~= old(dst)@ + src@);
    }
}

/// A ready-made 32 KiB mapper-0 cartridge with vertical mirroring.
///
/// With `Some` program bytes, they are laid down from the start of PRG and
/// the reset vector points at $8000; with `None` the PRG is all ones.
pub fn test_rom(prg_rom: Option<Vec<u8>>) -> (c: Cartridge)
    requires
        prg_rom is Some ==> prg_rom->0@.len() <= 2 * PRG_ROM_PAGE_SIZE,
    ensures
        c.prg_rom@.len() == 2 * PRG_ROM_PAGE_SIZE,
        c.chr_rom@.len() == CHR_ROM_PAGE_SIZE,
        forall|i: int| 0 <= i < CHR_ROM_PAGE_SIZE ==> c.chr_rom@[i] == 2u8,
        c.mapper == 3,
        c.screen_mirroring == ScreenMirroring::Vertical,
        prg_rom is None ==> forall|i: int|
            0 <= i < 2 * PRG_ROM_PAGE_SIZE ==> c.prg_rom@[i] == 1u8,
        prg_rom is Some ==> c.prg_rom@[0x7FFD] == 0x80 && forall|i: int|
            0 <= i < 2 * PRG_ROM_PAGE_SIZE && i != 0x7FFD ==> c.prg_rom@[i] == (if i
                < prg_rom->0@.len() {
                prg_rom->0@[i]
            } else {
                0u8
            }),
{
    let prg_rom: Vec<u8> = match prg_rom {
        Some(p) => {
            let mut result = zero_filled(2 * PRG_ROM_PAGE_SIZE);
            let mut i: usize = 0;
            while i < p.len()
                invariant
                    i <= p@.len(),
                    p@.len() <= 2 * PRG_ROM_PAGE_SIZE,
                    result@.len() == 2 * PRG_ROM_PAGE_SIZE,
                    forall|j: int| 0 <= j < i ==> result@[j] == p@[j],
                    forall|j: int|
                        i <= j < 2 * PRG_ROM_PAGE_SIZE ==> result@[j] == 0u8,
                decreases p@.len() - i,
            {
                result[i] = p[i];
                i = i + 1;
            }
            result[0x7FFD] = 0x80;
            result
        },
        None => filled(1, 2 * PRG_ROM_PAGE_SIZE),
    };
    let mut header: Vec<u8> = Vec::new();
    header.push(0x4E);
    header.push(0x45);
    header.push(0x53);
    header.push(0x1A);
    header.push(0x02);
    header.push(0x01);
    header.push(0x31);
    let mut i: usize = 0;
    while i < 9
        invariant
            i <= 9,
            header@.len() == 7 + i,
            header@[0] == 0x4Eu8 && header@[1] == 0x45u8 && header@[2] == 0x53u8 && header@[3]
                == 0x1Au8,
            header@[4] == 0x02u8 && header@[5] == 0x01u8 && header@[6] == 0x31u8,
            forall|j: int| 7 <= j < 7 + i ==> header@[j] == 0u8,
        decreases 9 - i,
    {
        header.push(0);
        i = i + 1;
    }
    let image = create_rom(
        TestRom { header, trainer: None, prg_rom, chr_rom: filled(2, CHR_ROM_PAGE_SIZE) },
    );
    let cart = Cartridge::load_bytes(&image);
    match cart {
        Ok(c) => c,
        Err(_) => {
            // Unreachable: the image built above is well-formed.
            assert(false);
            Cartridge {
                prg_rom: Vec::new(),
                chr_rom: Vec::new(),
                mapper: 0,
                screen_mirroring: ScreenMirroring::Vertical,
            }
        },
    }
}

/// A vector of `len` copies of `value`.
pub fn filled(value: u8, len: usize) -> (r: Vec<u8>)
    ensures
        r@.len() == len,
        forall|i: int| 0 <= i < len ==> r@[i] == value,
{
    let mut v: Vec<u8> = Vec::new();
    let mut i: usize = 0;
    while i < len
        invariant
            i <= len,
            v@.len() == i,
            forall|j: int| 0 <= j < i ==> v@[j] == value,
        decreases len - i,
    {
        v.push(value);
        i = i + 1;
    }
    v
}

/// A vector of `len` zero bytes.
pub fn zero_filled(len: usize) -> (r: Vec<u8>)
    ensures
        r@.len() == len,
        forall|i: int| 0 <= i < len ==> r@[i] == 0,
{
    filled(0, len)
}

} // verus!
