use vstd::prelude::*;
use crate::bus::{NromMapper, SAVE_RAM_SIZE};

verus! {

pub const HEADER_SIZE: usize = 16;

/// Bytes in one unit of the header's program-ROM size.
pub const PRG_ROM_PAGE: usize = 16384;

/// Bytes in one unit of the header's character-ROM size.
pub const CHR_ROM_PAGE: usize = 8192;

/// The first four bytes of an iNES image: "NES" and 0x1A.
pub open spec fn has_signature(bytes: Seq<u8>) -> bool {
    bytes.len() >= 4 && bytes[0] == 0x4E && bytes[1] == 0x45 && bytes[2] == 0x53 && bytes[3] == 0x1A
}

/// The fields of an iNES header that a cartridge needs.
#[derive(Clone, Copy, Debug, PartialEq, Eq, Structural)]
pub struct INesHeader {
    pub prg_rom_size: u8,
    pub chr_rom_size: u8,
    pub flags6: u8,
    pub flags7: u8,
}

/// Why an image could not be read as a cartridge.
#[derive(Clone, Copy, Debug, PartialEq, Eq, Structural)]
pub enum RomError {
    /// Fewer bytes than a header.
    TooShort,
    /// The image does not start with the iNES signature.
    NotINes,
    /// The image ends before the ROM that its header announces.
    Truncated,
}

/// The header at the start of an image: an error where the image is shorter
/// than a header or lacks the signature.
pub open spec fn header_of(bytes: Seq<u8>) -> Result<INesHeader, RomError> {
    if bytes.len() < HEADER_SIZE {
        Err(RomError::TooShort)
    } else if !has_signature(bytes) {
        Err(RomError::NotINes)
    } else {
        Ok(INesHeader { prg_rom_size: bytes[4], chr_rom_size: bytes[5], flags6: bytes[6], flags7: bytes[7] })
    }
}

/// Reads the iNES header at the start of `bytes`.
pub fn parse_header(bytes: &Vec<u8>) -> (r: Result<INesHeader, RomError>)
    ensures
        r == header_of(bytes@),
{
    if bytes.len() < HEADER_SIZE {
        return Err(RomError::TooShort);
    }
    if bytes[0] != 0x4E || bytes[1] != 0x45 || bytes[2] != 0x53 || bytes[3] != 0x1A {
        return Err(RomError::NotINes);
    }
    Ok(INesHeader { prg_rom_size: bytes[4], chr_rom_size: bytes[5], flags6: bytes[6], flags7: bytes[7] })
}

/// The program and character ROM of a cartridge image.
pub struct Cartridge {
    pub prg_rom: Vec<u8>,
    pub chr_rom: Vec<u8>,
}

/// `bytes[from..from + n]` as a new vector.
fn copy_range(bytes: &Vec<u8>, from: usize, n: usize) -> (r: Vec<u8>)
    requires
        from + n <= bytes@.len(),
    ensures
        r@ == bytes@.subrange(from as int, from + n),
{
    let mut r: Vec<u8> = Vec::with_capacity(n);
    let mut i: usize = 0;
    let len = bytes.len();
    while i < n
        invariant
            from + n <= bytes@.len(),
            len == bytes@.len(),
            i <= n,
            r@ == bytes@.subrange(from as int, from + i),
        decreases n - i,
    {
        r.push(bytes[from + i]);
        i = i + 1;
        assert(r@ =~= bytes@.subrange(from as int, from + i));
    }
    r
}

impl Cartridge {
    /// Splits an iNES image into its program ROM, which follows the header, and
    /// its character ROM, which follows the program ROM; both sizes come from
    /// the header.
    pub fn from_bytes(bytes: &Vec<u8>) -> (r: Result<Cartridge, RomError>)
        ensures
            match header_of(bytes@) {
                Err(e) => r matches Err(e2) && e2 == e,
                Ok(h) => {
                    let prg_end = HEADER_SIZE + h.prg_rom_size * PRG_ROM_PAGE;
                    let chr_end = prg_end + h.chr_rom_size * CHR_ROM_PAGE;
                    if bytes@.len() < chr_end {
                        r matches Err(e2) && e2 == RomError::Truncated
                    } else {
                        r matches Ok(c) && c.prg_rom@ == bytes@.subrange(HEADER_SIZE as int, prg_end)
                            && c.chr_rom@ == bytes@.subrange(prg_end, chr_end)
                    }
                },
            },
    {
        let h = match parse_header(bytes) {
            Err(e) => return Err(e),
            Ok(h) => h,
        };
        let prg_len = h.prg_rom_size as usize * PRG_ROM_PAGE;
        let chr_len = h.chr_rom_size as usize * CHR_ROM_PAGE;
        if bytes.len() - HEADER_SIZE < prg_len || bytes.len() - HEADER_SIZE - prg_len < chr_len {
            return Err(RomError::Truncated);
        }
        let prg_rom = copy_range(bytes, HEADER_SIZE, prg_len);
        let chr_rom = copy_range(bytes, HEADER_SIZE + prg_len, chr_len);
        Ok(Cartridge { prg_rom, chr_rom })
    }

    /// The cartridge's program ROM behind the simplest mapper, with a full bank
    /// of zeroed work RAM.
    pub fn into_mapper(self) -> (r: NromMapper)
        ensures
            r.prg_rom@ == self.prg_rom@,
            r.save_ram@ == Seq::new(SAVE_RAM_SIZE as nat, |i: int| 0u8),
    {
        NromMapper::new(self.prg_rom, SAVE_RAM_SIZE)
    }
}

} // verus!
