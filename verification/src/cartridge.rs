//! Parsing of iNES cartridge images.

use vstd::prelude::*;

verus! {

const HEADER_SIZE: usize = 16;

const TRAINER_SIZE: usize = 512;

const PRG_ROM_PAGE_SIZE: usize = 16384;

const CHR_ROM_PAGE_SIZE: usize = 8192;

/// How the PPU name tables are mirrored.
#[derive(Debug, Clone, Copy, PartialEq, Eq, Structural)]
pub enum Mirroring {
    Vertical,
    Horizontal,
    FourScreen,
}

/// A cartridge: program ROM, character ROM, mapper number and mirroring.
#[derive(Debug, Clone, PartialEq, Eq)]
pub struct Rom {
    pub prg_rom: Vec<u8>,
    pub chr_rom: Vec<u8>,
    pub mapper: u8,
    pub screen_mirroring: Mirroring,
}

/// Why an image is not a cartridge that can be loaded.
#[derive(Debug, Clone, Copy, PartialEq, Eq, Structural)]
pub enum RomError {
    HeaderTooShort { len: usize },
    InvalidFormat,
    UnsupportedInesVersion(u8),
    InvalidSize,
    Truncated { expected: usize, actual: usize },
}

/// What a cartridge holds, as plain values: program ROM, character ROM,
/// mapper number and mirroring.
pub type RomImage = (Seq<u8>, Seq<u8>, u8, Mirroring);

/// The contents of `rom` as plain values.
pub open spec fn rom_image(rom: Rom) -> RomImage {
    (rom.prg_rom@, rom.chr_rom@, rom.mapper, rom.screen_mirroring)
}

/// Whether the image starts with the iNES magic number `"NES\x1A"`.
pub open spec fn has_ines_tag(raw: Seq<u8>) -> bool {
    &&& raw.len() >= 4
    &&& raw[0] == 0x4E
    &&& raw[1] == 0x45
    &&& raw[2] == 0x53
    &&& raw[3] == 0x1A
}

/// The mapper number: its high nibble is the high nibble of header byte 7,
/// its low nibble the high nibble of header byte 6.
pub open spec fn mapper_of(raw: Seq<u8>) -> u8 {
    ((raw[7] / 16) * 16 + raw[6] / 16) as u8
}

/// The iNES version field, bits 2 and 3 of header byte 7.
pub open spec fn ines_version_of(raw: Seq<u8>) -> u8 {
    ((raw[7] / 4) % 4) as u8
}

/// The mirroring that header byte 6 selects: bit 4 asks for four screens,
/// else bit 0 chooses between vertical and horizontal.
pub open spec fn mirroring_of(raw: Seq<u8>) -> Mirroring {
    if (raw[6] / 16) % 2 == 1 {
        Mirroring::FourScreen
    } else if raw[6] % 2 == 1 {
        Mirroring::Vertical
    } else {
        Mirroring::Horizontal
    }
}

/// Where the program ROM starts: after the header and, when bit 2 of header
/// byte 6 is set, after the trainer.
pub open spec fn prg_rom_start_of(raw: Seq<u8>) -> int {
    16 + if (raw[6] / 4) % 2 == 1 { 512int } else { 0int }
}

/// Where the character ROM starts: after the program ROM, which has as many
/// 16 KiB pages as header byte 4 says.
pub open spec fn chr_rom_start_of(raw: Seq<u8>) -> int {
    prg_rom_start_of(raw) + raw[4] * 16384
}

/// Where the image ends: after the character ROM, which has as many 8 KiB
/// pages as header byte 5 says.
pub open spec fn rom_end_of(raw: Seq<u8>) -> int {
    chr_rom_start_of(raw) + raw[5] * 8192
}

/// What parsing the image `raw` gives.
pub open spec fn parse_spec(raw: Seq<u8>) -> Result<RomImage, RomError> {
    if raw.len() < 16 {
        Err(RomError::HeaderTooShort { len: raw.len() as usize })
    } else if !has_ines_tag(raw) {
        Err(RomError::InvalidFormat)
    } else if ines_version_of(raw) != 0 {
        Err(RomError::UnsupportedInesVersion(ines_version_of(raw)))
    } else if rom_end_of(raw) > usize::MAX {
        Err(RomError::InvalidSize)
    } else if rom_end_of(raw) > raw.len() {
        Err(RomError::Truncated { expected: rom_end_of(raw) as usize, actual: raw.len() as usize })
    } else {
        Ok(
            (
                raw.subrange(prg_rom_start_of(raw), chr_rom_start_of(raw)),
                raw.subrange(chr_rom_start_of(raw), rom_end_of(raw)),
                mapper_of(raw),
                mirroring_of(raw),
            ),
        )
    }
}

/// The header of every image that parses: it is at least 16 bytes long and
/// starts with `"NES\x1A"`; its version bits (byte 7, bits 2 and 3) are 0;
/// the mapper's low nibble is the high nibble of byte 6 and its high nibble
/// the high nibble of byte 7; bit 4 of byte 6 asks for four screens, else
/// bit 0 for vertical mirroring; the program ROM has 16 KiB per unit of
/// byte 4 and starts after the 16-byte header and, when bit 2 of byte 6 is
/// set, a 512-byte trainer; the character ROM has 8 KiB per unit of byte 5
/// and follows it. An image parses exactly when it has such a header and is
/// long enough for both ROMs.
pub proof fn lemma_parse_header(raw: Seq<u8>)
    ensures
        raw.len() < 16 ==> parse_spec(raw) == Err::<RomImage, RomError>(
            RomError::HeaderTooShort { len: raw.len() as usize },
        ),
        raw.len() >= 16 ==> ({
            let trainer: int = if raw[6] & 0x04 != 0 { 512 } else { 0 };
            let prg_start = 16 + trainer;
            let prg_len = raw[4] * 0x4000;
            let chr_len = raw[5] * 0x2000;
            &&& parse_spec(raw) is Ok <==> {
                &&& raw[0] == 0x4E && raw[1] == 0x45 && raw[2] == 0x53 && raw[3] == 0x1A
                &&& raw[7] & 0x0C == 0
                &&& prg_start + prg_len + chr_len <= raw.len()
            }
            &&& parse_spec(raw) matches Ok(image) ==> {
                &&& image.2 % 16 == raw[6] / 16
                &&& image.2 / 16 == raw[7] / 16
                &&& (image.3 == Mirroring::FourScreen) == (raw[6] & 0x10 != 0)
                &&& (image.3 == Mirroring::Vertical) == (raw[6] & 0x10 == 0 && raw[6] & 0x01 != 0)
                &&& image.0 == raw.subrange(prg_start, prg_start + prg_len)
                &&& image.1 == raw.subrange(prg_start + prg_len, prg_start + prg_len + chr_len)
            }
        }),
{
    if raw.len() >= 16 {
        let b6 = raw[6];
        let b7 = raw[7];
        assert((b6 & 0x04 != 0) == ((b6 / 4) % 2 == 1)) by (bit_vector);
        assert((b6 & 0x10 != 0) == ((b6 / 16) % 2 == 1)) by (bit_vector);
        assert((b6 & 0x01 != 0) == (b6 % 2 == 1)) by (bit_vector);
        assert((b7 & 0x0C == 0) == ((b7 / 4) % 4 == 0)) by (bit_vector);
        let m = ((b7 / 16) * 16 + b6 / 16) as u8;
        assert(m % 16 == b6 / 16 && m / 16 == b7 / 16);
    }
}

impl Rom {
    /// Parses an iNES image.
    pub fn parse(raw: &[u8]) -> (r: Result<Self, RomError>)
        ensures
            r matches Ok(rom) ==> parse_spec(raw@) == Ok::<RomImage, RomError>(rom_image(rom)),
            r matches Err(e) ==> parse_spec(raw@) == Err::<RomImage, RomError>(e),
    {
        if raw.len() < HEADER_SIZE {
            return Err(RomError::HeaderTooShort { len: raw.len() });
        }
        if !(raw[0] == 0x4E && raw[1] == 0x45 && raw[2] == 0x53 && raw[3] == 0x1A) {
            return Err(RomError::InvalidFormat);
        }
        let flags6 = raw[6];
        let flags7 = raw[7];
        let mapper = (flags7 & 0xF0) | (flags6 >> 4);
        let ines_version = (flags7 >> 2) & 0b11;
        assert(mapper == (flags7 / 16) * 16 + flags6 / 16) by (bit_vector)
            requires
                mapper == (flags7 & 0xF0) | (flags6 >> 4),
        ;
        assert(ines_version == (flags7 / 4) % 4) by (bit_vector)
            requires
                ines_version == (flags7 >> 2) & 0b11,
        ;
        if ines_version != 0 {
            return Err(RomError::UnsupportedInesVersion(ines_version));
        }
        let four_screen = flags6 & 0b10000 != 0;
        let vertical_mirroring = flags6 & 0b0001 != 0;
        let has_trainer = flags6 & 0b0100 != 0;
        assert(four_screen == ((flags6 / 16) % 2 == 1)) by (bit_vector)
            requires
                four_screen == (flags6 & 0b10000 != 0),
        ;
        assert(vertical_mirroring == (flags6 % 2 == 1)) by (bit_vector)
            requires
                vertical_mirroring == (flags6 & 0b0001 != 0),
        ;
        assert(has_trainer == ((flags6 / 4) % 2 == 1)) by (bit_vector)
            requires
                has_trainer == (flags6 & 0b0100 != 0),
        ;
        let screen_mirroring = if four_screen {
            Mirroring::FourScreen
        } else if vertical_mirroring {
            Mirroring::Vertical
        } else {
            Mirroring::Horizontal
        };
        let prg_rom_size = usize::from(raw[4]) * PRG_ROM_PAGE_SIZE;
        let chr_rom_size = usize::from(raw[5]) * CHR_ROM_PAGE_SIZE;
        let prg_rom_start = HEADER_SIZE + if has_trainer {
            TRAINER_SIZE
        } else {
            0
        };
        let chr_rom_start = match prg_rom_start.checked_add(prg_rom_size) {
            Some(v) => v,
            None => return Err(RomError::InvalidSize),
        };
        let end = match chr_rom_start.checked_add(chr_rom_size) {
            Some(v) => v,
            None => return Err(RomError::InvalidSize),
        };
        if end > raw.len() {
            return Err(RomError::Truncated { expected: end, actual: raw.len() });
        }
        let prg_rom = vstd::slice::slice_to_vec(&raw[prg_rom_start..chr_rom_start]);
        let chr_rom = vstd::slice::slice_to_vec(&raw[chr_rom_start..end]);
        Ok(Self { prg_rom, chr_rom, mapper, screen_mirroring })
    }
}

} // verus!
