use lib::cartridge::{Mirroring, Rom, RomError};

fn image(flags6: u8, flags7: u8, prg_pages: u8, chr_pages: u8, body_len: usize) -> Vec<u8> {
    let mut raw = vec![0x4E, 0x45, 0x53, 0x1A, prg_pages, chr_pages, flags6, flags7];
    raw.resize(16, 0);
    for i in 0..body_len {
        raw.push((i % 251) as u8);
    }
    raw
}

#[test]
fn parse_reads_prg_and_chr_rom() {
    let raw = image(0x01, 0x00, 1, 1, 0x4000 + 0x2000);
    let rom = Rom::parse(&raw).unwrap();
    assert_eq!(rom.prg_rom.len(), 0x4000);
    assert_eq!(rom.chr_rom.len(), 0x2000);
    assert_eq!(&rom.prg_rom[..], &raw[16..16 + 0x4000]);
    assert_eq!(&rom.chr_rom[..], &raw[16 + 0x4000..]);
    assert_eq!(rom.mapper, 0);
    assert_eq!(rom.screen_mirroring, Mirroring::Vertical);
}

#[test]
fn parse_reads_mapper_and_four_screen_bit() {
    let raw = image(0x31, 0x40, 1, 0, 0x4000);
    let rom = Rom::parse(&raw).unwrap();
    assert_eq!(rom.mapper, 0x43);
    assert_eq!(rom.screen_mirroring, Mirroring::FourScreen);
    assert!(rom.chr_rom.is_empty());
}

#[test]
fn parse_horizontal_mirroring() {
    let raw = image(0x00, 0x00, 2, 0, 0x8000);
    let rom = Rom::parse(&raw).unwrap();
    assert_eq!(rom.screen_mirroring, Mirroring::Horizontal);
    assert_eq!(rom.prg_rom.len(), 0x8000);
}

#[test]
fn parse_skips_trainer() {
    let raw = image(0x04, 0x00, 1, 0, 512 + 0x4000);
    let rom = Rom::parse(&raw).unwrap();
    assert_eq!(&rom.prg_rom[..], &raw[16 + 512..]);
}

#[test]
fn parse_rejects_short_header() {
    assert_eq!(Rom::parse(&[0x4E, 0x45, 0x53]), Err(RomError::HeaderTooShort { len: 3 }));
}

#[test]
fn parse_rejects_missing_tag() {
    let mut raw = image(0, 0, 0, 0, 0);
    raw[3] = 0x1B;
    assert_eq!(Rom::parse(&raw), Err(RomError::InvalidFormat));
}

#[test]
fn parse_rejects_ines_2() {
    let raw = image(0, 0x08, 0, 0, 0);
    assert_eq!(Rom::parse(&raw), Err(RomError::UnsupportedInesVersion(2)));
}

#[test]
fn parse_rejects_truncated_image() {
    let raw = image(0, 0, 1, 1, 100);
    assert_eq!(
        Rom::parse(&raw),
        Err(RomError::Truncated { expected: 16 + 0x4000 + 0x2000, actual: 116 })
    );
}
