use lib::cartridge::{Mirroring, Rom};
use lib::cpu::bus::{Bus, BusError, FlatMemory, NesBus, ADDRESS_SPACE_SIZE};

fn rom_with(prg_rom: Vec<u8>, mapper: u8) -> Rom {
    Rom { prg_rom, chr_rom: vec![0; 0x2000], mapper, screen_mirroring: Mirroring::Vertical }
}

#[test]
fn flat_memory_starts_zeroed() {
    let mem = FlatMemory::new();
    assert_eq!(mem.as_slice().len(), ADDRESS_SPACE_SIZE);
    assert!(mem.as_slice().iter().all(|&b| b == 0));
}

#[test]
fn flat_memory_reads_back_writes() {
    let mut mem = FlatMemory::new();
    mem.write(0x1234, 0x56);
    assert_eq!(mem.read(0x1234), 0x56);
    assert_eq!(mem.read(0x1235), 0);
    mem.write_u16(0x0010, 0xBEEF);
    assert_eq!(mem.read(0x0010), 0xEF);
    assert_eq!(mem.read(0x0011), 0xBE);
    assert_eq!(mem.read_u16(0x0010), 0xBEEF);
}

#[test]
fn word_access_wraps_at_end_of_address_space() {
    let mut mem = FlatMemory::new();
    mem.write_u16(0xFFFF, 0x1234);
    assert_eq!(mem.read(0xFFFF), 0x34);
    assert_eq!(mem.read(0x0000), 0x12);
    assert_eq!(mem.read_u16(0xFFFF), 0x1234);
}

#[test]
fn flat_load_stops_at_end_of_address_space() {
    let mut mem = FlatMemory::new();
    assert_eq!(mem.load(0xFFFF, &[1, 2]), Err(BusError::OutOfRange));
    assert_eq!(mem.read(0xFFFF), 0);
    assert_eq!(mem.read(0x0000), 0);
    assert_eq!(mem.load(0xFFFE, &[1, 2]), Ok(()));
    assert_eq!(mem.read(0xFFFE), 1);
    assert_eq!(mem.read(0xFFFF), 2);
    assert_eq!(mem.as_slice().len(), 0x10000);
}

#[test]
fn nes_bus_load_stops_at_end_of_address_space() {
    let mut bus = NesBus::new(rom_with(vec![0; 0x8000], 0)).unwrap();
    assert_eq!(bus.load(0x4FFF, &vec![9u8; 0xB002]), Err(BusError::OutOfRange));
    assert_eq!(bus.read(0x0000), 0);
}

#[test]
fn flat_load_rejects_out_of_range() {
    let mut mem = FlatMemory::new();
    let bytes = vec![7u8; ADDRESS_SPACE_SIZE];
    assert_eq!(mem.load(1, &bytes), Err(BusError::OutOfRange));
    assert_eq!(mem.read(1), 0);
    assert_eq!(mem.load(0, &bytes), Ok(()));
    assert_eq!(mem.read(1), 7);
}

#[test]
fn nes_bus_load_wraps_into_ram_mirror() {
    let mut bus = NesBus::new(rom_with(vec![0; 0x8000], 0)).unwrap();
    assert_eq!(bus.load(0x07FF, &[1, 2]), Ok(()));
    assert_eq!(bus.read(0x07FF), 1);
    assert_eq!(bus.read(0x0800), 2);
    assert_eq!(bus.read(0x0000), 2);
}

#[test]
fn nes_bus_rejects_other_mappers() {
    let r = NesBus::new(rom_with(vec![0; 0x4000], 1));
    assert!(matches!(r, Err(BusError::UnsupportedMapper { mapper: 1 })));
}

#[test]
fn nes_bus_ignores_writes_to_unmapped_area() {
    let mut bus = NesBus::new(rom_with(vec![0; 0x4000], 0)).unwrap();
    bus.write(0x5000, 0x77);
    assert_eq!(bus.read(0x5000), 0);
    assert_eq!(bus.read(0x0000), 0);
}

#[test]
fn nes_bus_reads_word_from_prg_rom() {
    let mut prg = vec![0; 0x4000];
    prg[0x3FFC] = 0x00;
    prg[0x3FFD] = 0x80;
    let bus = NesBus::new(rom_with(prg, 0)).unwrap();
    assert_eq!(bus.read_u16(0xFFFC), 0x8000);
    assert_eq!(bus.read_u16(0xBFFC), 0x8000);
}
