use lib::cartridge::{Mirroring, Rom};
use lib::cpu::bus::{Bus, NesBus};

fn test_rom(prg_rom: Vec<u8>) -> Rom {
    Rom {
        prg_rom,
        chr_rom: vec![0; 0x2000],
        mapper: 0,
        screen_mirroring: Mirroring::Horizontal,
    }
}

#[test]
fn cpu_ram_is_mirrored() {
    let rom = test_rom(vec![0; 0x8000]);
    let mut bus = NesBus::new(rom).unwrap();

    bus.write(0x0005, 0x42);

    assert_eq!(bus.read(0x0005), 0x42);
    assert_eq!(bus.read(0x0805), 0x42);
    assert_eq!(bus.read(0x1005), 0x42);
    assert_eq!(bus.read(0x1805), 0x42);
}

#[test]
fn writing_to_mirror_updates_base_ram() {
    let rom = test_rom(vec![0; 0x8000]);
    let mut bus = NesBus::new(rom).unwrap();

    bus.write(0x1805, 0x69);

    assert_eq!(bus.read(0x0005), 0x69);
}

#[test]
fn mirrors_16kb_prg_rom() {
    let mut prg_rom = vec![0; 0x4000];
    prg_rom[0x0123] = 0x42;

    let rom = test_rom(prg_rom);
    let bus = NesBus::new(rom).unwrap();

    assert_eq!(bus.read(0x8123), 0x42);
    assert_eq!(bus.read(0xC123), 0x42);
}

#[test]
fn does_not_mirror_32kb_prg_rom() {
    let mut prg_rom = vec![0; 0x8000];
    prg_rom[0x0000] = 0x11;
    prg_rom[0x4000] = 0x22;

    let rom = test_rom(prg_rom);
    let bus = NesBus::new(rom).unwrap();

    assert_eq!(bus.read(0x8000), 0x11);
    assert_eq!(bus.read(0xC000), 0x22);
}
