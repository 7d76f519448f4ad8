use lib::cpu::status::Status;
use lib::cpu::Cpu;

#[test]
fn test_0xa9_lda_immediate_load_data() {
    let mut cpu = Cpu::with_flat_memory();

    cpu.load_and_run(&[0xA9, 0x05, 0x00]).unwrap();

    assert_eq!(cpu.a(), 0x05);
    assert!(!cpu.status().contains(Status::ZERO));
    assert!(!cpu.status().contains(Status::NEGATIVE));
}

#[test]
fn test_0xa9_lda_zero_flags() {
    let mut cpu = Cpu::with_flat_memory();

    cpu.load_and_run(&[0xA9, 0x00, 0x00]).unwrap();

    assert!(cpu.status().contains(Status::ZERO));
}

#[test]
fn test_0xaa_tax_move_a_to_x() {
    let mut cpu = Cpu::with_flat_memory();

    cpu.load_and_run(&[
        0xA9, 0x0A, // LDA #$0A
        0xAA, // TAX
        0x00, // BRK
    ])
    .unwrap();

    assert_eq!(cpu.x(), 0x0A);
}

#[test]
fn test_inx_overflow() {
    let mut cpu = Cpu::with_flat_memory();

    cpu.load_and_run(&[
        0xA9, 0xFF, // LDA #$FF
        0xAA, // TAX -> X = $FF
        0xE8, // INX -> $00
        0xE8, // INX -> $01
        0x00, // BRK
    ])
    .unwrap();

    assert_eq!(cpu.x(), 0x01);
}

#[test]
fn test_5_ops_working_together() {
    let mut cpu = Cpu::with_flat_memory();

    cpu.load_and_run(&[
        0xA9, 0xC0, // LDA #$C0
        0xAA, // TAX -> X = $C0
        0xE8, // INX -> X = $C1
        0x00, // BRK
    ])
    .unwrap();

    assert_eq!(cpu.x(), 0xC1);
}
