use lib::cpu::bus::{Bus, BusError, FlatMemory};
use lib::cpu::status::Status;
use lib::cpu::{Cpu, CpuError, RunStats, StepOutcome};

#[test]
fn run_counts_instructions_and_cycles() {
    let mut cpu = Cpu::with_flat_memory();
    let stats = cpu.load_and_run(&[0xA9, 0x05, 0x00]).unwrap();
    assert_eq!(stats, RunStats { instructions: 2, cycles: 9 });
}

#[test]
fn sta_writes_accumulator() {
    let mut cpu = Cpu::with_flat_memory();
    let stats = cpu.load_and_run(&[0xA9, 0x42, 0x85, 0x10, 0x00]).unwrap();
    assert_eq!(stats, RunStats { instructions: 3, cycles: 12 });
    let bus = cpu.into_bus();
    assert_eq!(bus.read(0x0010), 0x42);
}

#[test]
fn lda_absolute_x_page_cross_costs_a_cycle() {
    let mut cpu = Cpu::with_flat_memory();
    cpu.bus_mut().write(0x81EF, 0x80);
    let stats = cpu
        .load_and_run(&[
            0xA9, 0xFF, // LDA #$FF
            0xAA, // TAX
            0xBD, 0xF0, 0x80, // LDA $80F0,X -> $81EF
            0x00, // BRK
        ])
        .unwrap();
    assert_eq!(cpu.a(), 0x80);
    assert!(cpu.status().contains(Status::NEGATIVE));
    assert!(!cpu.status().contains(Status::ZERO));
    assert_eq!(stats.cycles, 2 + 2 + 5 + 7);
}

#[test]
fn lda_indirect_y_reads_through_zero_page_pointer() {
    let mut cpu = Cpu::with_flat_memory();
    cpu.bus_mut().write_u16(0x0020, 0x1234);
    cpu.bus_mut().write(0x1234, 0x99);
    let stats = cpu
        .load_and_run(&[
            0xB1, 0x20, // LDA ($20),Y with Y = 0
            0x00,
        ])
        .unwrap();
    assert_eq!(cpu.a(), 0x99);
    assert_eq!(stats, RunStats { instructions: 2, cycles: 12 });
}

#[test]
fn inx_wraps_to_zero_and_sets_zero_flag() {
    let mut cpu = Cpu::with_flat_memory();
    cpu.load_and_run(&[0xA9, 0xFF, 0xAA, 0xE8, 0x00]).unwrap();
    assert_eq!(cpu.x(), 0);
    assert!(cpu.status().contains(Status::ZERO));
    assert_eq!(cpu.y(), 0);
}

#[test]
fn unsupported_instruction_is_unknown_opcode() {
    let mut cpu = Cpu::with_flat_memory();
    let r = cpu.load_and_run(&[0xA9, 0x01, 0xEA, 0x00]);
    assert_eq!(r, Err(CpuError::UnknownOpcode { opcode: 0xEA, address: 0x8002 }));
}

#[test]
fn illegal_opcode_is_reported() {
    let mut cpu = Cpu::with_flat_memory();
    let r = cpu.load_and_run(&[0x02]);
    assert_eq!(r, Err(CpuError::UnknownOpcode { opcode: 0x02, address: 0x8000 }));
}

#[test]
fn load_rejects_large_program() {
    let mut cpu = Cpu::with_flat_memory();
    let program = vec![0xEA; 0x7FFD];
    assert_eq!(
        cpu.load(&program),
        Err(CpuError::ProgramTooLarge { len: 0x7FFD, max: 0x7FFC })
    );
    assert_eq!(cpu.load(&program[..0x7FFC]), Ok(()));
}

#[test]
fn load_sets_reset_vector() {
    let mut cpu = Cpu::with_flat_memory();
    cpu.load(&[0xA9, 0x07, 0x00]).unwrap();
    let bus = cpu.into_bus();
    assert_eq!(bus.read_u16(0xFFFC), 0x8000);
    assert_eq!(bus.read(0x8000), 0xA9);
    assert_eq!(bus.read(0x8001), 0x07);
}

#[test]
fn reset_then_step() {
    let mut cpu = Cpu::with_flat_memory();
    cpu.bus_mut().write_u16(0xFFFC, 0x0300);
    cpu.bus_mut().write(0x0300, 0xA9);
    cpu.bus_mut().write(0x0301, 0x00);
    cpu.reset();
    assert_eq!(cpu.step(), Ok(StepOutcome::Executed { cycles: 2 }));
    assert!(cpu.status().contains(Status::ZERO));
    assert_eq!(cpu.step(), Ok(StepOutcome::Halted { cycles: 7 }));
}

#[test]
fn new_cpu_has_reset_status() {
    let cpu = Cpu::new(FlatMemory::new());
    assert_eq!(cpu.status().bits(), 0x24);
    assert!(cpu.status().contains(Status::INTERRUPT_DISABLE));
    assert!(cpu.status().contains(Status::UNUSED));
    assert!(!cpu.status().contains(Status::CARRY));
    assert_eq!((cpu.a(), cpu.x(), cpu.y()), (0, 0, 0));
}

#[test]
fn run_from_zeroed_memory_halts_at_once() {
    let mut cpu = Cpu::with_flat_memory();
    assert_eq!(cpu.run(), Ok(RunStats { instructions: 1, cycles: 7 }));
}

#[test]
fn bus_error_converts_to_cpu_error() {
    assert_eq!(CpuError::from(BusError::OutOfRange), CpuError::Bus(BusError::OutOfRange));
}

#[test]
fn run_halting_after_n_steps_counts_exactly_those_steps() {
    let mut cpu = Cpu::with_flat_memory();
    let stats = cpu
        .load_and_run(&[
            0xA9, 0x05, // LDA #$05 (2 cycles)
            0xAA, // TAX (2 cycles)
            0xE8, // INX (2 cycles)
            0x00, // BRK (7 cycles)
            0xE8, // never executed
        ])
        .unwrap();
    assert_eq!(stats, RunStats { instructions: 4, cycles: 13 });
    assert_eq!(cpu.x(), 6);
}
