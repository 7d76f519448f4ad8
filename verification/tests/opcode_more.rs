use lib::cpu::opcode::{build_table, decode, AddressingMode, Instruction, Opcode};

#[test]
fn decode_known_opcodes() {
    assert_eq!(
        decode(0xA9),
        Opcode { instruction: Instruction::Lda, mode: AddressingMode::Immediate, len: 2, cycles: 2 }
    );
    assert_eq!(
        decode(0x91),
        Opcode { instruction: Instruction::Sta, mode: AddressingMode::IndirectY, len: 2, cycles: 6 }
    );
    assert_eq!(
        decode(0x6C),
        Opcode { instruction: Instruction::Jmp, mode: AddressingMode::Implied, len: 3, cycles: 5 }
    );
}

#[test]
fn decode_illegal_opcode() {
    assert_eq!(
        decode(0x02),
        Opcode { instruction: Instruction::Illegal, mode: AddressingMode::Implied, len: 1, cycles: 0 }
    );
}

#[test]
fn table_agrees_with_decode() {
    let table = build_table();
    assert_eq!(table.len(), 256);
    for code in 0..=255u8 {
        assert_eq!(table[usize::from(code)], decode(code));
    }
}

#[test]
fn mnemonics() {
    assert_eq!(Instruction::Lda.mnemonic(), "LDA");
    assert_eq!(Instruction::Plp.mnemonic(), "PLP");
    assert_eq!(Instruction::Illegal.mnemonic(), "???");
}

#[test]
fn mnemonics_are_distinct_upper_case_words() {
    let mut instructions: Vec<Instruction> = build_table().iter().map(|op| op.instruction).collect();
    instructions.dedup();
    let mut seen: Vec<(Instruction, &str)> = Vec::new();
    for i in instructions {
        if seen.iter().any(|(j, _)| *j == i) {
            continue;
        }
        let m = i.mnemonic();
        assert_eq!(m.len(), 3);
        if i != Instruction::Illegal {
            assert!(m.chars().all(|c| c.is_ascii_uppercase()));
        }
        assert!(seen.iter().all(|(_, n)| *n != m));
        seen.push((i, m));
    }
    assert_eq!(seen.len(), 57);
}
