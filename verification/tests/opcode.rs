use lib::cpu::opcode::{build_table, Instruction};

#[test]
fn contains_all_official_opcodes() {
    let count = build_table()
        .iter()
        .filter(|opcode| opcode.instruction != Instruction::Illegal)
        .count();

    assert_eq!(count, 151);
}
