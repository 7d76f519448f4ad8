use vstd::prelude::*;

verus! {

/// The 6502 instructions, with `Illegal` standing for every unofficial opcode.
#[derive(Debug, Clone, Copy, PartialEq, Eq, Structural)]
pub enum Instruction {
    Illegal,
    Brk,
    Nop,
    Adc,
    Sbc,
    And,
    Eor,
    Ora,
    Asl,
    Lsr,
    Rol,
    Ror,
    Inc,
    Inx,
    Iny,
    Dec,
    Dex,
    Dey,
    Cmp,
    Cpy,
    Cpx,
    Jmp,
    Jsr,
    Rts,
    Rti,
    Bne,
    Bvs,
    Bvc,
    Bmi,
    Beq,
    Bcs,
    Bcc,
    Bpl,
    Bit,
    Lda,
    Ldx,
    Ldy,
    Sta,
    Stx,
    Sty,
    Cld,
    Cli,
    Clv,
    Clc,
    Sec,
    Sei,
    Sed,
    Tax,
    Tay,
    Tsx,
    Txa,
    Txs,
    Tya,
    Pha,
    Pla,
    Php,
    Plp,
}

/// The assembler mnemonic of each instruction.
pub open spec fn mnemonic_spec(instruction: Instruction) -> Seq<char> {
    match instruction {
        Instruction::Illegal => "???"@,
        Instruction::Brk => "BRK"@,
        Instruction::Nop => "NOP"@,
        Instruction::Adc => "ADC"@,
        Instruction::Sbc => "SBC"@,
        Instruction::And => "AND"@,
        Instruction::Eor => "EOR"@,
        Instruction::Ora => "ORA"@,
        Instruction::Asl => "ASL"@,
        Instruction::Lsr => "LSR"@,
        Instruction::Rol => "ROL"@,
        Instruction::Ror => "ROR"@,
        Instruction::Inc => "INC"@,
        Instruction::Inx => "INX"@,
        Instruction::Iny => "INY"@,
        Instruction::Dec => "DEC"@,
        Instruction::Dex => "DEX"@,
        Instruction::Dey => "DEY"@,
        Instruction::Cmp => "CMP"@,
        Instruction::Cpy => "CPY"@,
        Instruction::Cpx => "CPX"@,
        Instruction::Jmp => "JMP"@,
        Instruction::Jsr => "JSR"@,
        Instruction::Rts => "RTS"@,
        Instruction::Rti => "RTI"@,
        Instruction::Bne => "BNE"@,
        Instruction::Bvs => "BVS"@,
        Instruction::Bvc => "BVC"@,
        Instruction::Bmi => "BMI"@,
        Instruction::Beq => "BEQ"@,
        Instruction::Bcs => "BCS"@,
        Instruction::Bcc => "BCC"@,
        Instruction::Bpl => "BPL"@,
        Instruction::Bit => "BIT"@,
        Instruction::Lda => "LDA"@,
        Instruction::Ldx => "LDX"@,
        Instruction::Ldy => "LDY"@,
        Instruction::Sta => "STA"@,
        Instruction::Stx => "STX"@,
        Instruction::Sty => "STY"@,
        Instruction::Cld => "CLD"@,
        Instruction::Cli => "CLI"@,
        Instruction::Clv => "CLV"@,
        Instruction::Clc => "CLC"@,
        Instruction::Sec => "SEC"@,
        Instruction::Sei => "SEI"@,
        Instruction::Sed => "SED"@,
        Instruction::Tax => "TAX"@,
        Instruction::Tay => "TAY"@,
        Instruction::Tsx => "TSX"@,
        Instruction::Txa => "TXA"@,
        Instruction::Txs => "TXS"@,
        Instruction::Tya => "TYA"@,
        Instruction::Pha => "PHA"@,
        Instruction::Pla => "PLA"@,
        Instruction::Php => "PHP"@,
        Instruction::Plp => "PLP"@,
    }
}

/// Whether `c` is an upper-case ASCII letter.
pub open spec fn is_upper_letter(c: char) -> bool {
    'A' <= c <= 'Z'
}

/// The three characters of a mnemonic packed into one number.
spec fn mnemonic_key(s: Seq<char>) -> int {
    (s[0] as int) * 0x10000 + (s[1] as int) * 0x100 + (s[2] as int)
}

/// The packed mnemonic of each instruction.
spec fn key_of(instruction: Instruction) -> int {
    match instruction {
        Instruction::Illegal => 0x3F3F3F,   // ???
        Instruction::Brk => 0x42524B,   // BRK
        Instruction::Nop => 0x4E4F50,   // NOP
        Instruction::Adc => 0x414443,   // ADC
        Instruction::Sbc => 0x534243,   // SBC
        Instruction::And => 0x414E44,   // AND
        Instruction::Eor => 0x454F52,   // EOR
        Instruction::Ora => 0x4F5241,   // ORA
        Instruction::Asl => 0x41534C,   // ASL
        Instruction::Lsr => 0x4C5352,   // LSR
        Instruction::Rol => 0x524F4C,   // ROL
        Instruction::Ror => 0x524F52,   // ROR
        Instruction::Inc => 0x494E43,   // INC
        Instruction::Inx => 0x494E58,   // INX
        Instruction::Iny => 0x494E59,   // INY
        Instruction::Dec => 0x444543,   // DEC
        Instruction::Dex => 0x444558,   // DEX
        Instruction::Dey => 0x444559,   // DEY
        Instruction::Cmp => 0x434D50,   // CMP
        Instruction::Cpy => 0x435059,   // CPY
        Instruction::Cpx => 0x435058,   // CPX
        Instruction::Jmp => 0x4A4D50,   // JMP
        Instruction::Jsr => 0x4A5352,   // JSR
        Instruction::Rts => 0x525453,   // RTS
        Instruction::Rti => 0x525449,   // RTI
        Instruction::Bne => 0x424E45,   // BNE
        Instruction::Bvs => 0x425653,   // BVS
        Instruction::Bvc => 0x425643,   // BVC
        Instruction::Bmi => 0x424D49,   // BMI
        Instruction::Beq => 0x424551,   // BEQ
        Instruction::Bcs => 0x424353,   // BCS
        Instruction::Bcc => 0x424343,   // BCC
        Instruction::Bpl => 0x42504C,   // BPL
        Instruction::Bit => 0x424954,   // BIT
        Instruction::Lda => 0x4C4441,   // LDA
        Instruction::Ldx => 0x4C4458,   // LDX
        Instruction::Ldy => 0x4C4459,   // LDY
        Instruction::Sta => 0x535441,   // STA
        Instruction::Stx => 0x535458,   // STX
        Instruction::Sty => 0x535459,   // STY
        Instruction::Cld => 0x434C44,   // CLD
        Instruction::Cli => 0x434C49,   // CLI
        Instruction::Clv => 0x434C56,   // CLV
        Instruction::Clc => 0x434C43,   // CLC
        Instruction::Sec => 0x534543,   // SEC
        Instruction::Sei => 0x534549,   // SEI
        Instruction::Sed => 0x534544,   // SED
        Instruction::Tax => 0x544158,   // TAX
        Instruction::Tay => 0x544159,   // TAY
        Instruction::Tsx => 0x545358,   // TSX
        Instruction::Txa => 0x545841,   // TXA
        Instruction::Txs => 0x545853,   // TXS
        Instruction::Tya => 0x545941,   // TYA
        Instruction::Pha => 0x504841,   // PHA
        Instruction::Pla => 0x504C41,   // PLA
        Instruction::Php => 0x504850,   // PHP
        Instruction::Plp => 0x504C50,   // PLP
    }
}

/// The instruction whose packed mnemonic is `key`.
spec fn instruction_of_key(key: int) -> Instruction {
    if key == 0x42524B {
        Instruction::Brk
    } else if key == 0x4E4F50 {
        Instruction::Nop
    } else if key == 0x414443 {
        Instruction::Adc
    } else if key == 0x534243 {
        Instruction::Sbc
    } else if key == 0x414E44 {
        Instruction::And
    } else if key == 0x454F52 {
        Instruction::Eor
    } else if key == 0x4F5241 {
        Instruction::Ora
    } else if key == 0x41534C {
        Instruction::Asl
    } else if key == 0x4C5352 {
        Instruction::Lsr
    } else if key == 0x524F4C {
        Instruction::Rol
    } else if key == 0x524F52 {
        Instruction::Ror
    } else if key == 0x494E43 {
        Instruction::Inc
    } else if key == 0x494E58 {
        Instruction::Inx
    } else if key == 0x494E59 {
        Instruction::Iny
    } else if key == 0x444543 {
        Instruction::Dec
    } else if key == 0x444558 {
        Instruction::Dex
    } else if key == 0x444559 {
        Instruction::Dey
    } else if key == 0x434D50 {
        Instruction::Cmp
    } else if key == 0x435059 {
        Instruction::Cpy
    } else if key == 0x435058 {
        Instruction::Cpx
    } else if key == 0x4A4D50 {
        Instruction::Jmp
    } else if key == 0x4A5352 {
        Instruction::Jsr
    } else if key == 0x525453 {
        Instruction::Rts
    } else if key == 0x525449 {
        Instruction::Rti
    } else if key == 0x424E45 {
        Instruction::Bne
    } else if key == 0x425653 {
        Instruction::Bvs
    } else if key == 0x425643 {
        Instruction::Bvc
    } else if key == 0x424D49 {
        Instruction::Bmi
    } else if key == 0x424551 {
        Instruction::Beq
    } else if key == 0x424353 {
        Instruction::Bcs
    } else if key == 0x424343 {
        Instruction::Bcc
    } else if key == 0x42504C {
        Instruction::Bpl
    } else if key == 0x424954 {
        Instruction::Bit
    } else if key == 0x4C4441 {
        Instruction::Lda
    } else if key == 0x4C4458 {
        Instruction::Ldx
    } else if key == 0x4C4459 {
        Instruction::Ldy
    } else if key == 0x535441 {
        Instruction::Sta
    } else if key == 0x535458 {
        Instruction::Stx
    } else if key == 0x535459 {
        Instruction::Sty
    } else if key == 0x434C44 {
        Instruction::Cld
    } else if key == 0x434C49 {
        Instruction::Cli
    } else if key == 0x434C56 {
        Instruction::Clv
    } else if key == 0x434C43 {
        Instruction::Clc
    } else if key == 0x534543 {
        Instruction::Sec
    } else if key == 0x534549 {
        Instruction::Sei
    } else if key == 0x534544 {
        Instruction::Sed
    } else if key == 0x544158 {
        Instruction::Tax
    } else if key == 0x544159 {
        Instruction::Tay
    } else if key == 0x545358 {
        Instruction::Tsx
    } else if key == 0x545841 {
        Instruction::Txa
    } else if key == 0x545853 {
        Instruction::Txs
    } else if key == 0x545941 {
        Instruction::Tya
    } else if key == 0x504841 {
        Instruction::Pha
    } else if key == 0x504C41 {
        Instruction::Pla
    } else if key == 0x504850 {
        Instruction::Php
    } else if key == 0x504C50 {
        Instruction::Plp
    } else {
        Instruction::Illegal
    }
}

proof fn lemma_mnemonic_key(i: Instruction)
    ensures
        mnemonic_spec(i).len() == 3,
        mnemonic_key(mnemonic_spec(i)) == key_of(i),
        instruction_of_key(key_of(i)) == i,
        i != Instruction::Illegal ==> is_upper_letter(mnemonic_spec(i)[0])
            && is_upper_letter(mnemonic_spec(i)[1]) && is_upper_letter(mnemonic_spec(i)[2]),
{
    match i {
        Instruction::Illegal => {
            reveal_strlit("???");
        },
        Instruction::Brk => {
            reveal_strlit("BRK");
        },
        Instruction::Nop => {
            reveal_strlit("NOP");
        },
        Instruction::Adc => {
            reveal_strlit("ADC");
        },
        Instruction::Sbc => {
            reveal_strlit("SBC");
        },
        Instruction::And => {
            reveal_strlit("AND");
        },
        Instruction::Eor => {
            reveal_strlit("EOR");
        },
        Instruction::Ora => {
            reveal_strlit("ORA");
        },
        Instruction::Asl => {
            reveal_strlit("ASL");
        },
        Instruction::Lsr => {
            reveal_strlit("LSR");
        },
        Instruction::Rol => {
            reveal_strlit("ROL");
        },
        Instruction::Ror => {
            reveal_strlit("ROR");
        },
        Instruction::Inc => {
            reveal_strlit("INC");
        },
        Instruction::Inx => {
            reveal_strlit("INX");
        },
        Instruction::Iny => {
            reveal_strlit("INY");
        },
        Instruction::Dec => {
            reveal_strlit("DEC");
        },
        Instruction::Dex => {
            reveal_strlit("DEX");
        },
        Instruction::Dey => {
            reveal_strlit("DEY");
        },
        Instruction::Cmp => {
            reveal_strlit("CMP");
        },
        Instruction::Cpy => {
            reveal_strlit("CPY");
        },
        Instruction::Cpx => {
            reveal_strlit("CPX");
        },
        Instruction::Jmp => {
            reveal_strlit("JMP");
        },
        Instruction::Jsr => {
            reveal_strlit("JSR");
        },
        Instruction::Rts => {
            reveal_strlit("RTS");
        },
        Instruction::Rti => {
            reveal_strlit("RTI");
        },
        Instruction::Bne => {
            reveal_strlit("BNE");
        },
        Instruction::Bvs => {
            reveal_strlit("BVS");
        },
        Instruction::Bvc => {
            reveal_strlit("BVC");
        },
        Instruction::Bmi => {
            reveal_strlit("BMI");
        },
        Instruction::Beq => {
            reveal_strlit("BEQ");
        },
        Instruction::Bcs => {
            reveal_strlit("BCS");
        },
        Instruction::Bcc => {
            reveal_strlit("BCC");
        },
        Instruction::Bpl => {
            reveal_strlit("BPL");
        },
        Instruction::Bit => {
            reveal_strlit("BIT");
        },
        Instruction::Lda => {
            reveal_strlit("LDA");
        },
        Instruction::Ldx => {
            reveal_strlit("LDX");
        },
        Instruction::Ldy => {
            reveal_strlit("LDY");
        },
        Instruction::Sta => {
            reveal_strlit("STA");
        },
        Instruction::Stx => {
            reveal_strlit("STX");
        },
        Instruction::Sty => {
            reveal_strlit("STY");
        },
        Instruction::Cld => {
            reveal_strlit("CLD");
        },
        Instruction::Cli => {
            reveal_strlit("CLI");
        },
        Instruction::Clv => {
            reveal_strlit("CLV");
        },
        Instruction::Clc => {
            reveal_strlit("CLC");
        },
        Instruction::Sec => {
            reveal_strlit("SEC");
        },
        Instruction::Sei => {
            reveal_strlit("SEI");
        },
        Instruction::Sed => {
            reveal_strlit("SED");
        },
        Instruction::Tax => {
            reveal_strlit("TAX");
        },
        Instruction::Tay => {
            reveal_strlit("TAY");
        },
        Instruction::Tsx => {
            reveal_strlit("TSX");
        },
        Instruction::Txa => {
            reveal_strlit("TXA");
        },
        Instruction::Txs => {
            reveal_strlit("TXS");
        },
        Instruction::Tya => {
            reveal_strlit("TYA");
        },
        Instruction::Pha => {
            reveal_strlit("PHA");
        },
        Instruction::Pla => {
            reveal_strlit("PLA");
        },
        Instruction::Php => {
            reveal_strlit("PHP");
        },
        Instruction::Plp => {
            reveal_strlit("PLP");
        },
    }
}

/// Every mnemonic is three characters long: three upper-case letters for
/// every instruction but `Illegal`, whose mnemonic is `"???"`; no two
/// instructions share a mnemonic.
pub proof fn lemma_mnemonics_distinct(i: Instruction, j: Instruction)
    ensures
        mnemonic_spec(i).len() == 3,
        i != Instruction::Illegal ==> is_upper_letter(mnemonic_spec(i)[0])
            && is_upper_letter(mnemonic_spec(i)[1]) && is_upper_letter(mnemonic_spec(i)[2]),
        i == Instruction::Illegal ==> mnemonic_spec(i) == "???"@,
        i != j ==> mnemonic_spec(i) != mnemonic_spec(j),
{
    lemma_mnemonic_key(i);
    lemma_mnemonic_key(j);
}

impl Instruction {
    /// The three-letter assembler mnemonic (`"???"` for an illegal opcode).
    #[must_use]
    pub fn mnemonic(self) -> (r: &'static str)
        ensures
            r@ == mnemonic_spec(self),
    {
        match self {
            Self::Illegal => "???",
            Self::Brk => "BRK",
            Self::Nop => "NOP",
            Self::Adc => "ADC",
            Self::Sbc => "SBC",
            Self::And => "AND",
            Self::Eor => "EOR",
            Self::Ora => "ORA",
            Self::Asl => "ASL",
            Self::Lsr => "LSR",
            Self::Rol => "ROL",
            Self::Ror => "ROR",
            Self::Inc => "INC",
            Self::Inx => "INX",
            Self::Iny => "INY",
            Self::Dec => "DEC",
            Self::Dex => "DEX",
            Self::Dey => "DEY",
            Self::Cmp => "CMP",
            Self::Cpy => "CPY",
            Self::Cpx => "CPX",
            Self::Jmp => "JMP",
            Self::Jsr => "JSR",
            Self::Rts => "RTS",
            Self::Rti => "RTI",
            Self::Bne => "BNE",
            Self::Bvs => "BVS",
            Self::Bvc => "BVC",
            Self::Bmi => "BMI",
            Self::Beq => "BEQ",
            Self::Bcs => "BCS",
            Self::Bcc => "BCC",
            Self::Bpl => "BPL",
            Self::Bit => "BIT",
            Self::Lda => "LDA",
            Self::Ldx => "LDX",
            Self::Ldy => "LDY",
            Self::Sta => "STA",
            Self::Stx => "STX",
            Self::Sty => "STY",
            Self::Cld => "CLD",
            Self::Cli => "CLI",
            Self::Clv => "CLV",
            Self::Clc => "CLC",
            Self::Sec => "SEC",
            Self::Sei => "SEI",
            Self::Sed => "SED",
            Self::Tax => "TAX",
            Self::Tay => "TAY",
            Self::Tsx => "TSX",
            Self::Txa => "TXA",
            Self::Txs => "TXS",
            Self::Tya => "TYA",
            Self::Pha => "PHA",
            Self::Pla => "PLA",
            Self::Php => "PHP",
            Self::Plp => "PLP",
        }
    }
}

/// How an instruction finds its operand.
#[derive(Debug, Clone, Copy, PartialEq, Eq, Structural)]
pub enum AddressingMode {
    Implied,
    Immediate,
    ZeroPage,
    ZeroPageX,
    ZeroPageY,
    Absolute,
    AbsoluteX,
    AbsoluteY,
    IndirectX,
    IndirectY,
}

/// One entry of the opcode table: the instruction, its addressing mode, its
/// length in bytes (opcode included) and its base cycle count.
#[derive(Debug, Clone, Copy, PartialEq, Eq, Structural)]
pub struct Opcode {
    pub instruction: Instruction,
    pub mode: AddressingMode,
    pub len: u8,
    pub cycles: u8,
}

/// The entry of an opcode that is not an official 6502 instruction.
pub open spec fn illegal_opcode() -> Opcode {
    Opcode { instruction: Instruction::Illegal, mode: AddressingMode::Implied, len: 1, cycles: 0 }
}

/// The official 6502 opcode table: what each of the 256 opcode bytes means.
pub open spec fn opcode_spec(code: u8) -> Opcode {
    match code {
        0x00u8 => Opcode { instruction: Instruction::Brk, mode: AddressingMode::Implied, len: 1, cycles: 7 },
        0x01u8 => Opcode { instruction: Instruction::Ora, mode: AddressingMode::IndirectX, len: 2, cycles: 6 },
        0x05u8 => Opcode { instruction: Instruction::Ora, mode: AddressingMode::ZeroPage, len: 2, cycles: 3 },
        0x06u8 => Opcode { instruction: Instruction::Asl, mode: AddressingMode::ZeroPage, len: 2, cycles: 5 },
        0x08u8 => Opcode { instruction: Instruction::Php, mode: AddressingMode::Implied, len: 1, cycles: 3 },
        0x09u8 => Opcode { instruction: Instruction::Ora, mode: AddressingMode::Immediate, len: 2, cycles: 2 },
        0x0Au8 => Opcode { instruction: Instruction::Asl, mode: AddressingMode::Implied, len: 1, cycles: 2 },
        0x0Du8 => Opcode { instruction: Instruction::Ora, mode: AddressingMode::Absolute, len: 3, cycles: 4 },
        0x0Eu8 => Opcode { instruction: Instruction::Asl, mode: AddressingMode::Absolute, len: 3, cycles: 6 },
        0x10u8 => Opcode { instruction: Instruction::Bpl, mode: AddressingMode::Implied, len: 2, cycles: 2 },
        0x11u8 => Opcode { instruction: Instruction::Ora, mode: AddressingMode::IndirectY, len: 2, cycles: 5 },
        0x15u8 => Opcode { instruction: Instruction::Ora, mode: AddressingMode::ZeroPageX, len: 2, cycles: 4 },
        0x16u8 => Opcode { instruction: Instruction::Asl, mode: AddressingMode::ZeroPageX, len: 2, cycles: 6 },
        0x18u8 => Opcode { instruction: Instruction::Clc, mode: AddressingMode::Implied, len: 1, cycles: 2 },
        0x19u8 => Opcode { instruction: Instruction::Ora, mode: AddressingMode::AbsoluteY, len: 3, cycles: 4 },
        0x1Du8 => Opcode { instruction: Instruction::Ora, mode: AddressingMode::AbsoluteX, len: 3, cycles: 4 },
        0x1Eu8 => Opcode { instruction: Instruction::Asl, mode: AddressingMode::AbsoluteX, len: 3, cycles: 7 },
        0x20u8 => Opcode { instruction: Instruction::Jsr, mode: AddressingMode::Absolute, len: 3, cycles: 6 },
        0x21u8 => Opcode { instruction: Instruction::And, mode: AddressingMode::IndirectX, len: 2, cycles: 6 },
        0x24u8 => Opcode { instruction: Instruction::Bit, mode: AddressingMode::ZeroPage, len: 2, cycles: 3 },
        0x25u8 => Opcode { instruction: Instruction::And, mode: AddressingMode::ZeroPage, len: 2, cycles: 3 },
        0x26u8 => Opcode { instruction: Instruction::Rol, mode: AddressingMode::ZeroPage, len: 2, cycles: 5 },
        0x28u8 => Opcode { instruction: Instruction::Plp, mode: AddressingMode::Implied, len: 1, cycles: 4 },
        0x29u8 => Opcode { instruction: Instruction::And, mode: AddressingMode::Immediate, len: 2, cycles: 2 },
        0x2Au8 => Opcode { instruction: Instruction::Rol, mode: AddressingMode::Implied, len: 1, cycles: 2 },
        0x2Cu8 => Opcode { instruction: Instruction::Bit, mode: AddressingMode::Absolute, len: 3, cycles: 4 },
        0x2Du8 => Opcode { instruction: Instruction::And, mode: AddressingMode::Absolute, len: 3, cycles: 4 },
        0x2Eu8 => Opcode { instruction: Instruction::Rol, mode: AddressingMode::Absolute, len: 3, cycles: 6 },
        0x30u8 => Opcode { instruction: Instruction::Bmi, mode: AddressingMode::Implied, len: 2, cycles: 2 },
        0x31u8 => Opcode { instruction: Instruction::And, mode: AddressingMode::IndirectY, len: 2, cycles: 5 },
        0x35u8 => Opcode { instruction: Instruction::And, mode: AddressingMode::ZeroPageX, len: 2, cycles: 4 },
        0x36u8 => Opcode { instruction: Instruction::Rol, mode: AddressingMode::ZeroPageX, len: 2, cycles: 6 },
        0x38u8 => Opcode { instruction: Instruction::Sec, mode: AddressingMode::Implied, len: 1, cycles: 2 },
        0x39u8 => Opcode { instruction: Instruction::And, mode: AddressingMode::AbsoluteY, len: 3, cycles: 4 },
        0x3Du8 => Opcode { instruction: Instruction::And, mode: AddressingMode::AbsoluteX, len: 3, cycles: 4 },
        0x3Eu8 => Opcode { instruction: Instruction::Rol, mode: AddressingMode::AbsoluteX, len: 3, cycles: 7 },
        0x40u8 => Opcode { instruction: Instruction::Rti, mode: AddressingMode::Implied, len: 1, cycles: 6 },
        0x41u8 => Opcode { instruction: Instruction::Eor, mode: AddressingMode::IndirectX, len: 2, cycles: 6 },
        0x45u8 => Opcode { instruction: Instruction::Eor, mode: AddressingMode::ZeroPage, len: 2, cycles: 3 },
        0x46u8 => Opcode { instruction: Instruction::Lsr, mode: AddressingMode::ZeroPage, len: 2, cycles: 5 },
        0x48u8 => Opcode { instruction: Instruction::Pha, mode: AddressingMode::Implied, len: 1, cycles: 3 },
        0x49u8 => Opcode { instruction: Instruction::Eor, mode: AddressingMode::Immediate, len: 2, cycles: 2 },
        0x4Au8 => Opcode { instruction: Instruction::Lsr, mode: AddressingMode::Implied, len: 1, cycles: 2 },
        0x4Cu8 => Opcode { instruction: Instruction::Jmp, mode: AddressingMode::Absolute, len: 3, cycles: 3 },
        0x4Du8 => Opcode { instruction: Instruction::Eor, mode: AddressingMode::Absolute, len: 3, cycles: 4 },
        0x4Eu8 => Opcode { instruction: Instruction::Lsr, mode: AddressingMode::Absolute, len: 3, cycles: 6 },
        0x50u8 => Opcode { instruction: Instruction::Bvc, mode: AddressingMode::Implied, len: 2, cycles: 2 },
        0x51u8 => Opcode { instruction: Instruction::Eor, mode: AddressingMode::IndirectY, len: 2, cycles: 5 },
        0x55u8 => Opcode { instruction: Instruction::Eor, mode: AddressingMode::ZeroPageX, len: 2, cycles: 4 },
        0x56u8 => Opcode { instruction: Instruction::Lsr, mode: AddressingMode::ZeroPageX, len: 2, cycles: 6 },
        0x58u8 => Opcode { instruction: Instruction::Cli, mode: AddressingMode::Implied, len: 1, cycles: 2 },
        0x59u8 => Opcode { instruction: Instruction::Eor, mode: AddressingMode::AbsoluteY, len: 3, cycles: 4 },
        0x5Du8 => Opcode { instruction: Instruction::Eor, mode: AddressingMode::AbsoluteX, len: 3, cycles: 4 },
        0x5Eu8 => Opcode { instruction: Instruction::Lsr, mode: AddressingMode::AbsoluteX, len: 3, cycles: 7 },
        0x60u8 => Opcode { instruction: Instruction::Rts, mode: AddressingMode::Implied, len: 1, cycles: 6 },
        0x61u8 => Opcode { instruction: Instruction::Adc, mode: AddressingMode::IndirectX, len: 2, cycles: 6 },
        0x65u8 => Opcode { instruction: Instruction::Adc, mode: AddressingMode::ZeroPage, len: 2, cycles: 3 },
        0x66u8 => Opcode { instruction: Instruction::Ror, mode: AddressingMode::ZeroPage, len: 2, cycles: 5 },
        0x68u8 => Opcode { instruction: Instruction::Pla, mode: AddressingMode::Implied, len: 1, cycles: 4 },
        0x69u8 => Opcode { instruction: Instruction::Adc, mode: AddressingMode::Immediate, len: 2, cycles: 2 },
        0x6Au8 => Opcode { instruction: Instruction::Ror, mode: AddressingMode::Implied, len: 1, cycles: 2 },
        0x6Cu8 => Opcode { instruction: Instruction::Jmp, mode: AddressingMode::Implied, len: 3, cycles: 5 },
        0x6Du8 => Opcode { instruction: Instruction::Adc, mode: AddressingMode::Absolute, len: 3, cycles: 4 },
        0x6Eu8 => Opcode { instruction: Instruction::Ror, mode: AddressingMode::Absolute, len: 3, cycles: 6 },
        0x70u8 => Opcode { instruction: Instruction::Bvs, mode: AddressingMode::Implied, len: 2, cycles: 2 },
        0x71u8 => Opcode { instruction: Instruction::Adc, mode: AddressingMode::IndirectY, len: 2, cycles: 5 },
        0x75u8 => Opcode { instruction: Instruction::Adc, mode: AddressingMode::ZeroPageX, len: 2, cycles: 4 },
        0x76u8 => Opcode { instruction: Instruction::Ror, mode: AddressingMode::ZeroPageX, len: 2, cycles: 6 },
        0x78u8 => Opcode { instruction: Instruction::Sei, mode: AddressingMode::Implied, len: 1, cycles: 2 },
        0x79u8 => Opcode { instruction: Instruction::Adc, mode: AddressingMode::AbsoluteY, len: 3, cycles: 4 },
        0x7Du8 => Opcode { instruction: Instruction::Adc, mode: AddressingMode::AbsoluteX, len: 3, cycles: 4 },
        0x7Eu8 => Opcode { instruction: Instruction::Ror, mode: AddressingMode::AbsoluteX, len: 3, cycles: 7 },
        0x81u8 => Opcode { instruction: Instruction::Sta, mode: AddressingMode::IndirectX, len: 2, cycles: 6 },
        0x84u8 => Opcode { instruction: Instruction::Sty, mode: AddressingMode::ZeroPage, len: 2, cycles: 3 },
        0x85u8 => Opcode { instruction: Instruction::Sta, mode: AddressingMode::ZeroPage, len: 2, cycles: 3 },
        0x86u8 => Opcode { instruction: Instruction::Stx, mode: AddressingMode::ZeroPage, len: 2, cycles: 3 },
        0x88u8 => Opcode { instruction: Instruction::Dey, mode: AddressingMode::Implied, len: 1, cycles: 2 },
        0x8Au8 => Opcode { instruction: Instruction::Txa, mode: AddressingMode::Implied, len: 1, cycles: 2 },
        0x8Cu8 => Opcode { instruction: Instruction::Sty, mode: AddressingMode::Absolute, len: 3, cycles: 4 },
        0x8Du8 => Opcode { instruction: Instruction::Sta, mode: AddressingMode::Absolute, len: 3, cycles: 4 },
        0x8Eu8 => Opcode { instruction: Instruction::Stx, mode: AddressingMode::Absolute, len: 3, cycles: 4 },
        0x90u8 => Opcode { instruction: Instruction::Bcc, mode: AddressingMode::Implied, len: 2, cycles: 2 },
        0x91u8 => Opcode { instruction: Instruction::Sta, mode: AddressingMode::IndirectY, len: 2, cycles: 6 },
        0x94u8 => Opcode { instruction: Instruction::Sty, mode: AddressingMode::ZeroPageX, len: 2, cycles: 4 },
        0x95u8 => Opcode { instruction: Instruction::Sta, mode: AddressingMode::ZeroPageX, len: 2, cycles: 4 },
        0x96u8 => Opcode { instruction: Instruction::Stx, mode: AddressingMode::ZeroPageY, len: 2, cycles: 4 },
        0x98u8 => Opcode { instruction: Instruction::Tya, mode: AddressingMode::Implied, len: 1, cycles: 2 },
        0x99u8 => Opcode { instruction: Instruction::Sta, mode: AddressingMode::AbsoluteY, len: 3, cycles: 5 },
        0x9Au8 => Opcode { instruction: Instruction::Txs, mode: AddressingMode::Implied, len: 1, cycles: 2 },
        0x9Du8 => Opcode { instruction: Instruction::Sta, mode: AddressingMode::AbsoluteX, len: 3, cycles: 5 },
        0xA0u8 => Opcode { instruction: Instruction::Ldy, mode: AddressingMode::Immediate, len: 2, cycles: 2 },
        0xA1u8 => Opcode { instruction: Instruction::Lda, mode: AddressingMode::IndirectX, len: 2, cycles: 6 },
        0xA2u8 => Opcode { instruction: Instruction::Ldx, mode: AddressingMode::Immediate, len: 2, cycles: 2 },
        0xA4u8 => Opcode { instruction: Instruction::Ldy, mode: AddressingMode::ZeroPage, len: 2, cycles: 3 },
        0xA5u8 => Opcode { instruction: Instruction::Lda, mode: AddressingMode::ZeroPage, len: 2, cycles: 3 },
        0xA6u8 => Opcode { instruction: Instruction::Ldx, mode: AddressingMode::ZeroPage, len: 2, cycles: 3 },
        0xA8u8 => Opcode { instruction: Instruction::Tay, mode: AddressingMode::Implied, len: 1, cycles: 2 },
        0xA9u8 => Opcode { instruction: Instruction::Lda, mode: AddressingMode::Immediate, len: 2, cycles: 2 },
        0xAAu8 => Opcode { instruction: Instruction::Tax, mode: AddressingMode::Implied, len: 1, cycles: 2 },
        0xACu8 => Opcode { instruction: Instruction::Ldy, mode: AddressingMode::Absolute, len: 3, cycles: 4 },
        0xADu8 => Opcode { instruction: Instruction::Lda, mode: AddressingMode::Absolute, len: 3, cycles: 4 },
        0xAEu8 => Opcode { instruction: Instruction::Ldx, mode: AddressingMode::Absolute, len: 3, cycles: 4 },
        0xB0u8 => Opcode { instruction: Instruction::Bcs, mode: AddressingMode::Implied, len: 2, cycles: 2 },
        0xB1u8 => Opcode { instruction: Instruction::Lda, mode: AddressingMode::IndirectY, len: 2, cycles: 5 },
        0xB4u8 => Opcode { instruction: Instruction::Ldy, mode: AddressingMode::ZeroPageX, len: 2, cycles: 4 },
        0xB5u8 => Opcode { instruction: Instruction::Lda, mode: AddressingMode::ZeroPageX, len: 2, cycles: 4 },
        0xB6u8 => Opcode { instruction: Instruction::Ldx, mode: AddressingMode::ZeroPageY, len: 2, cycles: 4 },
        0xB8u8 => Opcode { instruction: Instruction::Clv, mode: AddressingMode::Implied, len: 1, cycles: 2 },
        0xB9u8 => Opcode { instruction: Instruction::Lda, mode: AddressingMode::AbsoluteY, len: 3, cycles: 4 },
        0xBAu8 => Opcode { instruction: Instruction::Tsx, mode: AddressingMode::Implied, len: 1, cycles: 2 },
        0xBCu8 => Opcode { instruction: Instruction::Ldy, mode: AddressingMode::AbsoluteX, len: 3, cycles: 4 },
        0xBDu8 => Opcode { instruction: Instruction::Lda, mode: AddressingMode::AbsoluteX, len: 3, cycles: 4 },
        0xBEu8 => Opcode { instruction: Instruction::Ldx, mode: AddressingMode::AbsoluteY, len: 3, cycles: 4 },
        0xC0u8 => Opcode { instruction: Instruction::Cpy, mode: AddressingMode::Immediate, len: 2, cycles: 2 },
        0xC1u8 => Opcode { instruction: Instruction::Cmp, mode: AddressingMode::IndirectX, len: 2, cycles: 6 },
        0xC4u8 => Opcode { instruction: Instruction::Cpy, mode: AddressingMode::ZeroPage, len: 2, cycles: 3 },
        0xC5u8 => Opcode { instruction: Instruction::Cmp, mode: AddressingMode::ZeroPage, len: 2, cycles: 3 },
        0xC6u8 => Opcode { instruction: Instruction::Dec, mode: AddressingMode::ZeroPage, len: 2, cycles: 5 },
        0xC8u8 => Opcode { instruction: Instruction::Iny, mode: AddressingMode::Implied, len: 1, cycles: 2 },
        0xC9u8 => Opcode { instruction: Instruction::Cmp, mode: AddressingMode::Immediate, len: 2, cycles: 2 },
        0xCAu8 => Opcode { instruction: Instruction::Dex, mode: AddressingMode::Implied, len: 1, cycles: 2 },
        0xCCu8 => Opcode { instruction: Instruction::Cpy, mode: AddressingMode::Absolute, len: 3, cycles: 4 },
        0xCDu8 => Opcode { instruction: Instruction::Cmp, mode: AddressingMode::Absolute, len: 3, cycles: 4 },
        0xCEu8 => Opcode { instruction: Instruction::Dec, mode: AddressingMode::Absolute, len: 3, cycles: 6 },
        0xD0u8 => Opcode { instruction: Instruction::Bne, mode: AddressingMode::Implied, len: 2, cycles: 2 },
        0xD1u8 => Opcode { instruction: Instruction::Cmp, mode: AddressingMode::IndirectY, len: 2, cycles: 5 },
        0xD5u8 => Opcode { instruction: Instruction::Cmp, mode: AddressingMode::ZeroPageX, len: 2, cycles: 4 },
        0xD6u8 => Opcode { instruction: Instruction::Dec, mode: AddressingMode::ZeroPageX, len: 2, cycles: 6 },
        0xD8u8 => Opcode { instruction: Instruction::Cld, mode: AddressingMode::Implied, len: 1, cycles: 2 },
        0xD9u8 => Opcode { instruction: Instruction::Cmp, mode: AddressingMode::AbsoluteY, len: 3, cycles: 4 },
        0xDDu8 => Opcode { instruction: Instruction::Cmp, mode: AddressingMode::AbsoluteX, len: 3, cycles: 4 },
        0xDEu8 => Opcode { instruction: Instruction::Dec, mode: AddressingMode::AbsoluteX, len: 3, cycles: 7 },
        0xE0u8 => Opcode { instruction: Instruction::Cpx, mode: AddressingMode::Immediate, len: 2, cycles: 2 },
        0xE1u8 => Opcode { instruction: Instruction::Sbc, mode: AddressingMode::IndirectX, len: 2, cycles: 6 },
        0xE4u8 => Opcode { instruction: Instruction::Cpx, mode: AddressingMode::ZeroPage, len: 2, cycles: 3 },
        0xE5u8 => Opcode { instruction: Instruction::Sbc, mode: AddressingMode::ZeroPage, len: 2, cycles: 3 },
        0xE6u8 => Opcode { instruction: Instruction::Inc, mode: AddressingMode::ZeroPage, len: 2, cycles: 5 },
        0xE8u8 => Opcode { instruction: Instruction::Inx, mode: AddressingMode::Implied, len: 1, cycles: 2 },
        0xE9u8 => Opcode { instruction: Instruction::Sbc, mode: AddressingMode::Immediate, len: 2, cycles: 2 },
        0xEAu8 => Opcode { instruction: Instruction::Nop, mode: AddressingMode::Implied, len: 1, cycles: 2 },
        0xECu8 => Opcode { instruction: Instruction::Cpx, mode: AddressingMode::Absolute, len: 3, cycles: 4 },
        0xEDu8 => Opcode { instruction: Instruction::Sbc, mode: AddressingMode::Absolute, len: 3, cycles: 4 },
        0xEEu8 => Opcode { instruction: Instruction::Inc, mode: AddressingMode::Absolute, len: 3, cycles: 6 },
        0xF0u8 => Opcode { instruction: Instruction::Beq, mode: AddressingMode::Implied, len: 2, cycles: 2 },
        0xF1u8 => Opcode { instruction: Instruction::Sbc, mode: AddressingMode::IndirectY, len: 2, cycles: 5 },
        0xF5u8 => Opcode { instruction: Instruction::Sbc, mode: AddressingMode::ZeroPageX, len: 2, cycles: 4 },
        0xF6u8 => Opcode { instruction: Instruction::Inc, mode: AddressingMode::ZeroPageX, len: 2, cycles: 6 },
        0xF8u8 => Opcode { instruction: Instruction::Sed, mode: AddressingMode::Implied, len: 1, cycles: 2 },
        0xF9u8 => Opcode { instruction: Instruction::Sbc, mode: AddressingMode::AbsoluteY, len: 3, cycles: 4 },
        0xFDu8 => Opcode { instruction: Instruction::Sbc, mode: AddressingMode::AbsoluteX, len: 3, cycles: 4 },
        0xFEu8 => Opcode { instruction: Instruction::Inc, mode: AddressingMode::AbsoluteX, len: 3, cycles: 7 },
        _ => illegal_opcode(),
    }
}

/// The length of an instruction in `mode`: the opcode byte plus one operand
/// byte for immediate, zero-page and indirect operands, two for absolute ones.
pub open spec fn length_of_mode(mode: AddressingMode) -> u8 {
    match mode {
        AddressingMode::Implied => 1,
        AddressingMode::Absolute | AddressingMode::AbsoluteX | AddressingMode::AbsoluteY => 3,
        _ => 2,
    }
}

/// The operation of the opcodes `aaabbb01`, chosen by `aaa`.
pub open spec fn group_one_instruction(aaa: u8) -> Instruction {
    match aaa {
        0 => Instruction::Ora,
        1 => Instruction::And,
        2 => Instruction::Eor,
        3 => Instruction::Adc,
        4 => Instruction::Sta,
        5 => Instruction::Lda,
        6 => Instruction::Cmp,
        _ => Instruction::Sbc,
    }
}

/// The addressing mode of the opcodes `aaabbb01`, chosen by `bbb`.
pub open spec fn group_one_mode(bbb: u8) -> AddressingMode {
    match bbb {
        0 => AddressingMode::IndirectX,
        1 => AddressingMode::ZeroPage,
        2 => AddressingMode::Immediate,
        3 => AddressingMode::Absolute,
        4 => AddressingMode::IndirectY,
        5 => AddressingMode::ZeroPageX,
        6 => AddressingMode::AbsoluteY,
        _ => AddressingMode::AbsoluteX,
    }
}

/// The base cycles of a `aaabbb01` opcode: by mode, a store paying one more
/// in the modes where a load may pay one for a page crossing.
pub open spec fn group_one_cycles(instruction: Instruction, mode: AddressingMode) -> u8 {
    let store_extra: u8 = if instruction == Instruction::Sta { 1 } else { 0 };
    match mode {
        AddressingMode::IndirectX => 6,
        AddressingMode::ZeroPage => 3,
        AddressingMode::Immediate => 2,
        AddressingMode::Absolute => 4,
        AddressingMode::IndirectY => (5 + store_extra) as u8,
        AddressingMode::ZeroPageX => 4,
        _ => (4 + store_extra) as u8,
    }
}

/// The operation of the opcodes `aaabbb10` with a memory operand, chosen by
/// `aaa`.
pub open spec fn group_two_instruction(aaa: u8) -> Instruction {
    match aaa {
        0 => Instruction::Asl,
        1 => Instruction::Rol,
        2 => Instruction::Lsr,
        3 => Instruction::Ror,
        4 => Instruction::Stx,
        5 => Instruction::Ldx,
        6 => Instruction::Dec,
        _ => Instruction::Inc,
    }
}

/// The operation of the opcodes `aaabbb00` with a memory operand, chosen by
/// `aaa`.
pub open spec fn group_zero_instruction(aaa: u8) -> Instruction {
    match aaa {
        1 => Instruction::Bit,
        2 | 3 => Instruction::Jmp,
        4 => Instruction::Sty,
        5 => Instruction::Ldy,
        6 => Instruction::Cpy,
        _ => Instruction::Cpx,
    }
}

/// An entry with the length that its mode implies.
pub open spec fn entry(instruction: Instruction, mode: AddressingMode, cycles: u8) -> Opcode {
    Opcode { instruction, mode, len: length_of_mode(mode), cycles }
}

/// The official 6502 opcode matrix, read from the opcode's bit fields
/// `aaabbbcc`: `cc` picks the group, `aaa` the operation and `bbb` the
/// addressing mode, with the single-byte, branch and jump opcodes of the
/// `cc = 00` and `cc = 10` groups listed by row.
pub open spec fn documented_opcode(code: u8) -> Opcode {
    let aaa = code / 32;
    let bbb = (code / 4) % 8;
    let cc = code % 4;
    if cc == 1 {
        if aaa == 4 && bbb == 2 {
            illegal_opcode()
        } else {
            let instruction = group_one_instruction(aaa);
            let mode = group_one_mode(bbb);
            entry(instruction, mode, group_one_cycles(instruction, mode))
        }
    } else if cc == 2 {
        let instruction = group_two_instruction(aaa);
        let rmw = aaa != 4 && aaa != 5;
        if bbb == 0 {
            if aaa == 5 {
                entry(Instruction::Ldx, AddressingMode::Immediate, 2)
            } else {
                illegal_opcode()
            }
        } else if bbb == 1 {
            entry(instruction, AddressingMode::ZeroPage, if rmw { 5 } else { 3 })
        } else if bbb == 2 {
            let implied = match aaa {
                0 => Instruction::Asl,
                1 => Instruction::Rol,
                2 => Instruction::Lsr,
                3 => Instruction::Ror,
                4 => Instruction::Txa,
                5 => Instruction::Tax,
                6 => Instruction::Dex,
                _ => Instruction::Nop,
            };
            entry(implied, AddressingMode::Implied, 2)
        } else if bbb == 3 {
            entry(instruction, AddressingMode::Absolute, if rmw { 6 } else { 4 })
        } else if bbb == 5 {
            if rmw {
                entry(instruction, AddressingMode::ZeroPageX, 6)
            } else {
                entry(instruction, AddressingMode::ZeroPageY, 4)
            }
        } else if bbb == 6 {
            if aaa == 4 {
                entry(Instruction::Txs, AddressingMode::Implied, 2)
            } else if aaa == 5 {
                entry(Instruction::Tsx, AddressingMode::Implied, 2)
            } else {
                illegal_opcode()
            }
        } else if bbb == 7 {
            if aaa == 4 {
                illegal_opcode()
            } else if rmw {
                entry(instruction, AddressingMode::AbsoluteX, 7)
            } else {
                entry(instruction, AddressingMode::AbsoluteY, 4)
            }
        } else {
            illegal_opcode()
        }
    } else if cc == 0 {
        let instruction = group_zero_instruction(aaa);
        if bbb == 4 {
            let branch = match aaa {
                0 => Instruction::Bpl,
                1 => Instruction::Bmi,
                2 => Instruction::Bvc,
                3 => Instruction::Bvs,
                4 => Instruction::Bcc,
                5 => Instruction::Bcs,
                6 => Instruction::Bne,
                _ => Instruction::Beq,
            };
            Opcode { instruction: branch, mode: AddressingMode::Implied, len: 2, cycles: 2 }
        } else if bbb == 6 {
            let implied = match aaa {
                0 => Instruction::Clc,
                1 => Instruction::Sec,
                2 => Instruction::Cli,
                3 => Instruction::Sei,
                4 => Instruction::Tya,
                5 => Instruction::Clv,
                6 => Instruction::Cld,
                _ => Instruction::Sed,
            };
            entry(implied, AddressingMode::Implied, 2)
        } else if bbb == 2 {
            match aaa {
                0 => entry(Instruction::Php, AddressingMode::Implied, 3),
                1 => entry(Instruction::Plp, AddressingMode::Implied, 4),
                2 => entry(Instruction::Pha, AddressingMode::Implied, 3),
                3 => entry(Instruction::Pla, AddressingMode::Implied, 4),
                4 => entry(Instruction::Dey, AddressingMode::Implied, 2),
                5 => entry(Instruction::Tay, AddressingMode::Implied, 2),
                6 => entry(Instruction::Iny, AddressingMode::Implied, 2),
                _ => entry(Instruction::Inx, AddressingMode::Implied, 2),
            }
        } else if bbb == 0 {
            match aaa {
                0 => entry(Instruction::Brk, AddressingMode::Implied, 7),
                1 => entry(Instruction::Jsr, AddressingMode::Absolute, 6),
                2 => entry(Instruction::Rti, AddressingMode::Implied, 6),
                3 => entry(Instruction::Rts, AddressingMode::Implied, 6),
                4 => illegal_opcode(),
                _ => entry(instruction, AddressingMode::Immediate, 2),
            }
        } else if bbb == 1 {
            if aaa == 0 || aaa == 2 || aaa == 3 {
                illegal_opcode()
            } else {
                entry(instruction, AddressingMode::ZeroPage, 3)
            }
        } else if bbb == 3 {
            if aaa == 0 {
                illegal_opcode()
            } else if aaa == 2 {
                entry(Instruction::Jmp, AddressingMode::Absolute, 3)
            } else if aaa == 3 {
                Opcode { instruction: Instruction::Jmp, mode: AddressingMode::Implied, len: 3, cycles: 5 }
            } else {
                entry(instruction, AddressingMode::Absolute, 4)
            }
        } else if bbb == 5 {
            if aaa == 4 || aaa == 5 {
                entry(instruction, AddressingMode::ZeroPageX, 4)
            } else {
                illegal_opcode()
            }
        } else if bbb == 7 && aaa == 5 {
            entry(Instruction::Ldy, AddressingMode::AbsoluteX, 4)
        } else {
            illegal_opcode()
        }
    } else {
        illegal_opcode()
    }
}

/// The opcode table is the official 6502 opcode matrix: every opcode byte
/// decodes to the operation, addressing mode, length and cycle count that
/// its bit fields give.
#[verifier::rlimit(100)]
pub proof fn lemma_table_is_documented(code: u8)
    ensures
        opcode_spec(code) == documented_opcode(code),
{
    match code {
        0u8 => {},
        1u8 => {},
        2u8 => {},
        3u8 => {},
        4u8 => {},
        5u8 => {},
        6u8 => {},
        7u8 => {},
        8u8 => {},
        9u8 => {},
        10u8 => {},
        11u8 => {},
        12u8 => {},
        13u8 => {},
        14u8 => {},
        15u8 => {},
        16u8 => {},
        17u8 => {},
        18u8 => {},
        19u8 => {},
        20u8 => {},
        21u8 => {},
        22u8 => {},
        23u8 => {},
        24u8 => {},
        25u8 => {},
        26u8 => {},
        27u8 => {},
        28u8 => {},
        29u8 => {},
        30u8 => {},
        31u8 => {},
        32u8 => {},
        33u8 => {},
        34u8 => {},
        35u8 => {},
        36u8 => {},
        37u8 => {},
        38u8 => {},
        39u8 => {},
        40u8 => {},
        41u8 => {},
        42u8 => {},
        43u8 => {},
        44u8 => {},
        45u8 => {},
        46u8 => {},
        47u8 => {},
        48u8 => {},
        49u8 => {},
        50u8 => {},
        51u8 => {},
        52u8 => {},
        53u8 => {},
        54u8 => {},
        55u8 => {},
        56u8 => {},
        57u8 => {},
        58u8 => {},
        59u8 => {},
        60u8 => {},
        61u8 => {},
        62u8 => {},
        63u8 => {},
        64u8 => {},
        65u8 => {},
        66u8 => {},
        67u8 => {},
        68u8 => {},
        69u8 => {},
        70u8 => {},
        71u8 => {},
        72u8 => {},
        73u8 => {},
        74u8 => {},
        75u8 => {},
        76u8 => {},
        77u8 => {},
        78u8 => {},
        79u8 => {},
        80u8 => {},
        81u8 => {},
        82u8 => {},
        83u8 => {},
        84u8 => {},
        85u8 => {},
        86u8 => {},
        87u8 => {},
        88u8 => {},
        89u8 => {},
        90u8 => {},
        91u8 => {},
        92u8 => {},
        93u8 => {},
        94u8 => {},
        95u8 => {},
        96u8 => {},
        97u8 => {},
        98u8 => {},
        99u8 => {},
        100u8 => {},
        101u8 => {},
        102u8 => {},
        103u8 => {},
        104u8 => {},
        105u8 => {},
        106u8 => {},
        107u8 => {},
        108u8 => {},
        109u8 => {},
        110u8 => {},
        111u8 => {},
        112u8 => {},
        113u8 => {},
        114u8 => {},
        115u8 => {},
        116u8 => {},
        117u8 => {},
        118u8 => {},
        119u8 => {},
        120u8 => {},
        121u8 => {},
        122u8 => {},
        123u8 => {},
        124u8 => {},
        125u8 => {},
        126u8 => {},
        127u8 => {},
        128u8 => {},
        129u8 => {},
        130u8 => {},
        131u8 => {},
        132u8 => {},
        133u8 => {},
        134u8 => {},
        135u8 => {},
        136u8 => {},
        137u8 => {},
        138u8 => {},
        139u8 => {},
        140u8 => {},
        141u8 => {},
        142u8 => {},
        143u8 => {},
        144u8 => {},
        145u8 => {},
        146u8 => {},
        147u8 => {},
        148u8 => {},
        149u8 => {},
        150u8 => {},
        151u8 => {},
        152u8 => {},
        153u8 => {},
        154u8 => {},
        155u8 => {},
        156u8 => {},
        157u8 => {},
        158u8 => {},
        159u8 => {},
        160u8 => {},
        161u8 => {},
        162u8 => {},
        163u8 => {},
        164u8 => {},
        165u8 => {},
        166u8 => {},
        167u8 => {},
        168u8 => {},
        169u8 => {},
        170u8 => {},
        171u8 => {},
        172u8 => {},
        173u8 => {},
        174u8 => {},
        175u8 => {},
        176u8 => {},
        177u8 => {},
        178u8 => {},
        179u8 => {},
        180u8 => {},
        181u8 => {},
        182u8 => {},
        183u8 => {},
        184u8 => {},
        185u8 => {},
        186u8 => {},
        187u8 => {},
        188u8 => {},
        189u8 => {},
        190u8 => {},
        191u8 => {},
        192u8 => {},
        193u8 => {},
        194u8 => {},
        195u8 => {},
        196u8 => {},
        197u8 => {},
        198u8 => {},
        199u8 => {},
        200u8 => {},
        201u8 => {},
        202u8 => {},
        203u8 => {},
        204u8 => {},
        205u8 => {},
        206u8 => {},
        207u8 => {},
        208u8 => {},
        209u8 => {},
        210u8 => {},
        211u8 => {},
        212u8 => {},
        213u8 => {},
        214u8 => {},
        215u8 => {},
        216u8 => {},
        217u8 => {},
        218u8 => {},
        219u8 => {},
        220u8 => {},
        221u8 => {},
        222u8 => {},
        223u8 => {},
        224u8 => {},
        225u8 => {},
        226u8 => {},
        227u8 => {},
        228u8 => {},
        229u8 => {},
        230u8 => {},
        231u8 => {},
        232u8 => {},
        233u8 => {},
        234u8 => {},
        235u8 => {},
        236u8 => {},
        237u8 => {},
        238u8 => {},
        239u8 => {},
        240u8 => {},
        241u8 => {},
        242u8 => {},
        243u8 => {},
        244u8 => {},
        245u8 => {},
        246u8 => {},
        247u8 => {},
        248u8 => {},
        249u8 => {},
        250u8 => {},
        251u8 => {},
        252u8 => {},
        253u8 => {},
        254u8 => {},
        255u8 => {},
    }
}

/// Whether the instruction reads its operand with an indexed mode that costs
/// one more cycle when the indexed address lies on another page than the base.
pub open spec fn page_cross_penalty_spec(opcode: Opcode) -> bool {
    let reads = match opcode.instruction {
        Instruction::Adc | Instruction::Sbc | Instruction::And | Instruction::Eor
        | Instruction::Ora | Instruction::Cmp | Instruction::Lda | Instruction::Ldx
        | Instruction::Ldy => true,
        _ => false,
    };
    let indexed = match opcode.mode {
        AddressingMode::AbsoluteX | AddressingMode::AbsoluteY | AddressingMode::IndirectY => true,
        _ => false,
    };
    reads && indexed
}

impl Opcode {
    fn illegal() -> (r: Self)
        ensures
            r == illegal_opcode(),
    {
        Self::new(Instruction::Illegal, AddressingMode::Implied, 1, 0)
    }

    fn new(instruction: Instruction, mode: AddressingMode, len: u8, cycles: u8) -> (r: Self)
        ensures
            r == (Opcode { instruction, mode, len, cycles }),
    {
        Self { instruction, mode, len, cycles }
    }

    /// Whether a page crossing of the operand address costs an extra cycle.
    pub(crate) fn page_cross_penalty(&self) -> (r: bool)
        ensures
            r == page_cross_penalty_spec(*self),
    {
        let reads = match self.instruction {
            Instruction::Adc | Instruction::Sbc | Instruction::And | Instruction::Eor
            | Instruction::Ora | Instruction::Cmp | Instruction::Lda | Instruction::Ldx
            | Instruction::Ldy => true,
            _ => false,
        };
        let indexed = match self.mode {
            AddressingMode::AbsoluteX | AddressingMode::AbsoluteY | AddressingMode::IndirectY => true,
            _ => false,
        };
        reads && indexed
    }
}

/// Decodes an opcode byte.
#[must_use]
#[verifier::rlimit(100)]
pub fn decode(code: u8) -> (r: Opcode)
    ensures
        r == opcode_spec(code),
{
    match code {
        0x00 => Opcode::new(Instruction::Brk, AddressingMode::Implied, 1, 7),
        0x01 => Opcode::new(Instruction::Ora, AddressingMode::IndirectX, 2, 6),
        0x05 => Opcode::new(Instruction::Ora, AddressingMode::ZeroPage, 2, 3),
        0x06 => Opcode::new(Instruction::Asl, AddressingMode::ZeroPage, 2, 5),
        0x08 => Opcode::new(Instruction::Php, AddressingMode::Implied, 1, 3),
        0x09 => Opcode::new(Instruction::Ora, AddressingMode::Immediate, 2, 2),
        0x0A => Opcode::new(Instruction::Asl, AddressingMode::Implied, 1, 2),
        0x0D => Opcode::new(Instruction::Ora, AddressingMode::Absolute, 3, 4),
        0x0E => Opcode::new(Instruction::Asl, AddressingMode::Absolute, 3, 6),
        0x10 => Opcode::new(Instruction::Bpl, AddressingMode::Implied, 2, 2),
        0x11 => Opcode::new(Instruction::Ora, AddressingMode::IndirectY, 2, 5),
        0x15 => Opcode::new(Instruction::Ora, AddressingMode::ZeroPageX, 2, 4),
        0x16 => Opcode::new(Instruction::Asl, AddressingMode::ZeroPageX, 2, 6),
        0x18 => Opcode::new(Instruction::Clc, AddressingMode::Implied, 1, 2),
        0x19 => Opcode::new(Instruction::Ora, AddressingMode::AbsoluteY, 3, 4),
        0x1D => Opcode::new(Instruction::Ora, AddressingMode::AbsoluteX, 3, 4),
        0x1E => Opcode::new(Instruction::Asl, AddressingMode::AbsoluteX, 3, 7),
        0x20 => Opcode::new(Instruction::Jsr, AddressingMode::Absolute, 3, 6),
        0x21 => Opcode::new(Instruction::And, AddressingMode::IndirectX, 2, 6),
        0x24 => Opcode::new(Instruction::Bit, AddressingMode::ZeroPage, 2, 3),
        0x25 => Opcode::new(Instruction::And, AddressingMode::ZeroPage, 2, 3),
        0x26 => Opcode::new(Instruction::Rol, AddressingMode::ZeroPage, 2, 5),
        0x28 => Opcode::new(Instruction::Plp, AddressingMode::Implied, 1, 4),
        0x29 => Opcode::new(Instruction::And, AddressingMode::Immediate, 2, 2),
        0x2A => Opcode::new(Instruction::Rol, AddressingMode::Implied, 1, 2),
        0x2C => Opcode::new(Instruction::Bit, AddressingMode::Absolute, 3, 4),
        0x2D => Opcode::new(Instruction::And, AddressingMode::Absolute, 3, 4),
        0x2E => Opcode::new(Instruction::Rol, AddressingMode::Absolute, 3, 6),
        0x30 => Opcode::new(Instruction::Bmi, AddressingMode::Implied, 2, 2),
        0x31 => Opcode::new(Instruction::And, AddressingMode::IndirectY, 2, 5),
        0x35 => Opcode::new(Instruction::And, AddressingMode::ZeroPageX, 2, 4),
        0x36 => Opcode::new(Instruction::Rol, AddressingMode::ZeroPageX, 2, 6),
        0x38 => Opcode::new(Instruction::Sec, AddressingMode::Implied, 1, 2),
        0x39 => Opcode::new(Instruction::And, AddressingMode::AbsoluteY, 3, 4),
        0x3D => Opcode::new(Instruction::And, AddressingMode::AbsoluteX, 3, 4),
        0x3E => Opcode::new(Instruction::Rol, AddressingMode::AbsoluteX, 3, 7),
        0x40 => Opcode::new(Instruction::Rti, AddressingMode::Implied, 1, 6),
        0x41 => Opcode::new(Instruction::Eor, AddressingMode::IndirectX, 2, 6),
        0x45 => Opcode::new(Instruction::Eor, AddressingMode::ZeroPage, 2, 3),
        0x46 => Opcode::new(Instruction::Lsr, AddressingMode::ZeroPage, 2, 5),
        0x48 => Opcode::new(Instruction::Pha, AddressingMode::Implied, 1, 3),
        0x49 => Opcode::new(Instruction::Eor, AddressingMode::Immediate, 2, 2),
        0x4A => Opcode::new(Instruction::Lsr, AddressingMode::Implied, 1, 2),
        0x4C => Opcode::new(Instruction::Jmp, AddressingMode::Absolute, 3, 3),
        0x4D => Opcode::new(Instruction::Eor, AddressingMode::Absolute, 3, 4),
        0x4E => Opcode::new(Instruction::Lsr, AddressingMode::Absolute, 3, 6),
        0x50 => Opcode::new(Instruction::Bvc, AddressingMode::Implied, 2, 2),
        0x51 => Opcode::new(Instruction::Eor, AddressingMode::IndirectY, 2, 5),
        0x55 => Opcode::new(Instruction::Eor, AddressingMode::ZeroPageX, 2, 4),
        0x56 => Opcode::new(Instruction::Lsr, AddressingMode::ZeroPageX, 2, 6),
        0x58 => Opcode::new(Instruction::Cli, AddressingMode::Implied, 1, 2),
        0x59 => Opcode::new(Instruction::Eor, AddressingMode::AbsoluteY, 3, 4),
        0x5D => Opcode::new(Instruction::Eor, AddressingMode::AbsoluteX, 3, 4),
        0x5E => Opcode::new(Instruction::Lsr, AddressingMode::AbsoluteX, 3, 7),
        0x60 => Opcode::new(Instruction::Rts, AddressingMode::Implied, 1, 6),
        0x61 => Opcode::new(Instruction::Adc, AddressingMode::IndirectX, 2, 6),
        0x65 => Opcode::new(Instruction::Adc, AddressingMode::ZeroPage, 2, 3),
        0x66 => Opcode::new(Instruction::Ror, AddressingMode::ZeroPage, 2, 5),
        0x68 => Opcode::new(Instruction::Pla, AddressingMode::Implied, 1, 4),
        0x69 => Opcode::new(Instruction::Adc, AddressingMode::Immediate, 2, 2),
        0x6A => Opcode::new(Instruction::Ror, AddressingMode::Implied, 1, 2),
        0x6C => Opcode::new(Instruction::Jmp, AddressingMode::Implied, 3, 5),
        0x6D => Opcode::new(Instruction::Adc, AddressingMode::Absolute, 3, 4),
        0x6E => Opcode::new(Instruction::Ror, AddressingMode::Absolute, 3, 6),
        0x70 => Opcode::new(Instruction::Bvs, AddressingMode::Implied, 2, 2),
        0x71 => Opcode::new(Instruction::Adc, AddressingMode::IndirectY, 2, 5),
        0x75 => Opcode::new(Instruction::Adc, AddressingMode::ZeroPageX, 2, 4),
        0x76 => Opcode::new(Instruction::Ror, AddressingMode::ZeroPageX, 2, 6),
        0x78 => Opcode::new(Instruction::Sei, AddressingMode::Implied, 1, 2),
        0x79 => Opcode::new(Instruction::Adc, AddressingMode::AbsoluteY, 3, 4),
        0x7D => Opcode::new(Instruction::Adc, AddressingMode::AbsoluteX, 3, 4),
        0x7E => Opcode::new(Instruction::Ror, AddressingMode::AbsoluteX, 3, 7),
        0x81 => Opcode::new(Instruction::Sta, AddressingMode::IndirectX, 2, 6),
        0x84 => Opcode::new(Instruction::Sty, AddressingMode::ZeroPage, 2, 3),
        0x85 => Opcode::new(Instruction::Sta, AddressingMode::ZeroPage, 2, 3),
        0x86 => Opcode::new(Instruction::Stx, AddressingMode::ZeroPage, 2, 3),
        0x88 => Opcode::new(Instruction::Dey, AddressingMode::Implied, 1, 2),
        0x8A => Opcode::new(Instruction::Txa, AddressingMode::Implied, 1, 2),
        0x8C => Opcode::new(Instruction::Sty, AddressingMode::Absolute, 3, 4),
        0x8D => Opcode::new(Instruction::Sta, AddressingMode::Absolute, 3, 4),
        0x8E => Opcode::new(Instruction::Stx, AddressingMode::Absolute, 3, 4),
        0x90 => Opcode::new(Instruction::Bcc, AddressingMode::Implied, 2, 2),
        0x91 => Opcode::new(Instruction::Sta, AddressingMode::IndirectY, 2, 6),
        0x94 => Opcode::new(Instruction::Sty, AddressingMode::ZeroPageX, 2, 4),
        0x95 => Opcode::new(Instruction::Sta, AddressingMode::ZeroPageX, 2, 4),
        0x96 => Opcode::new(Instruction::Stx, AddressingMode::ZeroPageY, 2, 4),
        0x98 => Opcode::new(Instruction::Tya, AddressingMode::Implied, 1, 2),
        0x99 => Opcode::new(Instruction::Sta, AddressingMode::AbsoluteY, 3, 5),
        0x9A => Opcode::new(Instruction::Txs, AddressingMode::Implied, 1, 2),
        0x9D => Opcode::new(Instruction::Sta, AddressingMode::AbsoluteX, 3, 5),
        0xA0 => Opcode::new(Instruction::Ldy, AddressingMode::Immediate, 2, 2),
        0xA1 => Opcode::new(Instruction::Lda, AddressingMode::IndirectX, 2, 6),
        0xA2 => Opcode::new(Instruction::Ldx, AddressingMode::Immediate, 2, 2),
        0xA4 => Opcode::new(Instruction::Ldy, AddressingMode::ZeroPage, 2, 3),
        0xA5 => Opcode::new(Instruction::Lda, AddressingMode::ZeroPage, 2, 3),
        0xA6 => Opcode::new(Instruction::Ldx, AddressingMode::ZeroPage, 2, 3),
        0xA8 => Opcode::new(Instruction::Tay, AddressingMode::Implied, 1, 2),
        0xA9 => Opcode::new(Instruction::Lda, AddressingMode::Immediate, 2, 2),
        0xAA => Opcode::new(Instruction::Tax, AddressingMode::Implied, 1, 2),
        0xAC => Opcode::new(Instruction::Ldy, AddressingMode::Absolute, 3, 4),
        0xAD => Opcode::new(Instruction::Lda, AddressingMode::Absolute, 3, 4),
        0xAE => Opcode::new(Instruction::Ldx, AddressingMode::Absolute, 3, 4),
        0xB0 => Opcode::new(Instruction::Bcs, AddressingMode::Implied, 2, 2),
        0xB1 => Opcode::new(Instruction::Lda, AddressingMode::IndirectY, 2, 5),
        0xB4 => Opcode::new(Instruction::Ldy, AddressingMode::ZeroPageX, 2, 4),
        0xB5 => Opcode::new(Instruction::Lda, AddressingMode::ZeroPageX, 2, 4),
        0xB6 => Opcode::new(Instruction::Ldx, AddressingMode::ZeroPageY, 2, 4),
        0xB8 => Opcode::new(Instruction::Clv, AddressingMode::Implied, 1, 2),
        0xB9 => Opcode::new(Instruction::Lda, AddressingMode::AbsoluteY, 3, 4),
        0xBA => Opcode::new(Instruction::Tsx, AddressingMode::Implied, 1, 2),
        0xBC => Opcode::new(Instruction::Ldy, AddressingMode::AbsoluteX, 3, 4),
        0xBD => Opcode::new(Instruction::Lda, AddressingMode::AbsoluteX, 3, 4),
        0xBE => Opcode::new(Instruction::Ldx, AddressingMode::AbsoluteY, 3, 4),
        0xC0 => Opcode::new(Instruction::Cpy, AddressingMode::Immediate, 2, 2),
        0xC1 => Opcode::new(Instruction::Cmp, AddressingMode::IndirectX, 2, 6),
        0xC4 => Opcode::new(Instruction::Cpy, AddressingMode::ZeroPage, 2, 3),
        0xC5 => Opcode::new(Instruction::Cmp, AddressingMode::ZeroPage, 2, 3),
        0xC6 => Opcode::new(Instruction::Dec, AddressingMode::ZeroPage, 2, 5),
        0xC8 => Opcode::new(Instruction::Iny, AddressingMode::Implied, 1, 2),
        0xC9 => Opcode::new(Instruction::Cmp, AddressingMode::Immediate, 2, 2),
        0xCA => Opcode::new(Instruction::Dex, AddressingMode::Implied, 1, 2),
        0xCC => Opcode::new(Instruction::Cpy, AddressingMode::Absolute, 3, 4),
        0xCD => Opcode::new(Instruction::Cmp, AddressingMode::Absolute, 3, 4),
        0xCE => Opcode::new(Instruction::Dec, AddressingMode::Absolute, 3, 6),
        0xD0 => Opcode::new(Instruction::Bne, AddressingMode::Implied, 2, 2),
        0xD1 => Opcode::new(Instruction::Cmp, AddressingMode::IndirectY, 2, 5),
        0xD5 => Opcode::new(Instruction::Cmp, AddressingMode::ZeroPageX, 2, 4),
        0xD6 => Opcode::new(Instruction::Dec, AddressingMode::ZeroPageX, 2, 6),
        0xD8 => Opcode::new(Instruction::Cld, AddressingMode::Implied, 1, 2),
        0xD9 => Opcode::new(Instruction::Cmp, AddressingMode::AbsoluteY, 3, 4),
        0xDD => Opcode::new(Instruction::Cmp, AddressingMode::AbsoluteX, 3, 4),
        0xDE => Opcode::new(Instruction::Dec, AddressingMode::AbsoluteX, 3, 7),
        0xE0 => Opcode::new(Instruction::Cpx, AddressingMode::Immediate, 2, 2),
        0xE1 => Opcode::new(Instruction::Sbc, AddressingMode::IndirectX, 2, 6),
        0xE4 => Opcode::new(Instruction::Cpx, AddressingMode::ZeroPage, 2, 3),
        0xE5 => Opcode::new(Instruction::Sbc, AddressingMode::ZeroPage, 2, 3),
        0xE6 => Opcode::new(Instruction::Inc, AddressingMode::ZeroPage, 2, 5),
        0xE8 => Opcode::new(Instruction::Inx, AddressingMode::Implied, 1, 2),
        0xE9 => Opcode::new(Instruction::Sbc, AddressingMode::Immediate, 2, 2),
        0xEA => Opcode::new(Instruction::Nop, AddressingMode::Implied, 1, 2),
        0xEC => Opcode::new(Instruction::Cpx, AddressingMode::Absolute, 3, 4),
        0xED => Opcode::new(Instruction::Sbc, AddressingMode::Absolute, 3, 4),
        0xEE => Opcode::new(Instruction::Inc, AddressingMode::Absolute, 3, 6),
        0xF0 => Opcode::new(Instruction::Beq, AddressingMode::Implied, 2, 2),
        0xF1 => Opcode::new(Instruction::Sbc, AddressingMode::IndirectY, 2, 5),
        0xF5 => Opcode::new(Instruction::Sbc, AddressingMode::ZeroPageX, 2, 4),
        0xF6 => Opcode::new(Instruction::Inc, AddressingMode::ZeroPageX, 2, 6),
        0xF8 => Opcode::new(Instruction::Sed, AddressingMode::Implied, 1, 2),
        0xF9 => Opcode::new(Instruction::Sbc, AddressingMode::AbsoluteY, 3, 4),
        0xFD => Opcode::new(Instruction::Sbc, AddressingMode::AbsoluteX, 3, 4),
        0xFE => Opcode::new(Instruction::Inc, AddressingMode::AbsoluteX, 3, 7),
        _ => Opcode::illegal(),
    }
}

/// The whole opcode table, indexed by opcode byte.
pub fn build_table() -> (table: Vec<Opcode>)
    ensures
        table@.len() == 256,
        forall|code: u8| #[trigger] table@[code as int] == opcode_spec(code),
{
    let mut table: Vec<Opcode> = Vec::new();
    let mut code: u16 = 0;
    while code < 256
        invariant
            code <= 256,
            table@.len() == code,
            forall|c: u8| c < code ==> #[trigger] table@[c as int] == opcode_spec(c),
        decreases 256 - code,
    {
        table.push(decode(code as u8));
        code = code + 1;
    }
    table
}

} // verus!
