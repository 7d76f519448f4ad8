use vstd::prelude::*;

use crate::cpu::bus::Bus;
use crate::cpu::opcode::AddressingMode;
use crate::cpu::{
    crosses_page, indexed, operand_readable, operand_spec, zero_page_word, Cpu, CpuError,
    OperandAddress,
};

verus! {

impl<B: Bus> Cpu<B> {
    /// The word at `ptr` and `ptr + 1`, the pointer wrapping inside the
    /// zero page.
    fn zero_page_word(&self, ptr: u8) -> (r: u16)
        requires
            B::readable(self.bus@, ptr as u16),
            B::readable(self.bus@, ((ptr + 1) % 256) as u16),
        ensures
            r == zero_page_word::<B>(self.bus@, ptr),
    {
        let lo = self.bus.read(u16::from(ptr));
        let hi = self.bus.read(u16::from(ptr.wrapping_add(1)));
        u16::from(hi) * 256 + u16::from(lo)
    }

    /// `base` indexed by a register, and whether that crossed a page.
    fn index_operand(base: u16, index: u8) -> (r: OperandAddress)
        ensures
            r.address == indexed(base, index),
            r.page_crossed == crosses_page(base, indexed(base, index)),
    {
        let address = base.wrapping_add(u16::from(index));
        OperandAddress { address, page_crossed: page_crossed(base, address) }
    }

    /// Finds the operand of an instruction in `mode` whose operand bytes
    /// start at the program counter.
    pub(crate) fn operand_address(&self, mode: AddressingMode) -> (r: Result<OperandAddress, CpuError>)
        requires
            operand_readable::<B>(self@, mode),
        ensures
            match r {
                Ok(o) => operand_spec::<B>(self@, mode) == Ok::<(u16, bool), CpuError>(
                    (o.address, o.page_crossed),
                ),
                Err(e) => operand_spec::<B>(self@, mode) == Err::<(u16, bool), CpuError>(e),
            },
    {
        proof {
            reveal(operand_spec);
        }
        let result = match mode {
            AddressingMode::Immediate => OperandAddress {
                address: self.program_counter,
                page_crossed: false,
            },
            AddressingMode::ZeroPage => OperandAddress {
                address: u16::from(self.bus.read(self.program_counter)),
                page_crossed: false,
            },
            AddressingMode::ZeroPageX => {
                let base = self.bus.read(self.program_counter);
                OperandAddress {
                    address: u16::from(base.wrapping_add(self.register_x)),
                    page_crossed: false,
                }
            },
            AddressingMode::ZeroPageY => {
                let base = self.bus.read(self.program_counter);
                OperandAddress {
                    address: u16::from(base.wrapping_add(self.register_y)),
                    page_crossed: false,
                }
            },
            AddressingMode::Absolute => OperandAddress {
                address: self.bus.read_u16(self.program_counter),
                page_crossed: false,
            },
            AddressingMode::AbsoluteX => {
                let base = self.bus.read_u16(self.program_counter);
                Self::index_operand(base, self.register_x)
            },
            AddressingMode::AbsoluteY => {
                let base = self.bus.read_u16(self.program_counter);
                Self::index_operand(base, self.register_y)
            },
            AddressingMode::IndirectX => {
                // Zero-page pointer arithmetic wraps inside 0x00..=0xFF.
                let base = self.bus.read(self.program_counter);
                let ptr = base.wrapping_add(self.register_x);
                OperandAddress { address: self.zero_page_word(ptr), page_crossed: false }
            },
            AddressingMode::IndirectY => {
                let ptr = self.bus.read(self.program_counter);
                let base = self.zero_page_word(ptr);
                Self::index_operand(base, self.register_y)
            },
            AddressingMode::Implied => return Err(CpuError::UnsupportedAddressingMode),
        };
        Ok(result)
    }
}

/// Whether `base` and `address` lie on different 256-byte pages.
pub fn page_crossed(base: u16, address: u16) -> (r: bool)
    ensures
        r == crosses_page(base, address),
{
    let r = (base & 0xFF00) != (address & 0xFF00);
    assert(r == (base / 256 != address / 256)) by (bit_vector)
        requires
            r == ((base & 0xFF00) != (address & 0xFF00)),
    ;
    r
}

} // verus!
