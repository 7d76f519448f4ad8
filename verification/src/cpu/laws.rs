//! Laws of the core, each stated from first principles: in terms of the bytes
//! on the bus and the registers, not through the functions that define a step.

use vstd::prelude::*;

use crate::cpu::bus::{next_addr, read_word, BusModel};
use crate::cpu::opcode::AddressingMode;
use crate::cpu::status::lemma_zero_and_negative;
use crate::cpu::{
    crosses_page, indexed, operand_spec, reset_spec, step_spec, zero_page_word, CpuError, CpuState,
    StepOutcome,
};

verus! {

/// The byte `k` places after `addr`, wrapping in 16 bits.
pub open spec fn byte_at<B: BusModel>(bus: B::V, addr: u16, k: int) -> u8 {
    B::peek(bus, ((addr + k) % 0x10000) as u16)
}

/// `after` holds `value` in the status register's view: `ZERO` set exactly
/// when `value` is zero, `NEGATIVE` exactly when its bit 7 is set, and every
/// other flag as in `before`.
pub open spec fn flags_describe(before: u8, after: u8, value: u8) -> bool {
    &&& (after & 0x02 != 0) == (value == 0)
    &&& (after & 0x80 != 0) == (value >= 0x80)
    &&& after & 0x7D == before & 0x7D
}

/// The page (high byte) of an address.
pub open spec fn page_of(addr: int) -> int {
    addr / 256
}


/// `LDA` immediate (opcode 0xA9): loads A from its operand, sets
/// `ZERO` and `NEGATIVE` from the loaded byte, leaves X, Y and the bus alone,
/// and moves past its 2 bytes in 2 cycles.
pub proof fn lemma_step_lda_immediate<B: BusModel>(s: CpuState<B::V>)
    requires
        B::peek(s.bus, s.pc) == 0xA9,
    ensures
        ({
            let b1 = byte_at::<B>(s.bus, s.pc, 1);
            let value = b1;
            let (t, r) = step_spec::<B>(s);
            &&& r == Ok::<StepOutcome, CpuError>(StepOutcome::Executed { cycles: 2u8 })
            &&& t.a == value
            &&& flags_describe(s.status, t.status, value)
            &&& t.x == s.x && t.y == s.y && t.bus == s.bus
            &&& t.pc == ((s.pc + 2) % 0x10000) as u16
        }),
{
    reveal(operand_spec);
    let b1 = byte_at::<B>(s.bus, s.pc, 1);
    lemma_zero_and_negative(s.status, b1);
}

/// `LDA` zero page (opcode 0xA5): loads A from its operand, sets
/// `ZERO` and `NEGATIVE` from the loaded byte, leaves X, Y and the bus alone,
/// and moves past its 2 bytes in 3 cycles.
pub proof fn lemma_step_lda_zero_page<B: BusModel>(s: CpuState<B::V>)
    requires
        B::peek(s.bus, s.pc) == 0xA5,
    ensures
        ({
            let b1 = byte_at::<B>(s.bus, s.pc, 1);
            let addr = b1 as int;
            let value = B::peek(s.bus, addr as u16);
            let (t, r) = step_spec::<B>(s);
            &&& r == Ok::<StepOutcome, CpuError>(StepOutcome::Executed { cycles: 3u8 })
            &&& t.a == value
            &&& flags_describe(s.status, t.status, value)
            &&& t.x == s.x && t.y == s.y && t.bus == s.bus
            &&& t.pc == ((s.pc + 2) % 0x10000) as u16
        }),
{
    reveal(operand_spec);
    let b1 = byte_at::<B>(s.bus, s.pc, 1);
    let addr = b1 as int;
    lemma_zero_and_negative(s.status, B::peek(s.bus, addr as u16));
}

/// `LDA` zero page,X (the sum wrapping inside the zero page) (opcode 0xB5): loads A from its operand, sets
/// `ZERO` and `NEGATIVE` from the loaded byte, leaves X, Y and the bus alone,
/// and moves past its 2 bytes in 4 cycles.
pub proof fn lemma_step_lda_zero_page_x<B: BusModel>(s: CpuState<B::V>)
    requires
        B::peek(s.bus, s.pc) == 0xB5,
    ensures
        ({
            let b1 = byte_at::<B>(s.bus, s.pc, 1);
            let addr = (b1 + s.x) % 256;
            let value = B::peek(s.bus, addr as u16);
            let (t, r) = step_spec::<B>(s);
            &&& r == Ok::<StepOutcome, CpuError>(StepOutcome::Executed { cycles: 4u8 })
            &&& t.a == value
            &&& flags_describe(s.status, t.status, value)
            &&& t.x == s.x && t.y == s.y && t.bus == s.bus
            &&& t.pc == ((s.pc + 2) % 0x10000) as u16
        }),
{
    reveal(operand_spec);
    let b1 = byte_at::<B>(s.bus, s.pc, 1);
    let addr = (b1 + s.x) % 256;
    lemma_zero_and_negative(s.status, B::peek(s.bus, addr as u16));
}

/// `LDA` absolute (opcode 0xAD): loads A from its operand, sets
/// `ZERO` and `NEGATIVE` from the loaded byte, leaves X, Y and the bus alone,
/// and moves past its 3 bytes in 4 cycles.
pub proof fn lemma_step_lda_absolute<B: BusModel>(s: CpuState<B::V>)
    requires
        B::peek(s.bus, s.pc) == 0xAD,
    ensures
        ({
            let b1 = byte_at::<B>(s.bus, s.pc, 1);
            let b2 = byte_at::<B>(s.bus, s.pc, 2);
            let addr = b1 + 256 * b2;
            let value = B::peek(s.bus, addr as u16);
            let (t, r) = step_spec::<B>(s);
            &&& r == Ok::<StepOutcome, CpuError>(StepOutcome::Executed { cycles: 4u8 })
            &&& t.a == value
            &&& flags_describe(s.status, t.status, value)
            &&& t.x == s.x && t.y == s.y && t.bus == s.bus
            &&& t.pc == ((s.pc + 3) % 0x10000) as u16
        }),
{
    reveal(operand_spec);
    let b1 = byte_at::<B>(s.bus, s.pc, 1);
    let b2 = byte_at::<B>(s.bus, s.pc, 2);
    let addr = b1 + 256 * b2;
    lemma_zero_and_negative(s.status, B::peek(s.bus, addr as u16));
}

/// `LDA` absolute,X (opcode 0xBD): loads A from its operand, sets
/// `ZERO` and `NEGATIVE` from the loaded byte, leaves X, Y and the bus alone,
/// and moves past its 3 bytes in 4 cycles; one more cycle when indexing crosses a page.
pub proof fn lemma_step_lda_absolute_x<B: BusModel>(s: CpuState<B::V>)
    requires
        B::peek(s.bus, s.pc) == 0xBD,
    ensures
        ({
            let b1 = byte_at::<B>(s.bus, s.pc, 1);
            let b2 = byte_at::<B>(s.bus, s.pc, 2);
            let base = b1 + 256 * b2;
            let addr = (base + s.x) % 0x10000;
            let value = B::peek(s.bus, addr as u16);
            let (t, r) = step_spec::<B>(s);
            &&& r == Ok::<StepOutcome, CpuError>(StepOutcome::Executed { cycles: if page_of(base) != page_of(addr) { 5u8 } else { 4u8 } })
            &&& t.a == value
            &&& flags_describe(s.status, t.status, value)
            &&& t.x == s.x && t.y == s.y && t.bus == s.bus
            &&& t.pc == ((s.pc + 3) % 0x10000) as u16
        }),
{
    reveal(operand_spec);
    let b1 = byte_at::<B>(s.bus, s.pc, 1);
    let b2 = byte_at::<B>(s.bus, s.pc, 2);
    let base = b1 + 256 * b2;
    let addr = (base + s.x) % 0x10000;
    assert(next_addr(next_addr(s.pc)) == ((s.pc + 2) % 0x10000) as u16);
    assert(read_word::<B>(s.bus, next_addr(s.pc)) == base);
    assert(indexed(base as u16, s.x) == addr);
    assert(crosses_page(base as u16, addr as u16) == (page_of(base) != page_of(addr)));
    lemma_zero_and_negative(s.status, B::peek(s.bus, addr as u16));
}

/// `LDA` absolute,Y (opcode 0xB9): loads A from its operand, sets
/// `ZERO` and `NEGATIVE` from the loaded byte, leaves X, Y and the bus alone,
/// and moves past its 3 bytes in 4 cycles; one more cycle when indexing crosses a page.
#[verifier::rlimit(80)]
pub proof fn lemma_step_lda_absolute_y<B: BusModel>(s: CpuState<B::V>)
    requires
        B::peek(s.bus, s.pc) == 0xB9,
    ensures
        ({
            let b1 = byte_at::<B>(s.bus, s.pc, 1);
            let b2 = byte_at::<B>(s.bus, s.pc, 2);
            let base = b1 + 256 * b2;
            let addr = (base + s.y) % 0x10000;
            let value = B::peek(s.bus, addr as u16);
            let (t, r) = step_spec::<B>(s);
            &&& r == Ok::<StepOutcome, CpuError>(StepOutcome::Executed { cycles: if page_of(base) != page_of(addr) { 5u8 } else { 4u8 } })
            &&& t.a == value
            &&& flags_describe(s.status, t.status, value)
            &&& t.x == s.x && t.y == s.y && t.bus == s.bus
            &&& t.pc == ((s.pc + 3) % 0x10000) as u16
        }),
{
    reveal(operand_spec);
    let b1 = byte_at::<B>(s.bus, s.pc, 1);
    let b2 = byte_at::<B>(s.bus, s.pc, 2);
    let base = b1 + 256 * b2;
    let addr = (base + s.y) % 0x10000;
    assert(next_addr(next_addr(s.pc)) == ((s.pc + 2) % 0x10000) as u16);
    assert(read_word::<B>(s.bus, next_addr(s.pc)) == base);
    assert(indexed(base as u16, s.y) == addr);
    assert(crosses_page(base as u16, addr as u16) == (page_of(base) != page_of(addr)));
    lemma_zero_and_negative(s.status, B::peek(s.bus, addr as u16));
}

/// `LDA` (indirect,X): through the zero-page pointer at operand + X (opcode 0xA1): loads A from its operand, sets
/// `ZERO` and `NEGATIVE` from the loaded byte, leaves X, Y and the bus alone,
/// and moves past its 2 bytes in 6 cycles.
pub proof fn lemma_step_lda_indirect_x<B: BusModel>(s: CpuState<B::V>)
    requires
        B::peek(s.bus, s.pc) == 0xA1,
    ensures
        ({
            let b1 = byte_at::<B>(s.bus, s.pc, 1);
            let ptr = (b1 + s.x) % 256;
            let addr = B::peek(s.bus, ptr as u16) + 256 * B::peek(s.bus, ((ptr + 1) % 256) as u16);
            let value = B::peek(s.bus, addr as u16);
            let (t, r) = step_spec::<B>(s);
            &&& r == Ok::<StepOutcome, CpuError>(StepOutcome::Executed { cycles: 6u8 })
            &&& t.a == value
            &&& flags_describe(s.status, t.status, value)
            &&& t.x == s.x && t.y == s.y && t.bus == s.bus
            &&& t.pc == ((s.pc + 2) % 0x10000) as u16
        }),
{
    reveal(operand_spec);
    let b1 = byte_at::<B>(s.bus, s.pc, 1);
    let ptr = (b1 + s.x) % 256;
    let addr = B::peek(s.bus, ptr as u16) + 256 * B::peek(s.bus, ((ptr + 1) % 256) as u16);
    lemma_zero_and_negative(s.status, B::peek(s.bus, addr as u16));
}

/// `LDA` (indirect),Y: through the zero-page pointer at the operand, plus Y (opcode 0xB1): loads A from its operand, sets
/// `ZERO` and `NEGATIVE` from the loaded byte, leaves X, Y and the bus alone,
/// and moves past its 2 bytes in 5 cycles; one more cycle when indexing crosses a page.
#[verifier::rlimit(80)]
pub proof fn lemma_step_lda_indirect_y<B: BusModel>(s: CpuState<B::V>)
    requires
        B::peek(s.bus, s.pc) == 0xB1,
    ensures
        ({
            let b1 = byte_at::<B>(s.bus, s.pc, 1);
            let base = B::peek(s.bus, b1 as u16) + 256 * B::peek(s.bus, ((b1 + 1) % 256) as u16);
            let addr = (base + s.y) % 0x10000;
            let value = B::peek(s.bus, addr as u16);
            let (t, r) = step_spec::<B>(s);
            &&& r == Ok::<StepOutcome, CpuError>(StepOutcome::Executed { cycles: if page_of(base) != page_of(addr) { 6u8 } else { 5u8 } })
            &&& t.a == value
            &&& flags_describe(s.status, t.status, value)
            &&& t.x == s.x && t.y == s.y && t.bus == s.bus
            &&& t.pc == ((s.pc + 2) % 0x10000) as u16
        }),
{
    reveal(operand_spec);
    let b1 = byte_at::<B>(s.bus, s.pc, 1);
    let base = B::peek(s.bus, b1 as u16) + 256 * B::peek(s.bus, ((b1 + 1) % 256) as u16);
    let addr = (base + s.y) % 0x10000;
    assert(zero_page_word::<B>(s.bus, b1) == base);
    assert(indexed(base as u16, s.y) == addr);
    assert(crosses_page(base as u16, addr as u16) == (page_of(base) != page_of(addr)));
    lemma_zero_and_negative(s.status, B::peek(s.bus, addr as u16));
}

/// `STA` zero page (opcode 0x85): writes A to its operand
/// address, changes no register, and moves past its 2 bytes in 3
/// cycles, page crossing or not.
pub proof fn lemma_step_sta_zero_page<B: BusModel>(s: CpuState<B::V>)
    requires
        B::peek(s.bus, s.pc) == 0x85,
    ensures
        ({
            let b1 = byte_at::<B>(s.bus, s.pc, 1);
            let addr = b1 as int;
            let (t, r) = step_spec::<B>(s);
            &&& r == Ok::<StepOutcome, CpuError>(StepOutcome::Executed { cycles: 3u8 })
            &&& t.bus == B::poke(s.bus, addr as u16, s.a)
            &&& t.a == s.a && t.x == s.x && t.y == s.y && t.status == s.status
            &&& t.pc == ((s.pc + 2) % 0x10000) as u16
        }),
{
    reveal(operand_spec);
    let b1 = byte_at::<B>(s.bus, s.pc, 1);
    let addr = b1 as int;
}

/// `STA` zero page,X (the sum wrapping inside the zero page) (opcode 0x95): writes A to its operand
/// address, changes no register, and moves past its 2 bytes in 4
/// cycles, page crossing or not.
pub proof fn lemma_step_sta_zero_page_x<B: BusModel>(s: CpuState<B::V>)
    requires
        B::peek(s.bus, s.pc) == 0x95,
    ensures
        ({
            let b1 = byte_at::<B>(s.bus, s.pc, 1);
            let addr = (b1 + s.x) % 256;
            let (t, r) = step_spec::<B>(s);
            &&& r == Ok::<StepOutcome, CpuError>(StepOutcome::Executed { cycles: 4u8 })
            &&& t.bus == B::poke(s.bus, addr as u16, s.a)
            &&& t.a == s.a && t.x == s.x && t.y == s.y && t.status == s.status
            &&& t.pc == ((s.pc + 2) % 0x10000) as u16
        }),
{
    reveal(operand_spec);
    let b1 = byte_at::<B>(s.bus, s.pc, 1);
    let addr = (b1 + s.x) % 256;
}

/// `STA` absolute (opcode 0x8D): writes A to its operand
/// address, changes no register, and moves past its 3 bytes in 4
/// cycles, page crossing or not.
pub proof fn lemma_step_sta_absolute<B: BusModel>(s: CpuState<B::V>)
    requires
        B::peek(s.bus, s.pc) == 0x8D,
    ensures
        ({
            let b1 = byte_at::<B>(s.bus, s.pc, 1);
            let b2 = byte_at::<B>(s.bus, s.pc, 2);
            let addr = b1 + 256 * b2;
            let (t, r) = step_spec::<B>(s);
            &&& r == Ok::<StepOutcome, CpuError>(StepOutcome::Executed { cycles: 4u8 })
            &&& t.bus == B::poke(s.bus, addr as u16, s.a)
            &&& t.a == s.a && t.x == s.x && t.y == s.y && t.status == s.status
            &&& t.pc == ((s.pc + 3) % 0x10000) as u16
        }),
{
    reveal(operand_spec);
    let b1 = byte_at::<B>(s.bus, s.pc, 1);
    let b2 = byte_at::<B>(s.bus, s.pc, 2);
    let addr = b1 + 256 * b2;
}

/// `STA` absolute,X (opcode 0x9D): writes A to its operand
/// address, changes no register, and moves past its 3 bytes in 5
/// cycles, page crossing or not.
pub proof fn lemma_step_sta_absolute_x<B: BusModel>(s: CpuState<B::V>)
    requires
        B::peek(s.bus, s.pc) == 0x9D,
    ensures
        ({
            let b1 = byte_at::<B>(s.bus, s.pc, 1);
            let b2 = byte_at::<B>(s.bus, s.pc, 2);
            let base = b1 + 256 * b2;
            let addr = (base + s.x) % 0x10000;
            let (t, r) = step_spec::<B>(s);
            &&& r == Ok::<StepOutcome, CpuError>(StepOutcome::Executed { cycles: 5u8 })
            &&& t.bus == B::poke(s.bus, addr as u16, s.a)
            &&& t.a == s.a && t.x == s.x && t.y == s.y && t.status == s.status
            &&& t.pc == ((s.pc + 3) % 0x10000) as u16
        }),
{
    reveal(operand_spec);
    let b1 = byte_at::<B>(s.bus, s.pc, 1);
    let b2 = byte_at::<B>(s.bus, s.pc, 2);
    let base = b1 + 256 * b2;
    let addr = (base + s.x) % 0x10000;
    assert(next_addr(next_addr(s.pc)) == ((s.pc + 2) % 0x10000) as u16);
    assert(read_word::<B>(s.bus, next_addr(s.pc)) == base);
    assert(indexed(base as u16, s.x) == addr);
    assert(crosses_page(base as u16, addr as u16) == (page_of(base) != page_of(addr)));
}

/// `STA` absolute,Y (opcode 0x99): writes A to its operand
/// address, changes no register, and moves past its 3 bytes in 5
/// cycles, page crossing or not.
#[verifier::rlimit(80)]
pub proof fn lemma_step_sta_absolute_y<B: BusModel>(s: CpuState<B::V>)
    requires
        B::peek(s.bus, s.pc) == 0x99,
    ensures
        ({
            let b1 = byte_at::<B>(s.bus, s.pc, 1);
            let b2 = byte_at::<B>(s.bus, s.pc, 2);
            let base = b1 + 256 * b2;
            let addr = (base + s.y) % 0x10000;
            let (t, r) = step_spec::<B>(s);
            &&& r == Ok::<StepOutcome, CpuError>(StepOutcome::Executed { cycles: 5u8 })
            &&& t.bus == B::poke(s.bus, addr as u16, s.a)
            &&& t.a == s.a && t.x == s.x && t.y == s.y && t.status == s.status
            &&& t.pc == ((s.pc + 3) % 0x10000) as u16
        }),
{
    reveal(operand_spec);
    let b1 = byte_at::<B>(s.bus, s.pc, 1);
    let b2 = byte_at::<B>(s.bus, s.pc, 2);
    let base = b1 + 256 * b2;
    let addr = (base + s.y) % 0x10000;
    assert(next_addr(next_addr(s.pc)) == ((s.pc + 2) % 0x10000) as u16);
    assert(read_word::<B>(s.bus, next_addr(s.pc)) == base);
    assert(indexed(base as u16, s.y) == addr);
    assert(crosses_page(base as u16, addr as u16) == (page_of(base) != page_of(addr)));
}

/// `STA` (indirect,X): through the zero-page pointer at operand + X (opcode 0x81): writes A to its operand
/// address, changes no register, and moves past its 2 bytes in 6
/// cycles, page crossing or not.
pub proof fn lemma_step_sta_indirect_x<B: BusModel>(s: CpuState<B::V>)
    requires
        B::peek(s.bus, s.pc) == 0x81,
    ensures
        ({
            let b1 = byte_at::<B>(s.bus, s.pc, 1);
            let ptr = (b1 + s.x) % 256;
            let addr = B::peek(s.bus, ptr as u16) + 256 * B::peek(s.bus, ((ptr + 1) % 256) as u16);
            let (t, r) = step_spec::<B>(s);
            &&& r == Ok::<StepOutcome, CpuError>(StepOutcome::Executed { cycles: 6u8 })
            &&& t.bus == B::poke(s.bus, addr as u16, s.a)
            &&& t.a == s.a && t.x == s.x && t.y == s.y && t.status == s.status
            &&& t.pc == ((s.pc + 2) % 0x10000) as u16
        }),
{
    reveal(operand_spec);
    let b1 = byte_at::<B>(s.bus, s.pc, 1);
    let ptr = (b1 + s.x) % 256;
    let addr = B::peek(s.bus, ptr as u16) + 256 * B::peek(s.bus, ((ptr + 1) % 256) as u16);
}

/// `STA` (indirect),Y: through the zero-page pointer at the operand, plus Y (opcode 0x91): writes A to its operand
/// address, changes no register, and moves past its 2 bytes in 6
/// cycles, page crossing or not.
#[verifier::rlimit(80)]
pub proof fn lemma_step_sta_indirect_y<B: BusModel>(s: CpuState<B::V>)
    requires
        B::peek(s.bus, s.pc) == 0x91,
    ensures
        ({
            let b1 = byte_at::<B>(s.bus, s.pc, 1);
            let base = B::peek(s.bus, b1 as u16) + 256 * B::peek(s.bus, ((b1 + 1) % 256) as u16);
            let addr = (base + s.y) % 0x10000;
            let (t, r) = step_spec::<B>(s);
            &&& r == Ok::<StepOutcome, CpuError>(StepOutcome::Executed { cycles: 6u8 })
            &&& t.bus == B::poke(s.bus, addr as u16, s.a)
            &&& t.a == s.a && t.x == s.x && t.y == s.y && t.status == s.status
            &&& t.pc == ((s.pc + 2) % 0x10000) as u16
        }),
{
    reveal(operand_spec);
    let b1 = byte_at::<B>(s.bus, s.pc, 1);
    let base = B::peek(s.bus, b1 as u16) + 256 * B::peek(s.bus, ((b1 + 1) % 256) as u16);
    let addr = (base + s.y) % 0x10000;
    assert(zero_page_word::<B>(s.bus, b1) == base);
    assert(indexed(base as u16, s.y) == addr);
    assert(crosses_page(base as u16, addr as u16) == (page_of(base) != page_of(addr)));
}

/// Where each addressing mode finds its operand, with the operand bytes
/// starting at `pc`: immediate at `pc` itself; zero page at the byte there;
/// zero page,X and ,Y at that byte plus the index, wrapping inside the zero
/// page; absolute at the little-endian word there, plus the index for
/// absolute,X and ,Y (wrapping in 16 bits, reporting whether the page
/// changed); (indirect,X) through the zero-page pointer at the byte plus X;
/// (indirect),Y through the zero-page pointer at the byte, plus Y. Implied
/// has no operand.
pub proof fn lemma_operand_modes<B: BusModel>(s: CpuState<B::V>)
    ensures
        ({
            let b1 = B::peek(s.bus, s.pc);
            let b2 = byte_at::<B>(s.bus, s.pc, 1);
            let word_here = b1 + 256 * b2;
            let pointer_x = (b1 + s.x) % 256;
            let through_x = B::peek(s.bus, pointer_x as u16) + 256 * B::peek(
                s.bus,
                ((pointer_x + 1) % 256) as u16,
            );
            let through = B::peek(s.bus, b1 as u16) + 256 * B::peek(s.bus, ((b1 + 1) % 256) as u16);
            &&& operand_spec::<B>(s, AddressingMode::Immediate) == Ok::<(u16, bool), CpuError>(
                (s.pc, false),
            )
            &&& operand_spec::<B>(s, AddressingMode::ZeroPage) == Ok::<(u16, bool), CpuError>(
                (b1 as u16, false),
            )
            &&& operand_spec::<B>(s, AddressingMode::ZeroPageX) == Ok::<(u16, bool), CpuError>(
                (((b1 + s.x) % 256) as u16, false),
            )
            &&& operand_spec::<B>(s, AddressingMode::ZeroPageY) == Ok::<(u16, bool), CpuError>(
                (((b1 + s.y) % 256) as u16, false),
            )
            &&& operand_spec::<B>(s, AddressingMode::Absolute) == Ok::<(u16, bool), CpuError>(
                (word_here as u16, false),
            )
            &&& operand_spec::<B>(s, AddressingMode::AbsoluteX) == Ok::<(u16, bool), CpuError>(
                (
                    ((word_here + s.x) % 0x10000) as u16,
                    page_of(word_here) != page_of((word_here + s.x) % 0x10000),
                ),
            )
            &&& operand_spec::<B>(s, AddressingMode::AbsoluteY) == Ok::<(u16, bool), CpuError>(
                (
                    ((word_here + s.y) % 0x10000) as u16,
                    page_of(word_here) != page_of((word_here + s.y) % 0x10000),
                ),
            )
            &&& operand_spec::<B>(s, AddressingMode::IndirectX) == Ok::<(u16, bool), CpuError>(
                (through_x as u16, false),
            )
            &&& operand_spec::<B>(s, AddressingMode::IndirectY) == Ok::<(u16, bool), CpuError>(
                (
                    ((through + s.y) % 0x10000) as u16,
                    page_of(through) != page_of((through + s.y) % 0x10000),
                ),
            )
            &&& operand_spec::<B>(s, AddressingMode::Implied) == Err::<(u16, bool), CpuError>(
                CpuError::UnsupportedAddressingMode,
            )
        }),
{
    reveal(operand_spec);
}

/// `TAX` (opcode 0xAA): copies A into X, sets `ZERO` and `NEGATIVE` from it,
/// and moves past its one byte in 2 cycles.
pub proof fn lemma_step_tax<B: BusModel>(s: CpuState<B::V>)
    requires
        B::peek(s.bus, s.pc) == 0xAA,
    ensures
        ({
            let (t, r) = step_spec::<B>(s);
            &&& r == Ok::<StepOutcome, CpuError>(StepOutcome::Executed { cycles: 2u8 })
            &&& t.x == s.a
            &&& flags_describe(s.status, t.status, s.a)
            &&& t.a == s.a && t.y == s.y && t.bus == s.bus
            &&& t.pc == ((s.pc + 1) % 0x10000) as u16
        }),
{
    lemma_zero_and_negative(s.status, s.a);
}

/// `INX` (opcode 0xE8): adds one to X, wrapping from 0xFF to 0, sets `ZERO`
/// and `NEGATIVE` from the new X, and moves past its one byte in 2 cycles.
pub proof fn lemma_step_inx<B: BusModel>(s: CpuState<B::V>)
    requires
        B::peek(s.bus, s.pc) == 0xE8,
    ensures
        ({
            let (t, r) = step_spec::<B>(s);
            &&& r == Ok::<StepOutcome, CpuError>(StepOutcome::Executed { cycles: 2u8 })
            &&& t.x == (s.x + 1) % 256
            &&& flags_describe(s.status, t.status, ((s.x + 1) % 256) as u8)
            &&& t.a == s.a && t.y == s.y && t.bus == s.bus
            &&& t.pc == ((s.pc + 1) % 0x10000) as u16
        }),
{
    lemma_zero_and_negative(s.status, ((s.x + 1) % 256) as u8);
}

/// `BRK` (opcode 0x00): halts in 7 cycles; only the program counter moves,
/// past the opcode.
pub proof fn lemma_step_brk<B: BusModel>(s: CpuState<B::V>)
    requires
        B::peek(s.bus, s.pc) == 0x00,
    ensures
        step_spec::<B>(s) == (
            CpuState { pc: ((s.pc + 1) % 0x10000) as u16, ..s },
            Ok::<StepOutcome, CpuError>(StepOutcome::Halted { cycles: 7u8 }),
        ),
{

}

/// Every opcode but those of `LDA`, `STA`, `TAX`, `INX` and `BRK` stops the
/// step with `UnknownOpcode`, naming the opcode and its address; only the
/// program counter moves, past the opcode.
pub proof fn lemma_step_unknown<B: BusModel>(s: CpuState<B::V>)
    requires
        ({
            let code = B::peek(s.bus, s.pc);
            &&& code != 0xA9 && code != 0xA5 && code != 0xB5 && code != 0xAD && code != 0xBD
            &&& code != 0xB9 && code != 0xA1 && code != 0xB1
            &&& code != 0x85 && code != 0x95 && code != 0x8D && code != 0x9D && code != 0x99
            &&& code != 0x81 && code != 0x91
            &&& code != 0xAA && code != 0xE8 && code != 0x00
        }),
    ensures
        step_spec::<B>(s) == (
            CpuState { pc: ((s.pc + 1) % 0x10000) as u16, ..s },
            Err::<StepOutcome, CpuError>(
                CpuError::UnknownOpcode { opcode: B::peek(s.bus, s.pc), address: s.pc },
            ),
        ),
{

}

/// A reset clears A, X and Y whatever they held, sets the status to 0x24,
/// keeps the bus, and takes the program counter from the little-endian
/// vector at 0xFFFC and 0xFFFD.
pub proof fn lemma_reset<B: BusModel>(s: CpuState<B::V>)
    ensures
        reset_spec::<B>(s).a == 0,
        reset_spec::<B>(s).x == 0,
        reset_spec::<B>(s).y == 0,
        reset_spec::<B>(s).status == 0x24,
        reset_spec::<B>(s).bus == s.bus,
        reset_spec::<B>(s).pc == B::peek(s.bus, 0xFFFC) + 256 * B::peek(s.bus, 0xFFFD),
{
    crate::cpu::status::lemma_reset_bits();
}

} // verus!
