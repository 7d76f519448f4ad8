//! The 6502 core: registers, fetch-decode-execute and the run loop.
//!
//! The meaning of a step is stated by `step_spec` over a `CpuState`, the
//! registers together with the bus's model (see `bus::BusModel`).

use vstd::prelude::*;

use crate::cpu::bus::{
    lemma_flat_poke_from, lemma_flat_word_round_trip, low_byte, next_addr, poke_from, read_word,
    word, writable_from, write_word, Bus, BusError, BusModel, FlatMemory, ADDRESS_SPACE_SIZE,
};
use crate::cpu::opcode::{
    decode, opcode_spec, page_cross_penalty_spec, AddressingMode, Instruction, Opcode,
};
use crate::cpu::status::{with_zero_and_negative, Status};

mod addressing;
pub mod bus;
pub mod laws;
pub mod opcode;
pub mod status;

verus! {

const PROGRAM_START: u16 = 0x8000;

const RESET_VECTOR: u16 = 0xFFFC;

const MAX_PROGRAM_SIZE: usize = 0x7FFC;

/// The registers of the CPU together with the state of its bus.
pub struct CpuState<S> {
    pub a: u8,
    pub x: u8,
    pub y: u8,
    pub status: u8,
    pub pc: u16,
    pub bus: S,
}

/// A 6502 core attached to a bus.
#[derive(Debug, Clone)]
pub struct Cpu<B> {
    register_a: u8,
    register_x: u8,
    register_y: u8,
    status: Status,
    program_counter: u16,
    bus: B,
}

impl<B: BusModel> View for Cpu<B> {
    type V = CpuState<B::V>;

    closed spec fn view(&self) -> CpuState<B::V> {
        CpuState {
            a: self.register_a,
            x: self.register_x,
            y: self.register_y,
            status: self.status@,
            pc: self.program_counter,
            bus: self.bus@,
        }
    }
}

/// What one step did: it executed an instruction, or it executed `BRK`,
/// which halts the run. Either way it took `cycles` cycles.
#[derive(Debug, Clone, Copy, PartialEq, Eq, Structural)]
pub enum StepOutcome {
    Executed { cycles: u8 },
    Halted { cycles: u8 },
}

/// How many instructions a run executed and how many cycles they took,
/// both saturating at `u64::MAX`.
#[derive(Debug, Default, Clone, Copy, PartialEq, Eq, Structural)]
pub struct RunStats {
    pub instructions: u64,
    pub cycles: u64,
}

/// Why the CPU stopped with an error.
#[derive(Debug, Clone, Copy, PartialEq, Eq, Structural)]
pub enum CpuError {
    Bus(BusError),
    UnknownOpcode { opcode: u8, address: u16 },
    ProgramTooLarge { len: usize, max: usize },
    UnsupportedAddressingMode,
}

impl From<BusError> for CpuError {
    fn from(value: BusError) -> (r: Self) {
        CpuError::Bus(value)
    }
}

impl vstd::std_specs::convert::FromSpecImpl<BusError> for CpuError {
    open spec fn obeys_from_spec() -> bool {
        true
    }

    open spec fn from_spec(v: BusError) -> CpuError {
        CpuError::Bus(v)
    }
}

/// Where an instruction's operand is, and whether indexing crossed a page.
#[derive(Debug, Clone, Copy)]
pub(crate) struct OperandAddress {
    pub address: u16,
    pub page_crossed: bool,
}

/// What executing one instruction did.
#[derive(Debug, Clone, Copy)]
struct Execution {
    halted: bool,
    page_crossed: bool,
    pc_changed: bool,
}

impl Execution {
    fn normal(page_crossed: bool) -> (r: Self)
        ensures
            r == (Execution { halted: false, page_crossed, pc_changed: false }),
    {
        Self { halted: false, page_crossed, pc_changed: false }
    }
}

/// The status register after a reset: interrupts disabled, unused bit set.
pub open spec fn reset_status() -> u8 {
    Status::INTERRUPT_DISABLE | Status::UNUSED
}

/// The address before `addr`, wrapping from `0` to `0xFFFF`.
pub open spec fn prev_addr(addr: u16) -> u16 {
    ((addr + 0xFFFF) % 0x10000) as u16
}

/// The little-endian word at `ptr` and `ptr + 1` inside the zero page.
pub open spec fn zero_page_word<B: BusModel>(bus: B::V, ptr: u8) -> u16 {
    word(B::peek(bus, ptr as u16), B::peek(bus, ((ptr + 1) % 256) as u16))
}

/// Whether `base` and `address` lie on different 256-byte pages.
pub open spec fn crosses_page(base: u16, address: u16) -> bool {
    base / 256 != address / 256
}

/// `base` plus an index register, wrapping in 16 bits.
pub open spec fn indexed(base: u16, index: u8) -> u16 {
    ((base + index) % 0x10000) as u16
}

/// The operand address of an instruction in `mode` whose operand bytes start
/// at `s.pc`, and whether indexing crossed a page.
#[verifier::opaque]
pub open spec fn operand_spec<B: BusModel>(s: CpuState<B::V>, mode: AddressingMode) -> Result<
    (u16, bool),
    CpuError,
> {
    let operand = B::peek(s.bus, s.pc);
    match mode {
        AddressingMode::Immediate => Ok((s.pc, false)),
        AddressingMode::ZeroPage => Ok((operand as u16, false)),
        AddressingMode::ZeroPageX => Ok((((operand + s.x) % 256) as u16, false)),
        AddressingMode::ZeroPageY => Ok((((operand + s.y) % 256) as u16, false)),
        AddressingMode::Absolute => Ok((read_word::<B>(s.bus, s.pc), false)),
        AddressingMode::AbsoluteX => {
            let base = read_word::<B>(s.bus, s.pc);
            Ok((indexed(base, s.x), crosses_page(base, indexed(base, s.x))))
        },
        AddressingMode::AbsoluteY => {
            let base = read_word::<B>(s.bus, s.pc);
            Ok((indexed(base, s.y), crosses_page(base, indexed(base, s.y))))
        },
        AddressingMode::IndirectX => Ok(
            (zero_page_word::<B>(s.bus, ((operand + s.x) % 256) as u8), false),
        ),
        AddressingMode::IndirectY => {
            let base = zero_page_word::<B>(s.bus, operand);
            Ok((indexed(base, s.y), crosses_page(base, indexed(base, s.y))))
        },
        AddressingMode::Implied => Err(CpuError::UnsupportedAddressingMode),
    }
}

/// Whether the bus accepts the reads that finding the operand makes.
pub open spec fn operand_readable<B: BusModel>(s: CpuState<B::V>, mode: AddressingMode) -> bool {
    let operand = B::peek(s.bus, s.pc);
    match mode {
        AddressingMode::Immediate | AddressingMode::Implied => true,
        AddressingMode::ZeroPage | AddressingMode::ZeroPageX | AddressingMode::ZeroPageY => B::readable(
            s.bus,
            s.pc,
        ),
        AddressingMode::Absolute | AddressingMode::AbsoluteX | AddressingMode::AbsoluteY => {
            B::readable(s.bus, s.pc) && B::readable(s.bus, next_addr(s.pc))
        },
        AddressingMode::IndirectX => {
            let ptr = ((operand + s.x) % 256) as u8;
            &&& B::readable(s.bus, s.pc)
            &&& B::readable(s.bus, ptr as u16)
            &&& B::readable(s.bus, ((ptr + 1) % 256) as u16)
        },
        AddressingMode::IndirectY => {
            &&& B::readable(s.bus, s.pc)
            &&& B::readable(s.bus, operand as u16)
            &&& B::readable(s.bus, ((operand + 1) % 256) as u16)
        },
    }
}

/// Executing `opcode` with its operand bytes at `s.pc`: the new state, whether
/// the instruction halts, and whether its operand address crossed a page.
pub open spec fn execute_spec<B: BusModel>(s: CpuState<B::V>, opcode: Opcode) -> Result<
    (CpuState<B::V>, bool, bool),
    CpuError,
> {
    match opcode.instruction {
        Instruction::Lda => match operand_spec::<B>(s, opcode.mode) {
            Ok((address, crossed)) => {
                let value = B::peek(s.bus, address);
                Ok(
                    (
                        CpuState { a: value, status: with_zero_and_negative(s.status, value), ..s },
                        false,
                        crossed,
                    ),
                )
            },
            Err(e) => Err(e),
        },
        Instruction::Sta => match operand_spec::<B>(s, opcode.mode) {
            Ok((address, crossed)) => Ok(
                (CpuState { bus: B::poke(s.bus, address, s.a), ..s }, false, crossed),
            ),
            Err(e) => Err(e),
        },
        Instruction::Tax => Ok(
            (CpuState { x: s.a, status: with_zero_and_negative(s.status, s.a), ..s }, false, false),
        ),
        Instruction::Inx => {
            let x = ((s.x + 1) % 256) as u8;
            Ok((CpuState { x, status: with_zero_and_negative(s.status, x), ..s }, false, false))
        },
        Instruction::Brk => Ok((s, true, false)),
        _ => Err(
            CpuError::UnknownOpcode {
                opcode: B::peek(s.bus, prev_addr(s.pc)),
                address: prev_addr(s.pc),
            },
        ),
    }
}

/// Whether the bus accepts the accesses that executing `opcode` makes.
pub open spec fn execute_allowed<B: BusModel>(s: CpuState<B::V>, opcode: Opcode) -> bool {
    match opcode.instruction {
        Instruction::Lda => {
            &&& operand_readable::<B>(s, opcode.mode)
            &&& operand_spec::<B>(s, opcode.mode) matches Ok((address, _)) ==> B::readable(
                s.bus,
                address,
            )
        },
        Instruction::Sta => {
            &&& operand_readable::<B>(s, opcode.mode)
            &&& operand_spec::<B>(s, opcode.mode) matches Ok((address, _)) ==> B::writable(
                s.bus,
                address,
            )
        },
        Instruction::Tax | Instruction::Inx | Instruction::Brk => true,
        _ => B::readable(s.bus, prev_addr(s.pc)),
    }
}

/// The cycles a step takes: the opcode's base count, plus one when the
/// operand address crossed a page and the instruction pays for that.
pub open spec fn step_cycles(opcode: Opcode, crossed: bool) -> u8 {
    let extra: int = if page_cross_penalty_spec(opcode) && crossed {
        1
    } else {
        0
    };
    if opcode.cycles + extra > 255 {
        255
    } else {
        (opcode.cycles + extra) as u8
    }
}

/// One fetch-decode-execute step from state `s`: the state after it and
/// what it reports.
///
/// The opcode at `pc` is fetched and `pc` advances past it. An opcode that
/// is not an official instruction, or one that this core does not execute
/// (any but `LDA`, `STA`, `TAX`, `INX` and `BRK`), is an `UnknownOpcode`
/// error. Otherwise the instruction executes and `pc` moves past its
/// operand bytes.
pub open spec fn step_spec<B: BusModel>(s: CpuState<B::V>) -> (
    CpuState<B::V>,
    Result<StepOutcome, CpuError>,
) {
    let code = B::peek(s.bus, s.pc);
    let opcode = opcode_spec(code);
    let fetched = CpuState { pc: next_addr(s.pc), ..s };
    if opcode.instruction == Instruction::Illegal {
        (fetched, Err(CpuError::UnknownOpcode { opcode: code, address: s.pc }))
    } else {
        match execute_spec::<B>(fetched, opcode) {
            Err(e) => (fetched, Err(e)),
            Ok((after, halted, crossed)) => {
                let operand_len: int = if opcode.len >= 1 {
                    opcode.len - 1
                } else {
                    0
                };
                let done = CpuState { pc: ((fetched.pc + operand_len) % 0x10000) as u16, ..after };
                let cycles = step_cycles(opcode, crossed);
                if halted {
                    (done, Ok(StepOutcome::Halted { cycles }))
                } else {
                    (done, Ok(StepOutcome::Executed { cycles }))
                }
            },
        }
    }
}

/// Whether the bus accepts every access that the step from `s` makes.
pub open spec fn step_allowed<B: BusModel>(s: CpuState<B::V>) -> bool {
    let opcode = opcode_spec(B::peek(s.bus, s.pc));
    &&& B::readable(s.bus, s.pc)
    &&& opcode.instruction != Instruction::Illegal ==> execute_allowed::<B>(
        CpuState { pc: next_addr(s.pc), ..s },
        opcode,
    )
}

/// `n` plus `k`, saturating at `u64::MAX`.
pub open spec fn saturating(n: u64, k: int) -> u64 {
    if n + k > u64::MAX {
        u64::MAX
    } else {
        (n + k) as u64
    }
}

/// The statistics after counting one more instruction of `cycles` cycles.
pub open spec fn count_step(stats: RunStats, cycles: u8) -> RunStats {
    RunStats {
        instructions: saturating(stats.instructions, 1),
        cycles: saturating(stats.cycles, cycles as int),
    }
}

/// Running from `s` for at most `fuel` more steps, having counted `stats`:
/// steps go on until one halts or fails, or until the fuel is spent.
pub open spec fn run_spec<B: BusModel>(s: CpuState<B::V>, fuel: nat, stats: RunStats) -> (
    CpuState<B::V>,
    Result<RunStats, CpuError>,
)
    decreases fuel,
{
    if fuel == 0 {
        (s, Ok(stats))
    } else {
        let (next, outcome) = step_spec::<B>(s);
        match outcome {
            Err(e) => (next, Err(e)),
            Ok(StepOutcome::Halted { cycles }) => (next, Ok(count_step(stats, cycles))),
            Ok(StepOutcome::Executed { cycles }) => run_spec::<B>(
                next,
                (fuel - 1) as nat,
                count_step(stats, cycles),
            ),
        }
    }
}

/// Whether the bus accepts every access of a run from `s` of at most `fuel`
/// steps.
pub open spec fn run_allowed<B: BusModel>(s: CpuState<B::V>, fuel: nat) -> bool
    decreases fuel,
{
    fuel == 0 || {
        &&& step_allowed::<B>(s)
        &&& step_spec::<B>(s).1 matches Ok(StepOutcome::Executed { .. }) ==> run_allowed::<B>(
            step_spec::<B>(s).0,
            (fuel - 1) as nat,
        )
    }
}

/// How many steps `run` takes at most.
pub open spec fn run_budget() -> nat {
    u64::MAX as nat
}

/// The statistics a run starts from.
pub open spec fn no_stats() -> RunStats {
    RunStats { instructions: 0, cycles: 0 }
}

/// The state after a reset: registers cleared, status at `reset_status()`,
/// `pc` read from the reset vector at `0xFFFC`.
pub open spec fn reset_spec<B: BusModel>(s: CpuState<B::V>) -> CpuState<B::V> {
    CpuState { a: 0, x: 0, y: 0, status: reset_status(), pc: read_word::<B>(s.bus, 0xFFFC), ..s }
}

/// Whether the bus accepts the reads of a reset.
pub open spec fn reset_allowed<B: BusModel>(s: CpuState<B::V>) -> bool {
    B::readable(s.bus, 0xFFFC) && B::readable(s.bus, 0xFFFD)
}

/// Loading `program`: a program longer than `0x7FFC` bytes is refused;
/// otherwise it is copied to `0x8000` on and the reset vector is pointed
/// at it.
pub open spec fn load_spec<B: BusModel>(s: CpuState<B::V>, program: Seq<u8>) -> (
    CpuState<B::V>,
    Result<(), CpuError>,
) {
    if program.len() > 0x7FFC {
        (s, Err(CpuError::ProgramTooLarge { len: program.len() as usize, max: 0x7FFC }))
    } else {
        (
            CpuState {
                bus: write_word::<B>(poke_from::<B>(s.bus, 0x8000, program), 0xFFFC, 0x8000),
                ..s
            },
            Ok(()),
        )
    }
}

/// Whether the bus accepts the writes of loading `program`.
pub open spec fn load_allowed<B: BusModel>(s: CpuState<B::V>, program: Seq<u8>) -> bool {
    let loaded = poke_from::<B>(s.bus, 0x8000, program);
    program.len() <= 0x7FFC ==> {
        &&& writable_from::<B>(s.bus, 0x8000, program)
        &&& B::writable(loaded, 0xFFFC)
        &&& B::writable(B::poke(loaded, 0xFFFC, low_byte(0x8000)), 0xFFFD)
    }
}

impl<B: Bus> Cpu<B> {
    /// A CPU with cleared registers attached to `bus`.
    pub fn new(bus: B) -> (r: Self)
        ensures
            r@ == (CpuState { a: 0, x: 0, y: 0, status: reset_status(), pc: 0, bus: bus@ }),
    {
        Self {
            register_a: 0,
            register_x: 0,
            register_y: 0,
            status: Status::default(),
            program_counter: 0,
            bus,
        }
    }

    #[must_use]
    pub fn a(&self) -> (r: u8)
        ensures
            r == self@.a,
    {
        self.register_a
    }

    #[must_use]
    pub fn x(&self) -> (r: u8)
        ensures
            r == self@.x,
    {
        self.register_x
    }

    #[must_use]
    pub fn y(&self) -> (r: u8)
        ensures
            r == self@.y,
    {
        self.register_y
    }

    #[must_use]
    pub fn status(&self) -> (r: Status)
        ensures
            r@ == self@.status,
    {
        self.status
    }

    /// The bus, for the caller to change; the registers stay as they are.
    pub fn bus_mut(&mut self) -> (r: &mut B)
        ensures
            (*r)@ == old(self)@.bus,
            final(self)@ == (CpuState { bus: (*final(r))@, ..old(self)@ }),
    {
        &mut self.bus
    }

    #[must_use]
    pub fn into_bus(self) -> (r: B)
        ensures
            r@ == self@.bus,
    {
        self.bus
    }

    /// Loads `program`, resets, and runs until `BRK`. An error of the load
    /// is not reported: the reset and the run happen all the same.
    pub fn load_and_run(&mut self, program: &[u8]) -> (r: Result<RunStats, CpuError>)
        requires
            load_allowed::<B>(old(self)@, program@),
            reset_allowed::<B>(load_spec::<B>(old(self)@, program@).0),
            run_allowed::<B>(reset_spec::<B>(load_spec::<B>(old(self)@, program@).0), run_budget()),
        ensures
            (final(self)@, r) == run_spec::<B>(
                reset_spec::<B>(load_spec::<B>(old(self)@, program@).0),
                run_budget(),
                no_stats(),
            ),
    {
        let _ = self.load(program);
        self.reset();
        self.run()
    }

    /// Copies `program` to `0x8000` and points the reset vector at it.
    pub fn load(&mut self, program: &[u8]) -> (r: Result<(), CpuError>)
        requires
            load_allowed::<B>(old(self)@, program@),
        ensures
            (final(self)@, r) == load_spec::<B>(old(self)@, program@),
    {
        if program.len() > MAX_PROGRAM_SIZE {
            return Err(CpuError::ProgramTooLarge { len: program.len(), max: MAX_PROGRAM_SIZE });
        }
        match self.bus.load(PROGRAM_START, program) {
            Ok(()) => {},
            Err(e) => return Err(CpuError::from(e)),
        }
        self.bus.write_u16(RESET_VECTOR, PROGRAM_START);
        Ok(())
    }

    /// Steps until an instruction halts or fails; a run that has neither
    /// halted nor failed after `u64::MAX` instructions stops there.
    pub fn run(&mut self) -> (r: Result<RunStats, CpuError>)
        requires
            run_allowed::<B>(old(self)@, run_budget()),
        ensures
            (final(self)@, r) == run_spec::<B>(old(self)@, run_budget(), no_stats()),
    {
        let mut stats = RunStats { instructions: 0, cycles: 0 };
        let mut budget: u64 = u64::MAX;
        loop
            invariant
                run_allowed::<B>(self@, budget as nat),
                run_spec::<B>(self@, budget as nat, stats) == run_spec::<B>(
                    old(self)@,
                    run_budget(),
                    no_stats(),
                ),
            decreases budget,
        {
            if budget == 0 {
                return Ok(stats);
            }
            match self.step() {
                Err(e) => return Err(e),
                Ok(StepOutcome::Executed { cycles }) => {
                    stats.instructions = stats.instructions.saturating_add(1);
                    stats.cycles = stats.cycles.saturating_add(u64::from(cycles));
                },
                Ok(StepOutcome::Halted { cycles }) => {
                    stats.instructions = stats.instructions.saturating_add(1);
                    stats.cycles = stats.cycles.saturating_add(u64::from(cycles));
                    return Ok(stats);
                },
            }
            budget = budget - 1;
        }
    }

    /// Fetches, decodes and executes one instruction.
    pub fn step(&mut self) -> (r: Result<StepOutcome, CpuError>)
        requires
            step_allowed::<B>(old(self)@),
        ensures
            (final(self)@, r) == step_spec::<B>(old(self)@),
    {
        let opcode_addr = self.program_counter;
        let code = self.bus.read(self.program_counter);
        self.program_counter = self.program_counter.wrapping_add(1);
        let opcode = decode(code);
        if opcode.instruction == Instruction::Illegal {
            return Err(CpuError::UnknownOpcode { opcode: code, address: opcode_addr });
        }
        let operand_pc = self.program_counter;
        let execution = match self.execution(opcode) {
            Ok(execution) => execution,
            Err(e) => return Err(e),
        };
        if !execution.pc_changed {
            self.program_counter = operand_pc.wrapping_add(u16::from(opcode.len.saturating_sub(1)));
        }
        let extra_cycle: u8 = if opcode.page_cross_penalty() && execution.page_crossed {
            1
        } else {
            0
        };
        let cycles = opcode.cycles.saturating_add(extra_cycle);
        if execution.halted {
            Ok(StepOutcome::Halted { cycles })
        } else {
            Ok(StepOutcome::Executed { cycles })
        }
    }

    /// Clears the registers and jumps through the reset vector.
    pub fn reset(&mut self)
        requires
            reset_allowed::<B>(old(self)@),
        ensures
            final(self)@ == reset_spec::<B>(old(self)@),
    {
        self.register_a = 0;
        self.register_x = 0;
        self.register_y = 0;
        self.status = Status::default();
        self.program_counter = self.bus.read_u16(RESET_VECTOR);
    }

    fn execution(&mut self, opcode: Opcode) -> (r: Result<Execution, CpuError>)
        requires
            execute_allowed::<B>(old(self)@, opcode),
        ensures
            match r {
                Ok(e) => !e.pc_changed && execute_spec::<B>(old(self)@, opcode) == Ok::<
                    (CpuState<B::V>, bool, bool),
                    CpuError,
                >((final(self)@, e.halted, e.page_crossed)),
                Err(e) => final(self)@ == old(self)@ && execute_spec::<B>(old(self)@, opcode)
                    == Err::<(CpuState<B::V>, bool, bool), CpuError>(e),
            },
    {
        match opcode.instruction {
            Instruction::Lda => {
                let operand = match self.operand_address(opcode.mode) {
                    Ok(operand) => operand,
                    Err(e) => return Err(e),
                };
                self.register_a = self.bus.read(operand.address);
                self.status.update_zero_and_negative(self.register_a);
                Ok(Execution::normal(operand.page_crossed))
            },
            Instruction::Sta => {
                let operand = match self.operand_address(opcode.mode) {
                    Ok(operand) => operand,
                    Err(e) => return Err(e),
                };
                self.bus.write(operand.address, self.register_a);
                Ok(Execution::normal(operand.page_crossed))
            },
            Instruction::Tax => {
                self.register_x = self.register_a;
                self.status.update_zero_and_negative(self.register_x);
                Ok(Execution::normal(false))
            },
            Instruction::Inx => {
                self.register_x = self.register_x.wrapping_add(1);
                self.status.update_zero_and_negative(self.register_x);
                Ok(Execution::normal(false))
            },
            Instruction::Brk => Ok(Execution { halted: true, page_crossed: false, pc_changed: false }),
            _ => Err(
                CpuError::UnknownOpcode {
                    opcode: self.bus.read(self.program_counter.wrapping_sub(1)),
                    address: self.program_counter.wrapping_sub(1),
                },
            ),
        }
    }
}

impl Cpu<FlatMemory> {
    /// A CPU attached to a flat memory of zeros.
    #[must_use]
    pub fn with_flat_memory() -> (r: Self)
        ensures
            r@ == (CpuState {
                a: 0,
                x: 0,
                y: 0,
                status: reset_status(),
                pc: 0,
                bus: Seq::new(0x10000, |i: int| 0u8),
            }),
    {
        Self::new(FlatMemory::new())
    }
}


/// A flat memory accepts every access, so every step and every run on it is
/// allowed.
pub proof fn lemma_flat_run_allowed(s: CpuState<Seq<u8>>, fuel: nat)
    ensures
        step_allowed::<FlatMemory>(s),
        run_allowed::<FlatMemory>(s, fuel),
    decreases fuel,
{
    reveal(operand_spec);
    if fuel > 0 {
        lemma_flat_run_allowed(step_spec::<FlatMemory>(s).0, (fuel - 1) as nat);
    }
}

/// A flat memory accepts the writes of every load and the reads of every
/// reset.
pub proof fn lemma_flat_load_and_reset_allowed(s: CpuState<Seq<u8>>, program: Seq<u8>)
    ensures
        load_allowed::<FlatMemory>(s, program),
        reset_allowed::<FlatMemory>(s),
{
    lemma_flat_writable_from(s.bus, 0x8000, program);
}

/// A flat memory accepts the writes of every load, from any address on.
pub proof fn lemma_flat_writable_from(state: Seq<u8>, start: int, bytes: Seq<u8>)
    ensures
        writable_from::<FlatMemory>(state, start, bytes),
    decreases bytes.len(),
{
    if bytes.len() > 0 {
        lemma_flat_writable_from(state, start, bytes.drop_last());
    }
}

/// After a program is loaded into a flat memory, a reset starts it: the
/// program counter is `0x8000`, where the program's bytes now are.
pub proof fn lemma_load_then_reset_starts_program(s: CpuState<Seq<u8>>, program: Seq<u8>)
    requires
        s.bus.len() == ADDRESS_SPACE_SIZE,
        program.len() <= 0x7FFC,
    ensures
        load_spec::<FlatMemory>(s, program).1 is Ok,
        reset_spec::<FlatMemory>(load_spec::<FlatMemory>(s, program).0).pc == 0x8000,
        forall|i: int|
            0 <= i < program.len() ==> FlatMemory::peek(
                reset_spec::<FlatMemory>(load_spec::<FlatMemory>(s, program).0).bus,
                (0x8000 + i) as u16,
            ) == program[i],
{
    lemma_flat_poke_from(s.bus, 0x8000, program);
    let loaded = poke_from::<FlatMemory>(s.bus, 0x8000, program);
    lemma_flat_word_round_trip(loaded, 0xFFFC, 0x8000);
    assert forall|i: int| 0 <= i < program.len() implies FlatMemory::peek(
        write_word::<FlatMemory>(loaded, 0xFFFC, 0x8000),
        (0x8000 + i) as u16,
    ) == program[i] by {
        assert(loaded[0x8000 + i] == program[i]);
    }
}


/// The state after `n` steps from `s`.
pub open spec fn steps<B: BusModel>(s: CpuState<B::V>, n: nat) -> CpuState<B::V>
    decreases n,
{
    if n == 0 {
        s
    } else {
        steps::<B>(step_spec::<B>(s).0, (n - 1) as nat)
    }
}

/// The cycles that a step's outcome reports (none for an error).
pub open spec fn outcome_cycles(outcome: Result<StepOutcome, CpuError>) -> int {
    match outcome {
        Ok(StepOutcome::Executed { cycles }) => cycles as int,
        Ok(StepOutcome::Halted { cycles }) => cycles as int,
        Err(_) => 0,
    }
}

/// The cycles of the first `n` steps from `s`, added up.
pub open spec fn cycles_of_steps<B: BusModel>(s: CpuState<B::V>, n: nat) -> int
    decreases n,
{
    if n == 0 {
        0
    } else {
        outcome_cycles(step_spec::<B>(s).1) + cycles_of_steps::<B>(
            step_spec::<B>(s).0,
            (n - 1) as nat,
        )
    }
}

/// Whether the steps from `s` execute `n - 1` instructions and then halt on
/// the `n`-th.
pub open spec fn halts_after<B: BusModel>(s: CpuState<B::V>, n: nat) -> bool
    decreases n,
{
    if n == 0 {
        false
    } else if n == 1 {
        step_spec::<B>(s).1 matches Ok(StepOutcome::Halted { .. })
    } else {
        &&& step_spec::<B>(s).1 matches Ok(StepOutcome::Executed { .. })
        &&& halts_after::<B>(step_spec::<B>(s).0, (n - 1) as nat)
    }
}

proof fn lemma_saturating_twice(n: u64, k: int, m: int)
    requires
        k >= 0,
        m >= 0,
    ensures
        saturating(saturating(n, k), m) == saturating(n, k + m),
{
}

proof fn lemma_run_halting_from<B: BusModel>(s: CpuState<B::V>, n: nat, fuel: nat, stats: RunStats)
    requires
        halts_after::<B>(s, n),
        n <= fuel,
    ensures
        run_spec::<B>(s, fuel, stats) == (
            steps::<B>(s, n),
            Ok::<RunStats, CpuError>(
                RunStats {
                    instructions: saturating(stats.instructions, n as int),
                    cycles: saturating(stats.cycles, cycles_of_steps::<B>(s, n)),
                },
            ),
        ),
    decreases n,
{
    let (next, outcome) = step_spec::<B>(s);
    let c = outcome_cycles(outcome);
    assert(c >= 0);
    if n == 1 {
        assert(steps::<B>(next, 0) == next);
        assert(cycles_of_steps::<B>(next, 0) == 0);
    } else {
        let counted = count_step(stats, outcome->Ok_0->Executed_cycles);
        lemma_run_halting_from::<B>(next, (n - 1) as nat, (fuel - 1) as nat, counted);
        lemma_saturating_twice(stats.instructions, 1, n - 1);
        lemma_cycles_of_steps_nonnegative::<B>(next, (n - 1) as nat);
        lemma_saturating_twice(stats.cycles, c, cycles_of_steps::<B>(next, (n - 1) as nat));
    }
}

proof fn lemma_cycles_of_steps_nonnegative<B: BusModel>(s: CpuState<B::V>, n: nat)
    ensures
        cycles_of_steps::<B>(s, n) >= 0,
    decreases n,
{
    if n > 0 {
        lemma_cycles_of_steps_nonnegative::<B>(step_spec::<B>(s).0, (n - 1) as nat);
    }
}

/// A run whose `n`-th step halts, after `n - 1` steps that executed, stops
/// right there: it reports `n` instructions and the sum of their cycles
/// (saturating at `u64::MAX`), and leaves the state after exactly those `n`
/// steps.
pub proof fn lemma_run_halting<B: BusModel>(s: CpuState<B::V>, n: nat)
    requires
        halts_after::<B>(s, n),
        n <= u64::MAX,
    ensures
        run_spec::<B>(s, run_budget(), no_stats()) == (
            steps::<B>(s, n),
            Ok::<RunStats, CpuError>(
                RunStats {
                    instructions: n as u64,
                    cycles: saturating(0, cycles_of_steps::<B>(s, n)),
                },
            ),
        ),
{
    lemma_run_halting_from::<B>(s, n, run_budget(), no_stats());
}

} // verus!
