//! Processor state, operand resolution and the fetch-decode-execute step.

use vstd::prelude::*;

use crate::flags::CPUFlags;
use crate::instruction::{AddressingMode, IndexedBy, Instruction, Mnemonic};
use crate::instruction_evaluation::evaluate_other::{evaluate_nop, nop_result};
use crate::instruction_evaluation::evaluate_transfer::{
    evaluate_load, evaluate_store, evaluate_transfer, load_result, store_memory, store_result,
    transfer_result,
};
use crate::instruction_evaluation::types::InstructionResult;
use crate::memory::Memory;
use crate::util::{
    bytes_to_word, lemma_wrap16_twice, lemma_wrapping_add, page_of, pages_differ,
    spec_bytes_to_word, wrap16, wrap8,
};

verus! {

/// Registers, program counter and status flags.
#[derive(Clone, Copy, Debug, PartialEq, Eq, Structural)]
pub struct CPUState {
    pub a: u8,
    pub x: u8,
    pub y: u8,
    pub s: u8,
    pub pc: u16,
    pub flags: CPUFlags,
}

/// Running totals since the processor was built.
#[derive(Clone, Copy, Debug, PartialEq, Eq, Structural)]
pub struct CPUStats {
    pub total_cycles: usize,
    pub instructions: usize,
}

/// The processor: its state, its statistics and the memory that it owns.
#[derive(Debug, PartialEq)]
pub struct CPU {
    state: CPUState,
    stats: CPUStats,
    memory: Memory,
    /// Whether the last address resolution crossed a page boundary.
    page_crossed: bool,
}

/// What a processor holds, with the memory as 65536 bytes in address order.
pub struct CPUView {
    pub state: CPUState,
    pub stats: CPUStats,
    pub memory: Seq<u8>,
    pub page_crossed: bool,
}

/// An operand's effective address, and whether adding the index register
/// left the page of the base address.
pub struct Resolution {
    pub address: u16,
    pub page_crossed: bool,
}

/// The little-endian word at `addr` and the address after it, modulo 65536.
pub open spec fn spec_read_word(memory: Seq<u8>, addr: u16) -> u16 {
    spec_bytes_to_word(memory[addr as int], memory[wrap16(addr + 1) as int])
}

/// The little-endian word at the zero-page address `addr`. The second byte
/// comes from the zero page too: the address after 0xFF is 0x00.
pub open spec fn spec_read_word_zp(memory: Seq<u8>, addr: u8) -> u16 {
    spec_bytes_to_word(memory[addr as int], memory[wrap8(addr + 1) as int])
}

/// The address of the first operand byte of the instruction at `state.pc`:
/// the byte after the opcode.
pub open spec fn operand_address(state: CPUState) -> u16 {
    wrap16(state.pc + 1)
}

/// Where the operand of the instruction lies whose opcode is at `state.pc`.
/// The operand bytes are read from the addresses after the opcode. Only the
/// modes of `AddressingMode::is_resolvable` name an operand; for the others
/// the result has no meaning.
pub open spec fn resolve(mode: AddressingMode, state: CPUState, memory: Seq<u8>) -> Resolution {
    let operand = operand_address(state);
    match mode {
        AddressingMode::Implied => Resolution { address: operand, page_crossed: false },
        AddressingMode::Immediate => Resolution { address: operand, page_crossed: false },
        AddressingMode::ZeroPage(indexed_by) => Resolution {
            address: wrap8(memory[operand as int] + state.index(indexed_by)) as u16,
            page_crossed: false,
        },
        AddressingMode::Absolute(indexed_by) => {
            let base = spec_read_word(memory, operand);
            let address = wrap16(base + state.index(indexed_by));
            Resolution { address, page_crossed: page_of(base) != page_of(address) }
        },
        AddressingMode::Indirect(IndexedBy::Y) => {
            let base = spec_read_word_zp(memory, memory[operand as int]);
            let address = wrap16(base + state.y);
            Resolution { address, page_crossed: page_of(base) != page_of(address) }
        },
        AddressingMode::Indirect(_) => Resolution {
            address: spec_read_word_zp(memory, wrap8(memory[operand as int] + state.x)),
            page_crossed: false,
        },
    }
}

/// A byte that is no opcode of the modeled instruction set, and the address
/// that it was fetched from.
#[derive(Clone, Copy, Debug, PartialEq, Eq, Structural)]
pub struct DecodeError {
    pub opcode: u8,
    pub address: u16,
}

/// The most cycles that one instruction costs.
pub const MAX_CYCLES: usize = 6;

/// What evaluating `instruction` returns on a state whose program counter is
/// at the instruction's opcode.
pub open spec fn evaluation(state: CPUState, memory: Seq<u8>, instruction: Instruction) -> InstructionResult {
    if instruction.mnemonic.is_load() {
        load_result(state, memory, instruction.mnemonic, instruction.addressing_mode)
    } else if instruction.mnemonic.is_store() {
        store_result(state, instruction.addressing_mode)
    } else if instruction.mnemonic.is_transfer() {
        transfer_result(state, instruction.mnemonic)
    } else {
        nop_result(state)
    }
}

/// What evaluating `instruction` leaves in the processor: a store writes
/// memory, loads and stores record the page crossing, and nothing else
/// changes before the result is committed.
pub open spec fn evaluated(view: CPUView, instruction: Instruction) -> CPUView {
    if instruction.mnemonic.is_load() {
        CPU::resolved(view, instruction.addressing_mode)
    } else if instruction.mnemonic.is_store() {
        CPUView {
            memory: store_memory(
                view.state,
                view.memory,
                instruction.mnemonic,
                instruction.addressing_mode,
            ),
            ..CPU::resolved(view, instruction.addressing_mode)
        }
    } else {
        view
    }
}

/// The instruction at the program counter, if the byte there is an opcode.
pub open spec fn current_instruction(view: CPUView) -> Option<Instruction> {
    Instruction::spec_from_byte(view.memory[view.state.pc as int])
}

/// One fetch-decode-execute step: the opcode at the program counter is
/// decoded, the instruction is evaluated on the state as it is, the
/// evaluator's new state is committed and its cycles are counted. `None`
/// where the byte at the program counter is no opcode.
pub open spec fn step_of(view: CPUView) -> Option<CPUView> {
    match current_instruction(view) {
        None => None,
        Some(instruction) => {
            let result = evaluation(view.state, view.memory, instruction);
            Some(
                CPUView {
                    state: result.state,
                    stats: CPUStats {
                        total_cycles: (view.stats.total_cycles + result.cycles) as usize,
                        instructions: (view.stats.instructions + 1) as usize,
                    },
                    ..evaluated(view, instruction)
                },
            )
        },
    }
}

/// The error that a step reports where the byte at the program counter is
/// no opcode.
pub open spec fn decode_error_of(view: CPUView) -> DecodeError {
    DecodeError { opcode: view.memory[view.state.pc as int], address: view.state.pc }
}

/// Up to `n` steps, one after the other, stopping before the first byte that
/// is no opcode: the processor as it is then, and the error if it stopped.
pub open spec fn steps_of(view: CPUView, n: nat) -> (CPUView, Option<DecodeError>)
    decreases n,
{
    if n == 0 {
        (view, None)
    } else {
        match step_of(view) {
            None => (view, Some(decode_error_of(view))),
            Some(next) => steps_of(next, (n - 1) as nat),
        }
    }
}

/// The memory after `bytes` were written to `address` and the addresses after
/// it, modulo 65536, first byte first.
pub open spec fn loaded(memory: Seq<u8>, address: u16, bytes: Seq<u8>) -> Seq<u8>
    decreases bytes.len(),
{
    if bytes.len() == 0 {
        memory
    } else {
        loaded(memory, address, bytes.drop_last()).update(
            wrap16(address + bytes.len() - 1) as int,
            bytes.last(),
        )
    }
}

impl CPUState {
    /// The value that an index register adds to a base address; 0 without one.
    pub open spec fn index(self, indexed_by: IndexedBy) -> u8 {
        match indexed_by {
            IndexedBy::NoIndex => 0,
            IndexedBy::X => self.x,
            IndexedBy::Y => self.y,
        }
    }

    /// This state with the program counter moved on by `n` bytes, modulo 65536.
    pub open spec fn advanced(self, n: int) -> CPUState {
        CPUState { pc: wrap16(self.pc + n), ..self }
    }

    /// Moving the program counter on in two steps is moving it on by the sum.
    pub proof fn lemma_advanced_twice(self, a: int, b: int)
        requires
            0 <= a <= 0x1_0000,
            0 <= b <= 0x1_0000,
        ensures
            self.advanced(a).advanced(b) == self.advanced(a + b),
    {
        lemma_wrap16_twice(self.pc, a, b);
    }

    /// All registers zero, no flag set.
    pub fn new() -> (state: CPUState)
        ensures
            state == (CPUState { a: 0, x: 0, y: 0, s: 0, pc: 0, flags: CPUFlags::spec_empty() }),
    {
        CPUState { a: 0, x: 0, y: 0, s: 0, pc: 0, flags: CPUFlags::empty() }
    }
}

impl CPUStats {
    /// No cycle and no instruction counted.
    pub fn new() -> (stats: CPUStats)
        ensures
            stats == (CPUStats { total_cycles: 0, instructions: 0 }),
    {
        CPUStats { total_cycles: 0usize, instructions: 0usize }
    }
}

impl View for CPU {
    type V = CPUView;

    closed spec fn view(&self) -> CPUView {
        CPUView {
            state: self.state,
            stats: self.stats,
            memory: self.memory@,
            page_crossed: self.page_crossed,
        }
    }
}

impl CPU {
    /// A processor's memory always holds one byte for each of the 65536 addresses.
    pub broadcast proof fn lemma_memory_len(&self)
        ensures
            #[trigger] self@.memory.len() == 65536,
    {
        self.memory.lemma_len();
    }

    /// A processor in `state` over `memory`, with no cycle counted yet.
    pub fn new(state: CPUState, memory: Memory) -> (cpu: CPU)
        ensures
            cpu@ == (CPUView {
                state,
                stats: CPUStats { total_cycles: 0, instructions: 0 },
                memory: memory@,
                page_crossed: false,
            }),
    {
        CPU { state: state, stats: CPUStats::new(), memory: memory, page_crossed: false }
    }

    /// Reset: the program counter goes to 0x1000; registers, flags, memory and
    /// statistics stay.
    pub fn init_state(&mut self)
        ensures
            final(self)@ == (CPUView {
                state: CPUState { pc: 0x1000, ..old(self)@.state },
                ..old(self)@
            }),
    {
        self.state.pc = 0x1000u16;
    }

    /// The registers, program counter and flags as they are now.
    pub fn get_state(&self) -> (state: &CPUState)
        ensures
            *state == self@.state,
    {
        &self.state
    }

    /// The cycles and instructions counted so far.
    pub fn get_stats(&self) -> (stats: &CPUStats)
        ensures
            *stats == self@.stats,
    {
        &self.stats
    }

    /// Records whether indexing moved an address out of the page of its base.
    fn update_page_cross(&mut self, addr_unindexed: u16, addr_indexed: u16)
        ensures
            final(self)@ == (CPUView {
                page_crossed: page_of(addr_unindexed) != page_of(addr_indexed),
                ..old(self)@
            }),
    {
        let page_crossed: bool = pages_differ(addr_unindexed, addr_indexed);
        self.page_crossed = page_crossed;
    }

    /// Whether the last address resolution crossed a page boundary.
    pub fn crossed_page_boundary(&self) -> (crossed: bool)
        ensures
            crossed == self@.page_crossed,
    {
        self.page_crossed
    }

    /// Writes one byte to memory.
    pub fn write_byte(&mut self, addr: u16, value: u8)
        ensures
            final(self)@ == (CPUView {
                memory: old(self)@.memory.update(addr as int, value),
                ..old(self)@
            }),
    {
        self.memory.write_byte(addr, value);
    }

    /// Reads one byte from memory.
    pub fn read_byte(&self, addr: u16) -> (value: u8)
        ensures
            value == self@.memory[addr as int],
    {
        let read_byte: u8 = self.memory.read_byte(addr);
        read_byte
    }

    /// Reads the little-endian word at `addr`; its high byte lies at the next
    /// address modulo 65536.
    pub fn read_word(&self, addr: u16) -> (word: u16)
        ensures
            word == spec_read_word(self@.memory, addr),
    {
        let lo: u8 = self.memory.read_byte(addr);
        let hi: u8 = self.memory.read_byte(addr.wrapping_add(1));
        let read_word: u16 = bytes_to_word(lo, hi);
        read_word
    }

    /// Reads the little-endian word at a zero-page address; its high byte lies
    /// at the next zero-page address modulo 256.
    pub fn read_word_zp(&self, addr: u8) -> (word: u16)
        ensures
            word == spec_read_word_zp(self@.memory, addr),
    {
        let lo: u8 = self.memory.read_byte(addr as u16);
        let hi: u8 = self.memory.read_byte(addr.wrapping_add(1) as u16);
        let read_word: u16 = bytes_to_word(lo, hi);
        read_word
    }

    /// Returns the program counter and moves it on by one.
    pub fn fetch_operand_address(&mut self) -> (addr: u16)
        ensures
            addr == old(self)@.state.pc,
            final(self)@ == (CPUView { state: old(self)@.state.advanced(1), ..old(self)@ }),
    {
        let fetched_operand_address: u16 = self.state.pc;
        self.state.pc = self.state.pc.wrapping_add(1);
        fetched_operand_address
    }

    /// Reads the byte at the program counter and moves the counter on by one.
    pub fn fetch_byte(&mut self) -> (value: u8)
        ensures
            value == old(self)@.memory[old(self)@.state.pc as int],
            final(self)@ == (CPUView { state: old(self)@.state.advanced(1), ..old(self)@ }),
    {
        let operand_address: u16 = self.fetch_operand_address();
        let fetched_byte: u8 = self.memory.read_byte(operand_address);
        fetched_byte
    }

    /// Reads the little-endian word at the program counter and moves the
    /// counter on by two.
    pub fn fetch_word(&mut self) -> (word: u16)
        ensures
            word == spec_read_word(old(self)@.memory, old(self)@.state.pc),
            final(self)@ == (CPUView { state: old(self)@.state.advanced(2), ..old(self)@ }),
    {
        let lo: u8 = self.fetch_byte();
        let hi: u8 = self.fetch_byte();
        proof {
            old(self)@.state.lemma_advanced_twice(1, 1);
        }
        let fetched_word: u16 = bytes_to_word(lo, hi);
        fetched_word
    }

    /// What `resolve_address` leaves behind: the page crossing recorded,
    /// everything else, the program counter too, as it was.
    pub open spec fn resolved(view: CPUView, addressing_mode: AddressingMode) -> CPUView {
        CPUView {
            page_crossed: resolve(addressing_mode, view.state, view.memory).page_crossed,
            ..view
        }
    }

    /// Resolves the operand of the instruction whose opcode is at the program
    /// counter. The operand bytes are read from the addresses after the
    /// opcode; the program counter stays where it is. Records whether
    /// indexing crossed a page boundary and returns the effective address.
    pub fn resolve_address(&mut self, addressing_mode: AddressingMode) -> (addr: u16)
        requires
            addressing_mode.is_resolvable(),
        ensures
            addr == resolve(addressing_mode, old(self)@.state, old(self)@.memory).address,
            final(self)@ == CPU::resolved(old(self)@, addressing_mode),
            final(self)@.state == old(self)@.state,
            addressing_mode is ZeroPage ==> addr < 256,
            !addressing_mode.spec_can_cross_page() ==> !final(self)@.page_crossed,
    {
        let operand: u16 = self.state.pc.wrapping_add(1);
        proof {
            lemma_wrapping_add(self.state.pc, 1, 0, 0);
        }
        match addressing_mode {
            AddressingMode::Immediate => {
                self.page_crossed = false;
                operand
            },
            AddressingMode::ZeroPage(indexed_by) => {
                let addr: u8 = self.memory.read_byte(operand);
                proof {
                    lemma_wrapping_add(0, 0, addr, self.state.x);
                    lemma_wrapping_add(0, 0, addr, self.state.y);
                }
                let effective_addr: u8 = match indexed_by {
                    IndexedBy::X => addr.wrapping_add(self.state.x),
                    IndexedBy::Y => addr.wrapping_add(self.state.y),
                    IndexedBy::NoIndex => addr,
                };
                self.page_crossed = false;
                effective_addr as u16
            },
            AddressingMode::Absolute(indexed_by) => {
                let addr: u16 = self.read_word(operand);
                proof {
                    lemma_wrapping_add(addr, self.state.x as u16, 0, 0);
                    lemma_wrapping_add(addr, self.state.y as u16, 0, 0);
                }
                let effective_addr: u16 = match indexed_by {
                    IndexedBy::X => addr.wrapping_add(self.state.x as u16),
                    IndexedBy::Y => addr.wrapping_add(self.state.y as u16),
                    IndexedBy::NoIndex => addr,
                };
                self.update_page_cross(addr, effective_addr);
                effective_addr
            },
            AddressingMode::Indirect(IndexedBy::Y) => {
                let indirect_addr: u8 = self.memory.read_byte(operand);
                let effective_addr_unindexed: u16 = self.read_word_zp(indirect_addr);
                proof {
                    lemma_wrapping_add(effective_addr_unindexed, self.state.y as u16, 0, 0);
                }
                let effective_addr: u16 = effective_addr_unindexed.wrapping_add(
                    self.state.y as u16,
                );
                self.update_page_cross(effective_addr_unindexed, effective_addr);
                effective_addr
            },
            AddressingMode::Indirect(_) => {
                let indirect_addr: u8 = self.memory.read_byte(operand);
                proof {
                    lemma_wrapping_add(0, 0, indirect_addr, self.state.x);
                }
                let indirect_addr_indexed: u8 = indirect_addr.wrapping_add(self.state.x);
                let effective_addr: u16 = self.read_word_zp(indirect_addr_indexed);
                self.page_crossed = false;
                effective_addr
            },
            AddressingMode::Implied => 0,
        }
    }

    /// Resolves the operand and writes `value` to it.
    pub fn resolve_address_and_set_value(&mut self, addressing_mode: AddressingMode, value: u8)
        requires
            addressing_mode.is_resolvable(),
        ensures
            final(self)@ == (CPUView {
                memory: old(self)@.memory.update(
                    resolve(addressing_mode, old(self)@.state, old(self)@.memory).address as int,
                    value,
                ),
                ..CPU::resolved(old(self)@, addressing_mode)
            }),
    {
        let addr: u16 = self.resolve_address(addressing_mode);
        self.memory.write_byte(addr, value);
    }

    /// Resolves the operand and reads its value.
    pub fn resolve_address_and_get_value(&mut self, addressing_mode: AddressingMode) -> (value: u8)
        requires
            addressing_mode.is_resolvable(),
        ensures
            value == old(self)@.memory[resolve(
                addressing_mode,
                old(self)@.state,
                old(self)@.memory,
            ).address as int],
            final(self)@ == CPU::resolved(old(self)@, addressing_mode),
    {
        let addr: u16 = self.resolve_address(addressing_mode);
        let value: u8 = self.read_byte(addr);
        value
    }

    /// Dispatches a decoded instruction to the evaluator of its family.
    fn execute_instruction(&mut self, instruction: Instruction) -> (result: InstructionResult)
        requires
            instruction.is_executable(),
        ensures
            result == evaluation(old(self)@.state, old(self)@.memory, instruction),
            final(self)@ == evaluated(old(self)@, instruction),
            result.cycles <= MAX_CYCLES,
    {
        match instruction.mnemonic {
            Mnemonic::NOP => evaluate_nop(self),
            Mnemonic::LDA | Mnemonic::LDX | Mnemonic::LDY => evaluate_load(
                self,
                instruction.mnemonic,
                instruction.addressing_mode,
            ),
            Mnemonic::STA | Mnemonic::STX | Mnemonic::STY => evaluate_store(
                self,
                instruction.mnemonic,
                instruction.addressing_mode,
            ),
            Mnemonic::TAX
            | Mnemonic::TAY
            | Mnemonic::TSX
            | Mnemonic::TXA
            | Mnemonic::TXS
            | Mnemonic::TYA => evaluate_transfer(
                self,
                instruction.mnemonic,
                instruction.addressing_mode,
            ),
        }
    }

    /// Executes the instruction at the program counter and returns what its
    /// evaluator returned. Where the byte there is no opcode, nothing changes
    /// and the error names the byte and its address.
    pub fn run(&mut self) -> (outcome: Result<InstructionResult, DecodeError>)
        requires
            old(self)@.stats.total_cycles + MAX_CYCLES <= usize::MAX,
            old(self)@.stats.instructions + 1 <= usize::MAX,
        ensures
            match outcome {
                Ok(result) => {
                    &&& current_instruction(old(self)@) matches Some(instruction)
                    &&& result == evaluation(old(self)@.state, old(self)@.memory, instruction)
                    &&& step_of(old(self)@) == Some(final(self)@)
                },
                Err(error) => {
                    &&& step_of(old(self)@) is None
                    &&& error == decode_error_of(old(self)@)
                    &&& final(self)@ == old(self)@
                },
            },
    {
        let address: u16 = self.state.pc;
        let instruction_byte: u8 = self.memory.read_byte(address);
        match Instruction::from_byte(instruction_byte) {
            Some(instruction) => {
                let result: InstructionResult = self.execute_instruction(instruction);
                self.state = result.state;
                self.stats.total_cycles += result.cycles as usize;
                self.stats.instructions += 1;
                Ok(result)
            },
            None => Err(DecodeError { opcode: instruction_byte, address }),
        }
    }

    /// Runs up to `n` instructions and stops before the first byte that is no
    /// opcode.
    pub fn step(&mut self, n: usize) -> (outcome: Result<(), DecodeError>)
        requires
            old(self)@.stats.total_cycles + MAX_CYCLES * n <= usize::MAX,
            old(self)@.stats.instructions + n <= usize::MAX,
        ensures
            final(self)@ == steps_of(old(self)@, n as nat).0,
            match outcome {
                Ok(_) => steps_of(old(self)@, n as nat).1 is None,
                Err(error) => steps_of(old(self)@, n as nat).1 == Some(error),
            },
    {
        let mut done: usize = 0;
        while done < n
            invariant
                done <= n,
                self@.stats.total_cycles + MAX_CYCLES * (n - done) <= usize::MAX,
                self@.stats.instructions + (n - done) <= usize::MAX,
                steps_of(old(self)@, n as nat) == steps_of(self@, (n - done) as nat),
            decreases n - done,
        {
            match self.run() {
                Ok(_) => {},
                Err(error) => {
                    return Err(error);
                },
            }
            done += 1;
        }
        Ok(())
    }

    /// Writes `bytes` to memory from `address` on, first byte first. A range
    /// that runs past the last address goes on at address 0.
    pub fn load(&mut self, address: u16, bytes: &[u8])
        ensures
            final(self)@ == (CPUView {
                memory: loaded(old(self)@.memory, address, bytes@),
                ..old(self)@
            }),
    {
        let mut target: u16 = address;
        let mut written: usize = 0;
        while written < bytes.len()
            invariant
                written <= bytes.len(),
                target == wrap16(address + written),
                self@ == (CPUView {
                    memory: loaded(old(self)@.memory, address, bytes@.take(written as int)),
                    ..old(self)@
                }),
            decreases bytes.len() - written,
        {
            proof {
                lemma_wrapping_add(target, 1, 0, 0);
                assert(bytes@.take(written + 1).drop_last() == bytes@.take(written as int));
            }
            self.write_byte(target, bytes[written]);
            target = target.wrapping_add(1);
            written += 1;
        }
        assert(bytes@.take(written as int) == bytes@);
    }
}

} // verus!
