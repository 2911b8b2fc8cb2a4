//! Loads, stores and register transfers.

use vstd::prelude::*;

use crate::cpu::{resolve, CPUState, CPUView, CPU};
use crate::flags::{CPUFlags, Flag};
use crate::instruction::{AddressingMode, IndexedBy, Instruction, Mnemonic};
use crate::instruction_evaluation::types::InstructionResult;
use crate::util::lemma_wrapping_add;

verus! {

/// Cycles of a load with a mode that names an operand. A store costs what a
/// load costs whose indexing crossed a page boundary.
pub open spec fn spec_cycles_transfer(addressing_mode: AddressingMode, page_crossed: bool) -> u8 {
    match addressing_mode {
        AddressingMode::Implied => 0,
        AddressingMode::Immediate => 2,
        AddressingMode::ZeroPage(IndexedBy::NoIndex) => 3,
        AddressingMode::ZeroPage(_) => 4,
        AddressingMode::Absolute(IndexedBy::NoIndex) => 4,
        AddressingMode::Absolute(_) => if page_crossed {
            5
        } else {
            4
        },
        AddressingMode::Indirect(IndexedBy::Y) => if page_crossed {
            6
        } else {
            5
        },
        AddressingMode::Indirect(_) => 6,
    }
}

/// The flags after `value` went into a register: Zero is set exactly if the
/// value is 0, Negative exactly if its high bit is set; no other flag changes.
pub open spec fn value_flags(flags: CPUFlags, value: u8) -> CPUFlags {
    flags.spec_set(Flag::Zero, value == 0).spec_set(Flag::Negative, value >= 0x80)
}

/// What a load returns on a state whose program counter is at the load's
/// opcode: the operand's value in the register that the mnemonic names, Zero
/// and Negative set from it, the program counter after the operand bytes.
pub open spec fn load_result(
    state: CPUState,
    memory: Seq<u8>,
    mnemonic: Mnemonic,
    addressing_mode: AddressingMode,
) -> InstructionResult {
    let resolution = resolve(addressing_mode, state, memory);
    let value = memory[resolution.address as int];
    let next = CPUState {
        flags: value_flags(state.flags, value),
        ..state.advanced(1 + addressing_mode.spec_instruction_length())
    };
    InstructionResult {
        state: match mnemonic {
            Mnemonic::LDA => CPUState { a: value, ..next },
            Mnemonic::LDX => CPUState { x: value, ..next },
            _ => CPUState { y: value, ..next },
        },
        cycles: spec_cycles_transfer(addressing_mode, resolution.page_crossed),
        instruction_length: addressing_mode.spec_instruction_length(),
    }
}

/// The register that a store writes.
pub open spec fn store_source(state: CPUState, mnemonic: Mnemonic) -> u8 {
    match mnemonic {
        Mnemonic::STA => state.a,
        Mnemonic::STX => state.x,
        _ => state.y,
    }
}

/// The memory after a store: the source register at the operand's address.
pub open spec fn store_memory(
    state: CPUState,
    memory: Seq<u8>,
    mnemonic: Mnemonic,
    addressing_mode: AddressingMode,
) -> Seq<u8> {
    memory.update(
        resolve(addressing_mode, state, memory).address as int,
        store_source(state, mnemonic),
    )
}

/// What a store returns on a state whose program counter is at the store's
/// opcode: registers and flags as they were, the program counter after the
/// operand bytes, and the cost of the page-crossing case whether or not a
/// page was crossed.
pub open spec fn store_result(state: CPUState, addressing_mode: AddressingMode) -> InstructionResult {
    InstructionResult {
        state: state.advanced(1 + addressing_mode.spec_instruction_length()),
        cycles: spec_cycles_transfer(addressing_mode, true),
        instruction_length: addressing_mode.spec_instruction_length(),
    }
}

/// The registers after a transfer: the source register copied to the
/// destination, Zero and Negative set from the copied value, except for
/// TXS, which leaves the flags alone.
pub open spec fn transferred(state: CPUState, mnemonic: Mnemonic) -> CPUState {
    match mnemonic {
        Mnemonic::TAX => CPUState { x: state.a, flags: value_flags(state.flags, state.a), ..state },
        Mnemonic::TAY => CPUState { y: state.a, flags: value_flags(state.flags, state.a), ..state },
        Mnemonic::TSX => CPUState { x: state.s, flags: value_flags(state.flags, state.s), ..state },
        Mnemonic::TXA => CPUState { a: state.x, flags: value_flags(state.flags, state.x), ..state },
        Mnemonic::TXS => CPUState { s: state.x, ..state },
        _ => CPUState { a: state.y, flags: value_flags(state.flags, state.y), ..state },
    }
}

/// What a transfer returns on a state whose program counter is at its
/// opcode: the registers after the transfer, the program counter one byte
/// on; two cycles, one byte long.
pub open spec fn transfer_result(state: CPUState, mnemonic: Mnemonic) -> InstructionResult {
    InstructionResult {
        state: transferred(state, mnemonic).advanced(1),
        cycles: 2,
        instruction_length: 1,
    }
}

/// Cycles of a load with this mode; a store passes `true` for `page_crossed`.
#[verifier::when_used_as_spec(spec_cycles_transfer)]
pub fn cycles_transfer(addressing_mode: AddressingMode, page_crossed: bool) -> (cycles: u8)
    requires
        addressing_mode.is_resolvable(),
    ensures
        cycles == spec_cycles_transfer(addressing_mode, page_crossed),
{
    match addressing_mode {
        AddressingMode::Immediate => 2,
        AddressingMode::ZeroPage(IndexedBy::NoIndex) => 3,
        AddressingMode::ZeroPage(_) => 4,
        AddressingMode::Absolute(IndexedBy::NoIndex) => 4,
        AddressingMode::Absolute(_) => if page_crossed {
            5
        } else {
            4
        },
        AddressingMode::Indirect(IndexedBy::Y) => if page_crossed {
            6
        } else {
            5
        },
        AddressingMode::Indirect(_) => 6,
        AddressingMode::Implied => 0,
    }
}

/// Sets Zero and Negative from a value that went into a register.
pub fn set_flags_transfer(value: u8, state: &mut CPUState)
    ensures
        *final(state) == (CPUState { flags: value_flags(old(state).flags, value), ..*old(state) }),
        final(state).flags@.contains(Flag::Zero) == (value == 0),
        final(state).flags@.contains(Flag::Negative) == (value >= 0x80),
        forall|flag: Flag|
            flag != Flag::Zero && flag != Flag::Negative ==> final(state).flags@.contains(flag)
                == old(state).flags@.contains(flag),
{
    assert((value & 0x80 != 0) == (value >= 0x80)) by (bit_vector);
    state.flags.set(Flag::Zero, value == 0);
    state.flags.set(Flag::Negative, value & 0x80 != 0);
}

/// The state with the program counter moved past an instruction with
/// `operand_bytes` operand bytes.
fn past_instruction(state: CPUState, operand_bytes: u8) -> (next: CPUState)
    requires
        operand_bytes <= 2,
    ensures
        next == state.advanced(1 + operand_bytes),
{
    proof {
        lemma_wrapping_add(state.pc, (1 + operand_bytes) as u16, 0, 0);
    }
    let mut next: CPUState = state;
    next.pc = next.pc.wrapping_add(1 + operand_bytes as u16);
    next
}

/// Evaluates LDA, LDX or LDY on a processor whose program counter is at the
/// load's opcode. The processor records the page crossing and otherwise stays
/// as it is; the loaded register, the flags and the new program counter are in
/// the result, for the caller to commit.
pub fn evaluate_load(cpu: &mut CPU, mnemonic: Mnemonic, addressing_mode: AddressingMode) -> (result:
    InstructionResult)
    requires
        mnemonic.is_load(),
        Instruction::opcode(mnemonic, addressing_mode) is Some,
    ensures
        result == load_result(old(cpu)@.state, old(cpu)@.memory, mnemonic, addressing_mode),
        final(cpu)@ == CPU::resolved(old(cpu)@, addressing_mode),
        final(cpu)@.state == old(cpu)@.state,
{
    proof {
        Instruction::lemma_executable_modes(Instruction { mnemonic, addressing_mode });
    }
    let value: u8 = cpu.resolve_address_and_get_value(addressing_mode);

    let mut result = InstructionResult::new(
        past_instruction(*cpu.get_state(), addressing_mode.instruction_length()),
        cycles_transfer(addressing_mode, cpu.crossed_page_boundary()),
        addressing_mode.instruction_length(),
    );

    set_flags_transfer(value, &mut result.state);

    match mnemonic {
        Mnemonic::LDA => result.state.a = value,
        Mnemonic::LDX => result.state.x = value,
        _ => result.state.y = value,
    };

    result
}

/// Evaluates STA, STX or STY on a processor whose program counter is at the
/// store's opcode: writes the register to the operand's address and records
/// the page crossing. The processor's registers stay as they are; the new
/// program counter is in the result, for the caller to commit.
pub fn evaluate_store(cpu: &mut CPU, mnemonic: Mnemonic, addressing_mode: AddressingMode) -> (result:
    InstructionResult)
    requires
        mnemonic.is_store(),
        Instruction::opcode(mnemonic, addressing_mode) is Some,
    ensures
        result == store_result(old(cpu)@.state, addressing_mode),
        final(cpu)@ == (CPUView {
            memory: store_memory(old(cpu)@.state, old(cpu)@.memory, mnemonic, addressing_mode),
            ..CPU::resolved(old(cpu)@, addressing_mode)
        }),
        final(cpu)@.state == old(cpu)@.state,
{
    proof {
        Instruction::lemma_executable_modes(Instruction { mnemonic, addressing_mode });
    }
    let value: u8 = match mnemonic {
        Mnemonic::STA => cpu.get_state().a,
        Mnemonic::STX => cpu.get_state().x,
        _ => cpu.get_state().y,
    };
    cpu.resolve_address_and_set_value(addressing_mode, value);

    InstructionResult::new(
        past_instruction(*cpu.get_state(), addressing_mode.instruction_length()),
        cycles_transfer(addressing_mode, true),
        addressing_mode.instruction_length(),
    )
}

/// Evaluates a register transfer on a processor whose program counter is at
/// the transfer's opcode. The processor stays as it is; the new registers,
/// flags and program counter are in the result, for the caller to commit.
pub fn evaluate_transfer(cpu: &mut CPU, mnemonic: Mnemonic, addressing_mode: AddressingMode) -> (result:
    InstructionResult)
    requires
        mnemonic.is_transfer(),
        Instruction::opcode(mnemonic, addressing_mode) is Some,
    ensures
        result == transfer_result(old(cpu)@.state, mnemonic),
        final(cpu)@ == old(cpu)@,
        mnemonic == Mnemonic::TXS ==> result.state.flags == old(cpu)@.state.flags,
{
    let mut new_state: CPUState = *cpu.get_state();

    match mnemonic {
        Mnemonic::TAX => {
            new_state.x = new_state.a;
            set_flags_transfer(new_state.a, &mut new_state)
        },
        Mnemonic::TAY => {
            new_state.y = new_state.a;
            set_flags_transfer(new_state.a, &mut new_state)
        },
        Mnemonic::TSX => {
            new_state.x = new_state.s;
            set_flags_transfer(new_state.s, &mut new_state)
        },
        Mnemonic::TXA => {
            new_state.a = new_state.x;
            set_flags_transfer(new_state.x, &mut new_state)
        },
        Mnemonic::TXS => {
            new_state.s = new_state.x
        },
        _ => {
            new_state.a = new_state.y;
            set_flags_transfer(new_state.y, &mut new_state)
        },
    };

    InstructionResult::new(past_instruction(new_state, 0), 2, 1)
}

} // verus!
