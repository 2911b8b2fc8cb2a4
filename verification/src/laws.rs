//! What holds of the engine on every state and every memory.

use vstd::prelude::*;

use crate::cpu::{
    current_instruction, loaded, operand_address, resolve, spec_read_word, step_of, steps_of,
    CPUState, CPUView,
};
use crate::cli_session::trace_of;
use crate::cpu::MAX_CYCLES;
use crate::flags::Flag;
use crate::instruction_evaluation::evaluate_other::nop_result;
use crate::instruction::{AddressingMode, IndexedBy, Instruction, Mnemonic};
use crate::instruction_evaluation::evaluate_transfer::{
    load_result, store_memory, store_result, store_source, transfer_result, value_flags,
};
use crate::util::{page_of, wrap16};

verus! {

/// The register that a load fills.
pub open spec fn load_target(state: CPUState, mnemonic: Mnemonic) -> u8 {
    match mnemonic {
        Mnemonic::LDA => state.a,
        Mnemonic::LDX => state.x,
        _ => state.y,
    }
}

/// A zero-page operand lies in page zero whatever the index register holds,
/// and resolving it never reports a page crossing.
pub proof fn lemma_zero_page_stays_in_page_zero(
    indexed_by: IndexedBy,
    state: CPUState,
    memory: Seq<u8>,
)
    ensures
        resolve(AddressingMode::ZeroPage(indexed_by), state, memory).address < 256,
        !resolve(AddressingMode::ZeroPage(indexed_by), state, memory).page_crossed,
{
}

/// Zero-page indexing wraps within the page: base 0xFF with index 2 is
/// address 0x01.
pub proof fn lemma_zero_page_wraps(indexed_by: IndexedBy, state: CPUState, memory: Seq<u8>)
    requires
        memory[operand_address(state) as int] == 0xFF,
        state.index(indexed_by) == 2,
    ensures
        resolve(AddressingMode::ZeroPage(indexed_by), state, memory).address == 0x01,
{
}

/// An absolute operand crosses a page exactly if the index carries into the
/// high byte of the address; no index, no crossing.
pub proof fn lemma_absolute_page_crossing(indexed_by: IndexedBy, state: CPUState, memory: Seq<u8>)
    ensures
        ({
            let base = spec_read_word(memory, operand_address(state));
            let resolution = resolve(AddressingMode::Absolute(indexed_by), state, memory);
            &&& resolution.address == wrap16(base + state.index(indexed_by))
            &&& resolution.page_crossed == (page_of(base) != page_of(resolution.address))
            &&& resolution.page_crossed == (base % 256 + state.index(indexed_by) >= 256)
            &&& indexed_by == IndexedBy::NoIndex ==> !resolution.page_crossed
        }),
{
}

/// Base 0x12FF with index 1 resolves to 0x1300 and crosses a page.
pub proof fn lemma_absolute_crosses_from_12ff(
    indexed_by: IndexedBy,
    state: CPUState,
    memory: Seq<u8>,
)
    requires
        spec_read_word(memory, operand_address(state)) == 0x12FF,
        state.index(indexed_by) == 1,
    ensures
        resolve(AddressingMode::Absolute(indexed_by), state, memory).address == 0x1300,
        resolve(AddressingMode::Absolute(indexed_by), state, memory).page_crossed,
{
}

/// Only the modes that can cross a page ever report a crossing.
pub proof fn lemma_page_crossing_needs_capable_mode(
    addressing_mode: AddressingMode,
    state: CPUState,
    memory: Seq<u8>,
)
    requires
        resolve(addressing_mode, state, memory).page_crossed,
    ensures
        addressing_mode.spec_can_cross_page(),
{
}

/// A load puts the operand's value into the register that its mnemonic
/// names, sets Zero exactly if the value is 0 and Negative exactly if its
/// high bit is set, and leaves every other flag and register alone.
pub proof fn lemma_load_sets_register_and_flags(
    state: CPUState,
    memory: Seq<u8>,
    mnemonic: Mnemonic,
    addressing_mode: AddressingMode,
)
    requires
        mnemonic.is_load(),
    ensures
        ({
            let value = memory[resolve(addressing_mode, state, memory).address as int];
            let after = load_result(state, memory, mnemonic, addressing_mode).state;
            &&& load_target(after, mnemonic) == value
            &&& after.flags@.contains(Flag::Zero) == (value == 0)
            &&& after.flags@.contains(Flag::Negative) == (value >= 0x80)
            &&& forall|flag: Flag|
                flag != Flag::Zero && flag != Flag::Negative ==> after.flags@.contains(flag)
                    == state.flags@.contains(flag)
            &&& after.s == state.s
            &&& mnemonic != Mnemonic::LDA ==> after.a == state.a
            &&& mnemonic != Mnemonic::LDX ==> after.x == state.x
            &&& mnemonic != Mnemonic::LDY ==> after.y == state.y
        }),
{
    let value = memory[resolve(addressing_mode, state, memory).address as int];
    state.flags.lemma_set(Flag::Zero, value == 0);
    state.flags.spec_set(Flag::Zero, value == 0).lemma_set(Flag::Negative, value >= 0x80);
}

/// TXS copies X to the stack pointer and changes no flag, whatever X holds.
pub proof fn lemma_txs_keeps_flags(state: CPUState)
    ensures
        transfer_result(state, Mnemonic::TXS).state == (CPUState {
            s: state.x,
            ..state.advanced(1)
        }),
        transfer_result(state, Mnemonic::TXS).state.flags == state.flags,
{
}

/// Every transfer but TXS sets Zero and Negative from the value that it
/// copies.
pub proof fn lemma_transfer_sets_flags(state: CPUState, mnemonic: Mnemonic)
    requires
        mnemonic.is_transfer(),
        mnemonic != Mnemonic::TXS,
    ensures
        ({
            let value = match mnemonic {
                Mnemonic::TAX | Mnemonic::TAY => state.a,
                Mnemonic::TSX => state.s,
                Mnemonic::TXA => state.x,
                _ => state.y,
            };
            let after = transfer_result(state, mnemonic).state;
            &&& after.flags == value_flags(state.flags, value)
            &&& after.flags@.contains(Flag::Zero) == (value == 0)
            &&& after.flags@.contains(Flag::Negative) == (value >= 0x80)
        }),
{
    let value = match mnemonic {
        Mnemonic::TAX | Mnemonic::TAY => state.a,
        Mnemonic::TSX => state.s,
        Mnemonic::TXA => state.x,
        _ => state.y,
    };
    state.flags.lemma_set(Flag::Zero, value == 0);
    state.flags.spec_set(Flag::Zero, value == 0).lemma_set(Flag::Negative, value >= 0x80);
}

/// A store changes no register and no flag, and costs the same whether or
/// not its indexing crossed a page.
pub proof fn lemma_store_keeps_registers(state: CPUState, addressing_mode: AddressingMode)
    ensures
        store_result(state, addressing_mode).state == state.advanced(
            1 + addressing_mode.spec_instruction_length(),
        ),
        store_result(state, addressing_mode).state.flags == state.flags,
{
}

/// What a store wrote, a load from the same address reads back: after a
/// store from `store_state`, a load whose operand resolves to the address
/// that the store resolved to fills its register with the stored register.
pub proof fn lemma_store_then_load(
    store_state: CPUState,
    memory: Seq<u8>,
    store_mnemonic: Mnemonic,
    store_mode: AddressingMode,
    load_state: CPUState,
    load_mnemonic: Mnemonic,
    load_mode: AddressingMode,
)
    requires
        memory.len() == 65536,
        store_mnemonic.is_store(),
        load_mnemonic.is_load(),
        resolve(
            load_mode,
            load_state,
            store_memory(store_state, memory, store_mnemonic, store_mode),
        ).address == resolve(store_mode, store_state, memory).address,
    ensures
        load_target(
            load_result(
                load_state,
                store_memory(store_state, memory, store_mnemonic, store_mode),
                load_mnemonic,
                load_mode,
            ).state,
            load_mnemonic,
        ) == store_source(store_state, store_mnemonic),
{
}

/// A step moves the program counter on by exactly the encoded length of the
/// instruction that it executed, modulo 65536, and counts one instruction.
pub proof fn lemma_step_advances_by_encoded_length(view: CPUView)
    requires
        step_of(view) is Some,
        view.stats.instructions < usize::MAX,
    ensures
        current_instruction(view) is Some,
        step_of(view)->0.state.pc == wrap16(
            view.state.pc + current_instruction(view)->0.encoded_length(),
        ),
        step_of(view)->0.stats.instructions == view.stats.instructions + 1,
{
    let instruction = current_instruction(view)->0;
    Instruction::lemma_from_byte_inverts_opcode(view.memory[view.state.pc as int], instruction);
    Instruction::lemma_executable_modes(instruction);
}

/// LDA with an immediate operand: after the step the accumulator holds the
/// operand, the program counter is two bytes on, two cycles are counted,
/// and Zero and Negative tell whether the operand is 0 or has its high bit
/// set.
pub proof fn lemma_lda_immediate_step(view: CPUView, operand: u8)
    requires
        view.memory[view.state.pc as int] == 0xA9,
        view.memory[wrap16(view.state.pc + 1) as int] == operand,
        view.stats.total_cycles + 2 <= usize::MAX,
    ensures
        step_of(view) matches Some(next) && {
            &&& next.state.a == operand
            &&& next.state.pc == wrap16(view.state.pc + 2)
            &&& next.state.flags@.contains(Flag::Zero) == (operand == 0)
            &&& next.state.flags@.contains(Flag::Negative) == (operand >= 0x80)
            &&& next.stats.total_cycles == view.stats.total_cycles + 2
            &&& next.memory == view.memory
        },
{
    let instruction = Instruction {
        mnemonic: Mnemonic::LDA,
        addressing_mode: AddressingMode::Immediate,
    };
    Instruction::lemma_from_byte_inverts_opcode(0xA9, instruction);
    lemma_load_sets_register_and_flags(
        view.state,
        view.memory,
        Mnemonic::LDA,
        AddressingMode::Immediate,
    );
}

/// A run of NOPs: `n` steps over `n` NOP opcodes move the program counter on
/// by `n`, count `2 * n` cycles and `n` instructions, and change nothing
/// else.
pub proof fn lemma_nops_advance(view: CPUView, n: nat)
    requires
        n <= 65536,
        forall|i: int| 0 <= i < n ==> view.memory[#[trigger] wrap16(view.state.pc + i) as int] == 0xEA,
        view.stats.total_cycles + 2 * n <= usize::MAX,
        view.stats.instructions + n <= usize::MAX,
    ensures
        steps_of(view, n).1 is None,
        steps_of(view, n).0 == (CPUView {
            state: view.state.advanced(n as int),
            stats: crate::cpu::CPUStats {
                total_cycles: (view.stats.total_cycles + 2 * n) as usize,
                instructions: (view.stats.instructions + n) as usize,
            },
            ..view
        }),
    decreases n,
{
    if n == 0 {
        assert(view.state.advanced(0) == view.state);
    } else {
        let instruction = Instruction {
            mnemonic: Mnemonic::NOP,
            addressing_mode: AddressingMode::Implied,
        };
        Instruction::lemma_from_byte_inverts_opcode(0xEA, instruction);
        assert(view.memory[wrap16(view.state.pc + 0) as int] == 0xEA);
        let next = step_of(view)->0;
        assert forall|i: int| 0 <= i < n - 1 implies next.memory[#[trigger] wrap16(
            next.state.pc + i,
        ) as int] == 0xEA by {
            assert(wrap16(next.state.pc + i) == wrap16(view.state.pc + (i + 1)));
        }
        lemma_nops_advance(next, (n - 1) as nat);
        view.state.lemma_advanced_twice(1, n - 1);
    }
}

/// A run of NOPs through a session: with room in the counters, `n` steps
/// over `n` NOP opcodes stop for no reason, move the program counter on by
/// `n`, count `2 * n` cycles and `n` instructions, change nothing else, and
/// report one NOP result for each step.
pub proof fn lemma_nops_trace(view: CPUView, n: nat)
    requires
        n <= 65536,
        forall|i: int| 0 <= i < n ==> view.memory[#[trigger] wrap16(view.state.pc + i) as int] == 0xEA,
        view.stats.total_cycles + 2 * n + MAX_CYCLES <= usize::MAX,
        view.stats.instructions + n <= usize::MAX,
    ensures
        trace_of(view, n).fault is None,
        trace_of(view, n).cpu == steps_of(view, n).0,
        trace_of(view, n).cpu.state == view.state.advanced(n as int),
        trace_of(view, n).cpu.stats.total_cycles == view.stats.total_cycles + 2 * n,
        trace_of(view, n).cpu.memory == view.memory,
        trace_of(view, n).results.len() == n,
        forall|i: int|
            0 <= i < n ==> #[trigger] trace_of(view, n).results[i] == nop_result(
                view.state.advanced(i),
            ),
    decreases n,
{
    lemma_nops_advance(view, n);
    if n == 0 {
        assert(view.state.advanced(0) == view.state);
    } else {
        let instruction = Instruction {
            mnemonic: Mnemonic::NOP,
            addressing_mode: AddressingMode::Implied,
        };
        Instruction::lemma_from_byte_inverts_opcode(0xEA, instruction);
        assert(view.memory[wrap16(view.state.pc + 0) as int] == 0xEA);
        assert(view.state.advanced(0) == view.state);
        let next = step_of(view)->0;
        assert forall|i: int| 0 <= i < n - 1 implies next.memory[#[trigger] wrap16(
            next.state.pc + i,
        ) as int] == 0xEA by {
            assert(wrap16(next.state.pc + i) == wrap16(view.state.pc + (i + 1)));
        }
        lemma_nops_trace(next, (n - 1) as nat);
        let rest = trace_of(next, (n - 1) as nat);
        assert forall|i: int| 0 <= i < n implies #[trigger] trace_of(view, n).results[i]
            == nop_result(view.state.advanced(i)) by {
            if i > 0 {
                assert(trace_of(view, n).results[i] == rest.results[i - 1]);
                view.state.lemma_advanced_twice(1, i - 1);
            }
        }
        view.state.lemma_advanced_twice(1, n - 1);
    }
}

/// Steps add up: `a + b` steps are `a` steps and then, unless those stopped
/// at a byte that is no opcode, `b` more.
pub proof fn lemma_steps_add_up(view: CPUView, a: nat, b: nat)
    ensures
        steps_of(view, a + b) == if steps_of(view, a).1 is Some {
            steps_of(view, a)
        } else {
            steps_of(steps_of(view, a).0, b)
        },
    decreases a,
{
    if a > 0 {
        match step_of(view) {
            Some(next) => {
                lemma_steps_add_up(next, (a - 1) as nat, b);
                assert((a + b - 1) as nat == (a - 1) as nat + b);
            },
            None => {},
        }
    }
}

/// A range of at most 65536 bytes does not overlap itself: after loading,
/// each byte of the range is at its address, and every address outside the
/// range holds what it held.
pub proof fn lemma_loaded_bytes(memory: Seq<u8>, address: u16, bytes: Seq<u8>)
    requires
        memory.len() == 65536,
        bytes.len() <= 65536,
    ensures
        loaded(memory, address, bytes).len() == 65536,
        forall|i: int|
            0 <= i < bytes.len() ==> loaded(memory, address, bytes)[#[trigger] wrap16(address + i) as int]
                == bytes[i],
        forall|a: u16|
            (forall|i: int| 0 <= i < bytes.len() ==> #[trigger] wrap16(address + i) != a)
                ==> loaded(memory, address, bytes)[a as int] == memory[a as int],
    decreases bytes.len(),
{
    if bytes.len() > 0 {
        let shorter = bytes.drop_last();
        lemma_loaded_bytes(memory, address, shorter);
        let last = bytes.len() - 1;
        assert forall|i: int| 0 <= i < bytes.len() implies loaded(
            memory,
            address,
            bytes,
        )[#[trigger] wrap16(address + i) as int] == bytes[i] by {
            if i < last {
                assert(wrap16(address + i) != wrap16(address + last));
                assert(shorter[i] == bytes[i]);
            }
        }
        assert forall|a: u16|
            (forall|i: int| 0 <= i < bytes.len() ==> #[trigger] wrap16(address + i) != a)
                implies loaded(memory, address, bytes)[a as int] == memory[a as int] by {
            assert(wrap16(address + last) != a);
            assert forall|i: int| 0 <= i < shorter.len() implies #[trigger] wrap16(address + i)
                != a by {}
        }
    }
}

} // verus!
