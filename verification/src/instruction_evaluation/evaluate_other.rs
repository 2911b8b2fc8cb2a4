//! Instructions that touch neither registers nor memory.

use vstd::prelude::*;

use crate::cpu::{CPUState, CPU};
use crate::instruction_evaluation::types::InstructionResult;
use crate::util::lemma_wrapping_add;

verus! {

/// NOP: the program counter one byte on, everything else as it is; two
/// cycles, one byte long.
pub open spec fn nop_result(state: CPUState) -> InstructionResult {
    InstructionResult { state: state.advanced(1), cycles: 2, instruction_length: 1 }
}

/// Evaluates NOP on a processor whose program counter is at the opcode. The
/// processor stays as it is; the new state is in the result, for the caller
/// to commit.
pub fn evaluate_nop(cpu: &CPU) -> (result: InstructionResult)
    ensures
        result == nop_result(cpu@.state),
{
    let mut new_state: CPUState = *cpu.get_state();
    proof {
        lemma_wrapping_add(new_state.pc, 1, 0, 0);
    }
    new_state.pc = new_state.pc.wrapping_add(1);
    InstructionResult::new(new_state, 2, 1)
}

} // verus!
