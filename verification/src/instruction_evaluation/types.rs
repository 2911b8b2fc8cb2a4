//! What an evaluator hands back to the processor.

use vstd::prelude::*;

use crate::cpu::CPUState;

verus! {

/// The state after an instruction, its cost in cycles, and its length: for a
/// load or a store the number of operand bytes, for an instruction with
/// implied addressing the one byte of its opcode.
#[derive(Clone, Copy, Debug, PartialEq, Eq, Structural)]
pub struct InstructionResult {
    pub state: CPUState,
    pub cycles: u8,
    pub instruction_length: u8,
}

impl InstructionResult {
    /// A result of these three parts.
    pub fn new(state: CPUState, cycles: u8, instruction_length: u8) -> (result: InstructionResult)
        ensures
            result == (InstructionResult { state, cycles, instruction_length }),
    {
        InstructionResult { state: state, cycles: cycles, instruction_length: instruction_length }
    }
}

} // verus!
