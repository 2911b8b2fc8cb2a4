//! One evaluator for each family of instructions.

pub mod evaluate_other;
pub mod evaluate_transfer;
pub mod types;

pub use evaluate_other::evaluate_nop;
pub use evaluate_transfer::{
    cycles_transfer, evaluate_load, evaluate_store, evaluate_transfer, set_flags_transfer,
};
pub use types::InstructionResult;
