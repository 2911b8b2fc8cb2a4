//! An emulator core for a subset of the 6502 microprocessor, and the
//! decisions of an interactive session around it.

pub mod cli_session;
pub mod command;
pub mod command_parser;
pub mod cpu;
pub mod decimal;
pub mod flags;
pub mod instruction;
pub mod instruction_evaluation;
pub mod laws;
pub mod memory;
pub mod program_text;
pub mod util;

pub use crate::cli_session::{CLISession, SessionAction, SessionFault, StepReport};
pub use crate::command::{CommandResult, Signal};
pub use crate::command_parser::CommandParser;
pub use crate::cpu::{CPUState, CPUStats, DecodeError, CPU};
pub use crate::flags::{CPUFlags, Flag};
pub use crate::instruction::{AddressingMode, IndexedBy, Instruction, Mnemonic};
pub use crate::instruction_evaluation::InstructionResult;
pub use crate::memory::Memory;
