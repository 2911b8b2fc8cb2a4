//! The command vocabulary of the session.

use vstd::prelude::*;
use vstd::string::StringExecFns;

use crate::command::{CommandResult, CommandResultView, Signal, SignalView};
use crate::decimal::{parse_isize, spec_parse_isize};
use crate::util::{low_byte, low_word, wrap16, wrap8};

verus! {

/// Turns the words of a command line into a command.
pub struct CommandParser {}

/// The text of each word of a command line.
pub open spec fn words(input: Seq<String>) -> Seq<Seq<char>> {
    input.map_values(|word: String| word@)
}

/// Start of the message for a command with the wrong number of arguments.
pub open spec fn err_arg_count() -> Seq<char> {
    "Invalid number of arguments received for command: "@
}

/// Start of the message for an argument that cannot be read.
pub open spec fn err_invalid_arg() -> Seq<char> {
    "Invalid argument received: "@
}

/// Start of the message for a word that is no command.
pub open spec fn err_unknown() -> Seq<char> {
    "Unknown command: "@
}

/// What `init` with its arguments asks for: a processor, a memory, or both.
pub open spec fn parse_init(input: Seq<Seq<char>>) -> CommandResultView {
    if input.len() == 2 {
        if input[1] == "cpu"@ {
            CommandResultView::Signal(SignalView::InitCPU)
        } else if input[1] == "memory"@ || input[1] == "mem"@ {
            CommandResultView::Signal(SignalView::InitMemory)
        } else {
            CommandResultView::Message(err_invalid_arg() + input[1])
        }
    } else {
        CommandResultView::Signal(SignalView::InitAll)
    }
}

/// What `step` with its arguments asks for: one step, or as many as its one
/// argument says.
pub open spec fn parse_step(input: Seq<Seq<char>>) -> CommandResultView {
    if input.len() == 2 {
        match spec_parse_isize(input[1]) {
            Some(count) => CommandResultView::Signal(SignalView::CPUStep(count)),
            None => CommandResultView::Message(err_invalid_arg() + input[1]),
        }
    } else if input.len() == 1 {
        CommandResultView::Signal(SignalView::CPUStep(1))
    } else {
        CommandResultView::Message(err_arg_count() + "step"@)
    }
}

/// What `write` with its arguments asks for: the low 8 bits of its second
/// number written to the address in the low 16 bits of its first.
pub open spec fn parse_write(input: Seq<Seq<char>>) -> CommandResultView {
    if input.len() == 3 {
        match (spec_parse_isize(input[1]), spec_parse_isize(input[2])) {
            (Some(addr), Some(value)) => CommandResultView::Signal(
                SignalView::WriteMemory(wrap16(addr as int), wrap8(value as int)),
            ),
            _ => CommandResultView::Message(err_invalid_arg() + "write"@),
        }
    } else {
        CommandResultView::Message(err_arg_count() + "write"@)
    }
}

/// What a command line of lower-case words asks for. An empty line asks for
/// nothing; a line that is no command yields a message that says why.
pub open spec fn spec_parse(input: Seq<Seq<char>>) -> CommandResultView {
    if input.len() == 0 {
        CommandResultView::Nothing
    } else if input[0] == "quit"@ || input[0] == "exit"@ {
        CommandResultView::Signal(SignalView::Quit)
    } else if input[0] == "init"@ {
        parse_init(input)
    } else if input[0] == "step"@ {
        parse_step(input)
    } else if input[0] == "write"@ {
        parse_write(input)
    } else {
        CommandResultView::Message(err_unknown() + input[0])
    }
}

/// Whether a word of the line is the given word.
fn is_word(token: &String, word: &str) -> (same: bool)
    ensures
        same == (token@ == word@),
{
    *token == String::from_str(word)
}

/// A message: what went wrong, then the text that it went wrong with.
fn message(reason: &str, subject: &str) -> (result: CommandResult)
    ensures
        result@ == CommandResultView::Message(reason@ + subject@),
{
    CommandResult::Message(String::from_str(reason).concat(subject))
}

impl CommandParser {
    /// Reads a command line that was split into lower-case words.
    pub fn parse(input_slice: &[String]) -> (result: CommandResult)
        ensures
            result@ == spec_parse(words(input_slice@)),
    {
        let ghost input = words(input_slice@);
        if input_slice.len() == 0 {
            return CommandResult::Nothing;
        }
        assert(input[0] == input_slice@[0]@);
        let command: &String = &input_slice[0];
        if is_word(command, "quit") || is_word(command, "exit") {
            CommandResult::Signal(Signal::Quit)
        } else if is_word(command, "init") {
            if input_slice.len() == 2 {
                assert(input[1] == input_slice@[1]@);
                let argument: &String = &input_slice[1];
                if is_word(argument, "cpu") {
                    CommandResult::Signal(Signal::InitCPU)
                } else if is_word(argument, "memory") || is_word(argument, "mem") {
                    CommandResult::Signal(Signal::InitMemory)
                } else {
                    message("Invalid argument received: ", argument.as_str())
                }
            } else {
                CommandResult::Signal(Signal::InitAll)
            }
        } else if is_word(command, "step") {
            if input_slice.len() == 2 {
                assert(input[1] == input_slice@[1]@);
                match parse_isize(input_slice[1].as_str()) {
                    Some(count) => CommandResult::Signal(Signal::CPUStep(count)),
                    None => message("Invalid argument received: ", input_slice[1].as_str()),
                }
            } else if input_slice.len() == 1 {
                CommandResult::Signal(Signal::CPUStep(1))
            } else {
                message("Invalid number of arguments received for command: ", "step")
            }
        } else if is_word(command, "write") {
            if input_slice.len() == 3 {
                assert(input[1] == input_slice@[1]@);
                assert(input[2] == input_slice@[2]@);
                match (parse_isize(input_slice[1].as_str()), parse_isize(input_slice[2].as_str())) {
                    (Some(addr), Some(value)) => CommandResult::Signal(
                        Signal::WriteMemory(low_word(addr), low_byte(value)),
                    ),
                    _ => message("Invalid argument received: ", "write"),
                }
            } else {
                message("Invalid number of arguments received for command: ", "write")
            }
        } else {
            message("Unknown command: ", command.as_str())
        }
    }
}

} // verus!
