//! What a command line asks the session to do.

use vstd::prelude::*;

verus! {

/// An instruction to the session.
#[derive(Clone, Debug, PartialEq, Eq)]
pub enum Signal {
    Quit,
    InitCPU,
    InitMemory,
    InitAll,
    CPUStep(isize),
    WriteMemory(u16, u8),
    FileOpen(String),
    FileRun,
}

/// The outcome of parsing one command line.
#[derive(Clone, Debug, PartialEq, Eq)]
pub enum CommandResult {
    Signal(Signal),
    Message(String),
    Nothing,
}

/// A signal with its text as a sequence of characters.
pub enum SignalView {
    Quit,
    InitCPU,
    InitMemory,
    InitAll,
    CPUStep(isize),
    WriteMemory(u16, u8),
    FileOpen(Seq<char>),
    FileRun,
}

/// A command result with its text as a sequence of characters.
pub enum CommandResultView {
    Signal(SignalView),
    Message(Seq<char>),
    Nothing,
}

impl View for Signal {
    type V = SignalView;

    open spec fn view(&self) -> SignalView {
        match self {
            Signal::Quit => SignalView::Quit,
            Signal::InitCPU => SignalView::InitCPU,
            Signal::InitMemory => SignalView::InitMemory,
            Signal::InitAll => SignalView::InitAll,
            Signal::CPUStep(n) => SignalView::CPUStep(*n),
            Signal::WriteMemory(addr, value) => SignalView::WriteMemory(*addr, *value),
            Signal::FileOpen(path) => SignalView::FileOpen(path@),
            Signal::FileRun => SignalView::FileRun,
        }
    }
}

impl View for CommandResult {
    type V = CommandResultView;

    open spec fn view(&self) -> CommandResultView {
        match self {
            CommandResult::Signal(signal) => CommandResultView::Signal(signal@),
            CommandResult::Message(message) => CommandResultView::Message(message@),
            CommandResult::Nothing => CommandResultView::Nothing,
        }
    }
}

} // verus!
