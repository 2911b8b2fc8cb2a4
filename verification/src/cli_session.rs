//! The state of an interactive session and what each command does to it.
//!
//! The session decides; its host reads the command lines, prints, and reads
//! the program files.

use vstd::prelude::*;
use vstd::string::StringExecFns;

use crate::command::{CommandResult, CommandResultView, Signal, SignalView};
use crate::cpu::{
    current_instruction, decode_error_of, evaluation, loaded, step_of, CPUState, CPUStats,
    CPUView, DecodeError, CPU, MAX_CYCLES,
};
use crate::flags::CPUFlags;
use crate::instruction_evaluation::types::InstructionResult;
use crate::memory::Memory;
use crate::program_text::{parse_program, spec_parse_program, ProgramError};

verus! {

/// Why the session could not do what a command asked for.
#[derive(Clone, Copy, Debug, PartialEq, Eq, Structural)]
pub enum SessionFault {
    /// The command needs a processor and none was initialized.
    NoProcessor,
    /// The command needs a program and none was opened.
    NoProgram,
    /// The byte at the program counter is no opcode.
    Decode(DecodeError),
    /// One more instruction could overflow the cycle or instruction count.
    CounterOverflow,
}

/// What a run of steps did: the result of each instruction that was
/// executed, in order, and the reason if the run stopped early.
#[derive(Debug, PartialEq, Eq)]
pub struct StepReport {
    pub results: Vec<InstructionResult>,
    pub fault: Option<SessionFault>,
}

/// What the host has to do after a command.
#[derive(Debug, PartialEq, Eq)]
pub enum SessionAction {
    Nothing,
    /// Print the line.
    Print(String),
    /// Print the result of each step.
    Stepped(StepReport),
    /// Read the program file of this name and hand its text to `read_file`.
    OpenFile(String),
    /// Stop: the command cannot be carried out.
    Fault(SessionFault),
}

/// An interactive session: the processor, memory and program that its
/// commands have set up so far.
pub struct CLISession {
    pub quit: bool,
    cpu: Option<CPU>,
    memory: Option<Memory>,
    file_contents: Option<Vec<u8>>,
}

/// A session with its processor, memory and program as mathematical values.
pub struct CLISessionView {
    pub quit: bool,
    pub cpu: Option<CPUView>,
    pub memory: Option<Seq<u8>>,
    pub file_contents: Option<Seq<u8>>,
}

/// A session action with its text and its results as sequences.
pub enum SessionActionView {
    Nothing,
    Print(Seq<char>),
    Stepped(Seq<InstructionResult>, Option<SessionFault>),
    OpenFile(Seq<char>),
    Fault(SessionFault),
}

/// Where a run of steps ended, with what it did on the way.
pub struct StepTrace {
    pub cpu: CPUView,
    pub results: Seq<InstructionResult>,
    pub fault: Option<SessionFault>,
}

impl View for StepReport {
    type V = (Seq<InstructionResult>, Option<SessionFault>);

    open spec fn view(&self) -> (Seq<InstructionResult>, Option<SessionFault>) {
        (self.results@, self.fault)
    }
}

impl View for SessionAction {
    type V = SessionActionView;

    open spec fn view(&self) -> SessionActionView {
        match self {
            SessionAction::Nothing => SessionActionView::Nothing,
            SessionAction::Print(line) => SessionActionView::Print(line@),
            SessionAction::Stepped(report) => SessionActionView::Stepped(
                report.results@,
                report.fault,
            ),
            SessionAction::OpenFile(path) => SessionActionView::OpenFile(path@),
            SessionAction::Fault(fault) => SessionActionView::Fault(*fault),
        }
    }
}

impl View for CLISession {
    type V = CLISessionView;

    closed spec fn view(&self) -> CLISessionView {
        CLISessionView {
            quit: self.quit,
            cpu: match self.cpu {
                Some(cpu) => Some(cpu@),
                None => None,
            },
            memory: match self.memory {
                Some(memory) => Some(memory@),
                None => None,
            },
            file_contents: match self.file_contents {
                Some(bytes) => Some(bytes@),
                None => None,
            },
        }
    }
}

/// 65536 zero bytes.
pub open spec fn fresh_memory() -> Seq<u8> {
    Seq::new(65536, |i: int| 0u8)
}

/// A processor with all registers zero over a zeroed memory.
pub open spec fn fresh_cpu() -> CPUView {
    CPUView {
        state: CPUState { a: 0, x: 0, y: 0, s: 0, pc: 0, flags: CPUFlags::spec_empty() },
        stats: CPUStats { total_cycles: 0, instructions: 0 },
        memory: fresh_memory(),
        page_crossed: false,
    }
}

/// Whether the counters can take one more instruction.
pub open spec fn has_room(stats: CPUStats) -> bool {
    stats.total_cycles + MAX_CYCLES <= usize::MAX && stats.instructions + 1 <= usize::MAX
}

/// What the instruction at the program counter returns when it is executed.
pub open spec fn step_result(cpu: CPUView) -> InstructionResult {
    evaluation(cpu.state, cpu.memory, current_instruction(cpu)->0)
}

/// Up to `n` steps: each step's result in order, the processor after the
/// last of them, and why the run stopped if it stopped before `n` steps.
pub open spec fn trace_of(cpu: CPUView, n: nat) -> StepTrace
    decreases n,
{
    if n == 0 {
        StepTrace { cpu, results: Seq::empty(), fault: None }
    } else if !has_room(cpu.stats) {
        StepTrace { cpu, results: Seq::empty(), fault: Some(SessionFault::CounterOverflow) }
    } else {
        match step_of(cpu) {
            None => StepTrace {
                cpu,
                results: Seq::empty(),
                fault: Some(SessionFault::Decode(decode_error_of(cpu))),
            },
            Some(next) => {
                let rest = trace_of(next, (n - 1) as nat);
                StepTrace {
                    cpu: rest.cpu,
                    results: seq![step_result(cpu)] + rest.results,
                    fault: rest.fault,
                }
            },
        }
    }
}

/// The number of steps that a step count asks for: none if it is negative.
pub open spec fn step_count(n: isize) -> nat {
    if n > 0 {
        n as nat
    } else {
        0
    }
}

/// What a step command does: without a processor it faults as soon as one
/// step is asked for; with one it runs the steps.
pub open spec fn stepped(session: CLISessionView, n: isize) -> (
    CLISessionView,
    (Seq<InstructionResult>, Option<SessionFault>),
) {
    if n <= 0 {
        (session, (Seq::empty(), None))
    } else {
        match session.cpu {
            None => (session, (Seq::empty(), Some(SessionFault::NoProcessor))),
            Some(cpu) => {
                let trace = trace_of(cpu, step_count(n));
                (CLISessionView { cpu: Some(trace.cpu), ..session }, (trace.results, trace.fault))
            },
        }
    }
}

/// What running the opened program does: its bytes go to the processor's
/// memory from address 0 on.
pub open spec fn file_run(session: CLISessionView) -> (CLISessionView, Option<SessionFault>) {
    match session.file_contents {
        None => (session, Some(SessionFault::NoProgram)),
        Some(bytes) => if bytes.len() == 0 {
            (session, None)
        } else {
            match session.cpu {
                None => (session, Some(SessionFault::NoProcessor)),
                Some(cpu) => (
                    CLISessionView {
                        cpu: Some(CPUView { memory: loaded(cpu.memory, 0, bytes), ..cpu }),
                        ..session
                    },
                    None,
                ),
            }
        },
    }
}

/// What a step command is told when processor or memory is missing.
pub open spec fn not_ready_message() -> Seq<char> {
    "CPU and/or Memory have not been initialized."@
}

/// What a write command is told when the memory is missing.
pub open spec fn no_memory_message() -> Seq<char> {
    "Cannot write to Memory, it has not been initialized."@
}

/// What a signal does to the session, and what is left for the host to do.
pub open spec fn signalled(session: CLISessionView, signal: SignalView) -> (
    CLISessionView,
    SessionActionView,
) {
    match signal {
        SignalView::Quit => (CLISessionView { quit: true, ..session }, SessionActionView::Nothing),
        SignalView::CPUStep(n) => if session.cpu is Some && session.memory is Some {
            let (after, report) = stepped(session, n);
            (after, SessionActionView::Stepped(report.0, report.1))
        } else {
            (session, SessionActionView::Print(not_ready_message()))
        },
        SignalView::InitCPU => (
            CLISessionView { cpu: Some(fresh_cpu()), ..session },
            SessionActionView::Nothing,
        ),
        SignalView::InitMemory => (
            CLISessionView { memory: Some(fresh_memory()), ..session },
            SessionActionView::Nothing,
        ),
        SignalView::InitAll => (
            CLISessionView { cpu: Some(fresh_cpu()), memory: Some(fresh_memory()), ..session },
            SessionActionView::Nothing,
        ),
        SignalView::WriteMemory(addr, value) => if session.memory is Some {
            match session.cpu {
                Some(cpu) => (
                    CLISessionView {
                        cpu: Some(CPUView { memory: cpu.memory.update(addr as int, value), ..cpu }),
                        ..session
                    },
                    SessionActionView::Nothing,
                ),
                None => (session, SessionActionView::Fault(SessionFault::NoProcessor)),
            }
        } else {
            (session, SessionActionView::Print(no_memory_message()))
        },
        SignalView::FileOpen(path) => (session, SessionActionView::OpenFile(path)),
        SignalView::FileRun => match file_run(session).1 {
            Some(fault) => (session, SessionActionView::Fault(fault)),
            None => (file_run(session).0, SessionActionView::Nothing),
        },
    }
}

/// What a parsed command line does to the session, and what is left for the
/// host to do.
pub open spec fn executed(session: CLISessionView, command: CommandResultView) -> (
    CLISessionView,
    SessionActionView,
) {
    match command {
        CommandResultView::Nothing => (session, SessionActionView::Nothing),
        CommandResultView::Message(message) => (session, SessionActionView::Print(message)),
        CommandResultView::Signal(signal) => signalled(session, signal),
    }
}

/// Runs up to `steps` instructions on `cpu` and collects their results.
fn run_steps(cpu: &mut CPU, steps: usize) -> (report: StepReport)
    ensures
        final(cpu)@ == trace_of(old(cpu)@, steps as nat).cpu,
        report.results@ == trace_of(old(cpu)@, steps as nat).results,
        report.fault == trace_of(old(cpu)@, steps as nat).fault,
{
    let mut results: Vec<InstructionResult> = Vec::new();
    let mut done: usize = 0;
    while done < steps
        invariant
            done <= steps,
            trace_of(old(cpu)@, steps as nat).cpu == trace_of(cpu@, (steps - done) as nat).cpu,
            trace_of(old(cpu)@, steps as nat).fault == trace_of(
                cpu@,
                (steps - done) as nat,
            ).fault,
            trace_of(old(cpu)@, steps as nat).results == results@ + trace_of(
                cpu@,
                (steps - done) as nat,
            ).results,
        decreases steps - done,
    {
        let stats: CPUStats = *cpu.get_stats();
        if stats.total_cycles > usize::MAX - MAX_CYCLES || stats.instructions == usize::MAX {
            assert(results@ + Seq::<InstructionResult>::empty() == results@);
            return StepReport { results, fault: Some(SessionFault::CounterOverflow) };
        }
        let ghost collected = results@;
        match cpu.run() {
            Ok(result) => {
                results.push(result);
                proof {
                    let rest = trace_of(cpu@, (steps - done - 1) as nat);
                    assert(collected + (seq![result] + rest.results) == collected.push(result)
                        + rest.results);
                }
            },
            Err(error) => {
                assert(results@ + Seq::<InstructionResult>::empty() == results@);
                return StepReport { results, fault: Some(SessionFault::Decode(error)) };
            },
        }
        done += 1;
    }
    assert(results@ + Seq::<InstructionResult>::empty() == results@);
    StepReport { results, fault: None }
}

impl CLISession {
    /// A session without processor, memory or program.
    pub fn new() -> (session: CLISession)
        ensures
            session@ == (CLISessionView {
                quit: false,
                cpu: None,
                memory: None,
                file_contents: None,
            }),
    {
        CLISession { quit: false, cpu: None, memory: None, file_contents: None }
    }

    /// Whether both a processor and a memory were initialized.
    pub fn cpu_ready(&self) -> (ready: bool)
        ensures
            ready == (self@.cpu is Some && self@.memory is Some),
    {
        self.cpu.is_some() && self.memory.is_some()
    }

    /// The processor, if one was initialized.
    pub fn cpu(&self) -> (cpu: Option<&CPU>)
        ensures
            match cpu {
                Some(cpu) => self@.cpu == Some(cpu@),
                None => self@.cpu is None,
            },
    {
        self.cpu.as_ref()
    }

    /// Takes the text of a program file: hexadecimal bytes separated by
    /// white space. A text that holds anything else is refused and the
    /// opened program stays as it was.
    pub fn read_file(&mut self, text: &[u8]) -> (outcome: Result<(), ProgramError>)
        ensures
            match outcome {
                Ok(_) => spec_parse_program(text@) matches Ok(bytes) && final(self)@ == (
                CLISessionView { file_contents: Some(bytes), ..old(self)@ }),
                Err(error) => spec_parse_program(text@) == Err::<Seq<u8>, nat>(error.token as nat)
                    && final(self)@ == old(self)@,
            },
    {
        match parse_program(text) {
            Ok(bytes) => {
                self.file_contents = Some(bytes);
                Ok(())
            },
            Err(error) => Err(error),
        }
    }

    /// Writes the opened program to the processor's memory from address 0
    /// on.
    pub fn run_file(&mut self) -> (fault: Option<SessionFault>)
        ensures
            final(self)@ == file_run(old(self)@).0,
            fault == file_run(old(self)@).1,
    {
        match &self.file_contents {
            None => Some(SessionFault::NoProgram),
            Some(bytes) => {
                if bytes.len() == 0 {
                    None
                } else {
                    match &mut self.cpu {
                        None => Some(SessionFault::NoProcessor),
                        Some(cpu) => {
                            cpu.load(0, bytes.as_slice());
                            None
                        },
                    }
                }
            },
        }
    }

    /// Runs `n` instructions, none if `n` is negative, and reports what each
    /// of them returned.
    pub fn execute_cpu_step(&mut self, n: isize) -> (report: StepReport)
        ensures
            final(self)@ == stepped(old(self)@, n).0,
            report@ == stepped(old(self)@, n).1,
    {
        if n <= 0 {
            return StepReport { results: Vec::new(), fault: None };
        }
        match &mut self.cpu {
            None => StepReport { results: Vec::new(), fault: Some(SessionFault::NoProcessor) },
            Some(cpu) => run_steps(cpu, n as usize),
        }
    }

    /// Carries out a parsed command line and says what is left for the host
    /// to do.
    pub fn execute_result(&mut self, command_result: CommandResult) -> (action: SessionAction)
        ensures
            final(self)@ == executed(old(self)@, command_result@).0,
            action@ == executed(old(self)@, command_result@).1,
    {
        match command_result {
            CommandResult::Nothing => SessionAction::Nothing,
            CommandResult::Message(message) => SessionAction::Print(message),
            CommandResult::Signal(signal) => match signal {
                Signal::Quit => {
                    self.quit = true;
                    SessionAction::Nothing
                },
                Signal::CPUStep(n) => {
                    if self.cpu_ready() {
                        SessionAction::Stepped(self.execute_cpu_step(n))
                    } else {
                        SessionAction::Print(
                            String::from_str("CPU and/or Memory have not been initialized."),
                        )
                    }
                },
                Signal::InitCPU => {
                    self.cpu = Some(CPU::new(CPUState::new(), Memory::new()));
                    SessionAction::Nothing
                },
                Signal::InitMemory => {
                    self.memory = Some(Memory::new());
                    SessionAction::Nothing
                },
                Signal::InitAll => {
                    self.cpu = Some(CPU::new(CPUState::new(), Memory::new()));
                    self.memory = Some(Memory::new());
                    SessionAction::Nothing
                },
                Signal::WriteMemory(addr, value) => {
                    if self.memory.is_some() {
                        match &mut self.cpu {
                            Some(cpu) => {
                                cpu.write_byte(addr, value);
                                SessionAction::Nothing
                            },
                            None => SessionAction::Fault(SessionFault::NoProcessor),
                        }
                    } else {
                        SessionAction::Print(
                            String::from_str(
                                "Cannot write to Memory, it has not been initialized.",
                            ),
                        )
                    }
                },
                Signal::FileOpen(path) => SessionAction::OpenFile(path),
                Signal::FileRun => match self.run_file() {
                    Some(fault) => SessionAction::Fault(fault),
                    None => SessionAction::Nothing,
                },
            },
        }
    }
}

} // verus!
