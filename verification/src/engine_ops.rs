//! The operations of a debugger engine, as commands, as replies, and as a trait of engines.
use crate::callbacks::{OutputKind, OutputSink};
use crate::engine::{BpLoc, InterruptHandle, LaunchReq};
use crate::error::EngineError;
use crate::types::{
    BreakpointResult, DumpOutcome, EvalResult, Frame, Instruction, MemoryRead, ModuleInfo, StepKind,
    StopOutcome, ThreadInfo, Variable,
};
use vstd::prelude::*;
use vstd::string::*;

verus! {

broadcast use vstd::string::group_string_axioms;

/// One operation that an engine thread is asked for.
#[derive(Debug, Clone, PartialEq, Eq)]
pub enum EngineCmd {
    /// Launch a program, up to its loader break.
    Launch { req: LaunchReq },
    /// Attach to a running process.
    AttachPid { pid: u32 },
    /// End the session; `terminate` kills a live target.
    Detach { terminate: bool },
    /// Let the target run, for so many milliseconds at most.
    Go { timeout_ms: u32 },
    /// Step the current thread.
    Step { kind: StepKind },
    /// Break into a running target.
    BreakIn,
    /// Set a breakpoint, with a condition unless that is empty.
    SetBreakpoint { loc: BpLoc, condition: String },
    /// Remove a breakpoint.
    RemoveBreakpoint { id: i64 },
    /// List the breakpoints.
    ListBreakpoints,
    /// List the threads.
    Threads,
    /// Walk the stack of a thread, for so many frames at most.
    StackTrace { thread_id: i64, max: i64 },
    /// Read the local variables of a frame.
    Locals { frame_index: i64 },
    /// Evaluate an expression.
    Evaluate { expr: String },
    /// Read memory.
    ReadMemory { address: u64, size: usize },
    /// Disassemble so many instructions.
    Disassemble { address: u64, count: i64 },
    /// Run a raw command.
    Execute { command: String },
    /// List the loaded modules.
    Modules,
    /// The source position of the current instruction.
    CurrentSourceLocation,
    /// Open a crash dump.
    OpenDump { path: String },
    /// Attach to a kernel.
    AttachKernel { connection: String },
    /// Run the crash analysis.
    Analyze,
    /// Install the receiver of the output. This has no result.
    SetOutputSink { sink: OutputSink },
}

/// An operation by its arguments alone.
pub enum Call {
    Launch { req: LaunchReq },
    AttachPid { pid: u32 },
    Detach { terminate: bool },
    Go { timeout_ms: u32 },
    Step { kind: StepKind },
    BreakIn,
    SetBreakpoint { loc: BpLoc, condition: Seq<char> },
    RemoveBreakpoint { id: i64 },
    ListBreakpoints,
    Threads,
    StackTrace { thread_id: i64, max: i64 },
    Locals { frame_index: i64 },
    Evaluate { expr: Seq<char> },
    ReadMemory { address: u64, size: usize },
    Disassemble { address: u64, count: i64 },
    Execute { command: Seq<char> },
    Modules,
    CurrentSourceLocation,
    OpenDump { path: Seq<char> },
    AttachKernel { connection: Seq<char> },
    Analyze,
    SetOutputSink { waiting: Seq<(OutputKind, Seq<char>)> },
}

/// What an engine replies to an operation.
#[derive(Debug, PartialEq, Eq)]
pub enum EngineReply {
    Stop(Result<StopOutcome, EngineError>),
    Done(Result<(), EngineError>),
    Went(Result<Option<StopOutcome>, EngineError>),
    Breakpoint(Result<BreakpointResult, EngineError>),
    Breakpoints(Result<Vec<BreakpointResult>, EngineError>),
    Threads(Result<Vec<ThreadInfo>, EngineError>),
    Frames(Result<Vec<Frame>, EngineError>),
    Variables(Result<Vec<Variable>, EngineError>),
    Value(Result<EvalResult, EngineError>),
    Memory(Result<MemoryRead, EngineError>),
    Instructions(Result<Vec<Instruction>, EngineError>),
    Text(Result<String, EngineError>),
    Modules(Result<Vec<ModuleInfo>, EngineError>),
    Location(Result<Option<(String, i64)>, EngineError>),
    Dump(Result<DumpOutcome, EngineError>),
    /// The operation has no result.
    Installed,
}

impl EngineCmd {
    /// The operation that is asked for.
    pub open spec fn call(self) -> Call {
        match self {
            EngineCmd::Launch { req } => Call::Launch { req },
            EngineCmd::AttachPid { pid } => Call::AttachPid { pid },
            EngineCmd::Detach { terminate } => Call::Detach { terminate },
            EngineCmd::Go { timeout_ms } => Call::Go { timeout_ms },
            EngineCmd::Step { kind } => Call::Step { kind },
            EngineCmd::BreakIn => Call::BreakIn,
            EngineCmd::SetBreakpoint { loc, condition } => Call::SetBreakpoint { loc, condition: condition@ },
            EngineCmd::RemoveBreakpoint { id } => Call::RemoveBreakpoint { id },
            EngineCmd::ListBreakpoints => Call::ListBreakpoints,
            EngineCmd::Threads => Call::Threads,
            EngineCmd::StackTrace { thread_id, max } => Call::StackTrace { thread_id, max },
            EngineCmd::Locals { frame_index } => Call::Locals { frame_index },
            EngineCmd::Evaluate { expr } => Call::Evaluate { expr: expr@ },
            EngineCmd::ReadMemory { address, size } => Call::ReadMemory { address, size },
            EngineCmd::Disassemble { address, count } => Call::Disassemble { address, count },
            EngineCmd::Execute { command } => Call::Execute { command: command@ },
            EngineCmd::Modules => Call::Modules,
            EngineCmd::CurrentSourceLocation => Call::CurrentSourceLocation,
            EngineCmd::OpenDump { path } => Call::OpenDump { path: path@ },
            EngineCmd::AttachKernel { connection } => Call::AttachKernel { connection: connection@ },
            EngineCmd::Analyze => Call::Analyze,
            EngineCmd::SetOutputSink { sink } => Call::SetOutputSink { waiting: sink.waiting() },
        }
    }

    /// Whether `reply` is a reply of the kind that this operation has.
    pub open spec fn answered_by(self, reply: EngineReply) -> bool {
        match self {
            EngineCmd::Launch { .. }
            | EngineCmd::AttachPid { .. }
            | EngineCmd::Step { .. }
            | EngineCmd::BreakIn
            | EngineCmd::AttachKernel { .. } => reply is Stop,
            EngineCmd::Detach { .. }
            | EngineCmd::RemoveBreakpoint { .. } => reply is Done,
            EngineCmd::Go { .. } => reply is Went,
            EngineCmd::SetBreakpoint { .. } => reply is Breakpoint,
            EngineCmd::ListBreakpoints => reply is Breakpoints,
            EngineCmd::Threads => reply is Threads,
            EngineCmd::StackTrace { .. } => reply is Frames,
            EngineCmd::Locals { .. } => reply is Variables,
            EngineCmd::Evaluate { .. } => reply is Value,
            EngineCmd::ReadMemory { .. } => reply is Memory,
            EngineCmd::Disassemble { .. } => reply is Instructions,
            EngineCmd::Execute { .. }
            | EngineCmd::Analyze => reply is Text,
            EngineCmd::Modules => reply is Modules,
            EngineCmd::CurrentSourceLocation => reply is Location,
            EngineCmd::OpenDump { .. } => reply is Dump,
            EngineCmd::SetOutputSink { .. } => reply is Installed,
        }
    }
}

/// A debugger engine. What was asked of it, and what came of it, is its history; every operation
/// adds itself to it.
pub trait EngineOps {
    /// The operations so far, each with its reply.
    closed spec fn history(&self) -> Seq<(Call, EngineReply)> {
        Seq::empty()
    }

    /// Launch a program, up to its loader break.
    fn launch(&mut self, req: &LaunchReq) -> (r: Result<StopOutcome, EngineError>)
        ensures
            final(self).history() == old(self).history().push(
                (Call::Launch { req: *req }, EngineReply::Stop(r)),
            ),
    ;

    /// Attach to a running process.
    fn attach_pid(&mut self, pid: u32) -> (r: Result<StopOutcome, EngineError>)
        ensures
            final(self).history() == old(self).history().push(
                (Call::AttachPid { pid }, EngineReply::Stop(r)),
            ),
    ;

    /// End the session; `terminate` kills a live target.
    fn detach(&mut self, terminate: bool) -> (r: Result<(), EngineError>)
        ensures
            final(self).history() == old(self).history().push(
                (Call::Detach { terminate }, EngineReply::Done(r)),
            ),
    ;

    /// Let the target run, for so many milliseconds at most.
    fn go(&mut self, timeout_ms: u32) -> (r: Result<Option<StopOutcome>, EngineError>)
        ensures
            final(self).history() == old(self).history().push(
                (Call::Go { timeout_ms }, EngineReply::Went(r)),
            ),
    ;

    /// Step the current thread.
    fn step(&mut self, kind: StepKind) -> (r: Result<StopOutcome, EngineError>)
        ensures
            final(self).history() == old(self).history().push(
                (Call::Step { kind }, EngineReply::Stop(r)),
            ),
    ;

    /// Break into a running target.
    fn break_in(&mut self) -> (r: Result<StopOutcome, EngineError>)
        ensures
            final(self).history() == old(self).history().push(
                (Call::BreakIn, EngineReply::Stop(r)),
            ),
    ;

    /// Set a breakpoint, with a condition unless that is empty.
    fn set_breakpoint(&mut self, loc: &BpLoc, condition: &str) -> (r: Result<BreakpointResult, EngineError>)
        ensures
            final(self).history() == old(self).history().push(
                (Call::SetBreakpoint { loc: *loc, condition: condition@ }, EngineReply::Breakpoint(r)),
            ),
    ;

    /// Remove a breakpoint.
    fn remove_breakpoint(&mut self, id: i64) -> (r: Result<(), EngineError>)
        ensures
            final(self).history() == old(self).history().push(
                (Call::RemoveBreakpoint { id }, EngineReply::Done(r)),
            ),
    ;

    /// List the breakpoints.
    fn list_breakpoints(&mut self) -> (r: Result<Vec<BreakpointResult>, EngineError>)
        ensures
            final(self).history() == old(self).history().push(
                (Call::ListBreakpoints, EngineReply::Breakpoints(r)),
            ),
    ;

    /// List the threads.
    fn threads(&mut self) -> (r: Result<Vec<ThreadInfo>, EngineError>)
        ensures
            final(self).history() == old(self).history().push(
                (Call::Threads, EngineReply::Threads(r)),
            ),
    ;

    /// Walk the stack of a thread, for so many frames at most.
    fn stack_trace(&mut self, thread_id: i64, max: i64) -> (r: Result<Vec<Frame>, EngineError>)
        ensures
            final(self).history() == old(self).history().push(
                (Call::StackTrace { thread_id, max }, EngineReply::Frames(r)),
            ),
    ;

    /// Read the local variables of a frame.
    fn locals(&mut self, frame_index: i64) -> (r: Result<Vec<Variable>, EngineError>)
        ensures
            final(self).history() == old(self).history().push(
                (Call::Locals { frame_index }, EngineReply::Variables(r)),
            ),
    ;

    /// Evaluate an expression.
    fn evaluate(&mut self, expr: &str) -> (r: Result<EvalResult, EngineError>)
        ensures
            final(self).history() == old(self).history().push(
                (Call::Evaluate { expr: expr@ }, EngineReply::Value(r)),
            ),
    ;

    /// Read memory.
    fn read_memory(&mut self, address: u64, size: usize) -> (r: Result<MemoryRead, EngineError>)
        ensures
            final(self).history() == old(self).history().push(
                (Call::ReadMemory { address, size }, EngineReply::Memory(r)),
            ),
    ;

    /// Disassemble so many instructions.
    fn disassemble(&mut self, address: u64, count: i64) -> (r: Result<Vec<Instruction>, EngineError>)
        ensures
            final(self).history() == old(self).history().push(
                (Call::Disassemble { address, count }, EngineReply::Instructions(r)),
            ),
    ;

    /// Run a raw command.
    fn execute(&mut self, command: &str) -> (r: Result<String, EngineError>)
        ensures
            final(self).history() == old(self).history().push(
                (Call::Execute { command: command@ }, EngineReply::Text(r)),
            ),
    ;

    /// List the loaded modules.
    fn modules(&mut self) -> (r: Result<Vec<ModuleInfo>, EngineError>)
        ensures
            final(self).history() == old(self).history().push(
                (Call::Modules, EngineReply::Modules(r)),
            ),
    ;

    /// The source position of the current instruction.
    fn current_source_location(&mut self) -> (r: Result<Option<(String, i64)>, EngineError>)
        ensures
            final(self).history() == old(self).history().push(
                (Call::CurrentSourceLocation, EngineReply::Location(r)),
            ),
    ;

    /// Open a crash dump.
    fn open_dump(&mut self, path: &str) -> (r: Result<DumpOutcome, EngineError>)
        ensures
            final(self).history() == old(self).history().push(
                (Call::OpenDump { path: path@ }, EngineReply::Dump(r)),
            ),
    ;

    /// Attach to a kernel.
    fn attach_kernel(&mut self, connection: &str) -> (r: Result<StopOutcome, EngineError>)
        ensures
            final(self).history() == old(self).history().push(
                (Call::AttachKernel { connection: connection@ }, EngineReply::Stop(r)),
            ),
    ;

    /// Run the crash analysis.
    fn analyze(&mut self) -> (r: Result<String, EngineError>)
        ensures
            final(self).history() == old(self).history().push(
                (Call::Analyze, EngineReply::Text(r)),
            ),
    ;

    /// Installs the receiver of the output.
    fn set_output_sink(&mut self, sink: OutputSink)
        ensures
            final(self).history() == old(self).history().push(
                (Call::SetOutputSink { waiting: sink.waiting() }, EngineReply::Installed),
            ),
    ;

    /// A token that asks the engine to break in.
    fn interrupt_handle(&self) -> InterruptHandle;
}

/// Runs one command on an engine: the one operation that it asks for, whose result is the reply.
pub fn dispatch<E: EngineOps>(engine: &mut E, cmd: EngineCmd) -> (r: EngineReply)
    ensures
        final(engine).history() == old(engine).history().push((cmd.call(), r)),
        cmd.answered_by(r),
{
    match cmd {
        EngineCmd::Launch { req } => EngineReply::Stop(engine.launch(&req)),
        EngineCmd::AttachPid { pid } => EngineReply::Stop(engine.attach_pid(pid)),
        EngineCmd::Detach { terminate } => EngineReply::Done(engine.detach(terminate)),
        EngineCmd::Go { timeout_ms } => EngineReply::Went(engine.go(timeout_ms)),
        EngineCmd::Step { kind } => EngineReply::Stop(engine.step(kind)),
        EngineCmd::BreakIn => EngineReply::Stop(engine.break_in()),
        EngineCmd::SetBreakpoint { loc, condition } => EngineReply::Breakpoint(engine.set_breakpoint(&loc, condition.as_str())),
        EngineCmd::RemoveBreakpoint { id } => EngineReply::Done(engine.remove_breakpoint(id)),
        EngineCmd::ListBreakpoints => EngineReply::Breakpoints(engine.list_breakpoints()),
        EngineCmd::Threads => EngineReply::Threads(engine.threads()),
        EngineCmd::StackTrace { thread_id, max } => EngineReply::Frames(engine.stack_trace(thread_id, max)),
        EngineCmd::Locals { frame_index } => EngineReply::Variables(engine.locals(frame_index)),
        EngineCmd::Evaluate { expr } => EngineReply::Value(engine.evaluate(expr.as_str())),
        EngineCmd::ReadMemory { address, size } => EngineReply::Memory(engine.read_memory(address, size)),
        EngineCmd::Disassemble { address, count } => EngineReply::Instructions(engine.disassemble(address, count)),
        EngineCmd::Execute { command } => EngineReply::Text(engine.execute(command.as_str())),
        EngineCmd::Modules => EngineReply::Modules(engine.modules()),
        EngineCmd::CurrentSourceLocation => EngineReply::Location(engine.current_source_location()),
        EngineCmd::OpenDump { path } => EngineReply::Dump(engine.open_dump(path.as_str())),
        EngineCmd::AttachKernel { connection } => EngineReply::Stop(engine.attach_kernel(connection.as_str())),
        EngineCmd::Analyze => EngineReply::Text(engine.analyze()),
        EngineCmd::SetOutputSink { sink } => {
            engine.set_output_sink(sink);
            EngineReply::Installed
        },
    }
}

/// Commands with different arguments are different operations: each keeps what it was given.
pub proof fn commands_keep_their_arguments(cmd: EngineCmd)
    ensures
        cmd matches EngineCmd::Launch { req } ==> cmd.call() == (Call::Launch { req }),
        cmd matches EngineCmd::AttachPid { pid } ==> cmd.call() == (Call::AttachPid { pid }),
        cmd matches EngineCmd::Detach { terminate } ==> cmd.call() == (Call::Detach { terminate }),
        cmd matches EngineCmd::Go { timeout_ms } ==> cmd.call() == (Call::Go { timeout_ms }),
        cmd matches EngineCmd::Step { kind } ==> cmd.call() == (Call::Step { kind }),
        cmd matches EngineCmd::BreakIn ==> cmd.call() == Call::BreakIn,
        cmd matches EngineCmd::SetBreakpoint { loc, condition } ==> cmd.call() == (
        Call::SetBreakpoint { loc, condition: condition@ }),
        cmd matches EngineCmd::RemoveBreakpoint { id } ==> cmd.call() == (Call::RemoveBreakpoint {
            id,
        }),
        cmd matches EngineCmd::ListBreakpoints ==> cmd.call() == Call::ListBreakpoints,
        cmd matches EngineCmd::Threads ==> cmd.call() == Call::Threads,
        cmd matches EngineCmd::StackTrace { thread_id, max } ==> cmd.call() == (Call::StackTrace {
            thread_id,
            max,
        }),
        cmd matches EngineCmd::Locals { frame_index } ==> cmd.call() == (Call::Locals {
            frame_index,
        }),
        cmd matches EngineCmd::Evaluate { expr } ==> cmd.call() == (Call::Evaluate { expr: expr@ }),
        cmd matches EngineCmd::ReadMemory { address, size } ==> cmd.call() == (Call::ReadMemory {
            address,
            size,
        }),
        cmd matches EngineCmd::Disassemble { address, count } ==> cmd.call() == (
        Call::Disassemble { address, count }),
        cmd matches EngineCmd::Execute { command } ==> cmd.call() == (Call::Execute {
            command: command@,
        }),
        cmd matches EngineCmd::Modules ==> cmd.call() == Call::Modules,
        cmd matches EngineCmd::CurrentSourceLocation ==> cmd.call() == Call::CurrentSourceLocation,
        cmd matches EngineCmd::OpenDump { path } ==> cmd.call() == (Call::OpenDump { path: path@ }),
        cmd matches EngineCmd::AttachKernel { connection } ==> cmd.call() == (Call::AttachKernel {
            connection: connection@,
        }),
        cmd matches EngineCmd::Analyze ==> cmd.call() == Call::Analyze,
        cmd matches EngineCmd::SetOutputSink { sink } ==> cmd.call() == (Call::SetOutputSink {
            waiting: sink.waiting(),
        }),
{
}

} // verus!
