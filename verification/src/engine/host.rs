//! What a flow asks of its host, and what the host answers.
use super::WaitResult;
use crate::error::{ComError, EngineError};
use vstd::prelude::*;

verus! {

/// One of the interfaces of the debugger engine beside its client.
#[derive(Debug, Clone, Copy, PartialEq, Eq, Structural)]
pub enum Interface {
    Control,
    Symbols,
    DataSpaces,
    Registers,
    SystemObjects,
}

/// One call that a flow asks its host to make.
#[derive(Debug, Clone, PartialEq, Eq)]
pub enum Request {
    /// Get the base control interface, through which events are waited for.
    QueryBaseControl,
    /// Wait for a debug event, up to a number of milliseconds, and report the raw `HRESULT`.
    WaitForEvent(u32),
    /// Run a whole wait for an event, up to a number of milliseconds.
    Wait(u32),
    GetExecutionStatus,
    SetExecutionStatus(u32),
    /// Ask a running target to break.
    SetInterrupt,
    /// The id of the breakpoint that the last event is about, if it is about one.
    LastBreakpoint,
    /// Evaluate an expression to a 64-bit number.
    Evaluate(String),
    /// Lower the interrupt flag.
    ClearInterrupt,
    /// Set the deadline of the run, in milliseconds from now.
    SetDeadline(u32),
    /// Read the clock against the deadline of the run, and the interrupt flag.
    Poll,
    GetCurrentThread,
    SetCurrentThread(u32),
    AddEngineOptions(u32),
    RemoveEngineOptions(u32),
    CreateProcess { command_line: String, create_flags: u32, cwd: Option<String> },
    EnableDebugPrivilege,
    AttachProcess(u32),
    AttachKernel(String),
    OpenDumpFile(String),
    EndSession(u32),
    /// The name of the first module, as the raw bytes of a name buffer.
    MainModuleName,
    Reload(String),
    /// The source position of the current instruction.
    SourceLocation,
    Execute(String),
    GetOffsetByLine { file: String, line: u32 },
    GetOffsetByName(String),
    GetNumberModules,
    /// The name of a module, by index, as the raw bytes of a name buffer.
    ModuleName(u32),
    AddBreakpoint,
    SetBreakpointOffset(u64),
    EnableBreakpoint,
    GetBreakpointId,
    GetBreakpointById(u32),
    RemoveBreakpoint,
    GetNumberBreakpoints,
    /// Describe that many of the breakpoints.
    DescribeBreakpoints(u32),
    /// Look up the symbol of each of a list of addresses.
    NameOffsets(Vec<u64>),
    /// Describe that many of the modules.
    DescribeModules(u32),
    GetNumberThreads,
    GetThreadIds(u32),
    /// Walk the stack of the current thread, up to a number of frames.
    GetStackTrace(u64),
    /// Look up the symbol and the source line of each of a list of addresses.
    DescribeFrames(Vec<u64>),
    /// Scope the symbols to a frame of the last stack walk.
    SetScope(u64),
    /// Collect the local variables of the scope.
    GetScopeSymbolGroup,
    /// How many variables were collected.
    GetNumberSymbols,
    /// Describe that many of the collected variables.
    DescribeSymbols(u32),
    ResetScope,
    ReadVirtual { address: u64, size: u32 },
    Disassemble(u64),
    CreateClient,
    QueryInterface(Interface),
    SetSymbolPath(&'static str),
    GetSymbolOptions,
    SetSymbolOptions(u32),
    SetOutputCallbacks,
    SetEventCallbacks,
}

/// A symbol that an address resolved to: the raw bytes of its name, and how far past its start
/// the address lies.
#[derive(Debug, Clone, PartialEq, Eq)]
pub struct RawSymbol {
    pub name: Vec<u8>,
    pub displacement: u64,
}

/// A source line that an address maps to: the raw bytes of the file's path, and the line.
#[derive(Debug, Clone, PartialEq, Eq)]
pub struct RawLine {
    pub file: Vec<u8>,
    pub line: u32,
}

/// What was looked up for the address of a stack frame.
#[derive(Debug, Clone, PartialEq, Eq)]
pub struct RawFrame {
    pub symbol: Option<RawSymbol>,
    pub line: Option<RawLine>,
}

/// A local variable as the engine describes it: the raw bytes of its name, value and type, each
/// of which may be missing.
#[derive(Debug, Clone, PartialEq, Eq)]
pub struct RawVariable {
    pub name: Option<Vec<u8>>,
    pub value: Option<Vec<u8>>,
    pub ty: Option<Vec<u8>>,
}

/// A breakpoint as the engine describes it: its id and its address, each of which may be
/// missing.
#[derive(Debug, Clone, PartialEq, Eq)]
pub struct RawBreakpoint {
    pub id: Option<u32>,
    pub offset: Option<u64>,
}

/// A module as the engine describes it: its base, the raw bytes of its name, and its size and
/// kind of symbols. The last three may be missing.
#[derive(Debug, Clone, PartialEq, Eq)]
pub struct RawModule {
    pub base: u64,
    pub name: Option<Vec<u8>>,
    pub params: Option<(u32, u32)>,
}

/// One decoded instruction: the raw bytes of its text, and the address of the next one.
#[derive(Debug, Clone, PartialEq, Eq)]
pub struct RawInstruction {
    pub text: Vec<u8>,
    pub end: u64,
}

/// Bytes read from the target; only the first `read` of them are meaningful.
#[derive(Debug, Clone, PartialEq, Eq)]
pub struct RawBytes {
    pub bytes: Vec<u8>,
    pub read: u32,
}

/// What the host answers a request with.
#[derive(Debug, PartialEq, Eq)]
pub enum Answer {
    /// The call returns nothing but success or failure.
    Done(Result<(), ComError>),
    Number(Result<u32, ComError>),
    Offset(Result<u64, ComError>),
    Value(Result<i64, ComError>),
    /// An `HRESULT` as it is, success codes included.
    Hresult(ComError),
    Waited(Result<WaitResult, EngineError>),
    Breakpoint(Option<u32>),
    /// Whether the deadline of the run has passed, and whether its flag is raised.
    Polled { expired: bool, interrupted: bool },
    /// The raw bytes of a name buffer, if the name could be read.
    Name(Option<Vec<u8>>),
    Location(Result<Option<RawLine>, ComError>),
    ThreadIds(Result<(Vec<u32>, Vec<u32>), ComError>),
    /// The instruction addresses of the frames of a stack walk.
    Stack(Result<Vec<u64>, ComError>),
    Frames(Vec<RawFrame>),
    Locals(Vec<RawVariable>),
    /// The breakpoints that could be read, by index.
    Breakpoints(Vec<Option<RawBreakpoint>>),
    Symbols(Vec<Option<RawSymbol>>),
    /// The modules that could be read, by index.
    Modules(Vec<Option<RawModule>>),
    Memory(Result<RawBytes, ComError>),
    Instruction(Option<RawInstruction>),
}

impl Request {
    /// Whether `answer` is an answer of the kind that this request has.
    pub open spec fn answered_by(self, answer: Answer) -> bool {
        match self {
            Request::WaitForEvent(_) => answer is Hresult,
            Request::Wait(_) => answer is Waited,
            Request::LastBreakpoint => answer is Breakpoint,
            Request::Evaluate(_) => answer is Value,
            Request::Poll => answer is Polled,
            Request::GetExecutionStatus
            | Request::GetCurrentThread
            | Request::GetNumberModules
            | Request::GetNumberThreads
            | Request::GetBreakpointId
            | Request::GetNumberBreakpoints
            | Request::GetNumberSymbols
            | Request::GetSymbolOptions => answer is Number,
            Request::GetOffsetByLine { .. } | Request::GetOffsetByName(_) => answer is Offset,
            Request::MainModuleName | Request::ModuleName(_) => answer is Name,
            Request::SourceLocation => answer is Location,
            Request::GetThreadIds(n) => answer matches Answer::ThreadIds(ids) && (ids matches Ok(
                pair,
            ) ==> pair.0@.len() == n && pair.1@.len() == n),
            Request::GetStackTrace(max) => answer matches Answer::Stack(stack) && (stack matches Ok(
                ips,
            ) ==> ips@.len() <= max),
            Request::DescribeFrames(ips) => answer matches Answer::Frames(frames) && frames@.len()
                == ips@.len(),
            Request::DescribeSymbols(n) => answer matches Answer::Locals(raw) && raw@.len() == n,
            Request::DescribeBreakpoints(n) => answer matches Answer::Breakpoints(raw) && raw@.len()
                == n,
            Request::NameOffsets(offsets) => answer matches Answer::Symbols(raw) && raw@.len()
                == offsets@.len(),
            Request::DescribeModules(n) => answer matches Answer::Modules(raw) && raw@.len() == n,
            Request::ReadVirtual { size, .. } => answer matches Answer::Memory(memory) && (
            memory matches Ok(raw) ==> raw.bytes@.len() == size),
            Request::Disassemble(_) => answer is Instruction,
            _ => answer is Done,
        }
    }
}

/// What a flow does next: ask for a call, or end with a result.
pub enum Next<T> {
    Ask(Request),
    End(Result<T, EngineError>),
}

impl<T> Next<T> {
    /// Whether the flow ends with the failure of a COM operation.
    pub open spec fn fails_op(self, context: Seq<char>, source: ComError) -> bool {
        self matches Next::End(Err(e)) && e.is_op(context, source)
    }

    /// Whether the flow ends with a refusal of the engine.
    pub open spec fn fails_engine(self, message: Seq<char>) -> bool {
        self matches Next::End(Err(e)) && e.is_engine(message)
    }
}

} // verus!
