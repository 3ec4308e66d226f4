//! Neutral, debugger-agnostic data types: what the tool layer speaks and what every backend
//! translates to and from. Texts are carried through unchanged; they are never normalised.
use vstd::prelude::*;
use vstd::string::*;

verus! {

/// Step and disassembly granularity.
#[derive(Debug, Clone, Copy, PartialEq, Eq, Structural)]
pub enum Granularity {
    Line,
    Instruction,
}

/// Whether a text is an expression to evaluate or a raw debugger command.
#[derive(Debug, Clone, Copy, PartialEq, Eq, Structural)]
pub enum EvalMode {
    Expression,
    Repl,
}

/// Which execution step to perform.
#[derive(Debug, Clone, Copy, PartialEq, Eq, Structural)]
pub enum StepKind {
    Over,
    Into,
    Out,
}

/// A snapshot of a stop. `reason` is free-form text.
#[derive(Debug, Clone, PartialEq, Eq)]
pub struct StopInfo {
    pub reason: String,
    pub thread_id: i64,
    pub description: String,
    pub hit_breakpoint_ids: Vec<i64>,
}

/// Outcome of an operation that lets the target run.
#[derive(Debug, Clone, PartialEq, Eq)]
pub enum StopOutcome {
    Stopped(StopInfo),
    Exited { code: Option<i64> },
    Terminated,
}

/// A request for a breakpoint on a source line.
#[derive(Debug, Clone, PartialEq, Eq)]
pub struct SourceBp {
    pub line: i64,
    pub condition: String,
}

/// A request for a breakpoint on a function.
#[derive(Debug, Clone, PartialEq, Eq)]
pub struct FunctionBp {
    pub name: String,
    pub condition: String,
}

/// Everything a launch needs, with the breakpoints that were asked for before it.
#[derive(Debug, Clone, PartialEq, Eq)]
pub struct LaunchSpec {
    pub program: String,
    pub args: Vec<String>,
    pub cwd: Option<String>,
    pub env: Vec<(String, String)>,
    pub stop_on_entry: bool,
    /// Source breakpoints, file by file.
    pub source_breakpoints: Vec<(String, Vec<SourceBp>)>,
    pub function_breakpoints: Vec<FunctionBp>,
}

/// Outcome of a launch.
#[derive(Debug, Clone, PartialEq, Eq)]
pub enum LaunchOutcome {
    Stopped(StopInfo),
    Running,
    Exited { code: Option<i64> },
}

/// Everything an attach needs. `pid` takes precedence over `wait_for`.
#[derive(Debug, Clone, PartialEq, Eq)]
pub struct AttachSpec {
    pub pid: Option<i64>,
    pub wait_for: Option<String>,
}

/// Outcome of an attach, which always stops on entry.
#[derive(Debug, Clone, PartialEq, Eq)]
pub enum AttachOutcome {
    Stopped(StopInfo),
    Exited { code: Option<i64> },
    Terminated,
}

/// One stack frame.
#[derive(Debug, Clone, PartialEq, Eq)]
pub struct Frame {
    pub index: i64,
    pub id: i64,
    pub name: String,
    pub source_path: Option<String>,
    pub line: i64,
    pub instruction_pointer: Option<String>,
}

/// One thread.
#[derive(Debug, Clone, PartialEq, Eq)]
pub struct ThreadInfo {
    pub id: i64,
    pub name: String,
}

/// A variable scope.
#[derive(Debug, Clone, PartialEq, Eq)]
pub struct Scope {
    pub name: String,
    pub variables_reference: i64,
}

/// One variable; `named` and `indexed` count its children.
#[derive(Debug, Clone, PartialEq, Eq)]
pub struct Variable {
    pub name: String,
    pub value: String,
    pub ty: String,
    pub variables_reference: i64,
    pub named: i64,
    pub indexed: i64,
}

/// Result of setting a breakpoint.
#[derive(Debug, PartialEq, Eq)]
pub struct BreakpointResult {
    pub id: i64,
    pub verified: bool,
    pub line: i64,
    pub message: String,
    /// The backend declined to register this breakpoint: it will never resolve and must not be
    /// tracked. An unverified breakpoint that may resolve later is not rejected.
    pub rejected: bool,
}

impl Clone for BreakpointResult {
    fn clone(&self) -> (r: Self)
        ensures
            r == *self,
    {
        BreakpointResult {
            id: self.id,
            verified: self.verified,
            line: self.line,
            message: self.message.clone(),
            rejected: self.rejected,
        }
    }
}

/// Result of an evaluation.
#[derive(Debug, Clone, PartialEq, Eq)]
pub struct EvalResult {
    pub result: String,
    pub ty: String,
    pub variables_reference: i64,
}

/// Raw memory bytes and the address that they were read from.
#[derive(Debug, Clone, PartialEq, Eq)]
pub struct MemoryRead {
    pub address: String,
    pub data: Vec<u8>,
}

/// One loaded module: `base` is `0x` and sixteen hexadecimal digits, `size` a decimal number of
/// bytes, and `symbol_status` one of `pdb`, `export`, `deferred` and `none`.
#[derive(Debug, Clone, PartialEq, Eq)]
pub struct ModuleInfo {
    pub name: String,
    pub base: String,
    pub size: String,
    pub symbol_status: String,
}

/// Outcome of opening a crash dump: the stop that the dump yielded, if any, and
/// `<file>:<line>` of the crash, if a source line maps.
#[derive(Debug, Clone, PartialEq, Eq)]
pub struct DumpOutcome {
    pub stop: Option<StopInfo>,
    pub crash_location: Option<String>,
}

/// One disassembled instruction.
#[derive(Debug, Clone, PartialEq, Eq)]
pub struct Instruction {
    pub address: String,
    pub instruction: String,
    pub bytes: String,
    pub symbol: String,
    pub source_path: Option<String>,
    pub line: i64,
}

} // verus!
