//! The WinDbg backend: neutral debugger requests, as commands for the engine thread.
pub mod address;
pub mod call;
pub mod launch;
pub mod laws;
pub mod reconcile;
pub mod requests;
pub mod table;

use crate::engine_ops::{EngineCmd, EngineReply};
use crate::error::BackendError;
use crate::text::{decimal, render_i64, text3};
use crate::types::{
    AttachOutcome, AttachSpec, BreakpointResult, EvalMode, EvalResult, Frame, FunctionBp,
    Granularity, Scope, SourceBp, StepKind, StopOutcome,
};
use address::{address_value, parse_address};
use call::{
    BackendNext, brings, frames_in, frames_result, stop_in, stop_result, text_in, text_result,
    value_in, value_result, went_in, went_result,
};
use reconcile::{
    Progress, ReconcileFlow, Wanted, is_wanted_function, is_wanted_line, wanted_function,
    wanted_line,
};
use table::{BpKey, BpScope, BreakpointTable, covered};
use vstd::prelude::*;
use vstd::string::*;

verus! {

broadcast use vstd::string::group_string_axioms;

/// What a backend keeps between requests: the process id of its target, where one is known, and
/// the breakpoints that it has set.
pub struct WinDbgBackend {
    pub target_pid: Option<i64>,
    pub breakpoints: BreakpointTable,
}

/// The most that a reference to the variables of a frame can be.
pub const MAX_FRAME_REFERENCE: i64 = 0x10_0000;

/// How many frames are fetched when all are asked for.
pub const ALL_FRAMES: i64 = 1024;

/// How often a process is looked for, in milliseconds.
pub const WAIT_FOR_POLL: u64 = 75;

/// How long a process is looked for, in milliseconds.
pub const WAIT_FOR_TIMEOUT: u64 = 30_000;

impl WinDbgBackend {
    /// Whether the backend is in order.
    pub open spec fn well_formed(self) -> bool {
        self.breakpoints.well_formed()
    }

    /// A backend that has set no breakpoints.
    pub fn new(debugger_pid: Option<i64>) -> (r: WinDbgBackend)
        ensures
            r.well_formed(),
            r.target_pid == debugger_pid,
            r.breakpoints@ == Map::<BpKey, BreakpointResult>::empty(),
    {
        WinDbgBackend { target_pid: debugger_pid, breakpoints: BreakpointTable::new() }
    }

    /// The process id of the target, where one is known.
    pub fn debugger_pid(&self) -> (r: Option<i64>)
        ensures
            r == self.target_pid,
    {
        self.target_pid
    }

    /// Raw commands are run as they are given.
    pub fn supports_command_repl_mode(&self) -> (r: bool)
        ensures
            r,
    {
        true
    }

    // ---- breakpoints ----

    /// Begins to make the breakpoints on the lines of a file the ones that are asked for.
    pub fn set_source_breakpoints(&mut self, file: &str, bps: &Vec<SourceBp>) -> (r: (
        ReconcileFlow,
        BackendNext<Vec<BreakpointResult>>,
    ))
        requires
            old(self).well_formed(),
        ensures
            final(self).well_formed(),
            final(self).target_pid == old(self).target_pid,
            r.0.well_formed(),
            r.0.scope matches BpScope::File(f) && f@ == file@,
            r.0.wanted@.len() == bps@.len(),
            forall|i: int|
                0 <= i < bps@.len() ==> is_wanted_line(file@, bps@[i], #[trigger] r.0.wanted@[i]),
            r.0.prior@ == old(self).breakpoints@.restrict(covered(r.0.scope, true)),
            r.0.proceeds(
                Progress { index: 0, results: Seq::empty(), kept: Map::empty() },
                old(self).breakpoints,
                r.0,
                final(self).breakpoints,
                r.1,
            ),
    {
        let mut wanted: Vec<Wanted> = Vec::new();
        let mut i: usize = 0;
        while i < bps.len()
            invariant
                i <= bps@.len(),
                wanted@.len() == i,
                forall|j: int|
                    0 <= j < i ==> is_wanted_line(file@, bps@[j], #[trigger] wanted@[j]),
            decreases bps@.len() - i,
        {
            wanted.push(wanted_line(file, &bps[i]));
            i = i + 1;
        }
        ReconcileFlow::begin(BpScope::File(file.to_owned()), wanted, &mut self.breakpoints)
    }

    /// Begins to make the function breakpoints the ones that are asked for.
    pub fn set_function_breakpoints(&mut self, bps: &Vec<FunctionBp>) -> (r: (
        ReconcileFlow,
        BackendNext<Vec<BreakpointResult>>,
    ))
        requires
            old(self).well_formed(),
        ensures
            final(self).well_formed(),
            final(self).target_pid == old(self).target_pid,
            r.0.well_formed(),
            r.0.scope is Functions,
            r.0.wanted@.len() == bps@.len(),
            forall|i: int|
                0 <= i < bps@.len() ==> is_wanted_function(bps@[i], #[trigger] r.0.wanted@[i]),
            r.0.prior@ == old(self).breakpoints@.restrict(covered(r.0.scope, true)),
            r.0.proceeds(
                Progress { index: 0, results: Seq::empty(), kept: Map::empty() },
                old(self).breakpoints,
                r.0,
                final(self).breakpoints,
                r.1,
            ),
    {
        let mut wanted: Vec<Wanted> = Vec::new();
        let mut i: usize = 0;
        while i < bps.len()
            invariant
                i <= bps@.len(),
                wanted@.len() == i,
                forall|j: int|
                    0 <= j < i ==> is_wanted_function(bps@[j], #[trigger] wanted@[j]),
            decreases bps@.len() - i,
        {
            wanted.push(wanted_function(&bps[i]));
            i = i + 1;
        }
        ReconcileFlow::begin(BpScope::Functions, wanted, &mut self.breakpoints)
    }

    // ---- attaching ----

    /// Begins to attach to a process: its id is known from here on.
    pub fn attach(&mut self, pid: u32) -> (r: EngineCmd)
        ensures
            final(self).target_pid == Some(pid as i64),
            final(self).breakpoints == old(self).breakpoints,
            r == (EngineCmd::AttachPid { pid }),
    {
        self.target_pid = Some(pid as i64);
        EngineCmd::AttachPid { pid }
    }
}

// ---- attaching ----

/// Which process to attach to.
#[derive(Debug, PartialEq, Eq)]
pub enum AttachTarget {
    Pid(u32),
    /// The process of this name, once it appears.
    Named(String),
}

/// Which process is to be attached to. An id goes before a name.
pub fn attach_target(spec: AttachSpec) -> (r: Result<AttachTarget, BackendError>)
    ensures
        match (spec.pid, spec.wait_for) {
            (Some(pid), _) => if 0 <= pid <= u32::MAX {
                r matches Ok(AttachTarget::Pid(p)) && p == pid
            } else {
                r matches Err(e) && e.is_dap(
                    "attach: pid "@ + decimal(pid as int) + " is out of range"@,
                )
            },
            (None, Some(name)) => r == Ok::<AttachTarget, BackendError>(AttachTarget::Named(name)),
            (None, None) => r matches Err(e) && e.is_dap(
                "attach: neither pid nor wait_for was supplied"@,
            ),
        },
{
    match spec.pid {
        Some(pid) => if 0 <= pid && pid <= 0xFFFF_FFFF {
            Ok(AttachTarget::Pid(pid as u32))
        } else {
            Err(
                BackendError::Dap {
                    message: text3("attach: pid ", render_i64(pid).as_str(), " is out of range"),
                },
            )
        },
        None => match spec.wait_for {
            Some(name) => Ok(AttachTarget::Named(name)),
            None => Err(
                BackendError::Dap {
                    message: "attach: neither pid nor wait_for was supplied".to_owned(),
                },
            ),
        },
    }
}

/// What the wait for a process does after it has looked.
pub enum PollStep {
    End(Result<u32, BackendError>),
    /// Sleep, and look again.
    Sleep,
}

/// What the wait for a process does after it has looked once: `expired` says whether its time is
/// up. A process that was found counts even then.
pub fn poll_for_process(name: &str, found: Option<u32>, expired: bool) -> (r: PollStep)
    ensures
        match found {
            Some(pid) => r == PollStep::End(Ok(pid)),
            None => if expired {
                r matches PollStep::End(Err(e)) && e.is_dap(
                    "wait_for: no process named '"@ + name@ + "' appeared"@,
                )
            } else {
                r is Sleep
            },
        },
{
    match found {
        Some(pid) => PollStep::End(Ok(pid)),
        None => if expired {
            PollStep::End(
                Err(
                    BackendError::Dap {
                        message: text3("wait_for: no process named '", name, "' appeared"),
                    },
                ),
            )
        } else {
            PollStep::Sleep
        },
    }
}

/// What an attach reports.
pub open spec fn attach_outcome(outcome: StopOutcome) -> AttachOutcome {
    match outcome {
        StopOutcome::Stopped(info) => AttachOutcome::Stopped(info),
        StopOutcome::Exited { code } => AttachOutcome::Exited { code },
        StopOutcome::Terminated => AttachOutcome::Terminated,
    }
}

/// What an attach reports.
pub fn stop_to_attach(outcome: StopOutcome) -> (r: AttachOutcome)
    ensures
        r == attach_outcome(outcome),
{
    match outcome {
        StopOutcome::Stopped(info) => AttachOutcome::Stopped(info),
        StopOutcome::Exited { code } => AttachOutcome::Exited { code },
        StopOutcome::Terminated => AttachOutcome::Terminated,
    }
}

/// What an attach brings, to a process or to a kernel.
pub fn attached(reply: Option<EngineReply>) -> (r: Result<AttachOutcome, BackendError>)
    requires
        reply matches Some(answer) ==> answer is Stop,
    ensures
        match stop_in(reply) {
            Some(Ok(outcome)) => r == Ok::<AttachOutcome, BackendError>(attach_outcome(outcome)),
            failed => r matches Err(e) && brings(failed, Err(e)),
        },
{
    match stop_result(reply) {
        Ok(outcome) => Ok(stop_to_attach(outcome)),
        Err(e) => Err(e),
    }
}

// ---- disconnecting ----

/// What a disconnect does next.
#[derive(Debug, PartialEq, Eq)]
pub enum DisconnectStep {
    /// Raise the interrupt flag, so that a target that runs lets go of the engine thread.
    Interrupt,
    /// Send a command, whatever comes of it.
    Call(EngineCmd),
    End,
}

/// A disconnect: how many of its steps are done.
pub struct DisconnectFlow {
    pub terminate: bool,
    pub done: u8,
}

impl DisconnectFlow {
    /// Begins to disconnect; `terminate` kills a live target.
    pub fn begin(terminate: bool) -> (r: DisconnectFlow)
        ensures
            r == (DisconnectFlow { terminate, done: 0 }),
    {
        DisconnectFlow { terminate, done: 0 }
    }

    /// The next step: the interrupt comes before the detach, which could otherwise wait behind a
    /// target that runs on.
    pub fn next(&mut self) -> (r: DisconnectStep)
        ensures
            final(self).terminate == old(self).terminate,
            old(self).done == 0 ==> r is Interrupt && final(self).done == 1,
            old(self).done == 1 ==> r == DisconnectStep::Call(
                EngineCmd::Detach { terminate: old(self).terminate },
            ) && final(self).done == 2,
            old(self).done >= 2 ==> r is End && final(self).done == old(self).done,
    {
        if self.done == 0 {
            self.done = 1;
            DisconnectStep::Interrupt
        } else if self.done == 1 {
            self.done = 2;
            DisconnectStep::Call(EngineCmd::Detach { terminate: self.terminate })
        } else {
            DisconnectStep::End
        }
    }
}

// ---- running ----

/// What a continue is waiting for.
#[derive(Debug, Clone, Copy, PartialEq, Eq, Structural)]
pub enum ContPhase {
    Going,
    /// A break: the target ran for longer than anyone can wait.
    Breaking,
    Over,
}

/// A continue, up to the next stop.
pub struct ContFlow {
    pub phase: ContPhase,
}

impl ContFlow {
    /// Whether `reply` answers the command that was sent; none when the engine thread is gone.
    pub open spec fn expects(self, reply: Option<EngineReply>) -> bool {
        match self.phase {
            ContPhase::Going => reply matches Some(r) ==> r is Went,
            ContPhase::Breaking => reply matches Some(r) ==> r is Stop,
            ContPhase::Over => false,
        }
    }

    /// Begins to let the whole target run, without an end.
    pub fn begin(thread_id: i64) -> (r: (ContFlow, EngineCmd))
        ensures
            r.0.phase is Going,
            r.1 == (EngineCmd::Go { timeout_ms: u32::MAX }),
    {
        (ContFlow { phase: ContPhase::Going }, EngineCmd::Go { timeout_ms: 0xFFFF_FFFF })
    }

    /// Goes on from a reply.
    pub fn resume(&mut self, reply: Option<EngineReply>) -> (r: BackendNext<StopOutcome>)
        requires
            old(self).expects(reply),
        ensures
            match old(self).phase {
                ContPhase::Going => match went_in(reply) {
                    Some(Ok(Some(stop))) => final(self).phase is Over && r == BackendNext::End(
                        Ok(stop),
                    ),
                    Some(Ok(None)) => final(self).phase is Breaking && r == BackendNext::<
                        StopOutcome,
                    >::Call(EngineCmd::BreakIn),
                    failed => final(self).phase is Over && (r matches BackendNext::End(Err(e))
                        && brings(failed, Err(e))),
                },
                _ => final(self).phase is Over && (r matches BackendNext::End(result) && brings(
                    stop_in(reply),
                    result,
                )),
            },
    {
        match self.phase {
            ContPhase::Going => {
                self.phase = ContPhase::Over;
                match went_result(reply) {
                    Ok(Some(stop)) => BackendNext::End(Ok(stop)),
                    Ok(None) => {
                        self.phase = ContPhase::Breaking;
                        BackendNext::Call(EngineCmd::BreakIn)
                    },
                    Err(e) => BackendNext::End(Err(e)),
                }
            },
            _ => {
                self.phase = ContPhase::Over;
                BackendNext::End(stop_result(reply))
            },
        }
    }
}

/// The command for a step. The engine steps its current thread, line by line.
pub fn step(kind: StepKind, thread_id: i64, granularity: Option<Granularity>) -> (r: EngineCmd)
    ensures
        r == (EngineCmd::Step { kind }),
{
    EngineCmd::Step { kind }
}

// ---- looking ----

/// How many frames have to be fetched from the top for a window of a stack; all of them when the
/// window has no end.
pub open spec fn fetched_frames(start: i64, levels: i64) -> int {
    let from: int = if start < 0 {
        0
    } else {
        start as int
    };
    if levels <= 0 {
        ALL_FRAMES as int
    } else if from + levels > i64::MAX {
        i64::MAX as int
    } else {
        from + levels
    }
}

/// The command for a window of a stack: `levels` frames from frame `start` on.
pub fn stack_trace(thread_id: i64, start: i64, levels: i64) -> (r: EngineCmd)
    ensures
        r == (EngineCmd::StackTrace { thread_id, max: fetched_frames(start, levels) as i64 }),
{
    let from: i64 = if start < 0 {
        0
    } else {
        start
    };
    let max: i64 = if levels <= 0 {
        ALL_FRAMES
    } else if from > i64::MAX - levels {
        i64::MAX
    } else {
        from + levels
    };
    EngineCmd::StackTrace { thread_id, max }
}

/// The frames from number `start` on.
pub open spec fn window(frames: Seq<Frame>, start: i64) -> Seq<Frame> {
    if start <= 0 {
        frames
    } else if start >= frames.len() {
        Seq::empty()
    } else {
        frames.skip(start as int)
    }
}

/// The window of a stack, and how many frames were fetched for it.
pub fn windowed(frames: Vec<Frame>, start: i64) -> (r: (Vec<Frame>, i64))
    ensures
        r.0@ == window(frames@, start),
        r.1 == frames@.len() as i64,
{
    let total: i64 = #[verifier::truncate] (frames.len() as i64);
    if start <= 0 {
        (frames, total)
    } else if start as u64 >= frames.len() as u64 {
        let none: Vec<Frame> = Vec::new();
        assert(none@ =~= Seq::<Frame>::empty());
        (none, total)
    } else {
        let mut frames = frames;
        let ghost all = frames@;
        let rest: Vec<Frame> = frames.split_off(start as usize);
        assert(rest@ =~= all.skip(start as int));
        (rest, total)
    }
}

/// What a request for a window of a stack brings.
pub fn stack_traced(start: i64, reply: Option<EngineReply>) -> (r: Result<
    (Vec<Frame>, i64),
    BackendError,
>)
    requires
        reply matches Some(answer) ==> answer is Frames,
    ensures
        match frames_in(reply) {
            Some(Ok(frames)) => r matches Ok(pair) && pair.0@ == window(frames@, start) && pair.1
                == frames@.len() as i64,
            Some(Err(e)) => r matches Err(err) && err.is_dap(e.shown()),
            None => r matches Err(BackendError::Closed),
        },
{
    match frames_result(reply) {
        Ok(frames) => Ok(windowed(frames, start)),
        Err(e) => Err(e),
    }
}

/// The reference to the variables of a frame: never zero, which would mean that there are none.
pub open spec fn frame_reference(frame_id: i64) -> int {
    if frame_id == i64::MAX {
        i64::MAX as int
    } else {
        frame_id + 1
    }
}

/// The scopes of a frame: its locals.
pub fn scopes(frame_id: i64) -> (r: Vec<Scope>)
    ensures
        r@.len() == 1,
        r@[0].name@ == "Locals"@,
        r@[0].variables_reference == frame_reference(frame_id),
{
    let reference: i64 = if frame_id == i64::MAX {
        i64::MAX
    } else {
        frame_id + 1
    };
    let mut out: Vec<Scope> = Vec::new();
    out.push(Scope { name: "Locals".to_owned(), variables_reference: reference });
    out
}

/// The command for the variables of a reference. One that no frame has refers to none.
pub open spec fn variables_command(variables_reference: i64) -> Option<EngineCmd> {
    if 0 < variables_reference <= MAX_FRAME_REFERENCE {
        Some(EngineCmd::Locals { frame_index: (variables_reference - 1) as i64 })
    } else {
        None
    }
}

/// The command for the variables of a reference.
pub fn variables(variables_reference: i64) -> (r: Option<EngineCmd>)
    ensures
        r == variables_command(variables_reference),
{
    if variables_reference <= 0 || variables_reference > MAX_FRAME_REFERENCE {
        None
    } else {
        Some(EngineCmd::Locals { frame_index: variables_reference - 1 })
    }
}

/// The variables of a frame are reached through the reference that its scope has.
pub proof fn scopes_lead_to_their_frame(frame_id: i64)
    requires
        0 <= frame_id < MAX_FRAME_REFERENCE,
    ensures
        variables_command(frame_reference(frame_id) as i64) == Some(
            (EngineCmd::Locals { frame_index: frame_id }),
        ),
{
}

/// The command for an evaluation: an expression is evaluated in the current frame, and a raw
/// command is run as it is.
pub fn evaluate(expr: &str, frame_id: Option<i64>, mode: EvalMode) -> (r: EngineCmd)
    ensures
        match mode {
            EvalMode::Expression => r matches EngineCmd::Evaluate { expr: e } && e@ == expr@,
            EvalMode::Repl => r matches EngineCmd::Execute { command } && command@ == expr@,
        },
{
    match mode {
        EvalMode::Expression => EngineCmd::Evaluate { expr: expr.to_owned() },
        EvalMode::Repl => EngineCmd::Execute { command: expr.to_owned() },
    }
}

/// What an evaluation brings: the value, or the output of a raw command.
pub fn evaluated(mode: EvalMode, reply: Option<EngineReply>) -> (r: Result<EvalResult, BackendError>)
    requires
        reply matches Some(answer) ==> match mode {
            EvalMode::Expression => answer is Value,
            EvalMode::Repl => answer is Text,
        },
    ensures
        match mode {
            EvalMode::Expression => brings(value_in(reply), r),
            EvalMode::Repl => match text_in(reply) {
                Some(Ok(output)) => r matches Ok(value) && value.result == output
                    && value.ty@.len() == 0 && value.variables_reference == 0,
                Some(Err(e)) => r matches Err(err) && err.is_dap(e.shown()),
                None => r matches Err(BackendError::Closed),
            },
        },
{
    match mode {
        EvalMode::Expression => value_result(reply),
        EvalMode::Repl => match text_result(reply) {
            Ok(output) => Ok(
                EvalResult { result: output, ty: String::new(), variables_reference: 0 },
            ),
            Err(e) => Err(e),
        },
    }
}

/// The command to read memory. A negative count reads nothing.
pub fn read_memory(address: &str, count: i64) -> (r: Result<EngineCmd, BackendError>)
    ensures
        match address_value(address@) {
            Some(n) => r matches Ok(EngineCmd::ReadMemory { address: a, size }) && a == n && size
                == (if 0 <= count <= usize::MAX {
                count as int
            } else {
                0
            }),
            None => r matches Err(e) && e.is_dap("invalid address: '"@ + address@ + "'"@),
        },
{
    match parse_address(address) {
        Ok(address) => {
            let size: usize = if count > 0 && count as u64 <= usize::MAX as u64 {
                count as usize
            } else {
                0
            };
            Ok(EngineCmd::ReadMemory { address, size })
        },
        Err(e) => Err(e),
    }
}

/// The command to disassemble so many instructions.
pub fn disassemble(address: &str, count: i64) -> (r: Result<EngineCmd, BackendError>)
    ensures
        match address_value(address@) {
            Some(n) => r matches Ok(EngineCmd::Disassemble { address: a, count: c }) && a == n && c
                == count,
            None => r matches Err(e) && e.is_dap("invalid address: '"@ + address@ + "'"@),
        },
{
    match parse_address(address) {
        Ok(address) => Ok(EngineCmd::Disassemble { address, count }),
        Err(e) => Err(e),
    }
}

/// The command to open a crash dump.
pub fn open_dump(path: &str) -> (r: EngineCmd)
    ensures
        r matches EngineCmd::OpenDump { path: p } && p@ == path@,
{
    EngineCmd::OpenDump { path: path.to_owned() }
}

/// The command to attach to a kernel.
pub fn attach_kernel(connection: &str) -> (r: EngineCmd)
    ensures
        r matches EngineCmd::AttachKernel { connection: c } && c@ == connection@,
{
    EngineCmd::AttachKernel { connection: connection.to_owned() }
}

} // verus!
