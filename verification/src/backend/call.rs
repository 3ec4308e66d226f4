//! Calls from the backend to the engine thread, and what comes back.
use crate::engine_ops::{EngineCmd, EngineReply};
use crate::error::{BackendError, EngineError, map_engine_err};
use crate::types::{
    DumpOutcome, EvalResult, Frame, Instruction, MemoryRead, ModuleInfo,
    StopOutcome, ThreadInfo, Variable,
};
use vstd::prelude::*;

verus! {

/// What a backend operation does next: send a command to the engine thread, or end.
pub enum BackendNext<T> {
    Call(EngineCmd),
    End(Result<T, BackendError>),
}

/// Whether `r` is what a call brings, given the engine's answer: none when the engine thread is
/// gone, before the command or in the middle of it.
pub open spec fn brings<T>(answer: Option<Result<T, EngineError>>, r: Result<T, BackendError>) -> bool {
    match answer {
        None => r matches Err(BackendError::Closed),
        Some(Ok(value)) => r == Ok::<T, BackendError>(value),
        Some(Err(e)) => r matches Err(err) && err.is_dap(e.shown()),
    }
}

/// What a call brings.
pub fn called<T>(answer: Option<Result<T, EngineError>>) -> (r: Result<T, BackendError>)
    ensures
        brings(answer, r),
{
    match answer {
        None => Err(BackendError::Closed),
        Some(Ok(value)) => Ok(value),
        Some(Err(e)) => Err(map_engine_err(e)),
    }
}

/// The answer in a reply of its kind.
pub open spec fn stop_in(reply: Option<EngineReply>) -> Option<Result<StopOutcome, EngineError>> {
    match reply {
        Some(EngineReply::Stop(answer)) => Some(answer),
        _ => None,
    }
}

/// What a call brings whose reply is a `Stop`.
pub fn stop_result(reply: Option<EngineReply>) -> (r: Result<StopOutcome, BackendError>)
    requires
        reply matches Some(answer) ==> answer is Stop,
    ensures
        brings(stop_in(reply), r),
{
    match reply {
        Some(EngineReply::Stop(answer)) => called(Some(answer)),
        _ => called(None),
    }
}

/// The answer in a reply of its kind.
pub open spec fn went_in(reply: Option<EngineReply>) -> Option<Result<Option<StopOutcome>, EngineError>> {
    match reply {
        Some(EngineReply::Went(answer)) => Some(answer),
        _ => None,
    }
}

/// What a call brings whose reply is a `Went`.
pub fn went_result(reply: Option<EngineReply>) -> (r: Result<Option<StopOutcome>, BackendError>)
    requires
        reply matches Some(answer) ==> answer is Went,
    ensures
        brings(went_in(reply), r),
{
    match reply {
        Some(EngineReply::Went(answer)) => called(Some(answer)),
        _ => called(None),
    }
}

/// The answer in a reply of its kind.
pub open spec fn threads_in(reply: Option<EngineReply>) -> Option<Result<Vec<ThreadInfo>, EngineError>> {
    match reply {
        Some(EngineReply::Threads(answer)) => Some(answer),
        _ => None,
    }
}

/// What a call brings whose reply is a `Threads`.
pub fn threads_result(reply: Option<EngineReply>) -> (r: Result<Vec<ThreadInfo>, BackendError>)
    requires
        reply matches Some(answer) ==> answer is Threads,
    ensures
        brings(threads_in(reply), r),
{
    match reply {
        Some(EngineReply::Threads(answer)) => called(Some(answer)),
        _ => called(None),
    }
}

/// The answer in a reply of its kind.
pub open spec fn frames_in(reply: Option<EngineReply>) -> Option<Result<Vec<Frame>, EngineError>> {
    match reply {
        Some(EngineReply::Frames(answer)) => Some(answer),
        _ => None,
    }
}

/// What a call brings whose reply is a `Frames`.
pub fn frames_result(reply: Option<EngineReply>) -> (r: Result<Vec<Frame>, BackendError>)
    requires
        reply matches Some(answer) ==> answer is Frames,
    ensures
        brings(frames_in(reply), r),
{
    match reply {
        Some(EngineReply::Frames(answer)) => called(Some(answer)),
        _ => called(None),
    }
}

/// The answer in a reply of its kind.
pub open spec fn variables_in(reply: Option<EngineReply>) -> Option<Result<Vec<Variable>, EngineError>> {
    match reply {
        Some(EngineReply::Variables(answer)) => Some(answer),
        _ => None,
    }
}

/// What a call brings whose reply is a `Variables`.
pub fn variables_result(reply: Option<EngineReply>) -> (r: Result<Vec<Variable>, BackendError>)
    requires
        reply matches Some(answer) ==> answer is Variables,
    ensures
        brings(variables_in(reply), r),
{
    match reply {
        Some(EngineReply::Variables(answer)) => called(Some(answer)),
        _ => called(None),
    }
}

/// The answer in a reply of its kind.
pub open spec fn value_in(reply: Option<EngineReply>) -> Option<Result<EvalResult, EngineError>> {
    match reply {
        Some(EngineReply::Value(answer)) => Some(answer),
        _ => None,
    }
}

/// What a call brings whose reply is a `Value`.
pub fn value_result(reply: Option<EngineReply>) -> (r: Result<EvalResult, BackendError>)
    requires
        reply matches Some(answer) ==> answer is Value,
    ensures
        brings(value_in(reply), r),
{
    match reply {
        Some(EngineReply::Value(answer)) => called(Some(answer)),
        _ => called(None),
    }
}

/// The answer in a reply of its kind.
pub open spec fn memory_in(reply: Option<EngineReply>) -> Option<Result<MemoryRead, EngineError>> {
    match reply {
        Some(EngineReply::Memory(answer)) => Some(answer),
        _ => None,
    }
}

/// What a call brings whose reply is a `Memory`.
pub fn memory_result(reply: Option<EngineReply>) -> (r: Result<MemoryRead, BackendError>)
    requires
        reply matches Some(answer) ==> answer is Memory,
    ensures
        brings(memory_in(reply), r),
{
    match reply {
        Some(EngineReply::Memory(answer)) => called(Some(answer)),
        _ => called(None),
    }
}

/// The answer in a reply of its kind.
pub open spec fn instructions_in(reply: Option<EngineReply>) -> Option<Result<Vec<Instruction>, EngineError>> {
    match reply {
        Some(EngineReply::Instructions(answer)) => Some(answer),
        _ => None,
    }
}

/// What a call brings whose reply is a `Instructions`.
pub fn instructions_result(reply: Option<EngineReply>) -> (r: Result<Vec<Instruction>, BackendError>)
    requires
        reply matches Some(answer) ==> answer is Instructions,
    ensures
        brings(instructions_in(reply), r),
{
    match reply {
        Some(EngineReply::Instructions(answer)) => called(Some(answer)),
        _ => called(None),
    }
}

/// The answer in a reply of its kind.
pub open spec fn text_in(reply: Option<EngineReply>) -> Option<Result<String, EngineError>> {
    match reply {
        Some(EngineReply::Text(answer)) => Some(answer),
        _ => None,
    }
}

/// What a call brings whose reply is a `Text`.
pub fn text_result(reply: Option<EngineReply>) -> (r: Result<String, BackendError>)
    requires
        reply matches Some(answer) ==> answer is Text,
    ensures
        brings(text_in(reply), r),
{
    match reply {
        Some(EngineReply::Text(answer)) => called(Some(answer)),
        _ => called(None),
    }
}

/// The answer in a reply of its kind.
pub open spec fn modules_in(reply: Option<EngineReply>) -> Option<Result<Vec<ModuleInfo>, EngineError>> {
    match reply {
        Some(EngineReply::Modules(answer)) => Some(answer),
        _ => None,
    }
}

/// What a call brings whose reply is a `Modules`.
pub fn modules_result(reply: Option<EngineReply>) -> (r: Result<Vec<ModuleInfo>, BackendError>)
    requires
        reply matches Some(answer) ==> answer is Modules,
    ensures
        brings(modules_in(reply), r),
{
    match reply {
        Some(EngineReply::Modules(answer)) => called(Some(answer)),
        _ => called(None),
    }
}

/// The answer in a reply of its kind.
pub open spec fn dump_in(reply: Option<EngineReply>) -> Option<Result<DumpOutcome, EngineError>> {
    match reply {
        Some(EngineReply::Dump(answer)) => Some(answer),
        _ => None,
    }
}

/// What a call brings whose reply is a `Dump`.
pub fn dump_result(reply: Option<EngineReply>) -> (r: Result<DumpOutcome, BackendError>)
    requires
        reply matches Some(answer) ==> answer is Dump,
    ensures
        brings(dump_in(reply), r),
{
    match reply {
        Some(EngineReply::Dump(answer)) => called(Some(answer)),
        _ => called(None),
    }
}

} // verus!
