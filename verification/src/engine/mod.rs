//! The WinDbg engine logic.
//!
//! Every operation of the engine is a flow: it asks its host for one call at a time and decides,
//! from the answer, what to ask next or how to end. The host makes the calls and nothing else.
pub mod breakpoints;
pub mod command;
pub mod courses;
pub mod extensions;
pub mod host;
pub mod inspect;
pub mod laws;
pub mod listing;
pub mod locals;
pub mod memory;
pub mod modules;
pub mod outcomes;
pub mod placing;
pub mod run;
pub mod session;
pub mod stops;
pub mod wait;

use crate::error::EngineError;
use crate::text::text3;
use crate::types::{StopInfo, StopOutcome};
use std::collections::HashMap;
use std::sync::atomic::{AtomicBool, Ordering};
use std::sync::Arc;
use vstd::prelude::*;
use vstd::string::*;

verus! {

broadcast use {vstd::string::group_string_axioms, vstd::std_specs::hash::group_hash_axioms};

pub const DEBUG_STATUS_GO: u32 = 1;

pub const DEBUG_STATUS_GO_HANDLED: u32 = 2;

pub const DEBUG_STATUS_GO_NOT_HANDLED: u32 = 3;

pub const DEBUG_STATUS_STEP_OVER: u32 = 4;

pub const DEBUG_STATUS_STEP_INTO: u32 = 5;

pub const DEBUG_STATUS_BREAK: u32 = 6;

pub const DEBUG_STATUS_NO_DEBUGGEE: u32 = 7;

pub const DEBUG_STATUS_STEP_BRANCH: u32 = 8;

/// Ask for a break when the target starts.
pub const DEBUG_ENGOPT_INITIAL_BREAK: u32 = 0x20;

pub const DEBUG_END_PASSIVE: u32 = 0;

pub const DEBUG_END_ACTIVE_TERMINATE: u32 = 1;

pub const DEBUG_END_ACTIVE_DETACH: u32 = 2;

/// Debug the process that is created and none of its children.
pub const DEBUG_ONLY_THIS_PROCESS: u32 = 0x2;

/// Create the process without a console window.
pub const CREATE_NO_WINDOW: u32 = 0x0800_0000;

/// How long a session waits for its first break, and a step for its end, in milliseconds.
pub const FIRST_BREAK_TIMEOUT: u32 = 10_000;

/// The slice in which a running target is polled, in milliseconds.
pub const POLL_SLICE: u32 = 200;

/// How often a break-in is attempted.
pub const BREAK_ATTEMPTS: u32 = 50;

/// A wait without an end.
pub const INFINITE: u32 = 0xFFFF_FFFF;

/// A launch request: the program, its arguments, and its working directory.
#[derive(Debug, Clone, PartialEq, Eq)]
pub struct LaunchReq {
    pub program: String,
    pub args: Vec<String>,
    pub cwd: Option<String>,
}

/// Where a breakpoint goes.
#[derive(Debug, Clone, PartialEq, Eq)]
pub enum BpLoc {
    /// An absolute code address.
    Address(u64),
    /// A source line.
    FileLine { file: String, line: u32 },
    /// A function name, `module!name` or bare.
    Function(String),
}

/// How one wait for an event ended.
#[derive(Debug, Clone, PartialEq, Eq)]
pub enum WaitResult {
    Event(StopOutcome),
    TimedOut,
}

/// A token that asks a running engine to break in. It only shares a flag with the engine, which
/// polls it; it can be used from any thread.
#[derive(Clone)]
pub struct InterruptHandle {
    pub flag: Arc<AtomicBool>,
}

impl InterruptHandle {
    /// A token over a given flag.
    pub fn from_flag(flag: Arc<AtomicBool>) -> (r: InterruptHandle)
        ensures
            r.flag == flag,
    {
        InterruptHandle { flag }
    }

    /// Raises the flag. A flag that nothing runs under is lowered when the next run starts.
    pub fn interrupt(&self) {
        self.flag.store(true, Ordering::Release);
    }
}

/// The state that an engine session keeps between operations: whether it is a crash dump, and
/// the conditions of its breakpoints by breakpoint id.
pub struct Engine {
    pub(crate) is_dump: bool,
    pub(crate) breakpoint_conditions: HashMap<u32, String>,
}

impl Engine {
    /// Whether the session is a crash dump.
    pub closed spec fn dump(&self) -> bool {
        self.is_dump
    }

    /// The conditions of the breakpoints, by id.
    pub closed spec fn conditions(&self) -> Map<u32, Seq<char>> {
        self.breakpoint_conditions@.map_values(|s: String| s@)
    }

    /// A session with no target.
    pub fn new() -> (r: Engine)
        ensures
            !r.dump(),
            r.conditions() == Map::<u32, Seq<char>>::empty(),
    {
        let r = Engine { is_dump: false, breakpoint_conditions: HashMap::new() };
        assert(r.conditions() =~= Map::<u32, Seq<char>>::empty());
        r
    }

    /// Forgets every condition.
    pub(crate) fn clear_conditions(&mut self)
        ensures
            final(self).conditions() == Map::<u32, Seq<char>>::empty(),
            final(self).dump() == old(self).dump(),
    {
        self.breakpoint_conditions.clear();
        assert(self.conditions() =~= Map::<u32, Seq<char>>::empty());
    }

    /// Keeps the condition of a breakpoint; an empty one is not kept.
    pub(crate) fn store_condition(&mut self, id: u32, condition: &str)
        ensures
            final(self).conditions() == (if condition@.len() == 0 {
                old(self).conditions()
            } else {
                old(self).conditions().insert(id, condition@)
            }),
            final(self).dump() == old(self).dump(),
    {
        if !condition.is_empty() {
            self.breakpoint_conditions.insert(id, condition.to_owned());
            assert(self.conditions() =~= old(self).conditions().insert(id, condition@));
        }
    }

    /// Forgets the condition of a breakpoint.
    pub(crate) fn drop_condition(&mut self, id: u32)
        ensures
            final(self).conditions() == old(self).conditions().remove(id),
            final(self).dump() == old(self).dump(),
    {
        self.breakpoint_conditions.remove(&id);
        assert(self.conditions() =~= old(self).conditions().remove(id));
    }

    /// The expression that decides the condition of a breakpoint, if it has one.
    pub(crate) fn condition_query(&self, id: Option<u32>) -> (r: Option<String>)
        ensures
            match id {
                Some(id) if self.conditions().contains_key(id) => r is Some && r->0@
                    == condition_text(self.conditions()[id]),
                _ => r is None,
            },
    {
        match id {
            Some(id) => match self.breakpoint_conditions.get(&id) {
                Some(condition) => Some(condition_expr(condition.as_str())),
                None => None,
            },
            None => None,
        }
    }

    /// Whether no breakpoint has a condition.
    pub(crate) fn unconditional(&self) -> (r: bool)
        ensures
            r == (self.conditions() == Map::<u32, Seq<char>>::empty()),
    {
        let n: usize = self.breakpoint_conditions.len();
        proof {
            if n == 0 {
                assert(self.breakpoint_conditions@.dom() =~= Set::<u32>::empty());
                assert(self.conditions() =~= Map::<u32, Seq<char>>::empty());
            } else if self.conditions() == Map::<u32, Seq<char>>::empty() {
                assert(self.breakpoint_conditions@.dom() =~= self.conditions().dom());
                assert(self.breakpoint_conditions@.dom().len() == 0);
            }
        }
        n == 0
    }

    /// Refuses to let a crash dump run.
    pub fn ensure_runnable(&self) -> (r: Result<(), EngineError>)
        ensures
            r is Ok <==> !self.dump(),
            r matches Err(e) ==> e.is_engine("cannot continue a crash-dump session"@),
    {
        if self.is_dump {
            Err(EngineError::engine("cannot continue a crash-dump session"))
        } else {
            Ok(())
        }
    }
}

/// The expression that is true exactly when a breakpoint's condition is: one or zero.
pub open spec fn condition_text(condition: Seq<char>) -> Seq<char> {
    "@@c++( ("@ + condition + ") ? 1 : 0 )"@
}

/// Wraps a breakpoint condition into an expression whose value is one or zero.
pub fn condition_expr(condition: &str) -> (r: String)
    ensures
        r@ == condition_text(condition@),
{
    text3("@@c++( (", condition, ") ? 1 : 0 )")
}

/// Whether `after` is the outcome `before` under another stop reason; only a stop has one.
pub open spec fn relabeled(before: StopOutcome, reason: Seq<char>, after: StopOutcome) -> bool {
    match before {
        StopOutcome::Stopped(info) => after matches StopOutcome::Stopped(other) && other.reason@
            == reason && other.thread_id == info.thread_id && other.description == info.description
            && other.hit_breakpoint_ids == info.hit_breakpoint_ids,
        _ => after == before,
    }
}

/// Puts another reason on a stop; other outcomes are left as they are.
pub fn with_reason(outcome: StopOutcome, reason: &str) -> (r: StopOutcome)
    ensures
        relabeled(outcome, reason@, r),
{
    match outcome {
        StopOutcome::Stopped(info) => StopOutcome::Stopped(
            StopInfo {
                reason: reason.to_owned(),
                thread_id: info.thread_id,
                description: info.description,
                hit_breakpoint_ids: info.hit_breakpoint_ids,
            },
        ),
        other => other,
    }
}

} // verus!
