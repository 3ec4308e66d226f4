//! Waiting for a debug event.
use super::host::{Answer, Next, Request};
use super::{Engine, WaitResult, condition_text};
use super::{
    DEBUG_STATUS_GO, DEBUG_STATUS_GO_HANDLED, DEBUG_STATUS_GO_NOT_HANDLED, DEBUG_STATUS_NO_DEBUGGEE,
    DEBUG_STATUS_STEP_BRANCH, DEBUG_STATUS_STEP_INTO, DEBUG_STATUS_STEP_OVER,
};
use crate::callbacks::{CallbackState, StopFacts};
use crate::error::EngineError;
use crate::types::{StopInfo, StopOutcome};
use vstd::prelude::*;
use vstd::string::*;

verus! {

broadcast use vstd::string::group_string_axioms;

/// What a wait is waiting for.
pub enum WaitPhase {
    /// The interface that events are waited for through.
    Base,
    /// The next event.
    Event,
    /// The execution status after an event.
    Status,
    /// Which breakpoint the event is about.
    Breakpoint { status: u32 },
    /// The value of that breakpoint's condition.
    Condition { status: u32 },
    /// The target to run on, after a condition that did not hold.
    Resume,
    /// The thread that stopped, for a stop of which the rest is known.
    Thread { reason: String, hit: Option<u32> },
    Over,
}

/// One wait for a debug event.
pub struct WaitFlow {
    pub timeout_ms: u32,
    pub phase: WaitPhase,
}

/// Whether an execution status says that the target runs on by itself.
pub open spec fn runs_on(status: u32) -> bool {
    status == DEBUG_STATUS_GO || status == DEBUG_STATUS_GO_HANDLED || status
        == DEBUG_STATUS_GO_NOT_HANDLED || status == DEBUG_STATUS_STEP_OVER || status
        == DEBUG_STATUS_STEP_INTO || status == DEBUG_STATUS_STEP_BRANCH
}

/// Whether a stop is the end of the process: it reported an exit code, or none is left.
pub open spec fn exited(stop: StopFacts, status: u32) -> bool {
    stop.exit_code is Some || status == DEBUG_STATUS_NO_DEBUGGEE
}

/// The exit code that an exit is reported with.
pub open spec fn exit_code(stop: StopFacts) -> Option<i64> {
    match stop.exit_code {
        Some(code) => Some(code as i64),
        None => None,
    }
}

/// Whether `info` is the stop of a thread with the given reason and breakpoint.
pub open spec fn is_stop(
    info: StopInfo,
    reason: Seq<char>,
    thread_id: i64,
    hit: Option<u32>,
) -> bool {
    &&& info.reason@ == reason
    &&& info.thread_id == thread_id
    &&& info.description@ == Seq::<char>::empty()
    &&& info.hit_breakpoint_ids@ == (match hit {
        Some(id) => seq![id as i64],
        None => Seq::empty(),
    })
}

/// How a wait goes on once the target is known to have stopped.
pub open spec fn reports_stop(
    stop: StopFacts,
    status: u32,
    after: WaitPhase,
    next: Next<WaitResult>,
) -> bool {
    if exited(stop, status) {
        &&& after is Over
        &&& next == Next::<WaitResult>::End(
            Ok(WaitResult::Event(StopOutcome::Exited { code: exit_code(stop) })),
        )
    } else {
        &&& after matches WaitPhase::Thread { reason, hit } && reason@ == stop.reason && hit
            == stop.breakpoint_id
        &&& next == Next::<WaitResult>::Ask(Request::GetCurrentThread)
    }
}

impl WaitFlow {
    /// What the wait has asked for.
    pub open spec fn asked(self, request: Request) -> bool {
        match self.phase {
            WaitPhase::Base => request == Request::QueryBaseControl,
            WaitPhase::Event => request == Request::WaitForEvent(self.timeout_ms),
            WaitPhase::Status => request == Request::GetExecutionStatus,
            WaitPhase::Breakpoint { .. } => request == Request::LastBreakpoint,
            WaitPhase::Condition { .. } => request is Evaluate,
            WaitPhase::Resume => request == Request::SetExecutionStatus(DEBUG_STATUS_GO),
            WaitPhase::Thread { .. } => request == Request::GetCurrentThread,
            WaitPhase::Over => false,
        }
    }

    /// Whether `answer` answers what the wait has asked for.
    pub open spec fn expects(self, answer: Answer) -> bool {
        exists|request: Request| self.asked(request) && #[trigger] request.answered_by(answer)
    }

    /// How a wait goes on from one answer to the next question.
    pub open spec fn steps(
        self,
        conditions: Map<u32, Seq<char>>,
        stop: StopFacts,
        answer: Answer,
        after: WaitFlow,
        next: Next<WaitResult>,
    ) -> bool {
        &&& after.timeout_ms == self.timeout_ms
        &&& match (self.phase, answer) {
            (WaitPhase::Base, Answer::Done(Err(e))) => after.phase is Over && next.fails_op(
                "QueryInterface(IDebugControl)"@,
                e,
            ),
            (WaitPhase::Base, Answer::Done(Ok(_))) => after.phase is Event && next
                == Next::<WaitResult>::Ask(Request::WaitForEvent(self.timeout_ms)),
            (WaitPhase::Event, Answer::Hresult(hr)) => if hr.code == 0 {
                after.phase is Status && next == Next::<WaitResult>::Ask(
                    Request::GetExecutionStatus,
                )
            } else if hr.code == 1 {
                after.phase is Over && next == Next::<WaitResult>::End(Ok(WaitResult::TimedOut))
            } else {
                after.phase is Over && next.fails_op("WaitForEvent"@, hr)
            },
            (WaitPhase::Status, Answer::Number(Err(e))) => after.phase is Over && next.fails_op(
                "GetExecutionStatus"@,
                e,
            ),
            (WaitPhase::Status, Answer::Number(Ok(status))) => if runs_on(status) {
                after.phase is Event && next == Next::<WaitResult>::Ask(
                    Request::WaitForEvent(self.timeout_ms),
                )
            } else if conditions == Map::<u32, Seq<char>>::empty() {
                reports_stop(stop, status, after.phase, next)
            } else {
                after.phase == (WaitPhase::Breakpoint { status }) && next
                    == Next::<WaitResult>::Ask(Request::LastBreakpoint)
            },
            (WaitPhase::Breakpoint { status }, Answer::Breakpoint(hit)) => match hit {
                Some(id) if conditions.contains_key(id) => {
                    &&& after.phase == (WaitPhase::Condition { status })
                    &&& next matches Next::Ask(Request::Evaluate(expression)) && expression@
                        == condition_text(conditions[id])
                },
                _ => reports_stop(stop, status, after.phase, next),
            },
            (WaitPhase::Condition { status }, Answer::Value(value)) => if value matches Ok(n) && n
                != 0 {
                reports_stop(stop, status, after.phase, next)
            } else {
                after.phase is Resume && next == Next::<WaitResult>::Ask(
                    Request::SetExecutionStatus(DEBUG_STATUS_GO),
                )
            },
            (WaitPhase::Resume, Answer::Done(Err(e))) => after.phase is Over && next.fails_op(
                "SetExecutionStatus(GO)"@,
                e,
            ),
            (WaitPhase::Resume, Answer::Done(Ok(_))) => after.phase is Event && next
                == Next::<WaitResult>::Ask(Request::WaitForEvent(self.timeout_ms)),
            (WaitPhase::Thread { reason, hit }, Answer::Number(thread)) => {
                &&& after.phase is Over
                &&& next matches Next::End(Ok(WaitResult::Event(StopOutcome::Stopped(info))))
                    && is_stop(
                    info,
                    reason@,
                    match thread {
                        Ok(id) => id as i64,
                        Err(_) => 0,
                    },
                    hit,
                )
            },
            _ => false,
        }
    }

    /// Goes on from an answer.
    pub fn resume(&mut self, engine: &Engine, state: &CallbackState, answer: Answer) -> (r: Next<
        WaitResult,
    >)
        requires
            old(self).expects(answer),
        ensures
            old(self).steps(engine.conditions(), state.stop(), answer, *final(self), r),
    {
        let mut phase = WaitPhase::Over;
        std::mem::swap(&mut phase, &mut self.phase);
        match (phase, answer) {
            (WaitPhase::Base, Answer::Done(Err(e))) => Next::End(
                Err(EngineError::op("QueryInterface(IDebugControl)", e)),
            ),
            (WaitPhase::Base, Answer::Done(Ok(_))) => {
                self.phase = WaitPhase::Event;
                Next::Ask(Request::WaitForEvent(self.timeout_ms))
            },
            (WaitPhase::Event, Answer::Hresult(hr)) => if hr.code == 0 {
                self.phase = WaitPhase::Status;
                Next::Ask(Request::GetExecutionStatus)
            } else if hr.code == 1 {
                Next::End(Ok(WaitResult::TimedOut))
            } else {
                Next::End(Err(EngineError::op("WaitForEvent", hr)))
            },
            (WaitPhase::Status, Answer::Number(Err(e))) => Next::End(
                Err(EngineError::op("GetExecutionStatus", e)),
            ),
            (WaitPhase::Status, Answer::Number(Ok(status))) => if status == DEBUG_STATUS_GO
                || status == DEBUG_STATUS_GO_HANDLED || status == DEBUG_STATUS_GO_NOT_HANDLED
                || status == DEBUG_STATUS_STEP_OVER || status == DEBUG_STATUS_STEP_INTO || status
                == DEBUG_STATUS_STEP_BRANCH {
                self.phase = WaitPhase::Event;
                Next::Ask(Request::WaitForEvent(self.timeout_ms))
            } else if engine.unconditional() {
                self.stopped(state, status)
            } else {
                self.phase = WaitPhase::Breakpoint { status };
                Next::Ask(Request::LastBreakpoint)
            },
            (WaitPhase::Breakpoint { status }, Answer::Breakpoint(hit)) => {
                match engine.condition_query(hit) {
                    Some(expression) => {
                        self.phase = WaitPhase::Condition { status };
                        Next::Ask(Request::Evaluate(expression))
                    },
                    None => self.stopped(state, status),
                }
            },
            (WaitPhase::Condition { status }, Answer::Value(value)) => {
                let holds: bool = match value {
                    Ok(n) => n != 0,
                    Err(_) => false,
                };
                if holds {
                    self.stopped(state, status)
                } else {
                    self.phase = WaitPhase::Resume;
                    Next::Ask(Request::SetExecutionStatus(DEBUG_STATUS_GO))
                }
            },
            (WaitPhase::Resume, Answer::Done(Err(e))) => Next::End(
                Err(EngineError::op("SetExecutionStatus(GO)", e)),
            ),
            (WaitPhase::Resume, Answer::Done(Ok(_))) => {
                self.phase = WaitPhase::Event;
                Next::Ask(Request::WaitForEvent(self.timeout_ms))
            },
            (WaitPhase::Thread { reason, hit }, Answer::Number(thread)) => Next::End(
                Ok(WaitResult::Event(stop_at(reason, hit, thread))),
            ),
            _ => {
                assert(false);
                Next::End(Ok(WaitResult::TimedOut))
            },
        }
    }

    /// Goes on from a target that is known to have stopped.
    fn stopped(&mut self, state: &CallbackState, status: u32) -> (r: Next<WaitResult>)
        requires
            old(self).phase is Over,
        ensures
            reports_stop(state.stop(), status, final(self).phase, r),
            final(self).timeout_ms == old(self).timeout_ms,
    {
        let code: Option<u32> = state.last_exit_code();
        if code.is_some() || status == DEBUG_STATUS_NO_DEBUGGEE {
            let code: Option<i64> = match code {
                Some(c) => Some(c as i64),
                None => None,
            };
            Next::End(Ok(WaitResult::Event(StopOutcome::Exited { code })))
        } else {
            self.phase = WaitPhase::Thread {
                reason: state.last_stop_reason(),
                hit: state.last_breakpoint_id(),
            };
            Next::Ask(Request::GetCurrentThread)
        }
    }
}

/// The stop of a thread; a thread that could not be read counts as thread zero.
pub(crate) fn stop_at(reason: String, hit: Option<u32>, thread: Result<u32, crate::error::ComError>) -> (r:
    StopOutcome)
    ensures
        r matches StopOutcome::Stopped(info) && is_stop(
            info,
            reason@,
            match thread {
                Ok(id) => id as i64,
                Err(_) => 0,
            },
            hit,
        ),
{
    let thread_id: i64 = match thread {
        Ok(id) => id as i64,
        Err(_) => 0,
    };
    let mut hits: Vec<i64> = Vec::new();
    match hit {
        Some(id) => {
            hits.push(id as i64);
            assert(hits@ =~= seq![id as i64]);
        },
        None => {},
    }
    StopOutcome::Stopped(
        StopInfo {
            reason,
            thread_id,
            description: String::new(),
            hit_breakpoint_ids: hits,
        },
    )
}

impl Engine {
    /// Begins a wait of up to `timeout_ms` milliseconds for a debug event. The interface that it
    /// needs is got once, however often the target runs on.
    pub fn wait_for_event(&self, timeout_ms: u32) -> (r: (WaitFlow, Request))
        ensures
            r.0 == (WaitFlow { timeout_ms, phase: WaitPhase::Base }),
            r.0.asked(r.1),
            r.1 == Request::QueryBaseControl,
    {
        (WaitFlow { timeout_ms, phase: WaitPhase::Base }, Request::QueryBaseControl)
    }
}

} // verus!
