//! Letting the target run: to its next stop, by one step, or until it is broken into.
use super::host::{Answer, Next, Request};
use super::wait::{exit_code, exited, is_stop, stop_at};
use super::{Engine, WaitResult, relabeled, with_reason};
use super::{
    BREAK_ATTEMPTS, DEBUG_STATUS_BREAK, DEBUG_STATUS_GO, DEBUG_STATUS_NO_DEBUGGEE,
    DEBUG_STATUS_STEP_INTO, DEBUG_STATUS_STEP_OVER, FIRST_BREAK_TIMEOUT, POLL_SLICE,
};
use crate::callbacks::{CallbackState, StopFacts};
use crate::error::EngineError;
use crate::types::{StepKind, StopOutcome};
use vstd::prelude::*;
use vstd::string::*;

verus! {

broadcast use vstd::string::group_string_axioms;

// ---- breaking in ----

/// What a break-in is waiting for; `left` counts the attempts that are left.
pub enum BreakPhase {
    /// The interrupt request to be made.
    Interrupt { left: u32 },
    /// An event, for one polling slice.
    Wait { left: u32 },
    /// The execution status, after a slice without an event.
    Status { left: u32 },
    /// The thread that stopped.
    Thread { hit: Option<u32> },
    Over,
}

/// A break-in: the target is interrupted again and again until it stops.
pub struct BreakFlow {
    pub phase: BreakPhase,
}

impl BreakFlow {
    /// What the break-in has asked for.
    pub open spec fn asked(self, request: Request) -> bool {
        match self.phase {
            BreakPhase::Interrupt { .. } => request == Request::SetInterrupt,
            BreakPhase::Wait { .. } => request == Request::Wait(POLL_SLICE),
            BreakPhase::Status { .. } => request == Request::GetExecutionStatus,
            BreakPhase::Thread { .. } => request == Request::GetCurrentThread,
            BreakPhase::Over => false,
        }
    }

    /// Whether `answer` answers what the break-in has asked for.
    pub open spec fn expects(self, answer: Answer) -> bool {
        exists|request: Request| self.asked(request) && #[trigger] request.answered_by(answer)
    }

    /// The number of attempts that are left is never negative and never grows.
    pub open spec fn left(self) -> int {
        match self.phase {
            BreakPhase::Interrupt { left } => left as int,
            BreakPhase::Wait { left } => left as int,
            BreakPhase::Status { left } => left as int,
            _ => 0,
        }
    }

    /// An attempt that is under way has been counted.
    pub open spec fn wf(self) -> bool {
        self.phase is Wait || self.phase is Status ==> self.left() > 0
    }

    /// How a break-in goes on from one answer to the next question.
    pub open spec fn steps(
        self,
        stop: StopFacts,
        answer: Answer,
        after: BreakFlow,
        next: Next<StopOutcome>,
    ) -> bool {
        match (self.phase, answer) {
            (BreakPhase::Interrupt { left }, Answer::Done(Err(e))) => after.phase is Over
                && next.fails_op("SetInterrupt(ACTIVE)"@, e),
            (BreakPhase::Interrupt { left }, Answer::Done(Ok(_))) => if left == 0 {
                after.phase is Over && next.fails_engine("break: timed out"@)
            } else {
                after.phase == (BreakPhase::Wait { left }) && next == Next::<StopOutcome>::Ask(
                    Request::Wait(POLL_SLICE),
                )
            },
            (BreakPhase::Wait { left }, Answer::Waited(Err(e))) => after.phase is Over && next
                == Next::<StopOutcome>::End(Err(e)),
            (BreakPhase::Wait { left }, Answer::Waited(Ok(WaitResult::Event(outcome)))) => {
                &&& after.phase is Over
                &&& next matches Next::End(Ok(o)) && relabeled(outcome, "Execution paused"@, o)
            },
            (BreakPhase::Wait { left }, Answer::Waited(Ok(WaitResult::TimedOut))) => after.phase
                == (BreakPhase::Status { left }) && next == Next::<StopOutcome>::Ask(
                Request::GetExecutionStatus,
            ),
            (BreakPhase::Status { left }, Answer::Number(Err(e))) => after.phase is Over
                && next.fails_op("GetExecutionStatus"@, e),
            (BreakPhase::Status { left }, Answer::Number(Ok(status))) => if status
                != DEBUG_STATUS_BREAK && status != DEBUG_STATUS_NO_DEBUGGEE {
                after.phase == (BreakPhase::Interrupt { left: (left - 1) as u32 }) && next
                    == Next::<StopOutcome>::Ask(Request::SetInterrupt)
            } else if exited(stop, status) {
                after.phase is Over && next == Next::<StopOutcome>::End(
                    Ok(StopOutcome::Exited { code: exit_code(stop) }),
                )
            } else {
                after.phase == (BreakPhase::Thread { hit: stop.breakpoint_id }) && next
                    == Next::<StopOutcome>::Ask(Request::GetCurrentThread)
            },
            (BreakPhase::Thread { hit }, Answer::Number(thread)) => {
                &&& after.phase is Over
                &&& next matches Next::End(Ok(StopOutcome::Stopped(info))) && is_stop(
                    info,
                    "Execution paused"@,
                    match thread {
                        Ok(id) => id as i64,
                        Err(_) => 0,
                    },
                    hit,
                )
            },
            _ => false,
        }
    }

    /// Goes on from an answer.
    pub fn resume(&mut self, state: &CallbackState, answer: Answer) -> (r: Next<StopOutcome>)
        requires
            old(self).expects(answer),
            old(self).wf(),
        ensures
            old(self).steps(state.stop(), answer, *final(self), r),
            final(self).wf(),
    {
        let mut phase = BreakPhase::Over;
        std::mem::swap(&mut phase, &mut self.phase);
        match (phase, answer) {
            (BreakPhase::Interrupt { left }, Answer::Done(Err(e))) => Next::End(
                Err(EngineError::op("SetInterrupt(ACTIVE)", e)),
            ),
            (BreakPhase::Interrupt { left }, Answer::Done(Ok(_))) => if left == 0 {
                Next::End(Err(EngineError::engine("break: timed out")))
            } else {
                self.phase = BreakPhase::Wait { left };
                Next::Ask(Request::Wait(POLL_SLICE))
            },
            (BreakPhase::Wait { left }, Answer::Waited(Err(e))) => Next::End(Err(e)),
            (BreakPhase::Wait { left }, Answer::Waited(Ok(WaitResult::Event(outcome)))) => Next::End(
                Ok(with_reason(outcome, "Execution paused")),
            ),
            (BreakPhase::Wait { left }, Answer::Waited(Ok(WaitResult::TimedOut))) => {
                self.phase = BreakPhase::Status { left };
                Next::Ask(Request::GetExecutionStatus)
            },
            (BreakPhase::Status { left }, Answer::Number(Err(e))) => Next::End(
                Err(EngineError::op("GetExecutionStatus", e)),
            ),
            (BreakPhase::Status { left }, Answer::Number(Ok(status))) => {
                let code: Option<u32> = state.last_exit_code();
                if status != DEBUG_STATUS_BREAK && status != DEBUG_STATUS_NO_DEBUGGEE {
                    self.phase = BreakPhase::Interrupt { left: left - 1 };
                    Next::Ask(Request::SetInterrupt)
                } else if code.is_some() || status == DEBUG_STATUS_NO_DEBUGGEE {
                    let code: Option<i64> = match code {
                        Some(c) => Some(c as i64),
                        None => None,
                    };
                    Next::End(Ok(StopOutcome::Exited { code }))
                } else {
                    self.phase = BreakPhase::Thread { hit: state.last_breakpoint_id() };
                    Next::Ask(Request::GetCurrentThread)
                }
            },
            (BreakPhase::Thread { hit }, Answer::Number(thread)) => Next::End(
                Ok(stop_at("Execution paused".to_owned(), hit, thread)),
            ),
            _ => {
                assert(false);
                Next::End(Ok(StopOutcome::Terminated))
            },
        }
    }
}

/// The first question of a break-in.
fn break_loop() -> (r: (BreakFlow, Request))
    ensures
        r.0.phase == (BreakPhase::Interrupt { left: BREAK_ATTEMPTS }),
        r.1 == Request::SetInterrupt,
{
    (BreakFlow { phase: BreakPhase::Interrupt { left: BREAK_ATTEMPTS } }, Request::SetInterrupt)
}

impl Engine {
    /// Begins to break a running target into a state with a context; a crash dump is refused.
    pub fn break_in(&self) -> (r: (BreakFlow, Next<StopOutcome>))
        ensures
            self.dump() ==> r.0.phase is Over && r.1.fails_engine(
                "cannot continue a crash-dump session"@,
            ),
            !self.dump() ==> r.0.phase == (BreakPhase::Interrupt { left: BREAK_ATTEMPTS }) && r.1
                == Next::<StopOutcome>::Ask(Request::SetInterrupt),
            r.0.wf(),
    {
        match self.ensure_runnable() {
            Err(e) => (BreakFlow { phase: BreakPhase::Over }, Next::End(Err(e))),
            Ok(_) => {
                let (flow, request) = break_loop();
                (flow, Next::Ask(request))
            },
        }
    }
}

// ---- running to the next stop ----

/// What a run is waiting for.
pub enum GoPhase {
    /// The interrupt flag to be lowered.
    Clear,
    /// The target to be set going.
    Resume,
    /// The deadline to be set.
    Arm,
    /// The clock and the flag.
    Poll,
    /// An event, for one polling slice.
    Wait,
    /// A break-in, after the flag was raised.
    Break(BreakFlow),
    Over,
}

/// A run of the target until it stops, is interrupted, or a time budget is used up.
pub struct GoFlow {
    pub timeout_ms: u32,
    pub phase: GoPhase,
}

/// The result of a run that a break-in ended.
pub open spec fn as_some(next: Next<StopOutcome>) -> Next<Option<StopOutcome>> {
    match next {
        Next::Ask(request) => Next::Ask(request),
        Next::End(Ok(outcome)) => Next::End(Ok(Some(outcome))),
        Next::End(Err(e)) => Next::End(Err(e)),
    }
}

impl GoFlow {
    /// What the run has asked for.
    pub open spec fn asked(self, request: Request) -> bool {
        match self.phase {
            GoPhase::Clear => request == Request::ClearInterrupt,
            GoPhase::Resume => request == Request::SetExecutionStatus(DEBUG_STATUS_GO),
            GoPhase::Arm => request == Request::SetDeadline(self.timeout_ms),
            GoPhase::Poll => request == Request::Poll,
            GoPhase::Wait => request == Request::Wait(POLL_SLICE),
            GoPhase::Break(flow) => flow.asked(request),
            GoPhase::Over => false,
        }
    }

    /// Whether `answer` answers what the run has asked for.
    pub open spec fn expects(self, answer: Answer) -> bool {
        exists|request: Request| self.asked(request) && #[trigger] request.answered_by(answer)
    }

    /// A break-in under way is well formed.
    pub open spec fn wf(self) -> bool {
        self.phase matches GoPhase::Break(flow) ==> flow.wf()
    }

    /// How a run goes on from one answer to the next question.
    pub open spec fn steps(
        self,
        stop: StopFacts,
        answer: Answer,
        after: GoFlow,
        next: Next<Option<StopOutcome>>,
    ) -> bool {
        &&& after.timeout_ms == self.timeout_ms
        &&& match (self.phase, answer) {
            (GoPhase::Clear, Answer::Done(_)) => after.phase is Resume && next == Next::<
                Option<StopOutcome>,
            >::Ask(Request::SetExecutionStatus(DEBUG_STATUS_GO)),
            (GoPhase::Resume, Answer::Done(Err(e))) => after.phase is Over && next.fails_op(
                "SetExecutionStatus(GO)"@,
                e,
            ),
            (GoPhase::Resume, Answer::Done(Ok(_))) => after.phase is Arm && next == Next::<
                Option<StopOutcome>,
            >::Ask(Request::SetDeadline(self.timeout_ms)),
            (GoPhase::Arm, Answer::Done(_)) => after.phase is Poll && next == Next::<
                Option<StopOutcome>,
            >::Ask(Request::Poll),
            (GoPhase::Poll, Answer::Polled { expired, interrupted }) => if interrupted {
                after.phase == GoPhase::Break(
                    BreakFlow { phase: BreakPhase::Interrupt { left: BREAK_ATTEMPTS } },
                ) && next == Next::<Option<StopOutcome>>::Ask(Request::SetInterrupt)
            } else if expired {
                after.phase is Over && next == Next::<Option<StopOutcome>>::End(Ok(None))
            } else {
                after.phase is Wait && next == Next::<Option<StopOutcome>>::Ask(
                    Request::Wait(POLL_SLICE),
                )
            },
            (GoPhase::Wait, Answer::Waited(Err(e))) => after.phase is Over && next == Next::<
                Option<StopOutcome>,
            >::End(Err(e)),
            (GoPhase::Wait, Answer::Waited(Ok(WaitResult::Event(outcome)))) => after.phase is Over
                && next == Next::<Option<StopOutcome>>::End(Ok(Some(outcome))),
            (GoPhase::Wait, Answer::Waited(Ok(WaitResult::TimedOut))) => after.phase is Poll && next
                == Next::<Option<StopOutcome>>::Ask(Request::Poll),
            (GoPhase::Break(flow), answer) => exists|inner: BreakFlow, n: Next<StopOutcome>| #[trigger]
                flow.steps(stop, answer, inner, n) && after.phase == GoPhase::Break(inner) && next
                    == as_some(n),
            _ => false,
        }
    }

    /// Goes on from an answer.
    pub fn resume(&mut self, state: &CallbackState, answer: Answer) -> (r: Next<Option<StopOutcome>>)
        requires
            old(self).expects(answer),
            old(self).wf(),
        ensures
            old(self).steps(state.stop(), answer, *final(self), r),
            final(self).wf(),
    {
        let mut phase = GoPhase::Over;
        std::mem::swap(&mut phase, &mut self.phase);
        match (phase, answer) {
            (GoPhase::Clear, Answer::Done(_)) => {
                self.phase = GoPhase::Resume;
                Next::Ask(Request::SetExecutionStatus(DEBUG_STATUS_GO))
            },
            (GoPhase::Resume, Answer::Done(Err(e))) => Next::End(
                Err(EngineError::op("SetExecutionStatus(GO)", e)),
            ),
            (GoPhase::Resume, Answer::Done(Ok(_))) => {
                self.phase = GoPhase::Arm;
                Next::Ask(Request::SetDeadline(self.timeout_ms))
            },
            (GoPhase::Arm, Answer::Done(_)) => {
                self.phase = GoPhase::Poll;
                Next::Ask(Request::Poll)
            },
            (GoPhase::Poll, Answer::Polled { expired, interrupted }) => if interrupted {
                let (flow, request) = break_loop();
                self.phase = GoPhase::Break(flow);
                Next::Ask(request)
            } else if expired {
                Next::End(Ok(None))
            } else {
                self.phase = GoPhase::Wait;
                Next::Ask(Request::Wait(POLL_SLICE))
            },
            (GoPhase::Wait, Answer::Waited(Err(e))) => Next::End(Err(e)),
            (GoPhase::Wait, Answer::Waited(Ok(WaitResult::Event(outcome)))) => Next::End(
                Ok(Some(outcome)),
            ),
            (GoPhase::Wait, Answer::Waited(Ok(WaitResult::TimedOut))) => {
                self.phase = GoPhase::Poll;
                Next::Ask(Request::Poll)
            },
            (GoPhase::Break(flow), answer) => {
                let mut flow = flow;
                let ghost before = flow;
                let next: Next<StopOutcome> = flow.resume(state, answer);
                assert(before.steps(state.stop(), answer, flow, next));
                self.phase = GoPhase::Break(flow);
                match next {
                    Next::Ask(request) => Next::Ask(request),
                    Next::End(Ok(outcome)) => Next::End(Ok(Some(outcome))),
                    Next::End(Err(e)) => Next::End(Err(e)),
                }
            },
            _ => {
                assert(false);
                Next::End(Ok(None))
            },
        }
    }
}

impl Engine {
    /// Begins to run the target for up to `timeout_ms` milliseconds; a crash dump is refused. The
    /// run ends with `None` when the budget is used up and the target still runs.
    pub fn go(&self, timeout_ms: u32) -> (r: (GoFlow, Next<Option<StopOutcome>>))
        ensures
            r.0.timeout_ms == timeout_ms,
            self.dump() ==> r.0.phase is Over && r.1.fails_engine(
                "cannot continue a crash-dump session"@,
            ),
            !self.dump() ==> r.0.phase is Clear && r.1 == Next::<Option<StopOutcome>>::Ask(
                Request::ClearInterrupt,
            ),
            r.0.wf(),
    {
        match self.ensure_runnable() {
            Err(e) => (GoFlow { timeout_ms, phase: GoPhase::Over }, Next::End(Err(e))),
            Ok(_) => (
                GoFlow { timeout_ms, phase: GoPhase::Clear },
                Next::Ask(Request::ClearInterrupt),
            ),
        }
    }
}

// ---- stepping ----

/// What a step is waiting for.
pub enum StepPhase {
    /// The step to be started.
    Start(StepKind),
    /// The step to land.
    Wait,
    Over,
}

/// One step of the target.
pub struct StepFlow {
    pub phase: StepPhase,
}

/// The operation that starts a step.
pub open spec fn step_context(kind: StepKind) -> Seq<char> {
    match kind {
        StepKind::Over => "SetExecutionStatus(STEP_OVER)"@,
        StepKind::Into => "SetExecutionStatus(STEP_INTO)"@,
        StepKind::Out => "Execute(gu)"@,
    }
}

/// Whether `request` starts a step: there is a status for stepping over and into, and a command
/// for stepping out.
pub open spec fn starts_step(kind: StepKind, request: Request) -> bool {
    match kind {
        StepKind::Over => request == Request::SetExecutionStatus(DEBUG_STATUS_STEP_OVER),
        StepKind::Into => request == Request::SetExecutionStatus(DEBUG_STATUS_STEP_INTO),
        StepKind::Out => request matches Request::Execute(command) && command@ == "gu"@,
    }
}

impl StepFlow {
    /// What the step has asked for.
    pub open spec fn asked(self, request: Request) -> bool {
        match self.phase {
            StepPhase::Start(kind) => starts_step(kind, request),
            StepPhase::Wait => request == Request::Wait(FIRST_BREAK_TIMEOUT),
            StepPhase::Over => false,
        }
    }

    /// Whether `answer` answers what the step has asked for.
    pub open spec fn expects(self, answer: Answer) -> bool {
        exists|request: Request| self.asked(request) && #[trigger] request.answered_by(answer)
    }

    /// How a step goes on from one answer to the next question.
    pub open spec fn steps(self, answer: Answer, after: StepFlow, next: Next<StopOutcome>) -> bool {
        match (self.phase, answer) {
            (StepPhase::Start(kind), Answer::Done(Err(e))) => after.phase is Over && next.fails_op(
                step_context(kind),
                e,
            ),
            (StepPhase::Start(kind), Answer::Done(Ok(_))) => after.phase is Wait && next
                == Next::<StopOutcome>::Ask(Request::Wait(FIRST_BREAK_TIMEOUT)),
            (StepPhase::Wait, Answer::Waited(Err(e))) => after.phase is Over && next
                == Next::<StopOutcome>::End(Err(e)),
            (StepPhase::Wait, Answer::Waited(Ok(WaitResult::Event(outcome)))) => after.phase is Over
                && next == Next::<StopOutcome>::End(Ok(outcome)),
            (StepPhase::Wait, Answer::Waited(Ok(WaitResult::TimedOut))) => after.phase is Over
                && next.fails_engine("step: timed out"@),
            _ => false,
        }
    }

    /// Goes on from an answer.
    pub fn resume(&mut self, answer: Answer) -> (r: Next<StopOutcome>)
        requires
            old(self).expects(answer),
        ensures
            old(self).steps(answer, *final(self), r),
    {
        let mut phase = StepPhase::Over;
        std::mem::swap(&mut phase, &mut self.phase);
        match (phase, answer) {
            (StepPhase::Start(kind), Answer::Done(Err(e))) => {
                let context: &'static str = match kind {
                    StepKind::Over => "SetExecutionStatus(STEP_OVER)",
                    StepKind::Into => "SetExecutionStatus(STEP_INTO)",
                    StepKind::Out => "Execute(gu)",
                };
                Next::End(Err(EngineError::op(context, e)))
            },
            (StepPhase::Start(kind), Answer::Done(Ok(_))) => {
                self.phase = StepPhase::Wait;
                Next::Ask(Request::Wait(FIRST_BREAK_TIMEOUT))
            },
            (StepPhase::Wait, Answer::Waited(Err(e))) => Next::End(Err(e)),
            (StepPhase::Wait, Answer::Waited(Ok(WaitResult::Event(outcome)))) => Next::End(
                Ok(outcome),
            ),
            (StepPhase::Wait, Answer::Waited(Ok(WaitResult::TimedOut))) => Next::End(
                Err(EngineError::engine("step: timed out")),
            ),
            _ => {
                assert(false);
                Next::End(Ok(StopOutcome::Terminated))
            },
        }
    }
}

impl Engine {
    /// Begins one step; a crash dump is refused.
    pub fn step(&self, kind: StepKind) -> (r: (StepFlow, Next<StopOutcome>))
        ensures
            self.dump() ==> r.0.phase is Over && r.1.fails_engine(
                "cannot continue a crash-dump session"@,
            ),
            !self.dump() ==> r.0.phase == StepPhase::Start(kind) && (r.1 matches Next::Ask(request)
                && starts_step(kind, request)),
            !self.dump() ==> match kind {
                StepKind::Over => r.1 == Next::<StopOutcome>::Ask(Request::SetExecutionStatus(4)),
                StepKind::Into => r.1 == Next::<StopOutcome>::Ask(Request::SetExecutionStatus(5)),
                StepKind::Out => r.1 matches Next::Ask(Request::Execute(command)) && command@
                    == seq!['g', 'u'],
            },
    {
        proof {
            reveal_strlit("gu");
            assert("gu"@ =~= seq!['g', 'u']);
        }
        match self.ensure_runnable() {
            Err(e) => (StepFlow { phase: StepPhase::Over }, Next::End(Err(e))),
            Ok(_) => {
                let request: Request = match kind {
                    StepKind::Over => Request::SetExecutionStatus(DEBUG_STATUS_STEP_OVER),
                    StepKind::Into => Request::SetExecutionStatus(DEBUG_STATUS_STEP_INTO),
                    StepKind::Out => Request::Execute("gu".to_owned()),
                };
                (StepFlow { phase: StepPhase::Start(kind) }, Next::Ask(request))
            },
        }
    }
}

} // verus!
