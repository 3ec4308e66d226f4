//! What a reported stop rests on: the wait that brought it, and in that wait the condition of the
//! breakpoint.
//!
//! A run, a step and the opening of a session each ask for whole waits. Here they are taken
//! together with those waits, so that what holds of every wait holds of what they report.
use super::host::{Answer, Next, Request};
use super::run::{GoFlow, StepFlow, StepPhase};
use super::session::{OpenFlow, OpenPhase, Target};
use super::wait::{WaitFlow, WaitPhase};
use super::{FIRST_BREAK_TIMEOUT, POLL_SLICE, WaitResult, condition_text, relabeled};
use crate::callbacks::StopFacts;
use crate::error::EngineError;
use crate::types::{StepKind, StopOutcome};
use vstd::prelude::*;

verus! {

// ---- one wait ----

/// The course of a wait: from `flows[i]`, with `stops[i]` known of the last stop, the wait went on
/// by `answers[i]` to `flows[i + 1]` and to `nexts[i]`.
pub struct WaitRecord {
    pub flows: Seq<WaitFlow>,
    pub stops: Seq<StopFacts>,
    pub answers: Seq<Answer>,
    pub nexts: Seq<Next<WaitResult>>,
}

impl WaitRecord {
    /// Whether this is the course of a wait of `timeout_ms` milliseconds, from its beginning.
    pub open spec fn is_wait(self, conditions: Map<u32, Seq<char>>, timeout_ms: u32) -> bool {
        &&& self.answers.len() > 0
        &&& self.flows.len() == self.answers.len() + 1
        &&& self.stops.len() == self.answers.len()
        &&& self.nexts.len() == self.answers.len()
        &&& self.flows[0] == (WaitFlow { timeout_ms, phase: WaitPhase::Base })
        &&& forall|i: int|
            0 <= i < self.answers.len() ==> (#[trigger] self.flows[i]).expects(self.answers[i])
                && self.flows[i].steps(
                conditions,
                self.stops[i],
                self.answers[i],
                self.flows[i + 1],
                self.nexts[i],
            )
    }

    /// Whether the wait ended with `result`.
    pub open spec fn brought(self, result: Result<WaitResult, EngineError>) -> bool {
        self.nexts.last() == Next::<WaitResult>::End(result)
    }

    /// Whether answer number `k` says which breakpoint the last event of the wait is about, and
    /// that breakpoint has no condition, or its condition was evaluated next and is true.
    pub open spec fn is_judged(self, conditions: Map<u32, Seq<char>>, k: int) -> bool {
        &&& 0 <= k < self.answers.len()
        &&& self.answers[k] matches Answer::Breakpoint(hit)
        &&& forall|j: int| k < j < self.answers.len() ==> !(#[trigger] self.answers[j] is Hresult)
        &&& match hit {
            Some(id) if conditions.contains_key(id) => {
                &&& self.nexts[k] matches Next::Ask(Request::Evaluate(expression))
                &&& expression@ == condition_text(conditions[id])
                &&& k + 1 < self.answers.len()
                &&& self.answers[k + 1] matches Answer::Value(Ok(n)) && n != 0
            },
            _ => true,
        }
    }

    /// Whether the last event of the wait may be reported: no breakpoint has a condition, or the
    /// one that the event is about was judged.
    pub open spec fn is_due(self, conditions: Map<u32, Seq<char>>) -> bool {
        conditions == Map::<u32, Seq<char>>::empty() || exists|k: int| #[trigger]
            self.is_judged(conditions, k)
    }
}

/// Every event that a wait brings is due: it is about no breakpoint with a condition, or that very
/// condition was evaluated after the event and is true.
pub proof fn waits_bring_only_due_events(
    wait: WaitRecord,
    conditions: Map<u32, Seq<char>>,
    timeout_ms: u32,
    outcome: StopOutcome,
)
    requires
        wait.is_wait(conditions, timeout_ms),
        wait.brought(Ok(WaitResult::Event(outcome))),
    ensures
        wait.is_due(conditions),
{
    let n = wait.answers.len() as int;
    assert(wait.flows[n - 1].expects(wait.answers[n - 1]));
    if n >= 2 {
        assert(wait.flows[n - 2].expects(wait.answers[n - 2]));
        if n >= 3 {
            assert(wait.flows[n - 3].expects(wait.answers[n - 3]));
        }
    }
    if conditions != Map::<u32, Seq<char>>::empty() {
        let last = wait.flows[n - 1].phase;
        if last is Breakpoint {
            assert(wait.is_judged(conditions, n - 1));
        } else if last is Condition {
            assert(wait.is_judged(conditions, n - 2));
        } else if wait.flows[n - 2].phase is Breakpoint {
            assert(wait.is_judged(conditions, n - 2));
        } else {
            assert(wait.is_judged(conditions, n - 3));
        }
    }
}

// ---- what asks for waits ----

/// Whether the waits among the answers were made: `waits[i]` is the course of the wait that
/// `answers[i]` is the end of.
pub open spec fn are_waits(
    conditions: Map<u32, Seq<char>>,
    timeout_ms: u32,
    answers: Seq<Answer>,
    waits: Seq<WaitRecord>,
) -> bool {
    &&& waits.len() == answers.len()
    &&& forall|i: int|
        0 <= i < answers.len() ==> (#[trigger] answers[i] matches Answer::Waited(result)
            ==> waits[i].is_wait(conditions, timeout_ms) && waits[i].brought(result))
}

/// Whether `outcome` was brought by the wait behind answer number `i`, and is due; it may be
/// reported under another reason.
pub open spec fn rests_on(
    conditions: Map<u32, Seq<char>>,
    answers: Seq<Answer>,
    waits: Seq<WaitRecord>,
    outcome: StopOutcome,
    i: int,
) -> bool {
    &&& 0 <= i < answers.len()
    &&& answers[i] matches Answer::Waited(Ok(WaitResult::Event(brought)))
    &&& outcome == brought || exists|reason: Seq<char>| #[trigger]
        relabeled(brought, reason, outcome)
    &&& waits[i].is_due(conditions)
}

proof fn waited_outcome_is_due(
    conditions: Map<u32, Seq<char>>,
    timeout_ms: u32,
    answers: Seq<Answer>,
    waits: Seq<WaitRecord>,
    brought: StopOutcome,
    i: int,
)
    requires
        are_waits(conditions, timeout_ms, answers, waits),
        0 <= i < answers.len(),
        answers[i] == Answer::Waited(Ok(WaitResult::Event(brought))),
    ensures
        waits[i].is_due(conditions),
{
    waits_bring_only_due_events(waits[i], conditions, timeout_ms, brought);
}

// ---- runs ----

/// The course of a run, with its waits.
pub struct GoRecord {
    pub flows: Seq<GoFlow>,
    pub stops: Seq<StopFacts>,
    pub answers: Seq<Answer>,
    pub nexts: Seq<Next<Option<StopOutcome>>>,
    pub waits: Seq<WaitRecord>,
}

impl GoRecord {
    /// Whether this is the course of a run, from its beginning.
    pub open spec fn is_run(self, conditions: Map<u32, Seq<char>>) -> bool {
        &&& self.answers.len() > 0
        &&& self.flows.len() == self.answers.len() + 1
        &&& self.stops.len() == self.answers.len()
        &&& self.nexts.len() == self.answers.len()
        &&& self.flows[0].phase is Clear
        &&& forall|i: int|
            0 <= i < self.answers.len() ==> (#[trigger] self.flows[i]).expects(self.answers[i])
                && self.flows[i].steps(
                self.stops[i],
                self.answers[i],
                self.flows[i + 1],
                self.nexts[i],
            )
        &&& are_waits(conditions, POLL_SLICE, self.answers, self.waits)
    }

    /// Whether somebody asked the run to break.
    pub open spec fn was_interrupted(self) -> bool {
        exists|i: int|
            0 <= i < self.answers.len() && (#[trigger] self.answers[i] matches Answer::Polled {
                interrupted,
                ..
            } && interrupted)
    }
}

proof fn breaking_is_asked_for(run: GoRecord, conditions: Map<u32, Seq<char>>, i: int)
    requires
        run.is_run(conditions),
        0 <= i < run.flows.len(),
        run.flows[i].phase is Break,
    ensures
        run.was_interrupted(),
    decreases i,
{
    assert(run.flows[i - 1].expects(run.answers[i - 1]));
    if run.flows[i - 1].phase is Break {
        breaking_is_asked_for(run, conditions, i - 1);
    } else {
        assert(run.answers[i - 1] is Polled);
    }
}

/// A run never reports a stop at a breakpoint whose condition is false: what it reports was
/// brought by a wait and is due. The one other thing that it reports is the pause, or the end, of
/// a target that it was asked to break.
pub proof fn runs_report_only_due_stops(
    run: GoRecord,
    conditions: Map<u32, Seq<char>>,
    outcome: StopOutcome,
)
    requires
        run.is_run(conditions),
        run.nexts.last() == Next::<Option<StopOutcome>>::End(Ok(Some(outcome))),
    ensures
        rests_on(conditions, run.answers, run.waits, outcome, run.answers.len() - 1) || (
        run.was_interrupted() && (outcome matches StopOutcome::Stopped(info) ==> info.reason@
            == "Execution paused"@)),
        !run.was_interrupted() ==> rests_on(
            conditions,
            run.answers,
            run.waits,
            outcome,
            run.answers.len() - 1,
        ),
{
    let n = run.answers.len() as int;
    let flow = run.flows[n - 1];
    let answer = run.answers[n - 1];
    assert(flow.expects(answer));
    if flow.phase is Break {
        breaking_is_asked_for(run, conditions, n - 1);
    }
    if let Answer::Waited(Ok(WaitResult::Event(brought))) = answer {
        waited_outcome_is_due(
            conditions,
            POLL_SLICE,
            run.answers,
            run.waits,
            brought,
            n - 1,
        );
        if flow.phase is Break {
            assert(relabeled(brought, "Execution paused"@, outcome));
        }
    }
}

// ---- steps ----

/// The course of a step, with its wait.
pub struct StepRecord {
    pub flows: Seq<StepFlow>,
    pub answers: Seq<Answer>,
    pub nexts: Seq<Next<StopOutcome>>,
    pub waits: Seq<WaitRecord>,
}

impl StepRecord {
    /// Whether this is the course of a step, from its beginning.
    pub open spec fn is_step(self, conditions: Map<u32, Seq<char>>, kind: StepKind) -> bool {
        &&& self.answers.len() > 0
        &&& self.flows.len() == self.answers.len() + 1
        &&& self.nexts.len() == self.answers.len()
        &&& self.flows[0].phase == StepPhase::Start(kind)
        &&& forall|i: int|
            0 <= i < self.answers.len() ==> (#[trigger] self.flows[i]).expects(self.answers[i])
                && self.flows[i].steps(self.answers[i], self.flows[i + 1], self.nexts[i])
        &&& are_waits(conditions, FIRST_BREAK_TIMEOUT, self.answers, self.waits)
    }
}

/// A step never reports a stop at a breakpoint whose condition is false: what it reports was
/// brought by its wait and is due.
pub proof fn steps_report_only_due_stops(
    step: StepRecord,
    conditions: Map<u32, Seq<char>>,
    kind: StepKind,
    outcome: StopOutcome,
)
    requires
        step.is_step(conditions, kind),
        step.nexts.last() == Next::<StopOutcome>::End(Ok(outcome)),
    ensures
        rests_on(conditions, step.answers, step.waits, outcome, step.answers.len() - 1),
{
    let n = step.answers.len() as int;
    assert(step.flows[n - 1].expects(step.answers[n - 1]));
    waited_outcome_is_due(
        conditions,
        FIRST_BREAK_TIMEOUT,
        step.answers,
        step.waits,
        outcome,
        n - 1,
    );
}

// ---- openings ----

/// The course of the opening of a session, with its wait.
pub struct OpenRecord {
    pub flows: Seq<OpenFlow>,
    pub answers: Seq<Answer>,
    pub nexts: Seq<Next<StopOutcome>>,
    pub waits: Seq<WaitRecord>,
}

impl OpenRecord {
    /// Whether this is the course of the opening of a session on `target`, from its beginning.
    pub open spec fn is_opening(self, conditions: Map<u32, Seq<char>>, target: Target) -> bool {
        &&& self.answers.len() > 0
        &&& self.flows.len() == self.answers.len() + 1
        &&& self.nexts.len() == self.answers.len()
        &&& self.flows[0].target == target
        &&& self.flows[0].phase is Privilege || self.flows[0].phase is Options
        &&& forall|i: int|
            0 <= i < self.answers.len() ==> (#[trigger] self.flows[i]).expects(self.answers[i])
                && self.flows[i].steps(self.answers[i], self.flows[i + 1], self.nexts[i])
        &&& are_waits(conditions, target.timeout(), self.answers, self.waits)
    }
}

/// An opening never reports a stop at a breakpoint whose condition is false: what it reports was
/// brought by its wait and is due.
pub proof fn openings_report_only_due_stops(
    opening: OpenRecord,
    conditions: Map<u32, Seq<char>>,
    target: Target,
    outcome: StopOutcome,
)
    requires
        opening.is_opening(conditions, target),
        opening.nexts.last() == Next::<StopOutcome>::End(Ok(outcome)),
    ensures
        exists|i: int| #[trigger]
            rests_on(conditions, opening.answers, opening.waits, outcome, i),
{
    let n = opening.answers.len() as int;
    let last = opening.flows[n - 1].phase;
    assert(opening.flows[n - 1].expects(opening.answers[n - 1]));
    if n >= 2 {
        assert(opening.flows[n - 2].expects(opening.answers[n - 2]));
        if n >= 3 {
            assert(opening.flows[n - 3].expects(opening.answers[n - 3]));
            if n >= 4 {
                assert(opening.flows[n - 4].expects(opening.answers[n - 4]));
            }
        }
    }
    let i = match last {
        OpenPhase::Module(_) => n - 3,
        OpenPhase::Reload(_) => n - 4,
        _ => n - 2,
    };
    let brought = match last {
        OpenPhase::Clear(Ok(WaitResult::Event(brought))) => brought,
        OpenPhase::Module(brought) => brought,
        OpenPhase::Reload(brought) => brought,
        _ => outcome,
    };
    waited_outcome_is_due(
        conditions,
        target.timeout(),
        opening.answers,
        opening.waits,
        brought,
        i,
    );
    if outcome != brought {
        assert(relabeled(brought, "Initial breakpoint"@, outcome));
    }
    assert(rests_on(conditions, opening.answers, opening.waits, outcome, i));
}

} // verus!
