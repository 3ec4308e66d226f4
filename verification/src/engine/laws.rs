//! What holds of every session of the engine, whatever its host answers.
use super::breakpoints::{SetFlow, SetPhase};
use super::host::{Answer, Next, Request};
use super::inspect::{StackFlow, StackPhase};
use super::locals::LocalsFlow;
use super::run::{BreakFlow, BreakPhase, GoFlow};
use super::session::{OpenFlow, OpenPhase, end_flags};
use super::wait::WaitFlow;
use super::{
    BREAK_ATTEMPTS, DEBUG_END_ACTIVE_TERMINATE, DEBUG_END_PASSIVE, DEBUG_ENGOPT_INITIAL_BREAK,
    DEBUG_STATUS_GO, WaitResult, condition_text, relabeled,
};
use crate::callbacks::StopFacts;
use crate::types::{BreakpointResult, Frame, StopOutcome, Variable};
use vstd::prelude::*;

verus! {

/// A session that was opened takes the request for a first break back, whatever the wait for that
/// break brought, before it does anything else.
pub proof fn opening_takes_the_first_break_back(
    flow: OpenFlow,
    answer: Answer,
    after: OpenFlow,
    next: Next<StopOutcome>,
)
    requires
        flow.phase is Wait,
        flow.expects(answer),
        flow.steps(answer, after, next),
    ensures
        next == Next::<StopOutcome>::Ask(Request::RemoveEngineOptions(DEBUG_ENGOPT_INITIAL_BREAK)),
        after.phase is Clear,
{
}

/// No session is reported as open before the request for a first break was taken back without an
/// error.
pub proof fn opening_reports_only_clean_sessions(
    flow: OpenFlow,
    answer: Answer,
    after: OpenFlow,
    next: Next<StopOutcome>,
)
    requires
        flow.expects(answer),
        flow.steps(answer, after, next),
        next matches Next::End(Ok(_)),
    ensures
        match flow.phase {
            OpenPhase::Clear(wait) => wait matches Ok(WaitResult::Event(_)) && (
            answer matches Answer::Done(Ok(_))),
            OpenPhase::Module(_) | OpenPhase::Reload(_) => true,
            _ => false,
        },
{
}

/// A condition that does not hold, or that cannot be evaluated, is never reported as a stop: the
/// target is set going again.
pub proof fn false_conditions_do_not_stop(
    flow: WaitFlow,
    conditions: Map<u32, Seq<char>>,
    stop: StopFacts,
    answer: Answer,
    after: WaitFlow,
    next: Next<WaitResult>,
)
    requires
        flow.phase is Condition,
        answer matches Answer::Value(value) && (value matches Ok(n) ==> n == 0),
        flow.steps(conditions, stop, answer, after, next),
    ensures
        next == Next::<WaitResult>::Ask(Request::SetExecutionStatus(DEBUG_STATUS_GO)),
        after.phase is Resume,
{
}

/// A stop at a breakpoint with a condition is reported only when that very condition was
/// evaluated and holds.
pub proof fn conditional_stops_hold(
    flow: WaitFlow,
    conditions: Map<u32, Seq<char>>,
    id: u32,
    stop: StopFacts,
    asking: WaitFlow,
    asked: Next<WaitResult>,
    later: StopFacts,
    answer: Answer,
    after: WaitFlow,
    next: Next<WaitResult>,
)
    requires
        flow.phase is Breakpoint,
        conditions.contains_key(id),
        flow.steps(conditions, stop, Answer::Breakpoint(Some(id)), asking, asked),
        asking.expects(answer),
        asking.steps(conditions, later, answer, after, next),
        next != Next::<WaitResult>::Ask(Request::SetExecutionStatus(DEBUG_STATUS_GO)),
    ensures
        asked matches Next::Ask(Request::Evaluate(text)) && text@ == condition_text(conditions[id]),
        answer matches Answer::Value(Ok(n)) && n != 0,
{
}

/// A run gives the target up as still running only when its time is up and nobody has asked it
/// to break.
pub proof fn runs_give_up_only_in_time(
    flow: GoFlow,
    stop: StopFacts,
    answer: Answer,
    after: GoFlow,
    next: Next<Option<StopOutcome>>,
)
    requires
        flow.expects(answer),
        flow.steps(stop, answer, after, next),
        next == Next::<Option<StopOutcome>>::End(Ok(None)),
    ensures
        flow.phase is Poll,
        answer == (Answer::Polled { expired: true, interrupted: false }),
{
}

/// Only a live target is ever killed, and only where that was asked for.
pub proof fn only_live_targets_are_killed(dump: bool, terminate: bool)
    ensures
        end_flags(dump, terminate) == DEBUG_END_ACTIVE_TERMINATE <==> !dump && terminate,
        end_flags(true, terminate) == DEBUG_END_PASSIVE,
{
}

/// How far a break-in is from its end.
pub open spec fn break_distance(flow: BreakFlow) -> int {
    match flow.phase {
        BreakPhase::Interrupt { left } => 3 * left + 2,
        BreakPhase::Wait { left } => 3 * left + 1,
        BreakPhase::Status { left } => 3 * left,
        BreakPhase::Thread { .. } => 1,
        BreakPhase::Over => 0,
    }
}

/// A break-in comes to an end: every answer brings it closer, and it begins at a fixed distance.
pub proof fn break_in_comes_to_an_end(
    flow: BreakFlow,
    stop: StopFacts,
    answer: Answer,
    after: BreakFlow,
    next: Next<StopOutcome>,
)
    requires
        flow.wf(),
        flow.expects(answer),
        flow.steps(stop, answer, after, next),
    ensures
        0 <= break_distance(after) < break_distance(flow),
        after.wf(),
        next is Ask ==> after.phase !is Over,
        break_distance(
            (BreakFlow { phase: BreakPhase::Interrupt { left: BREAK_ATTEMPTS } }),
        ) == 152,
{
}

/// How far the setting of a breakpoint is from its end.
pub open spec fn set_distance(flow: SetFlow) -> int {
    match flow.phase {
        SetPhase::Name => 2 * u32::MAX + 9,
        SetPhase::Count(_) => 2 * u32::MAX + 8,
        SetPhase::Module { index, count, .. } => 2 * (count - index) + 5,
        SetPhase::Qualified { index, count, .. } => 2 * (count - index) + 4,
        SetPhase::Line => 5,
        SetPhase::Create(_) => 4,
        SetPhase::Place(_) => 3,
        SetPhase::Enable => 2,
        SetPhase::Id => 1,
        SetPhase::Over => 0,
    }
}

/// Whether a search for a function looks at a module that is there.
pub open spec fn searches_in_range(flow: SetFlow) -> bool {
    match flow.phase {
        SetPhase::Module { index, count, .. } => index < count,
        SetPhase::Qualified { index, count, .. } => index < count,
        _ => true,
    }
}

/// The setting of a breakpoint comes to an end: every answer brings it closer, through at most
/// all of the modules, each of which is looked at once.
pub proof fn setting_comes_to_an_end(
    flow: SetFlow,
    answer: Answer,
    after: SetFlow,
    next: Next<BreakpointResult>,
)
    requires
        searches_in_range(flow),
        flow.expects(answer),
        flow.steps(answer, after, next),
    ensures
        0 <= set_distance(after) < set_distance(flow),
        searches_in_range(after),
        next is Ask ==> after.phase !is Over,
{
}

/// A stack walk leaves the engine on the thread that it was on: once it has switched, it switches
/// back after the walk, whatever the walk brought.
pub proof fn stack_walk_comes_back(
    switching: StackFlow,
    switched: Answer,
    walking: StackFlow,
    asked: Next<Vec<Frame>>,
    walked: Answer,
    after: StackFlow,
    next: Next<Vec<Frame>>,
    back: u32,
)
    requires
        switching.phase == StackPhase::Switch(back),
        switched matches Answer::Done(Ok(_)),
        switching.steps(switched, walking, asked),
        walking.expects(walked),
        walking.steps(walked, after, next),
    ensures
        next == Next::<Vec<Frame>>::Ask(Request::SetCurrentThread(back)),
{
}

/// Whether a reading of locals has moved the scope of the engine and not put it back.
pub open spec fn scope_is_moved(flow: LocalsFlow) -> bool {
    flow.scoped() && (flow.phase is Group || flow.phase is Count || flow.phase is Symbols
        || flow.phase is Reset)
}

/// The locals of another frame are never reported, and never fail, before the scope of the engine
/// was put back.
pub proof fn scope_is_put_back(
    flow: LocalsFlow,
    answer: Answer,
    after: LocalsFlow,
    next: Next<Vec<Variable>>,
)
    requires
        scope_is_moved(flow),
        flow.expects(answer),
        flow.steps(answer, after, next),
    ensures
        next is End ==> flow.phase is Reset,
        flow.phase !is Reset ==> scope_is_moved(after),
        after.phase is Reset ==> next == Next::<Vec<Variable>>::Ask(Request::ResetScope),
{
}

/// Putting another reason on a stop takes its place: only the last one counts, and nothing but
/// the reason changes.
pub proof fn last_reason_counts(
    outcome: StopOutcome,
    first: Seq<char>,
    middle: StopOutcome,
    second: Seq<char>,
    last: StopOutcome,
)
    requires
        relabeled(outcome, first, middle),
        relabeled(middle, second, last),
    ensures
        relabeled(outcome, second, last),
{
}

} // verus!
