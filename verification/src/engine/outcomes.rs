//! What the operations that let the target run, and those that begin and end a session, ask of the
//! engine and report, in the numbers and texts that the engine itself uses.
use super::courses::{Course, succeeded};
use super::host::{Answer, Interface, Next, Request};
use super::inspect::name_text;
use super::run::{BreakFlow, BreakPhase, GoFlow, starts_step};
use super::session::{
    CreateFlow, DumpFlow, OpenFlow, OpenPhase, Target, command_line_text, end_flags,
};
use super::stops::{GoRecord, StepRecord, WaitRecord, runs_report_only_due_stops};
use super::wait::WaitFlow;
use super::{WaitResult, condition_text, relabeled};
use crate::callbacks::StopFacts;
use crate::error::{ComError, EngineError};
use crate::text::{decimal, texts};
use crate::types::{DumpOutcome, StepKind, StopInfo, StopOutcome};
use vstd::prelude::*;
use vstd::string::*;

verus! {

broadcast use vstd::string::group_string_axioms;

// ---- exits ----

/// Whether a reported exit code is the one that the exit event recorded: the same number, and none
/// where none was recorded.
pub open spec fn same_code(recorded: Option<u32>, reported: Option<i64>) -> bool {
    match (recorded, reported) {
        (Some(c), Some(n)) => n as int == c as int,
        (None, None) => true,
        _ => false,
    }
}

/// An exit that a wait reports has the code that the exit event recorded.
pub proof fn waits_report_the_recorded_code(
    flow: WaitFlow,
    conditions: Map<u32, Seq<char>>,
    stop: StopFacts,
    answer: Answer,
    after: WaitFlow,
    next: Next<WaitResult>,
    code: Option<i64>,
)
    requires
        flow.expects(answer),
        flow.steps(conditions, stop, answer, after, next),
        next == Next::<WaitResult>::End(Ok(WaitResult::Event(StopOutcome::Exited { code }))),
    ensures
        stop.exit_code matches Some(c) ==> (code matches Some(n) && n as int == c as int),
        stop.exit_code is None ==> code is None,
        same_code(stop.exit_code, code),
{
}

/// An exit that a break-in reports of its own has the code that the exit event recorded.
pub proof fn break_ins_report_the_recorded_code(
    flow: BreakFlow,
    stop: StopFacts,
    answer: Answer,
    after: BreakFlow,
    next: Next<StopOutcome>,
    code: Option<i64>,
)
    requires
        flow.expects(answer),
        flow.steps(stop, answer, after, next),
        answer !is Waited,
        next == Next::<StopOutcome>::End(Ok(StopOutcome::Exited { code })),
    ensures
        stop.exit_code matches Some(c) ==> (code matches Some(n) && n as int == c as int),
        stop.exit_code is None ==> code is None,
{
}

/// Once the exit of the process with code `c` has been recorded, the event that a wait brings is
/// that exit, with that very code: neither a stop nor an exit with another code.
pub proof fn a_recorded_exit_is_what_a_wait_brings(
    wait: WaitRecord,
    conditions: Map<u32, Seq<char>>,
    timeout_ms: u32,
    outcome: StopOutcome,
    c: u32,
)
    requires
        wait.is_wait(conditions, timeout_ms),
        wait.brought(Ok(WaitResult::Event(outcome))),
        forall|i: int| 0 <= i < wait.stops.len() ==> (#[trigger] wait.stops[i]).exit_code == Some(c),
    ensures
        outcome matches StopOutcome::Exited { code: Some(n) } && n as int == c as int,
{
    let n = wait.answers.len() as int;
    assert(wait.flows[n - 1].expects(wait.answers[n - 1]));
    assert(wait.stops[n - 1].exit_code == Some(c));
    if n > 1 {
        assert(wait.flows[n - 2].expects(wait.answers[n - 2]));
        assert(wait.stops[n - 2].exit_code == Some(c));
    }
}

/// Processes that exit with different codes are reported differently.
pub proof fn different_codes_are_told_apart(
    a: WaitRecord,
    b: WaitRecord,
    conditions: Map<u32, Seq<char>>,
    timeout_ms: u32,
    one: StopOutcome,
    other: StopOutcome,
    c: u32,
    d: u32,
)
    requires
        a.is_wait(conditions, timeout_ms),
        b.is_wait(conditions, timeout_ms),
        a.brought(Ok(WaitResult::Event(one))),
        b.brought(Ok(WaitResult::Event(other))),
        forall|i: int| 0 <= i < a.stops.len() ==> (#[trigger] a.stops[i]).exit_code == Some(c),
        forall|i: int| 0 <= i < b.stops.len() ==> (#[trigger] b.stops[i]).exit_code == Some(d),
        c != d,
    ensures
        one != other,
{
    a_recorded_exit_is_what_a_wait_brings(a, conditions, timeout_ms, one, c);
    a_recorded_exit_is_what_a_wait_brings(b, conditions, timeout_ms, other, d);
}

// ---- stops ----

/// A stop that a wait reports is the one that was recorded: with its reason, with the breakpoint
/// that was hit and no other, on the thread that the engine is on; and the process has not exited.
pub proof fn stops_are_reported_as_recorded(
    wait: WaitRecord,
    conditions: Map<u32, Seq<char>>,
    timeout_ms: u32,
    info: StopInfo,
)
    requires
        wait.is_wait(conditions, timeout_ms),
        wait.brought(Ok(WaitResult::Event(StopOutcome::Stopped(info)))),
    ensures
        wait.answers.len() >= 2,
        ({
            let n = wait.answers.len() as int;
            let recorded = wait.stops[n - 2];
            &&& wait.nexts[n - 2] == Next::<WaitResult>::Ask(Request::GetCurrentThread)
            &&& wait.answers[n - 1] matches Answer::Number(thread) && (thread matches Ok(id)
                ==> info.thread_id == id) && (thread is Err ==> info.thread_id == 0)
            &&& info.reason@ == recorded.reason
            &&& recorded.breakpoint_id matches Some(id) ==> info.hit_breakpoint_ids@.len() == 1
                && info.hit_breakpoint_ids@[0] == id
            &&& recorded.breakpoint_id is None ==> info.hit_breakpoint_ids@.len() == 0
            &&& recorded.exit_code is None
        }),
{
    let n = wait.answers.len() as int;
    assert(wait.flows[n - 1].expects(wait.answers[n - 1]));
    assert(wait.flows[n - 2].expects(wait.answers[n - 2]));
}

/// A wait asks again exactly while the engine says that the target runs on by itself: while it
/// goes (1, 2, 3) or steps (4, 5, 8). A wait that came to its deadline (1) timed out, and any
/// other code but that of an event (0) is an error.
pub proof fn waits_know_the_codes_of_the_engine(
    flow: WaitFlow,
    conditions: Map<u32, Seq<char>>,
    stop: StopFacts,
    answer: Answer,
    after: WaitFlow,
    next: Next<WaitResult>,
)
    requires
        flow.expects(answer),
        flow.steps(conditions, stop, answer, after, next),
    ensures
        flow.phase is Base ==> (answer matches Answer::Done(Ok(_)) ==> next == Next::<
            WaitResult,
        >::Ask(Request::WaitForEvent(flow.timeout_ms))),
        flow.phase is Status ==> (answer matches Answer::Number(Ok(status)) ==> (next == Next::<
            WaitResult,
        >::Ask(Request::WaitForEvent(flow.timeout_ms)) <==> status == 1 || status == 2 || status
            == 3 || status == 4 || status == 5 || status == 8)),
        flow.phase is Event ==> (answer matches Answer::Hresult(hr) ==> {
            &&& hr.code == 0 ==> next == Next::<WaitResult>::Ask(Request::GetExecutionStatus)
            &&& hr.code == 1 ==> next == Next::<WaitResult>::End(Ok(WaitResult::TimedOut))
            &&& hr.code != 0 && hr.code != 1 ==> (next matches Next::End(Err(_)))
        }),
        flow.phase is Status && conditions != Map::<u32, Seq<char>>::empty() ==> (answer matches Answer::Number(
            Ok(status),
        ) ==> status == 6 ==> next == Next::<WaitResult>::Ask(Request::LastBreakpoint)),
        flow.phase is Status && conditions == Map::<u32, Seq<char>>::empty() ==> (
        answer matches Answer::Number(Ok(status)) ==> {
            &&& status == 7 ==> (next matches Next::End(Ok(WaitResult::Event(outcome))) && outcome
                is Exited)
            &&& status == 6 && stop.exit_code is None ==> next == Next::<WaitResult>::Ask(
                Request::GetCurrentThread,
            )
        }),
        flow.phase is Resume ==> (answer matches Answer::Done(Ok(_)) ==> next == Next::<
            WaitResult,
        >::Ask(Request::WaitForEvent(flow.timeout_ms))),
        flow.phase is Condition && next is Ask ==> next == Next::<WaitResult>::Ask(
            Request::GetCurrentThread,
        ) || next == Next::<WaitResult>::Ask(Request::SetExecutionStatus(1)),
{
}

/// Conditions that differ are evaluated as expressions that differ: each stands whole in its own
/// expression.
pub proof fn conditions_are_evaluated_as_given(a: Seq<char>, b: Seq<char>)
    ensures
        condition_text(a) == condition_text(b) ==> a == b,
        condition_text(a).subrange(8, 8int + a.len()) == a,
{
    reveal_strlit("@@c++( (");
    reveal_strlit(") ? 1 : 0 )");
    assert(condition_text(a).subrange(8, 8int + a.len()) =~= a);
    assert(condition_text(b).subrange(8, 8int + b.len()) =~= b);
    if condition_text(a) == condition_text(b) {
        assert(condition_text(a).len() == a.len() + 19);
        assert(condition_text(b).len() == b.len() + 19);
    }
}

// ---- steps ----

/// A step over sets the status 4, a step into the status 5, and a step out runs the command `gu`:
/// no two of them begin in the same way.
pub proof fn steps_begin_in_their_own_way(kind: StepKind, request: Request)
    requires
        starts_step(kind, request),
    ensures
        kind is Over <==> request == Request::SetExecutionStatus(4),
        kind is Into <==> request == Request::SetExecutionStatus(5),
        kind is Out <==> (request matches Request::Execute(command) && command@ == seq!['g', 'u']),
{
    reveal_strlit("gu");
    assert("gu"@ =~= seq!['g', 'u']);
}

/// A step that was begun waits once, for ten seconds, and reports exactly what that wait brought;
/// where nothing came it fails, and where it could not be begun it fails under the name of the
/// call.
pub proof fn steps_report_what_their_wait_brought(
    step: StepRecord,
    conditions: Map<u32, Seq<char>>,
    kind: StepKind,
)
    requires
        step.is_step(conditions, kind),
    ensures
        succeeded(step.answers, 0) ==> step.nexts[0] == Next::<StopOutcome>::Ask(
            Request::Wait(10_000),
        ),
        step.answers[0] matches Answer::Done(Err(e)) ==> match kind {
            StepKind::Over => step.nexts[0].fails_op("SetExecutionStatus(STEP_OVER)"@, e),
            StepKind::Into => step.nexts[0].fails_op("SetExecutionStatus(STEP_INTO)"@, e),
            StepKind::Out => step.nexts[0].fails_op("Execute(gu)"@, e),
        },
        step.answers.len() > 1 ==> match step.answers[1] {
            Answer::Waited(Ok(WaitResult::Event(outcome))) => step.nexts[1]
                == Next::<StopOutcome>::End(Ok(outcome)),
            Answer::Waited(Ok(WaitResult::TimedOut)) => step.nexts[1].fails_engine(
                "step: timed out"@,
            ),
            Answer::Waited(Err(e)) => step.nexts[1] == Next::<StopOutcome>::End(Err(e)),
            _ => false,
        },
{
    assert(step.flows[0].expects(step.answers[0]));
    if step.answers.len() > 1 {
        assert(step.flows[1].expects(step.answers[1]));
    }
}

// ---- runs ----

/// A run sets the target going (1) and nothing else, for the time that it was given, and waits in
/// slices of 200 milliseconds.
pub proof fn runs_ask_for_what_they_were_given(
    flow: GoFlow,
    stop: StopFacts,
    answer: Answer,
    after: GoFlow,
    next: Next<Option<StopOutcome>>,
)
    requires
        flow.expects(answer),
        flow.steps(stop, answer, after, next),
    ensures
        after.timeout_ms == flow.timeout_ms,
        next matches Next::Ask(Request::SetExecutionStatus(status)) ==> status == 1,
        next matches Next::Ask(Request::SetDeadline(ms)) ==> ms == flow.timeout_ms,
        next matches Next::Ask(Request::Wait(ms)) ==> ms == 200,
        flow.phase is Clear ==> next == Next::<Option<StopOutcome>>::Ask(
            Request::SetExecutionStatus(1),
        ),
        flow.phase is Resume ==> (answer matches Answer::Done(Ok(_)) ==> next == Next::<
            Option<StopOutcome>,
        >::Ask(Request::SetDeadline(flow.timeout_ms))),
        flow.phase is Arm ==> next == Next::<Option<StopOutcome>>::Ask(Request::Poll),
        flow.phase is Poll ==> (answer matches Answer::Polled { expired, interrupted } ==> {
            &&& interrupted ==> next == Next::<Option<StopOutcome>>::Ask(Request::SetInterrupt)
            &&& !interrupted && expired ==> next == Next::<Option<StopOutcome>>::End(Ok(None))
            &&& !interrupted && !expired ==> next == Next::<Option<StopOutcome>>::Ask(
                Request::Wait(200),
            )
        }),
        flow.phase is Wait ==> (answer matches Answer::Waited(result) ==> match result {
            Ok(WaitResult::Event(outcome)) => next == Next::<Option<StopOutcome>>::End(
                Ok(Some(outcome)),
            ),
            Ok(WaitResult::TimedOut) => next == Next::<Option<StopOutcome>>::Ask(Request::Poll),
            Err(e) => next == Next::<Option<StopOutcome>>::End(Err(e)),
        }),
{
}

/// A run that nobody interrupts reports exactly what its last wait brought.
pub proof fn runs_report_what_their_wait_brought(
    run: GoRecord,
    conditions: Map<u32, Seq<char>>,
    outcome: StopOutcome,
)
    requires
        run.is_run(conditions),
        !run.was_interrupted(),
        run.nexts.last() == Next::<Option<StopOutcome>>::End(Ok(Some(outcome))),
    ensures
        run.answers.last() == Answer::Waited(Ok(WaitResult::Event(outcome))),
        run.waits.last().is_wait(conditions, 200),
        run.waits.last().brought(Ok(WaitResult::Event(outcome))),
{
    runs_report_only_due_stops(run, conditions, outcome);
    let n = run.answers.len() as int;
    assert(run.flows[n - 1].expects(run.answers[n - 1]));
    if run.flows[n - 1].phase is Break {
        runs_break_only_when_asked(run, conditions, n - 1);
    }
    assert(run.answers[n - 1] is Waited);
}

proof fn runs_break_only_when_asked(run: GoRecord, conditions: Map<u32, Seq<char>>, i: int)
    requires
        run.is_run(conditions),
        0 <= i < run.flows.len(),
        run.flows[i].phase is Break,
    ensures
        run.was_interrupted(),
    decreases i,
{
    assert(run.flows[i - 1].expects(run.answers[i - 1]));
    if run.flows[i - 1].phase is Break {
        runs_break_only_when_asked(run, conditions, i - 1);
    } else {
        assert(run.answers[i - 1] is Polled);
    }
}

/// A program that runs to its end is reported as exited, with the very code that it exited with:
/// once the exit with code `c` has been recorded, a run that nobody interrupts reports nothing
/// else.
pub proof fn runs_report_the_recorded_code(
    run: GoRecord,
    conditions: Map<u32, Seq<char>>,
    outcome: StopOutcome,
    c: u32,
)
    requires
        run.is_run(conditions),
        !run.was_interrupted(),
        run.nexts.last() == Next::<Option<StopOutcome>>::End(Ok(Some(outcome))),
        forall|i: int|
            0 <= i < run.waits.last().stops.len() ==> (
            #[trigger] run.waits.last().stops[i]).exit_code == Some(c),
    ensures
        outcome matches StopOutcome::Exited { code: Some(n) } && n as int == c as int,
{
    runs_report_what_their_wait_brought(run, conditions, outcome);
    a_recorded_exit_is_what_a_wait_brings(run.waits.last(), conditions, 200, outcome, c);
}


/// A break-in asks the target to break, waits for a slice of 200 milliseconds, and reports what
/// came as a pause: the stop itself, or the exit with its code. It asks again only while the
/// engine says that the target neither stopped (6) nor is gone (7).
pub proof fn break_ins_ask_until_the_target_stops(
    flow: BreakFlow,
    stop: StopFacts,
    answer: Answer,
    after: BreakFlow,
    next: Next<StopOutcome>,
)
    requires
        flow.wf(),
        flow.expects(answer),
        flow.steps(stop, answer, after, next),
    ensures
        next matches Next::Ask(Request::Wait(ms)) ==> ms == 200,
        answer matches Answer::Waited(Ok(WaitResult::Event(StopOutcome::Stopped(info)))) ==> (
        next matches Next::End(Ok(StopOutcome::Stopped(told))) && told.reason@
            == "Execution paused"@ && told.thread_id == info.thread_id
            && told.hit_breakpoint_ids@ == info.hit_breakpoint_ids@),
        answer matches Answer::Waited(Ok(WaitResult::Event(StopOutcome::Exited { code }))) ==> next
            == Next::<StopOutcome>::End(Ok(StopOutcome::Exited { code })),
        answer matches Answer::Waited(Ok(WaitResult::TimedOut)) ==> next
            == Next::<StopOutcome>::Ask(Request::GetExecutionStatus),
        flow.phase is Status ==> (answer matches Answer::Number(Ok(status)) ==> (next
            == Next::<StopOutcome>::Ask(Request::SetInterrupt) <==> status != 6 && status != 7)),
        flow.phase is Thread ==> (answer matches Answer::Number(Ok(id)) ==> (
        next matches Next::End(Ok(StopOutcome::Stopped(told))) && told.thread_id == id)),
        flow.phase is Status && after.phase is Thread ==> after.phase == (BreakPhase::Thread {
            hit: stop.breakpoint_id,
        }) && stop.exit_code is None,
        flow.phase matches BreakPhase::Thread { hit } ==> (next matches Next::End(
            Ok(StopOutcome::Stopped(told)),
        ) && told.reason@ == "Execution paused"@ && match hit {
            Some(id) => told.hit_breakpoint_ids@.len() == 1 && told.hit_breakpoint_ids@[0] == id,
            None => told.hit_breakpoint_ids@.len() == 0,
        }),
{
}

/// Putting another reason on an outcome changes nothing but the reason: the thread, the
/// breakpoints that were hit, and the exit code stay.
pub proof fn relabeling_keeps_the_facts(
    before: StopOutcome,
    reason: Seq<char>,
    after: StopOutcome,
)
    requires
        relabeled(before, reason, after),
    ensures
        before matches StopOutcome::Stopped(info) ==> (after matches StopOutcome::Stopped(told)
            && told.reason@ == reason && told.thread_id == info.thread_id
            && told.hit_breakpoint_ids@ == info.hit_breakpoint_ids@ && told.description@
            == info.description@),
        before matches StopOutcome::Exited { code } ==> after == (StopOutcome::Exited { code }),
        before is Terminated ==> after is Terminated,
{
}

// ---- openings ----

/// Whether this is the course of the opening of a session on `target`.
pub open spec fn opens(c: Course<OpenFlow, StopOutcome>, target: Target) -> bool {
    &&& c.shaped()
    &&& c.flows[0].target == target
    &&& c.flows[0].phase is Privilege || c.flows[0].phase is Options
    &&& forall|i: int|
        0 <= i < c.answers.len() ==> (#[trigger] c.flows[i]).expects(c.answers[i])
            && c.flows[i].steps(c.answers[i], c.flows[i + 1], c.nexts[i])
}

proof fn opening_keeps_its_target(c: Course<OpenFlow, StopOutcome>, target: Target, i: int)
    requires
        opens(c, target),
        0 <= i < c.flows.len(),
    ensures
        c.flows[i].target == target,
    decreases i,
{
    if i > 0 {
        opening_keeps_its_target(c, target, i - 1);
        assert(c.flows[i - 1].expects(c.answers[i - 1]));
    }
}

/// The command line of a launch is the program in quotes, and behind it each argument after a
/// space, in their order.
pub proof fn command_lines_are_in_order(program: Seq<char>, args: Seq<Seq<char>>, arg: Seq<char>)
    ensures
        command_line_text(program, Seq::empty()) == seq!['"'] + program + seq!['"'],
        command_line_text(program, args.push(arg)) == command_line_text(program, args) + seq![' ']
            + arg,
{
    reveal_strlit("\"");
    reveal_strlit(" ");
    assert("\""@ =~= seq!['"']);
    assert(" "@ =~= seq![' ']);
    assert(args.push(arg).drop_last() =~= args);
    assert(command_line_text(program, Seq::empty()) =~= seq!['"'] + program + seq!['"']);
    assert(command_line_text(program, args.push(arg)) =~= command_line_text(program, args)
        + seq![' '] + arg);
}

/// A session is opened on the target that was asked for and on no other: a program is created from
/// its own command line, in its own directory, as a process that is debugged alone and has no
/// window; a process is attached to by its own id, and a kernel by its own connection.
pub proof fn the_target_asked_for_is_opened(
    c: Course<OpenFlow, StopOutcome>,
    target: Target,
    i: int,
)
    requires
        opens(c, target),
        0 <= i < c.nexts.len(),
    ensures
        c.nexts[i] matches Next::Ask(Request::CreateProcess { command_line, create_flags, cwd })
            ==> (target matches Target::Launch(req) && command_line@ == command_line_text(
            req.program@,
            texts(req.args@),
        ) && create_flags == 0x0800_0002 && cwd == req.cwd && !command_line@.contains('\0') && (
        cwd matches Some(dir) ==> !dir@.contains('\0'))),
        c.nexts[i] matches Next::Ask(Request::AttachProcess(pid)) ==> target == Target::Pid(pid),
        c.nexts[i] matches Next::Ask(Request::AttachKernel(connection)) ==> (
        target matches Target::Kernel(asked) && connection@ == asked@ && !connection@.contains(
            '\0',
        )),
        c.nexts[i] matches Next::Ask(Request::Reload(argument)) ==> (
        c.answers[i] matches Answer::Name(Some(module)) && argument@ == "/f "@ + name_text(
            module@,
        )),
        c.nexts[i] matches Next::Ask(Request::Wait(ms)) ==> ms == (if target is Kernel {
            0xFFFF_FFFFu32
        } else {
            10_000u32
        }),
        c.nexts[i] matches Next::Ask(Request::AddEngineOptions(options)) ==> options == 0x20,
        c.nexts[i] matches Next::Ask(Request::RemoveEngineOptions(options)) ==> options == 0x20,
{
    opening_keeps_its_target(c, target, i);
    assert(c.flows[i].expects(c.answers[i]));
    assert(0x2u32 | 0x0800_0000u32 == 0x0800_0002u32) by (bit_vector);
}

/// Whether `told` is the outcome `brought`, except for the reason of a stop.
pub open spec fn same_but_for_reason(brought: StopOutcome, told: StopOutcome) -> bool {
    match (brought, told) {
        (StopOutcome::Stopped(info), StopOutcome::Stopped(other)) => other.thread_id
            == info.thread_id && other.hit_breakpoint_ids@ == info.hit_breakpoint_ids@,
        (StopOutcome::Exited { code }, StopOutcome::Exited { code: n }) => n == code,
        (StopOutcome::Terminated, StopOutcome::Terminated) => true,
        _ => false,
    }
}

/// A session that is reported as open was opened, its first break was waited for, and the request
/// for that break was taken back, each without an error; and what is reported is what the wait
/// brought, under the reason of an initial breakpoint for a launch.
pub proof fn open_sessions_were_opened(
    c: Course<OpenFlow, StopOutcome>,
    target: Target,
    outcome: StopOutcome,
)
    requires
        opens(c, target),
        c.brings(outcome),
    ensures
        exists|k: int|
            #![trigger c.answers[k]]
            {
                &&& 1 < k < c.answers.len() - 1
                &&& succeeded(c.answers, k - 1)
                &&& c.nexts[k - 2] matches Next::Ask(opened) && (opened is CreateProcess || opened
                    is AttachProcess || opened is AttachKernel)
                &&& c.nexts[k - 1] is Ask
                &&& c.answers[k] matches Answer::Waited(Ok(WaitResult::Event(brought)))
                &&& same_but_for_reason(brought, outcome)
                &&& target !is Launch ==> outcome == brought
                &&& c.asks(k, Request::RemoveEngineOptions(0x20))
                &&& succeeded(c.answers, k + 1)
            },
        target is Launch ==> (outcome matches StopOutcome::Stopped(info) ==> info.reason@
            == "Initial breakpoint"@),
{
    let n = c.answers.len() as int;
    opening_keeps_its_target(c, target, n - 1);
    assert(c.flows[n - 1].expects(c.answers[n - 1]));
    let last = c.flows[n - 1].phase;
    let k = match last {
        OpenPhase::Module(_) => n - 3,
        OpenPhase::Reload(_) => n - 4,
        _ => n - 2,
    };
    if n >= 2 {
        assert(c.flows[n - 2].expects(c.answers[n - 2]));
        opening_keeps_its_target(c, target, n - 2);
    }
    if n >= 3 {
        assert(c.flows[n - 3].expects(c.answers[n - 3]));
        opening_keeps_its_target(c, target, n - 3);
    }
    if n >= 4 {
        assert(c.flows[n - 4].expects(c.answers[n - 4]));
    }
    assert(c.flows[k].phase is Wait);
    assert(c.flows[k].expects(c.answers[k]));
    assert(k > 0);
    assert(c.flows[k - 1].expects(c.answers[k - 1]));
    assert(c.flows[k - 1].phase is Open);
    assert(k > 1);
    assert(c.flows[k - 2].expects(c.answers[k - 2]));
    opening_keeps_its_target(c, target, k - 2);
}

/// An opening that fails says which call failed, and why: the one that opens its own kind of
/// target, the request for the first break, or the taking back of it; and one that waited in vain
/// says so of its own kind of target.
pub proof fn failed_openings_say_what_failed(
    flow: OpenFlow,
    answer: Answer,
    after: OpenFlow,
    next: Next<StopOutcome>,
)
    requires
        flow.expects(answer),
        flow.steps(answer, after, next),
    ensures
        flow.phase is Open ==> (answer matches Answer::Done(Err(e)) ==> match flow.target {
            Target::Launch(_) => next.fails_op("CreateProcess2"@, e),
            Target::Pid(_) => next.fails_op("AttachProcess"@, e),
            Target::Kernel(_) => next.fails_op("AttachKernel"@, e),
        }),
        flow.phase is Options ==> (answer matches Answer::Done(Err(e)) ==> next.fails_op(
            "AddEngineOptions(INITIAL_BREAK)"@,
            e,
        )),
        flow.phase matches OpenPhase::Clear(wait) ==> (answer matches Answer::Done(done) ==> match (
            wait,
            done,
        ) {
            (Err(e), _) => next == Next::<StopOutcome>::End(Err(e)),
            (Ok(_), Err(e)) => next.fails_op("RemoveEngineOptions(INITIAL_BREAK)"@, e),
            (Ok(WaitResult::TimedOut), Ok(_)) => match flow.target {
                Target::Launch(_) => next.fails_engine(
                    "launch: timed out waiting for the initial breakpoint"@,
                ),
                Target::Pid(_) => next.fails_engine(
                    "attach: timed out waiting for the initial break"@,
                ),
                Target::Kernel(_) => next.fails_engine(
                    "attach_kernel: timed out waiting for the initial break"@,
                ),
            },
            _ => true,
        }),
{
}


// ---- crash dumps ----

/// Whether this is the course of the opening of a crash dump.
pub open spec fn opens_dump(c: Course<DumpFlow, DumpOutcome>) -> bool {
    &&& c.shaped()
    &&& c.flows[0].phase is Open
    &&& forall|i: int|
        0 <= i < c.answers.len() ==> (#[trigger] c.flows[i]).expects(c.answers[i])
            && c.flows[i].steps(c.answers[i], c.flows[i + 1], c.nexts[i])
}

/// An open crash dump is reported with the stop that it shows, and with the source position that
/// the engine found for the crash, as file and line.
pub proof fn dumps_show_what_they_hold(c: Course<DumpFlow, DumpOutcome>, outcome: DumpOutcome)
    requires
        opens_dump(c),
        c.brings(outcome),
    ensures
        c.answers.len() == 3,
        succeeded(c.answers, 0),
        c.asks(0, Request::Wait(10_000)),
        c.asks(1, Request::SourceLocation),
        c.answers[1] matches Answer::Waited(Ok(WaitResult::Event(brought))) && match brought {
            StopOutcome::Stopped(info) => outcome.stop == Some(info),
            _ => outcome.stop is None,
        },
        c.answers[2] matches Answer::Location(location) && match location {
            Ok(Some(raw)) => name_text(raw.file@).len() > 0 ==> (
            outcome.crash_location matches Some(text) && text@ == name_text(raw.file@) + ":"@
                + decimal(raw.line as int)),
            _ => outcome.crash_location is None,
        },
{
    let n = c.answers.len();
    assert(c.flows[0].expects(c.answers[0]));
    if n > 1 {
        assert(c.flows[1].expects(c.answers[1]));
    }
    if n > 2 {
        assert(c.flows[2].expects(c.answers[2]));
    }
    if n > 3 {
        assert(c.flows[3].expects(c.answers[3]));
    }
}

// ---- ending a session ----

/// A crash dump is let go of (0), a live target is killed (1) where that was asked for, and is
/// left running (2) otherwise.
pub proof fn sessions_end_as_asked(dump: bool, terminate: bool)
    ensures
        dump ==> end_flags(dump, terminate) == 0,
        !dump && terminate ==> end_flags(dump, terminate) == 1,
        !dump && !terminate ==> end_flags(dump, terminate) == 2,
{
}

// ---- creating the engine ----

/// Whether this is the course of the creation of the engine.
pub open spec fn creates_engine(c: Course<CreateFlow, ()>) -> bool {
    &&& c.shaped()
    &&& c.flows[0].phase is Client
    &&& forall|i: int|
        0 <= i < c.answers.len() ==> (#[trigger] c.flows[i]).expects(c.answers[i])
            && c.flows[i].steps(c.answers[i], c.flows[i + 1], c.nexts[i])
}

/// An engine that is reported as created has all of its interfaces, its symbol path, its symbol
/// options as they were with the search for images (0x20000) switched off, and its callbacks; the
/// event callbacks last.
pub proof fn created_engines_are_complete(c: Course<CreateFlow, ()>)
    requires
        creates_engine(c),
        c.brings(()),
    ensures
        c.answers.len() == 11,
        c.asks(0, Request::QueryInterface(Interface::Control)),
        c.asks(1, Request::QueryInterface(Interface::Symbols)),
        c.asks(2, Request::QueryInterface(Interface::DataSpaces)),
        c.asks(3, Request::QueryInterface(Interface::Registers)),
        c.asks(4, Request::QueryInterface(Interface::SystemObjects)),
        c.nexts[5] matches Next::Ask(Request::SetSymbolPath(path)) && path@ == "srv*"@,
        c.asks(6, Request::GetSymbolOptions),
        c.answers[7] matches Answer::Number(Ok(options)) && c.asks(
            7,
            Request::SetSymbolOptions(options | 0x2_0000),
        ),
        c.asks(8, Request::SetOutputCallbacks),
        c.asks(9, Request::SetEventCallbacks),
        succeeded(c.answers, 10),
{
    let n = c.answers.len();
    assert(c.flows[0].expects(c.answers[0]));
    if n > 1 {
        assert(c.flows[1].expects(c.answers[1]));
    }
    if n > 2 {
        assert(c.flows[2].expects(c.answers[2]));
    }
    if n > 3 {
        assert(c.flows[3].expects(c.answers[3]));
    }
    if n > 4 {
        assert(c.flows[4].expects(c.answers[4]));
    }
    if n > 5 {
        assert(c.flows[5].expects(c.answers[5]));
    }
    if n > 6 {
        assert(c.flows[6].expects(c.answers[6]));
    }
    if n > 7 {
        assert(c.flows[7].expects(c.answers[7]));
    }
    if n > 8 {
        assert(c.flows[8].expects(c.answers[8]));
    }
    if n > 9 {
        assert(c.flows[9].expects(c.answers[9]));
    }
    if n > 10 {
        assert(c.flows[10].expects(c.answers[10]));
    }
    if n > 11 {
        assert(c.flows[11].expects(c.answers[11]));
    }
}

/// A failure names the call that failed and carries the engine's own error; a refusal carries its
/// own message.
pub proof fn failures_name_their_call<T>(
    next: Next<T>,
    context: Seq<char>,
    e: ComError,
    message: Seq<char>,
)
    ensures
        next.fails_op(context, e) ==> (next matches Next::End(Err(EngineError::Com {
            context: c,
            source,
        })) && c@ == context && source == e),
        next.fails_engine(message) ==> (next matches Next::End(Err(EngineError::Engine(m))) && m@
            == message),
{
}

/// An exit that an interrupted run reports of its own has the code that the exit event recorded.
pub proof fn interrupted_runs_report_the_recorded_code(
    flow: GoFlow,
    stop: StopFacts,
    answer: Answer,
    after: GoFlow,
    next: Next<Option<StopOutcome>>,
    code: Option<i64>,
)
    requires
        flow.expects(answer),
        flow.steps(stop, answer, after, next),
        next == Next::<Option<StopOutcome>>::End(Ok(Some(StopOutcome::Exited { code }))),
    ensures
        answer matches Answer::Waited(result) ==> result == Ok::<WaitResult, EngineError>(
            WaitResult::Event(StopOutcome::Exited { code }),
        ),
        answer !is Waited ==> (stop.exit_code matches Some(c) ==> (code matches Some(n) && n as int
            == c as int)) && (stop.exit_code is None ==> code is None),
{
}

} // verus!
