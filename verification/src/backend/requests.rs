//! What a request for breakpoints, for a launch or for a part of a stack comes to: which commands
//! reach the engine, with which arguments, and what becomes of the replies.
use super::call::{
    BackendNext, brings, dump_in, frames_in, instructions_in, memory_in, modules_in, stop_in,
    text_in, threads_in, value_in, variables_in, went_in,
};
use super::launch::{
    LaunchFlow, LaunchPhase, Pending, are_pending, are_pending_functions, are_pending_lines,
    are_pending_sources, launch_outcome,
};
use super::laws::is_due;
use super::reconcile::{
    Progress, ReconcileFlow, Wanted, is_stale, is_wanted_function, is_wanted_line, reused, wants,
    with_result,
};
use super::table::{BpKey, BpScope, BreakpointTable};
use super::{attach_outcome, fetched_frames, frame_reference, variables_command, window};
use crate::engine::BpLoc;
use crate::engine_ops::{EngineCmd, EngineReply};
use crate::error::{BackendError, EngineError};
use crate::types::{
    AttachOutcome, BreakpointResult, Frame, FunctionBp, LaunchOutcome, SourceBp, StopOutcome,
};
use vstd::prelude::*;
use vstd::string::*;

verus! {

broadcast use vstd::string::group_string_axioms;

// ---- places ----

/// Whether two locations are the same place: the same address, the same line of the same file, or
/// the same function name.
pub open spec fn is_same_place(a: BpLoc, b: BpLoc) -> bool {
    match (a, b) {
        (BpLoc::Address(x), BpLoc::Address(y)) => x == y,
        (
            BpLoc::FileLine { file: f, line: m },
            BpLoc::FileLine { file: g, line: n },
        ) => f@ == g@ && m == n,
        (BpLoc::Function(x), BpLoc::Function(y)) => x@ == y@,
        _ => false,
    }
}

/// Breakpoints are kept apart by their places, all of them: by file, line, name and address.
pub proof fn places_are_told_apart(a: BpLoc, b: BpLoc)
    ensures
        a.key() == b.key() <==> is_same_place(a, b),
{
}

/// A request for a file speaks of every line of that file and of nothing else; one for functions
/// speaks of every function and of nothing else.
pub proof fn requests_speak_of_their_own(scope: BpScope, loc: BpLoc)
    ensures
        scope.covers(loc.key()) <==> match (scope, loc) {
            (BpScope::File(file), BpLoc::FileLine { file: f, .. }) => f@ == file@,
            (BpScope::Functions, BpLoc::Function(_)) => true,
            _ => false,
        },
{
}

// ---- what is asked for ----

/// A breakpoint on a line of a file is asked for in that file, on that line, with its condition;
/// a line that no file can have is refused, and said to be refused.
pub proof fn lines_are_asked_for_as_given(file: Seq<char>, bp: SourceBp, wanted: Wanted)
    requires
        is_wanted_line(file, bp, wanted),
    ensures
        0 <= bp.line <= 0xFFFF_FFFF ==> (wanted matches Wanted::Place { loc, condition, line }
            && condition@ == bp.condition@ && line == bp.line && (
        loc matches BpLoc::FileLine { file: f, line: l } && f@ == file && l as int
            == bp.line as int)),
        bp.line < 0 || bp.line > 0xFFFF_FFFF ==> (wanted matches Wanted::Refused(r) && !r.verified
            && r.id == 0 && r.line == bp.line),
{
}

/// A function breakpoint is asked for under its name, with its condition; a name that begins with
/// `0x` is refused, and marked so.
pub proof fn functions_are_asked_for_as_given(bp: FunctionBp, wanted: Wanted)
    requires
        is_wanted_function(bp, wanted),
    ensures
        bp.name@.len() >= 2 && bp.name@[0] == '0' && bp.name@[1] == 'x' <==> wanted is Refused,
        wanted matches Wanted::Refused(r) ==> !r.verified && r.id == 0 && r.rejected,
        wanted matches Wanted::Place { loc, condition, .. } ==> condition@ == bp.condition@ && (
        loc matches BpLoc::Function(name) && name@ == bp.name@),
{
    reveal_strlit("0x");
    let name = bp.name@;
    if name.len() >= 2 && name[0] == '0' && name[1] == 'x' {
        assert("0x"@ =~= name.subrange(0, 2));
        assert("0x"@.is_prefix_of(name));
    }
    if "0x"@.is_prefix_of(name) {
        assert("0x"@ == name.subrange(0, 2));
        assert(name.subrange(0, 2)[0] == name[0] && name.subrange(0, 2)[1] == name[1]);
    }
}

// ---- what reaches the engine ----

proof fn reuse_only_adds(prior: Map<BpKey, BreakpointResult>, wanted: Seq<Wanted>, p: Progress)
    requires
        0 <= p.index,
        p.results.len() == p.index,
    ensures
        ({
            let q = reused(prior, wanted, p);
            &&& p.index <= q.index
            &&& q.results.len() == q.index
            &&& forall|i: int| 0 <= i < p.index ==> #[trigger] q.results[i] == p.results[i]
            &&& forall|key: BpKey|
                !prior.contains_key(key) ==> #[trigger] q.kept.contains_key(key)
                    == p.kept.contains_key(key) && q.kept[key] == p.kept[key]
            &&& p.index <= wanted.len() ==> q.index <= wanted.len()
        }),
    decreases wanted.len() - p.index,
{
    if p.index < wanted.len() {
        match wanted[p.index] {
            Wanted::Refused(r) => {
                let q = Progress { index: p.index + 1, results: p.results.push(r), kept: p.kept };
                reuse_only_adds(prior, wanted, q);
                assert forall|i: int| 0 <= i < p.index implies #[trigger] reused(
                    prior,
                    wanted,
                    p,
                ).results[i] == p.results[i] by {
                    assert(q.results[i] == p.results[i]);
                }
            },
            Wanted::Place { loc, .. } => {
                if prior.contains_key(loc.key()) {
                    let r = prior[loc.key()];
                    let q = Progress {
                        index: p.index + 1,
                        results: p.results.push(r),
                        kept: p.kept.insert(loc.key(), r),
                    };
                    reuse_only_adds(prior, wanted, q);
                    assert forall|i: int| 0 <= i < p.index implies #[trigger] reused(
                        prior,
                        wanted,
                        p,
                    ).results[i] == p.results[i] by {
                        assert(q.results[i] == p.results[i]);
                    }
                    assert forall|key: BpKey| !prior.contains_key(key) implies #[trigger] reused(
                        prior,
                        wanted,
                        p,
                    ).kept.contains_key(key) == p.kept.contains_key(key) && reused(
                        prior,
                        wanted,
                        p,
                    ).kept[key] == p.kept[key] by {
                        assert(q.kept.contains_key(key) == p.kept.contains_key(key));
                    }
                }
            },
        }
    }
}

proof fn placed_command_is_wanted(
    flow: ReconcileFlow,
    p: Progress,
    table: BreakpointTable,
    after: ReconcileFlow,
    table_after: BreakpointTable,
    next: BackendNext<Vec<BreakpointResult>>,
    loc: BpLoc,
    condition: String,
) -> (i: int)
    requires
        0 <= p.index <= flow.wanted@.len(),
        p.results.len() == p.index,
        flow.proceeds(p, table, after, table_after, next),
        next == BackendNext::<Vec<BreakpointResult>>::Call(
            (EngineCmd::SetBreakpoint { loc, condition }),
        ),
    ensures
        0 <= i < flow.wanted@.len(),
        flow.wanted@[i] matches Wanted::Place { loc: l, condition: c, .. } && l == loc && c
            == condition,
{
    reuse_only_adds(flow.prior@, flow.wanted@, p);
    reused(flow.prior@, flow.wanted@, p).index
}

/// How far a reconciliation has come when it begins.
pub open spec fn at_the_beginning() -> Progress {
    Progress { index: 0, results: Seq::empty(), kept: Map::empty() }
}

/// Whether a breakpoint that the engine is told to set is one of those that were asked for: on the
/// same line of the same file, with the same condition.
pub open spec fn is_one_of_the_lines(
    file: Seq<char>,
    bps: Seq<SourceBp>,
    loc: BpLoc,
    condition: String,
) -> bool {
    exists|i: int|
        0 <= i < bps.len() && (#[trigger] bps[i]).condition@ == condition@ && (
        loc matches BpLoc::FileLine { file: f, line } && f@ == file && line as int
            == bps[i].line as int)
}

/// Whatever a request for a file tells the engine to set, at its beginning and at every further
/// step, is one of the lines that were asked for, in that file and with its condition.
pub proof fn only_the_lines_asked_for_are_set(
    flow: ReconcileFlow,
    file: Seq<char>,
    bps: Seq<SourceBp>,
    reply: Option<EngineReply>,
    table: BreakpointTable,
    after: ReconcileFlow,
    table_after: BreakpointTable,
    next: BackendNext<Vec<BreakpointResult>>,
    loc: BpLoc,
    condition: String,
)
    requires
        flow.well_formed(),
        flow.wanted@.len() == bps.len(),
        forall|i: int|
            0 <= i < bps.len() ==> is_wanted_line(file, bps[i], #[trigger] flow.wanted@[i]),
        flow.proceeds(at_the_beginning(), table, after, table_after, next) || flow.steps(
            reply,
            table,
            after,
            table_after,
            next,
        ),
        next == BackendNext::<Vec<BreakpointResult>>::Call(
            (EngineCmd::SetBreakpoint { loc, condition }),
        ),
    ensures
        is_one_of_the_lines(file, bps, loc, condition),
{
    let i = if flow.proceeds(at_the_beginning(), table, after, table_after, next) {
        placed_command_is_wanted(
            flow,
            at_the_beginning(),
            table,
            after,
            table_after,
            next,
            loc,
            condition,
        )
    } else {
        let answer = reply->0->Breakpoint_0;
        let r = choose|r: BreakpointResult|
            ReconcileFlow::is_result(flow.wanted@[flow.index as int], answer, r)
                && #[trigger] flow.proceeds(
                with_result(flow.wanted@, flow.progress(), r),
                table,
                after,
                table_after,
                next,
            );
        placed_command_is_wanted(
            flow,
            with_result(flow.wanted@, flow.progress(), r),
            table,
            after,
            table_after,
            next,
            loc,
            condition,
        )
    };
    assert(is_wanted_line(file, bps[i], flow.wanted@[i]));
    lines_are_asked_for_as_given(file, bps[i], flow.wanted@[i]);
    assert(bps[i].condition@ == condition@);
}

/// Whatever a request for functions tells the engine to set, at its beginning and at every further
/// step, is one of the functions that were asked for, with its condition.
pub proof fn only_the_functions_asked_for_are_set(
    flow: ReconcileFlow,
    bps: Seq<FunctionBp>,
    reply: Option<EngineReply>,
    table: BreakpointTable,
    after: ReconcileFlow,
    table_after: BreakpointTable,
    next: BackendNext<Vec<BreakpointResult>>,
    loc: BpLoc,
    condition: String,
)
    requires
        flow.well_formed(),
        flow.wanted@.len() == bps.len(),
        forall|i: int|
            0 <= i < bps.len() ==> is_wanted_function(bps[i], #[trigger] flow.wanted@[i]),
        flow.proceeds(at_the_beginning(), table, after, table_after, next) || flow.steps(
            reply,
            table,
            after,
            table_after,
            next,
        ),
        next == BackendNext::<Vec<BreakpointResult>>::Call(
            (EngineCmd::SetBreakpoint { loc, condition }),
        ),
    ensures
        exists|i: int|
            0 <= i < bps.len() && (#[trigger] bps[i]).condition@ == condition@ && (
            loc matches BpLoc::Function(name) && name@ == bps[i].name@),
{
    let i = if flow.proceeds(at_the_beginning(), table, after, table_after, next) {
        placed_command_is_wanted(
            flow,
            at_the_beginning(),
            table,
            after,
            table_after,
            next,
            loc,
            condition,
        )
    } else {
        let answer = reply->0->Breakpoint_0;
        let r = choose|r: BreakpointResult|
            ReconcileFlow::is_result(flow.wanted@[flow.index as int], answer, r)
                && #[trigger] flow.proceeds(
                with_result(flow.wanted@, flow.progress(), r),
                table,
                after,
                table_after,
                next,
            );
        placed_command_is_wanted(
            flow,
            with_result(flow.wanted@, flow.progress(), r),
            table,
            after,
            table_after,
            next,
            loc,
            condition,
        )
    };
    assert(is_wanted_function(bps[i], flow.wanted@[i]));
    functions_are_asked_for_as_given(bps[i], flow.wanted@[i]);
    assert(bps[i].condition@ == condition@);
}

/// What the engine says of a breakpoint that it was told to set is what is reported for it, at its
/// own place in the list; where it was set, it is kept track of under its own location.
pub proof fn the_engine_is_reported_as_it_replied(
    flow: ReconcileFlow,
    result: BreakpointResult,
    table: BreakpointTable,
    after: ReconcileFlow,
    table_after: BreakpointTable,
    next: BackendNext<Vec<BreakpointResult>>,
)
    requires
        flow.well_formed(),
        flow.phase is Setting,
        flow.wanted@[flow.index as int] matches Wanted::Place { loc, .. }
            && !flow.prior@.contains_key(loc.key()),
        flow.steps(
            Some(EngineReply::Breakpoint(Ok(result))),
            table,
            after,
            table_after,
            next,
        ),
    ensures
        next is Call ==> flow.index < after.results@.len() && after.results@[flow.index as int]
            == result,
        next matches BackendNext::End(Ok(list)) ==> list@.len() == flow.wanted@.len()
            && list@[flow.index as int] == result,
        result.verified ==> ({
            let key = (flow.wanted@[flow.index as int]->loc).key();
            &&& next is Call ==> after.kept@.contains_key(key) && after.kept@[key] == result
            &&& next is End ==> table_after@.contains_key(key) && table_after@[key] == result
        }),
{
    let r = choose|r: BreakpointResult|
        ReconcileFlow::is_result(
            flow.wanted@[flow.index as int],
            Ok::<BreakpointResult, EngineError>(result),
            r,
        ) && #[trigger] flow.proceeds(
            with_result(flow.wanted@, flow.progress(), r),
            table,
            after,
            table_after,
            next,
        );
    let p = with_result(flow.wanted@, flow.progress(), r);
    reuse_only_adds(flow.prior@, flow.wanted@, p);
    let q = reused(flow.prior@, flow.wanted@, p);
    assert(p.results[flow.index as int] == result);
    assert(q.results[flow.index as int] == p.results[flow.index as int]);
    let key = (flow.wanted@[flow.index as int]->loc).key();
    assert(q.kept.contains_key(key) == p.kept.contains_key(key));
}

// ---- launches ----

proof fn pending_lines_unfold(file: String, bps: Seq<SourceBp>, pending: Seq<Pending>, k: int)
    requires
        are_pending_lines(file, bps, pending),
        0 <= k < pending.len(),
    ensures
        is_one_of_the_lines(file@, bps, pending[k].loc, pending[k].condition),
    decreases bps.len(),
{
    if bps.len() > 0 {
        let rest = bps.drop_last();
        if 0 <= bps.last().line <= u32::MAX {
            if k < pending.len() - 1 {
                pending_lines_unfold(file, rest, pending.drop_last(), k);
                assert(pending.drop_last()[k] == pending[k]);
                let i = choose|i: int|
                    0 <= i < rest.len() && (#[trigger] rest[i]).condition@
                        == pending[k].condition@ && (
                    pending[k].loc matches BpLoc::FileLine { file: f, line } && f@ == file@
                        && line as int == rest[i].line as int);
                assert(bps[i] == rest[i]);
                assert(bps[i].condition@ == pending[k].condition@);
            } else {
                let i = bps.len() - 1;
                assert(bps[i].condition@ == pending[k].condition@);
            }
        } else {
            pending_lines_unfold(file, rest, pending, k);
            let i = choose|i: int|
                0 <= i < rest.len() && (#[trigger] rest[i]).condition@ == pending[k].condition@
                    && (pending[k].loc matches BpLoc::FileLine { file: f, line } && f@ == file@
                    && line as int == rest[i].line as int);
            assert(bps[i] == rest[i]);
            assert(bps[i].condition@ == pending[k].condition@);
        }
    }
}

/// What is set for the lines of a file when a program is launched is what was asked for: only
/// lines of the list, in that file, each with its condition; and where every line is one that a
/// file can have, all of them, in their order.
pub proof fn launches_set_the_lines_asked_for(
    file: String,
    bps: Seq<SourceBp>,
    pending: Seq<Pending>,
)
    requires
        are_pending_lines(file, bps, pending),
    ensures
        forall|k: int|
            0 <= k < pending.len() ==> is_one_of_the_lines(
                file@,
                bps,
                (#[trigger] pending[k]).loc,
                pending[k].condition,
            ),
        (forall|j: int| 0 <= j < bps.len() ==> 0 <= (#[trigger] bps[j]).line <= 0xFFFF_FFFF)
            ==> pending.len() == bps.len() && forall|j: int|
            0 <= j < bps.len() ==> {
                &&& pending[j].condition@ == (#[trigger] bps[j]).condition@
                &&& pending[j].loc matches BpLoc::FileLine { file: f, line } && f@ == file@
                    && line as int == bps[j].line as int
            },
    decreases bps.len(),
{
    assert forall|k: int| 0 <= k < pending.len() implies is_one_of_the_lines(
        file@,
        bps,
        (#[trigger] pending[k]).loc,
        pending[k].condition,
    ) by {
        pending_lines_unfold(file, bps, pending, k);
    }
    if (forall|j: int| 0 <= j < bps.len() ==> 0 <= (#[trigger] bps[j]).line <= 0xFFFF_FFFF)
        && bps.len() > 0 {
        let rest = bps.drop_last();
        assert forall|j: int| 0 <= j < rest.len() implies 0 <= (#[trigger] rest[j]).line
            <= 0xFFFF_FFFF by {
            assert(bps[j] == rest[j]);
        }
        assert(0 <= bps[bps.len() - 1].line <= 0xFFFF_FFFF);
        launches_set_the_lines_asked_for(file, rest, pending.drop_last());
        assert forall|j: int| 0 <= j < bps.len() implies {
            &&& pending[j].condition@ == (#[trigger] bps[j]).condition@
            &&& pending[j].loc matches BpLoc::FileLine { file: f, line } && f@ == file@ && line
                as int == bps[j].line as int
        } by {
            if j < rest.len() {
                assert(rest[j] == bps[j]);
                assert(pending.drop_last()[j] == pending[j]);
            }
        }
    }
}

/// What is set for functions when a program is launched is what was asked for: every function of
/// the list, in its order, under its name and with its condition.
pub proof fn launches_set_the_functions_asked_for(bps: Seq<FunctionBp>, pending: Seq<Pending>)
    requires
        are_pending_functions(bps, pending),
    ensures
        pending.len() == bps.len(),
        forall|j: int|
            0 <= j < bps.len() ==> {
                &&& pending[j].condition@ == (#[trigger] bps[j]).condition@
                &&& pending[j].loc matches BpLoc::Function(name) && name@ == bps[j].name@
            },
{
    assert forall|j: int| 0 <= j < bps.len() implies {
        &&& pending[j].condition@ == (#[trigger] bps[j]).condition@
        &&& pending[j].loc matches BpLoc::Function(name) && name@ == bps[j].name@
    } by {
        assert(pending[j].loc == BpLoc::Function(bps[j].name));
    }
}

/// A launch that stopped sets the breakpoints that wait, one after another and each once, and then
/// reports the stop that it had, whatever came of them; a launch that did not stop sets none.
pub proof fn launches_set_what_waits(
    flow: LaunchFlow,
    reply: Option<EngineReply>,
    table: BreakpointTable,
    after: LaunchFlow,
    table_after: BreakpointTable,
    next: BackendNext<LaunchOutcome>,
)
    requires
        flow.well_formed(),
        flow.expects(reply),
        flow.steps(reply, table, after, table_after, next),
    ensures
        next matches BackendNext::Call(cmd) ==> (after.phase matches LaunchPhase::Flushing {
            outcome,
            index,
        } && (cmd matches EngineCmd::SetBreakpoint { loc, condition } && loc
            == flow.pending@[index as int].loc && condition == flow.pending@[index as int].condition)
            && match flow.phase {
            LaunchPhase::Flushing { outcome: o, index: i } => index == i + 1 && outcome == o,
            _ => index == 0 && reply == Some(EngineReply::Stop(Ok(outcome))) && outcome is Stopped,
        }),
        next matches BackendNext::End(Ok(told)) ==> match flow.phase {
            LaunchPhase::Flushing { outcome, index } => index + 1 == flow.pending@.len() && match (
                outcome,
                told,
            ) {
                (StopOutcome::Stopped(a), LaunchOutcome::Stopped(b)) => a == b,
                (StopOutcome::Exited { code: a }, LaunchOutcome::Exited { code: b }) => a == b,
                (StopOutcome::Terminated, LaunchOutcome::Exited { code }) => code is None,
                _ => false,
            },
            _ => reply matches Some(EngineReply::Stop(Ok(outcome))) && match (outcome, told) {
                (StopOutcome::Stopped(a), LaunchOutcome::Stopped(b)) => a == b
                    && flow.pending@.len() == 0,
                (StopOutcome::Exited { code: a }, LaunchOutcome::Exited { code: b }) => a == b,
                (StopOutcome::Terminated, LaunchOutcome::Exited { code }) => code is None,
                _ => false,
            },
        },
        flow.phase matches LaunchPhase::Flushing { index, .. } ==> (reply matches Some(
            EngineReply::Breakpoint(Ok(result)),
        ) ==> result.verified ==> table_after@.contains_key(
            flow.pending@[index as int].loc.key(),
        ) && table_after@[flow.pending@[index as int].loc.key()] == result),
{
    assert(flow.pending@.len() == flow.pending.len());
}

// ---- outcomes ----

/// What a launch or an attach reports has the facts of the outcome: the same stop, or an exit with
/// the same code.
pub proof fn outcomes_keep_their_facts(outcome: StopOutcome)
    ensures
        outcome matches StopOutcome::Stopped(info) ==> launch_outcome(outcome)
            == LaunchOutcome::Stopped(info) && attach_outcome(outcome) == AttachOutcome::Stopped(
            info,
        ),
        outcome matches StopOutcome::Exited { code } ==> launch_outcome(outcome) == (
        LaunchOutcome::Exited { code }) && attach_outcome(outcome) == (AttachOutcome::Exited {
            code,
        }),
        outcome is Terminated ==> launch_outcome(outcome) == (LaunchOutcome::Exited { code: None })
            && attach_outcome(outcome) is Terminated,
{
}

/// What the engine replies is what a call brings: a value as it is, an error under its own message,
/// and a lost connection as such.
pub proof fn replies_are_handed_on<T>(
    value: T,
    e: EngineError,
    r: Result<T, BackendError>,
)
    ensures
        brings(Some(Ok::<T, EngineError>(value)), r) <==> r == Ok::<T, BackendError>(value),
        brings(Some(Err::<T, EngineError>(e)), r) ==> (r matches Err(BackendError::Dap { message })
            && message@ == e.shown()),
        brings(None::<Result<T, EngineError>>, r) <==> (r matches Err(BackendError::Closed)),
{
}

/// Each kind of reply is read as what it holds.
pub proof fn replies_are_read_as_they_are(reply: EngineReply)
    ensures
        reply matches EngineReply::Stop(answer) ==> stop_in(Some(reply)) == Some(answer),
        reply matches EngineReply::Went(answer) ==> went_in(Some(reply)) == Some(answer),
        reply matches EngineReply::Threads(answer) ==> threads_in(Some(reply)) == Some(answer),
        reply matches EngineReply::Frames(answer) ==> frames_in(Some(reply)) == Some(answer),
        reply matches EngineReply::Variables(answer) ==> variables_in(Some(reply)) == Some(answer),
        reply matches EngineReply::Value(answer) ==> value_in(Some(reply)) == Some(answer),
        reply matches EngineReply::Memory(answer) ==> memory_in(Some(reply)) == Some(answer),
        reply matches EngineReply::Text(answer) ==> text_in(Some(reply)) == Some(answer),
        reply matches EngineReply::Modules(answer) ==> modules_in(Some(reply)) == Some(answer),
        reply matches EngineReply::Instructions(answer) ==> instructions_in(Some(reply)) == Some(
            answer,
        ),
        reply matches EngineReply::Dump(answer) ==> dump_in(Some(reply)) == Some(answer),
{
}

// ---- parts of a stack ----

/// A window of a stack holds the frames from its start on, in their order, and enough of them are
/// fetched for it.
pub proof fn windows_hold_their_frames(frames: Seq<Frame>, start: i64, levels: i64)
    ensures
        start <= 0 ==> window(frames, start) == frames,
        0 < start <= frames.len() ==> window(frames, start).len() == frames.len() - start && forall|
            i: int,
        |
            0 <= i < frames.len() - start ==> #[trigger] window(frames, start)[i] == frames[start
                + i],
        start > frames.len() ==> window(frames, start).len() == 0,
        0 <= start && 0 < levels && start + levels <= i64::MAX ==> fetched_frames(start, levels)
            == start + levels,
        start < 0 && 0 < levels ==> fetched_frames(start, levels) == levels,
        levels <= 0 ==> fetched_frames(start, levels) == 1024,
{
}

// ---- removals ----

/// A breakpoint that a reconciliation tells the engine to remove is one that was there, under the
/// id that the engine gave it, at a place that is no longer asked for.
pub proof fn only_what_is_no_longer_asked_for_is_removed(flow: ReconcileFlow, id: i64)
    requires
        is_due(flow, (EngineCmd::RemoveBreakpoint { id })),
    ensures
        id > 0,
        exists|i: int|
            0 <= i < flow.prior.listed().len() && (#[trigger] flow.prior.listed()[i]).result.id == id
                && forall|j: int|
                0 <= j < flow.wanted@.len() ==> (#[trigger] flow.wanted@[j] matches Wanted::Place {
                    loc,
                    ..
                } ==> !is_same_place(loc, flow.prior.listed()[i].loc)),
{
    let i = choose|i: int|
        0 <= i < flow.prior.listed().len() && id == (#[trigger] flow.prior.listed()[i]).result.id
            && is_stale(flow.wanted@, flow.prior.listed()[i]);
    let bp = flow.prior.listed()[i];
    assert forall|j: int| 0 <= j < flow.wanted@.len() implies (
    #[trigger] flow.wanted@[j] matches Wanted::Place { loc, .. } ==> !is_same_place(
        loc,
        bp.loc,
    )) by {
        if let Wanted::Place { loc, .. } = flow.wanted@[j] {
            places_are_told_apart(loc, bp.loc);
            if is_same_place(loc, bp.loc) {
                assert(wants(flow.wanted@, bp.loc.key()));
            }
        }
    }
    assert(flow.prior.listed()[i].result.id == id);
}

/// What the engine refuses to set is reported as not set, at its own place in the list, with the
/// engine's own message and the line that was asked for; it is not kept track of.
pub proof fn refusals_are_reported_as_they_are(
    flow: ReconcileFlow,
    e: EngineError,
    table: BreakpointTable,
    after: ReconcileFlow,
    table_after: BreakpointTable,
    next: BackendNext<Vec<BreakpointResult>>,
)
    requires
        flow.well_formed(),
        flow.phase is Setting,
        flow.steps(
            Some(EngineReply::Breakpoint(Err(e))),
            table,
            after,
            table_after,
            next,
        ),
    ensures
        ({
            let told = match next {
                BackendNext::End(Ok(list)) => list@[flow.index as int],
                _ => after.results@[flow.index as int],
            };
            &&& !told.verified && told.id == 0 && !told.rejected
            &&& told.message@ == e.shown()
            &&& flow.wanted@[flow.index as int] matches Wanted::Place { line, .. } && told.line
                == line
        }),
{
    let r = choose|r: BreakpointResult|
        ReconcileFlow::is_result(
            flow.wanted@[flow.index as int],
            Err::<BreakpointResult, EngineError>(e),
            r,
        ) && #[trigger] flow.proceeds(
            with_result(flow.wanted@, flow.progress(), r),
            table,
            after,
            table_after,
            next,
        );
    let p = with_result(flow.wanted@, flow.progress(), r);
    reuse_only_adds(flow.prior@, flow.wanted@, p);
    let q = reused(flow.prior@, flow.wanted@, p);
    assert(p.results[flow.index as int] == r);
    assert(q.results[flow.index as int] == p.results[flow.index as int]);
}

// ---- launches with several files ----

/// Whether a breakpoint that waits is the one on line `j` of the list of file `i`.
pub open spec fn waits_for(
    files: Seq<(String, Vec<SourceBp>)>,
    i: int,
    j: int,
    pending: Pending,
) -> bool {
    &&& pending.condition@ == files[i].1@[j].condition@
    &&& pending.loc matches BpLoc::FileLine { file, line } && file@ == files[i].0@ && line as int
        == files[i].1@[j].line as int
}

proof fn pending_lines_are_complete(
    file: String,
    bps: Seq<SourceBp>,
    pending: Seq<Pending>,
    j: int,
) -> (k: int)
    requires
        are_pending_lines(file, bps, pending),
        0 <= j < bps.len(),
        0 <= bps[j].line <= 0xFFFF_FFFF,
    ensures
        0 <= k < pending.len(),
        pending[k].condition@ == bps[j].condition@,
        pending[k].loc matches BpLoc::FileLine { file: f, line } && f@ == file@ && line as int
            == bps[j].line as int,
    decreases bps.len(),
{
    let rest = bps.drop_last();
    if j == bps.len() - 1 {
        pending.len() - 1
    } else if 0 <= bps.last().line <= u32::MAX {
        assert(rest[j] == bps[j]);
        let k = pending_lines_are_complete(file, rest, pending.drop_last(), j);
        assert(pending.drop_last()[k] == pending[k]);
        k
    } else {
        assert(rest[j] == bps[j]);
        pending_lines_are_complete(file, rest, pending, j)
    }
}

/// Every breakpoint on a line that was asked for before a launch waits to be set, in its own file
/// and with its own condition, whatever other files were asked for; only lines that no file can
/// have are left out.
pub proof fn every_line_waits_to_be_set(
    files: Seq<(String, Vec<SourceBp>)>,
    pending: Seq<Pending>,
    i: int,
    j: int,
) -> (k: int)
    requires
        are_pending_sources(files, pending),
        0 <= i < files.len(),
        0 <= j < files[i].1@.len(),
        0 <= files[i].1@[j].line <= 0xFFFF_FFFF,
    ensures
        0 <= k < pending.len(),
        waits_for(files, i, j, pending[k]),
    decreases files.len(),
{
    let rest = files.drop_last();
    let n = choose|n: int|
        0 <= n <= pending.len() && are_pending_sources(rest, #[trigger] pending.take(n))
            && are_pending_lines(files.last().0, files.last().1@, pending.skip(n));
    if i == files.len() - 1 {
        let k = pending_lines_are_complete(files[i].0, files[i].1@, pending.skip(n), j);
        assert(pending.skip(n)[k] == pending[n + k]);
        n + k
    } else {
        assert(rest[i] == files[i]);
        let k = every_line_waits_to_be_set(rest, pending.take(n), i, j);
        assert(pending.take(n)[k] == pending[k]);
        k
    }
}

/// Everything that was asked for before a launch waits to be set: every line that a file can have,
/// and every function; and the lines come before the functions.
pub proof fn everything_asked_for_waits(
    files: Seq<(String, Vec<SourceBp>)>,
    functions: Seq<FunctionBp>,
    pending: Seq<Pending>,
)
    requires
        are_pending(files, functions, pending),
    ensures
        forall|i: int, j: int|
            #![trigger files[i].1@[j]]
            0 <= i < files.len() && 0 <= j < files[i].1@.len() && 0 <= files[i].1@[j].line
                <= 0xFFFF_FFFF ==> exists|k: int|
                0 <= k < pending.len() - functions.len() && #[trigger] waits_for(
                    files,
                    i,
                    j,
                    pending[k],
                ),
        functions.len() <= pending.len(),
        forall|j: int|
            0 <= j < functions.len() ==> {
                let last = pending[pending.len() - functions.len() + j];
                &&& last.condition@ == (#[trigger] functions[j]).condition@
                &&& last.loc matches BpLoc::Function(name) && name@ == functions[j].name@
            },
{
    let n = choose|n: int|
        0 <= n <= pending.len() && are_pending_sources(files, #[trigger] pending.take(n))
            && are_pending_functions(functions, pending.skip(n));
    assert(n == pending.len() - functions.len());
    assert forall|i: int, j: int|
        #![trigger files[i].1@[j]]
        0 <= i < files.len() && 0 <= j < files[i].1@.len() && 0 <= files[i].1@[j].line
            <= 0xFFFF_FFFF implies exists|k: int|
        0 <= k < pending.len() - functions.len() && #[trigger] waits_for(
            files,
            i,
            j,
            pending[k],
        ) by {
        let k = every_line_waits_to_be_set(files, pending.take(n), i, j);
        assert(pending.take(n)[k] == pending[k]);
        assert(waits_for(files, i, j, pending[k]));
    }
    launches_set_the_functions_asked_for(functions, pending.skip(n));
    assert forall|j: int| 0 <= j < functions.len() implies {
        let last = pending[pending.len() - functions.len() + j];
        &&& last.condition@ == (#[trigger] functions[j]).condition@
        &&& last.loc matches BpLoc::Function(name) && name@ == functions[j].name@
    } by {
        assert(pending.skip(n)[j] == pending[n + j]);
    }
}

/// The reference to the variables of a frame is one more than its number, so that frame zero has
/// one too and different frames have different ones; and a reference that no frame has leads
/// nowhere.
pub proof fn references_count_from_one(frame_id: i64, other: i64, reference: i64)
    requires
        0 <= frame_id < i64::MAX,
        0 <= other < i64::MAX,
    ensures
        frame_reference(frame_id) == frame_id + 1,
        frame_reference(frame_id) == frame_reference(other) ==> frame_id == other,
        1 <= reference <= 0x10_0000 ==> (variables_command(reference) matches Some(
            EngineCmd::Locals { frame_index },
        ) && frame_index == reference - 1),
        reference <= 0 || reference > 0x10_0000 ==> variables_command(reference) is None,
{
}

} // verus!
