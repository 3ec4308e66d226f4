//! Launching a program, and setting the breakpoints that were asked for before it ran.
use super::call::{BackendNext, brings, stop_in, stop_result};
use super::table::BreakpointTable;
use crate::engine::{BpLoc, LaunchReq};
use crate::engine_ops::{EngineCmd, EngineReply};
use crate::error::BackendError;
use crate::types::{FunctionBp, LaunchOutcome, LaunchSpec, SourceBp, StopOutcome};
use vstd::prelude::*;
use vstd::string::*;

verus! {

broadcast use vstd::string::group_string_axioms;

/// A breakpoint that was asked for before the program ran.
pub struct Pending {
    pub loc: BpLoc,
    pub condition: String,
}

/// Whether `loc` and `condition` are those of the source breakpoint `bp` of `file`.
pub open spec fn is_pending_line(file: String, bp: SourceBp, pending: Pending) -> bool {
    pending.loc == (BpLoc::FileLine { file, line: bp.line as u32 }) && pending.condition
        == bp.condition
}

/// Whether `pending` are the breakpoints `bps` of `file`, without those on lines that no file can
/// have.
pub open spec fn are_pending_lines(file: String, bps: Seq<SourceBp>, pending: Seq<Pending>) -> bool
    decreases bps.len(),
{
    if bps.len() == 0 {
        pending.len() == 0
    } else if 0 <= bps.last().line <= u32::MAX {
        pending.len() > 0 && is_pending_line(file, bps.last(), pending.last())
            && are_pending_lines(file, bps.drop_last(), pending.drop_last())
    } else {
        are_pending_lines(file, bps.drop_last(), pending)
    }
}

/// Whether `pending` are the source breakpoints of all files, file by file.
pub open spec fn are_pending_sources(
    files: Seq<(String, Vec<SourceBp>)>,
    pending: Seq<Pending>,
) -> bool
    decreases files.len(),
{
    if files.len() == 0 {
        pending.len() == 0
    } else {
        exists|n: int|
            0 <= n <= pending.len() && are_pending_sources(
                files.drop_last(),
                #[trigger] pending.take(n),
            ) && are_pending_lines(files.last().0, files.last().1@, pending.skip(n))
    }
}

/// Whether `pending` are the function breakpoints `bps`.
pub open spec fn are_pending_functions(bps: Seq<FunctionBp>, pending: Seq<Pending>) -> bool {
    &&& pending.len() == bps.len()
    &&& forall|i: int|
        0 <= i < bps.len() ==> (#[trigger] pending[i]).loc == BpLoc::Function(bps[i].name)
            && pending[i].condition == bps[i].condition
}

/// Whether `pending` are all breakpoints that were asked for: first those on lines, then those on
/// functions.
pub open spec fn are_pending(
    files: Seq<(String, Vec<SourceBp>)>,
    functions: Seq<FunctionBp>,
    pending: Seq<Pending>,
) -> bool {
    exists|n: int|
        0 <= n <= pending.len() && are_pending_sources(files, #[trigger] pending.take(n))
            && are_pending_functions(functions, pending.skip(n))
}

/// All breakpoints that were asked for, in the order in which they are set.
pub fn pending_breakpoints(
    files: &Vec<(String, Vec<SourceBp>)>,
    functions: &Vec<FunctionBp>,
) -> (r: Vec<Pending>)
    ensures
        are_pending(files@, functions@, r@),
{
    let mut out: Vec<Pending> = Vec::new();
    let mut i: usize = 0;
    while i < files.len()
        invariant
            i <= files@.len(),
            are_pending_sources(files@.take(i as int), out@),
        decreases files@.len() - i,
    {
        let ghost before = out@;
        let bps: &Vec<SourceBp> = &files[i].1;
        let mut j: usize = 0;
        assert(out@.skip(before.len() as int) =~= Seq::<Pending>::empty());
        assert(out@.take(before.len() as int) =~= before);
        while j < bps.len()
            invariant
                i < files@.len(),
                j <= bps@.len(),
                bps == files@[i as int].1,
                before.len() <= out@.len(),
                out@.take(before.len() as int) == before,
                are_pending_lines(
                    files@[i as int].0,
                    bps@.take(j as int),
                    out@.skip(before.len() as int),
                ),
            decreases bps@.len() - j,
        {
            let ghost mid = out@;
            assert(bps@.take(j + 1).drop_last() =~= bps@.take(j as int));
            assert(bps@.take(j + 1).last() == bps@[j as int]);
            let line: i64 = bps[j].line;
            if 0 <= line && line <= 0xFFFF_FFFF {
                out.push(
                    Pending {
                        loc: BpLoc::FileLine { file: files[i].0.clone(), line: line as u32 },
                        condition: bps[j].condition.clone(),
                    },
                );
                assert(out@.skip(before.len() as int).drop_last() =~= mid.skip(
                    before.len() as int,
                ));
                assert(out@.take(before.len() as int) =~= mid.take(before.len() as int));
            }
            j = j + 1;
        }
        assert(bps@.take(j as int) =~= bps@);
        i = i + 1;
        assert(files@.take(i as int).drop_last() =~= files@.take(i - 1));
        assert(files@.take(i as int).last() == files@[i - 1]);
        assert(are_pending_sources(files@.take(i as int), out@));
    }
    assert(files@.take(i as int) =~= files@);
    let ghost sources = out@;
    let mut k: usize = 0;
    assert(out@.take(sources.len() as int) =~= sources);
    while k < functions.len()
        invariant
            k <= functions@.len(),
            sources.len() + k == out@.len(),
            out@.take(sources.len() as int) == sources,
            are_pending_functions(functions@.take(k as int), out@.skip(sources.len() as int)),
        decreases functions@.len() - k,
    {
        let ghost mid = out@;
        out.push(
            Pending {
                loc: BpLoc::Function(functions[k].name.clone()),
                condition: functions[k].condition.clone(),
            },
        );
        k = k + 1;
        assert(out@.take(sources.len() as int) =~= mid.take(sources.len() as int));
        assert forall|i: int| 0 <= i < k implies (#[trigger] out@.skip(
            sources.len() as int,
        )[i]).loc == BpLoc::Function(functions@.take(k as int)[i].name) && out@.skip(
            sources.len() as int,
        )[i].condition == functions@.take(k as int)[i].condition by {
            if i < k - 1 {
                assert(out@.skip(sources.len() as int)[i] == mid.skip(sources.len() as int)[i]);
            }
        }
    }
    assert(functions@.take(k as int) =~= functions@);
    out
}

/// What a launch is waiting for.
pub enum LaunchPhase {
    Launching,
    /// A breakpoint to be set: number `index` of those that were asked for. How the launch itself
    /// ended is kept.
    Flushing { outcome: StopOutcome, index: usize },
    Over,
}

/// The launch of a program. When it stops at its start, the breakpoints that were asked for are
/// set; one that cannot be set does not stop the launch.
pub struct LaunchFlow {
    pub pending: Vec<Pending>,
    pub phase: LaunchPhase,
}

/// What a launch reports: a target that is gone has exited.
pub open spec fn launch_outcome(outcome: StopOutcome) -> LaunchOutcome {
    match outcome {
        StopOutcome::Stopped(info) => LaunchOutcome::Stopped(info),
        StopOutcome::Exited { code } => LaunchOutcome::Exited { code },
        StopOutcome::Terminated => LaunchOutcome::Exited { code: None },
    }
}

impl LaunchFlow {
    /// Whether the flow is in order.
    pub open spec fn well_formed(self) -> bool {
        self.phase matches LaunchPhase::Flushing { index, .. } ==> index < self.pending@.len()
    }

    /// Whether `reply` answers the command that was sent; none when the engine thread is gone.
    pub open spec fn expects(self, reply: Option<EngineReply>) -> bool {
        match self.phase {
            LaunchPhase::Launching => reply matches Some(r) ==> r is Stop,
            LaunchPhase::Flushing { .. } => reply matches Some(r) ==> r is Breakpoint,
            LaunchPhase::Over => false,
        }
    }

    /// How the flush goes on with breakpoint number `index`, or ends after the last one.
    pub open spec fn flushes(
        self,
        outcome: StopOutcome,
        index: int,
        after: LaunchFlow,
        next: BackendNext<LaunchOutcome>,
    ) -> bool {
        if index < self.pending@.len() {
            &&& after.phase == LaunchPhase::Flushing { outcome, index: index as usize }
            &&& next == BackendNext::<LaunchOutcome>::Call(
                EngineCmd::SetBreakpoint {
                    loc: self.pending@[index].loc,
                    condition: self.pending@[index].condition,
                },
            )
        } else {
            &&& after.phase is Over
            &&& next == BackendNext::<LaunchOutcome>::End(Ok(launch_outcome(outcome)))
        }
    }

    /// How a launch goes on from one reply to the next command.
    pub open spec fn steps(
        self,
        reply: Option<EngineReply>,
        table: BreakpointTable,
        after: LaunchFlow,
        table_after: BreakpointTable,
        next: BackendNext<LaunchOutcome>,
    ) -> bool {
        &&& after.pending == self.pending
        &&& match self.phase {
            LaunchPhase::Launching => {
                &&& table_after@ == table@
                &&& match stop_in(reply) {
                    Some(Ok(outcome)) => if outcome is Stopped {
                        self.flushes(outcome, 0, after, next)
                    } else {
                        after.phase is Over && next == BackendNext::<LaunchOutcome>::End(
                            Ok(launch_outcome(outcome)),
                        )
                    },
                    failed => after.phase is Over && (next matches BackendNext::End(Err(e))
                        && brings(failed, Err(e))),
                }
            },
            LaunchPhase::Flushing { outcome, index } => {
                &&& self.flushes(outcome, index + 1, after, next)
                &&& table_after@ == match reply {
                    Some(EngineReply::Breakpoint(Ok(result))) if result.verified => table@.insert(
                        self.pending@[index as int].loc.key(),
                        result,
                    ),
                    _ => table@,
                }
            },
            LaunchPhase::Over => false,
        }
    }

    /// Begins to launch a program. Its environment is not handed on.
    pub fn begin(spec: LaunchSpec) -> (r: (LaunchFlow, EngineCmd))
        ensures
            r.0.well_formed(),
            r.0.phase is Launching,
            are_pending(spec.source_breakpoints@, spec.function_breakpoints@, r.0.pending@),
            r.1 == (EngineCmd::Launch {
                req: LaunchReq { program: spec.program, args: spec.args, cwd: spec.cwd },
            }),
    {
        let pending: Vec<Pending> = pending_breakpoints(
            &spec.source_breakpoints,
            &spec.function_breakpoints,
        );
        (
            LaunchFlow { pending, phase: LaunchPhase::Launching },
            EngineCmd::Launch {
                req: LaunchReq { program: spec.program, args: spec.args, cwd: spec.cwd },
            },
        )
    }

    /// Goes on from a reply. A breakpoint that was set is kept track of.
    pub fn resume(&mut self, table: &mut BreakpointTable, reply: Option<EngineReply>) -> (r: BackendNext<
        LaunchOutcome,
    >)
        requires
            old(self).well_formed(),
            old(self).expects(reply),
            old(table).well_formed(),
        ensures
            final(self).well_formed(),
            final(table).well_formed(),
            old(self).steps(reply, *old(table), *final(self), *final(table), r),
    {
        let mut phase = LaunchPhase::Over;
        std::mem::swap(&mut phase, &mut self.phase);
        match phase {
            LaunchPhase::Launching => match stop_result(reply) {
                Err(e) => BackendNext::End(Err(e)),
                Ok(outcome) => {
                    let stopped: bool = match &outcome {
                        StopOutcome::Stopped(_) => true,
                        _ => false,
                    };
                    if stopped {
                        self.flush(outcome, 0)
                    } else {
                        BackendNext::End(Ok(map_launch(outcome)))
                    }
                },
            },
            LaunchPhase::Flushing { outcome, index } => {
                match reply {
                    Some(EngineReply::Breakpoint(Ok(result))) => {
                        if result.verified {
                            table.insert(self.pending[index].loc.copy(), result);
                        }
                    },
                    _ => {},
                }
                let n: usize = self.pending.len();
                assert(index < n);
                self.flush(outcome, index + 1)
            },
            LaunchPhase::Over => {
                assert(false);
                BackendNext::End(Err(BackendError::Closed))
            },
        }
    }

    fn flush(&mut self, outcome: StopOutcome, index: usize) -> (r: BackendNext<LaunchOutcome>)
        requires
            old(self).phase is Over,
        ensures
            final(self).well_formed(),
            final(self).pending == old(self).pending,
            old(self).flushes(outcome, index as int, *final(self), r),
    {
        if index < self.pending.len() {
            let cmd = EngineCmd::SetBreakpoint {
                loc: self.pending[index].loc.copy(),
                condition: self.pending[index].condition.clone(),
            };
            self.phase = LaunchPhase::Flushing { outcome, index };
            BackendNext::Call(cmd)
        } else {
            BackendNext::End(Ok(map_launch(outcome)))
        }
    }
}

fn map_launch(outcome: StopOutcome) -> (r: LaunchOutcome)
    ensures
        r == launch_outcome(outcome),
{
    match outcome {
        StopOutcome::Stopped(info) => LaunchOutcome::Stopped(info),
        StopOutcome::Exited { code } => LaunchOutcome::Exited { code },
        StopOutcome::Terminated => LaunchOutcome::Exited { code: None },
    }
}

} // verus!
