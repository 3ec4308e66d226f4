//! Making the engine's breakpoints match a list that was asked for.
//!
//! A request names all the breakpoints of a file, or all function breakpoints. Those that are
//! already there keep their engine ids; new ones are set; those that are no longer asked for are
//! removed.
use super::call::BackendNext;
use super::table::{BpKey, BpScope, BreakpointTable, KnownBp, covered};
use crate::engine::BpLoc;
use crate::engine_ops::{EngineCmd, EngineReply};
use crate::error::{BackendError, EngineError, map_engine_err};
use crate::text::{decimal, render_i64, starts_with, text4};
use crate::types::{BreakpointResult, FunctionBp, SourceBp};
use vstd::prelude::*;
use vstd::string::*;

verus! {

broadcast use vstd::string::group_string_axioms;

// ---- what is asked for ----

/// One breakpoint that is asked for: one that cannot be, with what is said of it, or one to be
/// placed. `line` is what is reported where it cannot be placed.
pub enum Wanted {
    Refused(BreakpointResult),
    Place { loc: BpLoc, condition: String, line: i64 },
}

/// Whether `r` says of a breakpoint that it is not set, and why.
pub open spec fn is_unverified(r: BreakpointResult, line: i64, message: Seq<char>) -> bool {
    r.id == 0 && !r.verified && r.line == line && r.message@ == message
}

/// What is said of a line that no file can have.
pub open spec fn line_out_of_range(file: Seq<char>, line: int) -> Seq<char> {
    file + ":"@ + decimal(line) + ": line out of range"@
}

/// Whether `wanted` is the breakpoint `bp` in `file`.
pub open spec fn is_wanted_line(file: Seq<char>, bp: SourceBp, wanted: Wanted) -> bool {
    if 0 <= bp.line <= u32::MAX {
        &&& wanted matches Wanted::Place { loc, condition, line }
        &&& loc.key() == BpKey::Line { file, line: bp.line as u32 }
        &&& condition == bp.condition
        &&& line == bp.line
    } else {
        &&& wanted matches Wanted::Refused(r)
        &&& is_unverified(r, bp.line, line_out_of_range(file, bp.line as int))
        &&& !r.rejected
    }
}

/// The breakpoint `bp` in `file`, as it is asked for.
pub fn wanted_line(file: &str, bp: &SourceBp) -> (r: Wanted)
    ensures
        is_wanted_line(file@, *bp, r),
{
    if 0 <= bp.line && bp.line <= 0xFFFF_FFFF {
        Wanted::Place {
            loc: BpLoc::FileLine { file: file.to_owned(), line: bp.line as u32 },
            condition: bp.condition.clone(),
            line: bp.line,
        }
    } else {
        Wanted::Refused(
            BreakpointResult {
                id: 0,
                verified: false,
                line: bp.line,
                message: text4(file, ":", render_i64(bp.line).as_str(), ": line out of range"),
                rejected: false,
            },
        )
    }
}

/// What is said of a function breakpoint that names a bare address.
pub const ADDRESS_BP_GUIDANCE: &'static str =
    "address breakpoints are not supported: an address moves with ASLR from run to run; set the breakpoint on a function (module!function) or on file:line instead";

/// Whether a function name is a bare address: one that begins with `0x`.
pub open spec fn is_bare_address(name: Seq<char>) -> bool {
    "0x"@.is_prefix_of(name)
}

/// Whether `wanted` is the function breakpoint `bp`.
pub open spec fn is_wanted_function(bp: FunctionBp, wanted: Wanted) -> bool {
    if is_bare_address(bp.name@) {
        &&& wanted matches Wanted::Refused(r)
        &&& is_unverified(r, 0, ADDRESS_BP_GUIDANCE@)
        &&& r.rejected
    } else {
        &&& wanted matches Wanted::Place { loc, condition, line }
        &&& loc.key() == BpKey::Function(bp.name@)
        &&& condition == bp.condition
        &&& line == 0
    }
}

/// The function breakpoint `bp`, as it is asked for.
pub fn wanted_function(bp: &FunctionBp) -> (r: Wanted)
    ensures
        is_wanted_function(*bp, r),
{
    if starts_with(bp.name.as_str(), "0x") {
        Wanted::Refused(
            BreakpointResult {
                id: 0,
                verified: false,
                line: 0,
                message: ADDRESS_BP_GUIDANCE.to_owned(),
                rejected: true,
            },
        )
    } else {
        Wanted::Place {
            loc: BpLoc::Function(bp.name.clone()),
            condition: bp.condition.clone(),
            line: 0,
        }
    }
}

/// What becomes of one breakpoint of a batch: only a lost connection ends the batch; any other
/// failure is said of that breakpoint alone.
pub fn bp_result_or_continue(
    outcome: Result<BreakpointResult, BackendError>,
    unverified_line: i64,
) -> (r: Result<BreakpointResult, BackendError>)
    ensures
        match outcome {
            Ok(result) => r == Ok::<BreakpointResult, BackendError>(result),
            Err(BackendError::Closed) => r matches Err(BackendError::Closed),
            Err(e) => r matches Ok(result) && is_unverified(result, unverified_line, e.shown())
                && !result.rejected,
        },
{
    match outcome {
        Ok(result) => Ok(result),
        Err(BackendError::Closed) => Err(BackendError::Closed),
        Err(e) => Ok(
            BreakpointResult {
                id: 0,
                verified: false,
                line: unverified_line,
                message: e.to_string(),
                rejected: false,
            },
        ),
    }
}

// ---- the reconciliation as values ----

/// How far a batch has come: how many of its breakpoints have their result, the results, and
/// what is kept track of.
#[verifier::ext_equal]
pub struct Progress {
    pub index: int,
    pub results: Seq<BreakpointResult>,
    pub kept: Map<BpKey, BreakpointResult>,
}

/// Whether a list asks for the breakpoint at `key` to be placed.
pub open spec fn wants(wanted: Seq<Wanted>, key: BpKey) -> bool {
    exists|i: int|
        0 <= i < wanted.len() && (#[trigger] wanted[i] matches Wanted::Place { loc, .. }
            && loc.key() == key)
}

/// How far a batch comes without asking the engine: what cannot be placed is refused, and what is
/// already there is kept.
pub open spec fn reused(
    prior: Map<BpKey, BreakpointResult>,
    wanted: Seq<Wanted>,
    p: Progress,
) -> Progress
    decreases wanted.len() - p.index,
{
    if 0 <= p.index < wanted.len() {
        match wanted[p.index] {
            Wanted::Refused(r) => reused(
                prior,
                wanted,
                Progress { index: p.index + 1, results: p.results.push(r), kept: p.kept },
            ),
            Wanted::Place { loc, .. } => if prior.contains_key(loc.key()) {
                reused(
                    prior,
                    wanted,
                    Progress {
                        index: p.index + 1,
                        results: p.results.push(prior[loc.key()]),
                        kept: p.kept.insert(loc.key(), prior[loc.key()]),
                    },
                )
            } else {
                p
            },
        }
    } else {
        p
    }
}

/// How far a batch comes with a result from the engine: a breakpoint that was set is kept.
pub open spec fn with_result(wanted: Seq<Wanted>, p: Progress, r: BreakpointResult) -> Progress {
    Progress {
        index: p.index + 1,
        results: p.results.push(r),
        kept: match wanted[p.index] {
            Wanted::Place { loc, .. } if r.verified => p.kept.insert(loc.key(), r),
            _ => p.kept,
        },
    }
}

/// Whether an earlier breakpoint is no longer asked for, and has to be removed from the engine.
pub open spec fn is_stale(wanted: Seq<Wanted>, bp: KnownBp) -> bool {
    !wants(wanted, bp.loc.key()) && bp.result.id > 0
}

/// The first stale breakpoint from `from` on.
pub open spec fn next_stale(prior: Seq<KnownBp>, wanted: Seq<Wanted>, from: int) -> int
    decreases prior.len() - from,
{
    if 0 <= from < prior.len() && !is_stale(wanted, prior[from]) {
        next_stale(prior, wanted, from + 1)
    } else {
        from
    }
}

/// What is kept track of after a batch: the breakpoints that the request does not speak of, and
/// those that it left in place.
pub open spec fn committed(
    table: Map<BpKey, BreakpointResult>,
    scope: BpScope,
    kept: Map<BpKey, BreakpointResult>,
) -> Map<BpKey, BreakpointResult> {
    table.restrict(covered(scope, false)).union_prefer_right(kept)
}

// ---- the reconciliation as a flow ----

/// What a reconciliation is waiting for.
#[derive(Debug, Clone, Copy, PartialEq, Eq, Structural)]
pub enum ReconcilePhase {
    /// A breakpoint to be set: number `index` of those that are asked for.
    Setting,
    /// A breakpoint to be removed: number `index` of the earlier ones.
    Removing,
    Over,
}

/// The reconciliation of the engine's breakpoints with a list that is asked for.
pub struct ReconcileFlow {
    pub scope: BpScope,
    pub wanted: Vec<Wanted>,
    pub prior: BreakpointTable,
    pub kept: BreakpointTable,
    pub results: Vec<BreakpointResult>,
    pub index: usize,
    pub phase: ReconcilePhase,
}

impl ReconcileFlow {
    /// Whether the flow is in order.
    pub open spec fn well_formed(self) -> bool {
        &&& self.prior.well_formed()
        &&& self.kept.well_formed()
        &&& self.phase is Setting ==> self.index < self.wanted@.len()
            && self.wanted@[self.index as int] is Place && self.results@.len() == self.index
        &&& self.phase is Removing ==> self.index < self.prior.listed().len()
    }

    /// How far the batch has come.
    pub open spec fn progress(self) -> Progress {
        Progress {
            index: self.results@.len() as int,
            results: self.results@,
            kept: self.kept@,
        }
    }

    /// Whether `reply` answers the command that was sent; none when the engine thread is gone.
    pub open spec fn expects(self, reply: Option<EngineReply>) -> bool {
        match self.phase {
            ReconcilePhase::Setting => reply matches Some(r) ==> r is Breakpoint,
            ReconcilePhase::Removing => reply matches Some(r) ==> r is Done,
            ReconcilePhase::Over => false,
        }
    }

    /// Whether `next` sends the command to place a breakpoint that is asked for.
    pub open spec fn places(
        wanted: Wanted,
        next: BackendNext<Vec<BreakpointResult>>,
    ) -> bool {
        &&& wanted matches Wanted::Place { loc, condition, .. }
        &&& next matches BackendNext::Call(EngineCmd::SetBreakpoint { loc: l, condition: c })
        &&& l == loc
        &&& c == condition
    }

    /// Whether the request stays what it was.
    pub open spec fn same_request(self, after: ReconcileFlow) -> bool {
        after.scope == self.scope && after.wanted == self.wanted && after.prior == self.prior
    }

    /// How the batch goes on from `p`: with the next breakpoint that the engine has to set, and
    /// with the removals after the last one.
    pub open spec fn proceeds(
        self,
        p: Progress,
        table: BreakpointTable,
        after: ReconcileFlow,
        table_after: BreakpointTable,
        next: BackendNext<Vec<BreakpointResult>>,
    ) -> bool {
        let q = reused(self.prior@, self.wanted@, p);
        if q.index < self.wanted@.len() {
            &&& after.phase is Setting
            &&& after.index == q.index
            &&& after.progress() == q
            &&& Self::places(self.wanted@[q.index], next)
            &&& table_after@ == table@
        } else {
            self.cleans(0, q, table, after, table_after, next)
        }
    }

    /// How the removals go on from the earlier breakpoint number `from`. After the last one the
    /// batch is kept track of, and its results are given.
    pub open spec fn cleans(
        self,
        from: int,
        q: Progress,
        table: BreakpointTable,
        after: ReconcileFlow,
        table_after: BreakpointTable,
        next: BackendNext<Vec<BreakpointResult>>,
    ) -> bool {
        let i = next_stale(self.prior.listed(), self.wanted@, from);
        if i < self.prior.listed().len() {
            &&& after.phase is Removing
            &&& after.index == i
            &&& after.progress() == q
            &&& next == BackendNext::<Vec<BreakpointResult>>::Call(
                EngineCmd::RemoveBreakpoint { id: self.prior.listed()[i].result.id },
            )
            &&& table_after@ == table@
        } else {
            &&& after.phase is Over
            &&& next matches BackendNext::End(Ok(results)) && results@ == q.results
            &&& table_after@ == committed(table@, self.scope, q.kept)
        }
    }

    /// Whether `r` is the result of a breakpoint that the engine was asked to set.
    pub open spec fn is_result(
        wanted: Wanted,
        answer: Result<BreakpointResult, EngineError>,
        r: BreakpointResult,
    ) -> bool {
        match answer {
            Ok(result) => r == result,
            Err(e) => wanted matches Wanted::Place { line, .. } && is_unverified(r, line, e.shown())
                && !r.rejected,
        }
    }

    /// How a reconciliation goes on from one reply to the next command. When the engine thread is
    /// gone, a batch that was still setting is given up with nothing changed; one that was
    /// removing is kept track of first.
    pub open spec fn steps(
        self,
        reply: Option<EngineReply>,
        table: BreakpointTable,
        after: ReconcileFlow,
        table_after: BreakpointTable,
        next: BackendNext<Vec<BreakpointResult>>,
    ) -> bool {
        &&& self.same_request(after)
        &&& match (self.phase, reply) {
            (ReconcilePhase::Setting, None) => after.phase is Over && table_after@ == table@ && (
            next matches BackendNext::End(Err(BackendError::Closed))),
            (ReconcilePhase::Setting, Some(EngineReply::Breakpoint(answer))) => exists|
                r: BreakpointResult,
            |
                Self::is_result(self.wanted@[self.index as int], answer, r)
                    && #[trigger] self.proceeds(
                    with_result(self.wanted@, self.progress(), r),
                    table,
                    after,
                    table_after,
                    next,
                ),
            (ReconcilePhase::Removing, None) => after.phase is Over && table_after@ == committed(
                table@,
                self.scope,
                self.kept@,
            ) && (next matches BackendNext::End(Err(BackendError::Closed))),
            (ReconcilePhase::Removing, Some(EngineReply::Done(_))) => self.cleans(
                self.index + 1,
                self.progress(),
                table,
                after,
                table_after,
                next,
            ),
            _ => false,
        }
    }

    /// Begins to reconcile the breakpoints of `scope` with the list `wanted`.
    pub fn begin(scope: BpScope, wanted: Vec<Wanted>, table: &mut BreakpointTable) -> (r: (
        ReconcileFlow,
        BackendNext<Vec<BreakpointResult>>,
    ))
        requires
            old(table).well_formed(),
        ensures
            final(table).well_formed(),
            r.0.well_formed(),
            r.0.scope == scope,
            r.0.wanted == wanted,
            r.0.prior@ == old(table)@.restrict(covered(scope, true)),
            r.0.proceeds(
                Progress { index: 0, results: Seq::empty(), kept: Map::empty() },
                *old(table),
                r.0,
                *final(table),
                r.1,
            ),
    {
        let prior = table.within(&scope);
        let mut flow = ReconcileFlow {
            scope,
            wanted,
            prior,
            kept: BreakpointTable::new(),
            results: Vec::new(),
            index: 0,
            phase: ReconcilePhase::Over,
        };
        proof {
            assert(flow.progress() =~= Progress {
                index: 0,
                results: Seq::empty(),
                kept: Map::empty(),
            });
        }
        let next = flow.advance(table);
        (flow, next)
    }

    /// Goes on from a reply.
    pub fn resume(&mut self, table: &mut BreakpointTable, reply: Option<EngineReply>) -> (r: BackendNext<
        Vec<BreakpointResult>,
    >)
        requires
            old(self).well_formed(),
            old(self).expects(reply),
            old(table).well_formed(),
        ensures
            final(self).well_formed(),
            final(table).well_formed(),
            old(self).steps(reply, *old(table), *final(self), *final(table), r),
    {
        match (self.phase, reply) {
            (ReconcilePhase::Setting, None) => {
                self.phase = ReconcilePhase::Over;
                BackendNext::End(Err(BackendError::Closed))
            },
            (ReconcilePhase::Setting, Some(EngineReply::Breakpoint(answer))) => {
                let ghost before = *self;
                let outcome: Result<BreakpointResult, BackendError> = match answer {
                    Ok(result) => Ok(result),
                    Err(e) => Err(map_engine_err(e)),
                };
                let (loc, line) = match &self.wanted[self.index] {
                    Wanted::Place { loc, line, .. } => (loc.copy(), *line),
                    Wanted::Refused(_) => {
                        assert(false);
                        (BpLoc::Address(0), 0)
                    },
                };
                match bp_result_or_continue(outcome, line) {
                    Ok(result) => {
                        let ghost r = result;
                        if result.verified {
                            self.kept.insert(loc, result.clone());
                        }
                        self.results.push(result);
                        assert(ReconcileFlow::is_result(
                            before.wanted@[before.index as int],
                            answer,
                            r,
                        ));
                        assert(self.progress() =~= with_result(
                            before.wanted@,
                            before.progress(),
                            r,
                        ));
                        let next = self.advance(table);
                        assert(before.proceeds(
                            with_result(before.wanted@, before.progress(), r),
                            *old(table),
                            *self,
                            *table,
                            next,
                        ));
                        next
                    },
                    Err(e) => {
                        assert(false);
                        BackendNext::End(Err(e))
                    },
                }
            },
            (ReconcilePhase::Removing, None) => {
                self.phase = ReconcilePhase::Over;
                table.replace(&self.scope, &self.kept);
                BackendNext::End(Err(BackendError::Closed))
            },
            (ReconcilePhase::Removing, Some(_)) => {
                let n: usize = self.prior.len();
                assert(self.index < n);
                let from: usize = self.index + 1;
                self.clean(table, from)
            },
            _ => {
                assert(false);
                BackendNext::End(Err(BackendError::Closed))
            },
        }
    }

    fn advance(&mut self, table: &mut BreakpointTable) -> (r: BackendNext<Vec<BreakpointResult>>)
        requires
            old(self).prior.well_formed(),
            old(self).kept.well_formed(),
            old(self).results@.len() <= old(self).wanted@.len(),
            old(table).well_formed(),
        ensures
            final(self).well_formed(),
            final(table).well_formed(),
            old(self).same_request(*final(self)),
            old(self).proceeds(
                old(self).progress(),
                *old(table),
                *final(self),
                *final(table),
                r,
            ),
    {
        let ghost start = *self;
        let ghost goal = reused(self.prior@, self.wanted@, self.progress());
        let mut i: usize = self.results.len();
        while i < self.wanted.len()
            invariant
                self.prior.well_formed(),
                self.kept.well_formed(),
                i == self.results@.len(),
                i <= self.wanted@.len(),
                start.same_request(*self),
                goal == reused(self.prior@, self.wanted@, self.progress()),
                goal == reused(start.prior@, start.wanted@, start.progress()),
                start == *old(self),
                *table == *old(table),
                old(table).well_formed(),
            decreases self.wanted@.len() - i,
        {
            let ghost p = self.progress();
            let step: Option<BreakpointResult> = match &self.wanted[i] {
                Wanted::Refused(r) => Some(r.clone()),
                Wanted::Place { loc, condition, .. } => match self.prior.get(loc) {
                    Some(existing) => {
                        let again = existing.clone();
                        self.kept.insert(loc.copy(), again);
                        Some(existing)
                    },
                    None => {
                        let cmd = EngineCmd::SetBreakpoint {
                            loc: loc.copy(),
                            condition: condition.clone(),
                        };
                        self.index = i;
                        self.phase = ReconcilePhase::Setting;
                        assert(self.progress() =~= p);
                        return BackendNext::Call(cmd);
                    },
                },
            };
            match step {
                Some(r) => {
                    self.results.push(r);
                },
                None => {},
            }
            i = i + 1;
            proof {
                let next = match self.wanted@[i - 1] {
                    Wanted::Refused(r) => Progress {
                        index: p.index + 1,
                        results: p.results.push(r),
                        kept: p.kept,
                    },
                    Wanted::Place { loc, .. } => Progress {
                        index: p.index + 1,
                        results: p.results.push(self.prior@[loc.key()]),
                        kept: p.kept.insert(loc.key(), self.prior@[loc.key()]),
                    },
                };
                assert(self.progress() =~= next);
            }
        }
        self.clean(table, 0)
    }

    fn clean(&mut self, table: &mut BreakpointTable, from: usize) -> (r: BackendNext<
        Vec<BreakpointResult>,
    >)
        requires
            old(self).prior.well_formed(),
            old(self).kept.well_formed(),
            from <= old(self).prior.listed().len(),
            old(table).well_formed(),
        ensures
            final(self).well_formed(),
            final(table).well_formed(),
            old(self).same_request(*final(self)),
            old(self).cleans(
                from as int,
                old(self).progress(),
                *old(table),
                *final(self),
                *final(table),
                r,
            ),
    {
        let ghost start = *self;
        let ghost goal = next_stale(self.prior.listed(), self.wanted@, from as int);
        let mut i: usize = from;
        while i < self.prior.len()
            invariant
                *self == start,
                start == *old(self),
                start.kept.well_formed(),
                *table == *old(table),
                old(table).well_formed(),
                self.prior.well_formed(),
                i <= self.prior.listed().len(),
                goal == next_stale(self.prior.listed(), self.wanted@, i as int),
                goal == next_stale(self.prior.listed(), self.wanted@, from as int),
            decreases self.prior.listed().len() - i,
        {
            let id: i64 = self.prior.result(i).id;
            if id > 0 && !self.is_wanted(self.prior.loc(i)) {
                self.index = i;
                self.phase = ReconcilePhase::Removing;
                assert(self.progress() =~= start.progress());
                return BackendNext::Call(EngineCmd::RemoveBreakpoint { id });
            }
            i = i + 1;
        }
        self.phase = ReconcilePhase::Over;
        table.replace(&self.scope, &self.kept);
        let mut results: Vec<BreakpointResult> = Vec::new();
        std::mem::swap(&mut results, &mut self.results);
        BackendNext::End(Ok(results))
    }

    fn is_wanted(&self, loc: &BpLoc) -> (r: bool)
        ensures
            r == wants(self.wanted@, loc.key()),
    {
        let mut i: usize = 0;
        while i < self.wanted.len()
            invariant
                i <= self.wanted@.len(),
                forall|j: int|
                    0 <= j < i ==> (#[trigger] self.wanted@[j] matches Wanted::Place { loc: l, .. }
                        ==> l.key() != loc.key()),
            decreases self.wanted@.len() - i,
        {
            match &self.wanted[i] {
                Wanted::Place { loc: other, .. } => {
                    if other.same(loc) {
                        assert(self.wanted@[i as int] is Place);
                        return true;
                    }
                },
                Wanted::Refused(_) => {},
            }
            i = i + 1;
        }
        false
    }
}

} // verus!
