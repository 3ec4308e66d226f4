//! What holds of every reconciliation.
use super::call::BackendNext;
use super::reconcile::{
    Progress, ReconcileFlow, ReconcilePhase, Wanted, committed, is_bare_address, is_stale,
    is_wanted_function, is_wanted_line, next_stale, reused, wants, with_result,
};
use super::table::{BpKey, BpScope, BreakpointTable, KnownBp, covered};
use crate::engine::BpLoc;
use crate::engine_ops::{EngineCmd, EngineReply};
use crate::types::{BreakpointResult, FunctionBp, SourceBp};
use vstd::prelude::*;

verus! {

/// Whether a list asks for the breakpoint at `key` to be placed, among its first `n` entries.
pub open spec fn wants_early(wanted: Seq<Wanted>, n: int, key: BpKey) -> bool {
    exists|i: int|
        0 <= i < n && (#[trigger] wanted[i] matches Wanted::Place { loc, .. } && loc.key() == key)
}

/// Whether a result is the one that a list entry has to have, where no engine is needed for it:
/// a refused one its refusal, and one that is already there what is known of it.
pub open spec fn fits(
    prior: Map<BpKey, BreakpointResult>,
    wanted: Wanted,
    r: BreakpointResult,
) -> bool {
    match wanted {
        Wanted::Refused(refusal) => r == refusal,
        Wanted::Place { loc, .. } => prior.contains_key(loc.key()) ==> r == prior[loc.key()],
    }
}

/// Whether a batch is in order: a result for each entry so far, at its place; and kept track of
/// are breakpoints that were asked for, those that were there before as they were, and new ones
/// that are set.
pub open spec fn sound(
    prior: Map<BpKey, BreakpointResult>,
    wanted: Seq<Wanted>,
    p: Progress,
) -> bool {
    &&& 0 <= p.index <= wanted.len()
    &&& p.results.len() == p.index
    &&& forall|i: int| 0 <= i < p.index ==> fits(prior, #[trigger] wanted[i], p.results[i])
    &&& forall|key: BpKey| #[trigger]
        p.kept.contains_key(key) ==> {
            &&& wants_early(wanted, p.index, key)
            &&& prior.contains_key(key) ==> p.kept[key] == prior[key]
            &&& !prior.contains_key(key) ==> p.kept[key].verified
        }
    &&& forall|key: BpKey|
        prior.contains_key(key) && #[trigger] wants_early(wanted, p.index, key)
            ==> p.kept.contains_key(key)
}

proof fn one_more(
    prior: Map<BpKey, BreakpointResult>,
    wanted: Seq<Wanted>,
    p: Progress,
    q: Progress,
    r: BreakpointResult,
)
    requires
        sound(prior, wanted, p),
        p.index < wanted.len(),
        q.index == p.index + 1,
        q.results == p.results.push(r),
        fits(prior, wanted[p.index], r),
        match wanted[p.index] {
            Wanted::Refused(_) => q.kept == p.kept,
            Wanted::Place { loc, .. } => if prior.contains_key(loc.key()) || r.verified {
                q.kept == p.kept.insert(loc.key(), r)
            } else {
                q.kept == p.kept
            },
        },
    ensures
        sound(prior, wanted, q),
{
    assert forall|key: BpKey| wants_early(wanted, p.index, key) implies #[trigger] wants_early(
        wanted,
        q.index,
        key,
    ) by {
        let i = choose|i: int|
            0 <= i < p.index && (#[trigger] wanted[i] matches Wanted::Place { loc, .. }
                && loc.key() == key);
        assert(wanted[i] is Place);
    }
    assert forall|key: BpKey| #[trigger] q.kept.contains_key(key) implies {
        &&& wants_early(wanted, q.index, key)
        &&& prior.contains_key(key) ==> q.kept[key] == prior[key]
        &&& !prior.contains_key(key) ==> q.kept[key].verified
    } by {
        if p.kept.contains_key(key) {
            assert(wants_early(wanted, p.index, key));
        } else {
            assert(wanted[p.index] is Place);
        }
    }
    assert forall|key: BpKey|
        prior.contains_key(key) && #[trigger] wants_early(
            wanted,
            q.index,
            key,
        ) implies q.kept.contains_key(key) by {
        let i = choose|i: int|
            0 <= i < q.index && (#[trigger] wanted[i] matches Wanted::Place { loc, .. }
                && loc.key() == key);
        if i < p.index {
            assert(wants_early(wanted, p.index, key));
        }
    }
}

proof fn reuse_is_sound(prior: Map<BpKey, BreakpointResult>, wanted: Seq<Wanted>, p: Progress)
    requires
        sound(prior, wanted, p),
    ensures
        sound(prior, wanted, reused(prior, wanted, p)),
        ({
            let q = reused(prior, wanted, p);
            q.index < wanted.len() ==> (wanted[q.index] matches Wanted::Place { loc, .. }
                && !prior.contains_key(loc.key()))
        }),
    decreases wanted.len() - p.index,
{
    if p.index < wanted.len() {
        match wanted[p.index] {
            Wanted::Refused(r) => {
                let q = Progress { index: p.index + 1, results: p.results.push(r), kept: p.kept };
                one_more(prior, wanted, p, q, r);
                reuse_is_sound(prior, wanted, q);
            },
            Wanted::Place { loc, .. } => {
                if prior.contains_key(loc.key()) {
                    let r = prior[loc.key()];
                    let q = Progress {
                        index: p.index + 1,
                        results: p.results.push(r),
                        kept: p.kept.insert(loc.key(), r),
                    };
                    one_more(prior, wanted, p, q, r);
                    reuse_is_sound(prior, wanted, q);
                }
            },
        }
    }
}

impl ReconcileFlow {
    /// Whether the reconciliation is in order, at whatever point it is.
    pub open spec fn in_order(self) -> bool {
        &&& self.well_formed()
        &&& self.phase !is Over ==> sound(self.prior@, self.wanted@, self.progress())
        &&& self.phase is Setting ==> (self.wanted@[self.index as int] matches Wanted::Place {
            loc,
            ..
        } && !self.prior@.contains_key(loc.key()))
        &&& self.phase is Removing ==> self.results@.len() == self.wanted@.len()
    }

    /// What the end of a reconciliation has to be: a result for each entry, at its place, those
    /// that need no engine as they have to be; and kept track of, of the breakpoints that the
    /// request speaks of, are only ones that it asks for, all of those that were there before,
    /// with what was known of them.
    pub open spec fn concludes(
        self,
        results: Seq<BreakpointResult>,
        table: Map<BpKey, BreakpointResult>,
        table_after: Map<BpKey, BreakpointResult>,
    ) -> bool {
        &&& results.len() == self.wanted@.len()
        &&& forall|i: int|
            0 <= i < results.len() ==> fits(self.prior@, self.wanted@[i], #[trigger] results[i])
        &&& forall|key: BpKey|
            self.scope.covers(key) && #[trigger] table_after.contains_key(key) ==> wants(
                self.wanted@,
                key,
            )
        &&& forall|key: BpKey|
            #![trigger self.prior@.contains_key(key)]
            self.prior@.contains_key(key) && wants(self.wanted@, key) ==> table_after.contains_key(
                key,
            ) && table_after[key] == self.prior@[key]
        &&& forall|key: BpKey|
            #![trigger table_after.contains_key(key)]
            !self.scope.covers(key) && !wants(self.wanted@, key) ==> table_after.contains_key(key)
                == table.contains_key(key) && (table.contains_key(key) ==> table_after[key]
                == table[key])
    }
}

proof fn conclusion(
    flow: ReconcileFlow,
    q: Progress,
    table: Map<BpKey, BreakpointResult>,
)
    requires
        sound(flow.prior@, flow.wanted@, q),
        q.index == flow.wanted@.len(),
    ensures
        flow.concludes(q.results, table, committed(table, flow.scope, q.kept)),
{
    let after = committed(table, flow.scope, q.kept);
    assert forall|key: BpKey|
        flow.scope.covers(key) && #[trigger] after.contains_key(key) implies wants(
        flow.wanted@,
        key,
    ) by {
        assert(q.kept.contains_key(key));
        let i = choose|i: int|
            0 <= i < q.index && (#[trigger] flow.wanted@[i] matches Wanted::Place { loc, .. }
                && loc.key() == key);
        assert(flow.wanted@[i] is Place);
    }
    assert forall|key: BpKey|
        #![trigger flow.prior@.contains_key(key)]
        flow.prior@.contains_key(key) && wants(flow.wanted@, key) implies after.contains_key(key)
        && after[key] == flow.prior@[key] by {
        let i = choose|i: int|
            0 <= i < flow.wanted@.len() && (#[trigger] flow.wanted@[i] matches Wanted::Place {
                loc,
                ..
            } && loc.key() == key);
        assert(flow.wanted@[i] is Place);
        assert(wants_early(flow.wanted@, q.index, key));
        assert(q.kept.contains_key(key));
    }
    assert forall|key: BpKey|
        #![trigger after.contains_key(key)]
        !flow.scope.covers(key) && !wants(flow.wanted@, key) implies after.contains_key(key)
        == table.contains_key(key) && (table.contains_key(key) ==> after[key] == table[key]) by {
        if q.kept.contains_key(key) {
            let i = choose|i: int|
                0 <= i < q.index && (#[trigger] flow.wanted@[i] matches Wanted::Place { loc, .. }
                    && loc.key() == key);
            assert(flow.wanted@[i] is Place);
        }
    }
    assert forall|i: int| 0 <= i < q.results.len() implies fits(
        flow.prior@,
        flow.wanted@[i],
        #[trigger] q.results[i],
    ) by {
        assert(fits(flow.prior@, flow.wanted@[i], q.results[i]));
    }
}

/// What a command of a reconciliation is: it sets a breakpoint that is asked for and is not there
/// yet, or removes one that is there and no longer asked for.
pub open spec fn is_due(flow: ReconcileFlow, cmd: EngineCmd) -> bool {
    match cmd {
        EngineCmd::SetBreakpoint { loc, .. } => wants(flow.wanted@, loc.key())
            && !flow.prior@.contains_key(loc.key()),
        EngineCmd::RemoveBreakpoint { id } => exists|i: int|
            0 <= i < flow.prior.listed().len() && id == (#[trigger] flow.prior.listed()[i]).result.id
                && is_stale(flow.wanted@, flow.prior.listed()[i]),
        _ => false,
    }
}

proof fn next_stale_is_first(prior: Seq<KnownBp>, wanted: Seq<Wanted>, from: int)
    requires
        0 <= from <= prior.len(),
    ensures
        from <= next_stale(prior, wanted, from) <= prior.len(),
        next_stale(prior, wanted, from) < prior.len() ==> is_stale(
            wanted,
            prior[next_stale(prior, wanted, from)],
        ),
        forall|j: int|
            from <= j < next_stale(prior, wanted, from) ==> !is_stale(wanted, #[trigger] prior[j]),
    decreases prior.len() - from,
{
    if from < prior.len() && !is_stale(wanted, prior[from]) {
        next_stale_is_first(prior, wanted, from + 1);
    }
}

proof fn cleaning_is_sound(
    flow: ReconcileFlow,
    from: int,
    q: Progress,
    table: BreakpointTable,
    after: ReconcileFlow,
    table_after: BreakpointTable,
    next: BackendNext<Vec<BreakpointResult>>,
)
    requires
        flow.same_request(after),
        after.well_formed(),
        sound(flow.prior@, flow.wanted@, q),
        q.index == flow.wanted@.len(),
        0 <= from <= flow.prior.listed().len(),
        flow.cleans(from, q, table, after, table_after, next),
    ensures
        after.in_order(),
        next matches BackendNext::Call(cmd) ==> is_due(flow, cmd),
        next matches BackendNext::End(Ok(results)) ==> flow.concludes(
            results@,
            table@,
            table_after@,
        ),
{
    next_stale_is_first(flow.prior.listed(), flow.wanted@, from);
    conclusion(flow, q, table@);
}

proof fn proceeding_is_sound(
    flow: ReconcileFlow,
    p: Progress,
    table: BreakpointTable,
    after: ReconcileFlow,
    table_after: BreakpointTable,
    next: BackendNext<Vec<BreakpointResult>>,
)
    requires
        flow.same_request(after),
        after.well_formed(),
        sound(flow.prior@, flow.wanted@, p),
        flow.proceeds(p, table, after, table_after, next),
    ensures
        after.in_order(),
        next matches BackendNext::Call(cmd) ==> is_due(flow, cmd),
        next matches BackendNext::End(Ok(results)) ==> flow.concludes(
            results@,
            table@,
            table_after@,
        ),
{
    reuse_is_sound(flow.prior@, flow.wanted@, p);
    let q = reused(flow.prior@, flow.wanted@, p);
    if q.index < flow.wanted@.len() {
        assert(flow.wanted@[q.index] is Place);
    } else {
        cleaning_is_sound(flow, 0, q, table, after, table_after, next);
    }
}

/// The first step of a reconciliation is in order: it asks the engine only for what is due, and
/// where it ends at once, it ends as it has to.
pub proof fn reconciliation_begins_in_order(
    flow: ReconcileFlow,
    table: BreakpointTable,
    table_after: BreakpointTable,
    next: BackendNext<Vec<BreakpointResult>>,
)
    requires
        flow.well_formed(),
        flow.proceeds(
            Progress { index: 0, results: Seq::empty(), kept: Map::empty() },
            table,
            flow,
            table_after,
            next,
        ),
    ensures
        flow.in_order(),
        next matches BackendNext::Call(cmd) ==> is_due(flow, cmd),
        next matches BackendNext::End(Ok(results)) ==> flow.concludes(
            results@,
            table@,
            table_after@,
        ),
{
    let p = Progress { index: 0, results: Seq::empty(), kept: Map::empty() };
    assert(sound(flow.prior@, flow.wanted@, p));
    proceeding_is_sound(flow, p, table, flow, table_after, next);
}

/// Every further step of a reconciliation is in order: it asks the engine only for what is due,
/// and where it ends, it ends as it has to. Where the engine thread is gone, a batch that was
/// still setting breakpoints leaves the table as it was.
pub proof fn reconciliation_stays_in_order(
    flow: ReconcileFlow,
    reply: Option<EngineReply>,
    table: BreakpointTable,
    after: ReconcileFlow,
    table_after: BreakpointTable,
    next: BackendNext<Vec<BreakpointResult>>,
)
    requires
        flow.in_order(),
        flow.expects(reply),
        after.well_formed(),
        flow.steps(reply, table, after, table_after, next),
    ensures
        after.in_order(),
        next matches BackendNext::Call(cmd) ==> is_due(flow, cmd),
        next matches BackendNext::End(Ok(results)) ==> flow.concludes(
            results@,
            table@,
            table_after@,
        ),
        reply is None && flow.phase is Setting ==> table_after@ == table@,
{
    match (flow.phase, reply) {
        (ReconcilePhase::Setting, Some(EngineReply::Breakpoint(answer))) => {
            let r = choose|r: BreakpointResult|
                ReconcileFlow::is_result(flow.wanted@[flow.index as int], answer, r)
                    && #[trigger] flow.proceeds(
                    with_result(flow.wanted@, flow.progress(), r),
                    table,
                    after,
                    table_after,
                    next,
                );
            let q = with_result(flow.wanted@, flow.progress(), r);
            one_more(flow.prior@, flow.wanted@, flow.progress(), q, r);
            proceeding_is_sound(flow, q, table, after, table_after, next);
        },
        (ReconcilePhase::Removing, Some(EngineReply::Done(_))) => {
            cleaning_is_sound(
                flow,
                flow.index + 1,
                flow.progress(),
                table,
                after,
                table_after,
                next,
            );
        },
        _ => {},
    }
}

// ---- stale breakpoints ----

/// Whether these are the steps of a reconciliation: `nexts[i]` is what was done when the flow got
/// to `flows[i]`, and `replies[i]` came of it.
pub open spec fn is_reconciliation(
    flows: Seq<ReconcileFlow>,
    replies: Seq<Option<EngineReply>>,
    nexts: Seq<BackendNext<Vec<BreakpointResult>>>,
    tables: Seq<BreakpointTable>,
) -> bool {
    &&& flows.len() == nexts.len()
    &&& flows.len() == replies.len() + 1
    &&& tables.len() == flows.len() + 1
    &&& forall|i: int| 0 <= i < flows.len() ==> (#[trigger] flows[i]).well_formed()
    &&& flows[0].proceeds(
        Progress { index: 0, results: Seq::empty(), kept: Map::empty() },
        tables[0],
        flows[0],
        tables[1],
        nexts[0],
    )
    &&& forall|i: int|
        0 <= i < replies.len() ==> (#[trigger] flows[i]).expects(replies[i]) && flows[i].steps(
            replies[i],
            tables[i + 1],
            flows[i + 1],
            tables[i + 2],
            nexts[i + 1],
        )
}

/// Whether the command to remove a breakpoint is among the first `n` things that were done.
pub open spec fn removed_by(
    nexts: Seq<BackendNext<Vec<BreakpointResult>>>,
    n: int,
    id: i64,
) -> bool {
    exists|j: int|
        0 <= j < n && #[trigger] nexts[j] == BackendNext::<Vec<BreakpointResult>>::Call(
            EngineCmd::RemoveBreakpoint { id },
        )
}

proof fn removals_so_far(
    flows: Seq<ReconcileFlow>,
    replies: Seq<Option<EngineReply>>,
    nexts: Seq<BackendNext<Vec<BreakpointResult>>>,
    tables: Seq<BreakpointTable>,
    n: int,
    k: int,
)
    requires
        is_reconciliation(flows, replies, nexts, tables),
        0 <= n < flows.len(),
        0 <= k < flows[0].prior.listed().len(),
        is_stale(flows[0].wanted@, flows[0].prior.listed()[k]),
        flows[n].phase is Removing && k <= flows[n].index || (nexts[n] matches BackendNext::End(
            Ok(_),
        )),
    ensures
        flows[0].same_request(flows[n]),
        removed_by(nexts, n + 1, flows[0].prior.listed()[k].result.id),
    decreases n,
{
    same_request_throughout(flows, replies, nexts, tables, n);
    let prior = flows[0].prior.listed();
    let wanted = flows[0].wanted@;
    if n == 0 {
        next_stale_is_first(prior, wanted, 0);
        assert(nexts[0] == BackendNext::<Vec<BreakpointResult>>::Call(
            EngineCmd::RemoveBreakpoint { id: prior[k].result.id },
        ));
    } else {
        same_request_throughout(flows, replies, nexts, tables, n - 1);
        let before = flows[n - 1];
        assert(before.steps(replies[n - 1], tables[n], flows[n], tables[n + 1], nexts[n]));
        assert(before.expects(replies[n - 1]));
        if before.phase is Removing {
            next_stale_is_first(prior, wanted, before.index + 1);
            if k <= before.index {
                removals_so_far(flows, replies, nexts, tables, n - 1, k);
                let j = choose|j: int|
                    0 <= j < n && #[trigger] nexts[j] == BackendNext::<
                        Vec<BreakpointResult>,
                    >::Call(EngineCmd::RemoveBreakpoint { id: prior[k].result.id });
                assert(nexts[j] == BackendNext::<Vec<BreakpointResult>>::Call(
                    EngineCmd::RemoveBreakpoint { id: prior[k].result.id },
                ));
            } else {
                assert(nexts[n] == BackendNext::<Vec<BreakpointResult>>::Call(
                    EngineCmd::RemoveBreakpoint { id: prior[k].result.id },
                ));
            }
        } else {
            next_stale_is_first(prior, wanted, 0);
            assert(nexts[n] == BackendNext::<Vec<BreakpointResult>>::Call(
                EngineCmd::RemoveBreakpoint { id: prior[k].result.id },
            ));
        }
    }
}

proof fn same_request_throughout(
    flows: Seq<ReconcileFlow>,
    replies: Seq<Option<EngineReply>>,
    nexts: Seq<BackendNext<Vec<BreakpointResult>>>,
    tables: Seq<BreakpointTable>,
    n: int,
)
    requires
        is_reconciliation(flows, replies, nexts, tables),
        0 <= n < flows.len(),
    ensures
        flows[0].same_request(flows[n]),
    decreases n,
{
    if n > 0 {
        same_request_throughout(flows, replies, nexts, tables, n - 1);
        assert(flows[n - 1].steps(
            replies[n - 1],
            tables[n],
            flows[n],
            tables[n + 1],
            nexts[n],
        ));
    }
}

/// A reconciliation that ended well has told the engine to remove every breakpoint that was there
/// and is no longer asked for.
pub proof fn every_stale_breakpoint_is_removed(
    flows: Seq<ReconcileFlow>,
    replies: Seq<Option<EngineReply>>,
    nexts: Seq<BackendNext<Vec<BreakpointResult>>>,
    tables: Seq<BreakpointTable>,
    k: int,
)
    requires
        is_reconciliation(flows, replies, nexts, tables),
        nexts.last() matches BackendNext::End(Ok(_)),
        0 <= k < flows[0].prior.listed().len(),
        is_stale(flows[0].wanted@, flows[0].prior.listed()[k]),
    ensures
        removed_by(nexts, nexts.len() as int, flows[0].prior.listed()[k].result.id),
{
    removals_so_far(flows, replies, nexts, tables, flows.len() - 1, k);
}

// ---- what a request does not speak of ----

/// A request for the breakpoints of a file leaves every other breakpoint alone: those of other
/// files, and those on functions.
pub proof fn file_requests_keep_to_their_file(
    flow: ReconcileFlow,
    file: String,
    bps: Seq<SourceBp>,
    results: Seq<BreakpointResult>,
    table: Map<BpKey, BreakpointResult>,
    table_after: Map<BpKey, BreakpointResult>,
    key: BpKey,
)
    requires
        flow.scope == BpScope::File(file),
        flow.wanted@.len() == bps.len(),
        forall|i: int|
            0 <= i < bps.len() ==> is_wanted_line(file@, bps[i], #[trigger] flow.wanted@[i]),
        flow.concludes(results, table, table_after),
        !flow.scope.covers(key),
    ensures
        table_after.contains_key(key) == table.contains_key(key),
        table.contains_key(key) ==> table_after[key] == table[key],
{
    if wants(flow.wanted@, key) {
        let i = choose|i: int|
            0 <= i < flow.wanted@.len() && (#[trigger] flow.wanted@[i] matches Wanted::Place {
                loc,
                ..
            } && loc.key() == key);
        assert(is_wanted_line(file@, bps[i], flow.wanted@[i]));
    }
    assert(table_after.contains_key(key) == table.contains_key(key));
}

/// A request for function breakpoints leaves every breakpoint on a line alone.
pub proof fn function_requests_keep_to_functions(
    flow: ReconcileFlow,
    bps: Seq<FunctionBp>,
    results: Seq<BreakpointResult>,
    table: Map<BpKey, BreakpointResult>,
    table_after: Map<BpKey, BreakpointResult>,
    key: BpKey,
)
    requires
        flow.scope is Functions,
        flow.wanted@.len() == bps.len(),
        forall|i: int|
            0 <= i < bps.len() ==> is_wanted_function(bps[i], #[trigger] flow.wanted@[i]),
        flow.concludes(results, table, table_after),
        !flow.scope.covers(key),
    ensures
        table_after.contains_key(key) == table.contains_key(key),
        table.contains_key(key) ==> table_after[key] == table[key],
{
    if wants(flow.wanted@, key) {
        let i = choose|i: int|
            0 <= i < flow.wanted@.len() && (#[trigger] flow.wanted@[i] matches Wanted::Place {
                loc,
                ..
            } && loc.key() == key);
        assert(is_wanted_function(bps[i], flow.wanted@[i]));
    }
    assert(table_after.contains_key(key) == table.contains_key(key));
}

/// A function breakpoint that names a bare address is neither sent to the engine nor kept track
/// of.
pub proof fn bare_addresses_are_never_placed(
    flow: ReconcileFlow,
    bps: Seq<FunctionBp>,
    results: Seq<BreakpointResult>,
    table: Map<BpKey, BreakpointResult>,
    table_after: Map<BpKey, BreakpointResult>,
    name: Seq<char>,
)
    requires
        flow.scope is Functions,
        flow.wanted@.len() == bps.len(),
        forall|i: int|
            0 <= i < bps.len() ==> is_wanted_function(bps[i], #[trigger] flow.wanted@[i]),
        is_bare_address(name),
    ensures
        forall|loc: BpLoc, condition: String|
            loc.key() == BpKey::Function(name) ==> !(#[trigger] is_due(
                flow,
                (EngineCmd::SetBreakpoint { loc, condition }),
            )),
        flow.concludes(results, table, table_after) ==> !table_after.contains_key(
            BpKey::Function(name),
        ),
{
    let key = BpKey::Function(name);
    if wants(flow.wanted@, key) {
        let i = choose|i: int|
            0 <= i < flow.wanted@.len() && (#[trigger] flow.wanted@[i] matches Wanted::Place {
                loc,
                ..
            } && loc.key() == key);
        assert(is_wanted_function(bps[i], flow.wanted@[i]));
        assert(false);
    }
    if flow.concludes(results, table, table_after) && table_after.contains_key(key) {
        assert(flow.scope.covers(key));
        assert(false);
    }
}

// ---- asking again ----

proof fn reuse_goes_through(
    prior: Map<BpKey, BreakpointResult>,
    wanted: Seq<Wanted>,
    p: Progress,
)
    requires
        0 <= p.index <= wanted.len(),
        forall|i: int|
            0 <= i < wanted.len() ==> (#[trigger] wanted[i] matches Wanted::Place { loc, .. }
                ==> prior.contains_key(loc.key())),
    ensures
        reused(prior, wanted, p).index == wanted.len(),
    decreases wanted.len() - p.index,
{
    if p.index < wanted.len() {
        assert(wanted[p.index] is Place || wanted[p.index] is Refused);
        match wanted[p.index] {
            Wanted::Refused(r) => {
                reuse_goes_through(
                    prior,
                    wanted,
                    Progress { index: p.index + 1, results: p.results.push(r), kept: p.kept },
                );
            },
            Wanted::Place { loc, .. } => {
                reuse_goes_through(
                    prior,
                    wanted,
                    Progress {
                        index: p.index + 1,
                        results: p.results.push(prior[loc.key()]),
                        kept: p.kept.insert(loc.key(), prior[loc.key()]),
                    },
                );
            },
        }
    }
}

/// Asking again for exactly the breakpoints that are there asks nothing of the engine and changes
/// nothing: each keeps its result, and with it its engine id.
pub proof fn asking_again_changes_nothing(
    flow: ReconcileFlow,
    table: BreakpointTable,
    table_after: BreakpointTable,
    next: BackendNext<Vec<BreakpointResult>>,
)
    requires
        flow.well_formed(),
        table.well_formed(),
        flow.prior@ == table@.restrict(covered(flow.scope, true)),
        forall|i: int|
            0 <= i < flow.wanted@.len() ==> (#[trigger] flow.wanted@[i] matches Wanted::Place {
                loc,
                ..
            } ==> flow.prior@.contains_key(loc.key())),
        forall|key: BpKey| #[trigger]
            flow.prior@.contains_key(key) ==> wants(flow.wanted@, key),
        flow.proceeds(
            Progress { index: 0, results: Seq::empty(), kept: Map::empty() },
            table,
            flow,
            table_after,
            next,
        ),
    ensures
        table_after@ == table@,
        next matches BackendNext::End(Ok(results)) && results@.len() == flow.wanted@.len()
            && forall|i: int|
            0 <= i < results@.len() ==> fits(flow.prior@, flow.wanted@[i], #[trigger] results@[i]),
{
    let p = Progress { index: 0, results: Seq::empty(), kept: Map::empty() };
    reconciliation_begins_in_order(flow, table, table_after, next);
    reuse_goes_through(flow.prior@, flow.wanted@, p);
    assert(sound(flow.prior@, flow.wanted@, p));
    reuse_is_sound(flow.prior@, flow.wanted@, p);
    let q = reused(flow.prior@, flow.wanted@, p);
    let prior = flow.prior.listed();
    next_stale_is_first(prior, flow.wanted@, 0);
    let i = next_stale(prior, flow.wanted@, 0);
    if i < prior.len() {
        flow.prior.entries_are_the_table();
        assert(flow.prior@.contains_key(prior[i].loc.key()));
        assert(false);
    }
    assert forall|key: BpKey| table_after@.contains_key(key) == table@.contains_key(key) by {
        if table@.contains_key(key) && flow.scope.covers(key) {
            assert(flow.prior@.contains_key(key));
            assert(wants(flow.wanted@, key));
            assert(table_after@.contains_key(key));
        }
        if table_after@.contains_key(key) && q.kept.contains_key(key) {
            assert(wants_early(flow.wanted@, q.index, key));
            let j = choose|j: int|
                0 <= j < q.index && (#[trigger] flow.wanted@[j] matches Wanted::Place { loc, .. }
                    && loc.key() == key);
            assert(flow.wanted@[j] is Place);
            assert(flow.prior@.contains_key(key));
        }
    }
    assert forall|key: BpKey| table@.contains_key(key) implies table_after@[key]
        == table@[key] by {
        if q.kept.contains_key(key) {
            assert(wants_early(flow.wanted@, q.index, key));
            let j = choose|j: int|
                0 <= j < q.index && (#[trigger] flow.wanted@[j] matches Wanted::Place { loc, .. }
                    && loc.key() == key);
            assert(flow.wanted@[j] is Place);
            assert(flow.prior@.contains_key(key));
        }
    }
    assert(table_after@ =~= table@);
}

} // verus!
