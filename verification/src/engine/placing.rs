//! What setting, removing and listing breakpoints do, from their first question to their result.
use super::BpLoc;
use super::breakpoints::{ListFlow, RemoveFlow, RemovePhase, SetFlow, SetPhase, known};
use super::courses::{Course, succeeded};
use super::host::{Answer, Next, RawBreakpoint, Request};
use super::inspect::name_text;
use crate::text::address_text;
use crate::types::BreakpointResult;
use vstd::prelude::*;
use vstd::string::*;

verus! {

broadcast use vstd::string::group_string_axioms;

// ---- setting ----

/// A source line is looked up in the very file and under the very number that were asked for.
pub proof fn lines_are_looked_up_as_given(
    flow: SetFlow,
    first: Next<BreakpointResult>,
    file: String,
    line: u32,
)
    requires
        flow.loc == (BpLoc::FileLine { file, line }),
        !file@.contains('\0'),
        flow.starts(first),
    ensures
        first matches Next::Ask(Request::GetOffsetByLine { file: f, line: l }) && f@ == file@ && l
            == line,
{
}

/// Requests for two different source lines ask two different questions.
pub proof fn different_lines_are_different_questions(
    a: SetFlow,
    b: SetFlow,
    first: Next<BreakpointResult>,
    second: Next<BreakpointResult>,
    file: String,
    line: u32,
    other_file: String,
    other_line: u32,
)
    requires
        a.loc == (BpLoc::FileLine { file, line }),
        b.loc == (BpLoc::FileLine { file: other_file, line: other_line }),
        !file@.contains('\0'),
        !other_file@.contains('\0'),
        a.starts(first),
        b.starts(second),
        file@ != other_file@ || line != other_line,
    ensures
        first != second,
{
    lines_are_looked_up_as_given(a, first, file, line);
    lines_are_looked_up_as_given(b, second, other_file, other_line);
}

/// A function is looked up under the very name that was asked for, and an address is not looked
/// up at all; so two names ask two questions.
pub proof fn functions_are_looked_up_as_given(
    flow: SetFlow,
    first: Next<BreakpointResult>,
    name: String,
)
    requires
        flow.loc == BpLoc::Function(name),
        !name@.contains('\0'),
        flow.starts(first),
    ensures
        first matches Next::Ask(Request::GetOffsetByName(n)) && n@ == name@,
{
}

/// Whether this is the course of the setting of a breakpoint at `loc`.
pub open spec fn is_setting(c: Course<SetFlow, BreakpointResult>, loc: BpLoc) -> bool {
    &&& c.shaped()
    &&& c.flows[0].loc == loc
    &&& exists|first: Next<BreakpointResult>| c.flows[0].starts(first)
    &&& forall|i: int|
        0 <= i < c.answers.len() ==> (#[trigger] c.flows[i]).expects(c.answers[i])
            && c.flows[i].steps(c.answers[i], c.flows[i + 1], c.nexts[i])
}

proof fn setting_keeps_its_place(c: Course<SetFlow, BreakpointResult>, loc: BpLoc, i: int)
    requires
        is_setting(c, loc),
        0 <= i < c.flows.len(),
    ensures
        c.flows[i].loc == loc,
        c.flows[i].phase is Line ==> i == 0 && loc is FileLine,
        c.flows[i].phase is Name ==> i == 0 && loc is Function,
        c.flows[i].phase is Count || c.flows[i].phase is Module || c.flows[i].phase is Qualified
            ==> loc is Function,
        c.flows[i].phase is Create && i == 0 ==> (loc matches BpLoc::Address(address)
            && c.flows[0].phase == SetPhase::Create(address)),
        c.flows[i].phase is Place || c.flows[i].phase is Enable || c.flows[i].phase is Id ==> i
            > 0,
        loc is Address && i > 0 ==> c.flows[i].phase is Place || c.flows[i].phase is Enable
            || c.flows[i].phase is Id || c.flows[i].phase is Over,
    decreases i,
{
    if i > 0 {
        setting_keeps_its_place(c, loc, i - 1);
        assert(c.flows[i - 1].expects(c.answers[i - 1]));
    }
}

/// Where a breakpoint has to be placed, given the answers to the course of its setting: at the
/// address that was asked for, or at the one that the engine found for the line or for the name;
/// a bare name may have been found in a module, under `module!name`.
pub open spec fn is_found(
    c: Course<SetFlow, BreakpointResult>,
    loc: BpLoc,
    address: u64,
) -> bool {
    let n = c.answers.len();
    match loc {
        BpLoc::Address(asked) => n == 4 && address == asked,
        BpLoc::FileLine { .. } => n == 5 && c.answers[0] == Answer::Offset(Ok(address)),
        BpLoc::Function(name) => {
            &&& n >= 5
            &&& c.answers[n - 5] == Answer::Offset(Ok(address))
            &&& n > 5 ==> {
                &&& c.answers[n - 6] matches Answer::Name(Some(module))
                &&& c.nexts[n - 6] matches Next::Ask(Request::GetOffsetByName(asked))
                &&& asked@ == name_text(module@) + "!"@ + name@
            }
        },
    }
}

/// A breakpoint that is reported as set was created, placed at the address that was asked for or
/// found, and enabled, in this order, each without an error; and it is reported under the id that
/// the engine gave it, with the line that was asked for.
pub proof fn breakpoints_are_placed_where_they_were_found(
    c: Course<SetFlow, BreakpointResult>,
    loc: BpLoc,
    r: BreakpointResult,
)
    requires
        is_setting(c, loc),
        c.brings(r),
    ensures
        c.answers.len() >= 4,
        ({
            let n = c.answers.len() as int;
            &&& n > 4 ==> c.asks(n - 5, Request::AddBreakpoint)
            &&& succeeded(c.answers, n - 4)
            &&& c.nexts[n - 4] matches Next::Ask(Request::SetBreakpointOffset(address))
            &&& is_found(c, loc, address)
            &&& succeeded(c.answers, n - 3)
            &&& c.asks(n - 3, Request::EnableBreakpoint)
            &&& succeeded(c.answers, n - 2)
            &&& c.asks(n - 2, Request::GetBreakpointId)
            &&& c.answers[n - 1] matches Answer::Number(Ok(id)) && r.id == id
        }),
        r.verified && !r.rejected,
        loc matches BpLoc::FileLine { line, .. } ==> r.line == line,
        loc !is FileLine ==> r.line == 0,
{
    let n = c.answers.len() as int;
    assert(c.flows[n - 1].expects(c.answers[n - 1]));
    setting_keeps_its_place(c, loc, n - 1);
    assert(c.flows[n - 1].phase is Id);
    assert(c.flows[n - 2].expects(c.answers[n - 2]));
    setting_keeps_its_place(c, loc, n - 2);
    assert(c.flows[n - 3].expects(c.answers[n - 3]));
    setting_keeps_its_place(c, loc, n - 3);
    assert(c.flows[n - 4].expects(c.answers[n - 4]));
    setting_keeps_its_place(c, loc, n - 4);
    if n > 4 {
        assert(c.flows[n - 5].expects(c.answers[n - 5]));
        setting_keeps_its_place(c, loc, n - 5);
    }
    if n > 5 {
        assert(c.flows[n - 6].expects(c.answers[n - 6]));
        setting_keeps_its_place(c, loc, n - 6);
    }
}

/// A bare name that the engine does not know is looked for in every module, from the first to the
/// last, one after another; where none has it, the error is the one that the name alone brought.
pub proof fn modules_are_searched_in_order(
    flow: SetFlow,
    answer: Answer,
    after: SetFlow,
    next: Next<BreakpointResult>,
)
    requires
        flow.expects(answer),
        flow.steps(answer, after, next),
    ensures
        flow.phase matches SetPhase::Count(error) ==> (answer matches Answer::Number(Ok(count))
            ==> (if count > 0 {
            next == Next::<BreakpointResult>::Ask(Request::ModuleName(0))
        } else {
            next.fails_op("GetOffsetByName"@, error)
        })),
        flow.phase matches SetPhase::Module { error, index, count } ==> answer == Answer::Name(
            None,
        ) ==> (if index + 1 < count {
            next matches Next::Ask(Request::ModuleName(m)) && m == index + 1
        } else {
            next.fails_op("GetOffsetByName"@, error)
        }),
        flow.phase matches SetPhase::Qualified { error, index, count } ==> (
        answer matches Answer::Offset(Err(_)) ==> (if index + 1 < count {
            next matches Next::Ask(Request::ModuleName(m)) && m == index + 1
        } else {
            next.fails_op("GetOffsetByName"@, error)
        })),
        next matches Next::Ask(Request::GetOffsetByName(name)) ==> !name@.contains('\0'),
        flow.phase is Name ==> (answer matches Answer::Offset(Err(e)) ==> (
        flow.loc matches BpLoc::Function(name) && (if name@.contains('!') {
            next.fails_op("GetOffsetByName"@, e)
        } else {
            next == Next::<BreakpointResult>::Ask(Request::GetNumberModules)
        }))) || flow.loc !is Function,
{
}

// ---- removing ----

/// Whether this is the course of the removal of breakpoint `id`.
pub open spec fn is_removal(c: Course<RemoveFlow, ()>, id: u32) -> bool {
    &&& c.shaped()
    &&& c.flows[0] == (RemoveFlow { id, phase: RemovePhase::Find })
    &&& forall|i: int|
        0 <= i < c.answers.len() ==> (#[trigger] c.flows[i]).expects(c.answers[i])
            && c.flows[i].steps(c.answers[i], c.flows[i + 1], c.nexts[i])
}

/// A breakpoint that is reported as removed was found, and then removed without an error; one that
/// was not found is not removed.
pub proof fn removed_breakpoints_were_found(c: Course<RemoveFlow, ()>, id: u32)
    requires
        is_removal(c, id),
    ensures
        c.brings(()) ==> c.answers.len() == 2 && succeeded(c.answers, 0) && c.asks(
            0,
            Request::RemoveBreakpoint,
        ) && succeeded(c.answers, 1),
        !succeeded(c.answers, 0) ==> c.answers.len() == 1 && (c.nexts[0] matches Next::End(Err(_))),
{
    let n = c.answers.len();
    assert(c.flows[0].expects(c.answers[0]));
    if n > 1 {
        assert(c.flows[1].expects(c.answers[1]));
    }
    if n > 2 {
        assert(c.flows[2].expects(c.answers[2]));
    }
}

// ---- listing ----

/// What is known of the breakpoints keeps their order: those that could be read, each with its own
/// id and address, and nothing of the others.
pub proof fn known_breakpoints_keep_their_order(
    raw: Seq<Option<RawBreakpoint>>,
    bp: RawBreakpoint,
)
    ensures
        known(Seq::empty()).len() == 0,
        known(raw.push(None)) == known(raw),
        known(raw.push(Some(bp))).len() == known(raw).len() + 1,
        known(raw.push(Some(bp))).drop_last() == known(raw),
        bp.id matches Some(id) ==> known(raw.push(Some(bp))).last().0 == id,
        bp.offset matches Some(offset) ==> known(raw.push(Some(bp))).last().1 == offset,
        bp.id is None ==> known(raw.push(Some(bp))).last().0 == 0,
        bp.offset is None ==> known(raw.push(Some(bp))).last().1 == 0,
{
    assert(raw.push(None).drop_last() =~= raw);
    assert(raw.push(Some(bp)).drop_last() =~= raw);
    assert(known(raw.push(Some(bp))).drop_last() =~= known(raw));
}

proof fn all_known(raw: Seq<Option<RawBreakpoint>>)
    requires
        forall|k: int| 0 <= k < raw.len() ==> (#[trigger] raw[k]) is Some,
    ensures
        known(raw).len() == raw.len(),
        forall|k: int|
            0 <= k < raw.len() ==> {
                let bp = (#[trigger] raw[k])->0;
                &&& bp.id matches Some(id) ==> known(raw)[k].0 == id
                &&& bp.offset matches Some(offset) ==> known(raw)[k].1 == offset
            },
    decreases raw.len(),
{
    if raw.len() > 0 {
        let rest = raw.drop_last();
        assert forall|k: int| 0 <= k < rest.len() implies (#[trigger] rest[k]) is Some by {
            assert(raw[k] is Some);
        }
        all_known(rest);
        assert(raw[raw.len() - 1] is Some);
        assert forall|k: int| 0 <= k < raw.len() implies {
            let bp = (#[trigger] raw[k])->0;
            &&& bp.id matches Some(id) ==> known(raw)[k].0 == id
            &&& bp.offset matches Some(offset) ==> known(raw)[k].1 == offset
        } by {
            if k < rest.len() {
                assert(rest[k] is Some);
                assert(known(raw)[k] == known(rest)[k]);
            }
        }
    }
}

/// Whether this is the course of a listing of the breakpoints.
pub open spec fn is_listing_of_breakpoints(c: Course<ListFlow, Vec<BreakpointResult>>) -> bool {
    &&& c.shaped()
    &&& c.flows[0].phase is Count
    &&& forall|i: int|
        0 <= i < c.answers.len() ==> (#[trigger] c.flows[i]).expects(c.answers[i])
            && c.flows[i].steps(c.answers[i], c.flows[i + 1], c.nexts[i])
}

/// All breakpoints that the engine counts and can describe are listed, in its order, each under
/// its own id; one without a symbol is shown by its own address.
pub proof fn all_breakpoints_are_listed(
    c: Course<ListFlow, Vec<BreakpointResult>>,
    list: Vec<BreakpointResult>,
)
    requires
        is_listing_of_breakpoints(c),
        c.brings(list),
        c.answers.len() > 1,
        c.answers[1] matches Answer::Breakpoints(raw) && forall|k: int|
            0 <= k < raw@.len() ==> (#[trigger] raw@[k]) is Some,
    ensures
        c.answers.len() == 3,
        c.answers[0] matches Answer::Number(Ok(count)) && list@.len() == count && c.asks(
            0,
            Request::DescribeBreakpoints(count),
        ),
        c.answers[2] is Symbols,
        forall|k: int|
            0 <= k < list@.len() ==> {
                let bp = c.answers[1]->Breakpoints_0@[k]->0;
                let symbol = c.answers[2]->Symbols_0@[k];
                &&& (#[trigger] list@[k]).verified
                &&& bp.id matches Some(id) ==> list@[k].id == id
                &&& symbol is None ==> (bp.offset matches Some(offset) ==> list@[k].message@
                    == address_text(offset as nat))
            },
{
    let n = c.answers.len();
    assert(c.flows[0].expects(c.answers[0]));
    assert(c.flows[1].expects(c.answers[1]));
    if n > 2 {
        assert(c.flows[2].expects(c.answers[2]));
    }
    if n > 3 {
        assert(c.flows[3].expects(c.answers[3]));
    }
    let raw = c.answers[1]->Breakpoints_0@;
    all_known(raw);
    assert forall|k: int| 0 <= k < list@.len() implies {
        let bp = raw[k]->0;
        let symbol = c.answers[2]->Symbols_0@[k];
        &&& (#[trigger] list@[k]).verified
        &&& bp.id matches Some(id) ==> list@[k].id == id
        &&& symbol is None ==> (bp.offset matches Some(offset) ==> list@[k].message@
            == address_text(offset as nat))
    } by {
        assert(raw[k] is Some);
    }
}

} // verus!
