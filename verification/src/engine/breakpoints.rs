//! Setting, removing and listing breakpoints.
use super::host::{Answer, Next, RawBreakpoint, RawSymbol, Request};
use super::inspect::{name_text, place, place_text};
use super::{BpLoc, Engine};
use crate::decode::cstr_from_buf;
use crate::error::{ComError, EngineError};
use crate::text::{contains_char, text3};
use crate::types::BreakpointResult;
use vstd::prelude::*;
use vstd::string::*;

verus! {

broadcast use vstd::string::group_string_axioms;

// ---- setting ----

/// What setting a breakpoint is waiting for.
pub enum SetPhase {
    /// The address of a source line.
    Line,
    /// The address of a function name as it was given.
    Name,
    /// How many modules there are to look for the name in; why the name alone was not found is
    /// kept.
    Count(ComError),
    /// The name of a module.
    Module { error: ComError, index: u32, count: u32 },
    /// The address of the name in that module.
    Qualified { error: ComError, index: u32, count: u32 },
    Create(u64),
    Place(u64),
    Enable,
    Id,
    Over,
}

/// The setting of a breakpoint.
pub struct SetFlow {
    pub loc: BpLoc,
    pub condition: String,
    pub phase: SetPhase,
}

impl BpLoc {
    /// The line that a breakpoint reports: that of a source location, and otherwise zero.
    pub open spec fn line(self) -> i64 {
        match self {
            BpLoc::FileLine { line, .. } => line as i64,
            _ => 0,
        }
    }

    /// The function name of a location.
    pub open spec fn name(self) -> Seq<char> {
        match self {
            BpLoc::Function(name) => name@,
            _ => Seq::empty(),
        }
    }
}

/// The name of a function in a module.
pub open spec fn qualified_text(module: Seq<char>, name: Seq<char>) -> Seq<char> {
    module + "!"@ + name
}

impl SetFlow {
    /// What the setting has asked for.
    pub open spec fn asked(self, request: Request) -> bool {
        match self.phase {
            SetPhase::Line => request is GetOffsetByLine,
            SetPhase::Name => request is GetOffsetByName,
            SetPhase::Count(_) => request == Request::GetNumberModules,
            SetPhase::Module { index, .. } => request == Request::ModuleName(index),
            SetPhase::Qualified { .. } => request is GetOffsetByName,
            SetPhase::Create(_) => request == Request::AddBreakpoint,
            SetPhase::Place(address) => request == Request::SetBreakpointOffset(address),
            SetPhase::Enable => request == Request::EnableBreakpoint,
            SetPhase::Id => request == Request::GetBreakpointId,
            SetPhase::Over => false,
        }
    }

    /// Whether `answer` answers what the setting has asked for.
    pub open spec fn expects(self, answer: Answer) -> bool {
        exists|request: Request| self.asked(request) && #[trigger] request.answered_by(answer)
    }

    /// Whether the search goes on in module `index` of `count`, or has failed with the first
    /// error when no module is left.
    pub open spec fn searches(
        error: ComError,
        index: int,
        count: u32,
        after: SetFlow,
        next: Next<BreakpointResult>,
    ) -> bool {
        if index < count {
            &&& after.phase == SetPhase::Module { error, index: index as u32, count }
            &&& next == Next::<BreakpointResult>::Ask(Request::ModuleName(index as u32))
        } else {
            after.phase is Over && next.fails_op("GetOffsetByName"@, error)
        }
    }

    /// Whether a breakpoint is created next, to be placed at `address`.
    pub open spec fn creates(
        address: u64,
        after: SetFlow,
        next: Next<BreakpointResult>,
    ) -> bool {
        after.phase == SetPhase::Create(address) && next == Next::<BreakpointResult>::Ask(
            Request::AddBreakpoint,
        )
    }

    /// How a setting begins.
    pub open spec fn starts(self, next: Next<BreakpointResult>) -> bool {
        match self.loc {
            BpLoc::Address(address) => Self::creates(address, self, next),
            BpLoc::FileLine { file, line } => if file@.contains('\0') {
                self.phase is Over && next.fails_engine(
                    "set_breakpoint: file path contains an interior NUL byte"@,
                )
            } else {
                self.phase is Line && (next matches Next::Ask(
                    Request::GetOffsetByLine { file: f, line: l },
                ) && f@ == file@ && l == line)
            },
            BpLoc::Function(name) => if name@.contains('\0') {
                self.phase is Over && next.fails_engine(
                    "set_breakpoint: function name contains an interior NUL byte"@,
                )
            } else {
                self.phase is Name && (next matches Next::Ask(Request::GetOffsetByName(n)) && n@
                    == name@)
            },
        }
    }

    /// How a setting goes on from one answer to the next question. A function is looked up as it
    /// was given; where that fails and the name is bare, in each module in turn.
    pub open spec fn steps(
        self,
        answer: Answer,
        after: SetFlow,
        next: Next<BreakpointResult>,
    ) -> bool {
        &&& after.loc == self.loc
        &&& after.condition == self.condition
        &&& match (self.phase, answer) {
            (SetPhase::Line, Answer::Offset(Err(e))) => after.phase is Over && next.fails_op(
                "GetOffsetByLine"@,
                e,
            ),
            (SetPhase::Line, Answer::Offset(Ok(address))) => Self::creates(address, after, next),
            (SetPhase::Name, Answer::Offset(Ok(address))) => Self::creates(address, after, next),
            (SetPhase::Name, Answer::Offset(Err(e))) => if self.loc.name().contains('!') {
                after.phase is Over && next.fails_op("GetOffsetByName"@, e)
            } else {
                after.phase == SetPhase::Count(e) && next == Next::<BreakpointResult>::Ask(
                    Request::GetNumberModules,
                )
            },
            (SetPhase::Count(error), Answer::Number(Err(_))) => after.phase is Over
                && next.fails_op("GetOffsetByName"@, error),
            (SetPhase::Count(error), Answer::Number(Ok(n))) => Self::searches(
                error,
                0,
                n,
                after,
                next,
            ),
            (SetPhase::Module { error, index, count }, Answer::Name(None)) => Self::searches(
                error,
                index + 1,
                count,
                after,
                next,
            ),
            (SetPhase::Module { error, index, count }, Answer::Name(Some(module))) => {
                let name = qualified_text(name_text(module@), self.loc.name());
                if name.contains('\0') {
                    Self::searches(error, index + 1, count, after, next)
                } else {
                    &&& after.phase == SetPhase::Qualified { error, index, count }
                    &&& next matches Next::Ask(Request::GetOffsetByName(n)) && n@ == name
                }
            },
            (SetPhase::Qualified { .. }, Answer::Offset(Ok(address))) => Self::creates(
                address,
                after,
                next,
            ),
            (SetPhase::Qualified { error, index, count }, Answer::Offset(Err(_))) => Self::searches(
                error,
                index + 1,
                count,
                after,
                next,
            ),
            (SetPhase::Create(_), Answer::Done(Err(e))) => after.phase is Over && next.fails_op(
                "AddBreakpoint"@,
                e,
            ),
            (SetPhase::Create(address), Answer::Done(Ok(_))) => after.phase == SetPhase::Place(
                address,
            ) && next == Next::<BreakpointResult>::Ask(Request::SetBreakpointOffset(address)),
            (SetPhase::Place(_), Answer::Done(Err(e))) => after.phase is Over && next.fails_op(
                "SetOffset"@,
                e,
            ),
            (SetPhase::Place(_), Answer::Done(Ok(_))) => after.phase is Enable && next
                == Next::<BreakpointResult>::Ask(Request::EnableBreakpoint),
            (SetPhase::Enable, Answer::Done(Err(e))) => after.phase is Over && next.fails_op(
                "AddFlags(ENABLED)"@,
                e,
            ),
            (SetPhase::Enable, Answer::Done(Ok(_))) => after.phase is Id && next
                == Next::<BreakpointResult>::Ask(Request::GetBreakpointId),
            (SetPhase::Id, Answer::Number(Err(e))) => after.phase is Over && next.fails_op(
                "GetId"@,
                e,
            ),
            (SetPhase::Id, Answer::Number(Ok(id))) => {
                &&& after.phase is Over
                &&& next matches Next::End(Ok(r)) && is_set(id, self.loc, r)
            },
            _ => false,
        }
    }

    /// Goes on from an answer. The condition is kept once the breakpoint has an id.
    pub fn resume(&mut self, engine: &mut Engine, answer: Answer) -> (r: Next<BreakpointResult>)
        requires
            old(self).expects(answer),
        ensures
            old(self).steps(answer, *final(self), r),
            final(engine).dump() == old(engine).dump(),
            final(engine).conditions() == match (old(self).phase, answer) {
                (SetPhase::Id, Answer::Number(Ok(id))) if old(self).condition@.len() > 0 => old(
                    engine,
                ).conditions().insert(id, old(self).condition@),
                _ => old(engine).conditions(),
            },
    {
        let mut phase = SetPhase::Over;
        std::mem::swap(&mut phase, &mut self.phase);
        match (phase, answer) {
            (SetPhase::Line, Answer::Offset(Err(e))) => Next::End(
                Err(EngineError::op("GetOffsetByLine", e)),
            ),
            (SetPhase::Line, Answer::Offset(Ok(address))) => self.create(address),
            (SetPhase::Name, Answer::Offset(Ok(address))) => self.create(address),
            (SetPhase::Name, Answer::Offset(Err(e))) => if self.is_qualified() {
                Next::End(Err(EngineError::op("GetOffsetByName", e)))
            } else {
                self.phase = SetPhase::Count(e);
                Next::Ask(Request::GetNumberModules)
            },
            (SetPhase::Count(error), Answer::Number(Err(_))) => Next::End(
                Err(EngineError::op("GetOffsetByName", error)),
            ),
            (SetPhase::Count(error), Answer::Number(Ok(n))) => self.search(error, 0, n),
            (SetPhase::Module { error, index, count }, Answer::Name(module)) => {
                match self.qualified(module) {
                    Some(name) => {
                        self.phase = SetPhase::Qualified { error, index, count };
                        Next::Ask(Request::GetOffsetByName(name))
                    },
                    None => self.search(error, index as u64 + 1, count),
                }
            },
            (SetPhase::Qualified { .. }, Answer::Offset(Ok(address))) => self.create(address),
            (SetPhase::Qualified { error, index, count }, Answer::Offset(Err(_))) => self.search(
                error,
                index as u64 + 1,
                count,
            ),
            (SetPhase::Create(_), Answer::Done(Err(e))) => Next::End(
                Err(EngineError::op("AddBreakpoint", e)),
            ),
            (SetPhase::Create(address), Answer::Done(Ok(_))) => {
                self.phase = SetPhase::Place(address);
                Next::Ask(Request::SetBreakpointOffset(address))
            },
            (SetPhase::Place(_), Answer::Done(Err(e))) => Next::End(
                Err(EngineError::op("SetOffset", e)),
            ),
            (SetPhase::Place(_), Answer::Done(Ok(_))) => {
                self.phase = SetPhase::Enable;
                Next::Ask(Request::EnableBreakpoint)
            },
            (SetPhase::Enable, Answer::Done(Err(e))) => Next::End(
                Err(EngineError::op("AddFlags(ENABLED)", e)),
            ),
            (SetPhase::Enable, Answer::Done(Ok(_))) => {
                self.phase = SetPhase::Id;
                Next::Ask(Request::GetBreakpointId)
            },
            (SetPhase::Id, Answer::Number(Err(e))) => Next::End(Err(EngineError::op("GetId", e))),
            (SetPhase::Id, Answer::Number(Ok(id))) => {
                engine.store_condition(id, self.condition.as_str());
                Next::End(Ok(breakpoint_set(id, &self.loc)))
            },
            _ => {
                assert(false);
                Next::End(Ok(breakpoint_set(0, &self.loc)))
            },
        }
    }

    fn create(&mut self, address: u64) -> (r: Next<BreakpointResult>)
        ensures
            final(self).loc == old(self).loc,
            final(self).condition == old(self).condition,
            Self::creates(address, *final(self), r),
    {
        self.phase = SetPhase::Create(address);
        Next::Ask(Request::AddBreakpoint)
    }

    fn search(&mut self, error: ComError, index: u64, count: u32) -> (r: Next<BreakpointResult>)
        requires
            old(self).phase is Over,
        ensures
            final(self).loc == old(self).loc,
            final(self).condition == old(self).condition,
            Self::searches(error, index as int, count, *final(self), r),
    {
        if index < count as u64 {
            let index: u32 = index as u32;
            self.phase = SetPhase::Module { error, index, count };
            Next::Ask(Request::ModuleName(index))
        } else {
            Next::End(Err(EngineError::op("GetOffsetByName", error)))
        }
    }

    /// Whether the function name says which module it is in.
    fn is_qualified(&self) -> (r: bool)
        ensures
            r == self.loc.name().contains('!'),
    {
        match &self.loc {
            BpLoc::Function(name) => contains_char(name.as_str(), '!'),
            _ => false,
        }
    }

    /// The function name in a module, if the module has a name and both can be given.
    fn qualified(&self, module: Option<Vec<u8>>) -> (r: Option<String>)
        ensures
            match module {
                Some(module) if !qualified_text(name_text(module@), self.loc.name()).contains('\0')
                    => r is Some && r->0@ == qualified_text(name_text(module@), self.loc.name()),
                _ => r is None,
            },
    {
        match module {
            Some(module) => {
                let module: String = cstr_from_buf(module.as_slice());
                match &self.loc {
                    BpLoc::Function(name) => qualified_name(module.as_str(), name.as_str()),
                    _ => {
                        proof {
                            reveal_strlit("");
                            assert(""@ =~= Seq::<char>::empty());
                        }
                        qualified_name(module.as_str(), "")
                    },
                }
            },
            None => None,
        }
    }
}

/// The name of a function in a module, if it can be given to the engine.
pub fn qualified_name(module: &str, name: &str) -> (r: Option<String>)
    ensures
        r is Some <==> !qualified_text(module@, name@).contains('\0'),
        r matches Some(text) ==> text@ == qualified_text(module@, name@),
{
    let text: String = text3(module, "!", name);
    if contains_char(text.as_str(), '\0') {
        None
    } else {
        Some(text)
    }
}

/// Whether `r` reports the breakpoint `id` as set at `loc`.
pub open spec fn is_set(id: u32, loc: BpLoc, r: BreakpointResult) -> bool {
    r.id == id && r.verified && r.line == loc.line() && r.message@.len() == 0 && !r.rejected
}

fn breakpoint_set(id: u32, loc: &BpLoc) -> (r: BreakpointResult)
    ensures
        is_set(id, *loc, r),
{
    let line: i64 = match loc {
        BpLoc::FileLine { line, .. } => *line as i64,
        _ => 0,
    };
    BreakpointResult {
        id: id as i64,
        verified: true,
        line,
        message: String::new(),
        rejected: false,
    }
}

impl Engine {
    /// Begins to set a breakpoint, with a condition unless that is empty.
    pub fn set_breakpoint(&self, loc: BpLoc, condition: &str) -> (r: (
        SetFlow,
        Next<BreakpointResult>,
    ))
        ensures
            r.0.loc == loc,
            r.0.condition@ == condition@,
            r.0.starts(r.1),
            loc matches BpLoc::Address(address) ==> r.0.phase == SetPhase::Create(address) && r.1
                == Next::<BreakpointResult>::Ask(Request::AddBreakpoint),
            loc matches BpLoc::FileLine { file, line } ==> !file@.contains('\0') ==> (
            r.1 matches Next::Ask(Request::GetOffsetByLine { file: f, line: l }) && f@ == file@
                && l == line),
            loc matches BpLoc::Function(name) ==> !name@.contains('\0') ==> (r.1 matches Next::Ask(
                Request::GetOffsetByName(n),
            ) && n@ == name@),
    {
        let condition: String = condition.to_owned();
        let (phase, next) = match &loc {
            BpLoc::Address(address) => (
                SetPhase::Create(*address),
                Next::Ask(Request::AddBreakpoint),
            ),
            BpLoc::FileLine { file, line } => if contains_char(file.as_str(), '\0') {
                (
                    SetPhase::Over,
                    Next::End(
                        Err(
                            EngineError::engine(
                                "set_breakpoint: file path contains an interior NUL byte",
                            ),
                        ),
                    ),
                )
            } else {
                (
                    SetPhase::Line,
                    Next::Ask(Request::GetOffsetByLine { file: file.clone(), line: *line }),
                )
            },
            BpLoc::Function(name) => if contains_char(name.as_str(), '\0') {
                (
                    SetPhase::Over,
                    Next::End(
                        Err(
                            EngineError::engine(
                                "set_breakpoint: function name contains an interior NUL byte",
                            ),
                        ),
                    ),
                )
            } else {
                (SetPhase::Name, Next::Ask(Request::GetOffsetByName(name.clone())))
            },
        };
        (SetFlow { loc, condition, phase }, next)
    }
}

// ---- removing ----

/// What removing a breakpoint is waiting for.
#[derive(Debug, Clone, Copy, PartialEq, Eq, Structural)]
pub enum RemovePhase {
    Find,
    Remove,
    Over,
}

/// The removal of a breakpoint.
pub struct RemoveFlow {
    pub id: u32,
    pub phase: RemovePhase,
}

impl RemoveFlow {
    /// What the removal has asked for.
    pub open spec fn asked(self, request: Request) -> bool {
        match self.phase {
            RemovePhase::Find => request == Request::GetBreakpointById(self.id),
            RemovePhase::Remove => request == Request::RemoveBreakpoint,
            RemovePhase::Over => false,
        }
    }

    /// Whether `answer` answers what the removal has asked for.
    pub open spec fn expects(self, answer: Answer) -> bool {
        exists|request: Request| self.asked(request) && #[trigger] request.answered_by(answer)
    }

    /// How a removal goes on from one answer to the next question.
    pub open spec fn steps(self, answer: Answer, after: RemoveFlow, next: Next<()>) -> bool {
        &&& after.id == self.id
        &&& match (self.phase, answer) {
            (RemovePhase::Find, Answer::Done(Err(e))) => after.phase is Over && next.fails_op(
                "GetBreakpointById"@,
                e,
            ),
            (RemovePhase::Find, Answer::Done(Ok(_))) => after.phase is Remove && next == Next::<
                (),
            >::Ask(Request::RemoveBreakpoint),
            (RemovePhase::Remove, Answer::Done(Err(e))) => after.phase is Over && next.fails_op(
                "RemoveBreakpoint"@,
                e,
            ),
            (RemovePhase::Remove, Answer::Done(Ok(_))) => after.phase is Over && (
            next matches Next::End(Ok(_))),
            _ => false,
        }
    }

    /// Goes on from an answer. The condition of a breakpoint that was found is forgotten.
    pub fn resume(&mut self, engine: &mut Engine, answer: Answer) -> (r: Next<()>)
        requires
            old(self).expects(answer),
        ensures
            old(self).steps(answer, *final(self), r),
            final(engine).dump() == old(engine).dump(),
            final(engine).conditions() == (if r is Ask {
                old(engine).conditions().remove(old(self).id)
            } else {
                old(engine).conditions()
            }),
    {
        match (self.phase, answer) {
            (RemovePhase::Find, Answer::Done(Err(e))) => {
                self.phase = RemovePhase::Over;
                Next::End(Err(EngineError::op("GetBreakpointById", e)))
            },
            (RemovePhase::Find, Answer::Done(Ok(_))) => {
                engine.drop_condition(self.id);
                self.phase = RemovePhase::Remove;
                Next::Ask(Request::RemoveBreakpoint)
            },
            (RemovePhase::Remove, Answer::Done(Err(e))) => {
                self.phase = RemovePhase::Over;
                Next::End(Err(EngineError::op("RemoveBreakpoint", e)))
            },
            (RemovePhase::Remove, Answer::Done(Ok(_))) => {
                self.phase = RemovePhase::Over;
                Next::End(Ok(()))
            },
            _ => {
                assert(false);
                Next::End(Ok(()))
            },
        }
    }
}

impl Engine {
    /// Begins to remove a breakpoint. The id is taken as 32 bits.
    pub fn remove_breakpoint(&self, id: i64) -> (r: (RemoveFlow, Request))
        ensures
            r.0 == (RemoveFlow { id: id as u32, phase: RemovePhase::Find }),
            r.0.asked(r.1),
            r.1 == Request::GetBreakpointById(id as u32),
    {
        let id: u32 = #[verifier::truncate] (id as u32);
        (RemoveFlow { id, phase: RemovePhase::Find }, Request::GetBreakpointById(id))
    }
}

// ---- listing ----

/// What listing the breakpoints is waiting for.
pub enum ListPhase {
    Count,
    Describe(u32),
    /// The symbols at the addresses of the breakpoints; their ids are kept.
    Names { ids: Vec<u32>, offsets: Vec<u64> },
    Over,
}

/// The listing of the breakpoints.
pub struct ListFlow {
    pub phase: ListPhase,
}

/// The id and the address of each breakpoint that could be read; what is missing is zero.
pub open spec fn known(raw: Seq<Option<RawBreakpoint>>) -> Seq<(u32, u64)>
    decreases raw.len(),
{
    if raw.len() == 0 {
        Seq::empty()
    } else {
        let known = known(raw.drop_last());
        match raw.last() {
            Some(bp) => known.push(
                (
                    match bp.id {
                        Some(id) => id,
                        None => 0,
                    },
                    match bp.offset {
                        Some(offset) => offset,
                        None => 0,
                    },
                ),
            ),
            None => known,
        }
    }
}

/// Whether `list` are the breakpoints with these ids, addresses and symbols.
pub open spec fn are_listed(
    ids: Seq<u32>,
    offsets: Seq<u64>,
    symbols: Seq<Option<RawSymbol>>,
    list: Seq<BreakpointResult>,
) -> bool {
    &&& list.len() == ids.len()
    &&& forall|i: int|
        0 <= i < list.len() ==> {
            &&& (#[trigger] list[i]).id == ids[i]
            &&& list[i].verified
            &&& list[i].line == 0
            &&& list[i].message@ == place_text(symbols[i], offsets[i])
            &&& !list[i].rejected
        }
}

impl ListFlow {
    /// Whether the ids and the addresses that were kept belong together.
    pub open spec fn paired(self) -> bool {
        self.phase matches ListPhase::Names { ids, offsets } ==> ids@.len() == offsets@.len()
    }

    /// What the listing has asked for.
    pub open spec fn asked(self, request: Request) -> bool {
        match self.phase {
            ListPhase::Count => request == Request::GetNumberBreakpoints,
            ListPhase::Describe(n) => request == Request::DescribeBreakpoints(n),
            ListPhase::Names { offsets, .. } => request matches Request::NameOffsets(list) && list@
                == offsets@,
            ListPhase::Over => false,
        }
    }

    /// Whether `answer` answers what the listing has asked for.
    pub open spec fn expects(self, answer: Answer) -> bool {
        exists|request: Request| self.asked(request) && #[trigger] request.answered_by(answer)
    }

    /// How a listing goes on from one answer to the next question.
    pub open spec fn steps(
        self,
        answer: Answer,
        after: ListFlow,
        next: Next<Vec<BreakpointResult>>,
    ) -> bool {
        match (self.phase, answer) {
            (ListPhase::Count, Answer::Number(Err(e))) => after.phase is Over && next.fails_op(
                "GetNumberBreakpoints"@,
                e,
            ),
            (ListPhase::Count, Answer::Number(Ok(n))) => after.phase == ListPhase::Describe(n)
                && next == Next::<Vec<BreakpointResult>>::Ask(Request::DescribeBreakpoints(n)),
            (ListPhase::Describe(_), Answer::Breakpoints(raw)) => {
                &&& after.phase matches ListPhase::Names { ids, offsets } && ids@
                    == known(raw@).map_values(|p: (u32, u64)| p.0) && offsets@
                    == known(raw@).map_values(|p: (u32, u64)| p.1)
                &&& next matches Next::Ask(request) && after.asked(request)
            },
            (ListPhase::Names { ids, offsets }, Answer::Symbols(symbols)) => after.phase is Over
                && (next matches Next::End(Ok(list)) && are_listed(
                ids@,
                offsets@,
                symbols@,
                list@,
            )),
            _ => false,
        }
    }

    /// Goes on from an answer.
    pub fn resume(&mut self, answer: Answer) -> (r: Next<Vec<BreakpointResult>>)
        requires
            old(self).expects(answer),
            old(self).paired(),
        ensures
            old(self).steps(answer, *final(self), r),
            final(self).paired(),
    {
        let mut phase = ListPhase::Over;
        std::mem::swap(&mut phase, &mut self.phase);
        match (phase, answer) {
            (ListPhase::Count, Answer::Number(Err(e))) => Next::End(
                Err(EngineError::op("GetNumberBreakpoints", e)),
            ),
            (ListPhase::Count, Answer::Number(Ok(n))) => {
                self.phase = ListPhase::Describe(n);
                Next::Ask(Request::DescribeBreakpoints(n))
            },
            (ListPhase::Describe(_), Answer::Breakpoints(raw)) => {
                let (ids, offsets) = split_known(raw);
                let list: Vec<u64> = offsets.clone();
                assert(list@ =~= offsets@);
                self.phase = ListPhase::Names { ids, offsets };
                Next::Ask(Request::NameOffsets(list))
            },
            (ListPhase::Names { ids, offsets }, Answer::Symbols(symbols)) => Next::End(
                Ok(breakpoint_list(&ids, &offsets, symbols)),
            ),
            _ => {
                assert(false);
                Next::End(Ok(Vec::new()))
            },
        }
    }
}

fn split_known(raw: Vec<Option<RawBreakpoint>>) -> (r: (Vec<u32>, Vec<u64>))
    ensures
        r.0@ == known(raw@).map_values(|p: (u32, u64)| p.0),
        r.1@ == known(raw@).map_values(|p: (u32, u64)| p.1),
{
    let mut ids: Vec<u32> = Vec::new();
    let mut offsets: Vec<u64> = Vec::new();
    let ghost all = raw@;
    for found in it: raw
        invariant
            it.seq() == all,
            ids@ == known(all.take(it.index())).map_values(|p: (u32, u64)| p.0),
            offsets@ == known(all.take(it.index())).map_values(|p: (u32, u64)| p.1),
    {
        assert(all.take(it.index() + 1).drop_last() =~= all.take(it.index()));
        assert(all.take(it.index() + 1).last() == found);
        match found {
            Some(bp) => {
                ids.push(
                    match bp.id {
                        Some(id) => id,
                        None => 0,
                    },
                );
                offsets.push(
                    match bp.offset {
                        Some(offset) => offset,
                        None => 0,
                    },
                );
            },
            None => {},
        }
        assert(ids@ =~= known(all.take(it.index() + 1)).map_values(|p: (u32, u64)| p.0));
        assert(offsets@ =~= known(all.take(it.index() + 1)).map_values(|p: (u32, u64)| p.1));
    }
    assert(all.take(all.len() as int) =~= all);
    (ids, offsets)
}

/// The breakpoints with these ids, addresses and symbols.
pub fn breakpoint_list(
    ids: &Vec<u32>,
    offsets: &Vec<u64>,
    symbols: Vec<Option<RawSymbol>>,
) -> (r: Vec<BreakpointResult>)
    requires
        ids@.len() == offsets@.len(),
        ids@.len() == symbols@.len(),
    ensures
        are_listed(ids@, offsets@, symbols@, r@),
{
    let mut out: Vec<BreakpointResult> = Vec::new();
    let ghost all = symbols@;
    let n: usize = ids.len();
    let mut i: usize = 0;
    for symbol in it: symbols
        invariant
            it.seq() == all,
            i == it.index(),
            n == ids@.len(),
            ids@.len() == offsets@.len(),
            ids@.len() == all.len(),
            are_listed(ids@.take(i as int), offsets@.take(i as int), all.take(i as int), out@),
    {
        out.push(
            BreakpointResult {
                id: ids[i] as i64,
                verified: true,
                line: 0,
                message: place(symbol, offsets[i]),
                rejected: false,
            },
        );
        i = i + 1;
    }
    assert(ids@.take(i as int) =~= ids@);
    assert(offsets@.take(i as int) =~= offsets@);
    assert(all.take(i as int) =~= all);
    out
}

impl Engine {
    /// Begins to list the breakpoints.
    pub fn list_breakpoints(&self) -> (r: (ListFlow, Request))
        ensures
            r.0.phase is Count,
            r.0.asked(r.1),
            r.1 == Request::GetNumberBreakpoints,
    {
        (ListFlow { phase: ListPhase::Count }, Request::GetNumberBreakpoints)
    }
}

} // verus!
