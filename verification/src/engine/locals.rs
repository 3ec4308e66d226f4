//! Reading the local variables of a stack frame.
use super::Engine;
use super::host::{Answer, Next, RawVariable, Request};
use super::inspect::{name_or_empty, optional_name};
use crate::error::EngineError;
use crate::text::{decimal, render_i64, render_u64, text2, text4};
use crate::types::Variable;
use vstd::prelude::*;
use vstd::string::*;

verus! {

broadcast use vstd::string::group_string_axioms;

/// What reading the locals is waiting for.
pub enum LocalsPhase {
    /// The stack up to the frame, so that it can be scoped to.
    Stack,
    Scope,
    Group,
    Count,
    Symbols(u32),
    /// The scope to be put back, whatever was read.
    Reset(Result<Vec<Variable>, EngineError>),
    Over,
}

/// The reading of the locals of a frame. Frame zero is read in the scope that the engine is in;
/// any other frame is scoped to, and the scope is put back at the end.
pub struct LocalsFlow {
    pub frame_index: i64,
    pub phase: LocalsPhase,
}

/// Whether `variable` is what the engine described; a missing text is empty.
pub open spec fn is_variable(raw: RawVariable, variable: Variable) -> bool {
    &&& variable.name@ == optional_name(raw.name)
    &&& variable.value@ == optional_name(raw.value)
    &&& variable.ty@ == optional_name(raw.ty)
    &&& variable.variables_reference == 0
    &&& variable.named == 0
    &&& variable.indexed == 0
}

/// Whether `variables` are what the engine described.
pub open spec fn are_variables(raw: Seq<RawVariable>, variables: Seq<Variable>) -> bool {
    &&& variables.len() == raw.len()
    &&& forall|i: int| 0 <= i < variables.len() ==> is_variable(raw[i], #[trigger] variables[i])
}

/// What is reported of a frame that the stack does not have.
pub open spec fn no_frame_text(frame_index: int, filled: int) -> Seq<char> {
    "locals: frame "@ + decimal(frame_index) + " is out of range ("@ + (decimal(filled)
        + " frames)"@)
}

impl LocalsFlow {
    /// Whether a frame other than the engine's own is read.
    pub open spec fn scoped(self) -> bool {
        self.frame_index > 0
    }

    /// What the reading has asked for.
    pub open spec fn asked(self, request: Request) -> bool {
        match self.phase {
            LocalsPhase::Stack => request == Request::GetStackTrace((self.frame_index + 1) as u64),
            LocalsPhase::Scope => request == Request::SetScope(self.frame_index as u64),
            LocalsPhase::Group => request == Request::GetScopeSymbolGroup,
            LocalsPhase::Count => request == Request::GetNumberSymbols,
            LocalsPhase::Symbols(n) => request == Request::DescribeSymbols(n),
            LocalsPhase::Reset(_) => request == Request::ResetScope,
            LocalsPhase::Over => false,
        }
    }

    /// Whether `answer` answers what the reading has asked for.
    pub open spec fn expects(self, answer: Answer) -> bool {
        exists|request: Request| self.asked(request) && #[trigger] request.answered_by(answer)
    }

    /// What the reading ended with, if `after` and `next` end it: at once, or after the scope is
    /// put back.
    pub open spec fn finished(self, after: LocalsFlow, next: Next<Vec<Variable>>) -> Option<
        Result<Vec<Variable>, EngineError>,
    > {
        match (after.phase, next) {
            (LocalsPhase::Reset(result), Next::Ask(Request::ResetScope)) if self.scoped() => Some(
                result,
            ),
            (LocalsPhase::Over, Next::End(result)) if !self.scoped() => Some(result),
            _ => None,
        }
    }

    /// How a reading goes on from one answer to the next question.
    pub open spec fn steps(
        self,
        answer: Answer,
        after: LocalsFlow,
        next: Next<Vec<Variable>>,
    ) -> bool {
        &&& after.frame_index == self.frame_index
        &&& match (self.phase, answer) {
            (LocalsPhase::Stack, Answer::Stack(Err(e))) => after.phase is Over && next.fails_op(
                "GetStackTrace"@,
                e,
            ),
            (LocalsPhase::Stack, Answer::Stack(Ok(ips))) => if ips@.len() <= self.frame_index {
                after.phase is Over && next.fails_engine(
                    no_frame_text(self.frame_index as int, ips@.len() as int),
                )
            } else {
                after.phase is Scope && next == Next::<Vec<Variable>>::Ask(
                    Request::SetScope(self.frame_index as u64),
                )
            },
            (LocalsPhase::Scope, Answer::Done(Err(e))) => after.phase is Over && next.fails_op(
                "SetScope"@,
                e,
            ),
            (LocalsPhase::Scope, Answer::Done(Ok(_))) => after.phase is Group && next
                == Next::<Vec<Variable>>::Ask(Request::GetScopeSymbolGroup),
            (LocalsPhase::Group, Answer::Done(Err(e))) => self.finished(
                after,
                next,
            ) matches Some(Err(err)) && err.is_op("GetScopeSymbolGroup2"@, e),
            (LocalsPhase::Group, Answer::Done(Ok(_))) => after.phase is Count && next
                == Next::<Vec<Variable>>::Ask(Request::GetNumberSymbols),
            (LocalsPhase::Count, Answer::Number(Err(e))) => self.finished(
                after,
                next,
            ) matches Some(Err(err)) && err.is_op("GetNumberSymbols"@, e),
            (LocalsPhase::Count, Answer::Number(Ok(n))) => after.phase == LocalsPhase::Symbols(n)
                && next == Next::<Vec<Variable>>::Ask(Request::DescribeSymbols(n)),
            (LocalsPhase::Symbols(_), Answer::Locals(raw)) => self.finished(
                after,
                next,
            ) matches Some(Ok(list)) && are_variables(raw@, list@),
            (LocalsPhase::Reset(result), Answer::Done(_)) => after.phase is Over && next
                == Next::<Vec<Variable>>::End(result),
            _ => false,
        }
    }

    /// Goes on from an answer.
    pub fn resume(&mut self, answer: Answer) -> (r: Next<Vec<Variable>>)
        requires
            old(self).expects(answer),
        ensures
            old(self).steps(answer, *final(self), r),
    {
        let mut phase = LocalsPhase::Over;
        std::mem::swap(&mut phase, &mut self.phase);
        match (phase, answer) {
            (LocalsPhase::Stack, Answer::Stack(Err(e))) => Next::End(
                Err(EngineError::op("GetStackTrace", e)),
            ),
            (LocalsPhase::Stack, Answer::Stack(Ok(ips))) => {
                if self.frame_index < 0 || ips.len() as u64 > self.frame_index as u64 {
                    self.phase = LocalsPhase::Scope;
                    Next::Ask(Request::SetScope(self.frame_index as u64))
                } else {
                    Next::End(Err(no_frame(self.frame_index, ips.len() as u64)))
                }
            },
            (LocalsPhase::Scope, Answer::Done(Err(e))) => Next::End(
                Err(EngineError::op("SetScope", e)),
            ),
            (LocalsPhase::Scope, Answer::Done(Ok(_))) => {
                self.phase = LocalsPhase::Group;
                Next::Ask(Request::GetScopeSymbolGroup)
            },
            (LocalsPhase::Group, Answer::Done(Err(e))) => self.finish(
                Err(EngineError::op("GetScopeSymbolGroup2", e)),
            ),
            (LocalsPhase::Group, Answer::Done(Ok(_))) => {
                self.phase = LocalsPhase::Count;
                Next::Ask(Request::GetNumberSymbols)
            },
            (LocalsPhase::Count, Answer::Number(Err(e))) => self.finish(
                Err(EngineError::op("GetNumberSymbols", e)),
            ),
            (LocalsPhase::Count, Answer::Number(Ok(n))) => {
                self.phase = LocalsPhase::Symbols(n);
                Next::Ask(Request::DescribeSymbols(n))
            },
            (LocalsPhase::Symbols(_), Answer::Locals(raw)) => self.finish(Ok(variable_list(raw))),
            (LocalsPhase::Reset(result), Answer::Done(_)) => Next::End(result),
            _ => {
                assert(false);
                Next::End(Ok(Vec::new()))
            },
        }
    }

    fn finish(&mut self, result: Result<Vec<Variable>, EngineError>) -> (r: Next<Vec<Variable>>)
        requires
            old(self).phase is Over,
        ensures
            final(self).frame_index == old(self).frame_index,
            old(self).finished(*final(self), r) == Some(result),
    {
        if self.frame_index > 0 {
            self.phase = LocalsPhase::Reset(result);
            Next::Ask(Request::ResetScope)
        } else {
            Next::End(result)
        }
    }
}

/// The refusal of a frame that the stack does not have.
fn no_frame(frame_index: i64, filled: u64) -> (r: EngineError)
    ensures
        r.is_engine(no_frame_text(frame_index as int, filled as int)),
{
    let tail: String = text2(render_u64(filled).as_str(), " frames)");
    let message: String = text4(
        "locals: frame ",
        render_i64(frame_index).as_str(),
        " is out of range (",
        tail.as_str(),
    );
    EngineError::engine(message.as_str())
}

/// The variables that the engine described.
pub fn variable_list(raw: Vec<RawVariable>) -> (r: Vec<Variable>)
    ensures
        are_variables(raw@, r@),
{
    let mut out: Vec<Variable> = Vec::new();
    let ghost all = raw@;
    for found in it: raw
        invariant
            it.seq() == all,
            are_variables(all.take(it.index()), out@),
    {
        out.push(
            Variable {
                name: name_or_empty(found.name),
                value: name_or_empty(found.value),
                ty: name_or_empty(found.ty),
                variables_reference: 0,
                named: 0,
                indexed: 0,
            },
        );
    }
    assert(all.take(all.len() as int) =~= all);
    out
}

impl Engine {
    /// Begins to read the locals of a frame.
    pub fn locals(&self, frame_index: i64) -> (r: (LocalsFlow, Request))
        requires
            frame_index < i64::MAX,
        ensures
            r.0.frame_index == frame_index,
            r.0.phase == (if frame_index > 0 {
                LocalsPhase::Stack
            } else {
                LocalsPhase::Group
            }),
            r.0.asked(r.1),
            frame_index > 0 ==> (r.1 matches Request::GetStackTrace(frames) && frames
                == frame_index + 1),
            frame_index <= 0 ==> r.1 == Request::GetScopeSymbolGroup,
    {
        if frame_index > 0 {
            (
                LocalsFlow { frame_index, phase: LocalsPhase::Stack },
                Request::GetStackTrace((frame_index + 1) as u64),
            )
        } else {
            (LocalsFlow { frame_index, phase: LocalsPhase::Group }, Request::GetScopeSymbolGroup)
        }
    }
}

} // verus!
