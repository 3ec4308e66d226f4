//! Listing the loaded modules.
use super::Engine;
use super::host::{Answer, Next, RawModule, Request};
use super::inspect::{name_or_empty, optional_name};
use crate::error::EngineError;
use crate::text::{address_text, decimal, render_address, render_u64};
use crate::types::ModuleInfo;
use vstd::prelude::*;
use vstd::string::*;

verus! {

broadcast use vstd::string::group_string_axioms;

pub const DEBUG_SYMTYPE_NONE: u32 = 0;

pub const DEBUG_SYMTYPE_COFF: u32 = 1;

pub const DEBUG_SYMTYPE_CODEVIEW: u32 = 2;

pub const DEBUG_SYMTYPE_PDB: u32 = 3;

pub const DEBUG_SYMTYPE_EXPORT: u32 = 4;

pub const DEBUG_SYMTYPE_DEFERRED: u32 = 5;

pub const DEBUG_SYMTYPE_SYM: u32 = 6;

pub const DEBUG_SYMTYPE_DIA: u32 = 7;

/// What is said of a kind of symbols: `pdb` of every kind that resolves names, `export` of an
/// export table, `deferred` of symbols that are not loaded yet, and `none` of the rest.
pub open spec fn symbol_status_text(symbol_type: u32) -> Seq<char> {
    if symbol_type == DEBUG_SYMTYPE_PDB || symbol_type == DEBUG_SYMTYPE_CODEVIEW || symbol_type
        == DEBUG_SYMTYPE_COFF || symbol_type == DEBUG_SYMTYPE_SYM || symbol_type
        == DEBUG_SYMTYPE_DIA {
        "pdb"@
    } else if symbol_type == DEBUG_SYMTYPE_EXPORT {
        "export"@
    } else if symbol_type == DEBUG_SYMTYPE_DEFERRED {
        "deferred"@
    } else {
        "none"@
    }
}

/// What is said of a kind of symbols.
pub fn symbol_status(symbol_type: u32) -> (r: String)
    ensures
        r@ == symbol_status_text(symbol_type),
{
    if symbol_type == DEBUG_SYMTYPE_PDB || symbol_type == DEBUG_SYMTYPE_CODEVIEW || symbol_type
        == DEBUG_SYMTYPE_COFF || symbol_type == DEBUG_SYMTYPE_SYM || symbol_type
        == DEBUG_SYMTYPE_DIA {
        "pdb".to_owned()
    } else if symbol_type == DEBUG_SYMTYPE_EXPORT {
        "export".to_owned()
    } else if symbol_type == DEBUG_SYMTYPE_DEFERRED {
        "deferred".to_owned()
    } else {
        "none".to_owned()
    }
}

/// The modules that could be read, in their order.
pub open spec fn readable(raw: Seq<Option<RawModule>>) -> Seq<RawModule>
    decreases raw.len(),
{
    if raw.len() == 0 {
        Seq::empty()
    } else {
        match raw.last() {
            Some(module) => readable(raw.drop_last()).push(module),
            None => readable(raw.drop_last()),
        }
    }
}

/// Whether `info` is what the engine described; what is missing is empty, zero or `none`.
pub open spec fn is_module(raw: RawModule, info: ModuleInfo) -> bool {
    &&& info.name@ == optional_name(raw.name)
    &&& info.base@ == address_text(raw.base as nat)
    &&& info.size@ == decimal(
        match raw.params {
            Some(params) => params.0 as int,
            None => 0,
        },
    )
    &&& info.symbol_status@ == match raw.params {
        Some(params) => symbol_status_text(params.1),
        None => "none"@,
    }
}

/// Whether `modules` are the modules that could be read.
pub open spec fn are_modules(raw: Seq<Option<RawModule>>, modules: Seq<ModuleInfo>) -> bool {
    &&& modules.len() == readable(raw).len()
    &&& forall|i: int|
        0 <= i < modules.len() ==> is_module(readable(raw)[i], #[trigger] modules[i])
}

/// What listing the modules is waiting for.
pub enum ModulesPhase {
    Count,
    Describe(u32),
    Over,
}

/// The listing of the modules.
pub struct ModulesFlow {
    pub phase: ModulesPhase,
}

impl ModulesFlow {
    /// What the listing has asked for.
    pub open spec fn asked(self, request: Request) -> bool {
        match self.phase {
            ModulesPhase::Count => request == Request::GetNumberModules,
            ModulesPhase::Describe(n) => request == Request::DescribeModules(n),
            ModulesPhase::Over => false,
        }
    }

    /// Whether `answer` answers what the listing has asked for.
    pub open spec fn expects(self, answer: Answer) -> bool {
        exists|request: Request| self.asked(request) && #[trigger] request.answered_by(answer)
    }

    /// How a listing goes on from one answer to the next question.
    pub open spec fn steps(
        self,
        answer: Answer,
        after: ModulesFlow,
        next: Next<Vec<ModuleInfo>>,
    ) -> bool {
        match (self.phase, answer) {
            (ModulesPhase::Count, Answer::Number(Err(e))) => after.phase is Over && next.fails_op(
                "GetNumberModules"@,
                e,
            ),
            (ModulesPhase::Count, Answer::Number(Ok(n))) => after.phase == ModulesPhase::Describe(n)
                && next == Next::<Vec<ModuleInfo>>::Ask(Request::DescribeModules(n)),
            (ModulesPhase::Describe(_), Answer::Modules(raw)) => after.phase is Over && (
            next matches Next::End(Ok(modules)) && are_modules(raw@, modules@)),
            _ => false,
        }
    }

    /// Goes on from an answer.
    pub fn resume(&mut self, answer: Answer) -> (r: Next<Vec<ModuleInfo>>)
        requires
            old(self).expects(answer),
        ensures
            old(self).steps(answer, *final(self), r),
    {
        let mut phase = ModulesPhase::Over;
        std::mem::swap(&mut phase, &mut self.phase);
        match (phase, answer) {
            (ModulesPhase::Count, Answer::Number(Err(e))) => Next::End(
                Err(EngineError::op("GetNumberModules", e)),
            ),
            (ModulesPhase::Count, Answer::Number(Ok(n))) => {
                self.phase = ModulesPhase::Describe(n);
                Next::Ask(Request::DescribeModules(n))
            },
            (ModulesPhase::Describe(_), Answer::Modules(raw)) => Next::End(Ok(module_list(raw))),
            _ => {
                assert(false);
                Next::End(Ok(Vec::new()))
            },
        }
    }
}

/// The modules that could be read.
pub fn module_list(raw: Vec<Option<RawModule>>) -> (r: Vec<ModuleInfo>)
    ensures
        are_modules(raw@, r@),
{
    let mut out: Vec<ModuleInfo> = Vec::new();
    let ghost all = raw@;
    for found in it: raw
        invariant
            it.seq() == all,
            are_modules(all.take(it.index()), out@),
    {
        assert(all.take(it.index() + 1).drop_last() =~= all.take(it.index()));
        assert(all.take(it.index() + 1).last() == found);
        match found {
            Some(module) => {
                let (size, symbol_status) = match module.params {
                    Some(params) => (render_u64(params.0 as u64), symbol_status(params.1)),
                    None => (render_u64(0), "none".to_owned()),
                };
                out.push(
                    ModuleInfo {
                        name: name_or_empty(module.name),
                        base: render_address(module.base),
                        size,
                        symbol_status,
                    },
                );
            },
            None => {},
        }
    }
    assert(all.take(all.len() as int) =~= all);
    out
}

impl Engine {
    /// Begins to list the modules.
    pub fn modules(&self) -> (r: (ModulesFlow, Request))
        ensures
            r.0.phase is Count,
            r.0.asked(r.1),
            r.1 == Request::GetNumberModules,
    {
        (ModulesFlow { phase: ModulesPhase::Count }, Request::GetNumberModules)
    }
}

} // verus!
