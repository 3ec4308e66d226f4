//! What a backend can do beyond the common tool set, known without connecting to it.
use vstd::prelude::*;

verus! {

/// The optional tools that a backend supports; none by default.
#[derive(Debug, Clone, Copy, PartialEq, Eq, Structural)]
pub struct BackendCapabilities {
    /// `open_crash_dump`: open a crash dump.
    pub crash_dump: bool,
    /// `attach_kernel`: attach to a kernel target.
    pub kernel: bool,
    /// `analyze_crash`: automated crash analysis.
    pub analyze: bool,
    /// `get_modules`: list the loaded modules.
    pub modules: bool,
}

impl BackendCapabilities {
    /// Nothing beyond the common tool set.
    pub open spec fn none() -> BackendCapabilities {
        BackendCapabilities { crash_dump: false, kernel: false, analyze: false, modules: false }
    }

    /// Every optional tool.
    pub open spec fn all() -> BackendCapabilities {
        BackendCapabilities { crash_dump: true, kernel: true, analyze: true, modules: true }
    }

    /// What either of two backends supports.
    pub open spec fn union(self, other: BackendCapabilities) -> BackendCapabilities {
        BackendCapabilities {
            crash_dump: self.crash_dump || other.crash_dump,
            kernel: self.kernel || other.kernel,
            analyze: self.analyze || other.analyze,
            modules: self.modules || other.modules,
        }
    }

    /// Whether everything that `self` supports, `other` supports too.
    pub open spec fn within(self, other: BackendCapabilities) -> bool {
        self.union(other) == other
    }
}

impl Default for BackendCapabilities {
    fn default() -> (r: BackendCapabilities)
        ensures
            r == BackendCapabilities::none(),
    {
        BackendCapabilities { crash_dump: false, kernel: false, analyze: false, modules: false }
    }
}

/// What any of the backends of a list supports.
pub open spec fn union_of(list: Seq<BackendCapabilities>) -> BackendCapabilities
    decreases list.len(),
{
    if list.len() == 0 {
        BackendCapabilities::none()
    } else {
        union_of(list.drop_last()).union(list.last())
    }
}

/// A tool is in the union exactly when some backend supports it.
pub proof fn union_has_what_some_backend_has(list: Seq<BackendCapabilities>)
    ensures
        union_of(list).crash_dump <==> exists|i: int|
            0 <= i < list.len() && (#[trigger] list[i]).crash_dump,
        union_of(list).kernel <==> exists|i: int|
            0 <= i < list.len() && (#[trigger] list[i]).kernel,
        union_of(list).analyze <==> exists|i: int|
            0 <= i < list.len() && (#[trigger] list[i]).analyze,
        union_of(list).modules <==> exists|i: int|
            0 <= i < list.len() && (#[trigger] list[i]).modules,
    decreases list.len(),
{
    if list.len() > 0 {
        let rest = list.drop_last();
        union_has_what_some_backend_has(rest);
        assert forall|i: int| 0 <= i < rest.len() implies #[trigger] rest[i] == list[i] by {}
        assert forall|i: int| 0 <= i < rest.len() implies #[trigger] list[i] == rest[i] by {}
        assert(list[list.len() - 1] == list.last());
    }
}

} // verus!
