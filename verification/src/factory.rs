//! The backend factories, and what a connection reports.
use crate::capabilities::BackendCapabilities;
use crate::error::{BackendError, EngineError, WINDBG};
use crate::text::text2;
use vstd::prelude::*;
use vstd::string::*;

verus! {

broadcast use vstd::string::group_string_axioms;

/// Something that connects to a debugger. It has a name, and says what its backends can do.
pub trait BackendFactory {
    /// The name.
    closed spec fn named(&self) -> Seq<char> {
        Seq::empty()
    }

    /// What the backends can do.
    closed spec fn capable(&self) -> BackendCapabilities {
        BackendCapabilities::none()
    }

    /// The name.
    fn name(&self) -> (r: &'static str)
        ensures
            r@ == self.named(),
    ;

    /// What the backends can do.
    fn capabilities(&self) -> (r: BackendCapabilities)
        ensures
            r == self.capable(),
    ;
}

/// The factory of the WinDbg backend.
#[derive(Debug, Clone, Copy, PartialEq, Eq, Structural)]
pub struct WinDbgFactory;

impl WinDbgFactory {
    /// The factory.
    pub fn new() -> (r: WinDbgFactory)
        ensures
            r == WinDbgFactory,
    {
        WinDbgFactory
    }
}

impl Default for WinDbgFactory {
    fn default() -> (r: WinDbgFactory)
        ensures
            r == WinDbgFactory,
    {
        WinDbgFactory
    }
}

impl BackendFactory for WinDbgFactory {
    open spec fn named(&self) -> Seq<char> {
        WINDBG@
    }

    open spec fn capable(&self) -> BackendCapabilities {
        BackendCapabilities::all()
    }

    fn name(&self) -> (r: &'static str) {
        WINDBG
    }

    fn capabilities(&self) -> (r: BackendCapabilities) {
        BackendCapabilities { crash_dump: true, kernel: true, analyze: true, modules: true }
    }
}

/// How many commands may wait for the engine thread of a connection.
pub const CMD_BUFFER: usize = 8;

/// What a connection reports once the engine thread has signalled: nothing when it is ready, and
/// otherwise why it is not. No signal comes from a thread that ended before it could send one.
pub fn engine_ready(signal: Option<Result<(), EngineError>>) -> (r: Result<(), BackendError>)
    ensures
        match signal {
            Some(Ok(_)) => r is Ok,
            Some(Err(e)) => r matches Err(BackendError::Detect(m)) && m@
                == "failed to initialize DbgEng: "@ + e.shown(),
            None => r matches Err(BackendError::Spawn(m)) && m@
                == "failed to initialize DbgEng: engine thread exited before readiness"@,
        },
{
    match signal {
        Some(Ok(_)) => Ok(()),
        Some(Err(e)) => Err(
            BackendError::Detect(text2("failed to initialize DbgEng: ", e.to_string().as_str())),
        ),
        None => Err(
            BackendError::Spawn(
                "failed to initialize DbgEng: engine thread exited before readiness".to_owned(),
            ),
        ),
    }
}

/// What a connection reports of the receiver of the output: whether the engine thread could still
/// be told to install it.
pub fn sink_installed(sent: bool) -> (r: Result<(), BackendError>)
    ensures
        r is Ok <==> sent,
        r matches Err(e) ==> (e matches BackendError::Spawn(m) && m@
            == "failed to initialize DbgEng: engine thread closed before sink install"@),
{
    if sent {
        Ok(())
    } else {
        Err(
            BackendError::Spawn(
                "failed to initialize DbgEng: engine thread closed before sink install".to_owned(),
            ),
        )
    }
}

} // verus!
