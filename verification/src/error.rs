//! Errors of the engine layer and of the neutral backend seam.
use crate::text::{fixed_hex, render_hex8, text2};
use vstd::prelude::*;
use vstd::string::*;

verus! {

broadcast use vstd::string::group_string_axioms;

/// A failed COM call: its `HRESULT` and the text that describes it.
#[derive(Debug, PartialEq, Eq)]
pub struct ComError {
    pub code: i32,
    pub message: String,
}

impl Clone for ComError {
    fn clone(&self) -> (r: Self)
        ensures
            r == *self,
    {
        ComError { code: self.code, message: self.message.clone() }
    }
}

/// The generic failure `HRESULT`, `0x80004005`.
pub const E_FAIL: i32 = -2147467259;

/// The 32 bits of an `HRESULT`, read as an unsigned number.
pub open spec fn hresult_bits(code: i32) -> nat {
    (if code < 0 {
        code + 0x1_0000_0000
    } else {
        code as int
    }) as nat
}

/// A failure of the engine layer: a COM call that failed, under the name of the operation, or a
/// refusal of the engine itself with a message of its own.
#[derive(Debug, PartialEq, Eq)]
pub enum EngineError {
    Com { context: &'static str, source: ComError },
    Engine(String),
}

impl EngineError {
    /// Whether this is the failure of the operation `context` with the COM error `source`.
    pub open spec fn is_op(self, context: Seq<char>, source: ComError) -> bool {
        self matches EngineError::Com { context: c, source: s } && c@ == context && s == source
    }

    /// Whether this is a refusal with the message `message`.
    pub open spec fn is_engine(self, message: Seq<char>) -> bool {
        self matches EngineError::Engine(m) && m@ == message
    }

    /// The message that is shown for this error.
    pub open spec fn shown(self) -> Seq<char> {
        match self {
            EngineError::Com { context, source } => context@ + " failed: "@ + (seq!['0', 'x']
                + fixed_hex(hresult_bits(source.code), 8, false)) + " ("@ + source.message@ + ")"@,
            EngineError::Engine(message) => message@,
        }
    }

    /// The failure of a COM operation.
    pub fn op(context: &'static str, source: ComError) -> (r: EngineError)
        ensures
            r.is_op(context@, source),
    {
        EngineError::Com { context, source }
    }

    /// A refusal of the engine, with its message.
    pub fn engine(message: &str) -> (r: EngineError)
        ensures
            r.is_engine(message@),
    {
        EngineError::Engine(message.to_owned())
    }

    /// The name of the operation that failed; `engine` for a refusal.
    pub fn context(&self) -> (r: &'static str)
        ensures
            match *self {
                EngineError::Com { context, .. } => r@ == context@,
                EngineError::Engine(_) => r@ == "engine"@,
            },
    {
        match self {
            EngineError::Com { context, .. } => *context,
            EngineError::Engine(_) => "engine",
        }
    }

    /// The failing `HRESULT`; the generic failure for a refusal.
    pub fn hresult(&self) -> (r: i32)
        ensures
            match *self {
                EngineError::Com { source, .. } => r == source.code,
                EngineError::Engine(_) => r == E_FAIL,
            },
    {
        match self {
            EngineError::Com { source, .. } => source.code,
            EngineError::Engine(_) => E_FAIL,
        }
    }

    /// The message that is shown for this error.
    pub fn to_string(&self) -> (r: String)
        ensures
            r@ == self.shown(),
    {
        match self {
            EngineError::Com { context, source } => {
                let bits: u32 = if source.code < 0 {
                    (source.code as i64 + 0x1_0000_0000) as u32
                } else {
                    source.code as u32
                };
                let mut out: String = text2(context, " failed: ");
                out.append(render_hex8(bits, false).as_str());
                out.append(" (");
                out.append(source.message.as_str());
                out.append(")");
                out
            },
            EngineError::Engine(message) => message.clone(),
        }
    }
}

/// A failure at the neutral seam: the backend could not be found or started, the debugger
/// reported an error, the connection is gone, or the backend does not have the tool.
#[derive(Debug, PartialEq, Eq)]
pub enum BackendError {
    Detect(String),
    Spawn(String),
    Dap { message: String },
    Closed,
    Unsupported(&'static str),
}

impl BackendError {
    /// Whether this is an error that the debugger reported with the message `message`.
    pub open spec fn is_dap(self, message: Seq<char>) -> bool {
        self matches BackendError::Dap { message: m } && m@ == message
    }

    /// The message that is shown for this error.
    pub open spec fn shown(self) -> Seq<char> {
        match self {
            BackendError::Detect(message) => message@,
            BackendError::Spawn(message) => message@,
            BackendError::Dap { message } => message@,
            BackendError::Closed => "connection closed"@,
            BackendError::Unsupported(tool) => "unsupported: "@ + tool@,
        }
    }

    /// The message that is shown for this error.
    pub fn to_string(&self) -> (r: String)
        ensures
            r@ == self.shown(),
    {
        match self {
            BackendError::Detect(message) => message.clone(),
            BackendError::Spawn(message) => message.clone(),
            BackendError::Dap { message } => message.clone(),
            BackendError::Closed => "connection closed".to_owned(),
            BackendError::Unsupported(tool) => text2("unsupported: ", tool),
        }
    }
}

/// An engine failure as the neutral seam reports it: its shown message.
pub fn map_engine_err(err: EngineError) -> (r: BackendError)
    ensures
        r.is_dap(err.shown()),
{
    BackendError::Dap { message: err.to_string() }
}

/// The name of the WinDbg backend.
pub const WINDBG: &'static str = "windbg";

/// What a failed connection is reported as: in the words of the backend that was asked, and
/// otherwise under its name.
pub open spec fn connect_error_text(name: Seq<char>, err: BackendError) -> Seq<char> {
    match err {
        BackendError::Detect(m) => if name == "lldb"@ {
            "failed to find lldb-dap: "@ + m@
        } else if name == "windbg"@ {
            "Debugging Tools for Windows not found: "@ + m@
        } else {
            "failed to find "@ + name + ": "@ + m@
        },
        BackendError::Spawn(m) => if name == "lldb"@ {
            "failed to spawn lldb-dap: "@ + m@
        } else if name == "windbg"@ {
            "failed to initialize DbgEng: "@ + m@
        } else {
            "failed to spawn "@ + name + ": "@ + m@
        },
        _ => err.shown(),
    }
}

/// Renders a failed connection to the backend `name`.
pub fn connect_error(name: &str, err: BackendError) -> (r: String)
    ensures
        r@ == connect_error_text(name@, err),
{
    let lldb: bool = crate::text::same_text(name, "lldb");
    let windbg: bool = crate::text::same_text(name, "windbg");
    match err {
        BackendError::Detect(m) => if lldb {
            text2("failed to find lldb-dap: ", m.as_str())
        } else if windbg {
            text2("Debugging Tools for Windows not found: ", m.as_str())
        } else {
            crate::text::text4("failed to find ", name, ": ", m.as_str())
        },
        BackendError::Spawn(m) => if lldb {
            text2("failed to spawn lldb-dap: ", m.as_str())
        } else if windbg {
            text2("failed to initialize DbgEng: ", m.as_str())
        } else {
            crate::text::text4("failed to spawn ", name, ": ", m.as_str())
        },
        other => other.to_string(),
    }
}

} // verus!
