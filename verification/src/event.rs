//! Events that a backend reports while it is connected.
use vstd::prelude::*;

verus! {

/// One backend event: a line of output, or the end of the session.
#[derive(Debug, Clone, PartialEq, Eq)]
pub enum BackendEvent {
    Output { category: String, text: String },
    Terminated { code: Option<i64> },
}

} // verus!
