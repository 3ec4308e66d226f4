//! The COM apartment of the engine thread.
use crate::error::{ComError, EngineError};
use vstd::prelude::*;

verus! {

pub const S_OK: i32 = 0;

pub const S_FALSE: i32 = 1;

/// A multithreaded COM apartment that was entered on the current thread, and has to be left on
/// it again.
#[derive(Debug, PartialEq, Eq)]
pub struct ComApartment {
    initialized: bool,
}

impl ComApartment {
    /// Whether the apartment was entered and is still to be left.
    pub closed spec fn entered(&self) -> bool {
        self.initialized
    }

    /// The apartment, from the `HRESULT` of entering it. Entering it once more on the same thread
    /// succeeds as well, and has to be undone as well.
    pub fn new(hr: ComError) -> (r: Result<ComApartment, EngineError>)
        ensures
            r is Ok <==> hr.code == S_OK || hr.code == S_FALSE,
            r matches Ok(apartment) ==> apartment.entered(),
            r matches Err(e) ==> e.is_op("CoInitializeEx"@, hr),
    {
        if hr.code == S_OK || hr.code == S_FALSE {
            Ok(ComApartment { initialized: true })
        } else {
            Err(EngineError::op("CoInitializeEx", hr))
        }
    }

    /// Whether the apartment has to be left now. It is left once.
    pub fn leave(&mut self) -> (r: bool)
        ensures
            r == old(self).entered(),
            !final(self).entered(),
    {
        let entered: bool = self.initialized;
        self.initialized = false;
        entered
    }
}

} // verus!
