//! Concurrent streaming: any number of independent streams per name, each
//! polling its own processor until its consumer stops.
use vstd::prelude::*;

use crate::action::CuteStream;
use crate::{open_checked, CuteError, CuteProc};

verus! {

/// The concurrent-stream manager; it holds no state.
pub struct NoneMapper {}

impl NoneMapper {
    pub fn new() -> (r: Self) {
        NoneMapper {}
    }

    /// Prepares `proc` for streaming: `open` then `valid_check`.
    pub fn register<P: CuteProc>(&mut self, proc: &mut P, data: &[u8]) -> (r: Result<(), CuteError>)
        ensures
            r is Err ==> r->Err_0 is Processor,
    {
        open_checked(proc, data)
    }

    /// A stream over `proc` that carries no token and so never ends by itself.
    pub fn call<P: CuteProc>(&mut self, proc: P) -> (s: CuteStream<P>)
        ensures
            s.token_spec() is None,
            !s.ended_spec(),
    {
        CuteStream::new(proc, None)
    }
}

impl Default for NoneMapper {
    fn default() -> (r: Self) {
        NoneMapper::new()
    }
}

} // verus!
