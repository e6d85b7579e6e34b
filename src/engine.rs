//! The process-wide state of the engine: whether it has been started.
use vstd::prelude::*;

verus! {

/// Whether the engine has been started and not torn down since. Sessions
/// may be constructed, and default limits queried, only while it holds.
#[derive(Clone, Copy, Debug, PartialEq, Eq, Structural)]
pub struct EngineState {
    pub initialized: bool,
}

impl EngineState {
    /// The state before the engine's startup routine has run.
    pub fn new() -> (r: EngineState)
        ensures
            !r.initialized,
    {
        EngineState { initialized: false }
    }

    /// Records the status the engine's startup routine returned. A zero
    /// status is a failure and leaves the state as it was.
    pub fn initialize(&mut self, status: i32) -> (r: Result<(), &'static str>)
        ensures
            r is Ok <==> status != 0,
            r is Err ==> r->Err_0@ == "Couldn't initialize GLSLang"@,
            final(self).initialized == (old(self).initialized || status != 0),
    {
        if status == 0 {
            Err("Couldn't initialize GLSLang")
        } else {
            self.initialized = true;
            Ok(())
        }
    }

    /// Records the status the engine's teardown routine returned. A zero
    /// status is a failure and leaves the state as it was.
    pub fn finalize(&mut self, status: i32) -> (r: Result<(), &'static str>)
        ensures
            r is Ok <==> status != 0,
            r is Err ==> r->Err_0@ == "Couldn't finalize GLSLang"@,
            final(self).initialized == (old(self).initialized && status == 0),
    {
        if status == 0 {
            Err("Couldn't finalize GLSLang")
        } else {
            self.initialized = false;
            Ok(())
        }
    }
}

} // verus!
