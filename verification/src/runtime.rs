//! Process-wide lifecycle of the embedded runtime.
//!
//! The runtime is prepared exactly once, at process startup, before the first
//! dispatched run tries to acquire it; a failure there is fatal to the host,
//! which must not proceed with an unusable runtime. Preparing it is
//! idempotent: a redundant call leaves a prepared runtime prepared.

use vstd::prelude::*;

verus! {

/// Whether the embedded runtime has been prepared for use from many threads.
pub struct RuntimeLifecycle {
    pub initialized: bool,
}

impl RuntimeLifecycle {
    /// At process start the runtime is not yet prepared.
    pub fn new() -> (r: RuntimeLifecycle)
        ensures
            !r.initialized,
    {
        RuntimeLifecycle { initialized: false }
    }

    /// Prepare the embedded runtime. Idempotent: after the call the runtime
    /// is prepared, whether or not it already was.
    pub fn initialize(&mut self)
        ensures
            final(self).initialized,
    {
        self.initialized = true;
    }

    /// Whether a worker may acquire the runtime.
    pub fn is_initialized(&self) -> (r: bool)
        ensures
            r == self.initialized,
    {
        self.initialized
    }
}

} // verus!
