//! The unit of work that the pool carries from callers to workers.

use vstd::prelude::*;

verus! {

/// An owned, run-once unit of work. The stored closure is opaque to the
/// verifier; `new` demands that it is safe to call, so that a worker may
/// run whatever job it dequeues.
///
/// Relies on `Box<dyn FnOnce() + Send>`: the closure is stored unchanged,
/// can cross a thread boundary, and is dispatched at most once.
#[verifier::external_body]
pub(crate) struct Job {
    f: Box<dyn FnOnce() + Send + 'static>,
}

impl Job {
    /// Relies on `Box::new`: the closure is boxed without being called.
    #[verifier::external_body]
    pub(crate) fn new<F: FnOnce() + Send + 'static>(f: F) -> Job
        requires
            f.requires(()),
    {
        Job { f: Box::new(f) }
    }

    /// Runs the stored closure, consuming the job.
    ///
    /// Relies on `FnOnce` dispatch through `Box`: the closure runs exactly
    /// once. A closure that itself panics tears down the calling thread;
    /// the pool documents this as the job body's own concern.
    #[verifier::external_body]
    pub(crate) fn run(self) {
        (self.f)()
    }
}

} // verus!
