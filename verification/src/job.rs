use vstd::prelude::*;

verus! {

/// A one-shot unit of work: a deferred computation with no return value,
/// runnable exactly once. A `Job` is created by a producer, owned by the
/// work queue while queued, and consumed by the single worker that runs it.
///
/// The boxed closure inside is opaque to verification; the constructor
/// demands that the closure is callable (its precondition holds), so that
/// running it later cannot violate any contract.
#[verifier::external_body]
pub struct Job {
    run_once: Box<dyn FnOnce() + Send + 'static>,
}

impl Job {
    /// Relies on `Box::new`: stores the closure unchanged, to be run exactly once.
    #[verifier::external_body]
    pub fn new<F: FnOnce() + Send + 'static>(f: F) -> (job: Job)
        requires
            call_requires(f, ()),
    {
        Job { run_once: Box::new(f) }
    }

    /// Relies on `FnOnce::call_once` through `Box`: runs the stored closure
    /// exactly once, consuming the job. The closure produces no result; a
    /// fault inside it is not caught here (it ends the calling thread).
    /// Public so that contracts can state that a worker ran its job.
    #[verifier::external_body]
    pub fn run(self) {
        (self.run_once)()
    }
}

} // verus!
