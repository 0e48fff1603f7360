use vstd::prelude::*;

use crate::job::Job;
use crate::queue::recv_message;

verus! {

/// A message carried by the shared work queue.
pub enum Message {
    /// Do work: run the carried job.
    NewJob(Job),
    /// Safely terminate the worker that consumes this message.
    Terminate,
}

/// A worker: an integer identity plus an owned handle to its dedicated
/// execution thread. The handle type `H` is supplied by the embedding
/// program together with the spawn and join effects, since this library
/// performs no thread management of its own. The handle is consumed exactly
/// once, at teardown, by joining the thread; afterwards it is `None`.
pub struct Worker<H> {
    /// Worker id, used only for diagnostics.
    pub id: usize,
    /// Handle to the worker's execution thread; `None` once joined.
    pub thread: Option<H>,
}

/// Act on one received message: run the carried job to completion on the
/// calling thread, or recognise the signal to stop. Returns whether the
/// worker should keep receiving: it stops exactly on `Terminate`, and on a
/// closed channel (every producer handle dropped), which is treated as an
/// implicit terminate.
pub fn run_message(message: Option<Message>) -> (keep_running: bool)
    ensures
        keep_running <==> message matches Some(Message::NewJob(_)),
        message matches Some(Message::NewJob(j)) ==> call_ensures(Job::run, (j,), ()),
{
    match message {
        Some(Message::NewJob(job)) => {
            job.run();
            true
        },
        Some(Message::Terminate) => false,
        None => false,
    }
}

/// One step of a worker's receive loop: block for the next message on the
/// shared queue, act on it, and report whether the worker should keep
/// receiving. Whatever message the queue hands out, the step runs a carried
/// job and continues, or stops exactly on a terminate signal or a closed
/// channel. The embedding program drives each worker thread by calling this
/// in a loop until it returns false (the loop itself lives outside the
/// library because its iteration count is unbounded).
pub fn worker_step(receiver: &crossbeam_channel::Receiver<Message>) -> (keep_running: bool)
    ensures
        exists|m: Option<Message>|
            call_ensures(recv_message, (receiver,), m) && (keep_running <==> m matches Some(
                Message::NewJob(_),
            )) && (m matches Some(Message::NewJob(j)) ==> call_ensures(Job::run, (j,), ())),
{
    let message = recv_message(receiver);
    run_message(message)
}

impl<H> Worker<H> {
    /// Create a new worker: start its execution thread immediately through
    /// the given spawn effect, which receives the consumer handle and must
    /// put the new thread into the receive loop on it. The returned worker
    /// carries the requested id, and its stored handle is the spawn
    /// effect's result on the given consumer handle.
    pub fn new<F: Fn(crossbeam_channel::Receiver<Message>) -> H>(
        id: usize,
        receiver: crossbeam_channel::Receiver<Message>,
        spawn_thread: &F,
    ) -> (worker: Worker<H>)
        requires
            call_requires(*spawn_thread, (receiver,)),
        ensures
            worker.id == id,
            worker.thread is Some,
            worker.thread matches Some(h) ==> call_ensures(*spawn_thread, (receiver,), h),
    {
        let handle = (*spawn_thread)(receiver);
        Worker { id, thread: Some(handle) }
    }

    /// Wait for this worker's thread to finish by handing its thread handle
    /// to the given join effect, consuming the handle: the effect is invoked
    /// on exactly the stored handle. This is a one-time operation: the
    /// handle must still be present, and it is gone afterwards. Joining
    /// before the worker has been signalled to terminate blocks until the
    /// worker exits on its own.
    pub fn join<F: FnOnce(H)>(&mut self, join_thread: F)
        requires
            old(self).thread is Some,
            forall|h: H| call_requires(join_thread, (h,)),
        ensures
            final(self).id == old(self).id,
            final(self).thread is None,
            call_ensures(join_thread, (old(self).thread->Some_0,), ()),
    {
        let handle = self.thread.take();
        match handle {
            Some(h) => join_thread(h),
            None => {},
        }
    }
}

} // verus!
