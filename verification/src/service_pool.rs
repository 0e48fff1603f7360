use vstd::prelude::*;

use crate::job::Job;
use crate::queue::{clone_receiver, message_channel, send_message};
use crate::worker::{Message, Worker};

verus! {

/// The error a pool constructor reports on a bad configuration.
#[derive(Debug, PartialEq, Eq, Structural)]
pub enum PoolError {
    /// A pool of size zero could never run a job.
    ZeroSize,
}

/// Number of workers in the sequence whose thread handle is still present.
pub open spec fn live_count<H>(workers: Seq<Worker<H>>) -> nat
    decreases workers.len(),
{
    if workers.len() == 0 {
        0
    } else {
        live_count(workers.drop_last()) + if workers.last().thread is Some {
            1nat
        } else {
            0nat
        }
    }
}

/// A fixed-size pool of workers plus the producer handle of the shared work
/// queue. The number of workers is fixed for the pool's lifetime; the
/// producer handle stays valid until teardown. Thread management is supplied
/// by the embedding program as spawn and join effects over a handle type `H`.
pub struct ServicePool<H> {
    workers: Vec<Worker<H>>,
    sender: crossbeam_channel::Sender<Message>,
}

/// A pool is seen abstractly as the sequence of its workers.
impl<H> View for ServicePool<H> {
    type V = Seq<Worker<H>>;

    closed spec fn view(&self) -> Seq<Worker<H>> {
        self.workers@
    }
}

impl<H> ServicePool<H> {
    /// Each worker sits at the index equal to its id.
    pub open spec fn wf(self) -> bool {
        forall|i: int| 0 <= i < self@.len() ==> (#[trigger] self@[i]).id == i
    }

    /// The fixed number of workers.
    pub open spec fn size_spec(self) -> nat {
        self@.len()
    }

    /// Every worker still owns its thread handle (no join has happened).
    pub open spec fn all_live(self) -> bool {
        forall|i: int| 0 <= i < self@.len() ==> (#[trigger] self@[i]).thread is Some
    }

    /// Every worker's thread handle has been consumed by a join.
    pub open spec fn all_stopped(self) -> bool {
        forall|i: int| 0 <= i < self@.len() ==> (#[trigger] self@[i]).thread is None
    }

    /// The producer handle of the pool's work queue, for contracts that
    /// state what was handed to the queue.
    pub closed spec fn spec_sender(self) -> crossbeam_channel::Sender<Message> {
        self.sender
    }

    /// Create a pool of `size` workers sharing one work queue. A size of
    /// zero is a configuration error: the pool fails fast and starts no
    /// worker. Otherwise exactly `size` workers are created, with ids
    /// `0` up to `size - 1` in order, each started at once through the
    /// spawn effect on its own clone of the queue's consumer handle.
    pub fn new<F: Fn(crossbeam_channel::Receiver<Message>) -> H>(
        size: usize,
        spawn_thread: F,
    ) -> (result: Result<ServicePool<H>, PoolError>)
        requires
            forall|r: crossbeam_channel::Receiver<Message>| call_requires(spawn_thread, (r,)),
        ensures
            match result {
                Ok(pool) => size >= 1 && pool.wf() && pool.size_spec() == size && pool.all_live()
                    && (forall|i: int|
                    0 <= i < pool@.len() ==> ((#[trigger] pool@[i]).thread matches Some(h)
                        ==> exists|r: crossbeam_channel::Receiver<Message>|
                        call_ensures(spawn_thread, (r,), h))) && (exists|
                    shared: crossbeam_channel::Receiver<Message>,
                |
                    #[trigger] call_ensures(message_channel, (), (pool.spec_sender(), shared))
                        && forall|i: int|
                        0 <= i < pool@.len() ==> ((#[trigger] pool@[i]).thread matches Some(h)
                            ==> exists|r: crossbeam_channel::Receiver<Message>|
                            call_ensures(clone_receiver, (&shared,), r) && call_ensures(
                                spawn_thread,
                                (r,),
                                h,
                            ))),
                Err(e) => size == 0 && e == PoolError::ZeroSize,
            },
    {
        if size == 0 {
            return Err(PoolError::ZeroSize);
        }
        let (sender, receiver) = message_channel();
        let mut workers: Vec<Worker<H>> = Vec::new();
        let mut id: usize = 0;
        while id < size
            invariant
                id <= size,
                workers@.len() == id,
                forall|i: int|
                    0 <= i < id ==> (#[trigger] workers@[i]).id == i && workers@[i].thread
                        is Some,
                forall|i: int|
                    0 <= i < id ==> ((#[trigger] workers@[i]).thread matches Some(h)
                        ==> exists|r: crossbeam_channel::Receiver<Message>|
                        call_ensures(spawn_thread, (r,), h)),
                call_ensures(message_channel, (), (sender, receiver)),
                forall|i: int|
                    0 <= i < id ==> ((#[trigger] workers@[i]).thread matches Some(h)
                        ==> exists|r: crossbeam_channel::Receiver<Message>|
                        call_ensures(clone_receiver, (&receiver,), r) && call_ensures(
                            spawn_thread,
                            (r,),
                            h,
                        )),
                forall|r: crossbeam_channel::Receiver<Message>| call_requires(spawn_thread, (r,)),
            decreases size - id,
        {
            let worker_receiver = clone_receiver(&receiver);
            workers.push(Worker::new(id, worker_receiver, &spawn_thread));
            id = id + 1;
        }
        let pool = (ServicePool { workers, sender });
        proof {
            assert(call_ensures(message_channel, (), (pool.spec_sender(), receiver)));
            assert(forall|i: int|
                0 <= i < pool@.len() ==> ((#[trigger] pool@[i]).thread matches Some(h)
                    ==> exists|r: crossbeam_channel::Receiver<Message>|
                    call_ensures(clone_receiver, (&receiver,), r) && call_ensures(
                        spawn_thread,
                        (r,),
                        h,
                    )));
        }
        Ok(pool)
    }

    /// Enqueue a job on the shared work queue and return immediately,
    /// without waiting for execution. The queue is unbounded, so submission
    /// never blocks and never fails observably.
    pub fn submit(&self, job: Job)
        ensures
            call_ensures(send_message, (&self.spec_sender(), Message::NewJob(job)), ()),
    {
        send_message(&self.sender, Message::NewJob(job));
    }

    /// Wrap a callable in a job and submit it. The callable must hold no
    /// unmet precondition, since the worker that receives it runs it with
    /// no further checks.
    pub fn execute<F: FnOnce() + Send + 'static>(&self, f: F)
        requires
            call_requires(f, ()),
        ensures
            exists|job: Job|
                #[trigger] call_ensures(Job::new, (f,), job) && call_ensures(
                    send_message,
                    (&self.spec_sender(), Message::NewJob(job)),
                    (),
                ),
    {
        self.submit(Job::new(f));
    }

    /// Tear the pool down: send one `Terminate` message per worker (exactly
    /// as many as there are workers, never fewer, so that no worker stays
    /// blocked forever), then consume each worker's thread handle in id
    /// order, handing it to the join effect to block until that thread has
    /// exited. Afterwards no worker owns a thread handle, so no worker
    /// thread outlives the pool. Terminate messages are not targeted: a
    /// worker may consume one while work submitted earlier is still queued
    /// for another worker, so teardown bounds shutdown time rather than
    /// draining the backlog.
    pub fn shutdown<F: Fn(H)>(&mut self, join_thread: F)
        requires
            forall|h: H| call_requires(join_thread, (h,)),
        ensures
            final(self).size_spec() == old(self).size_spec(),
            forall|i: int|
                0 <= i < final(self)@.len() ==> (#[trigger] final(self)@[i]).id == old(self)@[i].id,
            final(self).all_stopped(),
            forall|i: int|
                0 <= i < old(self)@.len() && (#[trigger] old(self)@[i]).thread is Some
                    ==> call_ensures(join_thread, (old(self)@[i].thread->Some_0,), ()),
            final(self).spec_sender() == old(self).spec_sender(),
            old(self)@.len() >= 1 ==> call_ensures(
                send_message,
                (&old(self).spec_sender(), Message::Terminate),
                (),
            ),
    {
        let n = self.workers.len();
        let mut sent: usize = 0;
        while sent < n
            invariant
                sent <= n,
                *self == *old(self),
                n == self.workers@.len(),
                sent >= 1 ==> call_ensures(
                    send_message,
                    (&old(self).spec_sender(), Message::Terminate),
                    (),
                ),
            decreases n - sent,
        {
            send_message(&self.sender, Message::Terminate);
            sent = sent + 1;
        }
        let mut j: usize = 0;
        while j < n
            invariant
                j <= n,
                n == self.workers@.len(),
                n == old(self).workers@.len(),
                forall|i: int|
                    0 <= i < n ==> (#[trigger] self.workers@[i]).id == old(self).workers@[i].id,
                forall|i: int| 0 <= i < j ==> (#[trigger] self.workers@[i]).thread is None,
                forall|i: int|
                    j <= i < n ==> #[trigger] self.workers@[i] == old(self).workers@[i],
                forall|i: int|
                    0 <= i < j && (#[trigger] old(self).workers@[i]).thread is Some
                        ==> call_ensures(join_thread, (old(self).workers@[i].thread->Some_0,), ()),
                self.spec_sender() == old(self).spec_sender(),
                n >= 1 ==> call_ensures(
                    send_message,
                    (&old(self).spec_sender(), Message::Terminate),
                    (),
                ),
                forall|h: H| call_requires(join_thread, (h,)),
            decreases n - j,
        {
            let handle = self.workers[j].thread.take();
            match handle {
                Some(h) => join_thread(h),
                None => {},
            }
            j = j + 1;
        }
    }

    /// The fixed number of workers owned by the pool.
    pub fn size(&self) -> (n: usize)
        ensures
            n == self.size_spec(),
    {
        self.workers.len()
    }

    /// How many workers still own their thread handle: the pool's count of
    /// worker threads not yet joined.
    pub fn live_workers(&self) -> (n: usize)
        ensures
            n == live_count(self@),
    {
        let mut count: usize = 0;
        let mut j: usize = 0;
        while j < self.workers.len()
            invariant
                j <= self.workers@.len(),
                count == live_count(self.workers@.take(j as int)),
                count <= j,
            decreases self.workers@.len() - j,
        {
            proof {
                assert(self.workers@.take(j + 1int).drop_last() =~= self.workers@.take(j as int));
                assert(self.workers@.take(j + 1int).last() == self.workers@[j as int]);
            }
            if self.workers[j].thread.is_some() {
                count = count + 1;
            }
            j = j + 1;
        }
        proof {
            assert(self.workers@.take(self.workers@.len() as int) =~= self.workers@);
        }
        count
    }
}

/// A sequence of workers that have all been joined holds no live worker:
/// after a teardown, the count of threads still running under the pool's
/// bookkeeping is exactly zero.
pub proof fn lemma_live_count_all_stopped<H>(workers: Seq<Worker<H>>)
    requires
        forall|i: int| 0 <= i < workers.len() ==> (#[trigger] workers[i]).thread is None,
    ensures
        live_count(workers) == 0,
    decreases workers.len(),
{
    if workers.len() > 0 {
        lemma_live_count_all_stopped(workers.drop_last());
    }
}

/// A sequence of workers that all still own their handle has as many live
/// workers as it has workers: right after construction, the count of
/// running worker threads equals the pool size.
pub proof fn lemma_live_count_all_live<H>(workers: Seq<Worker<H>>)
    requires
        forall|i: int| 0 <= i < workers.len() ==> (#[trigger] workers[i]).thread is Some,
    ensures
        live_count(workers) == workers.len(),
    decreases workers.len(),
{
    if workers.len() > 0 {
        lemma_live_count_all_live(workers.drop_last());
    }
}

} // verus!
