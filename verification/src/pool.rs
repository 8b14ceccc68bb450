//! The worker pool: a fixed set of long-lived worker threads draining one
//! shared job queue, with an explicit, idempotent teardown.

use crate::jobs::Job;
use crate::queue::{job_channel, JobReceiver, JobSender};
use vstd::prelude::*;
use vstd::*;

verus! {

/// Why `build` refused to construct a pool.
#[derive(Clone, Copy, Debug, PartialEq, Eq, Structural)]
pub enum ConstructionError {
    /// A pool of zero workers was requested.
    InvalidSize,
}

/// One worker: a small integer identity plus the handle of the OS thread
/// that loops over the shared queue. The handle is taken out exactly once,
/// when the pool joins the thread during teardown.
struct Worker {
    id: usize,
    handle: Option<thread::JoinHandle<()>>,
}

/// The Running-state decision on one dequeued message: a job is run to
/// completion and the worker stays Running; disconnection, and only
/// disconnection, moves it to Terminating, upon which the thread returns
/// and is joinable.
fn on_message(m: Option<Job>) -> (running: bool)
    ensures
        running == (m is Some),
{
    match m {
        Some(job) => {
            job.run();
            true
        },
        None => false,
    }
}

/// One step of a worker's event loop, the whole of its Running state:
/// dequeue one message (the queue lock is held only inside `recv`, never
/// while a job runs) and decide on it. Returns whether the worker is still
/// Running: `false` exactly when `recv` reported disconnection.
fn worker_step(receiver: &JobReceiver) -> (running: bool) {
    let m = receiver.recv();
    on_message(m)
}

/// Drives `worker_step` until it observes disconnection. The decision a
/// worker takes on each dequeued message is the verified `on_message`,
/// whose contract pins when the worker keeps going; only the bare
/// iteration stands here, outside the verifier, because a worker's loop is
/// deliberately unbounded — it must keep running for as long as jobs keep
/// arriving — and the verifier admits only loops it can prove terminate.
#[verifier::external_body]
fn worker_drive(receiver: JobReceiver) {
    while worker_step(&receiver) {}
}

impl Worker {
    /// Spawns the worker's thread, bound to the given id and to a handle
    /// on the shared queue. An OS-level failure to create the thread
    /// aborts the process (the verifier's `spawn` admits no error path),
    /// so a pool that is built holds every worker it asked for.
    fn new(id: usize, receiver: JobReceiver) -> (w: Worker)
        ensures
            w.id == id,
            w.handle is Some,
    {
        let handle = thread::spawn(
            move ||
                {
                    worker_drive(receiver);
                },
        );
        Worker { id, handle: Some(handle) }
    }
}

/// A fixed-size pool of worker threads. Jobs handed to `execute` are run
/// exactly once each, in FIFO dequeue order, on whichever worker is free.
pub struct ThreadPool {
    workers: Vec<Worker>,
    sender: Option<JobSender>,
}

impl ThreadPool {
    /// How many workers the pool owns; fixed at construction.
    pub closed spec fn worker_count(&self) -> nat {
        self.workers@.len()
    }

    /// Whether the producer handle is still present, i.e. the pool accepts
    /// jobs. False from the start of teardown on.
    pub closed spec fn live(&self) -> bool {
        self.sender is Some
    }

    /// Each worker sits at the index matching its id: ids are exactly
    /// `0 .. worker_count()`, in order.
    pub closed spec fn wf(&self) -> bool {
        forall|i: int|
            0 <= i < self.workers@.len() ==> (#[trigger] self.workers@[i]).id == i
    }

    /// Every worker still holds its thread handle (none joined yet).
    pub closed spec fn running(&self) -> bool {
        forall|i: int|
            0 <= i < self.workers@.len() ==> (#[trigger] self.workers@[i]).handle is Some
    }

    /// Every worker's thread handle has been taken and joined.
    pub closed spec fn joined(&self) -> bool {
        forall|i: int|
            0 <= i < self.workers@.len() ==> (#[trigger] self.workers@[i]).handle is None
    }

    /// Builds a pool of exactly `size` workers around a fresh job queue.
    /// A request for zero workers is refused.
    pub fn build(size: usize) -> (r: Result<ThreadPool, ConstructionError>)
        ensures
            r is Ok <==> size > 0,
            r matches Err(e) ==> e == ConstructionError::InvalidSize,
            r matches Ok(p) ==> p.worker_count() == size && p.live() && p.wf() && p.running(),
    {
        if size == 0 {
            return Err(ConstructionError::InvalidSize);
        }
        let (sender, receiver) = job_channel();
        let mut workers: Vec<Worker> = Vec::new();
        let mut id: usize = 0;
        while id < size
            invariant
                id <= size,
                workers@.len() == id,
                forall|i: int| 0 <= i < id ==> (#[trigger] workers@[i]).id == i,
                forall|i: int| 0 <= i < id ==> (#[trigger] workers@[i]).handle is Some,
            decreases size - id,
        {
            let w = Worker::new(id, receiver.share());
            workers.push(w);
            id = id + 1;
        }
        Ok(ThreadPool { workers, sender: Some(sender) })
    }

    /// Whether the pool still accepts jobs. A caller that cannot show
    /// `live()` statically checks this before `execute`.
    pub fn is_live(&self) -> (r: bool)
        ensures
            r == self.live(),
    {
        self.sender.is_some()
    }

    /// How many workers the pool owns.
    pub fn num_workers(&self) -> (n: usize)
        ensures
            n == self.worker_count(),
    {
        self.workers.len()
    }

    /// Enqueues one job and returns as soon as it is stored, without
    /// waiting for execution. Submitting to a pool that has begun teardown
    /// is a contract violation, refused here by `requires` rather than
    /// accepted silently.
    pub fn execute<F>(&self, f: F) where F: FnOnce() + Send + 'static
        requires
            self.live(),
            f.requires(()),
    {
        let job = Job::new(f);
        self.sender.as_ref().unwrap().send(job);
    }

    /// Tears the pool down: drops the producer handle, which makes every
    /// idle worker observe disconnection, then joins each worker in
    /// construction order. When this returns, every job enqueued before the
    /// call has run to completion and every worker thread has exited.
    ///
    /// Idempotent: a second call finds no producer handle and no thread
    /// handles, and changes nothing.
    pub fn shutdown(&mut self)
        ensures
            !final(self).live(),
            final(self).joined(),
            final(self).worker_count() == old(self).worker_count(),
            old(self).wf() ==> final(self).wf(),
    {
        self.sender = None;
        let n = self.workers.len();
        let mut i: usize = 0;
        while i < n
            invariant
                i <= n,
                n == self.workers@.len(),
                self.sender is None,
                forall|k: int|
                    0 <= k < i ==> (#[trigger] self.workers@[k]).handle is None,
                forall|k: int|
                    0 <= k < n ==> (#[trigger] self.workers@[k]).id == old(self).workers@[k].id,
            decreases n - i,
        {
            let w = &mut self.workers[i];
            let handle = w.handle.take();
            match handle {
                Some(h) => {
                    // A worker whose job panicked reports an error here;
                    // teardown tolerates the lost worker.
                    let _ = h.join();
                },
                None => {},
            }
            i = i + 1;
        }
    }
}

} // verus!
