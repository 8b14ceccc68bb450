//! The job queue: an unbounded FIFO channel from the pool's `execute`
//! side to a consumer handle shared by every worker thread.
//!
//! The channel's contents live in shared mutable state that other threads
//! change concurrently, so no spec function of a handle's value can denote
//! them; each wrapper instead states what holds of every outcome.

use crate::jobs::Job;
use vstd::prelude::*;

verus! {

/// The producer half of the job queue, owned by the pool.
///
/// Relies on `std::sync::mpsc::Sender`: sends may come from any number of
/// threads, and dropping the last sender makes every receiver observe
/// disconnection.
#[verifier::external_body]
pub(crate) struct JobSender {
    inner: std::sync::mpsc::Sender<Job>,
}

/// A handle on the consumer half of the job queue. All handles made by
/// `share` address one underlying receiver, guarded by a mutex so that at
/// most one worker dequeues at a time.
///
/// Relies on `std::sync::Arc` and `std::sync::Mutex` around
/// `std::sync::mpsc::Receiver`.
#[verifier::external_body]
pub(crate) struct JobReceiver {
    inner: std::sync::Arc<std::sync::Mutex<std::sync::mpsc::Receiver<Job>>>,
}

/// Creates the job queue: a connected producer/consumer pair.
///
/// Relies on `std::sync::mpsc::channel`: jobs sent through the producer
/// reach the receiver in FIFO order; once the producer is dropped and the
/// queue is drained, every receive attempt reports disconnection.
#[verifier::external_body]
pub(crate) fn job_channel() -> (JobSender, JobReceiver) {
    let (sender, receiver) = std::sync::mpsc::channel();
    let receiver = std::sync::Arc::new(std::sync::Mutex::new(receiver));
    (JobSender { inner: sender }, JobReceiver { inner: receiver })
}

impl JobSender {
    /// Enqueues one job; returns as soon as the job is stored, never
    /// waiting for a worker.
    ///
    /// Relies on `std::sync::mpsc::Sender::send`: the job is placed behind
    /// every earlier send. `send` errs only once every receiving handle is
    /// gone (all workers exited); such a job is discarded, a silent
    /// capacity loss the pool documents as a known limitation.
    #[verifier::external_body]
    pub(crate) fn send(&self, job: Job) {
        let _ = self.inner.send(job);
    }
}

impl JobReceiver {
    /// A new handle on the same underlying receiver.
    ///
    /// Relies on `std::sync::Arc::clone`: both handles address one receiver.
    #[verifier::external_body]
    pub(crate) fn share(&self) -> JobReceiver {
        JobReceiver { inner: std::sync::Arc::clone(&self.inner) }
    }

    /// One dequeue attempt: blocks until a job arrives or the producer is
    /// dropped, and returns `None` exactly in the latter case.
    ///
    /// Relies on `std::sync::Mutex::lock` and
    /// `std::sync::mpsc::Receiver::recv`: the lock is held only for the
    /// duration of this call, never across job execution; `recv` returns
    /// the oldest queued job, or errs once the producer is dropped and the
    /// queue is empty. A poisoned lock (a panic inside another worker's
    /// dequeue) is answered as disconnection rather than a panic of ours.
    #[verifier::external_body]
    pub(crate) fn recv(&self) -> (r: Option<Job>) {
        match self.inner.lock() {
            Ok(guard) => guard.recv().ok(),
            Err(_) => None,
        }
    }
}

} // verus!
