//! Tasks: closures and futures that a pool runs, and what a caller who waits
//! for a task's result gets.

use vstd::prelude::*;

pub mod async_task;
pub mod sync;

pub use async_task::{AsyncTask, PollOutcome, TaskWaker};
pub use sync::SyncTask;

verus! {

/// The receiving end of the channel on which a task's result comes.
#[verifier::reject_recursive_types(M)]
pub struct JoinHandle<M>(flume::Receiver<M>);

impl<M> JoinHandle<M> {
    /// The receiving end of the task's result channel.
    pub closed spec fn receiver(&self) -> flume::Receiver<M> {
        self.0
    }

    /// A handle on the result that comes on this channel.
    fn new(receiver: flume::Receiver<M>) -> (h: Self)
        ensures
            h.receiver() == receiver,
    {
        JoinHandle(receiver)
    }

    /// The channel on which the result comes.
    pub fn channel(&self) -> (r: &flume::Receiver<M>)
        ensures
            *r == self.receiver(),
    {
        &self.0
    }
}

/// Why waiting for a task's result gave no result.
pub enum JoinError<P, D> {
    /// The task panicked, with this payload.
    Panicked(P),
    /// The task was dropped without sending a result; the receive failed with
    /// this error.
    Disconnected(D),
}

/// What waiting for a task's result gives, from what the receive returned: the
/// result if the task ran to its end, else why not.
pub open spec fn settled<T, P, D>(received: Result<Result<T, P>, D>) -> Result<T, JoinError<P, D>> {
    match received {
        Ok(Ok(value)) => Ok(value),
        Ok(Err(payload)) => Err(JoinError::Panicked(payload)),
        Err(err) => Err(JoinError::Disconnected(err)),
    }
}

/// Turns what the receive of a task's result returned into the outcome of
/// waiting for it.
pub fn settle<T, P, D>(received: Result<Result<T, P>, D>) -> (outcome: Result<T, JoinError<P, D>>)
    ensures
        outcome == settled(received),
{
    match received {
        Ok(Ok(value)) => Ok(value),
        Ok(Err(payload)) => Err(JoinError::Panicked(payload)),
        Err(err) => Err(JoinError::Disconnected(err)),
    }
}

} // verus!
