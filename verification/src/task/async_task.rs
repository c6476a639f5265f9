//! A task that drives a future, and the waker that reschedules it.

use vstd::prelude::*;

use crate::channel::bounded_channel;
use crate::task::JoinHandle;

verus! {

/// What polling a future gave.
pub enum PollOutcome<R> {
    /// The future completed with this output.
    Ready(R),
    /// The future is not done; it has arranged to be woken.
    Pending,
}

/// A future to be driven to completion, and, where someone waits for it, the
/// channel on which its output goes.
#[verifier::reject_recursive_types(M)]
pub struct AsyncTask<Fut, M> {
    inner: Option<Fut>,
    callback: Option<flume::Sender<M>>,
}

impl<Fut, M> AsyncTask<Fut, M> {
    /// The future, while it is parked in the task between polls; `None` while
    /// it is being polled and once it has completed.
    pub closed spec fn parked(&self) -> Option<Fut> {
        self.inner
    }

    /// The channel on which the output goes, if anyone waits for it.
    pub closed spec fn result_sender(&self) -> Option<flume::Sender<M>> {
        self.callback
    }

    /// The same task, with `fut` parked in it.
    pub closed spec fn with_parked(self, fut: Option<Fut>) -> Self {
        AsyncTask { inner: fut, ..self }
    }

    /// A task for the future, and a handle on a new channel that holds
    /// one message, on which its output will come.
    pub fn new(future: Fut) -> (r: (Self, JoinHandle<M>))
        ensures
            r.0.parked() == Some(future),
            r.0.result_sender() is Some,
    {
        let (tx, rx) = bounded_channel(1);
        (AsyncTask { inner: Some(future), callback: Some(tx) }, JoinHandle::new(rx))
    }

    /// Takes the future out to poll it; `None` if it already completed (or is
    /// being polled).
    pub fn begin_poll(&mut self) -> (fut: Option<Fut>)
        ensures
            fut == old(self).parked(),
            *final(self) == old(self).with_parked(None),
            final(self).parked() is None,
            final(self).result_sender() == old(self).result_sender(),
    {
        self.inner.take()
    }

    /// Settles a poll of the future taken by [`AsyncTask::begin_poll`]: a
    /// pending future is parked again for the next poll; a completed one is
    /// dropped, and its output is handed back to be sent if anyone waits for
    /// it.
    pub fn end_poll<R>(&mut self, future: Fut, outcome: PollOutcome<R>) -> (deliver: Option<R>)
        ensures
            *final(self) == old(self).with_parked(parked_after(future, outcome)),
            final(self).parked() == parked_after(future, outcome),
            final(self).result_sender() == old(self).result_sender(),
            match outcome {
                PollOutcome::Pending => {
                    &&& final(self).parked() == Some(future)
                    &&& deliver is None
                },
                PollOutcome::Ready(out) => {
                    &&& final(self).parked() is None
                    &&& deliver == if old(self).result_sender() is Some {
                        Some(out)
                    } else {
                        None
                    }
                },
            },
    {
        match outcome {
            PollOutcome::Pending => {
                self.inner = Some(future);
                None
            },
            PollOutcome::Ready(out) => {
                self.inner = None;
                if self.callback.is_some() {
                    Some(out)
                } else {
                    None
                }
            },
        }
    }

    /// The channel on which the output goes, if anyone waits for it.
    pub fn callback(&self) -> (c: Option<&flume::Sender<M>>)
        ensures
            c is Some == self.result_sender() is Some,
            c is Some ==> *c->0 == self.result_sender()->0,
    {
        self.callback.as_ref()
    }
}

/// What a task parks after a poll of `future` with this outcome.
pub open spec fn parked_after<Fut, R>(future: Fut, outcome: PollOutcome<R>) -> Option<Fut> {
    match outcome {
        PollOutcome::Pending => Some(future),
        PollOutcome::Ready(_) => None,
    }
}

/// A task after one round of polling: the future taken out, polled with this
/// outcome, and settled.
pub open spec fn after_round<Fut, M, R>(t: AsyncTask<Fut, M>, future: Fut, outcome: PollOutcome<R>) -> AsyncTask<Fut, M> {
    t.with_parked(None).with_parked(parked_after(future, outcome))
}

/// Parking a future in a task parks exactly that future and keeps where the
/// task's output goes.
pub proof fn lemma_with_parked<Fut, M>(t: AsyncTask<Fut, M>, fut: Option<Fut>)
    ensures
        t.with_parked(fut).parked() == fut,
        t.with_parked(fut).result_sender() == t.result_sender(),
{
}

/// A future left pending is exactly what the next poll takes out again; a
/// completed one is never polled again, however often the task is run; and
/// polling never changes where the output goes.
pub proof fn lemma_poll_rounds<Fut, M, R>(t: AsyncTask<Fut, M>, future: Fut, outcome: PollOutcome<R>)
    ensures
        outcome is Pending ==> after_round(t, future, outcome).parked() == Some(future),
        outcome is Ready ==> after_round(t, future, outcome).parked() is None,
        t.parked() is None ==> t.with_parked(None).parked() is None,
        after_round(t, future, outcome).result_sender() == t.result_sender(),
{
}

/// The callback that reschedules a task, held until the task's waker fires.
pub struct TaskWaker<F> {
    callback: Option<F>,
}

impl<F> TaskWaker<F> {
    /// The callback, until the waker has fired.
    pub closed spec fn armed(&self) -> Option<F> {
        self.callback
    }

    /// The same waker, fired.
    pub closed spec fn fired(self) -> Self {
        TaskWaker { callback: None }
    }

    /// A waker that will hand out this callback when it fires.
    pub fn new(callback: F) -> (w: Self)
        ensures
            w.armed() == Some(callback),
    {
        TaskWaker { callback: Some(callback) }
    }

    /// Fires the waker: the callback the first time, and nothing ever after.
    pub fn fire(&mut self) -> (callback: Option<F>)
        ensures
            callback == old(self).armed(),
            *final(self) == old(self).fired(),
            final(self).armed() is None,
    {
        self.callback.take()
    }

    /// Whether the waker has not fired yet.
    pub fn is_armed(&self) -> (b: bool)
        ensures
            b == self.armed() is Some,
    {
        self.callback.is_some()
    }
}

/// A waker hands out its callback at most once: once fired, it is disarmed,
/// and firing it again changes nothing and hands out nothing.
pub proof fn lemma_fires_once<F>(w: TaskWaker<F>)
    ensures
        w.fired().armed() is None,
        w.fired().fired() == w.fired(),
{
}

} // verus!
