//! A task that runs a closure once.

use vstd::prelude::*;

use crate::channel::bounded_channel;
use crate::task::JoinHandle;

verus! {

/// A closure to be run once, and, where someone waits for it, the channel on
/// which its result goes.
#[verifier::reject_recursive_types(M)]
pub struct SyncTask<F, M> {
    inner: Option<F>,
    callback: Option<flume::Sender<M>>,
}

impl<F, M> SyncTask<F, M> {
    /// The closure, until it has been taken to run.
    pub closed spec fn job(&self) -> Option<F> {
        self.inner
    }

    /// The channel on which the result goes, if anyone waits for it.
    pub closed spec fn result_sender(&self) -> Option<flume::Sender<M>> {
        self.callback
    }

    /// A task for the closure, and a handle on a new channel that holds
    /// one message, on which its result will come.
    pub fn new(fun: F) -> (r: (Self, JoinHandle<M>))
        ensures
            r.0.job() == Some(fun),
            r.0.result_sender() is Some,
    {
        let (tx, rx) = bounded_channel(1);
        (SyncTask { inner: Some(fun), callback: Some(tx) }, JoinHandle::new(rx))
    }

    /// Whether the closure has not been taken to run yet.
    pub fn is_pending(&self) -> (b: bool)
        ensures
            b == self.job() is Some,
    {
        self.inner.is_some()
    }

    /// Takes the closure out to run it; a task runs only once.
    pub fn take_job(&mut self) -> (fun: F)
        requires
            old(self).job() is Some,
        ensures
            fun == old(self).job()->0,
            final(self).job() is None,
            final(self).result_sender() == old(self).result_sender(),
    {
        self.inner.take().unwrap()
    }

    /// The channel on which the result goes, if anyone waits for it.
    pub fn callback(&self) -> (c: Option<&flume::Sender<M>>)
        ensures
            c is Some == self.result_sender() is Some,
            c is Some ==> *c->0 == self.result_sender()->0,
    {
        self.callback.as_ref()
    }
}

impl<F, M> From<F> for SyncTask<F, M> {
    /// A task for the closure whose result nobody waits for.
    fn from(fun: F) -> (t: Self) {
        SyncTask { inner: Some(fun), callback: None }
    }
}

impl<F, M> vstd::std_specs::convert::FromSpecImpl<F> for SyncTask<F, M> {
    open spec fn obeys_from_spec() -> bool {
        true
    }

    closed spec fn from_spec(fun: F) -> Self {
        SyncTask { inner: Some(fun), callback: None }
    }
}

/// A task made from a closure alone runs that closure, and nobody waits for
/// its result.
pub proof fn lemma_from_is_detached<F, M>(fun: F)
    ensures
        <SyncTask<F, M> as vstd::std_specs::convert::FromSpec<F>>::from_spec(fun).job() == Some(fun),
        <SyncTask<F, M> as vstd::std_specs::convert::FromSpec<F>>::from_spec(fun).result_sender() is None,
{
}

} // verus!
