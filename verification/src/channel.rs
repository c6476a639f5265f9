//! The channels of `flume` through which the threads of a pool talk.
//!
//! Sending and receiving wait on other threads and stay with the caller; the
//! library only makes channels and hands out their ends.

use vstd::prelude::*;

verus! {

#[verifier::external_type_specification]
#[verifier::external_body]
#[verifier::reject_recursive_types(T)]
pub struct ExSender<T>(flume::Sender<T>);

#[verifier::external_type_specification]
#[verifier::external_body]
#[verifier::reject_recursive_types(T)]
pub struct ExReceiver<T>(flume::Receiver<T>);

/// Calls `flume::unbounded`, which makes a new channel without a bound and
/// returns its two ends. Nothing is claimed of the result.
#[verifier::external_body]
pub(crate) fn unbounded_channel<T>() -> (flume::Sender<T>, flume::Receiver<T>) {
    flume::unbounded()
}

/// Calls `flume::bounded`, which makes a new channel that holds at most `cap`
/// messages (with `0`, a send waits for a receiver) and returns its two ends.
/// Nothing is claimed of the result.
#[verifier::external_body]
pub(crate) fn bounded_channel<T>(cap: usize) -> (flume::Sender<T>, flume::Receiver<T>) {
    flume::bounded(cap)
}

/// Calls `<flume::Sender<T> as Clone>::clone`, which returns another sending
/// end of the same channel (a handle on the same shared state); the result is
/// claimed equal to the sender it was cloned from.
#[verifier::external_body]
pub(crate) fn clone_sender<T>(sender: &flume::Sender<T>) -> (res: flume::Sender<T>)
    ensures
        res == *sender,
{
    sender.clone()
}

/// Calls `<flume::Receiver<T> as Clone>::clone`, which returns another
/// receiving end of the same channel (a handle on the same shared state); the
/// result is claimed equal to the receiver it was cloned from.
#[verifier::external_body]
pub(crate) fn clone_receiver<T>(receiver: &flume::Receiver<T>) -> (res: flume::Receiver<T>)
    ensures
        res == *receiver,
{
    receiver.clone()
}

} // verus!
