//! What an executor thread decides, and the record of when its task started.
//!
//! An executor thread waits either for a death notice or for a task from its
//! queue, runs the task, and then looks whether the task asked to be
//! rescheduled. The waiting, running and sending stay with the caller; each
//! decision is the step function below.

use vstd::prelude::*;

verus! {

#[verifier::external_type_specification]
#[verifier::external_body]
pub struct ExInstant(std::time::Instant);

/// When the task that an executor runs was started, if one runs.
pub struct ExecutionTimeWrapper(pub Option<std::time::Instant>);

/// A change to an [`ExecutionTimeWrapper`].
pub enum ETOperation {
    /// A task started at this instant.
    SetInstant(std::time::Instant),
    /// No task runs any more.
    Clear,
}

impl ExecutionTimeWrapper {
    /// Applies one change: a start instant replaces what was recorded, and a
    /// clear forgets it.
    pub fn apply_operation(&mut self, operation: ETOperation)
        ensures
            final(self).0 == match operation {
                ETOperation::SetInstant(inst) => Some(inst),
                ETOperation::Clear => None,
            },
    {
        self.0 = match operation {
            ETOperation::SetInstant(inst) => Some(inst),
            ETOperation::Clear => None,
        };
    }
}

/// What became of the rescheduler that a task was given when it ran.
#[derive(Clone, Copy, PartialEq, Eq, Structural, Debug)]
pub enum RescheduleSignal {
    /// It fired while the task ran: the task wants to run again.
    Requested,
    /// It is still held somewhere and has not fired yet.
    Pending,
    /// It was dropped without firing: the task is done.
    Released,
}

/// What an executor thread observed.
pub enum ExecutorEvent<T> {
    /// The pool is shutting down.
    Death,
    /// Its queue can deliver no more tasks.
    QueueClosed,
    /// A task arrived from its queue.
    Dequeued(T),
    /// A task ran, and its rescheduler is in the given state.
    Executed(T, RescheduleSignal),
}

/// What an executor thread is to do next.
pub enum ExecutorAction<T> {
    /// Stop the thread.
    Stop,
    /// Run the task, then report back with `Executed`.
    Run(T),
    /// Put the task back into the executor's own queue.
    Requeue(T),
    /// Hand the task to the watchdog, which waits for its rescheduler.
    Watch(T),
    /// The task is done and has been dropped; wait for the next one.
    Finish,
}

/// An executor's decision on an event.
pub open spec fn executor_next<T>(e: ExecutorEvent<T>) -> ExecutorAction<T> {
    match e {
        ExecutorEvent::Death => ExecutorAction::Stop,
        ExecutorEvent::QueueClosed => ExecutorAction::Stop,
        ExecutorEvent::Dequeued(t) => ExecutorAction::Run(t),
        ExecutorEvent::Executed(t, RescheduleSignal::Requested) => ExecutorAction::Requeue(t),
        ExecutorEvent::Executed(t, RescheduleSignal::Pending) => ExecutorAction::Watch(t),
        ExecutorEvent::Executed(_, RescheduleSignal::Released) => ExecutorAction::Finish,
    }
}

/// Takes in one event of an executor thread and says what to do next.
pub fn executor_step<T>(event: ExecutorEvent<T>) -> (action: ExecutorAction<T>)
    ensures
        action == executor_next(event),
{
    match event {
        ExecutorEvent::Death => ExecutorAction::Stop,
        ExecutorEvent::QueueClosed => ExecutorAction::Stop,
        ExecutorEvent::Dequeued(t) => ExecutorAction::Run(t),
        ExecutorEvent::Executed(t, signal) => match signal {
            RescheduleSignal::Requested => ExecutorAction::Requeue(t),
            RescheduleSignal::Pending => ExecutorAction::Watch(t),
            RescheduleSignal::Released => ExecutorAction::Finish,
        },
    }
}

/// The task that an executor event carries, if any.
pub open spec fn event_task<T>(e: ExecutorEvent<T>) -> Option<T> {
    match e {
        ExecutorEvent::Dequeued(t) => Some(t),
        ExecutorEvent::Executed(t, _) => Some(t),
        _ => None,
    }
}

/// The task that an executor action carries, if any.
pub open spec fn action_task<T>(a: ExecutorAction<T>) -> Option<T> {
    match a {
        ExecutorAction::Run(t) => Some(t),
        ExecutorAction::Requeue(t) => Some(t),
        ExecutorAction::Watch(t) => Some(t),
        _ => None,
    }
}

/// An executor loses no task: the task it was given comes out of its decision
/// unchanged, unless the task is done; it stops only on a death notice or a
/// closed queue; and a task runs exactly when it arrives from the queue.
pub proof fn lemma_executor_keeps_tasks<T>(e: ExecutorEvent<T>)
    ensures
        action_task(executor_next(e)) == if e matches ExecutorEvent::Executed(_, RescheduleSignal::Released) {
            None
        } else {
            event_task(e)
        },
        executor_next(e) is Stop <==> (e is Death || e is QueueClosed),
        executor_next(e) is Run <==> e is Dequeued,
        executor_next(e) is Finish <==> e matches ExecutorEvent::Executed(_, RescheduleSignal::Released),
{
}

} // verus!
