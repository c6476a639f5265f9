//! A task pool with prioritised queues: how priorities map to queues, which
//! threads a pool starts, and what its executors and its watchdog decide.

use vstd::prelude::*;

pub mod channel;
pub mod pool;
pub mod task;

verus! {

/// How urgently a task should be processed.
#[derive(Clone, Copy, PartialEq, Eq, Structural, Debug)]
pub enum Priority {
    /// Low priority, processed last; identical to `Normal` in the default
    /// pool and single threaded there.
    Low,
    /// Normal priority, processed in the order given; identical to `Low` in
    /// the default pool and single threaded there.
    Normal,
    /// High priority, processed first; single threaded in the default pool.
    High,
    /// For bulk amounts of tasks; multi threaded in the default pool, where it
    /// is processed by its own group of worker threads.
    Bulk,
}

/// The three queues of a pool.
#[derive(Clone, Copy, PartialEq, Eq, Structural, Debug)]
pub enum Lane {
    /// Served by the single priority executor.
    Priority,
    /// Served by the single regular executor.
    Regular,
    /// Served by every worker thread.
    Work,
}

/// The queue that takes a task of the given priority.
pub open spec fn lane_of(priority: Priority) -> Lane {
    match priority {
        Priority::Low | Priority::Normal => Lane::Regular,
        Priority::High => Lane::Priority,
        Priority::Bulk => Lane::Work,
    }
}

impl Priority {
    /// The queue into which a task of this priority is scheduled.
    pub fn lane(&self) -> (lane: Lane)
        ensures
            lane == lane_of(*self),
            (lane == Lane::Regular) <==> (*self == Priority::Low || *self == Priority::Normal),
            (lane == Lane::Priority) <==> (*self == Priority::High),
            (lane == Lane::Work) <==> (*self == Priority::Bulk),
    {
        match self {
            Priority::Low | Priority::Normal => Lane::Regular,
            Priority::High => Lane::Priority,
            Priority::Bulk => Lane::Work,
        }
    }
}

/// `Low` and `Normal` are the same to a pool: tasks of both priorities share
/// one queue, which no other priority uses.
pub proof fn lemma_low_is_normal(p: Priority)
    ensures
        lane_of(Priority::Low) == lane_of(Priority::Normal),
        lane_of(p) == lane_of(Priority::Normal) <==> (p == Priority::Low || p == Priority::Normal),
{
}

/// Every priority has a queue of its own but `Low` and `Normal`: distinct
/// queues for `Normal`, `High` and `Bulk`.
pub proof fn lemma_lanes_distinct()
    ensures
        lane_of(Priority::Normal) != lane_of(Priority::High),
        lane_of(Priority::Normal) != lane_of(Priority::Bulk),
        lane_of(Priority::High) != lane_of(Priority::Bulk),
{
}

} // verus!
