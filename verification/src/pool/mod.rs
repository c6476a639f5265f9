//! The pool: its queues, its threads and the decisions of its executors and
//! of its watchdog.

use vstd::prelude::*;

use crate::channel::{clone_receiver, clone_sender, unbounded_channel};
use crate::{lane_of, Lane, Priority};
use layout::{serves, ThreadRole};

pub mod death;
pub mod executor;
pub mod layout;
pub mod watchdog;

verus! {

/// A queue of tasks: both ends of one unbounded channel, and the lane of the
/// scheduler that the queue was made for, if any.
#[verifier::reject_recursive_types(T)]
pub struct SchedulerQueue<T> {
    enqueuer: flume::Sender<T>,
    dequeuer: flume::Receiver<T>,
    lane: Ghost<Option<Lane>>,
}

impl<T> SchedulerQueue<T> {
    /// A new, empty queue, made for no lane of a scheduler.
    pub fn new() -> (q: Self)
        ensures
            q.lane() is None,
    {
        let (enqueuer, dequeuer) = unbounded_channel();
        SchedulerQueue { enqueuer, dequeuer, lane: Ghost(None) }
    }

    /// A new, empty queue, made as the queue of the given lane.
    fn for_lane(lane: Lane) -> (q: Self)
        ensures
            q.lane() == Some(lane),
    {
        let (enqueuer, dequeuer) = unbounded_channel();
        SchedulerQueue { enqueuer, dequeuer, lane: Ghost(Some(lane)) }
    }

    /// The lane of the scheduler that the queue was made for, if any; clones
    /// of a queue share it.
    pub closed spec fn lane(&self) -> Option<Lane> {
        self.lane@
    }

    /// The sending end: tasks are scheduled through it.
    pub fn enqueuer(&self) -> (s: &flume::Sender<T>)
        ensures
            *s == self.sender(),
    {
        &self.enqueuer
    }

    /// The receiving end: executors take tasks from it.
    pub fn dequeuer(&self) -> (r: &flume::Receiver<T>)
        ensures
            *r == self.receiver(),
    {
        &self.dequeuer
    }

    /// The sending end of the queue.
    pub closed spec fn sender(&self) -> flume::Sender<T> {
        self.enqueuer
    }

    /// The receiving end of the queue.
    pub closed spec fn receiver(&self) -> flume::Receiver<T> {
        self.dequeuer
    }
}

impl<T> Clone for SchedulerQueue<T> {
    /// Another handle on the same queue.
    fn clone(&self) -> (res: Self)
        ensures
            res.sender() == self.sender(),
            res.receiver() == self.receiver(),
            res.lane() == self.lane(),
    {
        SchedulerQueue {
            enqueuer: clone_sender(&self.enqueuer),
            dequeuer: clone_receiver(&self.dequeuer),
            lane: self.lane,
        }
    }
}

impl<T> Default for SchedulerQueue<T> {
    fn default() -> Self {
        SchedulerQueue::new()
    }
}

/// The three queues of a pool, one per [`Lane`].
#[verifier::reject_recursive_types(T)]
pub struct TaskScheduler<T> {
    priority: SchedulerQueue<T>,
    regular: SchedulerQueue<T>,
    work: SchedulerQueue<T>,
}

impl<T> TaskScheduler<T> {
    /// Each lane's queue is the queue made for that lane.
    #[verifier::type_invariant]
    pub closed spec fn wf(self) -> bool {
        forall|l: Lane| #[trigger] self.lane_queue(l).lane() == Some(l)
    }

    /// Three new, empty queues, one made for each lane.
    pub fn new() -> (s: Self)
        ensures
            s.wf(),
    {
        let s = TaskScheduler {
            priority: SchedulerQueue::for_lane(Lane::Priority),
            regular: SchedulerQueue::for_lane(Lane::Regular),
            work: SchedulerQueue::for_lane(Lane::Work),
        };
        proof {
            assert forall|l: Lane| #[trigger] s.lane_queue(l).lane() == Some(l) by {
                match l {
                    Lane::Priority => {},
                    Lane::Regular => {},
                    Lane::Work => {},
                }
            }
        }
        s
    }

    /// The queue of a lane.
    pub closed spec fn lane_queue(&self, lane: Lane) -> SchedulerQueue<T> {
        match lane {
            Lane::Priority => self.priority,
            Lane::Regular => self.regular,
            Lane::Work => self.work,
        }
    }

    /// The queue of the given lane.
    pub fn queue(&self, lane: Lane) -> (q: &SchedulerQueue<T>)
        ensures
            *q == self.lane_queue(lane),
            q.lane() == Some(lane),
    {
        proof {
            use_type_invariant(self);
        }
        match lane {
            Lane::Priority => &self.priority,
            Lane::Regular => &self.regular,
            Lane::Work => &self.work,
        }
    }

    /// The queue that takes a task of the given priority: the regular queue
    /// for `Low` and `Normal`, the priority queue for `High` and the work
    /// queue for `Bulk`.
    pub fn queue_for(&self, priority: Priority) -> (q: &SchedulerQueue<T>)
        ensures
            *q == self.lane_queue(lane_of(priority)),
            q.lane() == Some(lane_of(priority)),
    {
        self.queue(priority.lane())
    }
}

impl<T> Clone for TaskScheduler<T> {
    /// Another handle on the same three queues.
    fn clone(&self) -> (res: Self)
        ensures
            forall|l: Lane| #[trigger] res.lane_queue(l) == self.lane_queue(l),
            res.wf(),
    {
        proof {
            use_type_invariant(self);
        }
        TaskScheduler { priority: self.priority.clone(), regular: self.regular.clone(), work: self.work.clone() }
    }
}

impl<T> Default for TaskScheduler<T> {
    fn default() -> Self {
        TaskScheduler::new()
    }
}

/// The lanes of a scheduler are distinct queues: each lane's queue is the one
/// made for that lane, and no two lanes share a queue.
pub proof fn lemma_lanes_are_distinct<T>(s: TaskScheduler<T>, l1: Lane, l2: Lane)
    requires
        s.wf(),
    ensures
        s.lane_queue(l1).lane() == Some(l1),
        l1 != l2 ==> s.lane_queue(l1) != s.lane_queue(l2),
{
    assert(s.lane_queue(l1).lane() == Some(l1));
    assert(s.lane_queue(l2).lane() == Some(l2));
}

/// The queue into which a task of a priority is scheduled is served exactly by
/// the threads whose role serves that priority's lane: a `High` task is taken
/// only by the priority executor, a `Low` or `Normal` one only by the regular
/// executor, and a `Bulk` one only by the workers.
pub proof fn lemma_priority_served_by<T>(s: TaskScheduler<T>, p: Priority, role: ThreadRole)
    requires
        s.wf(),
    ensures
        (exists|l: Lane| serves(role) == Some(l) && s.lane_queue(l) == s.lane_queue(lane_of(p)))
            <==> serves(role) == Some(lane_of(p)),
        p == Priority::High ==> (serves(role) == Some(lane_of(p)) <==> role == ThreadRole::PriorityExecutor),
        (p == Priority::Low || p == Priority::Normal) ==> (serves(role) == Some(lane_of(p)) <==> role
            == ThreadRole::RegularExecutor),
        p == Priority::Bulk ==> (serves(role) == Some(lane_of(p)) <==> role is Worker),
{
    if exists|l: Lane| serves(role) == Some(l) && s.lane_queue(l) == s.lane_queue(lane_of(p)) {
        let l = choose|l: Lane| serves(role) == Some(l) && s.lane_queue(l) == s.lane_queue(lane_of(p));
        lemma_lanes_are_distinct(s, l, lane_of(p));
    }
    if serves(role) == Some(lane_of(p)) {
        assert(s.lane_queue(lane_of(p)) == s.lane_queue(lane_of(p)));
    }
}

} // verus!
