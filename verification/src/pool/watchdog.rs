//! The watchdog of a pool: it holds the tasks that are waiting for their
//! rescheduler to fire and hands each one back to the queue it came from.
//!
//! The watchdog's thread waits on several channels at once; that waiting, and
//! the sending, stay with the caller. What the watchdog decides on each event
//! is the state machine below.

use vstd::multiset::Multiset;
use vstd::prelude::*;

verus! {

/// The longest wait of the watchdog, in backoff steps.
pub const MAX_BACKOFF: u64 = 1000;

/// The length of one backoff step, in milliseconds.
pub const BACKOFF_STEP_MILLIS: u64 = 50;

/// What the watchdog's thread observed while it waited.
pub enum WatchdogEvent<T> {
    /// The wait ran out without anything arriving.
    Timeout,
    /// The pool is shutting down.
    Death,
    /// An executor handed over a task whose rescheduler had not fired yet,
    /// together with the index of the queue that the executor serves.
    NewTask(T, usize),
    /// The rescheduler of the task at this index fired.
    Reschedule(usize),
    /// The rescheduler of the task at this index was dropped unfired.
    RemoveTask(usize),
    /// The executor behind the callback channel at this index stopped.
    RemoveQueue(usize),
}

/// What the watchdog's thread is to do next.
pub enum WatchdogAction<T> {
    /// Go on waiting.
    Continue,
    /// Stop the watchdog.
    Exit,
    /// Send the task back into the queue at this index, then go on waiting.
    Requeue(T, usize),
}

/// The abstract state of a watchdog.
pub struct WatchdogView<T, Q> {
    /// One entry per queue, in the order the watchdog was given them: the
    /// channel on which that queue's executors hand over tasks, while open.
    pub callbacks: Seq<Option<Q>>,
    /// The tasks being watched, each with the index of its queue.
    pub tasks: Seq<(T, usize)>,
    /// The current wait, in backoff steps.
    pub backoff: nat,
}

impl<T, Q> WatchdogView<T, Q> {
    /// Every watched task belongs to a known queue, and the backoff is in range.
    pub open spec fn wf(self) -> bool {
        &&& 1 <= self.backoff <= MAX_BACKOFF
        &&& forall|i: int| 0 <= i < self.tasks.len() ==> #[trigger] self.tasks[i].1 < self.callbacks.len()
    }

    /// Some callback channel is still open.
    pub open spec fn listening(self) -> bool {
        exists|i: int| 0 <= i < self.callbacks.len() && #[trigger] self.callbacks[i] is Some
    }

    /// Nothing is left to do: no channel to listen on and no task to watch.
    pub open spec fn finished(self) -> bool {
        !self.listening() && self.tasks.len() == 0
    }

    /// The same state, with the given backoff.
    pub open spec fn with_backoff(self, backoff: nat) -> Self {
        WatchdogView { backoff, ..self }
    }
}

/// The backoff after one more timeout: one step longer, up to the maximum.
pub open spec fn next_backoff(backoff: nat) -> nat {
    if backoff + 1 <= MAX_BACKOFF { backoff + 1 } else { MAX_BACKOFF as nat }
}

/// The wait before a timeout, in milliseconds, for the given backoff.
pub open spec fn wait_of(backoff: nat) -> nat {
    (BACKOFF_STEP_MILLIS * backoff) as nat
}

/// The event names a task or a queue that the state holds.
pub open spec fn event_ok<T, Q>(v: WatchdogView<T, Q>, e: WatchdogEvent<T>) -> bool {
    match e {
        WatchdogEvent::NewTask(_, q) => q < v.callbacks.len(),
        WatchdogEvent::Reschedule(i) => i < v.tasks.len(),
        WatchdogEvent::RemoveTask(i) => i < v.tasks.len(),
        WatchdogEvent::RemoveQueue(q) => q < v.callbacks.len(),
        _ => true,
    }
}

/// The watchdog's step: the state after an event, and what to do.
///
/// A timeout lengthens the next wait; anything else resets it to one step.
pub open spec fn watchdog_next<T, Q>(v: WatchdogView<T, Q>, e: WatchdogEvent<T>) -> (
    WatchdogView<T, Q>,
    WatchdogAction<T>,
) {
    match e {
        WatchdogEvent::Timeout => (v.with_backoff(next_backoff(v.backoff)), WatchdogAction::Continue),
        WatchdogEvent::Death => (v.with_backoff(1), WatchdogAction::Exit),
        WatchdogEvent::NewTask(t, q) => (
            WatchdogView { tasks: v.tasks.push((t, q)), backoff: 1, ..v },
            WatchdogAction::Continue,
        ),
        WatchdogEvent::Reschedule(i) => (
            WatchdogView { tasks: v.tasks.remove(i as int), backoff: 1, ..v },
            WatchdogAction::Requeue(v.tasks[i as int].0, v.tasks[i as int].1),
        ),
        WatchdogEvent::RemoveTask(i) => (
            WatchdogView { tasks: v.tasks.remove(i as int), backoff: 1, ..v },
            WatchdogAction::Continue,
        ),
        WatchdogEvent::RemoveQueue(q) => (
            WatchdogView { callbacks: v.callbacks.update(q as int, None), backoff: 1, ..v },
            WatchdogAction::Continue,
        ),
    }
}

/// The state of a pool's watchdog.
pub struct Watchdog<T, Q> {
    callbacks: Vec<Option<Q>>,
    tasks: Vec<(T, usize)>,
    backoff: u64,
}

impl<T, Q> View for Watchdog<T, Q> {
    type V = WatchdogView<T, Q>;

    closed spec fn view(&self) -> WatchdogView<T, Q> {
        WatchdogView { callbacks: self.callbacks@, tasks: self.tasks@, backoff: self.backoff as nat }
    }
}

impl<T, Q> Watchdog<T, Q> {
    #[verifier::type_invariant]
    spec fn inv(self) -> bool {
        self@.wf()
    }

    /// A watchdog that listens on the given callback channels, one per queue,
    /// and watches no task yet.
    pub fn new(callbacks: Vec<Q>) -> (w: Self)
        ensures
            w@.wf(),
            w@.callbacks.len() == callbacks@.len(),
            forall|i: int| 0 <= i < callbacks@.len() ==> #[trigger] w@.callbacks[i] == Some(callbacks@[i]),
            w@.tasks.len() == 0,
            w@.backoff == 1,
    {
        let ghost given = callbacks@;
        let mut rest = callbacks;
        let mut open: Vec<Option<Q>> = Vec::new();
        while rest.len() > 0
            invariant
                open@.len() + rest@.len() == given.len(),
                forall|i: int| 0 <= i < open@.len() ==> #[trigger] open@[i] == Some(given[i]),
                forall|i: int| 0 <= i < rest@.len() ==> #[trigger] rest@[i] == given[open@.len() + i],
            decreases rest@.len(),
        {
            let q = rest.remove(0);
            open.push(Some(q));
        }
        Watchdog { callbacks: open, tasks: Vec::new(), backoff: 1 }
    }

    /// Whether the watchdog has nothing left to do and should stop before
    /// waiting again.
    pub fn should_exit(&self) -> (done: bool)
        ensures
            done == self@.finished(),
    {
        let mut i: usize = 0;
        while i < self.callbacks.len()
            invariant
                i <= self.callbacks@.len(),
                forall|j: int| 0 <= j < i ==> #[trigger] self.callbacks@[j] is None,
            decreases self.callbacks@.len() - i,
        {
            if self.callbacks[i].is_some() {
                proof {
                    assert(self@.callbacks[i as int] is Some);
                }
                return false;
            }
            i = i + 1;
        }
        proof {
            assert(!self@.listening()) by {
                assert forall|j: int| 0 <= j < self@.callbacks.len() implies !(#[trigger] self@.callbacks[j] is Some) by {
                    assert(self.callbacks@[j] is None);
                }
            }
        }
        self.tasks.len() == 0
    }

    /// How long to wait for the next event, in milliseconds.
    pub fn wait_millis(&self) -> (ms: u64)
        ensures
            ms == wait_of(self@.backoff),
            BACKOFF_STEP_MILLIS <= ms <= BACKOFF_STEP_MILLIS * MAX_BACKOFF,
    {
        proof {
            use_type_invariant(self);
        }
        BACKOFF_STEP_MILLIS * self.backoff
    }

    /// The number of queues the watchdog was given.
    pub fn callback_count(&self) -> (n: usize)
        ensures
            n == self@.callbacks.len(),
    {
        self.callbacks.len()
    }

    /// The callback channel of the queue at this index, while it is open.
    pub fn callback(&self, q: usize) -> (c: Option<&Q>)
        requires
            q < self@.callbacks.len(),
        ensures
            c is Some == self@.callbacks[q as int] is Some,
            c is Some ==> *c->0 == self@.callbacks[q as int]->0,
    {
        self.callbacks[q].as_ref()
    }

    /// The number of watched tasks.
    pub fn task_count(&self) -> (n: usize)
        ensures
            n == self@.tasks.len(),
    {
        self.tasks.len()
    }

    /// The watched task at this index.
    pub fn task(&self, i: usize) -> (t: &T)
        requires
            i < self@.tasks.len(),
        ensures
            *t == self@.tasks[i as int].0,
    {
        &self.tasks[i].0
    }

    /// Takes in one event and says what to do next.
    pub fn step(&mut self, event: WatchdogEvent<T>) -> (action: WatchdogAction<T>)
        requires
            event_ok(old(self)@, event),
        ensures
            (final(self)@, action) == watchdog_next(old(self)@, event),
            final(self)@.wf(),
    {
        proof {
            use_type_invariant(&*self);
        }
        let ghost pre = self@;
        let mut current = Watchdog { callbacks: Vec::new(), tasks: Vec::new(), backoff: 1 };
        std::mem::swap(&mut current, self);
        let Watchdog { mut callbacks, mut tasks, backoff } = current;
        let mut next_backoff: u64 = 1;
        let action = match event {
            WatchdogEvent::Timeout => {
                if backoff < MAX_BACKOFF {
                    next_backoff = backoff + 1;
                } else {
                    next_backoff = MAX_BACKOFF;
                }
                WatchdogAction::Continue
            },
            WatchdogEvent::Death => WatchdogAction::Exit,
            WatchdogEvent::NewTask(t, q) => {
                tasks.push((t, q));
                WatchdogAction::Continue
            },
            WatchdogEvent::Reschedule(i) => {
                let (t, q) = tasks.remove(i);
                WatchdogAction::Requeue(t, q)
            },
            WatchdogEvent::RemoveTask(i) => {
                let _ = tasks.remove(i);
                WatchdogAction::Continue
            },
            WatchdogEvent::RemoveQueue(q) => {
                callbacks.set(q, None);
                WatchdogAction::Continue
            },
        };
        proof {
            let post = WatchdogView { callbacks: callbacks@, tasks: tasks@, backoff: next_backoff as nat };
            assert(post =~= watchdog_next(pre, event).0);
            lemma_step_keeps_wf(pre, event);
        }
        *self = Watchdog { callbacks, tasks, backoff: next_backoff };
        action
    }
}

/// The state after `k` timeouts in a row.
pub open spec fn after_timeouts<T, Q>(v: WatchdogView<T, Q>, k: nat) -> WatchdogView<T, Q>
    decreases k,
{
    if k == 0 {
        v
    } else {
        watchdog_next(after_timeouts(v, (k - 1) as nat), WatchdogEvent::Timeout).0
    }
}

/// Every step keeps the state well formed, and never changes how many queues
/// the watchdog knows.
pub proof fn lemma_step_keeps_wf<T, Q>(v: WatchdogView<T, Q>, e: WatchdogEvent<T>)
    requires
        v.wf(),
        event_ok(v, e),
    ensures
        watchdog_next(v, e).0.wf(),
        watchdog_next(v, e).0.callbacks.len() == v.callbacks.len(),
{
    let w = watchdog_next(v, e).0;
    assert forall|i: int| 0 <= i < w.tasks.len() implies #[trigger] w.tasks[i].1 < w.callbacks.len() by {
        match e {
            WatchdogEvent::Reschedule(k) => {
                if i >= k {
                    assert(w.tasks[i] == v.tasks[i + 1]);
                }
            },
            WatchdogEvent::RemoveTask(k) => {
                if i >= k {
                    assert(w.tasks[i] == v.tasks[i + 1]);
                }
            },
            WatchdogEvent::NewTask(t, q) => {
                if i < v.tasks.len() {
                    assert(w.tasks[i] == v.tasks[i]);
                }
            },
            _ => {},
        }
    }
}

/// A task handed over to the watchdog goes back, when its rescheduler fires,
/// into the very queue it came from, and the watchdog then holds what it held
/// before.
pub proof fn lemma_task_returns_to_its_queue<T, Q>(v: WatchdogView<T, Q>, t: T, q: usize)
    requires
        v.wf(),
        q < v.callbacks.len(),
        v.tasks.len() < usize::MAX,
    ensures
        ({
            let v1 = watchdog_next(v, WatchdogEvent::NewTask(t, q)).0;
            let (v2, a) = watchdog_next(v1, WatchdogEvent::Reschedule(v.tasks.len() as usize));
            &&& a == WatchdogAction::Requeue(t, q)
            &&& v2.tasks == v.tasks
            &&& v2.callbacks == v.callbacks
        }),
{
    let v1 = watchdog_next(v, WatchdogEvent::NewTask(t, q)).0;
    let v2 = watchdog_next(v1, WatchdogEvent::Reschedule(v.tasks.len() as usize)).0;
    assert(v2.tasks =~= v.tasks);
}

/// The watchdog stops on a death notice and on nothing else, and a task goes
/// back to a queue only when its rescheduler fired.
pub proof fn lemma_actions<T, Q>(v: WatchdogView<T, Q>, e: WatchdogEvent<T>)
    ensures
        watchdog_next(v, e).1 is Exit <==> e is Death,
        watchdog_next(v, e).1 is Requeue ==> e is Reschedule,
{
}

/// Each event but a timeout resets the wait to a single step; a timeout never
/// does.
pub proof fn lemma_backoff_resets<T, Q>(v: WatchdogView<T, Q>, e: WatchdogEvent<T>)
    requires
        v.wf(),
    ensures
        watchdog_next(v, e).0.backoff == 1 <==> !(e is Timeout),
{
}

/// After `k` timeouts in a row the wait has grown by `k` steps, up to the
/// maximum, and nothing else has changed.
pub proof fn lemma_timeouts_back_off<T, Q>(v: WatchdogView<T, Q>, k: nat)
    requires
        v.wf(),
    ensures
        after_timeouts(v, k).backoff == if v.backoff + k <= MAX_BACKOFF {
            v.backoff + k
        } else {
            MAX_BACKOFF as nat
        },
        after_timeouts(v, k).tasks == v.tasks,
        after_timeouts(v, k).callbacks == v.callbacks,
        after_timeouts(v, k).wf(),
    decreases k,
{
    if k > 0 {
        lemma_timeouts_back_off(v, (k - 1) as nat);
    }
}

/// A closed callback channel stays closed, so once the watchdog listens on no
/// channel it never listens again.
pub proof fn lemma_closed_stays_closed<T, Q>(v: WatchdogView<T, Q>, e: WatchdogEvent<T>, j: int)
    requires
        event_ok(v, e),
        0 <= j < v.callbacks.len(),
        v.callbacks[j] is None,
    ensures
        watchdog_next(v, e).0.callbacks[j] is None,
        !v.listening() ==> !watchdog_next(v, e).0.listening(),
{
    let w = watchdog_next(v, e).0;
    if !v.listening() && w.listening() {
        let i = choose|i: int| 0 <= i < w.callbacks.len() && #[trigger] w.callbacks[i] is Some;
        assert(v.callbacks[i] is None);
    }
}

/// No task is lost or made up: a step adds the handed-over task, or takes out
/// the one whose rescheduler fired or was dropped, and leaves the others.
pub proof fn lemma_task_accounting<T, Q>(v: WatchdogView<T, Q>, e: WatchdogEvent<T>)
    requires
        event_ok(v, e),
    ensures
        watchdog_next(v, e).0.tasks.len() as int == match e {
            WatchdogEvent::NewTask(_, _) => v.tasks.len() + 1 as int,
            WatchdogEvent::Reschedule(_) | WatchdogEvent::RemoveTask(_) => v.tasks.len() - 1,
            _ => v.tasks.len() as int,
        },
        match e {
            WatchdogEvent::Reschedule(i) | WatchdogEvent::RemoveTask(i) =>
                forall|j: int| 0 <= j < v.tasks.len() && j != i ==>
                    watchdog_next(v, e).0.tasks.contains(#[trigger] v.tasks[j]),
            _ => forall|j: int| 0 <= j < v.tasks.len() ==>
                    watchdog_next(v, e).0.tasks.contains(#[trigger] v.tasks[j]),
        },
{
    let w = watchdog_next(v, e).0;
    match e {
        WatchdogEvent::Reschedule(i) | WatchdogEvent::RemoveTask(i) => {
            assert forall|j: int| 0 <= j < v.tasks.len() && j != i implies w.tasks.contains(#[trigger] v.tasks[j]) by {
                if j < i {
                    assert(w.tasks[j] == v.tasks[j]);
                } else {
                    assert(w.tasks[j - 1] == v.tasks[j]);
                }
            }
        },
        WatchdogEvent::NewTask(_, _) => {
            assert forall|j: int| 0 <= j < v.tasks.len() implies w.tasks.contains(#[trigger] v.tasks[j]) by {
                assert(w.tasks[j] == v.tasks[j]);
            }
        },
        _ => {
            assert forall|j: int| 0 <= j < v.tasks.len() implies w.tasks.contains(#[trigger] v.tasks[j]) by {
                assert(w.tasks[j] == v.tasks[j]);
            }
        },
    }
}

/// The task, with its queue, that an event hands over to the watchdog.
pub open spec fn handed_by<T>(e: WatchdogEvent<T>) -> Multiset<(T, usize)> {
    match e {
        WatchdogEvent::NewTask(t, q) => Multiset::singleton((t, q)),
        _ => Multiset::empty(),
    }
}

/// The task, with the queue it is sent into, that the watchdog's action on an
/// event sends back.
pub open spec fn requeued_by<T, Q>(v: WatchdogView<T, Q>, e: WatchdogEvent<T>) -> Multiset<(T, usize)> {
    match watchdog_next(v, e).1 {
        WatchdogAction::Requeue(t, q) => Multiset::singleton((t, q)),
        _ => Multiset::empty(),
    }
}

/// The task, with its queue, that an event makes the watchdog drop.
pub open spec fn dropped_by<T, Q>(v: WatchdogView<T, Q>, e: WatchdogEvent<T>) -> Multiset<(T, usize)> {
    match e {
        WatchdogEvent::RemoveTask(i) => Multiset::singleton(v.tasks[i as int]),
        _ => Multiset::empty(),
    }
}

/// Every event of the sequence names a task or queue that the watchdog holds
/// when the event comes.
pub open spec fn run_ok<T, Q>(v: WatchdogView<T, Q>, es: Seq<WatchdogEvent<T>>) -> bool
    decreases es.len(),
{
    es.len() == 0 || (event_ok(v, es[0]) && run_ok(watchdog_next(v, es[0]).0, es.drop_first()))
}

/// The state after a sequence of events.
pub open spec fn run<T, Q>(v: WatchdogView<T, Q>, es: Seq<WatchdogEvent<T>>) -> WatchdogView<T, Q>
    decreases es.len(),
{
    if es.len() == 0 {
        v
    } else {
        run(watchdog_next(v, es[0]).0, es.drop_first())
    }
}

/// The tasks, with their queues, handed over during a sequence of events.
pub open spec fn handed_over<T>(es: Seq<WatchdogEvent<T>>) -> Multiset<(T, usize)>
    decreases es.len(),
{
    if es.len() == 0 {
        Multiset::empty()
    } else {
        handed_by(es[0]).add(handed_over(es.drop_first()))
    }
}

/// The tasks, with their queues, sent back during a sequence of events.
pub open spec fn requeued<T, Q>(v: WatchdogView<T, Q>, es: Seq<WatchdogEvent<T>>) -> Multiset<(T, usize)>
    decreases es.len(),
{
    if es.len() == 0 {
        Multiset::empty()
    } else {
        requeued_by(v, es[0]).add(requeued(watchdog_next(v, es[0]).0, es.drop_first()))
    }
}

/// The tasks, with their queues, dropped during a sequence of events.
pub open spec fn dropped<T, Q>(v: WatchdogView<T, Q>, es: Seq<WatchdogEvent<T>>) -> Multiset<(T, usize)>
    decreases es.len(),
{
    if es.len() == 0 {
        Multiset::empty()
    } else {
        dropped_by(v, es[0]).add(dropped(watchdog_next(v, es[0]).0, es.drop_first()))
    }
}

/// The number of fired reschedulers in a sequence of events.
pub open spec fn fired_count<T>(es: Seq<WatchdogEvent<T>>) -> nat
    decreases es.len(),
{
    if es.len() == 0 {
        0
    } else {
        (if es[0] is Reschedule { 1nat } else { 0nat }) + fired_count(es.drop_first())
    }
}

/// When the rescheduler of any watched task fires, wherever that task stands
/// among the watched tasks, the watchdog sends exactly that task back into the
/// queue it was handed over with, and keeps watching all the others in order.
pub proof fn lemma_fired_task_returns_to_its_queue<T, Q>(v: WatchdogView<T, Q>, i: usize)
    requires
        v.wf(),
        i < v.tasks.len(),
    ensures
        ({
            let (w, a) = watchdog_next(v, WatchdogEvent::Reschedule(i));
            &&& a == WatchdogAction::Requeue(v.tasks[i as int].0, v.tasks[i as int].1)
            &&& v.tasks[i as int].1 < v.callbacks.len()
            &&& w.tasks.len() == v.tasks.len() - 1
            &&& forall|j: int| 0 <= j < i ==> #[trigger] w.tasks[j] == v.tasks[j]
            &&& forall|j: int| i < j < v.tasks.len() ==> w.tasks[j - 1] == #[trigger] v.tasks[j]
        }),
{
}

/// One step keeps the books: the tasks held before and the one handed over
/// are the tasks held after, the one sent back and the one dropped.
pub proof fn lemma_step_conserves_tasks<T, Q>(v: WatchdogView<T, Q>, e: WatchdogEvent<T>)
    requires
        event_ok(v, e),
    ensures
        v.tasks.to_multiset().add(handed_by(e)) =~= watchdog_next(v, e).0.tasks.to_multiset().add(
            requeued_by(v, e),
        ).add(dropped_by(v, e)),
{
    broadcast use vstd::seq_lib::group_to_multiset_ensures;
    broadcast use vstd::multiset::group_multiset_axioms;
    match e {
        WatchdogEvent::Reschedule(i) => {
            assert(v.tasks.remove(i as int).to_multiset() =~= v.tasks.to_multiset().remove(v.tasks[i as int]));
            assert(v.tasks.to_multiset().count(v.tasks[i as int]) > 0) by {
                assert(v.tasks.contains(v.tasks[i as int]));
            }
        },
        WatchdogEvent::RemoveTask(i) => {
            assert(v.tasks.remove(i as int).to_multiset() =~= v.tasks.to_multiset().remove(v.tasks[i as int]));
            assert(v.tasks.to_multiset().count(v.tasks[i as int]) > 0) by {
                assert(v.tasks.contains(v.tasks[i as int]));
            }
        },
        WatchdogEvent::NewTask(t, q) => {
            assert(v.tasks.push((t, q)).to_multiset() =~= v.tasks.to_multiset().insert((t, q)));
        },
        _ => {},
    }
}

/// Over any run, no task is lost or sent back twice: the tasks held at the
/// start and those handed over are exactly the tasks still held, those sent
/// back to their queue and those dropped. So a task goes back to its queue at
/// most as often as it was handed over, each time with the queue it came with,
/// and only on a fired rescheduler: as many tasks go back as reschedulers fire.
pub proof fn lemma_run_conserves_tasks<T, Q>(v: WatchdogView<T, Q>, es: Seq<WatchdogEvent<T>>)
    requires
        run_ok(v, es),
    ensures
        v.tasks.to_multiset().add(handed_over(es)) =~= run(v, es).tasks.to_multiset().add(
            requeued(v, es),
        ).add(dropped(v, es)),
        forall|p: (T, usize)| #[trigger] requeued(v, es).count(p) <= v.tasks.to_multiset().count(p) + handed_over(
            es,
        ).count(p),
        requeued(v, es).len() == fired_count(es),
    decreases es.len(),
{
    broadcast use vstd::multiset::group_multiset_axioms;
    if es.len() > 0 {
        let e = es[0];
        let w = watchdog_next(v, e).0;
        let rest = es.drop_first();
        lemma_step_conserves_tasks(v, e);
        lemma_run_conserves_tasks(w, rest);
        let a = v.tasks.to_multiset();
        let f = run(v, es).tasks.to_multiset();
        assert(run(v, es) == run(w, rest));
        assert(handed_over(es) == handed_by(e).add(handed_over(rest)));
        assert(requeued(v, es) == requeued_by(v, e).add(requeued(w, rest)));
        assert(dropped(v, es) == dropped_by(v, e).add(dropped(w, rest)));
        assert forall|p: (T, usize)| #[trigger] a.add(handed_over(es)).count(p) == f.add(requeued(v, es)).add(
            dropped(v, es),
        ).count(p) by {
            assert(a.add(handed_by(e)).count(p) == w.tasks.to_multiset().add(requeued_by(v, e)).add(
                dropped_by(v, e),
            ).count(p));
            assert(w.tasks.to_multiset().add(handed_over(rest)).count(p) == f.add(requeued(w, rest)).add(
                dropped(w, rest),
            ).count(p));
        }
        assert(a.add(handed_over(es)) =~= f.add(requeued(v, es)).add(dropped(v, es)));
    }
    assert forall|p: (T, usize)| #[trigger] requeued(v, es).count(p) <= v.tasks.to_multiset().count(p)
        + handed_over(es).count(p) by {
        assert(v.tasks.to_multiset().add(handed_over(es)).count(p) == run(v, es).tasks.to_multiset().add(
            requeued(v, es),
        ).add(dropped(v, es)).count(p));
    }
}

} // verus!
