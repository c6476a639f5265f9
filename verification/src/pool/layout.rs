//! The threads of a pool: which threads a pool starts, in which order, which
//! queue each serves, and what each is called.

use vstd::prelude::*;

use crate::{lane_of, Lane, Priority};

verus! {

/// Calls `num_cpus::get`, which returns the number of logical cores that the
/// current process may use. Its documentation promises at least `1`; nothing
/// else is claimed.
#[verifier::external_body]
fn logical_cpus() -> (n: usize)
    ensures
        n >= 1,
{
    num_cpus::get()
}

/// Calls `rand::Rng::gen::<u16>` on `rand::thread_rng()`, which returns a
/// random `u16`. Nothing is claimed of the result: any `u16` may come back.
#[verifier::external_body]
fn random_u16() -> u16 {
    rand::Rng::gen::<u16>(&mut rand::thread_rng())
}

/// The number of worker threads of a pool made with the default settings: one
/// per logical core, and at least one.
pub fn default_thread_count() -> (n: usize)
    ensures
        n >= 1,
{
    logical_cpus()
}

/// What a thread of a pool does.
#[derive(Clone, Copy, PartialEq, Eq, Structural, Debug)]
pub enum ThreadRole {
    /// The worker with this number; all workers serve the work queue.
    Worker(usize),
    /// The single executor of the regular queue.
    RegularExecutor,
    /// The single executor of the priority queue.
    PriorityExecutor,
    /// The watchdog, which serves no queue.
    Watchdog,
}

/// The queue that a thread of this role takes tasks from, if any.
pub open spec fn serves(role: ThreadRole) -> Option<Lane> {
    match role {
        ThreadRole::Worker(_) => Some(Lane::Work),
        ThreadRole::RegularExecutor => Some(Lane::Regular),
        ThreadRole::PriorityExecutor => Some(Lane::Priority),
        ThreadRole::Watchdog => None,
    }
}

impl ThreadRole {
    /// The queue that a thread of this role takes tasks from, if any.
    pub fn lane(&self) -> (lane: Option<Lane>)
        ensures
            lane == serves(*self),
    {
        match self {
            ThreadRole::Worker(_) => Some(Lane::Work),
            ThreadRole::RegularExecutor => Some(Lane::Regular),
            ThreadRole::PriorityExecutor => Some(Lane::Priority),
            ThreadRole::Watchdog => None,
        }
    }
}

/// The role of the thread at position `i` of a pool with `workers` worker
/// threads: the workers first, then the regular executor, the priority
/// executor and the watchdog.
pub open spec fn role_at(workers: nat, i: int) -> ThreadRole {
    if i < workers {
        ThreadRole::Worker(i as usize)
    } else if i == workers {
        ThreadRole::RegularExecutor
    } else if i == workers + 1 {
        ThreadRole::PriorityExecutor
    } else {
        ThreadRole::Watchdog
    }
}

/// The roles of all threads of a pool with `workers` worker threads, in the
/// order in which they are started.
pub open spec fn roles_of(workers: nat) -> Seq<ThreadRole> {
    Seq::new(workers + 3, |i: int| role_at(workers, i))
}

/// The roles of the threads of a pool with `workers` worker threads, in the
/// order in which they are started.
pub fn thread_roles(workers: usize) -> (roles: Vec<ThreadRole>)
    requires
        workers <= usize::MAX - 3,
    ensures
        roles@ == roles_of(workers as nat),
{
    let mut roles: Vec<ThreadRole> = Vec::new();
    let mut i: usize = 0;
    while i < workers
        invariant
            i <= workers,
            roles@ == Seq::new(i as nat, |k: int| role_at(workers as nat, k)),
        decreases workers - i,
    {
        roles.push(ThreadRole::Worker(i));
        i = i + 1;
        proof {
            assert(roles@ =~= Seq::new(i as nat, |k: int| role_at(workers as nat, k)));
        }
    }
    roles.push(ThreadRole::RegularExecutor);
    roles.push(ThreadRole::PriorityExecutor);
    roles.push(ThreadRole::Watchdog);
    proof {
        assert(roles@ =~= roles_of(workers as nat));
    }
    roles
}

/// The number of threads among the first `n` of a pool with `workers` worker
/// threads that serve the given queue.
pub open spec fn serving_count(workers: nat, n: nat, lane: Lane) -> nat
    decreases n,
{
    if n == 0 {
        0
    } else {
        serving_count(workers, (n - 1) as nat, lane) + if serves(role_at(workers, n - 1)) == Some(lane) {
            1nat
        } else {
            0nat
        }
    }
}

proof fn lemma_serving_among_workers(workers: nat, n: nat, lane: Lane)
    requires
        n <= workers,
    ensures
        serving_count(workers, n, lane) == if lane == Lane::Work { n } else { 0 },
    decreases n,
{
    if n > 0 {
        lemma_serving_among_workers(workers, (n - 1) as nat, lane);
    }
}

/// In a pool, `High`, `Normal` and `Low` tasks are single threaded: exactly
/// one thread serves their queue; `Bulk` tasks are served by all the worker
/// threads.
pub proof fn lemma_threads_per_priority(workers: nat, p: Priority)
    ensures
        serving_count(workers, workers + 3, lane_of(p)) == if p == Priority::Bulk { workers } else { 1 },
{
    lemma_serving_among_workers(workers, workers, lane_of(p));
    assert(serving_count(workers, workers + 1, lane_of(p)) == serving_count(workers, workers, lane_of(p))
        + if serves(role_at(workers, workers as int)) == Some(lane_of(p)) { 1nat } else { 0nat });
    assert(serving_count(workers, workers + 2, lane_of(p)) == serving_count(workers, workers + 1, lane_of(p))
        + if serves(role_at(workers, workers + 1int)) == Some(lane_of(p)) { 1nat } else { 0nat });
    assert(serving_count(workers, workers + 3, lane_of(p)) == serving_count(workers, workers + 2, lane_of(p))
        + if serves(role_at(workers, workers + 2int)) == Some(lane_of(p)) { 1nat } else { 0nat });
}

/// A pool has exactly one watchdog, its last thread.
pub proof fn lemma_one_watchdog(workers: nat, i: int)
    requires
        0 <= i < workers + 3,
    ensures
        roles_of(workers)[i] == ThreadRole::Watchdog <==> i == workers + 2,
{
}

/// The decimal digit of `d`, which is below ten.
pub open spec fn digit_char(d: nat) -> char {
    if d == 0 {
        '0'
    } else if d == 1 {
        '1'
    } else if d == 2 {
        '2'
    } else if d == 3 {
        '3'
    } else if d == 4 {
        '4'
    } else if d == 5 {
        '5'
    } else if d == 6 {
        '6'
    } else if d == 7 {
        '7'
    } else if d == 8 {
        '8'
    } else {
        '9'
    }
}

/// `n` written in decimal, without leading zeros.
pub open spec fn decimal(n: nat) -> Seq<char>
    decreases n,
{
    if n < 10 {
        seq![digit_char(n)]
    } else {
        decimal(n / 10) + seq![digit_char(n % 10)]
    }
}

/// The name of a thread of the pool with this id: the id, a dash, and the
/// thread's role.
pub open spec fn thread_name_of(pool_id: u16, role: ThreadRole) -> Seq<char> {
    decimal(pool_id as nat) + match role {
        ThreadRole::Worker(i) => "-Worker{id="@ + decimal(i as nat) + "}"@,
        ThreadRole::RegularExecutor => "-Executor{Regular}"@,
        ThreadRole::PriorityExecutor => "-Executor{Priority}"@,
        ThreadRole::Watchdog => "-Watchdog"@,
    }
}

fn digit_str(d: u64) -> (s: &'static str)
    requires
        d < 10,
    ensures
        s@ == seq![digit_char(d as nat)],
{
    if d == 0 {
        proof { reveal_strlit("0"); }
        "0"
    } else if d == 1 {
        proof { reveal_strlit("1"); }
        "1"
    } else if d == 2 {
        proof { reveal_strlit("2"); }
        "2"
    } else if d == 3 {
        proof { reveal_strlit("3"); }
        "3"
    } else if d == 4 {
        proof { reveal_strlit("4"); }
        "4"
    } else if d == 5 {
        proof { reveal_strlit("5"); }
        "5"
    } else if d == 6 {
        proof { reveal_strlit("6"); }
        "6"
    } else if d == 7 {
        proof { reveal_strlit("7"); }
        "7"
    } else if d == 8 {
        proof { reveal_strlit("8"); }
        "8"
    } else {
        proof { reveal_strlit("9"); }
        "9"
    }
}

fn push_decimal(s: &mut String, n: u64)
    ensures
        final(s)@ == old(s)@ + decimal(n as nat),
    decreases n,
{
    if n >= 10 {
        push_decimal(s, n / 10);
    }
    s.append(digit_str(n % 10));
    proof {
        assert(old(s)@ + decimal(n as nat) =~= if n >= 10 {
            old(s)@ + decimal((n / 10) as nat) + seq![digit_char((n % 10) as nat)]
        } else {
            old(s)@ + seq![digit_char((n % 10) as nat)]
        });
    }
}

/// `n` written in decimal.
pub fn decimal_string(n: u64) -> (s: String)
    ensures
        s@ == decimal(n as nat),
{
    let mut s = String::new();
    push_decimal(&mut s, n);
    proof {
        assert(s@ =~= decimal(n as nat));
    }
    s
}

/// The name of a thread of the pool with this id, such as `7-Worker{id=0}`
/// or `7-Watchdog`.
pub fn thread_name(pool_id: u16, role: ThreadRole) -> (name: String)
    ensures
        name@ == thread_name_of(pool_id, role),
{
    let mut name = decimal_string(pool_id as u64);
    match role {
        ThreadRole::Worker(i) => {
            name.append("-Worker{id=");
            push_decimal(&mut name, i as u64);
            name.append("}");
        },
        ThreadRole::RegularExecutor => {
            name.append("-Executor{Regular}");
        },
        ThreadRole::PriorityExecutor => {
            name.append("-Executor{Priority}");
        },
        ThreadRole::Watchdog => {
            name.append("-Watchdog");
        },
    }
    proof {
        assert(name@ =~= thread_name_of(pool_id, role));
    }
    name
}

/// One thread that a pool starts.
pub struct ThreadSpec {
    pub role: ThreadRole,
    pub name: String,
}

/// The threads that a pool starts, in order, and the pool's id.
pub struct PoolPlan {
    pub id: u16,
    pub threads: Vec<ThreadSpec>,
}

/// The plan of a pool with this id and `workers` worker threads.
pub open spec fn plan_matches(plan: PoolPlan, id: u16, workers: nat) -> bool {
    &&& plan.id == id
    &&& plan.threads@.len() == workers + 3
    &&& forall|i: int|
        0 <= i < workers + 3 ==> {
            &&& (#[trigger] plan.threads@[i]).role == role_at(workers, i)
            &&& plan.threads@[i].name@ == thread_name_of(id, role_at(workers, i))
        }
}

/// The threads of the pool with this id and `workers` worker threads: their
/// roles in the order of [`roles_of`], and their names.
pub fn plan_with_id(id: u16, workers: usize) -> (plan: PoolPlan)
    requires
        workers <= usize::MAX - 3,
    ensures
        plan_matches(plan, id, workers as nat),
{
    let roles = thread_roles(workers);
    let mut threads: Vec<ThreadSpec> = Vec::new();
    let mut i: usize = 0;
    while i < roles.len()
        invariant
            roles@ == roles_of(workers as nat),
            i <= roles@.len(),
            threads@.len() == i,
            forall|k: int|
                0 <= k < i ==> {
                    &&& (#[trigger] threads@[k]).role == role_at(workers as nat, k)
                    &&& threads@[k].name@ == thread_name_of(id, role_at(workers as nat, k))
                },
        decreases roles@.len() - i,
    {
        let role = roles[i];
        threads.push(ThreadSpec { role, name: thread_name(id, role) });
        i = i + 1;
    }
    PoolPlan { id, threads }
}

/// The threads of a new pool with `workers` worker threads, under a random id.
pub fn plan(workers: usize) -> (plan: PoolPlan)
    requires
        workers <= usize::MAX - 3,
    ensures
        plan_matches(plan, plan.id, workers as nat),
{
    let id = random_u16();
    plan_with_id(id, workers)
}

/// The index of each queue among the watchdog's callback channels: the work
/// queue first, then the regular queue, then the priority queue.
pub open spec fn watch_index_of(lane: Lane) -> nat {
    match lane {
        Lane::Work => 0,
        Lane::Regular => 1,
        Lane::Priority => 2,
    }
}

/// The queue of the watchdog's callback channel at index `i`, which is below
/// three.
pub open spec fn lane_at_watch_index(i: nat) -> Lane {
    if i == 0 {
        Lane::Work
    } else if i == 1 {
        Lane::Regular
    } else {
        Lane::Priority
    }
}

/// The queues in the order in which the watchdog is given their callback
/// channels.
pub fn watched_lanes() -> (lanes: Vec<Lane>)
    ensures
        lanes@.len() == 3,
        forall|i: int| 0 <= i < 3 ==> #[trigger] lanes@[i] == lane_at_watch_index(i as nat),
{
    let mut lanes = Vec::new();
    lanes.push(Lane::Work);
    lanes.push(Lane::Regular);
    lanes.push(Lane::Priority);
    lanes
}

/// The index of a queue's callback channel at the watchdog.
pub fn watch_index(lane: Lane) -> (i: usize)
    ensures
        i == watch_index_of(lane),
        i < 3,
        lane_at_watch_index(i as nat) == lane,
{
    match lane {
        Lane::Work => 0,
        Lane::Regular => 1,
        Lane::Priority => 2,
    }
}

} // verus!
