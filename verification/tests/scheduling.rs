use threadmill::pool::executor::{
    executor_step, ETOperation, ExecutionTimeWrapper, ExecutorAction, ExecutorEvent, RescheduleSignal,
};
use threadmill::pool::layout::{
    decimal_string, default_thread_count, plan, plan_with_id, thread_name, thread_roles, watch_index,
    watched_lanes, ThreadRole,
};
use threadmill::pool::TaskScheduler;
use threadmill::{Lane, Priority};

#[test]
fn low_and_normal_share_the_regular_queue() {
    assert_eq!(Priority::Low.lane(), Lane::Regular);
    assert_eq!(Priority::Normal.lane(), Lane::Regular);
    assert_eq!(Priority::High.lane(), Lane::Priority);
    assert_eq!(Priority::Bulk.lane(), Lane::Work);
}

#[test]
fn scheduled_task_arrives_on_its_lane() {
    let scheduler: TaskScheduler<u32> = TaskScheduler::new();
    scheduler.queue_for(Priority::High).enqueuer().send(7).unwrap();
    scheduler.queue_for(Priority::Low).enqueuer().send(8).unwrap();
    scheduler.queue_for(Priority::Bulk).enqueuer().send(9).unwrap();
    assert_eq!(scheduler.queue(Lane::Priority).dequeuer().try_recv().unwrap(), 7);
    assert_eq!(scheduler.queue(Lane::Regular).dequeuer().try_recv().unwrap(), 8);
    assert_eq!(scheduler.queue(Lane::Work).dequeuer().try_recv().unwrap(), 9);
    assert!(scheduler.queue(Lane::Regular).dequeuer().try_recv().is_err());
}

#[test]
fn cloned_scheduler_shares_queues() {
    let scheduler: TaskScheduler<u32> = TaskScheduler::default();
    let other = scheduler.clone();
    other.queue_for(Priority::Normal).enqueuer().send(1337).unwrap();
    assert_eq!(scheduler.queue(Lane::Regular).dequeuer().recv().unwrap(), 1337);
}

#[test]
fn roles_are_workers_then_executors_then_watchdog() {
    let roles = thread_roles(2);
    assert_eq!(
        roles,
        vec![
            ThreadRole::Worker(0),
            ThreadRole::Worker(1),
            ThreadRole::RegularExecutor,
            ThreadRole::PriorityExecutor,
            ThreadRole::Watchdog
        ]
    );
    assert_eq!(thread_roles(0), vec![ThreadRole::RegularExecutor, ThreadRole::PriorityExecutor, ThreadRole::Watchdog]);
    assert_eq!(ThreadRole::Worker(3).lane(), Some(Lane::Work));
    assert_eq!(ThreadRole::RegularExecutor.lane(), Some(Lane::Regular));
    assert_eq!(ThreadRole::PriorityExecutor.lane(), Some(Lane::Priority));
    assert_eq!(ThreadRole::Watchdog.lane(), None);
}

#[test]
fn thread_names() {
    assert_eq!(thread_name(42, ThreadRole::Worker(7)), "42-Worker{id=7}");
    assert_eq!(thread_name(0, ThreadRole::Worker(120)), "0-Worker{id=120}");
    assert_eq!(thread_name(65535, ThreadRole::RegularExecutor), "65535-Executor{Regular}");
    assert_eq!(thread_name(9, ThreadRole::PriorityExecutor), "9-Executor{Priority}");
    assert_eq!(thread_name(10, ThreadRole::Watchdog), "10-Watchdog");
}

#[test]
fn decimal_strings() {
    assert_eq!(decimal_string(0), "0");
    assert_eq!(decimal_string(9), "9");
    assert_eq!(decimal_string(10), "10");
    assert_eq!(decimal_string(1234567890), "1234567890");
    assert_eq!(decimal_string(u64::MAX), u64::MAX.to_string());
}

#[test]
fn plan_names_every_thread() {
    let plan = plan_with_id(311, 1);
    assert_eq!(plan.id, 311);
    let names: Vec<String> = plan.threads.iter().map(|t| t.name.clone()).collect();
    assert_eq!(
        names,
        vec!["311-Worker{id=0}", "311-Executor{Regular}", "311-Executor{Priority}", "311-Watchdog"]
    );
    let roles: Vec<ThreadRole> = plan.threads.iter().map(|t| t.role).collect();
    assert_eq!(roles, thread_roles(1));
}

#[test]
fn random_plan_uses_its_id() {
    let plan = plan(2);
    assert_eq!(plan.threads.len(), 5);
    let prefix = format!("{}-", plan.id);
    for spec in &plan.threads {
        assert!(spec.name.starts_with(&prefix));
    }
    assert_eq!(plan.threads[4].name, format!("{}-Watchdog", plan.id));
}

#[test]
fn default_thread_count_is_positive() {
    assert!(default_thread_count() >= 1);
}

#[test]
fn watchdog_order_of_queues() {
    assert_eq!(watched_lanes(), vec![Lane::Work, Lane::Regular, Lane::Priority]);
    assert_eq!(watch_index(Lane::Work), 0);
    assert_eq!(watch_index(Lane::Regular), 1);
    assert_eq!(watch_index(Lane::Priority), 2);
}

fn task_of(action: ExecutorAction<u32>) -> Option<u32> {
    match action {
        ExecutorAction::Run(t) | ExecutorAction::Requeue(t) | ExecutorAction::Watch(t) => Some(t),
        _ => None,
    }
}

#[test]
fn executor_decisions() {
    assert!(matches!(executor_step::<u32>(ExecutorEvent::Death), ExecutorAction::Stop));
    assert!(matches!(executor_step::<u32>(ExecutorEvent::QueueClosed), ExecutorAction::Stop));
    assert!(matches!(executor_step(ExecutorEvent::Dequeued(5u32)), ExecutorAction::Run(5)));
    assert!(matches!(
        executor_step(ExecutorEvent::Executed(6u32, RescheduleSignal::Requested)),
        ExecutorAction::Requeue(6)
    ));
    assert!(matches!(
        executor_step(ExecutorEvent::Executed(7u32, RescheduleSignal::Pending)),
        ExecutorAction::Watch(7)
    ));
    assert!(matches!(
        executor_step(ExecutorEvent::Executed(8u32, RescheduleSignal::Released)),
        ExecutorAction::Finish
    ));
    assert_eq!(task_of(executor_step(ExecutorEvent::Dequeued(11u32))), Some(11));
}

#[test]
fn execution_time_is_set_and_cleared() {
    let mut wrapper = ExecutionTimeWrapper(None);
    let now = std::time::Instant::now();
    wrapper.apply_operation(ETOperation::SetInstant(now));
    assert_eq!(wrapper.0, Some(now));
    wrapper.apply_operation(ETOperation::Clear);
    assert_eq!(wrapper.0, None);
}

#[test]
fn cloned_queue_is_the_same_channel() {
    let queue: threadmill::pool::SchedulerQueue<u32> = threadmill::pool::SchedulerQueue::new();
    let other = queue.clone();
    other.enqueuer().send(5).unwrap();
    assert_eq!(queue.dequeuer().try_recv().unwrap(), 5);
    queue.enqueuer().send(6).unwrap();
    assert_eq!(other.dequeuer().try_recv().unwrap(), 6);
}
