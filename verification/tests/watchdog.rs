use threadmill::pool::watchdog::{Watchdog, WatchdogAction, WatchdogEvent};

fn fresh() -> Watchdog<&'static str, u8> {
    Watchdog::new(vec![10, 11, 12])
}

#[test]
fn new_watchdog_listens_on_every_queue() {
    let w = fresh();
    assert_eq!(w.callback_count(), 3);
    assert_eq!(w.callback(0), Some(&10));
    assert_eq!(w.callback(2), Some(&12));
    assert_eq!(w.task_count(), 0);
    assert_eq!(w.wait_millis(), 50);
    assert!(!w.should_exit());
}

#[test]
fn task_goes_back_to_its_queue() {
    let mut w = fresh();
    assert!(matches!(w.step(WatchdogEvent::NewTask("a", 2)), WatchdogAction::Continue));
    assert!(matches!(w.step(WatchdogEvent::NewTask("b", 0)), WatchdogAction::Continue));
    assert_eq!(w.task_count(), 2);
    assert_eq!(*w.task(1), "b");
    match w.step(WatchdogEvent::Reschedule(0)) {
        WatchdogAction::Requeue(task, queue) => {
            assert_eq!(task, "a");
            assert_eq!(queue, 2);
        }
        _ => panic!("expected a requeue"),
    }
    assert_eq!(w.task_count(), 1);
    assert_eq!(*w.task(0), "b");
}

#[test]
fn dropped_rescheduler_removes_task() {
    let mut w = fresh();
    w.step(WatchdogEvent::NewTask("a", 1));
    w.step(WatchdogEvent::NewTask("b", 1));
    assert!(matches!(w.step(WatchdogEvent::RemoveTask(0)), WatchdogAction::Continue));
    assert_eq!(w.task_count(), 1);
    assert_eq!(*w.task(0), "b");
}

#[test]
fn timeouts_back_off_up_to_the_limit() {
    let mut w = fresh();
    assert_eq!(w.wait_millis(), 50);
    w.step(WatchdogEvent::Timeout);
    assert_eq!(w.wait_millis(), 100);
    w.step(WatchdogEvent::Timeout);
    assert_eq!(w.wait_millis(), 150);
    for _ in 0..2000 {
        assert!(matches!(w.step(WatchdogEvent::Timeout), WatchdogAction::Continue));
    }
    assert_eq!(w.wait_millis(), 50_000);
    w.step(WatchdogEvent::NewTask("a", 0));
    assert_eq!(w.wait_millis(), 50);
}

#[test]
fn closed_queues_and_no_tasks_end_the_watchdog() {
    let mut w = fresh();
    w.step(WatchdogEvent::NewTask("a", 1));
    w.step(WatchdogEvent::RemoveQueue(0));
    w.step(WatchdogEvent::RemoveQueue(1));
    assert_eq!(w.callback(0), None);
    assert_eq!(w.callback(2), Some(&12));
    assert!(!w.should_exit());
    w.step(WatchdogEvent::RemoveQueue(2));
    assert!(!w.should_exit());
    w.step(WatchdogEvent::RemoveTask(0));
    assert!(w.should_exit());
}

#[test]
fn death_exits() {
    let mut w = fresh();
    w.step(WatchdogEvent::Timeout);
    assert!(matches!(w.step(WatchdogEvent::Death), WatchdogAction::Exit));
    assert_eq!(w.wait_millis(), 50);
}

#[test]
fn empty_watchdog_exits_at_once() {
    let w: Watchdog<u8, u8> = Watchdog::new(Vec::new());
    assert!(w.should_exit());
}
