use threadmill::pool::death::DeathController;
use threadmill::task::{settle, AsyncTask, JoinError, PollOutcome, SyncTask, TaskWaker};

#[test]
fn sync_task_runs_once_and_reports() {
    let (mut task, rx) = SyncTask::<_, u32>::new(|| 1337u32);
    assert!(task.is_pending());
    let fun = task.take_job();
    assert!(!task.is_pending());
    let result = fun();
    task.callback().unwrap().send(result).unwrap();
    assert_eq!(rx.channel().recv().unwrap(), 1337);
}

#[test]
fn detached_sync_task_has_no_callback() {
    let task: SyncTask<fn() -> u32, u32> = SyncTask::from((|| 1) as fn() -> u32);
    assert!(task.is_pending());
    assert!(task.callback().is_none());
}

#[test]
fn sync_task_result_channel_holds_one_result() {
    let (task, rx) = SyncTask::<_, u32>::new(|| 0u32);
    let tx = task.callback().unwrap();
    tx.try_send(1).unwrap();
    assert!(tx.try_send(2).is_err());
    assert_eq!(rx.channel().recv().unwrap(), 1);
}

#[test]
fn pending_future_is_parked_again() {
    let (mut task, rx) = AsyncTask::<&'static str, u32>::new("future");
    let fut = task.begin_poll().unwrap();
    assert_eq!(fut, "future");
    let out = task.end_poll(fut, PollOutcome::<u32>::Pending);
    assert_eq!(out, None);
    assert_eq!(task.begin_poll(), Some("future"));
    drop(rx);
}

#[test]
fn ready_future_delivers_once() {
    let (mut task, rx) = AsyncTask::<&'static str, u32>::new("future");
    let fut = task.begin_poll().unwrap();
    let out = task.end_poll(fut, PollOutcome::Ready(1337u32));
    assert_eq!(out, Some(1337));
    task.callback().unwrap().send(out.unwrap()).unwrap();
    assert_eq!(rx.channel().recv().unwrap(), 1337);
    assert_eq!(task.begin_poll(), None);
    assert_eq!(task.begin_poll(), None);
}

#[test]
fn waker_fires_once() {
    let mut waker = TaskWaker::new(5u8);
    assert!(waker.is_armed());
    assert_eq!(waker.fire(), Some(5));
    assert!(!waker.is_armed());
    assert_eq!(waker.fire(), None);
}

#[test]
fn settle_outcomes() {
    let ok: Result<Result<u32, &str>, ()> = Ok(Ok(1337));
    assert!(matches!(settle(ok), Ok(1337)));
    let panicked: Result<Result<u32, &str>, ()> = Ok(Err("boom"));
    assert!(matches!(settle(panicked), Err(JoinError::Panicked("boom"))));
    let gone: Result<Result<u32, &str>, ()> = Err(());
    assert!(matches!(settle(gone), Err(JoinError::Disconnected(()))));
}

#[test]
fn death_tokens_pair_with_their_senders() {
    let mut controller = DeathController::new();
    let first = controller.token();
    let second = controller.token();
    assert_eq!(controller.notifiers().len(), 2);
    drop(first);
    assert!(controller.notifiers()[0].send(()).is_err());
    assert!(!controller.notifiers()[1].is_disconnected());
    assert!(second.listen().try_recv().is_err());
    let default = DeathController::default();
    assert_eq!(default.notifiers().len(), 0);
}
