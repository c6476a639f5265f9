# threadmill

A task pool with three prioritised queues. `src/` is the verified library: the
routing of priorities to queues, the threads a pool starts and their names,
the step functions of the executor threads and of the watchdog that
reschedules waiting tasks, and the run-once state of sync tasks, async tasks
and their wakers. `app/` runs the pool around it: threads, channel sends and
receives, trait objects and futures.

`ExecutionTimeWrapper::apply_operation` is an inherent method: the crate does
not depend on `evc`, so there is no `evc::OperationCache` impl for it.
