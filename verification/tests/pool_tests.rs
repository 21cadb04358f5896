use scratch::pool::{shutdown_signals, worker_step, Message, PoolState, WorkerAction};

#[test]
fn worker_runs_job_and_exits_on_signal() {
    assert!(matches!(worker_step(Message::NewJob(7u64)), WorkerAction::Run(7)));
    assert!(matches!(
        worker_step::<u64>(Message::Terminate),
        WorkerAction::Exit
    ));
}

#[test]
fn one_shutdown_signal_per_worker() {
    let signals = shutdown_signals::<u64>(3);
    assert_eq!(signals.len(), 3);
    for s in signals {
        assert!(matches!(s, Message::Terminate));
    }
}

#[test]
fn pool_runs_every_job_once_with_bounded_concurrency() {
    let mut pool = PoolState::new(2);
    for job in 1u64..=5 {
        pool.submit(job);
    }
    assert_eq!(pool.queue, vec![1, 2, 3, 4, 5]);

    let mut finished: Vec<u64> = Vec::new();
    loop {
        while let Some(started) = pool.start_next() {
            assert!(pool.running.len() <= 2);
            assert!(pool.running.contains(&started));
        }
        if pool.running.is_empty() {
            break;
        }
        let job = pool.running[0];
        pool.finish(job);
        finished.push(job);
    }
    assert_eq!(pool.queue.len(), 0);
    assert_eq!(pool.running.len(), 0);
    let mut done = pool.done.clone();
    done.sort_unstable();
    assert_eq!(done, vec![1, 2, 3, 4, 5]);
    assert_eq!(finished.len(), 5);
}

#[test]
fn pool_starts_jobs_in_submission_order() {
    let mut pool = PoolState::new(1);
    pool.submit(10);
    pool.submit(11);
    pool.submit(12);
    assert_eq!(pool.start_next(), Some(10));
    assert_eq!(pool.start_next(), None);
    pool.finish(10);
    assert_eq!(pool.start_next(), Some(11));
    pool.finish(11);
    assert_eq!(pool.start_next(), Some(12));
    pool.finish(12);
    assert_eq!(pool.done, vec![10, 11, 12]);
}
