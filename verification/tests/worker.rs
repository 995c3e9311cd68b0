use mmap_bench::config::Config;
use mmap_bench::counter::{increment_global_metrics, SharedCounter};
use mmap_bench::engine::launch;
use mmap_bench::error::{BenchError, FailureScope, IoError, OsErrorKind, OsFailure};
use mmap_bench::worker::{Worker, WorkerAction, WorkerPool};

fn config(threads: usize) -> Config {
    Config { thread_count: threads, source_file: String::from("test_data.bin"), chunk_size: 4096 }
}

#[test]
fn counter_starts_at_zero_and_counts_by_one() {
    let counter = SharedCounter::new();
    assert_eq!(counter.load(), 0);
    increment_global_metrics(&counter);
    assert_eq!(counter.load(), 1);
    increment_global_metrics(&counter);
    increment_global_metrics(&counter);
    assert_eq!(counter.load(), 3);
}

#[test]
fn counter_never_goes_back() {
    let counter = SharedCounter::new();
    let mut last = counter.load();
    for _ in 0..1000 {
        increment_global_metrics(&counter);
        let now = counter.load();
        assert!(now >= last);
        assert_eq!(now, last + 1);
        last = now;
    }
}

#[test]
fn new_worker_is_to_open_its_sink() {
    let worker = Worker::new();
    assert_eq!(worker, Worker::Starting);
    assert_eq!(worker.next_action(), WorkerAction::OpenSink);
    assert_eq!(worker.failure(), None);
}

#[test]
fn worker_runs_once_its_sink_is_open() {
    let mut worker = Worker::new();
    worker.sink_opened(Ok(()));
    assert_eq!(worker, Worker::Running);
    assert_eq!(worker.next_action(), WorkerAction::WritePass);
    assert_eq!(worker.failure(), None);
}

#[test]
fn worker_without_a_sink_is_terminated() {
    let mut worker = Worker::new();
    worker.sink_opened(Err(IoError::Os(Some(24))));
    let failure = BenchError::WorkerConstruction(IoError::Os(Some(24)));
    assert_eq!(worker, Worker::Terminated(failure));
    assert_eq!(worker.next_action(), WorkerAction::Halt);
    assert_eq!(worker.failure(), Some(failure));
    assert_eq!(failure.scope(), FailureScope::Worker);
}

#[test]
fn each_finished_pass_counts_once() {
    let counter = SharedCounter::new();
    let mut worker = Worker::new();
    worker.sink_opened(Ok(()));
    for done in 1..=5u64 {
        assert_eq!(worker.next_action(), WorkerAction::WritePass);
        assert!(worker.pass_finished(Ok(()), &counter));
        assert_eq!(worker, Worker::Running);
        assert_eq!(counter.load(), done);
    }
}

#[test]
fn failed_write_ends_the_worker_and_is_not_counted() {
    let counter = SharedCounter::new();
    let mut worker = Worker::new();
    worker.sink_opened(Ok(()));
    assert!(worker.pass_finished(Ok(()), &counter));
    let error = IoError::write_failed(OsFailure { kind: OsErrorKind::Other, code: Some(5) });
    assert!(!worker.pass_finished(Err(error), &counter));
    assert_eq!(worker, Worker::Terminated(BenchError::HotPathWrite(IoError::WriteFailed(Some(5)))));
    assert_eq!(worker.next_action(), WorkerAction::Halt);
    assert_eq!(counter.load(), 1);
}

#[test]
fn terminated_worker_stays_terminated() {
    let counter = SharedCounter::new();
    let mut worker = Worker::new();
    worker.sink_opened(Err(IoError::PermissionDenied));
    let ended = worker;
    worker.sink_opened(Ok(()));
    assert_eq!(worker, ended);
    assert!(!worker.pass_finished(Ok(()), &counter));
    assert_eq!(worker, ended);
    assert!(!worker.pass_finished(Err(IoError::WriteFailed(None)), &counter));
    assert_eq!(worker, ended);
    assert_eq!(counter.load(), 0);
}

#[test]
fn reports_out_of_turn_change_nothing() {
    let counter = SharedCounter::new();
    let mut starting = Worker::new();
    assert!(!starting.pass_finished(Ok(()), &counter));
    assert_eq!(starting, Worker::Starting);
    assert!(!starting.pass_finished(Err(IoError::WriteFailed(None)), &counter));
    assert_eq!(starting, Worker::Starting);
    let mut running = Worker::new();
    running.sink_opened(Ok(()));
    running.sink_opened(Err(IoError::NotFound));
    assert_eq!(running, Worker::Running);
    assert_eq!(counter.load(), 0);
}

#[test]
fn pool_has_one_starting_worker_per_thread() {
    let workers = WorkerPool::spawn_writers(&config(10));
    assert_eq!(workers.len(), 10);
    for w in &workers {
        assert_eq!(*w, Worker::Starting);
    }
    assert_eq!(WorkerPool::spawn_writers(&config(1)).len(), 1);
}

#[test]
fn pool_of_size_zero_is_empty() {
    let workers = WorkerPool::spawn_writers(&config(0));
    assert!(workers.is_empty());
}

#[test]
fn missing_source_is_a_startup_error_and_spawns_nothing() {
    let failure = OsFailure { kind: OsErrorKind::NotFound, code: Some(2) };
    let source: Result<usize, IoError> = Err(IoError::from_os_failure(failure));
    match launch(&config(10), source, 0) {
        Err(error) => {
            assert_eq!(error, BenchError::StartupIo(IoError::NotFound));
            assert_eq!(error.scope(), FailureScope::Process);
        }
        Ok(engine) => panic!("{} workers were made", engine.workers.len()),
    }
}

#[test]
fn refused_mapping_is_a_startup_error() {
    let outcome = launch(&config(4), Err(IoError::map_failed(12)), 7);
    assert_eq!(outcome.err(), Some(BenchError::StartupIo(IoError::MapFailed(12))));
}

#[test]
fn mapped_source_launches_workers_and_monitor() {
    let engine = match launch(&config(3), Ok(4096), 77) {
        Ok(engine) => engine,
        Err(error) => panic!("{:?}", error),
    };
    assert_eq!(engine.workers, vec![Worker::Starting, Worker::Starting, Worker::Starting]);
    assert_eq!(engine.monitor.source_size(), 4096);
    assert_eq!(engine.monitor.previous().count, 0);
    assert_eq!(engine.monitor.previous().timestamp, 77);
}
