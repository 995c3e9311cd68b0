//! How a run begins.
//!
//! Nothing useful can run without the mapped source. A source that could not
//! be opened, sized or mapped ends the run before any worker exists; a
//! mapped one gives the run its workers and its monitor.

use crate::config::Config;
use crate::error::{BenchError, IoError};
use crate::monitor::{MetricsMonitor, MonitorSample};
use crate::worker::{Worker, WorkerPool};
use vstd::prelude::*;

verus! {

/// A run that has begun: its workers, yet to be started, and its monitor.
pub struct Engine {
    pub workers: Vec<Worker>,
    pub monitor: MetricsMonitor,
}

/// What a run begins with, given how mapping the source went: `source` is
/// the size of the mapped file, or the error that kept it from being mapped.
pub open spec fn begins(
    config: &Config,
    source: Result<usize, IoError>,
    now: u64,
    outcome: Result<Engine, BenchError>,
) -> bool {
    match source {
        Err(e) => outcome matches Err(failure) && failure == BenchError::StartupIo(e),
        Ok(size) => {
            &&& outcome matches Ok(engine)
            &&& engine.workers@.len() == config.thread_count
            &&& forall|i: int|
                0 <= i < engine.workers@.len() ==> engine.workers@[i] == Worker::Starting
            &&& engine.monitor.spec_source_size() == size
            &&& engine.monitor.spec_previous() == (MonitorSample { count: 0, timestamp: now })
        },
    }
}

/// Begins a run at time `now`. A failed source is a startup failure and
/// leaves no worker to spawn; a mapped source of `size` bytes gives the
/// configured number of workers and a monitor for that size.
pub fn launch(config: &Config, source: Result<usize, IoError>, now: u64) -> (outcome: Result<
    Engine,
    BenchError,
>)
    ensures
        begins(config, source, now, outcome),
{
    match source {
        Err(e) => Err(BenchError::StartupIo(e)),
        Ok(size) => Ok(
            Engine {
                workers: WorkerPool::spawn_writers(config),
                monitor: MetricsMonitor::new(size, now),
            },
        ),
    }
}

} // verus!
