//! Workers: what each one does next, and how the pool is made.
//!
//! A worker opens its sink, then writes the whole source to it pass after
//! pass, counting each finished pass on the shared counter. It stops only on
//! a failure, and a stopped worker stays stopped. The steps that touch the
//! operating system are the caller's: the worker says what to do next and is
//! told how it went.

use crate::config::Config;
use crate::counter::{increment_global_metrics, SharedCounter};
use crate::error::{BenchError, IoError};
use vstd::prelude::*;

verus! {

/// Where a worker stands.
#[derive(Clone, Copy, Debug, PartialEq, Eq, Structural)]
pub enum Worker {
    /// It has not opened its sink yet.
    Starting,
    /// It writes passes.
    Running,
    /// It met the failure it carries and does nothing more.
    Terminated(BenchError),
}

/// What the caller is to do for a worker.
#[derive(Clone, Copy, Debug, PartialEq, Eq, Structural)]
pub enum WorkerAction {
    /// Open the sink and report with `sink_opened`.
    OpenSink,
    /// Write the whole source once and report with `pass_finished`.
    WritePass,
    /// Nothing: the worker is done.
    Halt,
}

impl Worker {
    /// The step that belongs to each state.
    pub open spec fn spec_next_action(self) -> WorkerAction {
        match self {
            Worker::Starting => WorkerAction::OpenSink,
            Worker::Running => WorkerAction::WritePass,
            Worker::Terminated(_) => WorkerAction::Halt,
        }
    }

    /// The state after an attempt to open the sink. Only a starting worker
    /// opens a sink: success sets it running, failure ends it.
    pub open spec fn after_sink(self, outcome: Result<(), IoError>) -> Worker {
        match (self, outcome) {
            (Worker::Starting, Ok(_)) => Worker::Running,
            (Worker::Starting, Err(e)) => Worker::Terminated(BenchError::WorkerConstruction(e)),
            _ => self,
        }
    }

    /// The state after a pass. Only a running worker writes: success keeps
    /// it running, failure ends it.
    pub open spec fn after_pass(self, outcome: Result<(), IoError>) -> Worker {
        match (self, outcome) {
            (Worker::Running, Err(e)) => Worker::Terminated(BenchError::HotPathWrite(e)),
            _ => self,
        }
    }

    /// Whether a pass with this outcome counts: it was written by a running
    /// worker and did not fail.
    pub open spec fn counts_pass(self, outcome: Result<(), IoError>) -> bool {
        self == Worker::Running && outcome is Ok
    }

    /// The failure that ended the worker, if it has ended.
    pub open spec fn spec_failure(self) -> Option<BenchError> {
        match self {
            Worker::Terminated(e) => Some(e),
            _ => None,
        }
    }

    /// A worker that has yet to open its sink.
    pub fn new() -> (worker: Worker)
        ensures
            worker == Worker::Starting,
    {
        Worker::Starting
    }

    /// What to do next for this worker.
    #[verifier::when_used_as_spec(spec_next_action)]
    pub fn next_action(self) -> (action: WorkerAction)
        ensures
            action == self.spec_next_action(),
    {
        match self {
            Worker::Starting => WorkerAction::OpenSink,
            Worker::Running => WorkerAction::WritePass,
            Worker::Terminated(_) => WorkerAction::Halt,
        }
    }

    /// The failure that ended the worker, if it has ended.
    #[verifier::when_used_as_spec(spec_failure)]
    pub fn failure(self) -> (failure: Option<BenchError>)
        ensures
            failure == self.spec_failure(),
    {
        match self {
            Worker::Terminated(e) => Some(e),
            _ => None,
        }
    }

    /// Records how opening the sink went.
    pub fn sink_opened(&mut self, outcome: Result<(), IoError>)
        ensures
            *final(self) == old(self).after_sink(outcome),
    {
        match *self {
            Worker::Starting => {
                match outcome {
                    Ok(_) => {
                        *self = Worker::Running;
                    },
                    Err(e) => {
                        *self = Worker::Terminated(BenchError::WorkerConstruction(e));
                    },
                }
            },
            _ => {},
        }
    }

    /// Records how a pass went, and counts it on `counter` if it counts.
    /// Returns whether it was counted.
    pub fn pass_finished(&mut self, outcome: Result<(), IoError>, counter: &SharedCounter) -> (counted:
        bool)
        ensures
            *final(self) == old(self).after_pass(outcome),
            counted == old(self).counts_pass(outcome),
    {
        match *self {
            Worker::Running => {
                match outcome {
                    Ok(_) => {
                        increment_global_metrics(counter);
                        true
                    },
                    Err(e) => {
                        *self = Worker::Terminated(BenchError::HotPathWrite(e));
                        false
                    },
                }
            },
            _ => false,
        }
    }
}

/// The pool of workers of one run.
pub struct WorkerPool;

impl WorkerPool {
    /// The workers of a run: as many as the configuration asks for, each
    /// about to open its sink. None at all is a pool too.
    pub fn spawn_writers(config: &Config) -> (workers: Vec<Worker>)
        ensures
            workers@.len() == config.thread_count,
            forall|i: int| 0 <= i < workers@.len() ==> workers@[i] == Worker::Starting,
    {
        let mut workers: Vec<Worker> = Vec::with_capacity(config.thread_count);
        let mut spawned: usize = 0;
        while spawned < config.thread_count
            invariant
                spawned <= config.thread_count,
                workers@.len() == spawned,
                forall|i: int| 0 <= i < workers@.len() ==> workers@[i] == Worker::Starting,
            decreases config.thread_count - spawned,
        {
            workers.push(Worker::new());
            spawned += 1;
        }
        workers
    }
}

/// A worker that has stopped stays stopped, with the failure it met:
/// nothing that is reported to it changes it, and no pass counts.
pub proof fn lemma_terminated_is_final(worker: Worker, outcome: Result<(), IoError>)
    requires
        worker is Terminated,
    ensures
        worker.after_sink(outcome) == worker,
        worker.after_pass(outcome) == worker,
        !worker.counts_pass(outcome),
        worker.spec_next_action() == WorkerAction::Halt,
{
}

/// A worker stops only on a failure, and the failure names the phase: a
/// sink that did not open, or a write that failed while running. Once told
/// how opening the sink went, it is no longer starting.
pub proof fn lemma_stops_only_on_failure(worker: Worker, outcome: Result<(), IoError>)
    requires
        !(worker is Terminated),
    ensures
        worker.after_sink(outcome) is Terminated <==> worker == Worker::Starting && outcome is Err,
        worker.after_pass(outcome) is Terminated <==> worker == Worker::Running && outcome is Err,
        worker.after_sink(outcome) matches Worker::Terminated(e) ==> e
            == BenchError::WorkerConstruction(outcome->Err_0),
        worker.after_pass(outcome) matches Worker::Terminated(e) ==> e == BenchError::HotPathWrite(
            outcome->Err_0,
        ),
        worker.after_sink(outcome) != Worker::Starting,
{
}

} // verus!
