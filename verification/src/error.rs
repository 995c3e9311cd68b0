//! Error kinds of the engine and how far each one reaches.

use vstd::prelude::*;

verus! {

/// How the operating system classified a failed call.
#[derive(Clone, Copy, Debug, PartialEq, Eq, Structural)]
pub enum OsErrorKind {
    /// The path names nothing.
    NotFound,
    /// The caller may not open the path this way.
    PermissionDenied,
    /// Any other failure.
    Other,
}

/// A failed operating-system call as plain values: its class and, where the
/// system gave one, its error number.
#[derive(Clone, Copy, Debug, PartialEq, Eq, Structural)]
pub struct OsFailure {
    pub kind: OsErrorKind,
    pub code: Option<i32>,
}

/// What went wrong with a file, a mapping or a write.
#[derive(Clone, Copy, Debug, PartialEq, Eq, Structural)]
pub enum IoError {
    /// The file does not exist.
    NotFound,
    /// The file exists but may not be opened.
    PermissionDenied,
    /// Another failure of open or of reading the file's size.
    Os(Option<i32>),
    /// The kernel refused the mapping; carries its error number.
    MapFailed(i32),
    /// The vectored write to the sink failed.
    WriteFailed(Option<i32>),
}

impl IoError {
    /// The error for a failed open, or a failed read of the file's size.
    pub open spec fn of_os_failure(failure: OsFailure) -> IoError {
        match failure.kind {
            OsErrorKind::NotFound => IoError::NotFound,
            OsErrorKind::PermissionDenied => IoError::PermissionDenied,
            OsErrorKind::Other => IoError::Os(failure.code),
        }
    }

    /// Classifies a failed open or a failed read of the file's size: the two
    /// named kinds keep their name, everything else is a generic OS error
    /// with the number the system gave.
    pub fn from_os_failure(failure: OsFailure) -> (error: IoError)
        ensures
            error == IoError::of_os_failure(failure),
    {
        match failure.kind {
            OsErrorKind::NotFound => IoError::NotFound,
            OsErrorKind::PermissionDenied => IoError::PermissionDenied,
            OsErrorKind::Other => IoError::Os(failure.code),
        }
    }

    /// The error for a mapping the kernel refused with error number `code`.
    pub fn map_failed(code: i32) -> (error: IoError)
        ensures
            error == IoError::MapFailed(code),
    {
        IoError::MapFailed(code)
    }

    /// The error for a failed write to the sink, whatever its class.
    pub fn write_failed(failure: OsFailure) -> (error: IoError)
        ensures
            error == IoError::WriteFailed(failure.code),
    {
        IoError::WriteFailed(failure.code)
    }
}

/// How far a failure reaches.
#[derive(Clone, Copy, Debug, PartialEq, Eq, Structural)]
pub enum FailureScope {
    /// The whole process stops; no worker may be running.
    Process,
    /// Only the worker that met the failure stops.
    Worker,
}

/// The failures of a run, by the phase in which they occur.
#[derive(Clone, Copy, Debug, PartialEq, Eq, Structural)]
pub enum BenchError {
    /// The source could not be opened, sized or mapped.
    StartupIo(IoError),
    /// A worker could not open its sink.
    WorkerConstruction(IoError),
    /// A worker's write to the sink failed in the steady state.
    HotPathWrite(IoError),
}

impl BenchError {
    /// Startup failures end the process; the other two end one worker.
    pub open spec fn spec_scope(self) -> FailureScope {
        match self {
            BenchError::StartupIo(_) => FailureScope::Process,
            BenchError::WorkerConstruction(_) => FailureScope::Worker,
            BenchError::HotPathWrite(_) => FailureScope::Worker,
        }
    }

    /// How far this failure reaches.
    #[verifier::when_used_as_spec(spec_scope)]
    pub fn scope(self) -> (scope: FailureScope)
        ensures
            scope == self.spec_scope(),
    {
        match self {
            BenchError::StartupIo(_) => FailureScope::Process,
            BenchError::WorkerConstruction(_) => FailureScope::Worker,
            BenchError::HotPathWrite(_) => FailureScope::Worker,
        }
    }

    /// The underlying I/O error.
    pub open spec fn spec_cause(self) -> IoError {
        match self {
            BenchError::StartupIo(e) => e,
            BenchError::WorkerConstruction(e) => e,
            BenchError::HotPathWrite(e) => e,
        }
    }

    /// The underlying I/O error.
    #[verifier::when_used_as_spec(spec_cause)]
    pub fn cause(self) -> (error: IoError)
        ensures
            error == self.spec_cause(),
    {
        match self {
            BenchError::StartupIo(e) => e,
            BenchError::WorkerConstruction(e) => e,
            BenchError::HotPathWrite(e) => e,
        }
    }
}

} // verus!
