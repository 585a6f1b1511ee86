use vstd::prelude::*;

verus! {

/// Failure taxonomy of the rendering core.
///
/// Every failure a caller can observe falls in one of these classes:
///
/// - `Configuration`: a construction input was unusable (unreadable path,
///   malformed template data, invalid parameter encoding).
/// - `Initialization`: the document failed to load or parse.  Detected once
///   at construction and never retried.
/// - `WorkerUnavailable`: the job-submission channel is already closed
///   because the worker exited earlier.
/// - `WorkerCrashed`: the completion channel disconnected before the worker
///   acknowledged a job; the worker panicked mid-job.
/// - `SizeMismatch`: a supplied buffer's length differs from the frame size
///   `width * height * 4`; a fatal caller-contract violation.
#[derive(Debug)]
pub enum RenderError {
    Configuration { detail: String },
    Initialization { detail: String },
    WorkerUnavailable,
    WorkerCrashed,
    SizeMismatch { expected: usize, actual: usize },
}

} // verus!
