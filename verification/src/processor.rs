use vstd::prelude::*;

verus! {

use crate::errors::RenderError;

/// The processor's view of its dedicated worker, after construction
/// succeeded.  Exactly one worker serves one processor for its whole
/// lifetime.  `Ready` and `Processing` are the working states; the two
/// broken states classify the only link failures a caller can observe,
/// and a broken link never heals.
#[derive(Debug, Clone, Copy, PartialEq, Eq, Structural)]
pub enum WorkerStatus {
    /// The worker is idle, waiting for a job: the only state in which a
    /// submission is allowed.
    Ready,
    /// A job was sent and its completion signal is still owed: at most one
    /// job is ever in flight, because submitting requires `Ready` and only
    /// completing returns there.
    Processing,
    /// The submission channel is closed: the worker exited earlier, or
    /// shutdown already began.
    Unavailable,
    /// The completion channel disconnected mid-job: the worker panicked.
    Crashed,
}

/// The error an update call must fail fast with, before touching any
/// channel, given the link's state — or `None` when submitting is allowed.
pub open spec fn fail_fast_error(status: WorkerStatus) -> Option<RenderError> {
    match status {
        WorkerStatus::Ready => None,
        WorkerStatus::Processing => None,
        WorkerStatus::Unavailable => Some(RenderError::WorkerUnavailable),
        WorkerStatus::Crashed => Some(RenderError::WorkerCrashed),
    }
}

/// The state after recording a job submission whose send succeeded iff
/// `sent`.
pub open spec fn submit_status(sent: bool) -> WorkerStatus {
    if sent {
        WorkerStatus::Processing
    } else {
        WorkerStatus::Unavailable
    }
}

/// What that submission reports: a send on a closed channel means the
/// worker was gone before the job left.
pub open spec fn submit_result(sent: bool) -> Result<(), RenderError> {
    if sent {
        Ok(())
    } else {
        Err(RenderError::WorkerUnavailable)
    }
}

/// The state after the blocking wait for completion, which was signalled
/// iff `acked`.
pub open spec fn complete_status(acked: bool) -> WorkerStatus {
    if acked {
        WorkerStatus::Ready
    } else {
        WorkerStatus::Crashed
    }
}

/// What that wait reports: a disconnect before the signal means the worker
/// died holding the job.
pub open spec fn complete_result(acked: bool) -> Result<(), RenderError> {
    if acked {
        Ok(())
    } else {
        Err(RenderError::WorkerCrashed)
    }
}

/// State machine of one render processor's worker link, mirroring the
/// blocking rendezvous: send the job, then wait for the completion signal.
/// The unverified shell owns the real thread and channels; it reports each
/// channel operation's outcome here and obeys the returned decisions, so
/// that the error taxonomy, the fail-fast discipline, and the
/// one-job-in-flight invariant are checked once, here.
pub struct ProcessorState {
    pub status: WorkerStatus,
}

impl ProcessorState {
    /// A processor begins ready: construction spawns the worker and fails
    /// synchronously if the initial load fails, so no processor value
    /// exists for a worker that never became ready.
    pub fn new() -> (s: ProcessorState)
        ensures
            s.status == WorkerStatus::Ready,
    {
        ProcessorState { status: WorkerStatus::Ready }
    }

    /// Fail-fast gate at the head of every update: a broken instance stays
    /// broken and reports the same error class on every later call, without
    /// touching the channels again.  Calls against one instance are never
    /// concurrent, so no call can begin while a job is still in flight.
    pub fn check_ready(&self) -> (r: Result<(), RenderError>)
        requires
            self.status != WorkerStatus::Processing,
        ensures
            match fail_fast_error(self.status) {
                None => r is Ok,
                Some(e) => r matches Err(got) && got == e,
            },
    {
        match self.status {
            WorkerStatus::Ready => Ok(()),
            WorkerStatus::Processing => Ok(()),
            WorkerStatus::Unavailable => Err(RenderError::WorkerUnavailable),
            WorkerStatus::Crashed => Err(RenderError::WorkerCrashed),
        }
    }

    /// Record the job submission.  On success exactly one job is now in
    /// flight; on a failed send the instance is broken as `Unavailable`.
    pub fn submit(&mut self, sent: bool) -> (r: Result<(), RenderError>)
        requires
            old(self).status == WorkerStatus::Ready,
        ensures
            final(self).status == submit_status(sent),
            r == submit_result(sent),
    {
        if sent {
            self.status = WorkerStatus::Processing;
            Ok(())
        } else {
            self.status = WorkerStatus::Unavailable;
            Err(RenderError::WorkerUnavailable)
        }
    }

    /// Record the blocking wait for the completion signal.  On success the
    /// rendezvous is over and the caller's buffers are its own again; on a
    /// disconnect the instance is broken as `Crashed`.
    pub fn complete(&mut self, acked: bool) -> (r: Result<(), RenderError>)
        requires
            old(self).status == WorkerStatus::Processing,
        ensures
            final(self).status == complete_status(acked),
            r == complete_result(acked),
    {
        if acked {
            self.status = WorkerStatus::Ready;
            Ok(())
        } else {
            self.status = WorkerStatus::Crashed;
            Err(RenderError::WorkerCrashed)
        }
    }

    /// Shutdown begins by closing the submission side, in every state and
    /// unconditionally: destruction must never fail, whatever the worker
    /// did.  The worker observes the closed channel and exits on its own;
    /// joining it afterwards is the shell's final step, outside this
    /// machine.
    pub fn close(&mut self)
        ensures
            final(self).status == WorkerStatus::Unavailable,
    {
        self.status = WorkerStatus::Unavailable;
    }
}

/// After a worker panic (a job was sent and its completion signal never
/// came), that call reports `WorkerCrashed`, and every later call fails
/// fast with `WorkerCrashed` again rather than blocking on a worker that
/// is gone.
pub proof fn lemma_crash_fails_next_call(acked: bool)
    requires
        !acked,
    ensures
        complete_result(acked) == Err::<(), RenderError>(RenderError::WorkerCrashed),
        complete_status(acked) == WorkerStatus::Crashed,
        fail_fast_error(complete_status(acked)) == Some(RenderError::WorkerCrashed),
{
}

/// A broken link never heals: in any broken state the fail-fast gate
/// reports an error, and it is the error class of the break, not a new
/// one.
pub proof fn lemma_broken_stays_broken(status: WorkerStatus)
    requires
        status == WorkerStatus::Unavailable || status == WorkerStatus::Crashed,
    ensures
        fail_fast_error(status) is Some,
        status == WorkerStatus::Unavailable
            ==> fail_fast_error(status) == Some(RenderError::WorkerUnavailable),
        status == WorkerStatus::Crashed
            ==> fail_fast_error(status) == Some(RenderError::WorkerCrashed),
{
}

} // verus!
