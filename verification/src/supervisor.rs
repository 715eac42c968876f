//! The task supervisor: the per-job lifecycle, the finish-or-abort
//! decision reported to the external task tracker, and the bounded
//! progress channel between a job and its forwarding loop.

use vstd::prelude::*;

verus! {

/// The lifecycle of one supervised acquisition job. A job never
/// returns to `Running`; the two cache states are terminal, and a
/// cache invalidation failure does not retro-fail the job.
#[derive(Clone, Copy, PartialEq, Eq, Structural, Debug)]
pub enum JobPhase {
    Created,
    Running,
    Succeeded,
    Failed,
    CacheInvalidated,
    CacheInvalidationFailed,
}

/// What the supervisor observes about a job.
#[derive(Clone, Copy, PartialEq, Eq, Structural, Debug)]
pub enum JobEvent {
    Started,
    JobSucceeded,
    JobFailed,
    CacheOk,
    CacheFailed,
}

/// The transitions the supervisor allows; any other event leaves the
/// phase unchanged.
pub open spec fn phase_step_spec(phase: JobPhase, event: JobEvent) -> JobPhase {
    match (phase, event) {
        (JobPhase::Created, JobEvent::Started) => JobPhase::Running,
        (JobPhase::Running, JobEvent::JobSucceeded) => JobPhase::Succeeded,
        (JobPhase::Running, JobEvent::JobFailed) => JobPhase::Failed,
        (JobPhase::Succeeded, JobEvent::CacheOk) => JobPhase::CacheInvalidated,
        (JobPhase::Succeeded, JobEvent::CacheFailed) => JobPhase::CacheInvalidationFailed,
        _ => phase,
    }
}

/// A phase no event can leave.
pub open spec fn is_terminal(phase: JobPhase) -> bool {
    phase == JobPhase::Failed || phase == JobPhase::CacheInvalidated || phase
        == JobPhase::CacheInvalidationFailed
}

/// Advance a job's phase on an observed event.
pub fn phase_step(phase: JobPhase, event: JobEvent) -> (next: JobPhase)
    ensures
        next == phase_step_spec(phase, event),
{
    match (phase, event) {
        (JobPhase::Created, JobEvent::Started) => JobPhase::Running,
        (JobPhase::Running, JobEvent::JobSucceeded) => JobPhase::Succeeded,
        (JobPhase::Running, JobEvent::JobFailed) => JobPhase::Failed,
        (JobPhase::Succeeded, JobEvent::CacheOk) => JobPhase::CacheInvalidated,
        (JobPhase::Succeeded, JobEvent::CacheFailed) => JobPhase::CacheInvalidationFailed,
        (p, _) => p,
    }
}

/// No job transitions back to `Running`: once a job has left
/// `Running`, no sequence of events brings it back, and terminal
/// phases absorb every event.
pub proof fn lemma_no_return_to_running(phase: JobPhase, event: JobEvent)
    ensures
        phase != JobPhase::Created && phase != JobPhase::Running ==> phase_step_spec(phase, event)
            != JobPhase::Running,
        is_terminal(phase) ==> phase_step_spec(phase, event) == phase,
{
}

/// What the supervisor tells the tracker once the job's outcome is
/// known.
#[derive(Clone, Copy, PartialEq, Eq, Structural, Debug)]
pub enum TrackerAction {
    Finish,
    Abort,
}

/// The supervisor's terminal decision: "finish" on success, "abort"
/// on failure — and the cache is invalidated exactly on success.
/// A tracker that cannot be reached never gates this decision; it is
/// a pure function of the job's outcome.
pub fn manage_tracker_status(job_succeeded: bool) -> (r: (TrackerAction, bool))
    ensures
        r.0 == (if job_succeeded {
            TrackerAction::Finish
        } else {
            TrackerAction::Abort
        }),
        r.1 == job_succeeded,
{
    if job_succeeded {
        (TrackerAction::Finish, true)
    } else {
        (TrackerAction::Abort, false)
    }
}

/// The bounded channel between a job and its progress-forwarding
/// loop: FIFO, fixed capacity, and a send to a full channel drops the
/// value instead of stalling the job.
pub struct ProgressChannel {
    pub buf: Vec<u8>,
    pub cap: usize,
}

impl ProgressChannel {
    pub open spec fn wf(self) -> bool {
        self.buf@.len() <= self.cap && self.cap > 0
    }

    /// An empty channel of the given capacity.
    pub fn new(cap: usize) -> (c: ProgressChannel)
        requires
            cap > 0,
        ensures
            c.wf(),
            c.buf@ == Seq::<u8>::empty(),
            c.cap == cap,
    {
        ProgressChannel { buf: Vec::new(), cap }
    }

    /// Offer a progress value: enqueued at the back when there is
    /// room, dropped (never blocking the producer) when the channel
    /// is full.
    pub fn try_send(&mut self, value: u8) -> (accepted: bool)
        requires
            old(self).wf(),
        ensures
            final(self).wf(),
            final(self).cap == old(self).cap,
            accepted == (old(self).buf@.len() < old(self).cap),
            accepted ==> final(self).buf@ == old(self).buf@.push(value),
            !accepted ==> final(self).buf@ == old(self).buf@,
    {
        if self.buf.len() < self.cap {
            self.buf.push(value);
            true
        } else {
            false
        }
    }

    /// What the forwarding loop does once the producer stops sending:
    /// every queued value is delivered, in send order, and the
    /// channel is left empty.
    pub fn drain(&mut self) -> (delivered: Vec<u8>)
        requires
            old(self).wf(),
        ensures
            final(self).wf(),
            final(self).cap == old(self).cap,
            delivered@ == old(self).buf@,
            final(self).buf@.len() == 0,
    {
        let mut delivered: Vec<u8> = Vec::new();
        loop
            invariant
                self.wf(),
                self.cap == old(self).cap,
                delivered@ + self.buf@ == old(self).buf@,
            decreases self.buf@.len(),
        {
            let ghost entry_buf = self.buf@;
            match self.recv() {
                None => {
                    proof {
                        assert(delivered@ =~= delivered@ + self.buf@);
                    }
                    return delivered;
                },
                Some(value) => {
                    let ghost prev = delivered@;
                    delivered.push(value);
                    proof {
                        assert(entry_buf =~= seq![value] + self.buf@);
                        assert(delivered@ + self.buf@ =~= prev + entry_buf);
                    }
                },
            }
        }
    }

    /// Take the oldest value, if any: delivery order is send order.
    pub fn recv(&mut self) -> (r: Option<u8>)
        requires
            old(self).wf(),
        ensures
            final(self).wf(),
            final(self).cap == old(self).cap,
            match r {
                None => old(self).buf@.len() == 0 && final(self).buf@ == old(self).buf@,
                Some(value) => old(self).buf@.len() > 0 && value == old(self).buf@[0]
                    && final(self).buf@ == old(self).buf@.drop_first(),
            },
    {
        if self.buf.len() == 0 {
            None
        } else {
            let value = self.buf.remove(0);
            proof {
                assert(self.buf@ =~= old(self).buf@.drop_first());
            }
            Some(value)
        }
    }
}

} // verus!
