//! The single-flight state machine: tracks whether a drain worker is active
//! so that at most one thread ever runs the drain loop.

use vstd::prelude::*;

verus! {

/// Whether a drainer is active, and how it runs.  The worker handle itself is
/// owned by the embedding shell, which polls it for completion and reports
/// the poll as the `worker_finished` event; this machine only holds the state
/// needed to guarantee a single concurrent drainer.
#[derive(Debug, Copy, Clone, PartialEq, Eq, Structural)]
pub enum PrintingState {
    /// No drainer is active.
    Idle,
    /// A background drain worker was started and may still be running.
    Threaded,
    /// The submitting thread itself is draining, because starting a worker
    /// failed.
    Synchronous,
}

/// What the arbitration step asks the caller to do.
#[derive(Debug, Copy, Clone, PartialEq, Eq, Structural)]
pub enum ArbitrationOutcome {
    /// A drainer is active, or another thread holds the arbitration lock; it
    /// will observe the newly queued message.  Start nothing.
    StandDown,
    /// No drainer is active: start one.
    StartWorker,
}

impl PrintingState {
    /// A drainer is active: the calling thread drains synchronously, or a
    /// background worker was started and has not yet finished.
    pub open spec fn spec_is_busy(self, worker_finished: bool) -> bool {
        match self {
            PrintingState::Idle => false,
            PrintingState::Threaded => !worker_finished,
            PrintingState::Synchronous => true,
        }
    }

    /// `worker_finished` is the shell's poll of the background worker's
    /// handle; it is ignored unless a worker was started.
    pub fn is_busy(&self, worker_finished: bool) -> (r: bool)
        ensures
            r == self.spec_is_busy(worker_finished),
    {
        match self {
            PrintingState::Idle => false,
            PrintingState::Threaded => !worker_finished,
            PrintingState::Synchronous => true,
        }
    }

    /// What arbitration decides: a worker is started exactly when the
    /// non-blocking acquisition of the state lock succeeded and no drainer
    /// is active.
    pub open spec fn spec_arbitrate(self, lock_acquired: bool, worker_finished: bool)
        -> ArbitrationOutcome {
        if lock_acquired && !self.spec_is_busy(worker_finished) {
            ArbitrationOutcome::StartWorker
        } else {
            ArbitrationOutcome::StandDown
        }
    }

    /// The submission path's arbitration: a worker is started exactly when
    /// the non-blocking acquisition of the state lock succeeded
    /// (`lock_acquired`) and no drainer is active.
    pub fn arbitrate(&self, lock_acquired: bool, worker_finished: bool) -> (r: ArbitrationOutcome)
        ensures
            r == self.spec_arbitrate(lock_acquired, worker_finished),
            r == ArbitrationOutcome::StartWorker <==> lock_acquired && !self.spec_is_busy(
                worker_finished,
            ),
    {
        if !lock_acquired {
            ArbitrationOutcome::StandDown
        } else if self.is_busy(worker_finished) {
            ArbitrationOutcome::StandDown
        } else {
            ArbitrationOutcome::StartWorker
        }
    }

    /// A background worker was started.
    pub fn on_worker_spawned(&mut self)
        ensures
            *final(self) == PrintingState::Threaded,
    {
        *self = PrintingState::Threaded;
    }

    /// Starting a worker failed: the calling thread will drain synchronously.
    pub fn on_spawn_failed(&mut self)
        ensures
            *final(self) == PrintingState::Synchronous,
    {
        *self = PrintingState::Synchronous;
    }

    /// The drain finished: no drainer is active any more.
    pub fn on_drain_finished(&mut self)
        ensures
            *final(self) == PrintingState::Idle,
    {
        *self = PrintingState::Idle;
    }
}

} // verus!
