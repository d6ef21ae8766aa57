//! The process supervisor: the owner of the optional handle to the running
//! helper server process.
//!
//! The supervisor enforces the at-most-one-live-child invariant. It does not
//! spawn or kill processes itself: the surrounding binary performs the spawn
//! (after the stray-process cleanup and the settle delay) and reports what
//! happened as a [`SpawnOutcome`]; the supervisor decides what the outcome
//! means for its state. Likewise `stop` hands back the process identity to
//! signal instead of signalling it.

use vstd::prelude::*;

verus! {

/// The lifecycle state of the supervised helper server process.
///
/// `Running` holds the OS process identity needed to signal the child.
#[derive(Debug, Clone, Copy, PartialEq, Eq, Structural)]
pub enum ProcState {
    Absent,
    Running { pid: u64 },
}

/// What the surrounding binary observed when it attempted to launch the
/// helper server on the supervisor's behalf.
#[derive(Debug, PartialEq, Eq)]
pub enum SpawnOutcome {
    /// The helper binary was not found at its resolved path.
    BinaryMissing,
    /// The helper binary could not be marked executable.
    PermissionDenied,
    /// The OS refused to create the process; `reason` is its report.
    SpawnRefused { reason: String },
    /// The process was created with the given identity.
    Spawned { pid: u64 },
}

/// Why a `start` was aborted. Every failure is non-fatal to the supervising
/// application: the caller reports it and leaves the tray showing "stopped".
#[derive(Debug, PartialEq, Eq)]
pub enum StartError {
    /// The resolved helper binary path does not exist.
    BinaryNotFound,
    /// The helper binary could not be marked executable.
    PermissionFailure,
    /// The OS refused to create the process, for the given reason.
    SpawnFailure(String),
}

/// The supervisor itself: nothing but the lifecycle state of the one child.
#[derive(Debug, Clone, Copy, PartialEq, Eq, Structural)]
pub struct Supervisor {
    pub state: ProcState,
}

/// The state and result that `start` leaves behind: idempotent while a child
/// is running, otherwise the direct reading of the spawn outcome.
pub open spec fn start_spec(s: Supervisor, outcome: SpawnOutcome) -> (Supervisor, Result<
    (),
    StartError,
>) {
    if s.state is Running {
        (s, Ok(()))
    } else {
        match outcome {
            SpawnOutcome::BinaryMissing => (s, Err(StartError::BinaryNotFound)),
            SpawnOutcome::PermissionDenied => (s, Err(StartError::PermissionFailure)),
            SpawnOutcome::SpawnRefused { reason } => (s, Err(StartError::SpawnFailure(reason))),
            SpawnOutcome::Spawned { pid } => (
                Supervisor { state: ProcState::Running { pid } },
                Ok(()),
            ),
        }
    }
}

impl Supervisor {
    /// A fresh supervisor with no child.
    pub fn new() -> (s: Supervisor)
        ensures
            s.state is Absent,
    {
        Supervisor { state: ProcState::Absent }
    }

    /// Pure query: is a child recorded as running?
    pub fn is_running(&self) -> (r: bool)
        ensures
            r == (self.state is Running),
    {
        match self.state {
            ProcState::Running { .. } => true,
            ProcState::Absent => false,
        }
    }

    /// Record the result of a launch attempt.
    ///
    /// If a child is already running, the call is a no-op that succeeds: no
    /// second handle is ever created and the state is left unchanged,
    /// whatever the outcome argument says. Otherwise the outcome decides:
    /// a successful spawn transitions to `Running` with the new process
    /// identity, and each failure leaves the supervisor `Absent` and returns
    /// the matching error.
    pub fn start(&mut self, outcome: SpawnOutcome) -> (r: Result<(), StartError>)
        ensures
            *final(self) == start_spec(*old(self), outcome).0,
            r == start_spec(*old(self), outcome).1,
            old(self).state is Running ==> *final(self) == *old(self) && r is Ok,
            old(self).state is Absent && r is Ok ==> final(self).state is Running,
            old(self).state is Absent && r is Err ==> *final(self) == *old(self),
    {
        if self.is_running() {
            return Ok(());
        }
        match outcome {
            SpawnOutcome::BinaryMissing => Err(StartError::BinaryNotFound),
            SpawnOutcome::PermissionDenied => Err(StartError::PermissionFailure),
            SpawnOutcome::SpawnRefused { reason } => Err(StartError::SpawnFailure(reason)),
            SpawnOutcome::Spawned { pid } => {
                self.state = ProcState::Running { pid };
                Ok(())
            },
        }
    }

    /// Drop the child, if any, and hand back the process identity the caller
    /// should signal. Calling `stop` while already `Absent` is a no-op and
    /// never errors.
    pub fn stop(&mut self) -> (r: Option<u64>)
        ensures
            final(self).state is Absent,
            old(self).state matches ProcState::Running { pid } ==> r == Some(pid),
            old(self).state is Absent ==> *final(self) == *old(self) && r is None,
    {
        match self.state {
            ProcState::Running { pid } => {
                self.state = ProcState::Absent;
                Some(pid)
            },
            ProcState::Absent => None,
        }
    }

    /// Stop, then record a fresh launch attempt: the two-step sequence used
    /// when the editor selection changes while the server is live. The caller
    /// signals the returned process identity, waits out the settle interval,
    /// makes the launch attempt, and hands its outcome in here.
    pub fn restart(&mut self, outcome: SpawnOutcome) -> (r: (Option<u64>, Result<(), StartError>))
        ensures
            old(self).state matches ProcState::Running { pid } ==> r.0 == Some(pid),
            old(self).state is Absent ==> r.0 is None,
            ({
                let stopped = Supervisor { state: ProcState::Absent };
                *final(self) == start_spec(stopped, outcome).0 && r.1 == start_spec(
                    stopped,
                    outcome,
                ).1
            }),
    {
        let killed = self.stop();
        let res = self.start(outcome);
        (killed, res)
    }
}

} // verus!
