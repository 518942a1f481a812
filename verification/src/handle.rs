use vstd::prelude::*;
use crate::errors::{SpawnError, StopError};

verus! {

/// Whether a child process has ever been owned, is owned now, or has been
/// stopped. `Stopped` is not terminal: a new spawn is permitted from any
/// state but `Running`.
#[derive(Clone, Copy, Debug, PartialEq, Eq)]
pub enum ProcessState {
    NotStarted,
    Running,
    Stopped,
}

/// The ownership token for at most one child process. The operating-system
/// side of spawning and killing lives with the caller; this token is the
/// single source of truth for whether a process is owned, and its
/// transitions are the only way that answer changes.
#[derive(Clone, Copy, Debug, PartialEq, Eq)]
pub struct ProcessHandle {
    pub state: ProcessState,
}

impl ProcessHandle {
    /// Exactly one child process is owned while this holds.
    pub open spec fn owned(self) -> bool {
        self.state is Running
    }

    /// What stopping does: a no-op when nothing is owned; otherwise the
    /// handle is cleared whatever happened (best effort), and the first
    /// failure of the signal or the reap is reported.
    pub open spec fn kill_and_wait_spec(self, signal_ok: bool, reap_ok: bool) -> (ProcessHandle,
        Result<(), StopError>) {
        if !self.owned() {
            (self, Result::Ok(()))
        } else {
            let cleared = ProcessHandle { state: ProcessState::Stopped };
            if !signal_ok {
                (cleared, Result::Err(StopError::SignalFailed))
            } else if !reap_ok {
                (cleared, Result::Err(StopError::ReapFailed))
            } else {
                (cleared, Result::Ok(()))
            }
        }
    }

    pub fn new() -> (h: ProcessHandle)
        ensures
            h.state is NotStarted,
            !h.owned(),
    {
        ProcessHandle { state: ProcessState::NotStarted }
    }

    /// Non-blocking check of current ownership.
    pub fn is_owned(&self) -> (b: bool)
        ensures
            b == self.owned(),
    {
        match self.state {
            ProcessState::Running => true,
            _ => false,
        }
    }

    /// Spawning is refused while a process is already owned; the caller
    /// checks this before asking the operating system for a child.
    pub fn try_begin_spawn(&self) -> (r: Result<(), SpawnError>)
        ensures
            r == if self.owned() {
                Result::<(), SpawnError>::Err(SpawnError::AlreadyOwned)
            } else {
                Result::<(), SpawnError>::Ok(())
            },
    {
        if self.is_owned() {
            Err(SpawnError::AlreadyOwned)
        } else {
            Ok(())
        }
    }

    /// Records the outcome of the operating system's spawn. Only a
    /// successful spawn makes the handle owned; a refused spawn leaves it
    /// exactly as it was.
    pub fn note_spawned(&mut self, os_ok: bool) -> (r: Result<(), SpawnError>)
        requires
            !old(self).owned(),
        ensures
            os_ok ==> final(self).state is Running && r == Result::<(), SpawnError>::Ok(()),
            !os_ok ==> *final(self) == *old(self) && r == Result::<(), SpawnError>::Err(
                SpawnError::OsRefused,
            ),
    {
        if os_ok {
            self.state = ProcessState::Running;
            Ok(())
        } else {
            Err(SpawnError::OsRefused)
        }
    }

    /// Records the outcome of signalling and reaping the owned process.
    /// Idempotent when nothing is owned; otherwise the handle is cleared
    /// regardless, so a stuck process can never be taken for stopping twice.
    pub fn kill_and_wait(&mut self, signal_ok: bool, reap_ok: bool) -> (r: Result<(), StopError>)
        ensures
            *final(self) == old(self).kill_and_wait_spec(signal_ok, reap_ok).0,
            r == old(self).kill_and_wait_spec(signal_ok, reap_ok).1,
            !final(self).owned(),
    {
        if self.is_owned() {
            self.state = ProcessState::Stopped;
            if !signal_ok {
                Err(StopError::SignalFailed)
            } else if !reap_ok {
                Err(StopError::ReapFailed)
            } else {
                Ok(())
            }
        } else {
            Ok(())
        }
    }
}

} // verus!
