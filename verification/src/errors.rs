use vstd::prelude::*;
use vstd::string::*;
use crate::digits::{dec_rep, u64_to_dec};

verus! {

/// Why `start_backend` gave up. `BuildFailed` and `LaunchFailed` are fatal:
/// no process is owned afterwards. `ReadinessTimeout` is not: the process was
/// launched and stays owned, it just never answered the health check in time.
#[derive(Clone, Copy, Debug, PartialEq, Eq)]
pub enum StartError {
    BuildFailed,
    LaunchFailed,
    ReadinessTimeout,
}

/// Why a spawn was refused: either a process is already owned, or the
/// operating system would not create one.
#[derive(Clone, Copy, Debug, PartialEq, Eq)]
pub enum SpawnError {
    AlreadyOwned,
    OsRefused,
}

/// What went wrong while stopping an owned process. Either way the handle is
/// cleared: stopping is best-effort.
#[derive(Clone, Copy, Debug, PartialEq, Eq)]
pub enum StopError {
    SignalFailed,
    ReapFailed,
}

/// Why an ad-hoc connection test returned no payload.
#[derive(Clone, Copy, Debug, PartialEq, Eq)]
pub enum ProbeError {
    NotReady,
    Unreachable,
    ParseFailed,
}

/// The readiness poll ran out of attempts: how long it waited in all, and
/// which URL it was polling.
#[derive(Debug, PartialEq, Eq)]
pub struct TimeoutError {
    pub elapsed_millis: u64,
    pub url: String,
}

impl StartError {
    pub fn message(&self) -> (r: String)
        ensures
            *self is BuildFailed ==> r@ == "Failed to build backend"@,
            *self is LaunchFailed ==> r@ == "Failed to launch backend server"@,
            *self is ReadinessTimeout ==> r@ == "Backend server failed to become ready"@,
    {
        match self {
            StartError::BuildFailed => String::from_str("Failed to build backend"),
            StartError::LaunchFailed => String::from_str("Failed to launch backend server"),
            StartError::ReadinessTimeout => String::from_str(
                "Backend server failed to become ready",
            ),
        }
    }
}

impl StopError {
    pub fn message(&self) -> (r: String)
        ensures
            *self is SignalFailed ==> r@ == "Failed to signal backend process"@,
            *self is ReapFailed ==> r@ == "Failed to reap backend process"@,
    {
        match self {
            StopError::SignalFailed => String::from_str("Failed to signal backend process"),
            StopError::ReapFailed => String::from_str("Failed to reap backend process"),
        }
    }
}

impl TimeoutError {
    /// The descriptive text of a readiness timeout: it names the target URL
    /// and the elapsed wait, as the caller reports them.
    pub open spec fn message_spec(self) -> Seq<char> {
        "Backend at "@ + self.url@ + " failed to become ready within "@ + dec_rep(
            self.elapsed_millis as nat,
        ) + " ms"@
    }

    pub fn message(&self) -> (r: String)
        ensures
            r@ == self.message_spec(),
    {
        let mut s = String::from_str("Backend at ");
        s.append(self.url.as_str());
        s.append(" failed to become ready within ");
        let elapsed = u64_to_dec(self.elapsed_millis);
        s.append(elapsed.as_str());
        s.append(" ms");
        proof {
            assert(s@ =~= self.message_spec());
        }
        s
    }
}

} // verus!
