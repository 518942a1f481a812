use vstd::prelude::*;
use crate::errors::{StartError, StopError};
use crate::health::HealthOutcome;
use crate::probe::ready_within;
use crate::supervisor::BackendManager;

verus! {

/// Starting is idempotent: after a start attempt that succeeded, a second
/// start attempt — whatever its build, spawn and probe outcomes would have
/// been — changes nothing and succeeds, and still exactly one process is
/// owned.
pub proof fn lemma_start_idempotent(
    m: BackendManager,
    build1: bool,
    spawn1: bool,
    probe1: Seq<HealthOutcome>,
    build2: bool,
    spawn2: bool,
    probe2: Seq<HealthOutcome>,
)
    requires
        m.start_spec(build1, spawn1, probe1).1 is Ok,
    ensures
        ({
            let after_first = m.start_spec(build1, spawn1, probe1).0;
            &&& after_first.owned()
            &&& after_first.start_spec(build2, spawn2, probe2) == (
                after_first,
                Result::<(), StartError>::Ok(()),
            )
        }),
{
}

/// Stopping is idempotent: a stop when no process is owned succeeds and
/// changes nothing, whatever the signal and reap outcomes.
pub proof fn lemma_stop_when_not_owned_is_noop(m: BackendManager, signal_ok: bool, reap_ok: bool)
    requires
        !m.owned(),
    ensures
        m.stop_spec(signal_ok, reap_ok) == (m, Result::<(), StopError>::Ok(())),
{
}

/// The teardown guarantee: after a shutdown no process is owned, from every
/// state and whatever the signal and reap outcomes — even a stuck process
/// is let go of, and teardown itself never fails.
pub proof fn lemma_shutdown_releases(m: BackendManager, signal_ok: bool, reap_ok: bool)
    ensures
        !m.shutdown_spec(signal_ok, reap_ok).0.owned(),
{
}

/// The build gate: when no process is owned and the build step fails, a
/// start attempt reports the build failure and spawns nothing — the
/// supervisor is left exactly as it was, with nothing owned.
pub proof fn lemma_build_gate(
    m: BackendManager,
    spawn_ok: bool,
    probe: Seq<HealthOutcome>,
)
    requires
        !m.owned(),
    ensures
        m.start_spec(false, spawn_ok, probe) == (m, Result::<(), StartError>::Err(
            StartError::BuildFailed,
        )),
        !m.start_spec(false, spawn_ok, probe).0.owned(),
{
}

/// Success is owed: from a supervisor that owns nothing — freshly made or
/// stopped, the supervisor is restartable — a start attempt whose build and
/// spawn succeeded and whose probe outcomes show a ready endpoint within
/// the budget succeeds, and the process is owned afterwards.
pub proof fn lemma_start_success_owed(m: BackendManager, probe: Seq<HealthOutcome>)
    requires
        !m.owned(),
        ready_within(probe, m.attempts as int),
    ensures
        m.start_spec(true, true, probe).1 == Result::<(), StartError>::Ok(()),
        m.start_spec(true, true, probe).0.owned(),
{
}

/// A readiness timeout does not orphan the launch: when the build and the
/// spawn succeeded but no probe attempt within the budget showed a ready
/// endpoint, the start attempt reports the timeout and the process stays
/// owned — it is not auto-killed.
pub proof fn lemma_timeout_retains_ownership(m: BackendManager, probe: Seq<HealthOutcome>)
    requires
        !m.owned(),
        !ready_within(probe, m.attempts as int),
    ensures
        m.start_spec(true, true, probe).1 == Result::<(), StartError>::Err(
            StartError::ReadinessTimeout,
        ),
        m.start_spec(true, true, probe).0.owned(),
{
}

} // verus!
