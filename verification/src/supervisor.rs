use vstd::prelude::*;
use crate::config::BackendConfig;
use crate::errors::{ProbeError, StartError, StopError, TimeoutError};
use crate::handle::{ProcessHandle, ProcessState};
use crate::health::HealthOutcome;
use crate::json::{json_parse_ok, parse_json};
use crate::probe::{await_ready, ready_within, ProbeSession, ReadyReport};

verus! {

/// The backend process supervisor: the single owner of the child process's
/// lifecycle. It decides the build-then-launch-then-poll sequence and the
/// shutdown guarantee; the caller performs the operating-system and network
/// work and reports each outcome back.
pub struct BackendManager {
    pub config: BackendConfig,
    pub handle: ProcessHandle,
    pub attempts: u32,
    pub interval_millis: u64,
}

impl BackendManager {
    /// Exactly one child process is owned while this holds.
    pub open spec fn owned(self) -> bool {
        self.handle.owned()
    }

    /// The probe budget's worth of intervals fits the clock.
    pub open spec fn wf(self) -> bool {
        (self.attempts as int) * (self.interval_millis as int) <= u64::MAX as int
    }

    /// What one start attempt does, given the outcomes of the external
    /// steps: a no-op on an already-running backend; a failed build aborts
    /// before any process exists; a refused spawn leaves nothing owned; a
    /// successful spawn makes the process owned, and it stays owned whether
    /// or not the readiness poll then succeeds within the attempt budget.
    pub open spec fn start_spec(
        self,
        build_exit_ok: bool,
        spawn_ok: bool,
        outcomes: Seq<HealthOutcome>,
    ) -> (BackendManager, Result<(), StartError>) {
        if self.owned() {
            (self, Result::Ok(()))
        } else if !build_exit_ok {
            (self, Result::Err(StartError::BuildFailed))
        } else if !spawn_ok {
            (self, Result::Err(StartError::LaunchFailed))
        } else {
            let started = BackendManager {
                handle: ProcessHandle { state: ProcessState::Running },
                ..self
            };
            if ready_within(outcomes, self.attempts as int) {
                (started, Result::Ok(()))
            } else {
                (started, Result::Err(StartError::ReadinessTimeout))
            }
        }
    }

    /// What stopping does: delegated to the handle, which clears itself
    /// best-effort; the configuration and the probe policy are untouched.
    pub open spec fn stop_spec(self, signal_ok: bool, reap_ok: bool) -> (BackendManager, Result<
        (),
        StopError,
    >) {
        let hr = self.handle.kill_and_wait_spec(signal_ok, reap_ok);
        (BackendManager { handle: hr.0, ..self }, hr.1)
    }

    /// What teardown does: stop, and turn a stop failure into a value to be
    /// logged rather than an error to be propagated.
    pub open spec fn shutdown_spec(self, signal_ok: bool, reap_ok: bool) -> (BackendManager, Option<
        StopError,
    >) {
        let sr = self.stop_spec(signal_ok, reap_ok);
        (
            sr.0,
            match sr.1 {
                Result::Ok(_) => None,
                Result::Err(e) => Some(e),
            },
        )
    }

    /// A supervisor with the stock configuration for one port: 30 probe
    /// attempts, 1000 ms apart, and no process owned yet.
    pub fn new(port: u16) -> (m: BackendManager)
        ensures
            m.config.is_default_for(port),
            m.handle.state is NotStarted,
            !m.owned(),
            m.attempts == 30,
            m.interval_millis == 1000,
            m.wf(),
    {
        BackendManager {
            config: BackendConfig::default_for_port(port),
            handle: ProcessHandle::new(),
            attempts: 30,
            interval_millis: 1000,
        }
    }

    /// A supervisor with its own configuration and probe policy; the
    /// readiness budget and interval are tunable, not hard-coded.
    pub fn new_with(config: BackendConfig, attempts: u32, interval_millis: u64) -> (m:
        BackendManager)
        requires
            (attempts as int) * (interval_millis as int) <= u64::MAX as int,
        ensures
            m.config == config,
            m.handle.state is NotStarted,
            !m.owned(),
            m.attempts == attempts,
            m.interval_millis == interval_millis,
            m.wf(),
    {
        BackendManager { config, handle: ProcessHandle::new(), attempts, interval_millis }
    }

    /// Purely local state: whether a child process is owned right now.
    pub fn is_backend_running(&self) -> (b: bool)
        ensures
            b == self.owned(),
    {
        self.handle.is_owned()
    }

    /// The decision after the build step: a non-zero build exit is fatal
    /// and nothing is spawned.
    pub fn build_gate(&self, build_exit_ok: bool) -> (r: Result<(), StartError>)
        ensures
            r == if build_exit_ok {
                Result::<(), StartError>::Ok(())
            } else {
                Result::<(), StartError>::Err(StartError::BuildFailed)
            },
    {
        if build_exit_ok {
            Ok(())
        } else {
            Err(StartError::BuildFailed)
        }
    }

    /// Records the outcome of spawning the launch command: a successful
    /// spawn makes the process owned; a refusal is fatal and leaves the
    /// supervisor exactly as it was.
    pub fn record_spawn(&mut self, os_spawn_ok: bool) -> (r: Result<(), StartError>)
        requires
            !old(self).owned(),
        ensures
            final(self).config == old(self).config,
            final(self).attempts == old(self).attempts,
            final(self).interval_millis == old(self).interval_millis,
            os_spawn_ok ==> final(self).handle.state is Running && r == Result::<(),
                StartError,
            >::Ok(()),
            !os_spawn_ok ==> *final(self) == *old(self) && r == Result::<(), StartError>::Err(
                StartError::LaunchFailed,
            ),
    {
        match self.handle.note_spawned(os_spawn_ok) {
            Ok(_) => Ok(()),
            Err(_) => Err(StartError::LaunchFailed),
        }
    }

    /// A fresh readiness poll under this supervisor's probe policy, for a
    /// caller that drives the poll attempt by attempt.
    pub fn probe_session(&self) -> (s: ProbeSession)
        requires
            self.wf(),
        ensures
            s.wf(),
            s.budget == self.attempts,
            s.interval_millis == self.interval_millis,
            s.used == 0,
            s.elapsed_millis == 0,
    {
        ProbeSession::new(self.attempts, self.interval_millis)
    }

    /// Polls this supervisor's health URL until ready or until its attempt
    /// budget is spent, given the outcome of each attempt.
    pub fn wait_for_backend_ready(&self, outcomes: &Vec<HealthOutcome>) -> (r: Result<
        ReadyReport,
        TimeoutError,
    >)
        requires
            self.wf(),
            outcomes@.len() >= self.attempts,
        ensures
            r is Ok <==> ready_within(outcomes@, self.attempts as int),
            r matches Ok(rep) ==> {
                &&& 1 <= rep.attempts_used <= self.attempts
                &&& outcomes@[rep.attempts_used as int - 1] is Ready
                &&& (forall|i: int|
                    0 <= i < rep.attempts_used as int - 1 ==> !(#[trigger] outcomes@[i] is Ready))
                &&& (outcomes@[rep.attempts_used as int - 1] matches HealthOutcome::Ready { body }
                    ==> rep.body@ == body@)
                &&& rep.elapsed_millis as int == (rep.attempts_used as int - 1) * (
                self.interval_millis as int)
            },
            r matches Err(te) ==> {
                &&& te.elapsed_millis as int == (self.attempts as int) * (
                self.interval_millis as int)
                &&& te.url@ == self.config.health_url_spec()
                &&& forall|i: int| 0 <= i < self.attempts ==> !(#[trigger] outcomes@[i] is Ready)
            },
    {
        let url = self.config.health_url();
        await_ready(outcomes, self.attempts, self.interval_millis, url.as_str())
    }

    /// One start attempt, given the outcomes of the external steps in
    /// order: the build's exit, the spawn's result, and what each probe
    /// attempt showed. Starting an already-running backend is a no-op that
    /// succeeds; a failed build or spawn leaves nothing owned; a readiness
    /// timeout is an error but the launched process stays owned.
    pub fn start_backend(
        &mut self,
        build_exit_ok: bool,
        spawn_ok: bool,
        probe_outcomes: &Vec<HealthOutcome>,
    ) -> (r: Result<(), StartError>)
        requires
            old(self).wf(),
            probe_outcomes@.len() >= old(self).attempts,
        ensures
            final(self).wf(),
            *final(self) == old(self).start_spec(build_exit_ok, spawn_ok, probe_outcomes@).0,
            r == old(self).start_spec(build_exit_ok, spawn_ok, probe_outcomes@).1,
    {
        if self.is_backend_running() {
            return Ok(());
        }
        if let Err(e) = self.build_gate(build_exit_ok) {
            return Err(e);
        }
        if let Err(e) = self.record_spawn(spawn_ok) {
            return Err(e);
        }
        match self.wait_for_backend_ready(probe_outcomes) {
            Ok(_report) => Ok(()),
            Err(_timeout) => Err(StartError::ReadinessTimeout),
        }
    }

    /// Stops the owned process, given the outcomes of the signal and the
    /// reap: a no-op that succeeds when nothing is owned; otherwise the
    /// handle is cleared whatever happened, and the first failure is
    /// surfaced.
    pub fn stop_backend(&mut self, signal_ok: bool, reap_ok: bool) -> (r: Result<(), StopError>)
        ensures
            *final(self) == old(self).stop_spec(signal_ok, reap_ok).0,
            r == old(self).stop_spec(signal_ok, reap_ok).1,
            !final(self).owned(),
            final(self).wf() == old(self).wf(),
    {
        self.handle.kill_and_wait(signal_ok, reap_ok)
    }

    /// The teardown path: stop, and never fail. Whatever the signal and
    /// reap outcomes, no process is owned afterwards; a stop failure is
    /// handed back only to be logged.
    pub fn shutdown(&mut self, signal_ok: bool, reap_ok: bool) -> (r: Option<StopError>)
        ensures
            *final(self) == old(self).shutdown_spec(signal_ok, reap_ok).0,
            r == old(self).shutdown_spec(signal_ok, reap_ok).1,
            !final(self).owned(),
    {
        match self.stop_backend(signal_ok, reap_ok) {
            Ok(_) => None,
            Err(e) => Some(e),
        }
    }

    /// The ad-hoc connection test: the parsed JSON payload when the health
    /// endpoint answered ready with a parseable body, and a typed error
    /// otherwise. It reads no supervisor state and may run at any time.
    pub fn test_backend_connection(&self, outcome: &HealthOutcome) -> (r: Result<
        serde_json::Value,
        ProbeError,
    >)
        ensures
            (*outcome matches HealthOutcome::Ready { body } ==> {
                &&& (r is Ok <==> json_parse_ok(body@))
                &&& (!json_parse_ok(body@) ==> r == Result::<serde_json::Value, ProbeError>::Err(
                    ProbeError::ParseFailed,
                ))
            }),
            *outcome is NotReady ==> r == Result::<serde_json::Value, ProbeError>::Err(
                ProbeError::NotReady,
            ),
            *outcome is Unreachable ==> r == Result::<serde_json::Value, ProbeError>::Err(
                ProbeError::Unreachable,
            ),
    {
        match outcome {
            HealthOutcome::Ready { body } => match parse_json(body.as_str()) {
                Some(v) => Ok(v),
                None => Err(ProbeError::ParseFailed),
            },
            HealthOutcome::NotReady => Err(ProbeError::NotReady),
            HealthOutcome::Unreachable => Err(ProbeError::Unreachable),
        }
    }
}

} // verus!
