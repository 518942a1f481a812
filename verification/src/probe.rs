use vstd::prelude::*;
use vstd::string::*;
use crate::errors::TimeoutError;
use crate::health::HealthOutcome;

verus! {

/// Whether any of the first `n` probe outcomes showed a ready endpoint.
pub open spec fn ready_within(s: Seq<HealthOutcome>, n: int) -> bool {
    exists|i: int| 0 <= i < n && #[trigger] s[i] is Ready
}

/// What the probe protocol asks for after one attempt: stop with the ready
/// payload, sleep and try again, or give up.
#[derive(Debug, PartialEq, Eq)]
pub enum ProbeStep {
    Done { body: String },
    RetryAfter { millis: u64 },
    TimedOut,
}

/// One readiness poll in progress: a bounded budget of attempts, a fixed
/// interval charged against every failed attempt, and the wall-clock total
/// charged so far.
#[derive(Clone, Copy, Debug, PartialEq, Eq)]
pub struct ProbeSession {
    pub budget: u32,
    pub interval_millis: u64,
    pub used: u32,
    pub elapsed_millis: u64,
}

impl ProbeSession {
    pub open spec fn wf(self) -> bool {
        &&& self.used <= self.budget
        &&& (self.budget as int) * (self.interval_millis as int) <= u64::MAX as int
        &&& self.elapsed_millis <= (self.used as int) * (self.interval_millis as int)
    }

    pub fn new(budget: u32, interval_millis: u64) -> (s: ProbeSession)
        requires
            (budget as int) * (interval_millis as int) <= u64::MAX as int,
        ensures
            s.wf(),
            s.budget == budget,
            s.interval_millis == interval_millis,
            s.used == 0,
            s.elapsed_millis == 0,
    {
        ProbeSession { budget, interval_millis, used: 0, elapsed_millis: 0 }
    }

    /// Feeds the session the outcome of one probe attempt and decides what
    /// comes next. A ready outcome ends the poll at once, with no further
    /// wait charged; any other outcome costs one attempt and one interval,
    /// and exhausting the budget times the poll out. A session whose budget
    /// is already spent only ever answers `TimedOut`.
    pub fn step(&mut self, outcome: &HealthOutcome) -> (r: ProbeStep)
        requires
            old(self).wf(),
        ensures
            final(self).wf(),
            final(self).budget == old(self).budget,
            final(self).interval_millis == old(self).interval_millis,
            old(self).used >= old(self).budget ==> r is TimedOut && *final(self) == *old(self),
            old(self).used < old(self).budget ==> {
                &&& final(self).used == old(self).used + 1
                &&& (*outcome matches HealthOutcome::Ready { body } ==> (r matches ProbeStep::Done {
                    body: b } && b@ == body@ && final(self).elapsed_millis == old(
                    self,
                ).elapsed_millis))
                &&& !(*outcome is Ready) ==> {
                    &&& final(self).elapsed_millis == old(self).elapsed_millis + old(
                        self,
                    ).interval_millis
                    &&& (old(self).used + 1 < old(self).budget ==> r == (ProbeStep::RetryAfter {
                        millis: old(self).interval_millis,
                    }))
                    &&& (old(self).used + 1 == old(self).budget ==> r is TimedOut)
                }
            },
    {
        if self.used >= self.budget {
            return ProbeStep::TimedOut;
        }
        proof {
            lemma_attempt_cost(
                self.used as int,
                self.budget as int,
                self.interval_millis as int,
                self.elapsed_millis as int,
            );
        }
        self.used = self.used + 1;
        match outcome {
            HealthOutcome::Ready { body } => ProbeStep::Done { body: body.clone() },
            _ => {
                self.elapsed_millis = self.elapsed_millis + self.interval_millis;
                if self.used < self.budget {
                    ProbeStep::RetryAfter { millis: self.interval_millis }
                } else {
                    ProbeStep::TimedOut
                }
            },
        }
    }
}

/// The report a successful readiness poll hands back: the ready payload,
/// how many attempts it took and how long was waited before it.
#[derive(Debug, PartialEq, Eq)]
pub struct ReadyReport {
    pub body: String,
    pub attempts_used: u32,
    pub elapsed_millis: u64,
}

/// Drives a probe session over the outcomes of successive attempts until
/// the endpoint is ready or the budget is spent. The first ready outcome
/// ends the poll at once with its payload; with no ready outcome among the
/// first `budget`, the poll fails after exactly `budget` attempts, having
/// waited one interval for each, and the error names the waited time and
/// the polled URL. Later outcomes are never looked at.
pub fn await_ready(
    outcomes: &Vec<HealthOutcome>,
    budget: u32,
    interval_millis: u64,
    url: &str,
) -> (r: Result<ReadyReport, TimeoutError>)
    requires
        outcomes@.len() >= budget,
        (budget as int) * (interval_millis as int) <= u64::MAX as int,
    ensures
        r is Ok <==> ready_within(outcomes@, budget as int),
        r matches Ok(rep) ==> {
            &&& 1 <= rep.attempts_used <= budget
            &&& outcomes@[rep.attempts_used as int - 1] is Ready
            &&& (forall|i: int|
                0 <= i < rep.attempts_used as int - 1 ==> !(#[trigger] outcomes@[i] is Ready))
            &&& (outcomes@[rep.attempts_used as int - 1] matches HealthOutcome::Ready { body }
                ==> rep.body@ == body@)
            &&& rep.elapsed_millis as int == (rep.attempts_used as int - 1) * (
            interval_millis as int)
        },
        r matches Err(te) ==> {
            &&& te.elapsed_millis as int == (budget as int) * (interval_millis as int)
            &&& te.url@ == url@
            &&& forall|i: int| 0 <= i < budget ==> !(#[trigger] outcomes@[i] is Ready)
        },
{
    let mut session = ProbeSession::new(budget, interval_millis);
    let mut idx: usize = 0;
    loop
        invariant
            session.wf(),
            session.budget == budget,
            session.interval_millis == interval_millis,
            session.used == idx,
            idx <= budget,
            outcomes@.len() >= budget,
            (budget as int) * (interval_millis as int) <= u64::MAX as int,
            session.elapsed_millis as int == (idx as int) * (interval_millis as int),
            forall|i: int| 0 <= i < idx ==> !(#[trigger] outcomes@[i] is Ready),
        decreases budget - idx,
    {
        if idx >= budget as usize {
            return Err(
                TimeoutError { elapsed_millis: session.elapsed_millis, url: String::from_str(url) },
            );
        }
        let outcome = &outcomes[idx];
        let ghost i0 = idx as int;
        let step = session.step(outcome);
        idx = idx + 1;
        proof {
            assert((i0 + 1) * (interval_millis as int) == i0 * (interval_millis as int)
                + interval_millis as int) by (nonlinear_arith);
        }
        match step {
            ProbeStep::Done { body } => {
                return Ok(
                    ReadyReport {
                        body,
                        attempts_used: session.used,
                        elapsed_millis: session.elapsed_millis,
                    },
                );
            },
            ProbeStep::RetryAfter { .. } => {},
            ProbeStep::TimedOut => {
                return Err(
                    TimeoutError {
                        elapsed_millis: session.elapsed_millis,
                        url: String::from_str(url),
                    },
                );
            },
        }
    }
}

/// One more failed attempt keeps the charged time within the budget's worth
/// of intervals: from `elapsed <= used * interval` and `used < budget` it
/// follows that `elapsed + interval <= (used + 1) * interval <= budget *
/// interval`.
proof fn lemma_attempt_cost(used: int, budget: int, interval: int, elapsed: int)
    requires
        0 <= used < budget,
        0 <= interval,
        0 <= elapsed,
        elapsed <= used * interval,
    ensures
        elapsed + interval <= (used + 1) * interval,
        (used + 1) * interval <= budget * interval,
        used * interval <= (used + 1) * interval,
{
    assert((used + 1) * interval == used * interval + interval) by (nonlinear_arith);
    assert((used + 1) * interval <= budget * interval) by (nonlinear_arith)
        requires
            used + 1 <= budget,
            0 <= interval,
    ;
}

} // verus!
