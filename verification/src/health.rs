use vstd::prelude::*;
use vstd::string::*;

verus! {

/// What one probe of the health endpoint showed. `Ready` carries the body
/// text the endpoint answered with; `NotReady` is an answer with a
/// non-success status; `Unreachable` is a failure to connect (or a
/// per-request timeout).
#[derive(Debug, PartialEq, Eq)]
pub enum HealthOutcome {
    Ready { body: String },
    NotReady,
    Unreachable,
}

/// Classifies the raw pieces of one HTTP probe, as the network layer hands
/// them over: whether the request connected at all, whether the status was a
/// success, and the body text if it could be read. A success whose body
/// could not be read still counts as ready, with a fixed fallback body.
pub fn classify_response(connect_ok: bool, status_success: bool, body: Option<String>) -> (r:
    HealthOutcome)
    ensures
        !connect_ok ==> r is Unreachable,
        connect_ok && !status_success ==> r is NotReady,
        connect_ok && status_success ==> (body matches Some(t) ==> (r
            matches HealthOutcome::Ready { body: b } && b@ == t@)),
        connect_ok && status_success && body is None ==> (r matches HealthOutcome::Ready {
            body: b } && b@ == "Backend is running"@),
{
    if !connect_ok {
        HealthOutcome::Unreachable
    } else if !status_success {
        HealthOutcome::NotReady
    } else {
        match body {
            Some(t) => HealthOutcome::Ready { body: t },
            None => HealthOutcome::Ready { body: String::from_str("Backend is running") },
        }
    }
}

} // verus!
