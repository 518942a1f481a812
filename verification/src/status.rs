use vstd::prelude::*;
use vstd::string::*;
use crate::health::HealthOutcome;

verus! {

/// The quick UI-facing check: true exactly when the health endpoint
/// answered with a success status. It never fails; every probe failure is
/// downgraded to `false`.
pub fn check_backend_connection(outcome: &HealthOutcome) -> (r: bool)
    ensures
        r == (*outcome is Ready),
{
    match outcome {
        HealthOutcome::Ready { .. } => true,
        _ => false,
    }
}

/// The UI-facing status line: the health endpoint's body text verbatim when
/// it answered ready, and one of two fixed messages otherwise. It never
/// fails; every probe failure is downgraded to a readable string.
pub fn get_backend_status(outcome: &HealthOutcome) -> (r: String)
    ensures
        *outcome matches HealthOutcome::Ready { body } ==> r@ == body@,
        *outcome is NotReady ==> r@ == "Backend is not responding properly"@,
        *outcome is Unreachable ==> r@
            == "Backend is not available. Please start the backend server first."@,
{
    match outcome {
        HealthOutcome::Ready { body } => body.clone(),
        HealthOutcome::NotReady => String::from_str("Backend is not responding properly"),
        HealthOutcome::Unreachable => String::from_str(
            "Backend is not available. Please start the backend server first.",
        ),
    }
}

} // verus!
