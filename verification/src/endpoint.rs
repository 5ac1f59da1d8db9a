//! The backend's fixed addresses, and what counts as a healthy answer.

use vstd::prelude::*;
use vstd::string::StringExecFns;
use crate::probe::AttemptOutcome;

verus! {

/// Base URL of the backend, as the UI layer asks for it.
pub fn get_backend_url() -> (url: String)
    ensures
        url@ == "http://localhost:8000"@,
{
    String::from_str("http://localhost:8000")
}

/// URL that the readiness probe sends its GET to: the base URL followed by
/// `/health`.
pub fn health_url() -> (url: String)
    ensures
        url@ == "http://localhost:8000"@ + "/health"@,
        url@ == "http://localhost:8000/health"@,
{
    let url = get_backend_url().concat("/health");
    proof {
        reveal_strlit("http://localhost:8000");
        reveal_strlit("/health");
        reveal_strlit("http://localhost:8000/health");
        assert(url@ =~= "http://localhost:8000/health"@);
    }
    url
}

/// A status code indicates success when it is in the 2xx class.
pub open spec fn is_success_status(code: u16) -> bool {
    200 <= code < 300
}

/// The outcome of one attempt, from what came back: `None` for a request that
/// got no response at all, `Some(code)` for a response with that status.
pub open spec fn outcome_of(response: Option<u16>) -> AttemptOutcome {
    match response {
        None => AttemptOutcome::TransportFailure,
        Some(code) => if is_success_status(code) {
            AttemptOutcome::Success
        } else {
            AttemptOutcome::NonSuccessStatus
        },
    }
}

/// Asks `reqwest::StatusCode` (built by `StatusCode::from_u16`) whether it
/// `is_success`. Trusted: for a code that `from_u16` accepts, which is any
/// from 100 to 999, the answer is whether the code lies in 200..=299.
#[verifier::external_body]
fn status_code_is_success(code: u16) -> (success: bool)
    requires
        100 <= code <= 999,
    ensures
        success == is_success_status(code),
{
    match reqwest::StatusCode::from_u16(code) {
        Ok(status) => status.is_success(),
        Err(_) => false,
    }
}

/// Whether a response with this status code counts as a healthy answer. A
/// number that is no HTTP status code at all does not.
pub fn status_is_success(code: u16) -> (success: bool)
    ensures
        success == is_success_status(code),
{
    if code < 100 || code > 999 {
        false
    } else {
        status_code_is_success(code)
    }
}

/// Classifies one attempt against the health endpoint. Only a response with
/// a 2xx status is a success; a transport failure and any other status are
/// failed attempts.
pub fn classify_response(response: Option<u16>) -> (outcome: AttemptOutcome)
    ensures
        outcome == outcome_of(response),
{
    match response {
        None => AttemptOutcome::TransportFailure,
        Some(code) => {
            if status_is_success(code) {
                AttemptOutcome::Success
            } else {
                AttemptOutcome::NonSuccessStatus
            }
        },
    }
}

} // verus!
