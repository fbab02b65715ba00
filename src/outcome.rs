use vstd::prelude::*;

verus! {

/// The result of one health check.
#[derive(Clone, Copy, Debug, PartialEq, Eq, Structural)]
pub enum CheckOutcome {
    /// The server answered with status 200.
    Success,
    /// The server answered with another status, carried here.
    Failure(u16),
    /// The request could not be completed.
    TransportError,
    /// The target string is not an absolute HTTP or HTTPS URL.
    UrlParseError,
}

/// The outcome owed for a response that arrived with status `code`.
pub open spec fn status_outcome(code: u16) -> CheckOutcome {
    if code == 200 {
        CheckOutcome::Success
    } else {
        CheckOutcome::Failure(code)
    }
}

/// The outcome owed for a request that answered with `status`, or failed
/// in transport (`None`).
pub open spec fn response_outcome(status: Option<u16>) -> CheckOutcome {
    match status {
        Some(code) => status_outcome(code),
        None => CheckOutcome::TransportError,
    }
}

/// Classifies a received status code: 200 is a success, anything else a
/// failure that carries the code.
pub fn classify_status(code: u16) -> (r: CheckOutcome)
    ensures
        r == status_outcome(code),
        code == 200 <==> r == CheckOutcome::Success,
        code != 200 ==> r == CheckOutcome::Failure(code),
{
    if code == 200 {
        CheckOutcome::Success
    } else {
        CheckOutcome::Failure(code)
    }
}

/// Classifies the result of one request: a received status, or `None`
/// where the request could not be completed.
pub fn classify_response(status: Option<u16>) -> (r: CheckOutcome)
    ensures
        r == response_outcome(status),
        status == Some(200u16) ==> r == CheckOutcome::Success,
        forall|code: u16| status == Some(code) && code != 200 ==> r == CheckOutcome::Failure(code),
        status is None ==> r == CheckOutcome::TransportError,
{
    match status {
        Some(code) => classify_status(code),
        None => CheckOutcome::TransportError,
    }
}

} // verus!
