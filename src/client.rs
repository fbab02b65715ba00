use vstd::prelude::*;
use crate::outcome::{classify_response, response_outcome, CheckOutcome};
use crate::target::Target;

verus! {

/// reqwest's blocking HTTP client, carried opaquely.
#[verifier::external_type_specification]
#[verifier::external_body]
pub struct ExBlockingClient(reqwest::blocking::Client);

/// reqwest's error type, carried opaquely.
#[verifier::external_type_specification]
#[verifier::external_body]
pub struct ExReqwestError(reqwest::Error);

/// Relies on `reqwest::blocking::ClientBuilder::build` with the default
/// configuration: a client, or the error met while setting up TLS or the
/// resolver. Nothing is promised of which one comes back.
#[verifier::external_body]
fn build_client() -> (r: Result<reqwest::blocking::Client, reqwest::Error>) {
    reqwest::blocking::Client::builder().build()
}

/// Relies on `reqwest::blocking::RequestBuilder::send` for a GET of `url`
/// with the client's defaults: the status code of the response, which
/// `http::StatusCode` holds between 100 and 999, or the transport error.
#[verifier::external_body]
fn send_get(client: &reqwest::blocking::Client, url: &str) -> (r: Result<u16, reqwest::Error>)
    ensures
        r matches Ok(code) ==> 100 <= code <= 999,
{
    match client.get(url).send() {
        Ok(response) => Ok(response.status().as_u16()),
        Err(e) => Err(e),
    }
}

/// Why a client could not be set up.
#[derive(Clone, Copy, Debug, PartialEq, Eq, Structural)]
pub enum SetupError {
    /// The TLS backend or the system resolver could not be initialised.
    Backend,
}

/// A health checker that holds one reusable HTTP client.
pub struct HttpClient {
    client: reqwest::blocking::Client,
}

impl HttpClient {
    /// Sets up a client with reqwest's default configuration: redirects
    /// followed as reqwest does by default, and its default request timeout
    /// of 30 seconds.
    pub fn new() -> (r: Result<HttpClient, SetupError>) {
        match build_client() {
            Ok(client) => Ok(HttpClient { client }),
            Err(_) => Err(SetupError::Backend),
        }
    }

    /// Issues one GET to `target` and classifies what came back: 200 is a
    /// success, any other status a failure with that code, and a request
    /// that could not be completed a transport error.
    pub fn health_check(&self, target: &Target) -> (r: CheckOutcome)
        ensures
            exists|status: Option<u16>|
                #![trigger response_outcome(status)]
                r == response_outcome(status)
                && (status matches Some(code) ==> 100 <= code <= 999),
            r != CheckOutcome::UrlParseError,
    {
        let status = match send_get(&self.client, target.as_str()) {
            Ok(code) => Some(code),
            Err(_) => None,
        };
        let r = classify_response(status);
        assert(r == response_outcome(status));
        r
    }
}

} // verus!
