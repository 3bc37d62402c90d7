//! Errors of the CircleCI API.

use vstd::prelude::*;
use crate::text::{concat, decimal, owned, u64_to_string};

verus! {

/// An error from `reqwest`, the HTTP client.
#[verifier::external_type_specification]
#[verifier::external_body]
pub struct ExReqwestError(reqwest::Error);

/// What went wrong talking to the API.
#[derive(Debug)]
pub enum ApiError {
    /// The request could not be sent or answered.
    Network(String),
    /// The API answered with an HTTP error status.
    Http(u16, String),
    /// The answer could not be read.
    Parse(String),
    /// The request took too long.
    Timeout,
}

/// The text shown for an API error.
pub open spec fn api_error_message(e: ApiError) -> Seq<char> {
    match e {
        ApiError::Network(m) => "Network error: "@ + m@,
        ApiError::Http(status, m) => "HTTP error "@ + decimal(status as nat) + ": "@ + m@,
        ApiError::Parse(m) => "Parse error: "@ + m@,
        ApiError::Timeout => "Request timeout"@,
    }
}

impl ApiError {
    /// The text shown for the error.
    pub fn message(&self) -> (r: String)
        ensures
            r@ == api_error_message(*self),
    {
        match self {
            ApiError::Network(m) => concat("Network error: ", m.as_str()),
            ApiError::Http(status, m) => {
                let a = concat("HTTP error ", u64_to_string(*status as u64).as_str());
                let b = concat(a.as_str(), ": ");
                concat(b.as_str(), m.as_str())
            },
            ApiError::Parse(m) => concat("Parse error: ", m.as_str()),
            ApiError::Timeout => owned("Request timeout"),
        }
    }

    /// The error for a failed request: a timeout, else an HTTP error with
    /// the status the API answered, else a network error; `text` describes
    /// the failure.
    pub fn classify(timed_out: bool, status: Option<u16>, text: String) -> (r: Self)
        ensures
            timed_out ==> r is Timeout,
            !timed_out && status is Some ==> (r matches ApiError::Http(s, m) && Some(s) == status && m == text),
            !timed_out && status is None ==> (r matches ApiError::Network(m) && m == text),
    {
        if timed_out {
            ApiError::Timeout
        } else {
            match status {
                Some(s) => ApiError::Http(s, text),
                None => ApiError::Network(text),
            }
        }
    }

    /// The error for a failure reported by the HTTP client: a timeout when
    /// the client says so, else an HTTP error with the status the server
    /// answered, else a network error. The error's text is carried along.
    pub fn from_reqwest(err: &reqwest::Error) -> (r: Self)
        ensures
            reqwest_timed_out(*err) <==> r is Timeout,
            !reqwest_timed_out(*err) && reqwest_status_code(*err) is Some ==> (r matches ApiError::Http(s, _)
                && Some(s) == reqwest_status_code(*err)),
            !reqwest_timed_out(*err) && reqwest_status_code(*err) is None ==> r is Network,
    {
        let timed_out = reqwest_is_timeout(err);
        let status = reqwest_status(err);
        let text = reqwest_text(err);
        Self::classify(timed_out, status, text)
    }
}

/// What `reqwest::Error::is_timeout` answers for an error: whether the
/// failure was a timeout. It depends on the error (its kind and causes)
/// alone.
pub uninterp spec fn reqwest_timed_out(e: reqwest::Error) -> bool;

/// What `reqwest::Error::status` answers for an error, as a number: the
/// HTTP status the server answered with, when the failure was one. It
/// depends on the error alone.
pub uninterp spec fn reqwest_status_code(e: reqwest::Error) -> Option<u16>;

/// `reqwest::Error::is_timeout`: whether the failure was a timeout. The
/// answer is named, not stated: it reads the error's kind and walks its
/// chain of causes.
#[verifier::external_body]
fn reqwest_is_timeout(err: &reqwest::Error) -> (r: bool)
    ensures
        r == reqwest_timed_out(*err),
{
    err.is_timeout()
}

/// `reqwest::Error::status`, as a number: the HTTP status the server
/// answered with, when the failure was one. The answer is named, not
/// stated.
#[verifier::external_body]
fn reqwest_status(err: &reqwest::Error) -> (r: Option<u16>)
    ensures
        r == reqwest_status_code(*err),
{
    err.status().map(|s| s.as_u16())
}

/// The error's text (`to_string`). Nothing is claimed of it: the text of an
/// underlying I/O error may depend on the system's locale.
#[verifier::external_body]
fn reqwest_text(err: &reqwest::Error) -> String {
    err.to_string()
}

} // verus!
