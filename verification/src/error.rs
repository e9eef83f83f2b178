//! The ways in which the proxy itself fails a request, and the response that
//! each of them is answered with.

use crate::route::{failure_text, PathFailure};
use vstd::prelude::*;
use vstd::string::StringExecFns;

verus! {

/// Why the proxy could not answer a request with the upstream's response.
#[derive(Clone, Copy, Debug, PartialEq, Eq, Structural)]
pub enum RequestError {
    /// The method of the request is none that the upstream accepts.
    InvalidMethod,
    /// The path of the request is no route of the upstream.
    InvalidPath(PathFailure),
    /// The rate-limit coordinator has shut down and issues no ticket.
    AcquiringTicket,
    /// The address of the upstream request could not be built.
    InvalidUri,
    /// The upstream could not be reached, or its response could not be read.
    RequestIssue,
}

/// The status of the response that a failure is answered with.
pub open spec fn error_status(error: RequestError) -> u16 {
    match error {
        RequestError::InvalidMethod => 405,
        RequestError::InvalidPath(_) => 400,
        RequestError::AcquiringTicket => 500,
        RequestError::InvalidUri => 500,
        RequestError::RequestIssue => 502,
    }
}

/// The body of the response that a failure is answered with. For a path that
/// is no route, it names what is wrong with the path.
pub open spec fn error_message(error: RequestError) -> Seq<char> {
    match error {
        RequestError::InvalidMethod => "invalid method"@,
        RequestError::InvalidPath(failure) => "invalid path: "@ + failure_text(failure),
        RequestError::AcquiringTicket => "error when acquiring ratelimiting ticket"@,
        RequestError::InvalidUri => "generated uri for discord api is invalid"@,
        RequestError::RequestIssue => "error executing request"@,
    }
}

impl RequestError {
    /// The status of the response that the failure is answered with.
    pub fn status(&self) -> (status: u16)
        ensures
            status == error_status(*self),
    {
        match self {
            RequestError::InvalidMethod => 405,
            RequestError::InvalidPath(_) => 400,
            RequestError::AcquiringTicket => 500,
            RequestError::InvalidUri => 500,
            RequestError::RequestIssue => 502,
        }
    }

    /// The body of the response that the failure is answered with.
    pub fn message(&self) -> (message: String)
        ensures
            message@ == error_message(*self),
    {
        match self {
            RequestError::InvalidMethod => String::from_str("invalid method"),
            RequestError::InvalidPath(failure) => {
                let mut message = String::from_str("invalid path: ");
                message.append(failure.text());
                message
            },
            RequestError::AcquiringTicket => String::from_str(
                "error when acquiring ratelimiting ticket",
            ),
            RequestError::InvalidUri => String::from_str(
                "generated uri for discord api is invalid",
            ),
            RequestError::RequestIssue => String::from_str("error executing request"),
        }
    }
}

} // verus!
