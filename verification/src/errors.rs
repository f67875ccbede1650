//! The error kinds of the client. Every failure is terminal for one
//! invocation: it is reported as a human-readable message and the process
//! exits non-zero.

use vstd::prelude::*;
use vstd::string::*;

verus! {

/// One error kind per stage of the pipeline: argument parsing, URL
/// validation, `key=value` validation, the network request, and response
/// rendering. `RequestFailed` carries the transport's own description.
#[derive(Debug, Clone, PartialEq, Eq)]
pub enum HttpError {
    ArgumentError,
    InvalidUrl,
    InvalidPair,
    RequestFailed(String),
    RenderError,
}

impl HttpError {
    /// The message shown on standard error for this kind.
    pub open spec fn spec_message(self) -> Seq<char> {
        match self {
            HttpError::ArgumentError => "bad arguments"@,
            HttpError::InvalidUrl => "invalid URL"@,
            HttpError::InvalidPair => "invalid key=value pair"@,
            HttpError::RequestFailed(d) => "request failed: "@ + d@,
            HttpError::RenderError => "cannot render response body"@,
        }
    }

    pub fn message(&self) -> (r: String)
        ensures
            r@ == self.spec_message(),
    {
        match self {
            HttpError::ArgumentError => String::from_str("bad arguments"),
            HttpError::InvalidUrl => String::from_str("invalid URL"),
            HttpError::InvalidPair => String::from_str("invalid key=value pair"),
            HttpError::RequestFailed(d) => {
                let mut m = String::from_str("request failed: ");
                m.append(d.as_str());
                m
            },
            HttpError::RenderError => String::from_str("cannot render response body"),
        }
    }
}

} // verus!
