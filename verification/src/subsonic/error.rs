//! Errors of Subsonic requests.

use vstd::prelude::*;
use vstd::string::*;

verus! {

/// Why a Subsonic request failed.
#[derive(Debug, Clone, PartialEq, Eq)]
pub enum SubsonicError {
    /// The server answered with status "failed".
    Api { code: i64, message: String },
    /// The server could not be reached.
    Connection(String),
    /// The request failed otherwise; the text describes the transport error.
    Request(String),
}

/// How a request failed to get an answer.
#[derive(Debug, Clone, Copy, PartialEq, Eq, Structural)]
pub enum TransportFailure {
    Timeout,
    Connect,
    Other,
}

impl SubsonicError {
    /// The error for a request that got no answer: a timeout or a refused
    /// connection is a connection error (naming the server for the latter);
    /// anything else is a request error. `detail` describes the failure.
    pub fn from_transport(kind: TransportFailure, base_url: &str, detail: &str) -> (r: SubsonicError)
        ensures
            match kind {
                TransportFailure::Timeout => r matches SubsonicError::Connection(m) && m@
                    == "Request timed out: "@ + detail@,
                TransportFailure::Connect => r matches SubsonicError::Connection(m) && m@
                    == "Cannot connect to "@ + base_url@ + ": "@ + detail@,
                TransportFailure::Other => r matches SubsonicError::Request(m) && m@ == detail@,
            },
    {
        match kind {
            TransportFailure::Timeout => {
                let mut m = crate::text::owned("Request timed out: ");
                m.append(detail);
                SubsonicError::Connection(m)
            },
            TransportFailure::Connect => {
                let mut m = crate::text::owned("Cannot connect to ");
                m.append(base_url);
                m.append(": ");
                m.append(detail);
                SubsonicError::Connection(m)
            },
            TransportFailure::Other => SubsonicError::Request(crate::text::owned(detail)),
        }
    }

    /// The error as a sentence, as the application shows it.
    pub fn describe(&self) -> (r: String)
        ensures
            match self {
                SubsonicError::Api { code, message } => r@ == "Subsonic API error "@
                    + crate::text::signed_decimal(*code as int) + ": "@ + message@,
                SubsonicError::Connection(m) => r@ == "Connection error: "@ + m@,
                SubsonicError::Request(m) => r@ == "Request error: "@ + m@,
            },
    {
        match self {
            SubsonicError::Api { code, message } => {
                let mut s = crate::text::owned("Subsonic API error ");
                let t = crate::text::i64_to_string(*code);
                s.append(t.as_str());
                s.append(": ");
                s.append(message.as_str());
                s
            },
            SubsonicError::Connection(m) => {
                let mut s = crate::text::owned("Connection error: ");
                s.append(m.as_str());
                s
            },
            SubsonicError::Request(m) => {
                let mut s = crate::text::owned("Request error: ");
                s.append(m.as_str());
                s
            },
        }
    }
}

} // verus!
