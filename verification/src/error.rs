//! The error taxonomy. Every failure a call can meet maps to one of these;
//! no function of the library panics.

use vstd::prelude::*;

verus! {

/// Why a call failed.
#[derive(Debug, Clone, PartialEq, Eq)]
pub enum ApiError {
    /// The network layer failed: connection, name resolution, TLS, timeout.
    /// Holds the transport's own message.
    Transport(String),
    /// A URL could not be parsed by the transport. The fixed endpoint URLs
    /// never produce this; it guards runtime-variable bases.
    InvalidUrl(String),
    /// The response body was not valid JSON, was not the expected envelope,
    /// or its payload did not match the endpoint's schema. Holds a short
    /// description of what was wrong.
    Decode(String),
}

impl ApiError {
    /// The error's message text.
    pub fn message(&self) -> (r: &str)
        ensures
            r@ == match self {
                ApiError::Transport(m) => m@,
                ApiError::InvalidUrl(m) => m@,
                ApiError::Decode(m) => m@,
            },
    {
        match self {
            ApiError::Transport(m) => m.as_str(),
            ApiError::InvalidUrl(m) => m.as_str(),
            ApiError::Decode(m) => m.as_str(),
        }
    }
}

} // verus!
