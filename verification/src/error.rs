//! The relay's error taxonomy.
//!
//! Startup can fail on a malformed authorization secret; a completion call can
//! fail on the transport, on a bad HTTP status, or on a malformed body; and a
//! completion response with no choices is an explicitly handled condition, not
//! a crash. A gateway close is not an error: it surfaces as an event and ends
//! the loop.

use vstd::prelude::*;
use vstd::string::StringExecFns;

verus! {

/// Everything that the relay's own operations can fail with.
#[derive(Debug, Clone, PartialEq, Eq)]
pub enum AppError {
    /// The completion-API secret holds characters that can never stand in an
    /// HTTP header value; constructing the client is refused at startup.
    InvalidAuthHeader,
    /// A transport-level failure on the completion call.
    Network { detail: String },
    /// The completion endpoint answered with a non-success status.
    HttpStatus { code: u16 },
    /// The completion endpoint's body could not be decoded.
    Decode { detail: String },
    /// The completion endpoint returned zero choices; there is no text to
    /// reply with, and the event is skipped.
    EmptyChoices,
}

/// The diagnostic line that each error renders to.
pub open spec fn spec_message(e: AppError) -> Seq<char> {
    match e {
        AppError::InvalidAuthHeader => "cannot build an authorization header from the configured key"@,
        AppError::Network { detail } => "network error on the completion call: "@ + detail@,
        AppError::HttpStatus { code: _ } => "the completion endpoint answered with an error status"@,
        AppError::Decode { detail } => "cannot decode the completion response: "@ + detail@,
        AppError::EmptyChoices => "the completion response held no choices"@,
    }
}

impl AppError {
    /// Render the error as a diagnostic line.
    pub fn describe(&self) -> (r: String)
        ensures
            r@ == spec_message(*self),
    {
        match self {
            AppError::InvalidAuthHeader => String::from_str(
                "cannot build an authorization header from the configured key",
            ),
            AppError::Network { detail } => String::from_str(
                "network error on the completion call: ",
            ).concat(detail.as_str()),
            AppError::HttpStatus { code: _ } => String::from_str(
                "the completion endpoint answered with an error status",
            ),
            AppError::Decode { detail } => String::from_str(
                "cannot decode the completion response: ",
            ).concat(detail.as_str()),
            AppError::EmptyChoices => String::from_str(
                "the completion response held no choices",
            ),
        }
    }
}

} // verus!
