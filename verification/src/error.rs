//! The ways in which an operation against the provider can fail.

use vstd::prelude::*;

verus! {

/// Why an operation against the provider, or against the address service,
/// produced no value.
#[derive(Clone, Copy, Debug, PartialEq, Eq, Structural)]
pub enum ClientError {
    /// No usable answer arrived: the connection failed or timed out, the
    /// HTTP status was not a success, or the body could not be read.
    Transport,
    /// An answer arrived with a successful status, but its envelope says
    /// that the provider refused the request.
    ApiRejected,
    /// Nothing matched where exactly one item was expected.
    NotFound,
    /// More than one item matched where exactly one was expected.
    Ambiguous,
}

impl ClientError {
    /// The text that describes this failure in a log line.
    pub open spec fn message_text(self) -> Seq<char> {
        match self {
            ClientError::Transport => "request failed or returned an unsuccessful status"@,
            ClientError::ApiRejected => "unsuccessful Cloudflare request"@,
            ClientError::NotFound => "no match found where exactly one was expected"@,
            ClientError::Ambiguous => "more than one match found where exactly one was expected"@,
        }
    }

    /// A short description of the failure, for log lines.
    pub fn message(&self) -> (text: &'static str)
        ensures
            text@ == self.message_text(),
    {
        match self {
            ClientError::Transport => "request failed or returned an unsuccessful status",
            ClientError::ApiRejected => "unsuccessful Cloudflare request",
            ClientError::NotFound => "no match found where exactly one was expected",
            ClientError::Ambiguous => "more than one match found where exactly one was expected",
        }
    }
}

} // verus!
