//! The one error model that every operation reports through.

use vstd::prelude::*;

verus! {

/// Why an operation failed.
#[derive(Clone, Copy, Debug, PartialEq, Eq, Structural)]
pub enum ClientError {
    /// The request never completed: network, proxy, TLS or timeout.
    Transport,
    /// The session could not be set up: the cookie cannot be sent as a header,
    /// or the organization listing names no usable organization.
    Construct,
    /// A reply did not have the shape that the endpoint promises.
    Decode,
    /// A streamed reply held no parseable terminal record.
    Format,
    /// A local file could not be opened for upload.
    Io,
    /// An operation failed as a whole; the cause is deliberately not reported.
    Operation,
}

impl ClientError {
    /// A short description, fit for a log line or a message to the user.
    pub fn message(&self) -> (text: &'static str)
        ensures
            text@ == self.message_spec(),
    {
        match self {
            ClientError::Transport => "the request could not be completed",
            ClientError::Construct => "no organization could be resolved for this session",
            ClientError::Decode => "the reply does not match the expected schema",
            ClientError::Format => "wrong response format",
            ClientError::Io => "the attachment could not be opened",
            ClientError::Operation => "the operation failed",
        }
    }

    /// The text that [`ClientError::message`] returns.
    pub open spec fn message_spec(&self) -> Seq<char> {
        match self {
            ClientError::Transport => "the request could not be completed"@,
            ClientError::Construct => "no organization could be resolved for this session"@,
            ClientError::Decode => "the reply does not match the expected schema"@,
            ClientError::Format => "wrong response format"@,
            ClientError::Io => "the attachment could not be opened"@,
            ClientError::Operation => "the operation failed"@,
        }
    }
}

} // verus!
