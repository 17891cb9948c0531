//! The failures that this crate reports: those of the data-availability layer,
//! and the one by which a state machine turns a call down.

use vstd::prelude::*;

verus! {

/// Why a retrieval or a submission came to nothing.
#[derive(Clone, Copy, Debug, PartialEq, Eq, Structural)]
pub enum DaError {
    /// A polling phase used up its budget before the light client gave a
    /// usable answer.
    Timeout,
    /// A request to the light client did not produce an HTTP response, or the
    /// response could not be read.
    Transport,
    /// The light client answered with success, but the body does not have the
    /// expected shape.
    MalformedResponse,
    /// The chain node could not give the hash or the header that was asked
    /// for.
    NodeLookupFailure,
    /// Signing, broadcasting or inclusion of a blob failed.
    SubmissionFailure,
}

impl DaError {
    /// The text of the error, as a caller would print it.
    pub open spec fn text(self) -> Seq<char> {
        match self {
            DaError::Timeout => "Timeout..."@,
            DaError::Transport => "light client request failed"@,
            DaError::MalformedResponse => "malformed light client response"@,
            DaError::NodeLookupFailure => "block not found on the node"@,
            DaError::SubmissionFailure => "blob submission failed"@,
        }
    }

    /// A one-line description of the failure.
    pub fn message(&self) -> (text: &'static str)
        ensures
            text@ == self.text(),
    {
        match self {
            DaError::Timeout => "Timeout...",
            DaError::Transport => "light client request failed",
            DaError::MalformedResponse => "malformed light client response",
            DaError::NodeLookupFailure => "block not found on the node",
            DaError::SubmissionFailure => "blob submission failed",
        }
    }
}

/// Why a state machine turned a call down. It is distinct from the failures of
/// the data-availability layer and says in words what was wrong with the
/// call.
#[derive(Clone, Debug, PartialEq, Eq)]
pub struct Error {
    /// What was wrong with the call.
    pub message: String,
}

} // verus!
