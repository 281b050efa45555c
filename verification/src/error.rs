//! What can go wrong while two peers negotiate. Every kind can be recovered
//! from: none of them ends the process.

use vstd::prelude::*;

verus! {

/// Why a negotiation step did not succeed.
#[derive(Clone, Copy, Debug, PartialEq, Eq, Structural)]
pub enum NegotiationError {
    /// The token handed in is malformed, truncated or not a token at all.
    /// Try again with a corrected token.
    DecodeFailed,
    /// The transport could not create the connection or a channel, or
    /// refused a description or a candidate. Try again with a fresh session.
    SetupFailed,
    /// Gathering candidates or applying the remote description took longer
    /// than allowed. Try again.
    Timeout,
}

impl NegotiationError {
    /// The text of `message`.
    pub open spec fn message_text(self) -> Seq<char> {
        match self {
            NegotiationError::DecodeFailed => "the token could not be read"@,
            NegotiationError::SetupFailed => "the connection could not be set up"@,
            NegotiationError::Timeout => "the step took too long"@,
        }
    }

    /// A message to show to the person who started the step.
    pub fn message(&self) -> (text: &'static str)
        ensures
            text@ == self.message_text(),
    {
        match self {
            NegotiationError::DecodeFailed => "the token could not be read",
            NegotiationError::SetupFailed => "the connection could not be set up",
            NegotiationError::Timeout => "the step took too long",
        }
    }
}

} // verus!
