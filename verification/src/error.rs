//! The ways a relay can go wrong.

use vstd::prelude::*;
use vstd::string::*;

verus! {

/// Why a step of a relay failed.
#[derive(Clone, Copy, Debug, PartialEq, Eq, Hash, Structural)]
pub enum RelayError {
    /// The surveillance server could not be reached, or did not answer in time.
    UpstreamUnavailable,
    /// The surveillance server answered, but not with a usable monitor list.
    UpstreamProtocolError,
    /// One camera's picture could not be had.
    SnapshotUnavailable,
    /// The chat platform did not take what was sent to it.
    ChatDeliveryError,
    /// No picture was left to send.
    NothingToSend,
}

impl RelayError {
    /// The sentence that `describe` returns for each error.
    pub open spec fn description(self) -> Seq<char> {
        match self {
            RelayError::UpstreamUnavailable => "surveillance server unavailable"@,
            RelayError::UpstreamProtocolError => "unexpected answer from the surveillance server"@,
            RelayError::SnapshotUnavailable => "camera snapshot unavailable"@,
            RelayError::ChatDeliveryError => "delivery to the chat failed"@,
            RelayError::NothingToSend => "no snapshot to send"@,
        }
    }

    /// A short sentence for logs and replies.
    pub fn describe(&self) -> (text: String)
        ensures
            text@ == self.description(),
    {
        match self {
            RelayError::UpstreamUnavailable => String::from_str("surveillance server unavailable"),
            RelayError::UpstreamProtocolError => String::from_str(
                "unexpected answer from the surveillance server",
            ),
            RelayError::SnapshotUnavailable => String::from_str("camera snapshot unavailable"),
            RelayError::ChatDeliveryError => String::from_str("delivery to the chat failed"),
            RelayError::NothingToSend => String::from_str("no snapshot to send"),
        }
    }
}

} // verus!
