//! Errors of remote connections.

use vstd::prelude::*;

verus! {

/// Why a remote connection could not be made.
pub enum RtcError<S = String> {
    /// Offer and answer were exchanged, but no path came up in time.
    Timeout,
    /// The other peer never joined the session.
    PeerNeverArrived,
    /// The local user cancelled the connection.
    Cancelled,
    /// The peer connection failed.
    PeerConnection(S),
    /// Signaling failed.
    Signaling(S),
}

impl View for RtcError {
    type V = RtcError<Seq<char>>;

    open spec fn view(&self) -> RtcError<Seq<char>> {
        match self {
            RtcError::Timeout => RtcError::Timeout,
            RtcError::PeerNeverArrived => RtcError::PeerNeverArrived,
            RtcError::Cancelled => RtcError::Cancelled,
            RtcError::PeerConnection(reason) => RtcError::PeerConnection(reason@),
            RtcError::Signaling(reason) => RtcError::Signaling(reason@),
        }
    }
}

} // verus!
