//! Errors of the transfer engine.

use vstd::prelude::*;

use crate::app::types::PermissionKind;
use crate::rtc::RtcError;
use crate::transport::{IoError, TransportError};

verus! {

/// Why a peer search failed.
pub enum DiscoveryError<S = String> {
    /// No peer answered in time.
    NoPeersFound,
    /// The search itself failed.
    Failed(S),
}

impl View for DiscoveryError {
    type V = DiscoveryError<Seq<char>>;

    open spec fn view(&self) -> DiscoveryError<Seq<char>> {
        match self {
            DiscoveryError::NoPeersFound => DiscoveryError::NoPeersFound,
            DiscoveryError::Failed(reason) => DiscoveryError::Failed(reason@),
        }
    }
}

/// Why an operation of the engine failed.
pub enum AppError<S = String> {
    InvalidRequest(S),
    PermissionDenied { permission: PermissionKind, operation: &'static str },
    Cancelled,
    Rejected(S),
    Stalled(S),
    Rtc(RtcError<S>),
    Transport(TransportError<S>),
    Discovery(DiscoveryError<S>),
    Signaling(S),
    Protocol(S),
    Flow(S),
    Stream(S),
    Io(IoError<S>),
}

impl View for AppError {
    type V = AppError<Seq<char>>;

    open spec fn view(&self) -> AppError<Seq<char>> {
        match self {
            AppError::InvalidRequest(message) => AppError::InvalidRequest(message@),
            AppError::PermissionDenied { permission, operation } => AppError::PermissionDenied {
                permission: *permission,
                operation: *operation,
            },
            AppError::Cancelled => AppError::Cancelled,
            AppError::Rejected(message) => AppError::Rejected(message@),
            AppError::Stalled(message) => AppError::Stalled(message@),
            AppError::Rtc(error) => AppError::Rtc(error@),
            AppError::Transport(error) => AppError::Transport(error@),
            AppError::Discovery(error) => AppError::Discovery(error@),
            AppError::Signaling(message) => AppError::Signaling(message@),
            AppError::Protocol(message) => AppError::Protocol(message@),
            AppError::Flow(message) => AppError::Flow(message@),
            AppError::Stream(message) => AppError::Stream(message@),
            AppError::Io(error) => AppError::Io(error@),
        }
    }
}

} // verus!
