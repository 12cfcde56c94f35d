//! WebRTC-backed remote (internet) transport.

pub mod address;
pub mod error;
pub mod resolve;
pub mod transport;
pub mod turn;

pub use error::RtcError;
pub use transport::RtcTransport;
