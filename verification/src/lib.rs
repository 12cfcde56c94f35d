//! Plenum: peer-to-peer file transfer.
//!
//! The crate holds the decisions of the transfer protocol. Nothing in it opens a
//! socket, reads a file or looks at a clock: every step takes what was observed
//! and answers with what to do next.

pub mod app;
pub mod desktop;
pub mod lines;
pub mod protocol;
pub mod rtc;
pub mod signaling;
pub mod stream;
pub mod text;
pub mod transport;
pub mod wire;
