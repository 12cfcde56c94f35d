//! Byte-frame transports.

pub mod crypto;
pub mod envelope;
pub mod error;
pub mod secure;
pub mod secure_laws;
pub mod tcp;

pub use error::{IoError, IoErrorKind, TransportError};
