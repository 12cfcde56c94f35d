//! The transfer engine: requests, events and the machines that run a transfer.

pub mod bench_run;
pub mod bench_series;
pub mod clock;
pub mod control;
pub mod course_laws;
pub mod drive;
pub mod engine;
pub mod error;
pub mod handshake;
pub mod intake;
pub mod listen_run;
pub mod log_laws;
pub mod name;
pub mod outstanding;
pub mod payload;
pub mod receive;
pub mod receive_laws;
pub mod receive_run;
pub mod remote;
pub mod remote_run;
pub mod script;
pub mod send;
pub mod send_laws;
pub mod send_run;
pub mod stream_run;
pub mod streaming;
pub mod told;
pub mod transfer;
pub mod types;
pub mod validate;
pub mod window_run;
pub mod windowed;

pub use control::SessionControl;
pub use engine::PlenumCore;
pub use error::AppError;
pub use types::{
    ConnectionState, CorePermissions, LogLevel, PlenumEvent, ReceiveRequest, SendRequest,
    TransferDirection, TransferEvent, TransferMode, TransferOptions, TransferSummary,
};
