//! Transport-level errors.

use std::time::Duration;

use vstd::prelude::*;
use vstd::string::*;

use crate::lines::{lemma_two, says, stands_at};
use crate::text::{decimal, push_decimal};

verus! {

/// The category of an I/O failure, as the operating system reports it.
#[derive(Debug, Clone, Copy, PartialEq, Eq, Structural)]
pub enum IoErrorKind {
    NotFound,
    PermissionDenied,
    ConnectionRefused,
    ConnectionReset,
    HostUnreachable,
    NetworkUnreachable,
    ConnectionAborted,
    NotConnected,
    AddrInUse,
    AddrNotAvailable,
    NetworkDown,
    BrokenPipe,
    AlreadyExists,
    WouldBlock,
    NotADirectory,
    IsADirectory,
    DirectoryNotEmpty,
    ReadOnlyFilesystem,
    StaleNetworkFileHandle,
    InvalidInput,
    InvalidData,
    TimedOut,
    WriteZero,
    StorageFull,
    NotSeekable,
    QuotaExceeded,
    FileTooLarge,
    ResourceBusy,
    ExecutableFileBusy,
    Deadlock,
    CrossesDevices,
    TooManyLinks,
    InvalidFilename,
    ArgumentListTooLong,
    Interrupted,
    Unsupported,
    UnexpectedEof,
    OutOfMemory,
    InProgress,
    Other,
    Uncategorized,
}

/// The name of an I/O failure's category.
pub open spec fn kind_name(kind: IoErrorKind) -> Seq<char> {
    match kind {
        IoErrorKind::NotFound => "NotFound"@,
        IoErrorKind::PermissionDenied => "PermissionDenied"@,
        IoErrorKind::ConnectionRefused => "ConnectionRefused"@,
        IoErrorKind::ConnectionReset => "ConnectionReset"@,
        IoErrorKind::HostUnreachable => "HostUnreachable"@,
        IoErrorKind::NetworkUnreachable => "NetworkUnreachable"@,
        IoErrorKind::ConnectionAborted => "ConnectionAborted"@,
        IoErrorKind::NotConnected => "NotConnected"@,
        IoErrorKind::AddrInUse => "AddrInUse"@,
        IoErrorKind::AddrNotAvailable => "AddrNotAvailable"@,
        IoErrorKind::NetworkDown => "NetworkDown"@,
        IoErrorKind::BrokenPipe => "BrokenPipe"@,
        IoErrorKind::AlreadyExists => "AlreadyExists"@,
        IoErrorKind::WouldBlock => "WouldBlock"@,
        IoErrorKind::NotADirectory => "NotADirectory"@,
        IoErrorKind::IsADirectory => "IsADirectory"@,
        IoErrorKind::DirectoryNotEmpty => "DirectoryNotEmpty"@,
        IoErrorKind::ReadOnlyFilesystem => "ReadOnlyFilesystem"@,
        IoErrorKind::StaleNetworkFileHandle => "StaleNetworkFileHandle"@,
        IoErrorKind::InvalidInput => "InvalidInput"@,
        IoErrorKind::InvalidData => "InvalidData"@,
        IoErrorKind::TimedOut => "TimedOut"@,
        IoErrorKind::WriteZero => "WriteZero"@,
        IoErrorKind::StorageFull => "StorageFull"@,
        IoErrorKind::NotSeekable => "NotSeekable"@,
        IoErrorKind::QuotaExceeded => "QuotaExceeded"@,
        IoErrorKind::FileTooLarge => "FileTooLarge"@,
        IoErrorKind::ResourceBusy => "ResourceBusy"@,
        IoErrorKind::ExecutableFileBusy => "ExecutableFileBusy"@,
        IoErrorKind::Deadlock => "Deadlock"@,
        IoErrorKind::CrossesDevices => "CrossesDevices"@,
        IoErrorKind::TooManyLinks => "TooManyLinks"@,
        IoErrorKind::InvalidFilename => "InvalidFilename"@,
        IoErrorKind::ArgumentListTooLong => "ArgumentListTooLong"@,
        IoErrorKind::Interrupted => "Interrupted"@,
        IoErrorKind::Unsupported => "Unsupported"@,
        IoErrorKind::UnexpectedEof => "UnexpectedEof"@,
        IoErrorKind::OutOfMemory => "OutOfMemory"@,
        IoErrorKind::InProgress => "InProgress"@,
        IoErrorKind::Other => "Other"@,
        IoErrorKind::Uncategorized => "Uncategorized"@,
    }
}

impl IoErrorKind {
    /// The name of the category.
    pub fn name(&self) -> (name: &'static str)
        ensures
            name@ == kind_name(*self),
    {
        match *self {
            IoErrorKind::NotFound => "NotFound",
            IoErrorKind::PermissionDenied => "PermissionDenied",
            IoErrorKind::ConnectionRefused => "ConnectionRefused",
            IoErrorKind::ConnectionReset => "ConnectionReset",
            IoErrorKind::HostUnreachable => "HostUnreachable",
            IoErrorKind::NetworkUnreachable => "NetworkUnreachable",
            IoErrorKind::ConnectionAborted => "ConnectionAborted",
            IoErrorKind::NotConnected => "NotConnected",
            IoErrorKind::AddrInUse => "AddrInUse",
            IoErrorKind::AddrNotAvailable => "AddrNotAvailable",
            IoErrorKind::NetworkDown => "NetworkDown",
            IoErrorKind::BrokenPipe => "BrokenPipe",
            IoErrorKind::AlreadyExists => "AlreadyExists",
            IoErrorKind::WouldBlock => "WouldBlock",
            IoErrorKind::NotADirectory => "NotADirectory",
            IoErrorKind::IsADirectory => "IsADirectory",
            IoErrorKind::DirectoryNotEmpty => "DirectoryNotEmpty",
            IoErrorKind::ReadOnlyFilesystem => "ReadOnlyFilesystem",
            IoErrorKind::StaleNetworkFileHandle => "StaleNetworkFileHandle",
            IoErrorKind::InvalidInput => "InvalidInput",
            IoErrorKind::InvalidData => "InvalidData",
            IoErrorKind::TimedOut => "TimedOut",
            IoErrorKind::WriteZero => "WriteZero",
            IoErrorKind::StorageFull => "StorageFull",
            IoErrorKind::NotSeekable => "NotSeekable",
            IoErrorKind::QuotaExceeded => "QuotaExceeded",
            IoErrorKind::FileTooLarge => "FileTooLarge",
            IoErrorKind::ResourceBusy => "ResourceBusy",
            IoErrorKind::ExecutableFileBusy => "ExecutableFileBusy",
            IoErrorKind::Deadlock => "Deadlock",
            IoErrorKind::CrossesDevices => "CrossesDevices",
            IoErrorKind::TooManyLinks => "TooManyLinks",
            IoErrorKind::InvalidFilename => "InvalidFilename",
            IoErrorKind::ArgumentListTooLong => "ArgumentListTooLong",
            IoErrorKind::Interrupted => "Interrupted",
            IoErrorKind::Unsupported => "Unsupported",
            IoErrorKind::UnexpectedEof => "UnexpectedEof",
            IoErrorKind::OutOfMemory => "OutOfMemory",
            IoErrorKind::InProgress => "InProgress",
            IoErrorKind::Other => "Other",
            IoErrorKind::Uncategorized => "Uncategorized",
        }
    }
}

/// An I/O failure: its category and what the system says of it.
#[derive(Debug, PartialEq, Eq)]
pub struct IoError<S = String> {
    pub kind: IoErrorKind,
    pub message: S,
}

impl View for IoError<String> {
    type V = IoError<Seq<char>>;

    open spec fn view(&self) -> IoError<Seq<char>> {
        IoError { kind: self.kind, message: self.message@ }
    }
}

/// What can go wrong on a transport.
#[derive(Debug, PartialEq, Eq)]
pub enum TransportError<S = String> {
    Closed,
    CleanEof { operation: &'static str },
    ConnectionReset { operation: &'static str },
    BrokenPipe { operation: &'static str },
    WriteTimedOut { timeout: Duration, operation: &'static str },
    BufferFull { capacity: usize, requested: usize },
    FrameTooLarge { len: usize, max: usize },
    Io { operation: &'static str, kind: IoErrorKind, message: S },
    DeadPath,
}

impl View for TransportError<String> {
    type V = TransportError<Seq<char>>;

    open spec fn view(&self) -> TransportError<Seq<char>> {
        match *self {
            TransportError::Closed => TransportError::Closed,
            TransportError::CleanEof { operation } => TransportError::CleanEof { operation },
            TransportError::ConnectionReset { operation } => TransportError::ConnectionReset {
                operation,
            },
            TransportError::BrokenPipe { operation } => TransportError::BrokenPipe { operation },
            TransportError::WriteTimedOut { timeout, operation } => TransportError::WriteTimedOut {
                timeout,
                operation,
            },
            TransportError::BufferFull { capacity, requested } => TransportError::BufferFull {
                capacity,
                requested,
            },
            TransportError::FrameTooLarge { len, max } => TransportError::FrameTooLarge {
                len,
                max,
            },
            TransportError::Io { operation, kind, message } => TransportError::Io {
                operation,
                kind,
                message: message@,
            },
            TransportError::DeadPath => TransportError::DeadPath,
        }
    }
}

impl Clone for TransportError<String> {
    fn clone(&self) -> (copy: Self)
        ensures
            copy@ == self@,
    {
        match self {
            TransportError::Closed => TransportError::Closed,
            TransportError::CleanEof { operation } => TransportError::CleanEof {
                operation: *operation,
            },
            TransportError::ConnectionReset { operation } => TransportError::ConnectionReset {
                operation: *operation,
            },
            TransportError::BrokenPipe { operation } => TransportError::BrokenPipe {
                operation: *operation,
            },
            TransportError::WriteTimedOut { timeout, operation } => TransportError::WriteTimedOut {
                timeout: *timeout,
                operation: *operation,
            },
            TransportError::BufferFull { capacity, requested } => TransportError::BufferFull {
                capacity: *capacity,
                requested: *requested,
            },
            TransportError::FrameTooLarge { len, max } => TransportError::FrameTooLarge {
                len: *len,
                max: *max,
            },
            TransportError::Io { operation, kind, message } => TransportError::Io {
                operation: *operation,
                kind: *kind,
                message: message.clone(),
            },
            TransportError::DeadPath => TransportError::DeadPath,
        }
    }
}

/// The transport error that an I/O failure of `operation` stands for.
pub open spec fn io_failure<S>(operation: &'static str, error: IoError<S>) -> TransportError<S> {
    match error.kind {
        IoErrorKind::UnexpectedEof => TransportError::CleanEof { operation },
        IoErrorKind::ConnectionReset => TransportError::ConnectionReset { operation },
        IoErrorKind::BrokenPipe => TransportError::BrokenPipe { operation },
        kind => TransportError::Io { operation, kind, message: error.message },
    }
}

/// The transport error that an I/O failure of a write stands for.
pub open spec fn write_failure<S>(
    operation: &'static str,
    timeout: Duration,
    error: IoError<S>,
) -> TransportError<S> {
    if error.kind == IoErrorKind::TimedOut || error.kind == IoErrorKind::WouldBlock {
        TransportError::WriteTimedOut { timeout, operation }
    } else {
        io_failure(operation, error)
    }
}

/// The message of a transport error. `timeout` is the write timeout in seconds
/// with three decimals.
pub open spec fn error_message(error: TransportError<Seq<char>>, timeout: Seq<char>) -> Seq<char> {
    match error {
        TransportError::Closed => "transport is closed"@,
        TransportError::CleanEof { operation } => "transport reached clean EOF during "@
            + operation@,
        TransportError::ConnectionReset { operation } => "connection reset during "@ + operation@,
        TransportError::BrokenPipe { operation } => "broken pipe during "@ + operation@,
        TransportError::WriteTimedOut { operation, .. } => "write timed out during "@ + operation@
            + " after "@ + timeout + "s"@,
        TransportError::BufferFull { capacity, requested } =>
        "transport buffer is full: capacity "@ + decimal(capacity as nat) + ", requested "@
            + decimal(requested as nat),
        TransportError::FrameTooLarge { len, max } => "transport frame is too large: "@ + decimal(
            len as nat,
        ) + " bytes, max "@ + decimal(max as nat),
        TransportError::Io { operation, kind, message } => "transport I/O error during "@
            + operation@ + " ("@ + kind_name(kind) + "): "@ + message,
        TransportError::DeadPath =>
        "network path is dead: data submitted but nothing ever received back"@,
    }
}

impl TransportError {
    /// Classifies an I/O failure of `operation`.
    pub fn from_io(operation: &'static str, error: IoError) -> (e: TransportError)
        ensures
            e == io_failure(operation, error),
    {
        match error.kind {
            IoErrorKind::UnexpectedEof => TransportError::CleanEof { operation },
            IoErrorKind::ConnectionReset => TransportError::ConnectionReset { operation },
            IoErrorKind::BrokenPipe => TransportError::BrokenPipe { operation },
            kind => TransportError::Io { operation, kind, message: error.message },
        }
    }

    /// Classifies an I/O failure of a write that may take `timeout`.
    pub fn from_write_io(operation: &'static str, timeout: Duration, error: IoError) -> (e:
        TransportError)
        ensures
            e == write_failure(operation, timeout, error),
    {
        match error.kind {
            IoErrorKind::TimedOut | IoErrorKind::WouldBlock => TransportError::WriteTimedOut {
                timeout,
                operation,
            },
            _ => TransportError::from_io(operation, error),
        }
    }

    /// The message of the error. `timeout` is the write timeout in seconds with
    /// three decimals; only [`TransportError::WriteTimedOut`] shows it.
    pub fn message(&self, timeout: &str) -> (message: String)
        ensures
            message@ == error_message(self@, timeout@),
    {
        match self {
            TransportError::Closed => "transport is closed".to_string(),
            TransportError::CleanEof { operation } => {
                let mut m: String = "transport reached clean EOF during ".to_string();
                m.append(operation);
                m
            },
            TransportError::ConnectionReset { operation } => {
                let mut m: String = "connection reset during ".to_string();
                m.append(operation);
                m
            },
            TransportError::BrokenPipe { operation } => {
                let mut m: String = "broken pipe during ".to_string();
                m.append(operation);
                m
            },
            TransportError::WriteTimedOut { operation, .. } => {
                let mut m: String = "write timed out during ".to_string();
                m.append(operation);
                m.append(" after ");
                m.append(timeout);
                m.append("s");
                m
            },
            TransportError::BufferFull { capacity, requested } => {
                let mut m: String = "transport buffer is full: capacity ".to_string();
                push_decimal(&mut m, *capacity as u64);
                m.append(", requested ");
                push_decimal(&mut m, *requested as u64);
                m
            },
            TransportError::FrameTooLarge { len, max } => {
                let mut m: String = "transport frame is too large: ".to_string();
                push_decimal(&mut m, *len as u64);
                m.append(" bytes, max ");
                push_decimal(&mut m, *max as u64);
                m
            },
            TransportError::Io { operation, kind, message } => {
                let mut m: String = "transport I/O error during ".to_string();
                m.append(operation);
                m.append(" (");
                m.append(kind.name());
                m.append("): ");
                m.append(message.as_str());
                m
            },
            TransportError::DeadPath =>
            "network path is dead: data submitted but nothing ever received back".to_string(),
        }
    }
}

impl vstd::std_specs::convert::FromSpecImpl<IoError> for TransportError {
    open spec fn obeys_from_spec() -> bool {
        true
    }

    open spec fn from_spec(error: IoError) -> TransportError {
        io_failure("I/O operation", error)
    }
}

impl From<IoError> for TransportError {
    fn from(error: IoError) -> (e: TransportError) {
        TransportError::from_io("I/O operation", error)
    }
}

/// A failure keeps its operation, and is named after its kind where the kind says what
/// has become of the connection; any other keeps its kind and its message.
pub proof fn law_failures_are_named(
    operation: &'static str,
    timeout: Duration,
    error: IoError<Seq<char>>,
)
    ensures
        error.kind is UnexpectedEof ==> io_failure(operation, error) == (TransportError::<
            Seq<char>,
        >::CleanEof { operation }),
        error.kind is ConnectionReset ==> io_failure(operation, error) == (TransportError::<
            Seq<char>,
        >::ConnectionReset { operation }),
        error.kind is BrokenPipe ==> io_failure(operation, error) == (TransportError::<
            Seq<char>,
        >::BrokenPipe { operation }),
        error.kind !is UnexpectedEof && error.kind !is ConnectionReset && error.kind !is BrokenPipe
            ==> io_failure(operation, error) == (TransportError::Io {
            operation,
            kind: error.kind,
            message: error.message,
        }),
        error.kind is TimedOut || error.kind is WouldBlock ==> write_failure(
            operation,
            timeout,
            error,
        ) == (TransportError::<Seq<char>>::WriteTimedOut { timeout, operation }),
        error.kind !is TimedOut && error.kind !is WouldBlock ==> write_failure(
            operation,
            timeout,
            error,
        ) == io_failure(operation, error),
{
}

/// Every kind of failure goes by its own name.
pub proof fn law_kinds_go_by_their_names(kind: IoErrorKind)
    ensures
        kind is NotFound ==> kind_name(kind) == "NotFound"@,
        kind is PermissionDenied ==> kind_name(kind) == "PermissionDenied"@,
        kind is ConnectionRefused ==> kind_name(kind) == "ConnectionRefused"@,
        kind is ConnectionReset ==> kind_name(kind) == "ConnectionReset"@,
        kind is HostUnreachable ==> kind_name(kind) == "HostUnreachable"@,
        kind is NetworkUnreachable ==> kind_name(kind) == "NetworkUnreachable"@,
        kind is ConnectionAborted ==> kind_name(kind) == "ConnectionAborted"@,
        kind is NotConnected ==> kind_name(kind) == "NotConnected"@,
        kind is AddrInUse ==> kind_name(kind) == "AddrInUse"@,
        kind is AddrNotAvailable ==> kind_name(kind) == "AddrNotAvailable"@,
        kind is NetworkDown ==> kind_name(kind) == "NetworkDown"@,
        kind is BrokenPipe ==> kind_name(kind) == "BrokenPipe"@,
        kind is AlreadyExists ==> kind_name(kind) == "AlreadyExists"@,
        kind is WouldBlock ==> kind_name(kind) == "WouldBlock"@,
        kind is NotADirectory ==> kind_name(kind) == "NotADirectory"@,
        kind is IsADirectory ==> kind_name(kind) == "IsADirectory"@,
        kind is DirectoryNotEmpty ==> kind_name(kind) == "DirectoryNotEmpty"@,
        kind is ReadOnlyFilesystem ==> kind_name(kind) == "ReadOnlyFilesystem"@,
        kind is StaleNetworkFileHandle ==> kind_name(kind) == "StaleNetworkFileHandle"@,
        kind is InvalidInput ==> kind_name(kind) == "InvalidInput"@,
        kind is InvalidData ==> kind_name(kind) == "InvalidData"@,
        kind is TimedOut ==> kind_name(kind) == "TimedOut"@,
        kind is WriteZero ==> kind_name(kind) == "WriteZero"@,
        kind is StorageFull ==> kind_name(kind) == "StorageFull"@,
        kind is NotSeekable ==> kind_name(kind) == "NotSeekable"@,
        kind is QuotaExceeded ==> kind_name(kind) == "QuotaExceeded"@,
        kind is FileTooLarge ==> kind_name(kind) == "FileTooLarge"@,
        kind is ResourceBusy ==> kind_name(kind) == "ResourceBusy"@,
        kind is ExecutableFileBusy ==> kind_name(kind) == "ExecutableFileBusy"@,
        kind is Deadlock ==> kind_name(kind) == "Deadlock"@,
        kind is CrossesDevices ==> kind_name(kind) == "CrossesDevices"@,
        kind is TooManyLinks ==> kind_name(kind) == "TooManyLinks"@,
        kind is InvalidFilename ==> kind_name(kind) == "InvalidFilename"@,
        kind is ArgumentListTooLong ==> kind_name(kind) == "ArgumentListTooLong"@,
        kind is Interrupted ==> kind_name(kind) == "Interrupted"@,
        kind is Unsupported ==> kind_name(kind) == "Unsupported"@,
        kind is UnexpectedEof ==> kind_name(kind) == "UnexpectedEof"@,
        kind is OutOfMemory ==> kind_name(kind) == "OutOfMemory"@,
        kind is InProgress ==> kind_name(kind) == "InProgress"@,
        kind is Other ==> kind_name(kind) == "Other"@,
        kind is Uncategorized ==> kind_name(kind) == "Uncategorized"@,
{
}

/// The message of an error says what has happened, during which operation, and with which
/// numbers.
pub proof fn law_messages_say_what_happened(error: TransportError<Seq<char>>, timeout: Seq<char>)
    ensures
        ({
            let message = error_message(error, timeout);
            match error {
                TransportError::Closed => message == "transport is closed"@,
                TransportError::CleanEof { operation } => stands_at(
                    message,
                    "transport reached clean EOF during "@ + operation@,
                    0,
                ),
                TransportError::ConnectionReset { operation } => stands_at(
                    message,
                    "connection reset during "@ + operation@,
                    0,
                ),
                TransportError::BrokenPipe { operation } => stands_at(
                    message,
                    "broken pipe during "@ + operation@,
                    0,
                ),
                TransportError::WriteTimedOut { operation, .. } => message
                    == "write timed out during "@ + operation@ + " after "@ + timeout + "s"@,
                TransportError::BufferFull { capacity, requested } => says(
                    message,
                    "transport buffer is full: capacity "@,
                    capacity as nat,
                ) && says(message, ", requested "@, requested as nat),
                TransportError::FrameTooLarge { len, max } => says(
                    message,
                    "transport frame is too large: "@,
                    len as nat,
                ) && says(message, " bytes, max "@, max as nat),
                TransportError::Io { operation, kind, message: reason } => stands_at(
                    message,
                    "transport I/O error during "@ + operation@ + " ("@ + kind_name(kind) + "): "@
                        + reason,
                    0,
                ),
                TransportError::DeadPath => message
                    == "network path is dead: data submitted but nothing ever received back"@,
            }
        }),
{
    let message = error_message(error, timeout);
    assert(message.subrange(0, message.len() as int) =~= message);
    match error {
        TransportError::BufferFull { capacity, requested } => {
            lemma_two(
                ("transport buffer is full: capacity "@, capacity as nat),
                (", requested "@, requested as nat),
            );
        },
        TransportError::FrameTooLarge { len, max } => {
            lemma_two(
                ("transport frame is too large: "@, len as nat),
                (" bytes, max "@, max as nat),
            );
        },
        _ => {},
    }
}

} // verus!
