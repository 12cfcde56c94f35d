//! What callers hand to the engine and what it tells them.

use vstd::prelude::*;

use crate::signaling::IceServer;
use crate::text::{copy_text, owned_text};

verus! {

/// Which way a file travels, seen from here.
#[derive(Debug, Clone, Copy, PartialEq, Eq, Structural)]
pub enum TransferDirection {
    Send,
    Receive,
}

/// What kind of path a transfer runs over.
#[derive(Debug, Clone, Copy, PartialEq, Eq, Structural)]
pub enum TransferMode {
    Lan,
    Direct,
    Relay,
}

/// How far a connection has come.
#[derive(Debug, Clone, Copy, PartialEq, Eq, Structural)]
pub enum ConnectionState {
    Discovering,
    Listening,
    SignalingConnected,
    Connecting,
    Connected,
    Closed,
}

/// How serious a log line is.
#[derive(Debug, Clone, Copy, PartialEq, Eq, Structural)]
pub enum LogLevel {
    Info,
    Warn,
    Error,
}

/// What a caller may be allowed to do.
#[derive(Debug, Clone, Copy, PartialEq, Eq, Structural)]
pub enum PermissionKind {
    LocalNetwork,
    FileSystemRead,
    FileSystemWrite,
    BackgroundTransfer,
}

/// What a caller is allowed to do.
#[derive(Debug, Clone, Copy, PartialEq, Eq, Structural)]
pub struct CorePermissions {
    pub local_network: bool,
    pub file_system_read: bool,
    pub file_system_write: bool,
    pub background_transfer: bool,
}

impl CorePermissions {
    /// Everything is allowed.
    pub fn full() -> (permissions: CorePermissions)
        ensures
            permissions == (CorePermissions {
                local_network: true,
                file_system_read: true,
                file_system_write: true,
                background_transfer: true,
            }),
    {
        CorePermissions {
            local_network: true,
            file_system_read: true,
            file_system_write: true,
            background_transfer: true,
        }
    }
}

/// The user's answer to an incoming transfer.
#[derive(Debug, Clone, Copy, PartialEq, Eq, Structural)]
pub enum AcceptDecision {
    Pending,
    Accepted,
    Declined,
}

/// How a transfer is tuned.
#[derive(Debug, Clone, Copy, PartialEq, Eq, Structural)]
pub struct TransferOptions {
    pub chunk_size: usize,
    pub window_size: usize,
    pub timeout_ticks: u64,
}

/// A transfer to a peer on the local network.
pub struct SendRequest {
    pub file_path: String,
    pub address: Option<String>,
    pub discovery_token: Option<String>,
    pub device_name: Option<String>,
    pub options: TransferOptions,
    pub permissions: CorePermissions,
}

/// A transfer from a peer on the local network.
pub struct ReceiveRequest {
    pub output_dir: String,
    pub port: u16,
    pub announce_on_lan: bool,
    pub require_pin: bool,
    pub auto_accept: bool,
    pub device_name: Option<String>,
    pub options: TransferOptions,
    pub permissions: CorePermissions,
}

/// A transfer to a remote peer.
pub struct SendRemoteRequest {
    pub file_path: String,
    pub relay_server_url: String,
    pub session_id: String,
    pub my_peer_id: String,
    pub ice_servers: Vec<IceServer>,
    pub connect_timeout_secs: u64,
    pub device_name: Option<String>,
    pub options: TransferOptions,
    pub permissions: CorePermissions,
}

/// A transfer from a remote peer.
pub struct ReceiveRemoteRequest {
    pub output_dir: String,
    pub relay_server_url: String,
    pub session_id: String,
    pub my_peer_id: String,
    pub ice_servers: Vec<IceServer>,
    pub connect_timeout_secs: u64,
    pub auto_accept: bool,
    pub device_name: Option<String>,
    pub options: TransferOptions,
    pub permissions: CorePermissions,
}

/// A search for a peer on the local network.
pub struct DiscoverRequest {
    pub token: Option<String>,
    pub timeout_secs: u64,
    pub permissions: CorePermissions,
}

/// A measurement over transports in memory.
pub struct BenchmarkRequest {
    pub size_mb: usize,
    pub iterations: usize,
    pub latency_ticks: u64,
    pub options: TransferOptions,
}

/// What a finished transfer amounts to.
#[derive(Debug, PartialEq, Eq)]
pub struct TransferSummary<S = String> {
    pub direction: TransferDirection,
    pub file_name: S,
    pub peer: Option<S>,
    pub peer_name: Option<S>,
    pub mode: TransferMode,
    pub total_bytes: u64,
    pub transferred_bytes: u64,
    pub resumed_bytes: u64,
    pub elapsed_ms: u128,
}

impl View for TransferSummary {
    type V = TransferSummary<Seq<char>>;

    open spec fn view(&self) -> TransferSummary<Seq<char>> {
        TransferSummary {
            direction: self.direction,
            file_name: self.file_name@,
            peer: owned_text(self.peer),
            peer_name: owned_text(self.peer_name),
            mode: self.mode,
            total_bytes: self.total_bytes,
            transferred_bytes: self.transferred_bytes,
            resumed_bytes: self.resumed_bytes,
            elapsed_ms: self.elapsed_ms,
        }
    }
}

impl Clone for TransferSummary {
    fn clone(&self) -> (copy: Self)
        ensures
            copy@ == self@,
    {
        TransferSummary {
            direction: self.direction,
            file_name: self.file_name.as_str().to_string(),
            peer: copy_text(&self.peer),
            peer_name: copy_text(&self.peer_name),
            mode: self.mode,
            total_bytes: self.total_bytes,
            transferred_bytes: self.transferred_bytes,
            resumed_bytes: self.resumed_bytes,
            elapsed_ms: self.elapsed_ms,
        }
    }
}

/// A peer that a search found.
#[derive(Debug, PartialEq, Eq)]
pub struct DiscoverySummary<S = String> {
    pub hostname: S,
    pub address: S,
    pub token: S,
    pub pin_required: bool,
}

impl View for DiscoverySummary {
    type V = DiscoverySummary<Seq<char>>;

    open spec fn view(&self) -> DiscoverySummary<Seq<char>> {
        DiscoverySummary {
            hostname: self.hostname@,
            address: self.address@,
            token: self.token@,
            pin_required: self.pin_required,
        }
    }
}

impl Clone for DiscoverySummary {
    fn clone(&self) -> (copy: Self)
        ensures
            copy@ == self@,
    {
        DiscoverySummary {
            hostname: self.hostname.as_str().to_string(),
            address: self.address.as_str().to_string(),
            token: self.token.as_str().to_string(),
            pin_required: self.pin_required,
        }
    }
}

/// What happens to a transfer.
#[derive(Debug, PartialEq, Eq)]
pub enum TransferEvent<S = String> {
    StateChanged { direction: TransferDirection, state: ConnectionState, peer: Option<S> },
    ConnectionEstablished { direction: TransferDirection, mode: TransferMode },
    AwaitingApproval { direction: TransferDirection, file_name: S },
    IncomingRequest {
        direction: TransferDirection,
        file_name: S,
        total_bytes: u64,
        peer: Option<S>,
        sender_name: Option<S>,
    },
    Declined { direction: TransferDirection, reason: S },
    Cancelled { direction: TransferDirection },
    Resumed { direction: TransferDirection, next_sequence: u32, resumed_bytes: u64 },
    Started { direction: TransferDirection, file_name: S, total_bytes: u64, resumed_bytes: u64 },
    Progress { direction: TransferDirection, transferred_bytes: u64, total_bytes: u64 },
    CheckpointUpdated { checkpoint_path: S, next_sequence: u32, bytes_written: u64 },
    Completed(TransferSummary<S>),
    Failed { direction: TransferDirection, reason: S },
}

impl View for TransferEvent {
    type V = TransferEvent<Seq<char>>;

    open spec fn view(&self) -> TransferEvent<Seq<char>> {
        match self {
            TransferEvent::StateChanged { direction, state, peer } => TransferEvent::StateChanged {
                direction: *direction,
                state: *state,
                peer: owned_text(*peer),
            },
            TransferEvent::ConnectionEstablished { direction, mode } =>
                TransferEvent::ConnectionEstablished { direction: *direction, mode: *mode },
            TransferEvent::AwaitingApproval { direction, file_name } =>
                TransferEvent::AwaitingApproval {
                direction: *direction,
                file_name: file_name@,
            },
            TransferEvent::IncomingRequest {
                direction,
                file_name,
                total_bytes,
                peer,
                sender_name,
            } => TransferEvent::IncomingRequest {
                direction: *direction,
                file_name: file_name@,
                total_bytes: *total_bytes,
                peer: owned_text(*peer),
                sender_name: owned_text(*sender_name),
            },
            TransferEvent::Declined { direction, reason } => TransferEvent::Declined {
                direction: *direction,
                reason: reason@,
            },
            TransferEvent::Cancelled { direction } => TransferEvent::Cancelled {
                direction: *direction,
            },
            TransferEvent::Resumed { direction, next_sequence, resumed_bytes } =>
                TransferEvent::Resumed {
                direction: *direction,
                next_sequence: *next_sequence,
                resumed_bytes: *resumed_bytes,
            },
            TransferEvent::Started { direction, file_name, total_bytes, resumed_bytes } =>
                TransferEvent::Started {
                direction: *direction,
                file_name: file_name@,
                total_bytes: *total_bytes,
                resumed_bytes: *resumed_bytes,
            },
            TransferEvent::Progress { direction, transferred_bytes, total_bytes } =>
                TransferEvent::Progress {
                direction: *direction,
                transferred_bytes: *transferred_bytes,
                total_bytes: *total_bytes,
            },
            TransferEvent::CheckpointUpdated { checkpoint_path, next_sequence, bytes_written } =>
                TransferEvent::CheckpointUpdated {
                checkpoint_path: checkpoint_path@,
                next_sequence: *next_sequence,
                bytes_written: *bytes_written,
            },
            TransferEvent::Completed(summary) => TransferEvent::Completed(summary@),
            TransferEvent::Failed { direction, reason } => TransferEvent::Failed {
                direction: *direction,
                reason: reason@,
            },
        }
    }
}

/// What happens to a search for a peer.
#[allow(inconsistent_fields)]
#[derive(Debug, PartialEq, Eq)]
pub enum DiscoveryEvent<S = String> {
    SearchStarted { token: Option<S>, timeout_secs: u64 },
    BroadcastStarted { token: S, port: u16 },
    PeerFound(DiscoverySummary<S>),
    PeerNotFound,
}

impl View for DiscoveryEvent {
    type V = DiscoveryEvent<Seq<char>>;

    open spec fn view(&self) -> DiscoveryEvent<Seq<char>> {
        match self {
            DiscoveryEvent::SearchStarted { token, timeout_secs } =>
                DiscoveryEvent::SearchStarted {
                token: owned_text(*token),
                timeout_secs: *timeout_secs,
            },
            DiscoveryEvent::BroadcastStarted { token, port } => DiscoveryEvent::BroadcastStarted {
                token: token@,
                port: *port,
            },
            DiscoveryEvent::PeerFound(summary) => DiscoveryEvent::PeerFound(summary@),
            DiscoveryEvent::PeerNotFound => DiscoveryEvent::PeerNotFound,
        }
    }
}

/// What happens to a measurement. The throughput of an iteration and of the whole
/// belongs to the caller, who holds the clock.
#[derive(Debug, PartialEq, Eq)]
pub enum BenchmarkEvent {
    Started { size_mb: usize, iterations: usize, latency_ticks: u64 },
}

/// What the engine tells its caller.
#[derive(Debug, PartialEq, Eq)]
pub enum PlenumEvent<S = String> {
    Transfer(TransferEvent<S>),
    Discovery(DiscoveryEvent<S>),
    Benchmark(BenchmarkEvent),
    Log { level: LogLevel, message: S },
}

impl View for PlenumEvent {
    type V = PlenumEvent<Seq<char>>;

    open spec fn view(&self) -> PlenumEvent<Seq<char>> {
        match self {
            PlenumEvent::Transfer(event) => PlenumEvent::Transfer(event@),
            PlenumEvent::Discovery(event) => PlenumEvent::Discovery(event@),
            PlenumEvent::Benchmark(event) => PlenumEvent::Benchmark(*event),
            PlenumEvent::Log { level, message } => PlenumEvent::Log {
                level: *level,
                message: message@,
            },
        }
    }
}

} // verus!
