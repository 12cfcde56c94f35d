//! What a machine asks its driver to do.
//!
//! A script is a list of actions. The driver carries them out in order and stops
//! at the first one that fails, unless the action says that its failure does not
//! matter; then the transfer has failed with that error.

use vstd::prelude::*;
use vstd::string::*;

use crate::app::error::AppError;
use crate::app::types::{
    LogLevel, PlenumEvent, TransferDirection, TransferEvent, TransferMode, TransferSummary,
};
use crate::protocol::{Packet, PacketType};
use crate::stream::ResumeCheckpoint;

verus! {

/// The reason of a peer that declined the transfer.
pub const CLOSE_REASON_DECLINED: &'static str = "declined";

/// The reason of a peer that did not accept the pairing code.
pub const CLOSE_REASON_PIN_REJECTED: &'static str = "pin_rejected";

/// The reason of a peer whose user cancelled the transfer.
pub const CLOSE_REASON_CANCELLED: &'static str = "cancelled";

/// One thing for the driver to do.
pub enum Action<S = String, B = Vec<u8>> {
    /// Encode a packet and send it.
    Send(Packet<B>),
    /// Encode a packet and send it; that it was not sent does not matter.
    TrySend(Packet<B>),
    /// Encode a packet and send it; that it could not be encoded, or was not sent,
    /// does not matter.
    SendIfPossible(Packet<B>),
    /// Close the transport.
    Close,
    /// Close the transport; a failure does not matter.
    TryClose,
    /// Tell the caller of an event.
    Emit(PlenumEvent<S>),
    /// Go to an offset of the file.
    Seek(u64),
    /// Write to the file.
    Write(B),
    /// Write out what is buffered for the file.
    Flush,
    /// Write out what is buffered for the file; a failure does not matter.
    TryFlush,
    /// Open the file, keeping what it holds.
    OpenExisting,
    /// Create the file, or empty it.
    CreateFile,
    /// Save the checkpoint.
    SaveCheckpoint(ResumeCheckpoint<S>),
    /// Save the checkpoint; a failure does not matter.
    TrySaveCheckpoint(ResumeCheckpoint<S>),
    /// Remove the checkpoint.
    ClearCheckpoint,
    /// Expect data from this sequence number on.
    ExpectFrom(u32),
    /// The transfer has failed.
    Fail(AppError<S>),
    /// The transfer is complete.
    Complete(TransferSummary<S>),
}

impl View for Action {
    type V = Action<Seq<char>, Seq<u8>>;

    open spec fn view(&self) -> Action<Seq<char>, Seq<u8>> {
        match self {
            Action::Send(packet) => Action::Send(packet@),
            Action::TrySend(packet) => Action::TrySend(packet@),
            Action::SendIfPossible(packet) => Action::SendIfPossible(packet@),
            Action::Close => Action::Close,
            Action::TryClose => Action::TryClose,
            Action::Emit(event) => Action::Emit(event@),
            Action::Seek(offset) => Action::Seek(*offset),
            Action::Write(bytes) => Action::Write(bytes@),
            Action::Flush => Action::Flush,
            Action::TryFlush => Action::TryFlush,
            Action::OpenExisting => Action::OpenExisting,
            Action::CreateFile => Action::CreateFile,
            Action::SaveCheckpoint(checkpoint) => Action::SaveCheckpoint(checkpoint@),
            Action::TrySaveCheckpoint(checkpoint) => Action::TrySaveCheckpoint(checkpoint@),
            Action::ClearCheckpoint => Action::ClearCheckpoint,
            Action::ExpectFrom(sequence) => Action::ExpectFrom(*sequence),
            Action::Fail(error) => Action::Fail(error@),
            Action::Complete(summary) => Action::Complete(summary@),
        }
    }
}

/// What a list of actions asks for.
pub open spec fn script(actions: Seq<Action>) -> Seq<Action<Seq<char>, Seq<u8>>> {
    actions.map_values(|a: Action| a@)
}

/// An event of a transfer, as an action.
pub open spec fn tell(what: TransferEvent<Seq<char>>) -> Action<Seq<char>, Seq<u8>> {
    Action::Emit(PlenumEvent::Transfer(what))
}

/// A log line, as an action.
pub open spec fn note(level: LogLevel, message: Seq<char>) -> Action<Seq<char>, Seq<u8>> {
    Action::Emit(PlenumEvent::Log { level, message })
}

/// A packet that says why the connection is closed.
pub open spec fn close_packet(sequence_no: u32, reason: Seq<u8>) -> Packet<Seq<u8>> {
    Packet { packet_type: PacketType::Close, sequence_no, payload: reason }
}

/// A packet without a payload.
pub open spec fn bare_packet(packet_type: PacketType, sequence_no: u32) -> Packet<Seq<u8>> {
    Packet { packet_type, sequence_no, payload: Seq::empty() }
}

/// How far a transfer is said to have come: never further than the file is long.
pub open spec fn progress(direction: TransferDirection, bytes: u64, file_size: u64) -> Action<
    Seq<char>,
    Seq<u8>,
> {
    tell(
        TransferEvent::Progress {
            direction,
            transferred_bytes: if bytes < file_size {
                bytes
            } else {
                file_size
            },
            total_bytes: file_size,
        },
    )
}

/// What is done when the local user cancels a transfer whose peer is still there:
/// the peer is told, the caller is told, and the transfer has failed.
pub open spec fn cancel_script(direction: TransferDirection, sequence_no: u32) -> Seq<
    Action<Seq<char>, Seq<u8>>,
> {
    seq![
        Action::TrySend(close_packet(sequence_no, CLOSE_REASON_CANCELLED.spec_bytes())),
        Action::TryClose,
        tell(TransferEvent::Cancelled { direction }),
        Action::Fail(AppError::Cancelled),
    ]
}

/// What a reason for closing means to the user.
pub open spec fn rejection_text(reason: Seq<char>) -> Seq<char> {
    if reason == CLOSE_REASON_DECLINED@ {
        "the receiver declined the transfer"@
    } else if reason == CLOSE_REASON_PIN_REJECTED@ {
        "the receiver rejected the pairing code"@
    } else if reason == CLOSE_REASON_CANCELLED@ {
        "the peer cancelled the transfer"@
    } else {
        "the peer closed the connection ("@ + reason + ")"@
    }
}

/// What is done when the peer closes the transfer for a reason.
pub open spec fn rejection_script(direction: TransferDirection, reason: Seq<char>) -> Seq<
    Action<Seq<char>, Seq<u8>>,
> {
    seq![
        tell(TransferEvent::Declined { direction, reason }),
        Action::Fail(AppError::Rejected(rejection_text(reason))),
    ]
}

/// Adds an action to a list.
pub fn add_action(actions: &mut Vec<Action>, action: Action)
    ensures
        script(final(actions)@) == script(old(actions)@).push(action@),
{
    actions.push(action);
    assert(script(actions@) =~= script(old(actions)@).push(action@));
}

/// What two lists ask for, one behind the other.
pub proof fn lemma_script_join(a: Seq<Action>, b: Seq<Action>)
    ensures
        script(a + b) == script(a) + script(b),
{
    assert(script(a + b) =~= script(a) + script(b));
}

/// An empty list.
pub fn no_actions() -> (actions: Vec<Action>)
    ensures
        script(actions@) == Seq::<Action<Seq<char>, Seq<u8>>>::empty(),
{
    let actions: Vec<Action> = Vec::new();
    assert(script(actions@) =~= Seq::empty());
    actions
}

/// A list of one action.
pub fn one_action(action: Action) -> (actions: Vec<Action>)
    ensures
        script(actions@) == seq![action@],
{
    let mut actions: Vec<Action> = no_actions();
    add_action(&mut actions, action);
    assert(script(actions@) =~= seq![action@]);
    actions
}

/// A log line.
pub fn log_line(level: LogLevel, message: String) -> (action: Action)
    ensures
        action@ == note(level, message@),
{
    Action::Emit(PlenumEvent::Log { level, message })
}

/// An event of a transfer.
pub fn event(what: TransferEvent) -> (action: Action)
    ensures
        action@ == tell(what@),
{
    Action::Emit(PlenumEvent::Transfer(what))
}

/// A packet that says why the connection is closed.
pub fn closing(sequence_no: u32, reason: &str) -> (packet: Packet)
    ensures
        packet@ == close_packet(sequence_no, reason.spec_bytes()),
{
    Packet::new(
        PacketType::Close,
        sequence_no,
        vstd::slice::slice_to_vec(reason.as_bytes()),
    )
}

/// A packet without a payload.
pub fn bare(packet_type: PacketType, sequence_no: u32) -> (packet: Packet)
    ensures
        packet@ == bare_packet(packet_type, sequence_no),
{
    let empty: Vec<u8> = Vec::new();
    assert(empty@ =~= Seq::<u8>::empty());
    Packet::new(packet_type, sequence_no, empty)
}

/// How far a transfer has come.
pub fn progress_event(direction: TransferDirection, bytes: u64, file_size: u64) -> (action: Action)
    ensures
        action@ == progress(direction, bytes, file_size),
{
    event(
        TransferEvent::Progress {
            direction,
            transferred_bytes: if bytes < file_size {
                bytes
            } else {
                file_size
            },
            total_bytes: file_size,
        },
    )
}

/// What is done when the local user cancels a transfer.
pub fn cancel(direction: TransferDirection, sequence_no: u32) -> (actions: Vec<Action>)
    ensures
        script(actions@) == cancel_script(direction, sequence_no),
{
    let mut actions: Vec<Action> = no_actions();
    add_action(&mut actions, Action::TrySend(closing(sequence_no, CLOSE_REASON_CANCELLED)));
    add_action(&mut actions, Action::TryClose);
    add_action(&mut actions, event(TransferEvent::Cancelled { direction }));
    add_action(&mut actions, Action::Fail(AppError::Cancelled));
    assert(script(actions@) =~= cancel_script(direction, sequence_no));
    actions
}

/// Turns a machine-readable reason for closing into a human-readable message.
pub fn rejection_message(reason: &str) -> (message: String)
    ensures
        message@ == rejection_text(reason@),
{
    if crate::text::text_equal(reason, CLOSE_REASON_DECLINED) {
        "the receiver declined the transfer".to_string()
    } else if crate::text::text_equal(reason, CLOSE_REASON_PIN_REJECTED) {
        "the receiver rejected the pairing code".to_string()
    } else if crate::text::text_equal(reason, CLOSE_REASON_CANCELLED) {
        "the peer cancelled the transfer".to_string()
    } else {
        let mut message: String = "the peer closed the connection (".to_string();
        message.append(reason);
        message.append(")");
        message
    }
}

/// What is done when the peer closes the transfer for a reason.
pub fn rejected(direction: TransferDirection, reason: String) -> (actions: Vec<Action>)
    ensures
        script(actions@) == rejection_script(direction, reason@),
{
    let message: String = rejection_message(reason.as_str());
    let mut actions: Vec<Action> = no_actions();
    add_action(&mut actions, event(TransferEvent::Declined { direction, reason }));
    add_action(&mut actions, Action::Fail(AppError::Rejected(message)));
    assert(script(actions@) =~= rejection_script(direction, reason@));
    actions
}

/// The kind of path that a transport runs over: a transport that knows nothing of
/// relays is on the local network.
pub fn transfer_mode(relayed: Option<bool>) -> (mode: TransferMode)
    ensures
        mode == mode_of(relayed),
{
    match relayed {
        None => TransferMode::Lan,
        Some(false) => TransferMode::Direct,
        Some(true) => TransferMode::Relay,
    }
}

/// The kind of path that a transport runs over.
pub open spec fn mode_of(relayed: Option<bool>) -> TransferMode {
    match relayed {
        None => TransferMode::Lan,
        Some(false) => TransferMode::Direct,
        Some(true) => TransferMode::Relay,
    }
}

} // verus!
