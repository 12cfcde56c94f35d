//! The receiving end of a transfer.
//!
//! The machine is told of everything that arrives and answers with what to do. The
//! window that puts data packets into order and the codec of the packets stand
//! outside: the machine is given what they made of a packet.

use vstd::prelude::*;
use vstd::string::*;

use crate::app::clock::{elapsed, elapsed_ns, plus, sat};
use crate::app::error::AppError;
use crate::app::payload::{parse_start_payload, start_fault, start_fields, STREAM_MODE_MAGIC};
use crate::app::script::{
    add_action, close_packet, closing, event, log_line, mode_of, no_actions, note, one_action,
    rejected, rejection_script, script, tell, transfer_mode, Action, CLOSE_REASON_CANCELLED,
    CLOSE_REASON_DECLINED,
};
use crate::app::types::{AcceptDecision, LogLevel, TransferDirection, TransferEvent};
use crate::protocol::{Packet, PacketType};
use crate::stream::{advanced, belongs, fresh_checkpoint, ResumeCheckpoint};
use crate::text::{
    append_number, copy_text, decimal, from_utf8_lossy, lossy, owned_text, push_decimal, text_of,
};
use crate::transport::TransportError;
use crate::wire::{be_bytes, bytes_equal, push_be};

verus! {

/// How long the user may take to answer an incoming transfer.
pub const APPROVAL_TIMEOUT_NS: u64 = 120_000_000_000;

/// How often progress is reported at most.
pub const PROGRESS_EMIT_INTERVAL_NS: u64 = 100_000_000;

/// After how much time a checkpoint is saved.
pub const CHECKPOINT_SAVE_INTERVAL_NS: u64 = 2_000_000_000;

/// After how many bytes a checkpoint is saved.
pub const CHECKPOINT_SAVE_BYTES: u64 = 4_194_304;

/// How long a receiver waits for a packet before it gives up.
pub const RECEIVE_STALL_TIMEOUT_NS: u64 = 45_000_000_000;

/// After how many bytes a streaming receiver acknowledges.
pub const STREAM_ACK_INTERVAL_BYTES: u64 = 2_097_152;

/// How often the state of a transfer is logged.
pub const DIAGNOSTIC_INTERVAL_MS: u64 = 1000;

/// A checkpoint and the path under which it is kept.
pub struct SavedCheckpoint<S = String> {
    pub checkpoint: ResumeCheckpoint<S>,
    pub path: S,
}

impl View for SavedCheckpoint {
    type V = SavedCheckpoint<Seq<char>>;

    open spec fn view(&self) -> SavedCheckpoint<Seq<char>> {
        SavedCheckpoint { checkpoint: self.checkpoint@, path: self.path@ }
    }
}

/// The receiving end of a transfer. A file is open exactly if there is a
/// checkpoint.
pub struct ReceiveTransfer<S = String> {
    pub peer: S,
    pub auto_accept: bool,
    pub device_name: Option<S>,
    pub file_name: S,
    pub file_size: u64,
    pub sender_name: Option<S>,
    pub started_ns: u64,
    pub bytes_received: u64,
    pub saved: Option<SavedCheckpoint<S>>,
    pub resume_sequence: u32,
    pub resume_bytes: u64,
    pub last_progress_ns: Option<u64>,
    pub last_checkpoint_ns: u64,
    pub bytes_since_checkpoint: u64,
    pub progress_dirty: bool,
    pub stream_offered: bool,
    pub streaming: bool,
    pub bytes_since_stream_ack: u64,
    pub finish_received: bool,
    pub data_recv: u64,
    pub acks_sent: u64,
    pub frames: u64,
    pub diag_last_ms: u64,
    pub last_frame_ns: u64,
}

/// A receiving end, its texts taken as sequences.
pub type Receiving = ReceiveTransfer<Seq<char>>;

/// An action, its texts and bytes taken as sequences.
pub type Act = Action<Seq<char>, Seq<u8>>;

/// What an optional checkpoint holds.
pub open spec fn saved_of(saved: Option<SavedCheckpoint>) -> Option<SavedCheckpoint<Seq<char>>> {
    match saved {
        Some(s) => Some(s@),
        None => None,
    }
}

impl View for ReceiveTransfer {
    type V = Receiving;

    open spec fn view(&self) -> Receiving {
        ReceiveTransfer {
            peer: self.peer@,
            auto_accept: self.auto_accept,
            device_name: owned_text(self.device_name),
            file_name: self.file_name@,
            file_size: self.file_size,
            sender_name: owned_text(self.sender_name),
            started_ns: self.started_ns,
            bytes_received: self.bytes_received,
            saved: saved_of(self.saved),
            resume_sequence: self.resume_sequence,
            resume_bytes: self.resume_bytes,
            last_progress_ns: self.last_progress_ns,
            last_checkpoint_ns: self.last_checkpoint_ns,
            bytes_since_checkpoint: self.bytes_since_checkpoint,
            progress_dirty: self.progress_dirty,
            stream_offered: self.stream_offered,
            streaming: self.streaming,
            bytes_since_stream_ack: self.bytes_since_stream_ack,
            finish_received: self.finish_received,
            data_recv: self.data_recv,
            acks_sent: self.acks_sent,
            frames: self.frames,
            diag_last_ms: self.diag_last_ms,
            last_frame_ns: self.last_frame_ns,
        }
    }
}

/// A receiving end that has seen nothing yet.
pub open spec fn fresh_receiver(
    peer: Seq<char>,
    auto_accept: bool,
    device_name: Option<Seq<char>>,
    now_ns: u64,
    now_ms: u64,
) -> Receiving {
    ReceiveTransfer {
        peer,
        auto_accept,
        device_name,
        file_name: "received_file"@,
        file_size: 0,
        sender_name: None,
        started_ns: now_ns,
        bytes_received: 0,
        saved: None,
        resume_sequence: 0,
        resume_bytes: 0,
        last_progress_ns: None,
        last_checkpoint_ns: now_ns,
        bytes_since_checkpoint: 0,
        progress_dirty: false,
        stream_offered: false,
        streaming: false,
        bytes_since_stream_ack: 0,
        finish_received: false,
        data_recv: 0,
        acks_sent: 0,
        frames: 0,
        diag_last_ms: now_ms,
        last_frame_ns: now_ns,
    }
}

/// What is put away when a transfer ends early: the checkpoint as far as the
/// transfer has come, and what is buffered for the file.
pub open spec fn put_away(state: Receiving, next_expected: u32) -> Seq<Act> {
    match state.saved {
        Some(saved) => seq![
            Action::TrySaveCheckpoint(
                advanced(saved.checkpoint, next_expected, state.bytes_received),
            ),
            Action::TryFlush,
        ],
        None => Seq::empty(),
    }
}

/// What a cancelled receiver does.
pub open spec fn receive_cancelled(state: Receiving, next_expected: u32) -> Seq<Act> {
    put_away(state, next_expected) + seq![
        Action::SendIfPossible(close_packet(next_expected, CLOSE_REASON_CANCELLED.spec_bytes())),
        Action::TryClose,
        tell(TransferEvent::Cancelled { direction: TransferDirection::Receive }),
        Action::Fail(AppError::Cancelled),
    ]
}

/// What a receiver does when no packet has come.
pub open spec fn receive_idle(state: Receiving, next_expected: u32, now_ns: u64) -> Seq<Act> {
    if elapsed(now_ns, state.last_frame_ns) >= RECEIVE_STALL_TIMEOUT_NS {
        put_away(state, next_expected) + seq![
            Action::Fail(AppError::Stalled("no packets from sender for 45s"@)),
        ]
    } else {
        Seq::empty()
    }
}

/// The line that logs the state of a transfer.
pub open spec fn receive_diagnostic(state: Receiving, next_expected: u32) -> Seq<char> {
    "DIAG recv: frames="@ + decimal(state.frames as nat) + " data_recv="@ + decimal(
        state.data_recv as nat,
    ) + " acks_sent="@ + decimal(state.acks_sent as nat) + " bytes_recv="@ + decimal(
        state.bytes_received as nat,
    ) + " next_expected="@ + decimal(next_expected as nat)
}

/// What a receiver does with a packet.
pub enum ReceiveStep<S = String, B = Vec<u8>> {
    /// Carry out the actions and go on.
    Continue(Vec<Action>),
    /// The transfer is over: conclude it.
    Conclude,
    /// Carry out the actions, which end the transfer.
    End(Vec<Action>),
    /// A file is offered: its size, its name and the sender's name.
    Offered(u64, S, Option<S>),
    /// Hand the packet to the window, and then `on_data` what came of it.
    Data(Packet<B>),
    /// The sender is done: `on_finish` says what to do.
    Finish,
}

/// What a receiver does with a packet, in terms of sequences.
pub enum Reaction {
    Continue(Seq<Act>),
    Conclude,
    End(Seq<Act>),
    Offered(nat, Seq<char>, Option<Seq<char>>),
    Data(Packet<Seq<u8>>),
    Finish,
}

impl View for ReceiveStep {
    type V = Reaction;

    open spec fn view(&self) -> Reaction {
        match self {
            ReceiveStep::Continue(actions) => Reaction::Continue(script(actions@)),
            ReceiveStep::Conclude => Reaction::Conclude,
            ReceiveStep::End(actions) => Reaction::End(script(actions@)),
            ReceiveStep::Offered(size, name, sender) => Reaction::Offered(
                *size as nat,
                name@,
                owned_text(*sender),
            ),
            ReceiveStep::Data(packet) => Reaction::Data(packet@),
            ReceiveStep::Finish => Reaction::Finish,
        }
    }
}

/// A receiver that was just told of a frame.
pub open spec fn after_frame(state: Receiving, now_ns: u64) -> Receiving {
    ReceiveTransfer { frames: sat(state.frames + 1), last_frame_ns: now_ns, ..state }
}

/// Whether a packet confirms the streaming mode.
pub open spec fn confirms_streaming(state: Receiving, packet: Packet<Seq<u8>>) -> bool {
    &&& packet.packet_type is Resume
    &&& state.stream_offered
    &&& !state.streaming
    &&& packet.payload == STREAM_MODE_MAGIC.spec_bytes()
}

/// A receiver after a packet.
pub open spec fn after_packet(state: Receiving, packet: Packet<Seq<u8>>) -> Receiving {
    if packet.packet_type is Data {
        ReceiveTransfer { data_recv: sat(state.data_recv + 1), ..state }
    } else if confirms_streaming(state, packet) {
        ReceiveTransfer { streaming: true, ..state }
    } else {
        state
    }
}

/// What a receiver does with a packet.
pub open spec fn reaction(state: Receiving, packet: Packet<Seq<u8>>) -> Reaction {
    match packet.packet_type {
        PacketType::Start => match start_fault(packet.payload) {
            Some(fault) => Reaction::End(seq![Action::Fail(AppError::InvalidRequest(fault))]),
            None => {
                let fields = start_fields(packet.payload);
                Reaction::Offered(fields.0, fields.1, fields.2)
            },
        },
        PacketType::Data => Reaction::Data(packet),
        PacketType::Finish => Reaction::Finish,
        PacketType::Close => {
            let reason = lossy(packet.payload);
            if reason.len() == 0 {
                Reaction::Conclude
            } else {
                Reaction::End(rejection_script(TransferDirection::Receive, reason))
            }
        },
        PacketType::Resume => if confirms_streaming(state, packet) {
            Reaction::Continue(
                seq![
                    note(
                        LogLevel::Info,
                        "DIAG recv: streaming mode enabled (cumulative ACKs over TCP)"@,
                    ),
                ],
            )
        } else {
            Reaction::Continue(Seq::empty())
        },
        _ => Reaction::Continue(Seq::empty()),
    }
}

impl ReceiveTransfer {
    /// A receiving end that has seen nothing yet.
    pub fn new(
        peer: &str,
        auto_accept: bool,
        device_name: Option<&str>,
        now_ns: u64,
        now_ms: u64,
    ) -> (receiver: ReceiveTransfer)
        ensures
            receiver@ == fresh_receiver(peer@, auto_accept, text_of(device_name), now_ns, now_ms),
    {
        ReceiveTransfer {
            peer: peer.to_string(),
            auto_accept,
            device_name: crate::text::own(device_name),
            file_name: "received_file".to_string(),
            file_size: 0,
            sender_name: None,
            started_ns: now_ns,
            bytes_received: 0,
            saved: None,
            resume_sequence: 0,
            resume_bytes: 0,
            last_progress_ns: None,
            last_checkpoint_ns: now_ns,
            bytes_since_checkpoint: 0,
            progress_dirty: false,
            stream_offered: false,
            streaming: false,
            bytes_since_stream_ack: 0,
            finish_received: false,
            data_recv: 0,
            acks_sent: 0,
            frames: 0,
            diag_last_ms: now_ms,
            last_frame_ns: now_ns,
        }
    }

    /// What is told first.
    pub fn open(&self, relayed: Option<bool>) -> (actions: Vec<Action>)
        ensures
            script(actions@) == seq![
                tell(
                    TransferEvent::ConnectionEstablished {
                        direction: TransferDirection::Receive,
                        mode: mode_of(relayed),
                    },
                ),
                note(LogLevel::Info, "DIAG recv: transfer loop start, waiting for packets"@),
            ],
    {
        let mut actions: Vec<Action> = no_actions();
        add_action(
            &mut actions,
            event(
                TransferEvent::ConnectionEstablished {
                    direction: TransferDirection::Receive,
                    mode: transfer_mode(relayed),
                },
            ),
        );
        add_action(
            &mut actions,
            log_line(
                LogLevel::Info,
                "DIAG recv: transfer loop start, waiting for packets".to_string(),
            ),
        );
        actions
    }

    fn put_away(&self, next_expected: u32) -> (actions: Vec<Action>)
        ensures
            script(actions@) == put_away(self@, next_expected),
    {
        let mut actions: Vec<Action> = no_actions();
        match &self.saved {
            Some(saved) => {
                let mut checkpoint: ResumeCheckpoint = saved.checkpoint.clone();
                checkpoint.update(next_expected, self.bytes_received);
                add_action(&mut actions, Action::TrySaveCheckpoint(checkpoint));
                add_action(&mut actions, Action::TryFlush);
            },
            None => {},
        }
        assert(script(actions@) =~= put_away(self@, next_expected));
        actions
    }

    /// What is done when the local user has cancelled the transfer.
    pub fn cancel(&self, next_expected: u32) -> (actions: Vec<Action>)
        ensures
            script(actions@) == receive_cancelled(self@, next_expected),
    {
        let mut actions: Vec<Action> = self.put_away(next_expected);
        add_action(
            &mut actions,
            Action::SendIfPossible(closing(next_expected, CLOSE_REASON_CANCELLED)),
        );
        add_action(&mut actions, Action::TryClose);
        add_action(
            &mut actions,
            event(TransferEvent::Cancelled { direction: TransferDirection::Receive }),
        );
        add_action(&mut actions, Action::Fail(AppError::Cancelled));
        assert(script(actions@) =~= receive_cancelled(self@, next_expected));
        actions
    }

    /// Logs the state of the transfer when a second has passed.
    pub fn diagnose(&mut self, next_expected: u32, now_ms: u64) -> (actions: Vec<Action>)
        ensures
            elapsed(now_ms, old(self).diag_last_ms) >= DIAGNOSTIC_INTERVAL_MS ==> {
                &&& final(self)@ == (ReceiveTransfer { diag_last_ms: now_ms, ..old(self)@ })
                &&& script(actions@) == seq![
                    note(LogLevel::Info, receive_diagnostic(old(self)@, next_expected)),
                ]
            },
            elapsed(now_ms, old(self).diag_last_ms) < DIAGNOSTIC_INTERVAL_MS ==> {
                &&& final(self)@ == old(self)@
                &&& script(actions@) == Seq::<Act>::empty()
            },
    {
        if elapsed_ns(now_ms, self.diag_last_ms) < DIAGNOSTIC_INTERVAL_MS {
            return no_actions();
        }
        self.diag_last_ms = now_ms;
        let mut message: String = "DIAG recv: frames=".to_string();
        push_decimal(&mut message, self.frames);
        append_number(&mut message, " data_recv=", self.data_recv);
        append_number(&mut message, " acks_sent=", self.acks_sent);
        append_number(&mut message, " bytes_recv=", self.bytes_received);
        append_number(&mut message, " next_expected=", next_expected as u64);
        one_action(log_line(LogLevel::Info, message))
    }

    /// No packet has come. The actions, if there are any, end the transfer.
    pub fn on_idle(&self, next_expected: u32, now_ns: u64) -> (actions: Vec<Action>)
        ensures
            script(actions@) == receive_idle(self@, next_expected, now_ns),
    {
        if elapsed_ns(now_ns, self.last_frame_ns) < RECEIVE_STALL_TIMEOUT_NS {
            return no_actions();
        }
        let mut actions: Vec<Action> = self.put_away(next_expected);
        add_action(
            &mut actions,
            Action::Fail(AppError::Stalled("no packets from sender for 45s".to_string())),
        );
        assert(script(actions@) =~= receive_idle(self@, next_expected, now_ns));
        actions
    }

    /// The transport has failed. That is the end of the transfer, in whatever state
    /// it is, if the transport is closed.
    pub fn on_recv_error(&self, closed: bool, error: TransportError) -> (step: ReceiveStep)
        ensures
            step@ == if closed {
                Reaction::Conclude
            } else {
                Reaction::End(seq![Action::Fail(AppError::Transport(error@))])
            },
    {
        if closed {
            ReceiveStep::Conclude
        } else {
            ReceiveStep::End(one_action(Action::Fail(AppError::Transport(error))))
        }
    }

    /// A frame has come.
    pub fn on_frame(&mut self, now_ns: u64)
        ensures
            final(self)@ == after_frame(old(self)@, now_ns),
    {
        self.last_frame_ns = now_ns;
        self.frames = plus(self.frames, 1);
    }

    /// The frame was a packet.
    pub fn on_packet(&mut self, packet: Packet) -> (step: ReceiveStep)
        ensures
            final(self)@ == after_packet(old(self)@, packet@),
            step@ == reaction(old(self)@, packet@),
    {
        match packet.packet_type {
            PacketType::Start => match parse_start_payload(packet.payload.as_slice()) {
                Ok((size, name, sender)) => ReceiveStep::Offered(size, name, sender),
                Err(error) => ReceiveStep::End(one_action(Action::Fail(error))),
            },
            PacketType::Data => {
                self.data_recv = plus(self.data_recv, 1);
                ReceiveStep::Data(packet)
            },
            PacketType::Finish => ReceiveStep::Finish,
            PacketType::Close => {
                let reason: String = from_utf8_lossy(packet.payload.as_slice());
                if crate::text::chars_of(reason.as_str()).len() == 0 {
                    ReceiveStep::Conclude
                } else {
                    ReceiveStep::End(rejected(TransferDirection::Receive, reason))
                }
            },
            PacketType::Resume => {
                if self.stream_offered && !self.streaming && bytes_equal(
                    packet.payload.as_slice(),
                    STREAM_MODE_MAGIC.as_bytes(),
                ) {
                    self.streaming = true;
                    ReceiveStep::Continue(
                        one_action(
                            log_line(
                                LogLevel::Info,
                                "DIAG recv: streaming mode enabled (cumulative ACKs over TCP)".to_string(),
                            ),
                        ),
                    )
                } else {
                    ReceiveStep::Continue(no_actions())
                }
            },
            _ => ReceiveStep::Continue(no_actions()),
        }
    }
}

/// How the transfer of a file begins: with which checkpoint, and how the file is
/// opened for it.
pub open spec fn resume_plan(
    loaded: Option<ResumeCheckpoint<Seq<char>>>,
    file_name: Seq<char>,
    file_size: u64,
    chunk_size: usize,
) -> (ResumeCheckpoint<Seq<char>>, Seq<Act>) {
    let fresh = fresh_checkpoint(file_name, file_size, chunk_size);
    match loaded {
        Some(checkpoint) => if belongs(checkpoint, file_name, file_size, chunk_size) {
            (checkpoint, seq![Action::OpenExisting, Action::Seek(checkpoint.bytes_written)])
        } else {
            (
                fresh,
                seq![Action::ClearCheckpoint, Action::CreateFile, Action::SaveCheckpoint(fresh)],
            )
        },
        None => (fresh, seq![Action::CreateFile, Action::SaveCheckpoint(fresh)]),
    }
}

/// What an optional checkpoint holds.
pub open spec fn loaded_of(loaded: Option<ResumeCheckpoint>) -> Option<
    ResumeCheckpoint<Seq<char>>,
> {
    match loaded {
        Some(checkpoint) => Some(checkpoint@),
        None => None,
    }
}

/// Decides how the transfer of a file begins, given the checkpoint that was found
/// for it: one that belongs to this very file and chunk size is taken up, and any
/// other is thrown away.
pub fn prepare_resume_state(
    loaded: Option<ResumeCheckpoint>,
    file_name: &str,
    file_size: u64,
    chunk_size: usize,
) -> (plan: (ResumeCheckpoint, Vec<Action>))
    ensures
        (plan.0@, script(plan.1@)) == resume_plan(
            loaded_of(loaded),
            file_name@,
            file_size,
            chunk_size,
        ),
{
    let mut actions: Vec<Action> = no_actions();
    match loaded {
        Some(checkpoint) => {
            if checkpoint.matches(file_name, file_size, chunk_size) {
                add_action(&mut actions, Action::OpenExisting);
                add_action(&mut actions, Action::Seek(checkpoint.bytes_written));
                assert(script(actions@) =~= seq![
                    Action::OpenExisting,
                    Action::Seek(checkpoint.bytes_written),
                ]);
                return (checkpoint, actions);
            }
            add_action(&mut actions, Action::ClearCheckpoint);
        },
        None => {},
    }
    let checkpoint: ResumeCheckpoint = ResumeCheckpoint::new(file_name, file_size, chunk_size);
    add_action(&mut actions, Action::CreateFile);
    add_action(&mut actions, Action::SaveCheckpoint(checkpoint.clone()));
    let ghost plan = resume_plan(loaded_of(loaded), file_name@, file_size, chunk_size);
    assert(script(actions@) =~= plan.1);
    (checkpoint, actions)
}

/// A transfer goes on where it stopped: what a receiver that ends early puts away is
/// taken up for the same file and chunk size, at the very byte that it had come to. For
/// any other file or chunk size the transfer begins anew.
pub proof fn law_put_away_checkpoint_is_taken_up(
    state: Receiving,
    next_expected: u32,
    file_name: Seq<char>,
    file_size: u64,
    chunk_size: usize,
)
    requires
        state.saved is Some,
    ensures
        ({
            let held = state.saved->Some_0.checkpoint;
            let kept = advanced(held, next_expected, state.bytes_received);
            let plan = resume_plan(Some(kept), file_name, file_size, chunk_size);
            &&& put_away(state, next_expected)[0] == Act::TrySaveCheckpoint(kept)
            &&& belongs(held, file_name, file_size, chunk_size) ==> plan == (
                kept,
                seq![Act::OpenExisting, Act::Seek(state.bytes_received)],
            )
            &&& !belongs(held, file_name, file_size, chunk_size) ==> plan.0 == fresh_checkpoint(
                file_name,
                file_size,
                chunk_size,
            ) && plan.1.contains(Act::CreateFile)
        }),
{
    let held = state.saved->Some_0.checkpoint;
    let kept = advanced(held, next_expected, state.bytes_received);
    let plan = resume_plan(Some(kept), file_name, file_size, chunk_size);
    if !belongs(held, file_name, file_size, chunk_size) {
        assert(plan.1[1] == Act::CreateFile);
    }
}

/// The name of the file that keeps the checkpoint of a file.
pub fn resume_checkpoint_name(file_name: &str) -> (name: String)
    ensures
        name@ == file_name@ + ".plenum.resume.json"@,
{
    let mut name: String = file_name.to_string();
    name.append(".plenum.resume.json");
    name
}

/// A receiver that was offered a file and has opened it.
pub open spec fn after_offer(
    state: Receiving,
    file_name: Seq<char>,
    file_size: u64,
    sender_name: Option<Seq<char>>,
    saved: SavedCheckpoint<Seq<char>>,
    now_ns: u64,
) -> Receiving {
    ReceiveTransfer {
        file_name,
        file_size,
        sender_name,
        saved: Some(saved),
        resume_sequence: saved.checkpoint.next_sequence,
        resume_bytes: saved.checkpoint.bytes_written,
        bytes_received: saved.checkpoint.bytes_written,
        bytes_since_checkpoint: 0,
        last_checkpoint_ns: now_ns,
        ..state
    }
}

/// What a receiver says of an offered file.
pub open spec fn offer_script(state: Receiving) -> Seq<Act> {
    seq![
        Action::ExpectFrom(state.resume_sequence),
        note(
            LogLevel::Info,
            "DIAG recv: START received file="@ + state.file_name + " size="@ + decimal(
                state.file_size as nat,
            ) + " resume="@ + decimal(state.resume_bytes as nat),
        ),
        tell(
            TransferEvent::IncomingRequest {
                direction: TransferDirection::Receive,
                file_name: state.file_name,
                total_bytes: state.file_size,
                peer: Some(state.peer),
                sender_name: state.sender_name,
            },
        ),
    ]
}

/// What a receiver does while the user has not answered, or once the user has.
pub enum Approval {
    /// The user accepts.
    Accepted,
    /// Ask again in fifty milliseconds.
    Wait,
    /// Carry out the actions, which end the transfer.
    End(Vec<Action>),
}

/// What a receiver does that declines.
pub open spec fn decline_script(sequence_no: u32, message: Seq<char>) -> Seq<Act> {
    seq![
        Action::TrySend(close_packet(sequence_no, CLOSE_REASON_DECLINED.spec_bytes())),
        Action::TryClose,
        tell(
            TransferEvent::Declined {
                direction: TransferDirection::Receive,
                reason: CLOSE_REASON_DECLINED@,
            },
        ),
        Action::Fail(AppError::Rejected(message)),
    ]
}

fn decline(sequence_no: u32, message: &str) -> (actions: Vec<Action>)
    ensures
        script(actions@) == decline_script(sequence_no, message@),
{
    let mut actions: Vec<Action> = no_actions();
    add_action(&mut actions, Action::TrySend(closing(sequence_no, CLOSE_REASON_DECLINED)));
    add_action(&mut actions, Action::TryClose);
    add_action(
        &mut actions,
        event(
            TransferEvent::Declined {
                direction: TransferDirection::Receive,
                reason: CLOSE_REASON_DECLINED.to_string(),
            },
        ),
    );
    add_action(&mut actions, Action::Fail(AppError::Rejected(message.to_string())));
    assert(script(actions@) =~= decline_script(sequence_no, message@));
    actions
}

/// A packet that offers or confirms the streaming mode.
pub open spec fn stream_packet() -> Packet<Seq<u8>> {
    Packet {
        packet_type: PacketType::Resume,
        sequence_no: 0,
        payload: STREAM_MODE_MAGIC.spec_bytes(),
    }
}

/// A packet that says where to go on.
pub open spec fn resume_packet(sequence_no: u32, bytes: u64) -> Packet<Seq<u8>> {
    Packet { packet_type: PacketType::Resume, sequence_no, payload: be_bytes(bytes as nat, 8) }
}

/// A packet that accepts a transfer and names the receiver.
pub open spec fn accept_packet(sequence_no: u32, device_name: Option<Seq<char>>) -> Packet<
    Seq<u8>,
> {
    Packet {
        packet_type: PacketType::Accept,
        sequence_no,
        payload: match device_name {
            Some(name) => vstd::utf8::encode_utf8(name),
            None => Seq::empty(),
        },
    }
}

/// What a receiver sends that accepts a file. The offer of the streaming mode, made
/// only where the transport knows nothing of relays, goes before the offset.
pub open spec fn acceptance(state: Receiving, relayed: Option<bool>) -> Seq<Act> {
    let offer = if relayed is None {
        seq![Action::Send(stream_packet())]
    } else {
        Seq::empty()
    };
    let resume = if state.resume_bytes > 0 {
        seq![
            tell(
                TransferEvent::Resumed {
                    direction: TransferDirection::Receive,
                    next_sequence: state.resume_sequence,
                    resumed_bytes: state.resume_bytes,
                },
            ),
            Action::Send(resume_packet(state.resume_sequence, state.resume_bytes)),
        ]
    } else {
        Seq::empty()
    };
    offer + resume + seq![Action::Send(accept_packet(state.resume_sequence, state.device_name))]
}

/// Builds a packet that offers or confirms the streaming mode.
pub fn streaming_packet() -> (packet: Packet)
    ensures
        packet@ == stream_packet(),
{
    Packet::new(
        PacketType::Resume,
        0,
        vstd::slice::slice_to_vec(STREAM_MODE_MAGIC.as_bytes()),
    )
}

impl ReceiveTransfer {
    /// A file is offered: `name` is the last part of the name that the sender gave,
    /// `checkpoint` and `path` are how its transfer begins.
    pub fn on_offer(
        &mut self,
        name: String,
        size: u64,
        sender_name: Option<String>,
        checkpoint: ResumeCheckpoint,
        path: String,
        now_ns: u64,
    ) -> (actions: Vec<Action>)
        ensures
            final(self)@ == after_offer(
                old(self)@,
                name@,
                size,
                owned_text(sender_name),
                SavedCheckpoint { checkpoint: checkpoint@, path: path@ },
                now_ns,
            ),
            script(actions@) == offer_script(final(self)@),
    {
        self.file_name = name;
        self.file_size = size;
        self.sender_name = sender_name;
        self.resume_sequence = checkpoint.next_sequence;
        self.resume_bytes = checkpoint.bytes_written;
        self.bytes_received = checkpoint.bytes_written;
        self.saved = Some(SavedCheckpoint { checkpoint, path });
        self.bytes_since_checkpoint = 0;
        self.last_checkpoint_ns = now_ns;

        let mut message: String = "DIAG recv: START received file=".to_string();
        message.append(self.file_name.as_str());
        append_number(&mut message, " size=", self.file_size);
        append_number(&mut message, " resume=", self.resume_bytes);
        let mut actions: Vec<Action> = no_actions();
        add_action(&mut actions, Action::ExpectFrom(self.resume_sequence));
        add_action(&mut actions, log_line(LogLevel::Info, message));
        add_action(
            &mut actions,
            event(
                TransferEvent::IncomingRequest {
                    direction: TransferDirection::Receive,
                    file_name: self.file_name.as_str().to_string(),
                    total_bytes: self.file_size,
                    peer: Some(self.peer.as_str().to_string()),
                    sender_name: copy_text(&self.sender_name),
                },
            ),
        );
        assert(script(actions@) =~= offer_script(self@));
        actions
    }

    /// Whether the user is to be asked.
    pub fn asks_user(&self) -> (asks: bool)
        ensures
            asks == !self.auto_accept,
    {
        !self.auto_accept
    }

    /// Looks at the user's answer to a question asked at `asked_ns`.
    pub fn poll_approval(
        &self,
        cancelled: bool,
        decision: AcceptDecision,
        asked_ns: u64,
        now_ns: u64,
    ) -> (approval: Approval)
        ensures
            match approval {
                Approval::Accepted => !cancelled && decision is Accepted,
                Approval::Wait => !cancelled && decision is Pending && elapsed(now_ns, asked_ns)
                    < APPROVAL_TIMEOUT_NS,
                Approval::End(actions) => if cancelled {
                    script(actions@) == crate::app::script::cancel_script(
                        TransferDirection::Receive,
                        self.resume_sequence,
                    )
                } else if decision is Declined {
                    script(actions@) == decline_script(
                        self.resume_sequence,
                        "transfer declined"@,
                    )
                } else {
                    &&& decision is Pending
                    &&& elapsed(now_ns, asked_ns) >= APPROVAL_TIMEOUT_NS
                    &&& script(actions@) == decline_script(
                        self.resume_sequence,
                        "no decision within 120s; transfer declined"@,
                    )
                },
            },
    {
        if cancelled {
            return Approval::End(
                crate::app::script::cancel(TransferDirection::Receive, self.resume_sequence),
            );
        }
        match decision {
            AcceptDecision::Accepted => Approval::Accepted,
            AcceptDecision::Declined => Approval::End(
                decline(self.resume_sequence, "transfer declined"),
            ),
            AcceptDecision::Pending => {
                if elapsed_ns(now_ns, asked_ns) >= APPROVAL_TIMEOUT_NS {
                    Approval::End(
                        decline(
                            self.resume_sequence,
                            "no decision within 120s; transfer declined",
                        ),
                    )
                } else {
                    Approval::Wait
                }
            },
        }
    }

    /// The file is accepted.
    pub fn accept(&mut self, relayed: Option<bool>) -> (actions: Vec<Action>)
        ensures
            final(self)@ == (ReceiveTransfer {
                stream_offered: old(self).stream_offered || relayed is None,
                ..old(self)@
            }),
            script(actions@) == acceptance(old(self)@, relayed),
    {
        let mut actions: Vec<Action> = no_actions();
        if relayed.is_none() {
            self.stream_offered = true;
            add_action(&mut actions, Action::Send(streaming_packet()));
        }
        if self.resume_bytes > 0 {
            add_action(
                &mut actions,
                event(
                    TransferEvent::Resumed {
                        direction: TransferDirection::Receive,
                        next_sequence: self.resume_sequence,
                        resumed_bytes: self.resume_bytes,
                    },
                ),
            );
            let mut offset: Vec<u8> = Vec::new();
            push_be(&mut offset, self.resume_bytes, 8);
            assert(offset@ =~= be_bytes(self.resume_bytes as nat, 8));
            add_action(
                &mut actions,
                Action::Send(Packet::new(PacketType::Resume, self.resume_sequence, offset)),
            );
        }
        let name: Vec<u8> = match &self.device_name {
            Some(name) => vstd::slice::slice_to_vec(name.as_str().as_bytes()),
            None => Vec::new(),
        };
        assert(name@ =~= accept_packet(self.resume_sequence, self@.device_name).payload);
        add_action(
            &mut actions,
            Action::Send(Packet::new(PacketType::Accept, self.resume_sequence, name)),
        );
        assert(script(actions@) =~= acceptance(old(self)@, relayed));
        actions
    }

    /// The acceptance was sent: the transfer starts.
    pub fn start(&mut self, now_ns: u64) -> (actions: Vec<Action>)
        ensures
            final(self)@ == (ReceiveTransfer {
                started_ns: now_ns,
                last_frame_ns: now_ns,
                ..old(self)@
            }),
            script(actions@) == seq![
                tell(
                    TransferEvent::Started {
                        direction: TransferDirection::Receive,
                        file_name: old(self).file_name@,
                        total_bytes: old(self).file_size,
                        resumed_bytes: old(self).resume_bytes,
                    },
                ),
            ],
    {
        self.started_ns = now_ns;
        self.last_frame_ns = now_ns;
        one_action(
            event(
                TransferEvent::Started {
                    direction: TransferDirection::Receive,
                    file_name: self.file_name.as_str().to_string(),
                    total_bytes: self.file_size,
                    resumed_bytes: self.resume_bytes,
                },
            ),
        )
    }
}

} // verus!
