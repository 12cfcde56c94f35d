//! The waits at the start of a transfer: a sender waits for the receiver's answer,
//! and a receiver that wants a pairing code waits for it.

use vstd::prelude::*;
use vstd::string::*;

use crate::app::clock::{elapsed, elapsed_ns};
use crate::app::error::AppError;
use crate::app::payload::{
    law_stream_magic_is_no_offset, parse_accept_payload, peer_name_of, STREAM_MODE_MAGIC,
};
use crate::app::receive::{accept_packet, acceptance, resume_packet, stream_packet, Act, Receiving};
use crate::app::script::{
    add_action, cancel, cancel_script, close_packet, closing, event, log_line, no_actions, note,
    one_action, rejected, rejection_script, script, tell, Action, CLOSE_REASON_PIN_REJECTED,
};
use crate::app::types::{LogLevel, TransferDirection, TransferEvent};
use crate::protocol::{Packet, PacketType};
use crate::text::{
    ascii_uppercase, eq_ignore_ascii_case, from_utf8_lossy, lemma_lossy_of_text,
    lemma_trimmed_twice, lossy, owned_text, trim, trimmed,
};
use crate::transport::{IoError, IoErrorKind, TransportError};
use crate::wire::{
    be_bytes, be_value, bytes_equal, lemma_be_bytes_len, lemma_be_limits, lemma_be_round_trip,
    read_be,
};

verus! {

/// How long a sender waits for the receiver's answer.
pub const ACCEPT_WAIT_TIMEOUT_NS: u64 = 150_000_000_000;

/// How long a receiver waits for the pairing code.
pub const AUTH_WAIT_TIMEOUT_NS: u64 = 10_000_000_000;

/// A sender that waits for the receiver's answer, and what it has heard so far.
#[derive(Debug, Clone, Copy, PartialEq, Eq, Structural)]
pub struct AcceptWait {
    pub direction: TransferDirection,
    pub asked_ns: u64,
    pub resume_bytes: u64,
    pub receiver_streams: bool,
}

/// What a receiver that accepts has said.
pub struct Accepted<S = String> {
    /// The sequence number to start with.
    pub sequence_no: u32,
    /// How much of the file the receiver already has.
    pub resume_bytes: u64,
    /// The receiver's name, where it gave one.
    pub receiver_name: Option<S>,
    /// Whether the receiver offers the streaming mode.
    pub receiver_streams: bool,
}

impl View for Accepted {
    type V = Accepted<Seq<char>>;

    open spec fn view(&self) -> Accepted<Seq<char>> {
        Accepted {
            sequence_no: self.sequence_no,
            resume_bytes: self.resume_bytes,
            receiver_name: owned_text(self.receiver_name),
            receiver_streams: self.receiver_streams,
        }
    }
}

/// What a waiting sender makes of a packet.
pub enum AcceptStep {
    /// Wait on.
    Wait,
    /// The receiver accepts.
    Accepted(Accepted),
    /// Carry out the actions, which end the transfer.
    End(Vec<Action>),
}

/// What a waiting sender has heard after a packet. A resume packet that is no offer
/// of the streaming mode sets the offset, and one of another length than eight bytes
/// sets it to zero.
pub open spec fn accept_heard(wait: AcceptWait, packet: Packet<Seq<u8>>) -> AcceptWait {
    if packet.packet_type !is Resume {
        wait
    } else if packet.payload == STREAM_MODE_MAGIC.spec_bytes() {
        AcceptWait { receiver_streams: true, ..wait }
    } else {
        AcceptWait {
            resume_bytes: if packet.payload.len() == 8 {
                be_value(packet.payload) as u64
            } else {
                0
            },
            ..wait
        }
    }
}

/// What an accept packet says, after everything else that was heard.
pub open spec fn accepted_with(wait: AcceptWait, packet: Packet<Seq<u8>>) -> Accepted<Seq<char>> {
    Accepted {
        sequence_no: packet.sequence_no,
        resume_bytes: wait.resume_bytes,
        receiver_name: peer_name_of(packet.payload),
        receiver_streams: wait.receiver_streams,
    }
}

impl AcceptWait {
    /// A wait that starts now.
    pub fn new(direction: TransferDirection, now_ns: u64) -> (wait: AcceptWait)
        ensures
            wait == (AcceptWait {
                direction,
                asked_ns: now_ns,
                resume_bytes: 0,
                receiver_streams: false,
            }),
    {
        AcceptWait { direction, asked_ns: now_ns, resume_bytes: 0, receiver_streams: false }
    }

    /// Looks whether the wait is over without an answer. The actions, if there are
    /// any, end the transfer.
    pub fn poll(&self, cancelled: bool, now_ns: u64) -> (actions: Vec<Action>)
        ensures
            script(actions@) == if cancelled {
                cancel_script(self.direction, 0)
            } else if elapsed(now_ns, self.asked_ns) >= ACCEPT_WAIT_TIMEOUT_NS {
                seq![
                    Act::Fail(
                        AppError::Stalled(
                            "receiver did not answer the transfer offer within 150s"@,
                        ),
                    ),
                ]
            } else {
                Seq::<Act>::empty()
            },
    {
        if cancelled {
            cancel(self.direction, 0)
        } else if elapsed_ns(now_ns, self.asked_ns) >= ACCEPT_WAIT_TIMEOUT_NS {
            one_action(
                Action::Fail(
                    AppError::Stalled(
                        "receiver did not answer the transfer offer within 150s".to_string(),
                    ),
                ),
            )
        } else {
            no_actions()
        }
    }

    /// A packet has come.
    pub fn on_packet(&mut self, packet: Packet) -> (step: AcceptStep)
        ensures
            *final(self) == accept_heard(*old(self), packet@),
            match step {
                AcceptStep::Accepted(accepted) => packet.packet_type is Accept && accepted@
                    == accepted_with(*old(self), packet@),
                AcceptStep::End(actions) => packet.packet_type is Close && script(actions@)
                    == rejection_script(old(self).direction, lossy(packet.payload@)),
                AcceptStep::Wait => packet.packet_type !is Accept && packet.packet_type !is Close,
            },
    {
        match packet.packet_type {
            PacketType::Accept => AcceptStep::Accepted(
                Accepted {
                    sequence_no: packet.sequence_no,
                    resume_bytes: self.resume_bytes,
                    receiver_name: parse_accept_payload(packet.payload.as_slice()),
                    receiver_streams: self.receiver_streams,
                },
            ),
            PacketType::Resume => {
                if bytes_equal(packet.payload.as_slice(), STREAM_MODE_MAGIC.as_bytes()) {
                    self.receiver_streams = true;
                } else if packet.payload.len() == 8 {
                    assert(packet.payload@.subrange(0, 8) =~= packet.payload@);
                    self.resume_bytes = read_be(packet.payload.as_slice(), 0, 8);
                } else {
                    self.resume_bytes = 0;
                }
                AcceptStep::Wait
            },
            PacketType::Close => AcceptStep::End(
                rejected(self.direction, from_utf8_lossy(packet.payload.as_slice())),
            ),
            _ => AcceptStep::Wait,
        }
    }
}

/// What a sender that hears packets one after the other ends up with, if one of them
/// accepts and none before it closes.
pub open spec fn answer_to(wait: AcceptWait, packets: Seq<Packet<Seq<u8>>>) -> Option<
    Accepted<Seq<char>>,
>
    decreases packets.len(),
{
    if packets.len() == 0 || packets[0].packet_type is Close {
        None
    } else if packets[0].packet_type is Accept {
        Some(accepted_with(wait, packets[0]))
    } else {
        answer_to(accept_heard(wait, packets[0]), packets.skip(1))
    }
}

/// The packets that a script sends.
pub open spec fn packets_sent(actions: Seq<Act>) -> Seq<Packet<Seq<u8>>>
    decreases actions.len(),
{
    if actions.len() == 0 {
        Seq::empty()
    } else {
        let rest = packets_sent(actions.skip(1));
        match actions[0] {
            Action::Send(packet) => seq![packet] + rest,
            _ => rest,
        }
    }
}

/// The sender learns what the receiver means: from the packets of an acceptance it
/// has the sequence number and the offset at which the receiver's checkpoint stands,
/// the receiver's name, and the offer to stream exactly where the receiver made it.
pub proof fn law_acceptance_is_understood(
    receiver: Receiving,
    relayed: Option<bool>,
    direction: TransferDirection,
    asked_ns: u64,
)
    ensures
        ({
            let wait = AcceptWait {
                direction,
                asked_ns,
                resume_bytes: 0,
                receiver_streams: false,
            };
            answer_to(wait, packets_sent(acceptance(receiver, relayed))) == Some(
                Accepted {
                    sequence_no: receiver.resume_sequence,
                    resume_bytes: receiver.resume_bytes,
                    receiver_name: match receiver.device_name {
                        Some(name) => if vstd::utf8::encode_utf8(name).len() == 0 {
                            None
                        } else {
                            Some(name)
                        },
                        None => None,
                    },
                    receiver_streams: relayed is None,
                },
            )
        }),
{
    let wait = AcceptWait { direction, asked_ns, resume_bytes: 0, receiver_streams: false };
    let offset = be_bytes(receiver.resume_bytes as nat, 8);
    let accept = accept_packet(receiver.resume_sequence, receiver.device_name);
    let resume = resume_packet(receiver.resume_sequence, receiver.resume_bytes);
    let script = acceptance(receiver, relayed);
    let told: Act = tell(
        TransferEvent::Resumed {
            direction: TransferDirection::Receive,
            next_sequence: receiver.resume_sequence,
            resumed_bytes: receiver.resume_bytes,
        },
    );
    law_stream_magic_is_no_offset();
    lemma_be_bytes_len(receiver.resume_bytes as nat, 8);
    lemma_be_limits();
    lemma_be_round_trip(receiver.resume_bytes as nat, 8);
    if receiver.device_name is Some {
        lemma_lossy_of_text(receiver.device_name->Some_0);
    }
    reveal_with_fuel(packets_sent, 6);
    reveal_with_fuel(answer_to, 4);
    let just_accept: Seq<Act> = seq![Act::Send(accept)];
    assert(just_accept.skip(1) =~= Seq::<Act>::empty());
    assert(packets_sent(just_accept) =~= seq![accept]);
    let resumed: Seq<Act> = seq![told, Act::Send(resume), Act::Send(accept)];
    assert(resumed.skip(1) =~= seq![Act::Send(resume), Act::Send(accept)]);
    assert(resumed.skip(1).skip(1) =~= just_accept);
    assert(packets_sent(resumed.skip(1)) =~= seq![resume, accept]);
    assert(packets_sent(resumed) =~= seq![resume, accept]);
    let tail = if receiver.resume_bytes > 0 {
        resumed
    } else {
        just_accept
    };
    let tail_packets = packets_sent(tail);
    if relayed is None {
        let whole = seq![Act::Send(stream_packet())] + tail;
        assert(script =~= whole);
        assert(whole.skip(1) =~= tail);
        assert(packets_sent(script) =~= seq![stream_packet()] + tail_packets);
        assert((seq![stream_packet()] + tail_packets).skip(1) =~= tail_packets);
    } else {
        assert(script =~= tail);
    }
    assert(seq![resume, accept].skip(1) =~= seq![accept]);
}

/// What came in while a receiver waited for the pairing code.
pub enum Heard {
    /// A packet.
    Packet(Packet),
    /// A frame that is no packet.
    Garbled,
    /// Nothing.
    Nothing,
    /// The transport has failed.
    Failed(TransportError),
}

/// Why a connection is turned away, or why waiting for the code failed outright.
pub enum AuthGateOutcome {
    /// No pairing code, a wrong one, or garbage: drop this connection and listen on.
    WrongPin,
    /// The local user cancelled the session meanwhile.
    Cancelled,
    /// A failure that ends the whole session.
    Error(AppError),
}

/// What comes of waiting for the code.
pub enum AuthStep {
    /// The sender knows the code.
    Passed,
    /// Look again in ten milliseconds.
    Wait,
    /// The connection is turned away.
    Refused(AuthGateOutcome),
}

/// Whether a packet carries the code: upper and lower case do not matter, nor white
/// space around it.
pub open spec fn carries_code(packet: Packet<Seq<u8>>, code: Seq<char>) -> bool {
    &&& packet.packet_type is Auth
    &&& ascii_uppercase(code) == ascii_uppercase(trimmed(lossy(packet.payload)))
}

/// Looks for the pairing code: the first thing on a connection must be a packet that
/// carries it.
pub fn verify_sender_auth(
    cancelled: bool,
    heard: Heard,
    code: &str,
    asked_ns: u64,
    now_ns: u64,
) -> (step: AuthStep)
    ensures
        if cancelled {
            step matches AuthStep::Refused(AuthGateOutcome::Cancelled)
        } else {
            match heard {
                Heard::Packet(packet) => if carries_code(packet@, code@) {
                    step is Passed
                } else {
                    step matches AuthStep::Refused(AuthGateOutcome::WrongPin)
                },
                Heard::Garbled => step matches AuthStep::Refused(AuthGateOutcome::WrongPin),
                Heard::Nothing => if elapsed(now_ns, asked_ns) >= AUTH_WAIT_TIMEOUT_NS {
                    step matches AuthStep::Refused(AuthGateOutcome::WrongPin)
                } else {
                    step is Wait
                },
                Heard::Failed(error) => step matches AuthStep::Refused(
                    AuthGateOutcome::Error(failure),
                ) && failure@ == AppError::Transport(error@),
            }
        },
{
    if cancelled {
        return AuthStep::Refused(AuthGateOutcome::Cancelled);
    }
    match heard {
        Heard::Packet(packet) => {
            if packet.packet_type != PacketType::Auth {
                return AuthStep::Refused(AuthGateOutcome::WrongPin);
            }
            let candidate: String = from_utf8_lossy(packet.payload.as_slice());
            let candidate_code: String = trim(candidate.as_str());
            if eq_ignore_ascii_case(code, candidate_code.as_str()) {
                AuthStep::Passed
            } else {
                AuthStep::Refused(AuthGateOutcome::WrongPin)
            }
        },
        Heard::Garbled => AuthStep::Refused(AuthGateOutcome::WrongPin),
        Heard::Nothing => {
            if elapsed_ns(now_ns, asked_ns) >= AUTH_WAIT_TIMEOUT_NS {
                AuthStep::Refused(AuthGateOutcome::WrongPin)
            } else {
                AuthStep::Wait
            }
        },
        Heard::Failed(error) => AuthStep::Refused(
            AuthGateOutcome::Error(AppError::Transport(error)),
        ),
    }
}

/// The packet with which a sender shows that it knows the code.
pub open spec fn auth_packet(pin: Seq<char>) -> Packet<Seq<u8>> {
    Packet {
        packet_type: PacketType::Auth,
        sequence_no: 0,
        payload: vstd::utf8::encode_utf8(trimmed(pin)),
    }
}

/// A sender that was given the code passes, in whatever case and with
/// whatever white space around it the code was given.
pub proof fn law_right_code_passes(pin: Seq<char>, code: Seq<char>)
    requires
        ascii_uppercase(trimmed(pin)) == ascii_uppercase(code),
    ensures
        carries_code(auth_packet(pin), code),
{
    lemma_lossy_of_text(trimmed(pin));
    lemma_trimmed_twice(pin);
}

/// What a listening receiver does next.
pub enum ListenStep {
    /// Carry out the actions and listen on.
    Listen(Vec<Action>),
    /// Look again in twenty-five milliseconds.
    Wait,
    /// Carry out the actions, which end the session.
    End(Vec<Action>),
}

/// What a receiver says that was cancelled before anything was transferred.
pub open spec fn listen_cancelled() -> Seq<Act> {
    seq![
        tell(TransferEvent::Cancelled { direction: TransferDirection::Receive }),
        Act::Fail(AppError::Cancelled),
    ]
}

/// What is done when the local user cancels a receiver that only listens.
pub fn cancel_listening() -> (actions: Vec<Action>)
    ensures
        script(actions@) == listen_cancelled(),
{
    let mut actions: Vec<Action> = one_action(
        event(TransferEvent::Cancelled { direction: TransferDirection::Receive }),
    );
    add_action(&mut actions, Action::Fail(AppError::Cancelled));
    assert(script(actions@) =~= listen_cancelled());
    actions
}

/// No connection was accepted.
pub fn on_accept_error(error: IoError) -> (step: ListenStep)
    ensures
        match step {
            ListenStep::Wait => error.kind is WouldBlock || error.kind is TimedOut,
            ListenStep::End(actions) => {
                &&& !(error.kind is WouldBlock || error.kind is TimedOut)
                &&& script(actions@) == seq![Act::Fail(AppError::Io(error@))]
            },
            ListenStep::Listen(_) => false,
        },
{
    match error.kind {
        IoErrorKind::WouldBlock => ListenStep::Wait,
        IoErrorKind::TimedOut => ListenStep::Wait,
        _ => ListenStep::End(one_action(Action::Fail(AppError::Io(error)))),
    }
}

/// What is done about `peer`, which did not pass.
pub fn on_refused(outcome: AuthGateOutcome, peer: &str) -> (step: ListenStep)
    ensures
        match outcome {
            AuthGateOutcome::WrongPin => step matches ListenStep::Listen(actions) && script(
                actions@,
            ) == seq![
                note(
                    LogLevel::Warn,
                    "rejected connection from "@ + peer@ + ": invalid PIN"@,
                ),
                Act::TrySend(close_packet(0, CLOSE_REASON_PIN_REJECTED.spec_bytes())),
                Act::TryClose,
            ],
            AuthGateOutcome::Cancelled => step matches ListenStep::End(actions) && script(actions@)
                == listen_cancelled(),
            AuthGateOutcome::Error(error) => step matches ListenStep::End(actions) && script(
                actions@,
            ) == seq![Act::Fail(error@)],
        },
{
    match outcome {
        AuthGateOutcome::WrongPin => {
            let mut message: String = "rejected connection from ".to_string();
            message.append(peer);
            message.append(": invalid PIN");
            let mut actions: Vec<Action> = one_action(log_line(LogLevel::Warn, message));
            add_action(&mut actions, Action::TrySend(closing(0, CLOSE_REASON_PIN_REJECTED)));
            add_action(&mut actions, Action::TryClose);
            assert(script(actions@) =~= seq![
                note(LogLevel::Warn, message@),
                Act::TrySend(close_packet(0, CLOSE_REASON_PIN_REJECTED.spec_bytes())),
                Act::TryClose,
            ]);
            ListenStep::Listen(actions)
        },
        AuthGateOutcome::Cancelled => ListenStep::End(cancel_listening()),
        AuthGateOutcome::Error(error) => ListenStep::End(one_action(Action::Fail(error))),
    }
}

} // verus!
