//! The sending end of a transfer, around the loop that sends the data.

use vstd::prelude::*;
use vstd::string::*;
use vstd::utf8::encode_utf8;

use crate::app::clock::{elapsed, elapsed_ns};
use crate::app::handshake::{auth_packet, Accepted};
use crate::app::payload::{
    encode_start_payload, law_start_payload_round_trip, law_versioned_start_payload_round_trip,
    start_bytes,
};
use crate::app::receive::{
    after_packet, reaction, stream_packet, streaming_packet, Act, Reaction, ReceiveTransfer,
    Receiving,
};
use crate::app::script::{
    add_action, bare, bare_packet, event, log_line, mode_of, no_actions, note, one_action, script,
    tell, transfer_mode, Action,
};
use crate::app::types::{
    ConnectionState, LogLevel, TransferDirection, TransferEvent, TransferOptions, TransferSummary,
};
use crate::protocol::{Packet, PacketType};
use crate::text::{append_number, copy_text, decimal, own, owned_text, text_of, trim};

verus! {

/// A file that is offered to a receiver.
pub struct Outgoing<S = String> {
    pub file_name: S,
    pub file_size: u64,
    pub peer: Option<S>,
    pub chunk_size: usize,
    pub window_size: usize,
}

impl View for Outgoing {
    type V = Outgoing<Seq<char>>;

    open spec fn view(&self) -> Outgoing<Seq<char>> {
        Outgoing {
            file_name: self.file_name@,
            file_size: self.file_size,
            peer: owned_text(self.peer),
            chunk_size: self.chunk_size,
            window_size: self.window_size,
        }
    }
}

/// The packet that offers a file.
pub open spec fn start_packet(file: Outgoing<Seq<char>>, device_name: Option<Seq<char>>) -> Packet<
    Seq<u8>,
> {
    Packet {
        packet_type: PacketType::Start,
        sequence_no: 0,
        payload: start_bytes(
            file.file_size,
            encode_utf8(file.file_name),
            match device_name {
                None => None,
                Some(device) => Some(encode_utf8(device)),
            },
        ),
    }
}

/// How a file is offered: the pairing code, where there is one, goes first.
pub open spec fn offering(
    file: Outgoing<Seq<char>>,
    relayed: Option<bool>,
    pin: Option<Seq<char>>,
    device_name: Option<Seq<char>>,
) -> Seq<Act> {
    seq![
        tell(
            TransferEvent::ConnectionEstablished {
                direction: TransferDirection::Send,
                mode: mode_of(relayed),
            },
        ),
    ] + (match pin {
        Some(code) => seq![Act::Send(auth_packet(code))],
        None => Seq::empty(),
    }) + seq![
        Act::Send(start_packet(file, device_name)),
        tell(
            TransferEvent::AwaitingApproval {
                direction: TransferDirection::Send,
                file_name: file.file_name,
            },
        ),
    ]
}

/// Whether the transfer streams: only where the receiver offers it and the transport
/// knows nothing of relays.
pub open spec fn streams(accepted: Accepted<Seq<char>>, relayed: Option<bool>) -> bool {
    accepted.receiver_streams && relayed is None
}

/// How an accepted transfer begins. The confirmation of the streaming mode goes
/// before any data.
pub open spec fn beginning(
    file: Outgoing<Seq<char>>,
    accepted: Accepted<Seq<char>>,
    relayed: Option<bool>,
) -> Seq<Act> {
    (if accepted.resume_bytes > 0 {
        seq![
            tell(
                TransferEvent::Resumed {
                    direction: TransferDirection::Send,
                    next_sequence: accepted.sequence_no,
                    resumed_bytes: accepted.resume_bytes,
                },
            ),
            Act::Seek(accepted.resume_bytes),
        ]
    } else {
        Seq::empty()
    }) + seq![
        tell(
            TransferEvent::Started {
                direction: TransferDirection::Send,
                file_name: file.file_name,
                total_bytes: file.file_size,
                resumed_bytes: accepted.resume_bytes,
            },
        ),
        note(
            LogLevel::Info,
            "DIAG send: transfer loop start, file="@ + file.file_name + " size="@ + decimal(
                file.file_size as nat,
            ) + " chunk="@ + decimal(file.chunk_size as nat) + " window="@ + decimal(
                file.window_size as nat,
            ),
        ),
    ] + (if streams(accepted, relayed) {
        seq![
            Act::Send(stream_packet()),
            note(
                LogLevel::Info,
                "DIAG send: streaming mode enabled (cumulative ACKs over TCP)"@,
            ),
        ]
    } else {
        Seq::empty()
    })
}

/// What a transfer amounts to for the sender.
pub open spec fn send_summary(
    file: Outgoing<Seq<char>>,
    accepted: Accepted<Seq<char>>,
    relayed: Option<bool>,
    started_ns: u64,
    now_ns: u64,
) -> TransferSummary<Seq<char>> {
    TransferSummary {
        direction: TransferDirection::Send,
        file_name: file.file_name,
        peer: file.peer,
        peer_name: accepted.receiver_name,
        mode: mode_of(relayed),
        total_bytes: file.file_size,
        transferred_bytes: file.file_size,
        resumed_bytes: accepted.resume_bytes,
        elapsed_ms: (elapsed(now_ns, started_ns) / 1_000_000) as u128,
    }
}

/// What a sender says of a complete transfer.
pub open spec fn completion(summary: TransferSummary<Seq<char>>) -> Seq<Act> {
    seq![
        tell(TransferEvent::Completed(summary)),
        tell(
            TransferEvent::StateChanged {
                direction: TransferDirection::Send,
                state: ConnectionState::Closed,
                peer: summary.peer,
            },
        ),
        Act::Complete(summary),
    ]
}

impl Outgoing {
    /// A file of which `options` say how it is sent.
    pub fn new(
        file_name: &str,
        file_size: u64,
        peer: Option<&str>,
        options: &TransferOptions,
    ) -> (file: Outgoing)
        ensures
            file@ == (Outgoing {
                file_name: file_name@,
                file_size,
                peer: text_of(peer),
                chunk_size: options.chunk_size,
                window_size: options.window_size,
            }),
    {
        Outgoing {
            file_name: file_name.to_string(),
            file_size,
            peer: own(peer),
            chunk_size: options.chunk_size,
            window_size: options.window_size,
        }
    }

    /// Offers the file.
    pub fn offer(
        &self,
        relayed: Option<bool>,
        pin: Option<&str>,
        device_name: Option<&str>,
    ) -> (actions: Vec<Action>)
        ensures
            script(actions@) == offering(self@, relayed, text_of(pin), text_of(device_name)),
    {
        let mut actions: Vec<Action> = one_action(
            event(
                TransferEvent::ConnectionEstablished {
                    direction: TransferDirection::Send,
                    mode: transfer_mode(relayed),
                },
            ),
        );
        match pin {
            Some(code) => {
                let trimmed_code: String = trim(code);
                add_action(
                    &mut actions,
                    Action::Send(
                        Packet::new(
                            PacketType::Auth,
                            0,
                            vstd::slice::slice_to_vec(trimmed_code.as_str().as_bytes()),
                        ),
                    ),
                );
            },
            None => {},
        }
        let payload: Vec<u8> = encode_start_payload(
            self.file_size,
            self.file_name.as_str(),
            device_name,
        );
        let packet: Packet = Packet::new(PacketType::Start, 0, payload);
        assert(packet@ == start_packet(self@, text_of(device_name)));
        add_action(&mut actions, Action::Send(packet));
        add_action(
            &mut actions,
            event(
                TransferEvent::AwaitingApproval {
                    direction: TransferDirection::Send,
                    file_name: self.file_name.as_str().to_string(),
                },
            ),
        );
        assert(script(actions@) =~= offering(
            self@,
            relayed,
            text_of(pin),
            text_of(device_name),
        ));
        actions
    }

    /// Whether the transfer streams.
    pub fn streams(&self, accepted: &Accepted, relayed: Option<bool>) -> (streaming: bool)
        ensures
            streaming == streams(accepted@, relayed),
    {
        accepted.receiver_streams && relayed.is_none()
    }

    /// Begins an accepted transfer.
    pub fn begin(&self, accepted: &Accepted, relayed: Option<bool>) -> (actions: Vec<Action>)
        ensures
            script(actions@) == beginning(self@, accepted@, relayed),
    {
        let mut actions: Vec<Action> = no_actions();
        if accepted.resume_bytes > 0 {
            add_action(
                &mut actions,
                event(
                    TransferEvent::Resumed {
                        direction: TransferDirection::Send,
                        next_sequence: accepted.sequence_no,
                        resumed_bytes: accepted.resume_bytes,
                    },
                ),
            );
            add_action(&mut actions, Action::Seek(accepted.resume_bytes));
        }
        add_action(
            &mut actions,
            event(
                TransferEvent::Started {
                    direction: TransferDirection::Send,
                    file_name: self.file_name.as_str().to_string(),
                    total_bytes: self.file_size,
                    resumed_bytes: accepted.resume_bytes,
                },
            ),
        );
        let mut message: String = "DIAG send: transfer loop start, file=".to_string();
        message.append(self.file_name.as_str());
        append_number(&mut message, " size=", self.file_size);
        append_number(&mut message, " chunk=", self.chunk_size as u64);
        append_number(&mut message, " window=", self.window_size as u64);
        add_action(&mut actions, log_line(LogLevel::Info, message));
        if self.streams(accepted, relayed) {
            add_action(&mut actions, Action::Send(streaming_packet()));
            add_action(
                &mut actions,
                log_line(
                    LogLevel::Info,
                    "DIAG send: streaming mode enabled (cumulative ACKs over TCP)".to_string(),
                ),
            );
        }
        assert(script(actions@) =~= beginning(self@, accepted@, relayed));
        actions
    }

    /// Closes the connection when everything is sent. Over a window the receiver is
    /// told so first; a streaming sender has told it already.
    pub fn close(&self, streaming: bool, sequence_no: u32) -> (actions: Vec<Action>)
        ensures
            script(actions@) == if streaming {
                seq![Act::Close]
            } else {
                seq![Act::Send(bare_packet(PacketType::Finish, sequence_no)), Act::Close]
            },
    {
        let mut actions: Vec<Action> = no_actions();
        if !streaming {
            add_action(&mut actions, Action::Send(bare(PacketType::Finish, sequence_no)));
        }
        add_action(&mut actions, Action::Close);
        assert(script(actions@) =~= if streaming {
            seq![Act::Close]
        } else {
            seq![Act::Send(bare_packet(PacketType::Finish, sequence_no)), Act::Close]
        });
        actions
    }

    /// The connection is closed: the transfer is complete. `relayed` is what the
    /// transport ran over before.
    pub fn complete(
        &self,
        accepted: &Accepted,
        relayed: Option<bool>,
        started_ns: u64,
        now_ns: u64,
    ) -> (actions: Vec<Action>)
        ensures
            script(actions@) == completion(
                send_summary(self@, accepted@, relayed, started_ns, now_ns),
            ),
    {
        let summary: TransferSummary = TransferSummary {
            direction: TransferDirection::Send,
            file_name: self.file_name.as_str().to_string(),
            peer: copy_text(&self.peer),
            peer_name: copy_text(&accepted.receiver_name),
            mode: transfer_mode(relayed),
            total_bytes: self.file_size,
            transferred_bytes: self.file_size,
            resumed_bytes: accepted.resume_bytes,
            elapsed_ms: (elapsed_ns(now_ns, started_ns) / 1_000_000) as u128,
        };
        let mut actions: Vec<Action> = one_action(
            event(TransferEvent::Completed(summary.clone())),
        );
        add_action(
            &mut actions,
            event(
                TransferEvent::StateChanged {
                    direction: TransferDirection::Send,
                    state: ConnectionState::Closed,
                    peer: copy_text(&self.peer),
                },
            ),
        );
        let ghost told = summary@;
        add_action(&mut actions, Action::Complete(summary));
        assert(script(actions@) =~= completion(told));
        actions
    }
}

/// The receiver learns what the sender means: from the packet that offers a file it
/// has the size, the name, and the sender's name where there is one. Left out are a
/// name of more bytes than two bytes can count and, without a device name, a size
/// that starts with the marker byte.
pub proof fn law_offer_is_understood(
    receiver: Receiving,
    file: Outgoing<Seq<char>>,
    device_name: Option<Seq<char>>,
)
    requires
        device_name is None ==> file.file_size < 0xFF00_0000_0000_0000,
        device_name is Some ==> encode_utf8(file.file_name).len() <= 0xFFFF,
    ensures
        reaction(receiver, start_packet(file, device_name)) == Reaction::Offered(
            file.file_size as nat,
            file.file_name,
            match device_name {
                Some(device) => if encode_utf8(device).len() == 0 {
                    None
                } else {
                    Some(device)
                },
                None => None,
            },
        ),
{
    match device_name {
        Some(device) => {
            law_versioned_start_payload_round_trip(file.file_size, file.file_name, device);
        },
        None => {
            law_start_payload_round_trip(file.file_size, file.file_name);
        },
    }
}

/// Both ends come to the same mode: a receiver that has offered the streaming mode
/// streams exactly if the sender, which hears of the offer, confirms it.
pub proof fn law_both_ends_stream_or_neither(
    receiver: Receiving,
    receiver_relayed: Option<bool>,
    accepted: Accepted<Seq<char>>,
    sender_relayed: Option<bool>,
)
    requires
        !receiver.streaming,
        !receiver.stream_offered,
        accepted.receiver_streams == receiver_relayed is None,
    ensures
        ({
            let offered = ReceiveTransfer {
                stream_offered: receiver_relayed is None,
                ..receiver
            };
            let after = if streams(accepted, sender_relayed) {
                after_packet(offered, stream_packet())
            } else {
                offered
            };
            after.streaming == streams(accepted, sender_relayed)
        }),
{
}

} // verus!
