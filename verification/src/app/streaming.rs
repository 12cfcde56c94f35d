//! The sending end of a transfer that streams.
//!
//! Data packets are written back to back; the transport provides the backpressure
//! and keeps their order. The receiver's sparse acknowledgements, each of which
//! covers everything up to its sequence number, drive the progress and tell when
//! the transfer is complete. Nothing is sent twice but the finish packet.

use vstd::prelude::*;
use vstd::string::*;

use crate::app::clock::{due, elapsed, elapsed_ns, is_due, plus, sat};
use crate::app::error::AppError;
use crate::app::intake::total_len;
use crate::app::outstanding::{
    after, covered, in_order, lemma_record_keeps_order, lemma_split, outstanding_bytes, record,
    recorded, settle_through, uncovered, up_to, Unacked,
};
use crate::app::receive::{Act, DIAGNOSTIC_INTERVAL_MS, PROGRESS_EMIT_INTERVAL_NS};
use crate::app::script::{
    add_action, bare, bare_packet, cancel, cancel_script, log_line, no_actions, note, one_action,
    progress, progress_event, rejected, rejection_script, script, Action,
};
use crate::app::types::{LogLevel, TransferDirection};
use crate::protocol::{Packet, PacketType};
use crate::text::{append_number, decimal, from_utf8_lossy, lossy, push_decimal};

verus! {

/// How long a sender waits for a packet before it gives up.
pub const SEND_STALL_TIMEOUT_NS: u64 = 30_000_000_000;

/// How often the finish packet is sent again.
pub const FINISH_RETRY_INTERVAL_NS: u64 = 5_000_000_000;

/// After how many bytes a streaming sender looks for packets.
pub const STREAM_RECV_POLL_BYTES: u64 = 1_048_576;

/// The sending end of a transfer that streams.
pub struct StreamingSend<O = Vec<(u32, usize)>> {
    pub file_size: u64,
    pub sequence_no: u32,
    pub outstanding: O,
    pub bytes_acked: u64,
    pub bytes_sent: u64,
    pub file_done: bool,
    pub finish_sent: bool,
    pub last_finish_ns: u64,
    pub last_inbound_ns: u64,
    pub last_progress_ns: Option<u64>,
    pub bytes_since_poll: u64,
    pub data_sent: u64,
    pub acks_recv: u64,
    pub diag_last_ms: u64,
}

/// A sending end, its list taken as a sequence.
pub type Streaming = StreamingSend<Unacked>;

impl View for StreamingSend {
    type V = Streaming;

    open spec fn view(&self) -> Streaming {
        StreamingSend {
            file_size: self.file_size,
            sequence_no: self.sequence_no,
            outstanding: self.outstanding@,
            bytes_acked: self.bytes_acked,
            bytes_sent: self.bytes_sent,
            file_done: self.file_done,
            finish_sent: self.finish_sent,
            last_finish_ns: self.last_finish_ns,
            last_inbound_ns: self.last_inbound_ns,
            last_progress_ns: self.last_progress_ns,
            bytes_since_poll: self.bytes_since_poll,
            data_sent: self.data_sent,
            acks_recv: self.acks_recv,
            diag_last_ms: self.diag_last_ms,
        }
    }
}

/// A sender at the start of its transfer.
pub open spec fn streaming_start(
    file_size: u64,
    sequence_no: u32,
    resume_bytes: u64,
    now_ns: u64,
    now_ms: u64,
) -> Streaming {
    StreamingSend {
        file_size,
        sequence_no,
        outstanding: Seq::empty(),
        bytes_acked: resume_bytes,
        bytes_sent: resume_bytes,
        file_done: resume_bytes >= file_size,
        finish_sent: false,
        last_finish_ns: now_ns,
        last_inbound_ns: now_ns,
        last_progress_ns: None,
        bytes_since_poll: 0,
        data_sent: 0,
        acks_recv: 0,
        diag_last_ms: now_ms,
    }
}

/// The sequence number after this one, which stops at its limit.
pub open spec fn next_sequence(sequence_no: u32) -> u32 {
    if sequence_no == u32::MAX {
        u32::MAX
    } else {
        (sequence_no + 1) as u32
    }
}

/// A data packet.
pub open spec fn data_packet(sequence_no: u32, data: Seq<u8>) -> Packet<Seq<u8>> {
    Packet { packet_type: PacketType::Data, sequence_no, payload: data }
}

/// A sender after it has read `data` from the file. Nothing means that the file is
/// at its end.
pub open spec fn stream_read(state: Streaming, data: Seq<u8>) -> Streaming {
    if data.len() == 0 {
        StreamingSend { file_done: true, ..state }
    } else {
        StreamingSend {
            outstanding: recorded(state.outstanding, state.sequence_no, data.len() as usize),
            sequence_no: next_sequence(state.sequence_no),
            bytes_sent: sat(state.bytes_sent + data.len()),
            bytes_since_poll: sat(state.bytes_since_poll + data.len()),
            data_sent: sat(state.data_sent + 1),
            ..state
        }
    }
}

/// Whether everything is sent and acknowledged.
pub open spec fn stream_complete(state: Streaming) -> bool {
    state.file_done && state.bytes_acked >= state.file_size
}

/// A sender after a packet.
pub open spec fn stream_heard(state: Streaming, packet: Packet<Seq<u8>>, now_ns: u64) -> Streaming {
    let heard = StreamingSend { last_inbound_ns: now_ns, ..state };
    if packet.packet_type is Ack {
        let acked = sat(
            state.bytes_acked + outstanding_bytes(covered(state.outstanding, packet.sequence_no)),
        );
        StreamingSend {
            acks_recv: sat(state.acks_recv + 1),
            outstanding: uncovered(state.outstanding, packet.sequence_no),
            bytes_acked: acked,
            last_progress_ns: if stream_reports(state, acked, now_ns) {
                Some(now_ns)
            } else {
                state.last_progress_ns
            },
            ..heard
        }
    } else {
        heard
    }
}

/// Whether progress is reported: not if it was a moment ago and the file is not yet
/// acknowledged.
pub open spec fn stream_reports(state: Streaming, acked: u64, now_ns: u64) -> bool {
    due(now_ns, state.last_progress_ns, PROGRESS_EMIT_INTERVAL_NS) || acked >= state.file_size
}

/// What a sender does with a packet.
pub open spec fn stream_reaction(state: Streaming, packet: Packet<Seq<u8>>, now_ns: u64) -> Seq<
    Act,
> {
    let after = stream_heard(state, packet, now_ns);
    if packet.packet_type is Ack && stream_reports(state, after.bytes_acked, now_ns) {
        seq![progress(TransferDirection::Send, after.bytes_acked, state.file_size)]
    } else if packet.packet_type is Close {
        rejection_script(TransferDirection::Send, lossy(packet.payload))
    } else {
        Seq::empty()
    }
}

/// The line that logs the state of a transfer.
pub open spec fn stream_diagnostic(state: Streaming) -> Seq<char> {
    "DIAG send: streaming data_sent="@ + decimal(state.data_sent as nat) + " acks_recv="@ + decimal(
        state.acks_recv as nat,
    ) + " bytes_sent="@ + decimal(state.bytes_sent as nat) + " bytes_acked="@ + decimal(
        state.bytes_acked as nat,
    ) + " seq_next="@ + decimal(state.sequence_no as nat)
}

/// Whether the finish packet is sent again.
pub open spec fn finish_again(state: Streaming, now_ns: u64) -> bool {
    &&& state.file_done
    &&& !stream_complete(state)
    &&& elapsed(now_ns, state.last_finish_ns) >= FINISH_RETRY_INTERVAL_NS
}

/// Why a transfer has stalled, if it has.
pub open spec fn stream_stall(state: Streaming, now_ns: u64) -> Option<Seq<char>> {
    if elapsed(now_ns, state.last_inbound_ns) < SEND_STALL_TIMEOUT_NS {
        None
    } else if state.file_done && !stream_complete(state) {
        Some(
            "no cumulative ACK from receiver for 30s ("@ + decimal(state.bytes_acked as nat)
                + " of "@ + decimal(state.file_size as nat) + " bytes acknowledged)"@,
        )
    } else if !state.file_done && state.bytes_acked < state.bytes_sent {
        Some(
            "no packets from receiver for 30s ("@ + decimal(
                (state.bytes_sent - state.bytes_acked) as nat,
            ) + " bytes unacknowledged)"@,
        )
    } else {
        None
    }
}

/// What a sender does at the end of a turn.
pub open spec fn stream_turn(state: Streaming, now_ns: u64) -> Seq<Act> {
    (if finish_again(state, now_ns) {
        seq![Act::SendIfPossible(bare_packet(PacketType::Finish, state.sequence_no))]
    } else {
        Seq::empty()
    }) + match stream_stall(state, now_ns) {
        Some(message) => seq![Act::Fail(AppError::Stalled(message))],
        None => Seq::empty(),
    }
}

/// What a sender does when everything is acknowledged.
pub open spec fn stream_concluded(state: Streaming) -> Seq<Act> {
    seq![
        note(
            LogLevel::Info,
            "DIAG send: streaming loop END data_sent="@ + decimal(state.data_sent as nat)
                + " acks_recv="@ + decimal(state.acks_recv as nat) + " bytes_acked="@ + decimal(
                state.bytes_acked as nat,
            ),
        ),
        progress(TransferDirection::Send, state.bytes_acked, state.file_size),
    ]
}

impl StreamingSend {
    /// The packets that are not acknowledged are in order.
    pub open spec fn wf(self) -> bool {
        in_order(self.outstanding@, self.sequence_no)
    }

    /// A sender at the start of its transfer.
    pub fn new(
        file_size: u64,
        sequence_no: u32,
        resume_bytes: u64,
        now_ns: u64,
        now_ms: u64,
    ) -> (sender: StreamingSend)
        ensures
            sender@ == streaming_start(file_size, sequence_no, resume_bytes, now_ns, now_ms),
            sender.wf(),
    {
        let outstanding: Vec<(u32, usize)> = Vec::new();
        assert(outstanding@ =~= Seq::empty());
        StreamingSend {
            file_size,
            sequence_no,
            outstanding,
            bytes_acked: resume_bytes,
            bytes_sent: resume_bytes,
            file_done: resume_bytes >= file_size,
            finish_sent: false,
            last_finish_ns: now_ns,
            last_inbound_ns: now_ns,
            last_progress_ns: None,
            bytes_since_poll: 0,
            data_sent: 0,
            acks_recv: 0,
            diag_last_ms: now_ms,
        }
    }

    /// What is done when the local user has cancelled the transfer.
    pub fn cancel(&self) -> (actions: Vec<Action>)
        ensures
            script(actions@) == cancel_script(TransferDirection::Send, self.sequence_no),
    {
        cancel(TransferDirection::Send, self.sequence_no)
    }

    /// Whether to read the next chunk of the file.
    pub fn wants_data(&self) -> (wants: bool)
        ensures
            wants == !self.file_done,
    {
        !self.file_done
    }

    /// A chunk was read. Nothing means that the file is at its end.
    pub fn on_read(&mut self, data: Vec<u8>) -> (actions: Vec<Action>)
        requires
            old(self).wf(),
        ensures
            final(self).wf(),
            final(self)@ == stream_read(old(self)@, data@),
            script(actions@) == if data@.len() == 0 {
                Seq::<Act>::empty()
            } else {
                seq![Act::Send(data_packet(old(self).sequence_no, data@))]
            },
    {
        let size: usize = data.len();
        if size == 0 {
            self.file_done = true;
            return no_actions();
        }
        proof {
            lemma_record_keeps_order(self.outstanding@, self.sequence_no, size);
        }
        let sequence_no: u32 = self.sequence_no;
        record(&mut self.outstanding, sequence_no, size);
        self.sequence_no = sequence_no.saturating_add(1);
        self.bytes_sent = plus(self.bytes_sent, size as u64);
        self.bytes_since_poll = plus(self.bytes_since_poll, size as u64);
        self.data_sent = plus(self.data_sent, 1);
        one_action(Action::Send(Packet::new(PacketType::Data, sequence_no, data)))
    }

    /// Tells the receiver, once, that the file is at its end.
    pub fn finish(&mut self) -> (actions: Vec<Action>)
        requires
            old(self).wf(),
        ensures
            final(self).wf(),
            final(self)@ == (StreamingSend {
                finish_sent: old(self).finish_sent || old(self).file_done,
                ..old(self)@
            }),
            script(actions@) == if old(self).file_done && !old(self).finish_sent {
                seq![Act::Send(bare_packet(PacketType::Finish, old(self).sequence_no))]
            } else {
                Seq::<Act>::empty()
            },
    {
        if self.file_done && !self.finish_sent {
            self.finish_sent = true;
            one_action(Action::Send(bare(PacketType::Finish, self.sequence_no)))
        } else {
            no_actions()
        }
    }

    /// Whether to look for packets now: always once the file is at its end, and else
    /// every so many bytes.
    pub fn polls(&mut self) -> (polls: bool)
        requires
            old(self).wf(),
        ensures
            final(self).wf(),
            polls == (old(self).file_done || old(self).bytes_since_poll >= STREAM_RECV_POLL_BYTES),
            final(self)@ == (StreamingSend {
                bytes_since_poll: if polls {
                    0
                } else {
                    old(self).bytes_since_poll
                },
                ..old(self)@
            }),
    {
        if self.file_done || self.bytes_since_poll >= STREAM_RECV_POLL_BYTES {
            self.bytes_since_poll = 0;
            true
        } else {
            false
        }
    }

    /// Whether everything is sent and acknowledged. The receiver closes its end
    /// right after its last acknowledgement, so nothing more is to be read.
    pub fn is_complete(&self) -> (complete: bool)
        ensures
            complete == stream_complete(self@),
    {
        self.file_done && self.bytes_acked >= self.file_size
    }

    /// A packet has come.
    pub fn on_packet(&mut self, packet: Packet, now_ns: u64) -> (actions: Vec<Action>)
        requires
            old(self).wf(),
        ensures
            final(self).wf(),
            final(self)@ == stream_heard(old(self)@, packet@, now_ns),
            script(actions@) == stream_reaction(old(self)@, packet@, now_ns),
    {
        self.last_inbound_ns = now_ns;
        match packet.packet_type {
            PacketType::Ack => {
                proof {
                    lemma_split(
                        self.outstanding@,
                        self.sequence_no,
                        after(packet.sequence_no),
                        up_to(packet.sequence_no),
                    );
                }
                self.acks_recv = plus(self.acks_recv, 1);
                self.bytes_acked =
                settle_through(&mut self.outstanding, packet.sequence_no, self.bytes_acked);
                if is_due(now_ns, self.last_progress_ns, PROGRESS_EMIT_INTERVAL_NS)
                    || self.bytes_acked >= self.file_size {
                    self.last_progress_ns = Some(now_ns);
                    one_action(
                        progress_event(TransferDirection::Send, self.bytes_acked, self.file_size),
                    )
                } else {
                    no_actions()
                }
            },
            PacketType::Close => {
                rejected(TransferDirection::Send, from_utf8_lossy(packet.payload.as_slice()))
            },
            _ => no_actions(),
        }
    }

    /// Logs the state of the transfer when a second has passed.
    pub fn diagnose(&mut self, now_ms: u64) -> (actions: Vec<Action>)
        requires
            old(self).wf(),
        ensures
            final(self).wf(),
            elapsed(now_ms, old(self).diag_last_ms) >= DIAGNOSTIC_INTERVAL_MS ==> {
                &&& final(self)@ == (StreamingSend { diag_last_ms: now_ms, ..old(self)@ })
                &&& script(actions@) == seq![note(LogLevel::Info, stream_diagnostic(old(self)@))]
            },
            elapsed(now_ms, old(self).diag_last_ms) < DIAGNOSTIC_INTERVAL_MS ==> {
                &&& final(self)@ == old(self)@
                &&& script(actions@) == Seq::<Act>::empty()
            },
    {
        if elapsed_ns(now_ms, self.diag_last_ms) < DIAGNOSTIC_INTERVAL_MS {
            return no_actions();
        }
        self.diag_last_ms = now_ms;
        let mut message: String = "DIAG send: streaming data_sent=".to_string();
        push_decimal(&mut message, self.data_sent);
        append_number(&mut message, " acks_recv=", self.acks_recv);
        append_number(&mut message, " bytes_sent=", self.bytes_sent);
        append_number(&mut message, " bytes_acked=", self.bytes_acked);
        append_number(&mut message, " seq_next=", self.sequence_no as u64);
        one_action(log_line(LogLevel::Info, message))
    }

    /// Ends a turn of a transfer that is not complete: sends the finish packet again
    /// when it is time to, and gives up when nothing has been heard for too long.
    pub fn end_turn(&mut self, now_ns: u64) -> (actions: Vec<Action>)
        requires
            old(self).wf(),
        ensures
            final(self).wf(),
            final(self)@ == (StreamingSend {
                last_finish_ns: if finish_again(old(self)@, now_ns) {
                    now_ns
                } else {
                    old(self).last_finish_ns
                },
                ..old(self)@
            }),
            script(actions@) == stream_turn(old(self)@, now_ns),
    {
        let mut actions: Vec<Action> = no_actions();
        let stalled: bool = elapsed_ns(now_ns, self.last_inbound_ns) >= SEND_STALL_TIMEOUT_NS;
        if self.file_done {
            if self.bytes_acked < self.file_size {
                if elapsed_ns(now_ns, self.last_finish_ns) >= FINISH_RETRY_INTERVAL_NS {
                    self.last_finish_ns = now_ns;
                    add_action(
                        &mut actions,
                        Action::SendIfPossible(bare(PacketType::Finish, self.sequence_no)),
                    );
                }
                if stalled {
                    let mut message: String =
                        "no cumulative ACK from receiver for 30s (".to_string();
                    push_decimal(&mut message, self.bytes_acked);
                    append_number(&mut message, " of ", self.file_size);
                    message.append(" bytes acknowledged)");
                    add_action(&mut actions, Action::Fail(AppError::Stalled(message)));
                }
            }
        } else if self.bytes_acked < self.bytes_sent && stalled {
            let mut message: String = "no packets from receiver for 30s (".to_string();
            push_decimal(&mut message, self.bytes_sent - self.bytes_acked);
            message.append(" bytes unacknowledged)");
            add_action(&mut actions, Action::Fail(AppError::Stalled(message)));
        }
        assert(script(actions@) =~= stream_turn(old(self)@, now_ns));
        actions
    }

    /// What is said when everything is acknowledged.
    pub fn conclude(&self) -> (actions: Vec<Action>)
        ensures
            script(actions@) == stream_concluded(self@),
    {
        let mut message: String = "DIAG send: streaming loop END data_sent=".to_string();
        push_decimal(&mut message, self.data_sent);
        append_number(&mut message, " acks_recv=", self.acks_recv);
        append_number(&mut message, " bytes_acked=", self.bytes_acked);
        let mut actions: Vec<Action> = one_action(log_line(LogLevel::Info, message));
        add_action(
            &mut actions,
            progress_event(TransferDirection::Send, self.bytes_acked, self.file_size),
        );
        assert(script(actions@) =~= stream_concluded(self@));
        actions
    }
}

/// What was acknowledged and what is outstanding is what was sent.
pub open spec fn accounts_for_all(state: Streaming) -> bool {
    &&& in_order(state.outstanding, state.sequence_no)
    &&& state.bytes_acked + outstanding_bytes(state.outstanding) == state.bytes_sent
}

/// No byte is lost or counted twice: what was acknowledged and what is outstanding
/// is what was sent, from the start and after every chunk and every packet. A chunk
/// that uses the last sequence number again, or that takes the count of bytes over
/// its limit, is left out.
pub proof fn law_acknowledgements_account_for_all(
    state: Streaming,
    data: Seq<u8>,
    packet: Packet<Seq<u8>>,
    now_ns: u64,
)
    requires
        accounts_for_all(state),
        data.len() <= usize::MAX,
    ensures
        state.bytes_sent + data.len() <= u64::MAX && state.sequence_no < u32::MAX
            ==> accounts_for_all(stream_read(state, data)),
        accounts_for_all(stream_heard(state, packet, now_ns)),
        stream_heard(state, packet, now_ns).bytes_acked <= state.bytes_sent,
{
    if data.len() > 0 && state.bytes_sent + data.len() <= u64::MAX && state.sequence_no
        < u32::MAX {
        lemma_record_keeps_order(state.outstanding, state.sequence_no, data.len() as usize);
        let pushed = state.outstanding.push((state.sequence_no, data.len() as usize));
        assert(pushed.drop_last() =~= state.outstanding);
        if state.outstanding.len() > 0 {
            assert(state.outstanding[state.outstanding.len() - 1].0 < state.sequence_no);
        }
    }
    if packet.packet_type is Ack {
        lemma_split(
            state.outstanding,
            state.sequence_no,
            after(packet.sequence_no),
            up_to(packet.sequence_no),
        );
    }
}

/// A transfer starts with everything accounted for.
pub proof fn law_streaming_starts_accounted_for(
    file_size: u64,
    sequence_no: u32,
    resume_bytes: u64,
    now_ns: u64,
    now_ms: u64,
)
    ensures
        accounts_for_all(streaming_start(file_size, sequence_no, resume_bytes, now_ns, now_ms)),
{
}

/// One acknowledgement of the last packet that was sent acknowledges everything: a
/// receiver need not acknowledge packet by packet.
pub proof fn law_last_acknowledgement_covers_all(state: Streaming, now_ns: u64)
    requires
        accounts_for_all(state),
        0 < state.sequence_no < u32::MAX,
    ensures
        ({
            let last = bare_packet(PacketType::Ack, (state.sequence_no - 1) as u32);
            let after = stream_heard(state, last, now_ns);
            &&& after.outstanding == Unacked::empty()
            &&& after.bytes_acked == state.bytes_sent
        }),
{
    let last = (state.sequence_no - 1) as u32;
    let packet = bare_packet(PacketType::Ack, last);
    law_acknowledgements_account_for_all(state, Seq::empty(), packet, now_ns);
    lemma_split(state.outstanding, state.sequence_no, after(last), up_to(last));
    let kept = uncovered(state.outstanding, last);
    if kept.len() > 0 {
        let j = choose|j: int|
            0 <= j < state.outstanding.len() && #[trigger] state.outstanding[j] == kept[0];
        assert(state.outstanding[j].0 < state.sequence_no);
    }
    assert(kept =~= Unacked::empty());
}

/// A sender that reads any number of chunks.
pub open spec fn all_read(state: Streaming, chunks: Seq<Seq<u8>>) -> Streaming
    decreases chunks.len(),
{
    if chunks.len() == 0 {
        state
    } else {
        stream_read(all_read(state, chunks.drop_last()), chunks.last())
    }
}

/// Chunks are numbered one after the other, and every byte of them counts as sent.
/// Left out are so many chunks that the sequence number comes to its limit.
pub proof fn law_chunks_are_numbered_in_order(state: Streaming, chunks: Seq<Seq<u8>>)
    requires
        accounts_for_all(state),
        state.sequence_no + chunks.len() <= u32::MAX,
        state.bytes_sent + total_len(chunks) <= u64::MAX,
        forall|i: int| 0 <= i < chunks.len() ==> 0 < (#[trigger] chunks[i]).len() <= usize::MAX,
    ensures
        all_read(state, chunks).sequence_no == state.sequence_no + chunks.len(),
        all_read(state, chunks).bytes_sent == state.bytes_sent + total_len(chunks),
        accounts_for_all(all_read(state, chunks)),
        all_read(state, chunks).file_done == state.file_done,
    decreases chunks.len(),
{
    if chunks.len() > 0 {
        let shorter = chunks.drop_last();
        assert forall|i: int| 0 <= i < shorter.len() implies 0 < (#[trigger] shorter[i]).len()
            <= usize::MAX by {
            assert(shorter[i] == chunks[i]);
        }
        law_chunks_are_numbered_in_order(state, shorter);
        assert(chunks[chunks.len() - 1].len() > 0);
        law_acknowledgements_account_for_all(
            all_read(state, shorter),
            chunks.last(),
            bare_packet(PacketType::Finish, 0),
            0,
        );
    }
}

} // verus!
