//! What a receiver does with data, and how a transfer ends for it.

use vstd::prelude::*;
use vstd::string::*;

use crate::app::clock::{due, elapsed, elapsed_ns, is_due, plus, sat};
use crate::app::error::AppError;
use crate::app::receive::{
    Act, ReceiveTransfer, Receiving, SavedCheckpoint, CHECKPOINT_SAVE_BYTES,
    CHECKPOINT_SAVE_INTERVAL_NS, PROGRESS_EMIT_INTERVAL_NS, STREAM_ACK_INTERVAL_BYTES,
};
use crate::app::script::{
    add_action, bare, bare_packet, event, log_line, mode_of, no_actions, note, progress,
    progress_event, script, tell, transfer_mode, Action,
};
use crate::app::types::{
    ConnectionState, LogLevel, PlenumEvent, TransferDirection, TransferEvent, TransferSummary,
};
use crate::protocol::{Packet, PacketType};
use crate::stream::advanced;
use crate::text::{append_number, copy_text, decimal, push_decimal};

verus! {

/// A receiver and what it has asked for so far.
pub type Run = (Receiving, Seq<Act>);

/// What a list of packets holds.
pub open spec fn packets_of(packets: Seq<Packet>) -> Seq<Packet<Seq<u8>>> {
    packets.map_values(|p: Packet| p@)
}

/// What a list of payloads holds.
pub open spec fn payloads_of(payloads: Seq<Vec<u8>>) -> Seq<Seq<u8>> {
    payloads.map_values(|p: Vec<u8>| p@)
}

/// How many of the packets acknowledge something.
pub open spec fn ack_count(packets: Seq<Packet<Seq<u8>>>) -> nat
    decreases packets.len(),
{
    if packets.len() == 0 {
        0
    } else {
        ack_count(packets.drop_last()) + if packets.last().packet_type is Ack {
            1nat
        } else {
            0
        }
    }
}

/// How many bytes payloads have together.
pub open spec fn total_len(payloads: Seq<Seq<u8>>) -> nat
    decreases payloads.len(),
{
    if payloads.len() == 0 {
        0
    } else {
        total_len(payloads.drop_last()) + payloads.last().len()
    }
}

/// The window's answers are sent, unless the transfer streams.
pub open spec fn answered(run: Run, controls: Seq<Packet<Seq<u8>>>) -> Run {
    if run.0.streaming {
        run
    } else {
        (
            ReceiveTransfer { acks_sent: sat(run.0.acks_sent + ack_count(controls)), ..run.0 },
            run.1 + controls.map_values(|p: Packet<Seq<u8>>| Act::Send(p)),
        )
    }
}

/// The payloads are written to the file, if one is open, and counted.
pub open spec fn stored(run: Run, payloads: Seq<Seq<u8>>) -> Run {
    (
        ReceiveTransfer {
            bytes_received: sat(run.0.bytes_received + total_len(payloads)),
            bytes_since_checkpoint: sat(run.0.bytes_since_checkpoint + total_len(payloads)),
            progress_dirty: true,
            ..run.0
        },
        if run.0.saved is Some {
            run.1 + payloads.map_values(|p: Seq<u8>| Act::Write(p))
        } else {
            run.1
        },
    )
}

/// A streaming receiver acknowledges all that it has, once enough has come.
pub open spec fn acknowledged(run: Run, bytes: nat, next_expected: u32) -> Run {
    let since = sat(run.0.bytes_since_stream_ack + bytes);
    if !run.0.streaming {
        run
    } else if since < STREAM_ACK_INTERVAL_BYTES {
        (ReceiveTransfer { bytes_since_stream_ack: since, ..run.0 }, run.1)
    } else {
        (
            ReceiveTransfer {
                bytes_since_stream_ack: 0,
                acks_sent: sat(run.0.acks_sent + 1),
                ..run.0
            },
            run.1.push(Action::Send(bare_packet(PacketType::Ack, before(next_expected)))),
        )
    }
}

/// The sequence number before this one.
pub open spec fn before(sequence_no: u32) -> u32 {
    if sequence_no == 0 {
        0
    } else {
        (sequence_no - 1) as u32
    }
}

/// The checkpoint follows the transfer, and is saved once it is due: first the file,
/// then the checkpoint.
pub open spec fn checkpointed(run: Run, next_expected: u32, now_ns: u64) -> Run {
    match run.0.saved {
        None => run,
        Some(saved) => {
            let checkpoint = advanced(saved.checkpoint, next_expected, run.0.bytes_received);
            let state = ReceiveTransfer {
                saved: Some(SavedCheckpoint { checkpoint, path: saved.path }),
                ..run.0
            };
            if run.0.bytes_since_checkpoint >= CHECKPOINT_SAVE_BYTES || elapsed(
                now_ns,
                run.0.last_checkpoint_ns,
            ) >= CHECKPOINT_SAVE_INTERVAL_NS {
                (
                    ReceiveTransfer {
                        bytes_since_checkpoint: 0,
                        last_checkpoint_ns: now_ns,
                        ..state
                    },
                    run.1 + seq![
                        Action::Flush,
                        Action::SaveCheckpoint(checkpoint),
                        tell(
                            TransferEvent::CheckpointUpdated {
                                checkpoint_path: saved.path,
                                next_sequence: next_expected,
                                bytes_written: run.0.bytes_received,
                            },
                        ),
                    ],
                )
            } else {
                (state, run.1)
            }
        },
    }
}

/// Progress is reported, unless it was a moment ago and the file is not complete.
pub open spec fn reported(run: Run, now_ns: u64) -> Run {
    if due(now_ns, run.0.last_progress_ns, PROGRESS_EMIT_INTERVAL_NS) || run.0.bytes_received
        >= run.0.file_size {
        (
            ReceiveTransfer { progress_dirty: false, last_progress_ns: Some(now_ns), ..run.0 },
            run.1.push(
                progress(TransferDirection::Receive, run.0.bytes_received, run.0.file_size),
            ),
        )
    } else {
        run
    }
}

/// What a receiver does with data: `controls` and `payloads` are what the window
/// answered and what it let through, and `next_expected` is what it waits for now.
pub open spec fn data_taken(
    state: Receiving,
    controls: Seq<Packet<Seq<u8>>>,
    payloads: Seq<Seq<u8>>,
    next_expected: u32,
    now_ns: u64,
) -> Run {
    let run = answered((state, Seq::empty()), controls);
    if payloads.len() == 0 {
        run
    } else {
        reported(
            checkpointed(
                acknowledged(stored(run, payloads), total_len(payloads), next_expected),
                next_expected,
                now_ns,
            ),
            now_ns,
        )
    }
}

/// Whether a receiver has as many bytes as the file is long.
pub open spec fn is_whole(state: Receiving) -> bool {
    state.bytes_received == state.file_size
}

/// What a receiver does when the sender is done. A streaming receiver acknowledges
/// what it has, since the sender waits for that. The checkpoint has served its purpose
/// only if the file is whole.
pub open spec fn finished(state: Receiving, next_expected: u32) -> Run {
    let acks = state.streaming && next_expected > 0;
    (
        ReceiveTransfer {
            finish_received: true,
            acks_sent: if acks {
                sat(state.acks_sent + 1)
            } else {
                state.acks_sent
            },
            ..state
        },
        (if state.saved is Some {
            seq![Act::Flush]
        } else {
            Seq::empty()
        }) + (if acks {
            seq![Act::Send(bare_packet(PacketType::Ack, before(next_expected)))]
        } else {
            Seq::empty()
        }) + (if state.progress_dirty {
            seq![progress(TransferDirection::Receive, state.bytes_received, state.file_size)]
        } else {
            Seq::empty()
        }) + (if state.saved is Some && is_whole(state) {
            seq![Act::ClearCheckpoint]
        } else {
            Seq::empty()
        }),
    )
}

/// The last log line of a transfer.
pub open spec fn receive_end_line(state: Receiving) -> Seq<char> {
    "DIAG recv: transfer loop END frames="@ + decimal(state.frames as nat) + " data_recv="@
        + decimal(state.data_recv as nat) + " acks_sent="@ + decimal(state.acks_sent as nat)
        + " bytes_recv="@ + decimal(state.bytes_received as nat)
}

/// What a transfer amounts to for the receiver. What was there when it started is
/// what it was resumed with.
pub open spec fn receive_summary(
    state: Receiving,
    relayed: Option<bool>,
    now_ns: u64,
) -> TransferSummary<Seq<char>> {
    TransferSummary {
        direction: TransferDirection::Receive,
        file_name: state.file_name,
        peer: Some(state.peer),
        peer_name: state.sender_name,
        mode: mode_of(relayed),
        total_bytes: state.file_size,
        transferred_bytes: state.bytes_received,
        resumed_bytes: if state.resume_bytes < state.bytes_received {
            state.resume_bytes
        } else {
            state.bytes_received
        },
        elapsed_ms: (elapsed(now_ns, state.started_ns) / 1_000_000) as u128,
    }
}

/// Why a transfer that has ended has failed: the connection is gone before the file is
/// whole, or the sender is done with a file of another length than it said.
pub open spec fn short_message(state: Receiving) -> Seq<char> {
    if !state.finish_received && state.bytes_received < state.file_size {
        "connection closed before transfer completed ("@ + decimal(state.bytes_received as nat)
            + " of "@ + decimal(state.file_size as nat) + " bytes received)"@
    } else {
        "transfer ended with "@ + decimal(state.bytes_received as nat) + " of "@ + decimal(
            state.file_size as nat,
        ) + " bytes received"@
    }
}

/// How a transfer ends for the receiver. It is complete if the file is whole, and has
/// failed if it is not.
pub open spec fn concluded(state: Receiving, relayed: Option<bool>, now_ns: u64) -> Seq<Act> {
    let summary = receive_summary(state, relayed, now_ns);
    seq![note(LogLevel::Info, receive_end_line(state)), Act::TryClose] + if !is_whole(state) {
        seq![Act::Fail(AppError::Stalled(short_message(state)))]
    } else {
        seq![
            tell(TransferEvent::Completed(summary)),
            tell(
                TransferEvent::StateChanged {
                    direction: TransferDirection::Receive,
                    state: ConnectionState::Closed,
                    peer: Some(state.peer),
                },
            ),
            Act::Complete(summary),
        ]
    }
}

impl ReceiveTransfer {
    fn answer(&mut self, actions: &mut Vec<Action>, controls: Vec<Packet>)
        ensures
            (final(self)@, script(final(actions)@)) == answered(
                (old(self)@, script(old(actions)@)),
                packets_of(controls@),
            ),
    {
        if self.streaming {
            return;
        }
        let ghost all = packets_of(controls@);
        assert(all.take(0) =~= Seq::empty());
        assert(script(actions@) =~= script(old(actions)@) + all.take(0).map_values(
            |p: Packet<Seq<u8>>| Act::Send(p),
        ));
        for packet in it: controls
            invariant
                all == packets_of(it.seq()),
                script(actions@) == script(old(actions)@) + all.take(it.index() as int).map_values(
                    |p: Packet<Seq<u8>>| Act::Send(p),
                ),
                self@ == (ReceiveTransfer {
                    acks_sent: sat(old(self).acks_sent + ack_count(all.take(it.index() as int))),
                    ..old(self)@
                }),
        {
            let ghost done = it.index() as int;
            assert(packet@ == all[done]);
            if packet.packet_type == PacketType::Ack {
                self.acks_sent = plus(self.acks_sent, 1);
            }
            add_action(actions, Action::Send(packet));
            proof {
                let next = all.take(done + 1);
                assert(next.drop_last() =~= all.take(done));
                assert(next.last() == all[done]);
                assert(script(actions@) =~= script(old(actions)@) + next.map_values(
                    |p: Packet<Seq<u8>>| Act::Send(p),
                ));
            }
        }
        assert(all.take(all.len() as int) =~= all);
    }

    fn store(&mut self, actions: &mut Vec<Action>, payloads: Vec<Vec<u8>>) -> (bytes: u64)
        ensures
            (final(self)@, script(final(actions)@)) == stored(
                (old(self)@, script(old(actions)@)),
                payloads_of(payloads@),
            ),
            bytes == sat(total_len(payloads_of(payloads@)) as int),
    {
        let ghost all = payloads_of(payloads@);
        let open: bool = self.saved.is_some();
        let mut bytes: u64 = 0;
        assert(all.take(0) =~= Seq::empty());
        assert(script(actions@) =~= script(old(actions)@) + all.take(0).map_values(
            |p: Seq<u8>| Act::Write(p),
        ));
        for payload in it: payloads
            invariant
                all == payloads_of(it.seq()),
                bytes == sat(total_len(all.take(it.index() as int)) as int),
                open ==> script(actions@) == script(old(actions)@) + all.take(
                    it.index() as int,
                ).map_values(|p: Seq<u8>| Act::Write(p)),
                !open ==> script(actions@) == script(old(actions)@),
        {
            let ghost done = it.index() as int;
            assert(payload@ == all[done]);
            bytes = plus(bytes, payload.len() as u64);
            if open {
                add_action(actions, Action::Write(payload));
            }
            proof {
                let next = all.take(done + 1);
                assert(next.drop_last() =~= all.take(done));
                assert(next.last() == all[done]);
                if open {
                    assert(script(actions@) =~= script(old(actions)@) + next.map_values(
                        |p: Seq<u8>| Act::Write(p),
                    ));
                }
            }
        }
        assert(all.take(all.len() as int) =~= all);
        self.bytes_received = plus(self.bytes_received, bytes);
        self.bytes_since_checkpoint = plus(self.bytes_since_checkpoint, bytes);
        self.progress_dirty = true;
        bytes
    }

    fn acknowledge(&mut self, actions: &mut Vec<Action>, bytes: u64, next_expected: u32)
        ensures
            forall|n: nat|
                bytes == sat(n as int) ==> (final(self)@, script(final(actions)@))
                    == #[trigger] acknowledged(
                    (old(self)@, script(old(actions)@)),
                    n,
                    next_expected,
                ),
    {
        if !self.streaming {
            return;
        }
        self.bytes_since_stream_ack = plus(self.bytes_since_stream_ack, bytes);
        if self.bytes_since_stream_ack >= STREAM_ACK_INTERVAL_BYTES {
            self.bytes_since_stream_ack = 0;
            self.acks_sent = plus(self.acks_sent, 1);
            add_action(
                actions,
                Action::Send(bare(PacketType::Ack, next_expected.saturating_sub(1))),
            );
        }
    }

    fn checkpoint(&mut self, actions: &mut Vec<Action>, next_expected: u32, now_ns: u64)
        ensures
            (final(self)@, script(final(actions)@)) == checkpointed(
                (old(self)@, script(old(actions)@)),
                next_expected,
                now_ns,
            ),
    {
        let bytes: u64 = self.bytes_received;
        match &mut self.saved {
            None => {
                return;
            },
            Some(saved) => {
                saved.checkpoint.update(next_expected, bytes);
            },
        }
        if self.bytes_since_checkpoint >= CHECKPOINT_SAVE_BYTES || elapsed_ns(
            now_ns,
            self.last_checkpoint_ns,
        ) >= CHECKPOINT_SAVE_INTERVAL_NS {
            match &self.saved {
                None => {},
                Some(saved) => {
                    add_action(actions, Action::Flush);
                    add_action(actions, Action::SaveCheckpoint(saved.checkpoint.clone()));
                    add_action(
                        actions,
                        event(
                            TransferEvent::CheckpointUpdated {
                                checkpoint_path: saved.path.as_str().to_string(),
                                next_sequence: saved.checkpoint.next_sequence,
                                bytes_written: saved.checkpoint.bytes_written,
                            },
                        ),
                    );
                },
            }
            self.bytes_since_checkpoint = 0;
            self.last_checkpoint_ns = now_ns;
            let ghost run = checkpointed(
                (old(self)@, script(old(actions)@)),
                next_expected,
                now_ns,
            );
            assert(script(actions@) =~= run.1);
        }
    }

    fn report(&mut self, actions: &mut Vec<Action>, now_ns: u64)
        ensures
            (final(self)@, script(final(actions)@)) == reported(
                (old(self)@, script(old(actions)@)),
                now_ns,
            ),
    {
        if is_due(now_ns, self.last_progress_ns, PROGRESS_EMIT_INTERVAL_NS) || self.bytes_received
            >= self.file_size {
            self.progress_dirty = false;
            self.last_progress_ns = Some(now_ns);
            add_action(
                actions,
                progress_event(TransferDirection::Receive, self.bytes_received, self.file_size),
            );
        }
    }

    /// Takes data: `controls` and `payloads` are what the window answered and what
    /// it let through, in order, and `next_expected` is what it waits for now.
    pub fn on_data(
        &mut self,
        controls: Vec<Packet>,
        payloads: Vec<Vec<u8>>,
        next_expected: u32,
        now_ns: u64,
    ) -> (actions: Vec<Action>)
        ensures
            (final(self)@, script(actions@)) == data_taken(
                old(self)@,
                packets_of(controls@),
                payloads_of(payloads@),
                next_expected,
                now_ns,
            ),
    {
        let mut actions: Vec<Action> = no_actions();
        self.answer(&mut actions, controls);
        if payloads.len() > 0 {
            let bytes: u64 = self.store(&mut actions, payloads);
            self.acknowledge(&mut actions, bytes, next_expected);
            self.checkpoint(&mut actions, next_expected, now_ns);
            self.report(&mut actions, now_ns);
        }
        actions
    }

    /// The sender is done. After the actions the transfer is to be concluded.
    pub fn on_finish(&mut self, next_expected: u32) -> (actions: Vec<Action>)
        ensures
            (final(self)@, script(actions@)) == finished(old(self)@, next_expected),
    {
        let mut actions: Vec<Action> = no_actions();
        if self.saved.is_some() {
            add_action(&mut actions, Action::Flush);
        }
        if self.streaming && next_expected > 0 {
            self.acks_sent = plus(self.acks_sent, 1);
            add_action(&mut actions, Action::Send(bare(PacketType::Ack, next_expected - 1)));
        }
        if self.progress_dirty {
            add_action(
                &mut actions,
                progress_event(TransferDirection::Receive, self.bytes_received, self.file_size),
            );
        }
        if self.saved.is_some() && self.bytes_received == self.file_size {
            add_action(&mut actions, Action::ClearCheckpoint);
        }
        self.finish_received = true;
        assert(script(actions@) =~= finished(old(self)@, next_expected).1);
        actions
    }

    /// Ends the transfer, over a transport that runs over `relayed`.
    pub fn conclude(&self, relayed: Option<bool>, now_ns: u64) -> (actions: Vec<Action>)
        ensures
            script(actions@) == concluded(self@, relayed, now_ns),
    {
        let mut message: String = "DIAG recv: transfer loop END frames=".to_string();
        push_decimal(&mut message, self.frames);
        append_number(&mut message, " data_recv=", self.data_recv);
        append_number(&mut message, " acks_sent=", self.acks_sent);
        append_number(&mut message, " bytes_recv=", self.bytes_received);
        let mut actions: Vec<Action> = no_actions();
        add_action(&mut actions, log_line(LogLevel::Info, message));
        add_action(&mut actions, Action::TryClose);
        if self.bytes_received != self.file_size {
            let mut reason: String = String::new();
            if !self.finish_received && self.bytes_received < self.file_size {
                reason.append("connection closed before transfer completed (");
                push_decimal(&mut reason, self.bytes_received);
                append_number(&mut reason, " of ", self.file_size);
                reason.append(" bytes received)");
            } else {
                reason.append("transfer ended with ");
                push_decimal(&mut reason, self.bytes_received);
                append_number(&mut reason, " of ", self.file_size);
                reason.append(" bytes received");
            }
            assert(reason@ =~= short_message(self@));
            add_action(&mut actions, Action::Fail(AppError::Stalled(reason)));
        } else {
            let summary: TransferSummary = TransferSummary {
                direction: TransferDirection::Receive,
                file_name: self.file_name.as_str().to_string(),
                peer: Some(self.peer.as_str().to_string()),
                peer_name: copy_text(&self.sender_name),
                mode: transfer_mode(relayed),
                total_bytes: self.file_size,
                transferred_bytes: self.bytes_received,
                resumed_bytes: if self.resume_bytes < self.bytes_received {
                    self.resume_bytes
                } else {
                    self.bytes_received
                },
                elapsed_ms: (elapsed_ns(now_ns, self.started_ns) / 1_000_000) as u128,
            };
            add_action(&mut actions, event(TransferEvent::Completed(summary.clone())));
            add_action(
                &mut actions,
                event(
                    TransferEvent::StateChanged {
                        direction: TransferDirection::Receive,
                        state: ConnectionState::Closed,
                        peer: Some(self.peer.as_str().to_string()),
                    },
                ),
            );
            add_action(&mut actions, Action::Complete(summary));
        }
        assert(script(actions@) =~= concluded(self@, relayed, now_ns));
        actions
    }
}

/// A receiver that never has less than what it was resumed with.
pub open spec fn keeps_baseline(state: Receiving) -> bool {
    state.resume_bytes <= state.bytes_received
}

/// What a receiver takes in one go.
pub struct Batch {
    pub controls: Seq<Packet<Seq<u8>>>,
    pub payloads: Seq<Seq<u8>>,
    pub next_expected: u32,
    pub now_ns: u64,
}

/// A receiver that takes any number of batches.
pub open spec fn all_taken(state: Receiving, batches: Seq<Batch>) -> Run
    decreases batches.len(),
{
    if batches.len() == 0 {
        (state, Seq::empty())
    } else {
        let run = all_taken(state, batches.drop_last());
        let last = batches.last();
        let next = data_taken(
            run.0,
            last.controls,
            last.payloads,
            last.next_expected,
            last.now_ns,
        );
        (next.0, run.1 + next.1)
    }
}

/// All payloads of a list, one behind the other.
pub open spec fn joined(payloads: Seq<Seq<u8>>) -> Seq<u8>
    decreases payloads.len(),
{
    if payloads.len() == 0 {
        Seq::empty()
    } else {
        joined(payloads.drop_last()) + payloads.last()
    }
}

/// All payloads of any number of batches, one behind the other.
pub open spec fn delivered(batches: Seq<Batch>) -> Seq<u8>
    decreases batches.len(),
{
    if batches.len() == 0 {
        Seq::empty()
    } else {
        delivered(batches.drop_last()) + joined(batches.last().payloads)
    }
}

/// What a script writes to the file.
pub open spec fn written(actions: Seq<Act>) -> Seq<u8>
    decreases actions.len(),
{
    if actions.len() == 0 {
        Seq::empty()
    } else {
        written(actions.drop_last()) + match actions.last() {
            Action::Write(bytes) => bytes,
            _ => Seq::empty(),
        }
    }
}

proof fn lemma_written_push(actions: Seq<Act>, action: Act)
    ensures
        written(actions.push(action)) == written(actions) + match action {
            Action::Write(bytes) => bytes,
            _ => Seq::empty(),
        },
{
    assert(actions.push(action).drop_last() =~= actions);
}

/// What two scripts write, one behind the other.
pub proof fn lemma_written_join(a: Seq<Act>, b: Seq<Act>)
    ensures
        written(a + b) == written(a) + written(b),
    decreases b.len(),
{
    if b.len() == 0 {
        assert(a + b =~= a);
        assert(written(a) + written(b) =~= written(a));
    } else {
        assert((a + b).drop_last() =~= a + b.drop_last());
        lemma_written_join(a, b.drop_last());
        assert(written(a + b) =~= written(a) + written(b));
    }
}

proof fn lemma_written_sends(packets: Seq<Packet<Seq<u8>>>)
    ensures
        written(packets.map_values(|p: Packet<Seq<u8>>| Act::Send(p))) == Seq::<u8>::empty(),
    decreases packets.len(),
{
    let sends = packets.map_values(|p: Packet<Seq<u8>>| Act::Send(p));
    if packets.len() > 0 {
        let shorter = packets.drop_last().map_values(|p: Packet<Seq<u8>>| Act::Send(p));
        assert(sends.drop_last() =~= shorter);
        lemma_written_sends(packets.drop_last());
        assert(sends.last() == Act::Send(packets.last()));
    }
}

proof fn lemma_written_payloads(payloads: Seq<Seq<u8>>)
    ensures
        written(payloads.map_values(|p: Seq<u8>| Act::Write(p))) == joined(payloads),
        joined(payloads).len() == total_len(payloads),
    decreases payloads.len(),
{
    let writes = payloads.map_values(|p: Seq<u8>| Act::Write(p));
    if payloads.len() > 0 {
        let shorter = payloads.drop_last().map_values(|p: Seq<u8>| Act::Write(p));
        assert(writes.drop_last() =~= shorter);
        lemma_written_payloads(payloads.drop_last());
        assert(writes.last() == Act::Write(payloads.last()));
    }
}

/// A script that writes nothing leaves the file as it is.
pub proof fn lemma_nothing_written(actions: Seq<Act>)
    requires
        forall|i: int| 0 <= i < actions.len() ==> !((#[trigger] actions[i]) is Write),
    ensures
        written(actions) == Seq::<u8>::empty(),
    decreases actions.len(),
{
    if actions.len() > 0 {
        assert(!(actions[actions.len() - 1] is Write));
        lemma_nothing_written(actions.drop_last());
    }
}

/// What data that is taken writes to an open file.
pub proof fn lemma_data_written(
    state: Receiving,
    controls: Seq<Packet<Seq<u8>>>,
    payloads: Seq<Seq<u8>>,
    next_expected: u32,
    now_ns: u64,
)
    requires
        state.saved is Some,
    ensures
        written(data_taken(state, controls, payloads, next_expected, now_ns).1) == joined(payloads),
{
    lemma_batch(state, controls, payloads, next_expected, now_ns);
}

/// Payloads one behind the other have as many bytes as they have together.
pub proof fn lemma_joined_len(payloads: Seq<Seq<u8>>)
    ensures
        joined(payloads).len() == total_len(payloads),
    decreases payloads.len(),
{
    lemma_written_payloads(payloads);
}

/// What one batch does to the file, to the counters and to the checkpoint.
proof fn lemma_batch(
    state: Receiving,
    controls: Seq<Packet<Seq<u8>>>,
    payloads: Seq<Seq<u8>>,
    next_expected: u32,
    now_ns: u64,
)
    ensures
        ({
            let run = data_taken(state, controls, payloads, next_expected, now_ns);
            &&& run.0.bytes_received == sat(state.bytes_received + total_len(payloads))
            &&& run.0.resume_bytes == state.resume_bytes
            &&& run.0.file_size == state.file_size
            &&& run.0.saved is Some == state.saved is Some
            &&& state.saved is Some ==> written(run.1) == joined(payloads)
        }),
{
    let none: Seq<Act> = Seq::empty();
    let sends = controls.map_values(|p: Packet<Seq<u8>>| Act::Send(p));
    let writes = payloads.map_values(|p: Seq<u8>| Act::Write(p));
    lemma_written_sends(controls);
    lemma_written_payloads(payloads);
    let a = answered((state, none), controls);
    lemma_written_join(none, sends);
    assert(written(a.1) =~= Seq::<u8>::empty());
    if payloads.len() > 0 {
        let b = stored(a, payloads);
        lemma_written_join(a.1, writes);
        let c = acknowledged(b, total_len(payloads), next_expected);
        lemma_written_push(
            b.1,
            Action::Send(bare_packet(PacketType::Ack, before(next_expected))),
        );
        let d = checkpointed(c, next_expected, now_ns);
        if c.0.saved is Some {
            let saved = c.0.saved->Some_0;
            let saving: Seq<Act> = seq![
                Action::Flush,
                Action::SaveCheckpoint(
                    advanced(saved.checkpoint, next_expected, c.0.bytes_received),
                ),
                tell(
                    TransferEvent::CheckpointUpdated {
                        checkpoint_path: saved.path,
                        next_sequence: next_expected,
                        bytes_written: c.0.bytes_received,
                    },
                ),
            ];
            lemma_written_join(c.1, saving);
            lemma_written_push(saving.take(2), saving[2]);
            lemma_written_push(saving.take(1), saving[1]);
            lemma_written_push(saving.take(0), saving[0]);
            assert(saving.take(2).push(saving[2]) =~= saving);
            assert(saving.take(1).push(saving[1]) =~= saving.take(2));
            assert(saving.take(0).push(saving[0]) =~= saving.take(1));
            assert(written(saving) =~= Seq::<u8>::empty());
            assert(written(d.1) =~= written(c.1));
        }
        lemma_written_push(
            d.1,
            progress(TransferDirection::Receive, d.0.bytes_received, d.0.file_size),
        );
        let e = reported(d, now_ns);
        if state.saved is Some {
            assert(written(b.1) =~= joined(payloads));
            assert(written(c.1) =~= joined(payloads));
            assert(written(e.1) =~= joined(payloads));
        }
    } else {
        assert(joined(payloads) =~= Seq::<u8>::empty());
    }
}

/// The file gets exactly what the window let through, in that order, and all of it
/// is counted.
pub proof fn law_file_holds_what_was_delivered(state: Receiving, batches: Seq<Batch>)
    requires
        state.saved is Some,
        state.bytes_received + delivered(batches).len() <= u64::MAX,
    ensures
        written(all_taken(state, batches).1) == delivered(batches),
        all_taken(state, batches).0.bytes_received == state.bytes_received + delivered(
            batches,
        ).len(),
        all_taken(state, batches).0.saved is Some,
    decreases batches.len(),
{
    if batches.len() > 0 {
        let last = batches.last();
        law_file_holds_what_was_delivered(state, batches.drop_last());
        let run = all_taken(state, batches.drop_last());
        lemma_batch(run.0, last.controls, last.payloads, last.next_expected, last.now_ns);
        lemma_written_payloads(last.payloads);
        let next = data_taken(
            run.0,
            last.controls,
            last.payloads,
            last.next_expected,
            last.now_ns,
        );
        lemma_written_join(run.1, next.1);
    }
}

/// A checkpoint that follows data says exactly how far the file has come, and one
/// that is saved is saved only after the file was flushed.
pub proof fn law_checkpoint_follows_the_file(
    state: Receiving,
    controls: Seq<Packet<Seq<u8>>>,
    payloads: Seq<Seq<u8>>,
    next_expected: u32,
    now_ns: u64,
)
    requires
        state.saved is Some,
        payloads.len() > 0,
    ensures
        ({
            let run = data_taken(state, controls, payloads, next_expected, now_ns);
            &&& run.0.saved matches Some(saved) && saved.checkpoint.bytes_written
                == run.0.bytes_received && saved.checkpoint.next_sequence == next_expected
            &&& forall|i: int|
                0 <= i < run.1.len() && (#[trigger] run.1[i]) is SaveCheckpoint ==> i > 0 && run.1[i
                    - 1] is Flush && run.1[i] == Act::SaveCheckpoint(
                    run.0.saved->Some_0.checkpoint,
                )
        }),
{
}

/// Whether a summary is one of a complete transfer: it was not resumed with more than
/// it has, and it has all.
pub open spec fn is_ordered(summary: TransferSummary<Seq<char>>) -> bool {
    &&& summary.resumed_bytes <= summary.transferred_bytes
    &&& summary.transferred_bytes == summary.total_bytes
}

/// The summary with which an action says that a transfer is complete, if it does.
pub open spec fn summary_in(action: Act) -> Option<TransferSummary<Seq<char>>> {
    match action {
        Action::Complete(summary) => Some(summary),
        Action::Emit(PlenumEvent::Transfer(TransferEvent::Completed(summary))) => Some(summary),
        _ => None,
    }
}

/// A transfer ends as complete exactly if the file is whole. It is then said to have been
/// resumed with what was there at the start, whatever came since.
pub proof fn law_whole_files_complete(
    start: Receiving,
    batches: Seq<Batch>,
    relayed: Option<bool>,
    now_ns: u64,
)
    requires
        keeps_baseline(start),
    ensures
        ({
            let state = all_taken(start, batches).0;
            let end = concluded(state, relayed, now_ns);
            let summary = receive_summary(state, relayed, now_ns);
            &&& keeps_baseline(state)
            &&& summary.resumed_bytes == start.resume_bytes
            &&& is_whole(state) ==> is_ordered(summary) && end.last() == Act::Complete(summary)
            &&& !is_whole(state) ==> end.last() == Act::Fail(
                AppError::Stalled(short_message(state)),
            )
            &&& forall|i: int|
                0 <= i < end.len() ==> (summary_in(#[trigger] end[i]) is Some ==> is_whole(state)
                    && summary_in(end[i]) == Some(summary))
        }),
    decreases batches.len(),
{
    if batches.len() > 0 {
        law_whole_files_complete(start, batches.drop_last(), relayed, now_ns);
        let last = batches.last();
        let run = all_taken(start, batches.drop_last());
        lemma_batch(run.0, last.controls, last.payloads, last.next_expected, last.now_ns);
    }
}

/// A sender that is done too early costs nothing: the checkpoint is thrown away only
/// with a whole file.
pub proof fn law_short_files_keep_their_checkpoint(state: Receiving, next_expected: u32)
    ensures
        finished(state, next_expected).1.contains(Act::ClearCheckpoint) ==> is_whole(state),
        finished(state, next_expected).0.saved == state.saved,
{
}

/// An offered file starts with the baseline that its checkpoint gives.
pub proof fn law_offer_sets_the_baseline(
    state: Receiving,
    file_name: Seq<char>,
    file_size: u64,
    sender_name: Option<Seq<char>>,
    saved: SavedCheckpoint<Seq<char>>,
    now_ns: u64,
)
    ensures
        ({
            let offered = crate::app::receive::after_offer(
                state,
                file_name,
                file_size,
                sender_name,
                saved,
                now_ns,
            );
            &&& keeps_baseline(offered)
            &&& offered.resume_bytes == saved.checkpoint.bytes_written
        }),
{
}

/// While a transfer streams, data is answered with at most one acknowledgement, and
/// that covers everything up to what is waited for.
pub proof fn law_streaming_acknowledges_cumulatively(
    state: Receiving,
    controls: Seq<Packet<Seq<u8>>>,
    payloads: Seq<Seq<u8>>,
    next_expected: u32,
    now_ns: u64,
)
    requires
        state.streaming,
    ensures
        ({
            let run = data_taken(state, controls, payloads, next_expected, now_ns);
            &&& forall|i: int|
                0 <= i < run.1.len() && (#[trigger] run.1[i]) is Send ==> run.1[i] == Act::Send(
                    bare_packet(PacketType::Ack, before(next_expected)),
                )
            &&& forall|i: int, j: int|
                0 <= i < run.1.len() && 0 <= j < run.1.len() && (#[trigger] run.1[i]) is Send && (
                #[trigger] run.1[j]) is Send ==> i == j
        }),
{
}

} // verus!
