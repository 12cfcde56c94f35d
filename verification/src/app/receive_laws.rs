//! What a receiver owes its sender, its user and its file, step by step.

use vstd::prelude::*;
use vstd::string::*;

use crate::app::drive::{performed, Happening, Seen, Wish};
use crate::app::error::AppError;
use crate::app::handshake::packets_sent;
use crate::app::intake::{
    ack_count, acknowledged, answered, checkpointed, data_taken, finished, joined,
    lemma_joined_len, reported, stored, total_len,
};
use crate::app::payload::{start_fault, start_fields};
use crate::app::receive::{
    after_frame, after_packet, fresh_receiver, reaction, Act, Reaction, ReceiveTransfer, Receiving,
};
use crate::app::receive_run::{
    receive_accepts, receive_asks, receive_ends, receive_opens, receive_packet, receive_step,
    receive_tells_offer, receive_turn_starts, receive_waits, ReceiveLoop, ReceiveLoopStep,
    ReceivePhase, ReceiveRun,
};
use crate::app::script::Action;
use crate::app::told::{
    fails, lemma_all_sent, lemma_none_sent, lemma_one_sent, lemma_rejection_means,
    lemma_sent_join, means, progress_in, reports, reports_truly, sends_nothing,
};
use crate::app::types::{ConnectionState, PlenumEvent, TransferDirection, TransferEvent};
use crate::protocol::{Packet, PacketType};
use crate::stream::ResumeCheckpoint;
use crate::text::{decimal, lossy};
use crate::wire::be_bytes;

verus! {

/// What a receiver has carried out when its window has answered `controls` and let
/// through `payloads`.
pub open spec fn on_windowed(
    run: ReceiveLoop,
    controls: Seq<Packet<Seq<u8>>>,
    payloads: Seq<Seq<u8>>,
    seen: Seen,
) -> (Receiving, Seq<Act>) {
    let step = receive_step(run, Happening::Windowed { controls, payloads }, seen);
    (step.0.receiver, performed(step.1))
}

/// The packets among others that acknowledge something.
pub open spec fn acks_among(packets: Seq<Packet<Seq<u8>>>) -> Seq<Packet<Seq<u8>>> {
    packets.filter(|p: Packet<Seq<u8>>| p.packet_type is Ack)
}

proof fn lemma_acks_counted(packets: Seq<Packet<Seq<u8>>>)
    ensures
        ack_count(packets) == acks_among(packets).len(),
    decreases packets.len(),
{
    reveal(Seq::filter);
    if packets.len() > 0 {
        lemma_acks_counted(packets.drop_last());
    }
}

/// The parts of what a receiver does with data: it answers, it writes, it acknowledges
/// a stream, it saves and it reports.
proof fn lemma_parts(
    state: Receiving,
    controls: Seq<Packet<Seq<u8>>>,
    payloads: Seq<Seq<u8>>,
    next_expected: u32,
    now_ns: u64,
)
    ensures
        ({
            let run = data_taken(state, controls, payloads, next_expected, now_ns);
            let a = answered((state, Seq::empty()), controls);
            let b = stored(a, payloads);
            let c = acknowledged(b, total_len(payloads), next_expected);
            let d = checkpointed(c, next_expected, now_ns);
            &&& packets_sent(a.1) == if state.streaming {
                Seq::empty()
            } else {
                controls
            }
            &&& packets_sent(b.1) == packets_sent(a.1)
            &&& packets_sent(d.1) == packets_sent(c.1)
            &&& packets_sent(reported(d, now_ns).1) == packets_sent(c.1)
            &&& payloads.len() == 0 ==> run == a
            &&& payloads.len() > 0 ==> run == reported(d, now_ns)
        }),
{
    let none: Seq<Act> = Seq::empty();
    let a = answered((state, none), controls);
    let b = stored(a, payloads);
    let c = acknowledged(b, total_len(payloads), next_expected);
    let d = checkpointed(c, next_expected, now_ns);
    let e = reported(d, now_ns);
    lemma_all_sent(controls);
    lemma_none_sent(none);
    lemma_sent_join(none, controls.map_values(|p: Packet<Seq<u8>>| Act::Send(p)));
    assert(none + controls.map_values(|p: Packet<Seq<u8>>| Act::Send(p)) =~= controls.map_values(
        |p: Packet<Seq<u8>>| Act::Send(p),
    ));
    let writes = payloads.map_values(|p: Seq<u8>| Act::Write(p));
    lemma_none_sent(writes);
    lemma_sent_join(a.1, writes);
    assert(packets_sent(a.1) + Seq::<Packet<Seq<u8>>>::empty() =~= packets_sent(a.1));
    lemma_tail(c.1, d.1);
    lemma_tail(d.1, e.1);
}

/// A script that is continued without a packet sends no more than before.
proof fn lemma_tail(a: Seq<Act>, b: Seq<Act>)
    requires
        a.len() <= b.len(),
        b.take(a.len() as int) =~= a,
        forall|i: int| a.len() <= i < b.len() ==> !((#[trigger] b[i]) is Send),
    ensures
        packets_sent(b) == packets_sent(a),
{
    let rest = b.skip(a.len() as int);
    assert(a + rest =~= b);
    assert forall|i: int| 0 <= i < rest.len() implies !((#[trigger] rest[i]) is Send) by {
        assert(rest[i] == b[a.len() + i]);
    }
    lemma_none_sent(rest);
    lemma_sent_join(a, rest);
    assert(packets_sent(a) + Seq::<Packet<Seq<u8>>>::empty() =~= packets_sent(a));
}

/// Every answer of the window is sent: a receiver that does not stream sends exactly
/// what its window has answered, each packet once and in that order, whether or not the
/// window lets anything through.
pub proof fn law_window_answers_are_sent(
    run: ReceiveLoop,
    controls: Seq<Packet<Seq<u8>>>,
    payloads: Seq<Seq<u8>>,
    seen: Seen,
)
    requires
        run.phase is Windowing,
        !run.receiver.streaming,
    ensures
        packets_sent(on_windowed(run, controls, payloads, seen).1) == controls,
        run.receiver.acks_sent + acks_among(controls).len() <= u64::MAX ==> on_windowed(
            run,
            controls,
            payloads,
            seen,
        ).0.acks_sent == run.receiver.acks_sent + acks_among(controls).len(),
{
    lemma_parts(run.receiver, controls, payloads, seen.next_expected, seen.now_ns);
    lemma_acks_counted(controls);
}

/// A receiver that streams answers to data with nothing, but that it acknowledges
/// everything before what its window waits for once two mebibytes have come since it
/// last did. So fewer than that are ever left without an acknowledgement.
pub proof fn law_stream_is_acknowledged_in_time(
    run: ReceiveLoop,
    controls: Seq<Packet<Seq<u8>>>,
    payloads: Seq<Seq<u8>>,
    seen: Seen,
)
    requires
        run.phase is Windowing,
        run.receiver.streaming,
    ensures
        ({
            let after = on_windowed(run, controls, payloads, seen);
            let since = run.receiver.bytes_since_stream_ack + joined(payloads).len();
            &&& payloads.len() > 0 && since >= 2_097_152 ==> {
                &&& packets_sent(after.1) == seq![
                    Packet {
                        packet_type: PacketType::Ack,
                        sequence_no: if seen.next_expected > 0 {
                            (seen.next_expected - 1) as u32
                        } else {
                            0
                        },
                        payload: Seq::<u8>::empty(),
                    },
                ]
                &&& after.0.bytes_since_stream_ack == 0
                &&& run.receiver.acks_sent < u64::MAX ==> after.0.acks_sent
                    == run.receiver.acks_sent + 1
            }
            &&& payloads.len() > 0 && since < 2_097_152 ==> {
                &&& packets_sent(after.1) == Seq::<Packet<Seq<u8>>>::empty()
                &&& after.0.bytes_since_stream_ack == since
                &&& after.0.acks_sent == run.receiver.acks_sent
            }
            &&& payloads.len() == 0 ==> {
                &&& packets_sent(after.1) == Seq::<Packet<Seq<u8>>>::empty()
                &&& after.0 == run.receiver
            }
        }),
{
    let state = run.receiver;
    lemma_parts(state, controls, payloads, seen.next_expected, seen.now_ns);
    lemma_joined_len(payloads);
    let a = answered((state, Seq::empty()), controls);
    let b = stored(a, payloads);
    let c = acknowledged(b, total_len(payloads), seen.next_expected);
    if c.1.len() > b.1.len() {
        let packet = c.1.last()->Send_0;
        lemma_one_sent(packet);
        lemma_sent_join(b.1, seq![Act::Send(packet)]);
        assert(c.1 =~= b.1 + seq![Act::Send(packet)]);
        assert(packets_sent(c.1) =~= seq![packet]);
    }
}

/// A checkpoint is saved in time: once four mebibytes have come since the last save, or
/// once two seconds have passed since it, data that comes has the file flushed, the
/// checkpoint saved with all that was received, and this told. Before that no checkpoint
/// is saved. So after every batch fewer than four mebibytes are received and not saved.
pub proof fn law_checkpoint_is_saved_in_time(
    run: ReceiveLoop,
    controls: Seq<Packet<Seq<u8>>>,
    payloads: Seq<Seq<u8>>,
    seen: Seen,
)
    requires
        run.phase is Windowing,
        run.receiver.saved is Some,
        payloads.len() > 0,
    ensures
        ({
            let after = on_windowed(run, controls, payloads, seen);
            let since = run.receiver.bytes_since_checkpoint + joined(payloads).len();
            let owed = since >= 4_194_304 || seen.now_ns - run.receiver.last_checkpoint_ns
                >= 2_000_000_000;
            &&& owed ==> {
                &&& exists|i: int|
                    0 < i < after.1.len() - 1 && after.1[i - 1] is Flush && (#[trigger] after.1[i])
                        == Act::SaveCheckpoint(after.0.saved->Some_0.checkpoint) && after.1[i + 1]
                        == Act::Emit(
                        PlenumEvent::Transfer(
                            TransferEvent::CheckpointUpdated {
                                checkpoint_path: after.0.saved->Some_0.path,
                                next_sequence: seen.next_expected,
                                bytes_written: after.0.bytes_received,
                            },
                        ),
                    )
                &&& after.0.bytes_since_checkpoint == 0
                &&& after.0.last_checkpoint_ns == seen.now_ns
            }
            &&& !owed ==> {
                &&& forall|i: int|
                    0 <= i < after.1.len() ==> !((#[trigger] after.1[i]) is SaveCheckpoint)
                &&& after.0.bytes_since_checkpoint == since
                &&& after.0.last_checkpoint_ns == run.receiver.last_checkpoint_ns
            }
            &&& after.0.bytes_since_checkpoint < 4_194_304
            &&& after.0.saved matches Some(saved) && {
                let held = run.receiver.saved->Some_0;
                &&& saved.path == held.path
                &&& saved.checkpoint.file_name == held.checkpoint.file_name
                &&& saved.checkpoint.file_size == held.checkpoint.file_size
                &&& saved.checkpoint.chunk_size == held.checkpoint.chunk_size
                &&& saved.checkpoint.next_sequence == seen.next_expected
                &&& saved.checkpoint.bytes_written == after.0.bytes_received
            }
        }),
{
    let state = run.receiver;
    lemma_joined_len(payloads);
    let a = answered((state, Seq::empty()), controls);
    let b = stored(a, payloads);
    let c = acknowledged(b, total_len(payloads), seen.next_expected);
    let d = checkpointed(c, seen.next_expected, seen.now_ns);
    let after = on_windowed(run, controls, payloads, seen);
    let i = c.1.len() as int + 1;
    if d.1.len() > c.1.len() {
        assert(after.1[i] == d.1[i]);
        assert(after.1[i - 1] == d.1[i - 1]);
        assert(after.1[i + 1] == d.1[i + 1]);
    }
}

/// Whether a step tells nothing untrue of the receiver's progress, and keeps who the
/// receiver is.
spec fn is_true(run: ReceiveLoop, step: ReceiveLoopStep) -> bool {
    &&& reports_truly(
        performed(step.1),
        TransferDirection::Receive,
        step.0.receiver.bytes_received,
        step.0.receiver.file_size,
    )
    &&& step.0.separator == run.separator
    &&& step.0.receiver.peer == run.receiver.peer
    &&& step.0.receiver.auto_accept == run.receiver.auto_accept
    &&& step.0.receiver.device_name == run.receiver.device_name
}

/// Whether a step leaves alone what belongs to the file of a receiver, and what was said
/// of it.
spec fn is_steady(run: ReceiveLoop, step: ReceiveLoopStep) -> bool {
    let before = run.receiver;
    let after = step.0.receiver;
    &&& after == (ReceiveTransfer {
        started_ns: after.started_ns,
        stream_offered: after.stream_offered,
        streaming: after.streaming,
        finish_received: after.finish_received,
        data_recv: after.data_recv,
        acks_sent: after.acks_sent,
        frames: after.frames,
        diag_last_ms: after.diag_last_ms,
        last_frame_ns: after.last_frame_ns,
        ..before
    })
}

proof fn lemma_turn_is_true(run: ReceiveLoop, seen: Seen)
    ensures
        is_true(run, receive_turn_starts(run, seen)),
        is_steady(run, receive_turn_starts(run, seen)),
{
}

proof fn lemma_wait_is_true(run: ReceiveLoop, seen: Seen)
    ensures
        is_true(run, receive_waits(run, seen)),
        is_steady(run, receive_waits(run, seen)),
{
    lemma_turn_is_true(run, seen);
}

proof fn lemma_end_is_true(run: ReceiveLoop, seen: Seen)
    ensures
        is_true(run, receive_ends(run, seen)),
        is_steady(run, receive_ends(run, seen)),
{
}

proof fn lemma_finish_is_true(state: Receiving, next_expected: u32)
    ensures
        reports_truly(
            finished(state, next_expected).1,
            TransferDirection::Receive,
            state.bytes_received,
            state.file_size,
        ),
{
}

proof fn lemma_packet_is_true(run: ReceiveLoop, packet: Packet<Seq<u8>>, seen: Seen)
    ensures
        is_true(run, receive_packet(run, packet, seen)),
        is_steady(run, receive_packet(run, packet, seen)),
{
    let counted = after_frame(run.receiver, seen.now_ns);
    let heard = ReceiveRun { receiver: after_packet(counted, packet), ..run };
    match reaction(counted, packet) {
        Reaction::Conclude => {
            lemma_end_is_true(heard, seen);
        },
        Reaction::Finish => {
            lemma_finish_is_true(heard.receiver, seen.next_expected);
        },
        _ => {},
    }
}

proof fn lemma_opening_is_true(
    run: ReceiveLoop,
    loaded: Option<ResumeCheckpoint<Seq<char>>>,
    path: Seq<char>,
    chunk_size: usize,
)
    ensures
        is_true(run, receive_opens(run, loaded, path, chunk_size)),
        is_steady(run, receive_opens(run, loaded, path, chunk_size)),
{
}

proof fn lemma_offer_is_true(run: ReceiveLoop, seen: Seen)
    ensures
        is_true(run, receive_tells_offer(run, seen)),
{
}

proof fn lemma_question_is_true(run: ReceiveLoop, seen: Seen)
    ensures
        is_true(run, receive_asks(run, seen)),
        is_steady(run, receive_asks(run, seen)),
{
}

proof fn lemma_acceptance_is_true(run: ReceiveLoop, seen: Seen)
    ensures
        is_true(run, receive_accepts(run, seen)),
        is_steady(run, receive_accepts(run, seen)),
{
}

proof fn lemma_data_is_true(
    run: ReceiveLoop,
    controls: Seq<Packet<Seq<u8>>>,
    payloads: Seq<Seq<u8>>,
    seen: Seen,
)
    requires
        run.phase is Windowing,
    ensures
        is_true(run, receive_step(run, Happening::Windowed { controls, payloads }, seen)),
{
}

proof fn lemma_step_is_true(run: ReceiveLoop, event: Happening, seen: Seen)
    ensures
        is_true(run, receive_step(run, event, seen)),
        run.phase !is Opening && run.phase !is Windowing ==> is_steady(
            run,
            receive_step(run, event, seen),
        ),
{
    match (run.phase, event) {
        (ReceivePhase::Turn, Happening::Done) => {
            lemma_turn_is_true(run, seen);
        },
        (ReceivePhase::Receiving, Happening::Nothing) => {
            lemma_wait_is_true(run, seen);
        },
        (ReceivePhase::Receiving, Happening::RecvFailed { closed, error }) => {
            lemma_end_is_true(run, seen);
        },
        (ReceivePhase::Receiving, Happening::Packet(packet)) => {
            lemma_packet_is_true(run, packet, seen);
        },
        (ReceivePhase::Preparing, Happening::Prepared { loaded, path, chunk_size }) => {
            lemma_opening_is_true(run, loaded, path, chunk_size);
        },
        (ReceivePhase::Opening, Happening::Done) => {
            lemma_offer_is_true(run, seen);
        },
        (ReceivePhase::Offering, Happening::Done) => {
            if run.receiver.auto_accept {
                lemma_acceptance_is_true(run, seen);
            } else {
                lemma_question_is_true(ReceiveRun { asked_ns: seen.now_ns, ..run }, seen);
            }
        },
        (ReceivePhase::Asking, Happening::Done) => {
            lemma_question_is_true(run, seen);
        },
        (ReceivePhase::Answered, Happening::Done) => {
            lemma_acceptance_is_true(run, seen);
        },
        (ReceivePhase::Windowing, Happening::Windowed { controls, payloads }) => {
            lemma_data_is_true(run, controls, payloads, seen);
        },
        (ReceivePhase::Finishing, Happening::Done) => {
            lemma_end_is_true(run, seen);
        },
        _ => {},
    }
}

/// What a receiver tells of its progress is true at every step: the bytes are those that
/// it has, and never more than the file is long.
pub proof fn law_received_progress_is_true(run: ReceiveLoop, event: Happening, seen: Seen)
    ensures
        ({
            let step = receive_step(run, event, seen);
            reports_truly(
                performed(step.1),
                TransferDirection::Receive,
                step.0.receiver.bytes_received,
                step.0.receiver.file_size,
            )
        }),
{
    lemma_step_is_true(run, event, seen);
}

/// What belongs to the file of a receiver changes only with an offer and with data: its
/// name and size, what has come, the checkpoint and when it was saved, what it was
/// resumed with, and what was told and acknowledged of it. Who the receiver is never
/// changes.
pub proof fn law_only_offers_and_data_touch_the_file(
    run: ReceiveLoop,
    event: Happening,
    seen: Seen,
)
    ensures
        ({
            let before = run.receiver;
            let after = receive_step(run, event, seen).0.receiver;
            &&& after.peer == before.peer
            &&& after.auto_accept == before.auto_accept
            &&& after.device_name == before.device_name
            &&& run.phase !is Opening && run.phase !is Windowing ==> {
                &&& after.file_name == before.file_name
                &&& after.file_size == before.file_size
                &&& after.sender_name == before.sender_name
                &&& after.bytes_received == before.bytes_received
                &&& after.saved == before.saved
                &&& after.resume_sequence == before.resume_sequence
                &&& after.resume_bytes == before.resume_bytes
                &&& after.last_progress_ns == before.last_progress_ns
                &&& after.last_checkpoint_ns == before.last_checkpoint_ns
                &&& after.bytes_since_checkpoint == before.bytes_since_checkpoint
                &&& after.progress_dirty == before.progress_dirty
                &&& after.bytes_since_stream_ack == before.bytes_since_stream_ack
            }
        }),
{
    lemma_step_is_true(run, event, seen);
}

/// Progress is told in time: data that comes is told of if nothing was told yet, if a
/// tenth of a second has passed since, or if the file is whole. Else it is not, and is
/// remembered.
pub proof fn law_received_progress_is_told_in_time(
    run: ReceiveLoop,
    controls: Seq<Packet<Seq<u8>>>,
    payloads: Seq<Seq<u8>>,
    seen: Seen,
)
    requires
        run.phase is Windowing,
        payloads.len() > 0,
    ensures
        ({
            let after = on_windowed(run, controls, payloads, seen);
            let owed = match run.receiver.last_progress_ns {
                None => true,
                Some(last) => seen.now_ns - last >= 100_000_000,
            } || run.receiver.bytes_received + joined(payloads).len() >= run.receiver.file_size;
            &&& reports(after.1) == owed
            &&& owed ==> after.0.last_progress_ns == Some(seen.now_ns) && !after.0.progress_dirty
            &&& !owed ==> after.0.last_progress_ns == run.receiver.last_progress_ns
                && after.0.progress_dirty
        }),
{
    let state = run.receiver;
    lemma_joined_len(payloads);
    let a = answered((state, Seq::empty()), controls);
    let b = stored(a, payloads);
    let c = acknowledged(b, total_len(payloads), seen.next_expected);
    let d = checkpointed(c, seen.next_expected, seen.now_ns);
    let after = on_windowed(run, controls, payloads, seen);
    if after.1.len() > d.1.len() {
        assert(progress_in(after.1[d.1.len() as int]) is Some);
    }
}

/// A receiver without a file takes no data in: nothing is written and nothing is saved.
pub proof fn law_no_file_no_writing(
    run: ReceiveLoop,
    controls: Seq<Packet<Seq<u8>>>,
    payloads: Seq<Seq<u8>>,
    seen: Seen,
)
    requires
        run.phase is Windowing,
        run.receiver.saved is None,
    ensures
        ({
            let after = on_windowed(run, controls, payloads, seen);
            &&& after.0.saved is None
            &&& forall|i: int|
                0 <= i < after.1.len() ==> !((#[trigger] after.1[i]) is Write
                    || after.1[i] is Flush || after.1[i] is SaveCheckpoint)
        }),
{
}

/// Data never ends a transfer: whatever the window makes of it, the receiver goes on
/// with its next turn.
pub proof fn law_data_keeps_the_transfer_going(
    run: ReceiveLoop,
    controls: Seq<Packet<Seq<u8>>>,
    payloads: Seq<Seq<u8>>,
    seen: Seen,
)
    requires
        run.phase is Windowing,
    ensures
        ({
            let step = receive_step(run, Happening::Windowed { controls, payloads }, seen);
            &&& step.0.phase is Turn
            &&& step.1 is Perform
            &&& !fails(performed(step.1))
            &&& forall|i: int|
                0 <= i < performed(step.1).len() ==> !((#[trigger] performed(step.1)[i]) is Close
                    || performed(step.1)[i] is TryClose || performed(step.1)[i] is Complete
                    || performed(step.1)[i] is ClearCheckpoint)
        }),
{
}

/// A sender that has fallen silent is given up after forty-five seconds, and not before:
/// the checkpoint is put away with all that was received, nothing more is sent, and the
/// transfer has stalled. Before that, a look that finds nothing changes nothing.
pub proof fn law_silent_sender_is_given_up(run: ReceiveLoop, seen: Seen)
    requires
        run.phase is Receiving,
    ensures
        ({
            let step = receive_step(run, Happening::Nothing, seen);
            let actions = performed(step.1);
            let silent = seen.now_ns - run.receiver.last_frame_ns >= 45_000_000_000;
            &&& silent ==> {
                &&& step.0.phase is Ending
                &&& actions.len() > 0
                &&& actions.last() == Act::Fail(
                    AppError::Stalled("no packets from sender for 45s"@),
                )
                &&& sends_nothing(actions)
                &&& run.receiver.saved matches Some(saved) ==> actions.len() == 3
                    && actions[1] is TryFlush && (actions[0] matches Action::TrySaveCheckpoint(kept)
                    && {
                        &&& kept.file_name == saved.checkpoint.file_name
                        &&& kept.file_size == saved.checkpoint.file_size
                        &&& kept.chunk_size == saved.checkpoint.chunk_size
                        &&& kept.next_sequence == seen.next_expected
                        &&& kept.bytes_written == run.receiver.bytes_received
                    })
            }
            &&& !silent && !seen.cancelled ==> {
                &&& step.0.phase is Logging
                &&& !fails(actions)
                &&& sends_nothing(actions)
                &&& step.0.receiver == (ReceiveTransfer {
                    diag_last_ms: step.0.receiver.diag_last_ms,
                    ..run.receiver
                })
            }
        }),
{
}

/// A session that the user has cancelled ends at the next turn: what has come is put
/// away, the sender is told that it was cancelled, the connection is closed, the user is
/// told, and the transfer has failed with that.
pub proof fn law_cancelled_receiver_tells_everybody(run: ReceiveLoop, event: Happening, seen: Seen)
    requires
        (run.phase is Turn && event is Done) || (run.phase is Receiving && event is Nothing
            && seen.now_ns - run.receiver.last_frame_ns < 45_000_000_000),
        seen.cancelled,
    ensures
        ({
            let step = receive_step(run, event, seen);
            let actions = performed(step.1);
            let n = actions.len() as int;
            &&& step.0.phase is Ending
            &&& n == if run.receiver.saved is Some {
                6int
            } else {
                4int
            }
            &&& actions[n - 4] == Act::SendIfPossible(
                Packet {
                    packet_type: PacketType::Close,
                    sequence_no: seen.next_expected,
                    payload: "cancelled".spec_bytes(),
                },
            )
            &&& actions[n - 3] is TryClose
            &&& actions[n - 2] == Act::Emit(
                PlenumEvent::Transfer(
                    TransferEvent::Cancelled { direction: TransferDirection::Receive },
                ),
            )
            &&& actions[n - 1] == Act::Fail(AppError::Cancelled)
            &&& run.receiver.saved matches Some(saved) ==> actions[1] is TryFlush && (
            actions[0] matches Action::TrySaveCheckpoint(kept) && {
                &&& kept.file_name == saved.checkpoint.file_name
                &&& kept.file_size == saved.checkpoint.file_size
                &&& kept.chunk_size == saved.checkpoint.chunk_size
                &&& kept.next_sequence == seen.next_expected
                &&& kept.bytes_written == run.receiver.bytes_received
            })
        }),
{
}

/// A receiver that nobody cancels keeps looking for frames: from the start of a turn it
/// comes to the next look in three steps, and each time it looks once. Whatever it then
/// hears that neither offers a file nor ends the transfer leads to another look.
pub proof fn law_receiver_keeps_looking(run: ReceiveLoop, first: Seen, second: Seen, third: Seen)
    requires
        run.phase is Turn,
        !first.cancelled,
    ensures
        ({
            let one = receive_step(run, Happening::Done, first);
            let two = receive_step(one.0, Happening::Done, second);
            let three = receive_step(two.0, Happening::Done, third);
            &&& one.1 is Perform
            &&& two.1 is Diagnostics
            &&& three.1 is Receive
            &&& three.0.phase is Receiving
            &&& three.0 == (ReceiveRun {
                receiver: ReceiveTransfer {
                    diag_last_ms: three.0.receiver.diag_last_ms,
                    ..run.receiver
                },
                phase: ReceivePhase::Receiving,
                ..run
            })
            &&& first.now_ms - run.receiver.diag_last_ms >= 1000
                ==> three.0.receiver.diag_last_ms == first.now_ms && performed(one.1).len() == 1
            &&& first.now_ms - run.receiver.diag_last_ms < 1000 ==> three.0.receiver.diag_last_ms
                == run.receiver.diag_last_ms && performed(one.1).len() == 0
        }),
{
}

/// Every packet that comes is counted and shows that the sender is there. Data is handed
/// to the window as it came, whatever was done before.
pub proof fn law_data_reaches_the_window(run: ReceiveLoop, packet: Packet<Seq<u8>>, seen: Seen)
    requires
        run.phase is Receiving,
    ensures
        ({
            let step = receive_step(run, Happening::Packet(packet), seen);
            &&& step.0.receiver.last_frame_ns == seen.now_ns
            &&& run.receiver.frames < u64::MAX ==> step.0.receiver.frames == run.receiver.frames + 1
            &&& packet.packet_type is Data <==> step.1 is Window
            &&& packet.packet_type is Data ==> {
                &&& step.1 == Wish::Window(packet)
                &&& step.0.phase is Windowing
                &&& run.receiver.data_recv < u64::MAX ==> step.0.receiver.data_recv
                    == run.receiver.data_recv + 1
            }
            &&& packet.packet_type !is Data ==> step.0.receiver.data_recv == run.receiver.data_recv
        }),
{
}

/// Packets that mean nothing to a receiver do nothing but show that the sender is there:
/// an acknowledgement, a code, an acceptance, and a resume packet that is no confirmation
/// of an offer to stream.
pub proof fn law_other_packets_do_nothing(run: ReceiveLoop, packet: Packet<Seq<u8>>, seen: Seen)
    requires
        run.phase is Receiving,
        packet.packet_type is Ack || packet.packet_type is Auth || packet.packet_type is Accept || (
        packet.packet_type is Resume && (!run.receiver.stream_offered || run.receiver.streaming
            || packet.payload != "PLENUM_STREAM_V1".spec_bytes())),
    ensures
        ({
            let step = receive_step(run, Happening::Packet(packet), seen);
            &&& performed(step.1).len() == 0
            &&& step.1 is Perform
            &&& step.0 == (ReceiveRun {
                receiver: ReceiveTransfer {
                    frames: step.0.receiver.frames,
                    last_frame_ns: seen.now_ns,
                    ..run.receiver
                },
                phase: ReceivePhase::Turn,
                ..run
            })
        }),
{
}

/// The streaming mode is on from the first confirmation of the offer that was made, and
/// stays on. Nothing else turns it on.
pub proof fn law_confirmation_turns_streaming_on(run: ReceiveLoop, event: Happening, seen: Seen)
    ensures
        ({
            let after = receive_step(run, event, seen).0.receiver;
            &&& run.receiver.streaming ==> after.streaming
            &&& after.streaming && !run.receiver.streaming <==> !run.receiver.streaming
                && run.receiver.stream_offered && run.phase is Receiving && (
            event matches Happening::Packet(packet) && packet.packet_type is Resume
                && packet.payload == "PLENUM_STREAM_V1".spec_bytes())
            &&& run.receiver.stream_offered ==> after.stream_offered
            &&& after.stream_offered && !run.receiver.stream_offered ==> seen.relayed is None
        }),
{
    lemma_modes(run, event, seen);
}

/// Where the modes and the marks of a receiver come from.
proof fn lemma_modes(run: ReceiveLoop, event: Happening, seen: Seen)
    ensures
        ({
            let after = receive_step(run, event, seen).0.receiver;
            let confirmed = run.phase is Receiving && (event matches Happening::Packet(packet)
                && packet.packet_type is Resume && run.receiver.stream_offered
                && !run.receiver.streaming && packet.payload == "PLENUM_STREAM_V1".spec_bytes());
            let finish = run.phase is Receiving && (event matches Happening::Packet(packet)
                && packet.packet_type is Finish);
            let begun = run.phase is Accepting && event is Done;
            let framed = run.phase is Receiving && (event is Packet || event is Garbled);
            &&& after.streaming == (run.receiver.streaming || confirmed)
            &&& after.finish_received == (run.receiver.finish_received || finish)
            &&& after.stream_offered == (run.receiver.stream_offered || (seen.relayed is None
                && receive_step(run, event, seen).0.phase is Accepting))
            &&& begun ==> after.started_ns == seen.now_ns && after.last_frame_ns == seen.now_ns
            &&& !begun ==> after.started_ns == run.receiver.started_ns
            &&& framed ==> after.last_frame_ns == seen.now_ns
            &&& !begun && !framed ==> after.last_frame_ns == run.receiver.last_frame_ns
        }),
{
    match (run.phase, event) {
        (ReceivePhase::Receiving, Happening::Packet(packet)) => {
            lemma_packet_modes(run, packet, seen);
        },
        (ReceivePhase::Windowing, Happening::Windowed { controls, payloads }) => {},
        (ReceivePhase::Offering, Happening::Done) => {},
        _ => {},
    }
}

proof fn lemma_packet_modes(run: ReceiveLoop, packet: Packet<Seq<u8>>, seen: Seen)
    ensures
        ({
            let step = receive_packet(run, packet, seen);
            let after = step.0.receiver;
            &&& step.0.phase !is Accepting
            &&& after.streaming == (run.receiver.streaming || (packet.packet_type is Resume
                && run.receiver.stream_offered && packet.payload
                == "PLENUM_STREAM_V1".spec_bytes()))
            &&& after.finish_received == (run.receiver.finish_received
                || packet.packet_type is Finish)
            &&& after.stream_offered == run.receiver.stream_offered
            &&& after.started_ns == run.receiver.started_ns
            &&& after.last_frame_ns == seen.now_ns
        }),
{
}

/// When a receiver last heard of its sender, when its transfer began and whether the
/// sender is done follow what has happened: a frame, an acceptance that was sent, and
/// a finish packet.
pub proof fn law_marks_follow_what_happens(run: ReceiveLoop, event: Happening, seen: Seen)
    ensures
        ({
            let after = receive_step(run, event, seen).0.receiver;
            let finish = run.phase is Receiving && (event matches Happening::Packet(packet)
                && packet.packet_type is Finish);
            let begun = run.phase is Accepting && event is Done;
            let framed = run.phase is Receiving && (event is Packet || event is Garbled);
            &&& after.finish_received == (run.receiver.finish_received || finish)
            &&& after.started_ns == if begun {
                seen.now_ns
            } else {
                run.receiver.started_ns
            }
            &&& after.last_frame_ns == if begun || framed {
                seen.now_ns
            } else {
                run.receiver.last_frame_ns
            }
        }),
{
    lemma_modes(run, event, seen);
}

/// A sender that is done is answered: what is buffered goes to the file before anything
/// is acknowledged, a stream is acknowledged up to what is waited for, progress that was
/// not told is told, and the checkpoint is removed exactly if the file is whole.
pub proof fn law_finish_is_answered(run: ReceiveLoop, packet: Packet<Seq<u8>>, seen: Seen)
    requires
        run.phase is Receiving,
        packet.packet_type is Finish,
    ensures
        ({
            let state = run.receiver;
            let step = receive_step(run, Happening::Packet(packet), seen);
            let actions = performed(step.1);
            &&& step.0.phase is Finishing
            &&& step.0.receiver.finish_received
            &&& state.saved is Some ==> actions.len() > 0 && actions[0] is Flush
            &&& packets_sent(actions) == if state.streaming && seen.next_expected > 0 {
                seq![
                    Packet {
                        packet_type: PacketType::Ack,
                        sequence_no: (seen.next_expected - 1) as u32,
                        payload: Seq::<u8>::empty(),
                    },
                ]
            } else {
                Seq::empty()
            }
            &&& reports(actions) == state.progress_dirty
            &&& actions.contains(Act::ClearCheckpoint) == (state.saved is Some
                && state.bytes_received == state.file_size)
            &&& !fails(actions)
        }),
{
    let state = run.receiver;
    let step = receive_step(run, Happening::Packet(packet), seen);
    let actions = performed(step.1);
    let heard = after_packet(after_frame(state, seen.now_ns), packet);
    assert(actions == finished(heard, seen.next_expected).1);
    let flush: Seq<Act> = if state.saved is Some {
        seq![Act::Flush]
    } else {
        Seq::empty()
    };
    let ack = Packet {
        packet_type: PacketType::Ack,
        sequence_no: (seen.next_expected - 1) as u32,
        payload: Seq::<u8>::empty(),
    };
    let acking: Seq<Act> = if state.streaming && seen.next_expected > 0 {
        seq![Act::Send(ack)]
    } else {
        Seq::empty()
    };
    let rest = actions.skip((flush.len() + acking.len()) as int);
    assert(actions =~= flush + acking + rest);
    lemma_none_sent(flush);
    lemma_none_sent(rest);
    lemma_one_sent(ack);
    lemma_none_sent(Seq::empty());
    lemma_sent_join(flush, acking);
    lemma_sent_join(flush + acking, rest);
    assert(packets_sent(actions) =~= packets_sent(acking));
    if state.progress_dirty {
        assert(progress_in(actions[(flush.len() + acking.len()) as int]) is Some);
    }
    if state.saved is Some && state.bytes_received == state.file_size {
        assert(actions[actions.len() - 1] == Act::ClearCheckpoint);
    }
}

/// A transfer that has ended leaves no connection open. Of a whole file it is told to the
/// user and with the result what was received, from whom, under which name, over which
/// path and in how many milliseconds; of any other it fails, and tells of no success.
pub proof fn law_receiver_concludes(run: ReceiveLoop, event: Happening, seen: Seen)
    requires
        (run.phase is Finishing && event is Done) || (run.phase is Receiving && (
        event matches Happening::RecvFailed { closed, .. } && closed)),
    ensures
        ({
            let state = run.receiver;
            let step = receive_step(run, event, seen);
            let actions = performed(step.1);
            let n = actions.len() as int;
            &&& step.0.phase is Ending
            &&& sends_nothing(actions)
            &&& state.bytes_received == state.file_size ==> {
                &&& n == 5
                &&& actions[1] is TryClose
                &&& !fails(actions)
                &&& actions[4] matches Action::Complete(summary) && {
                    &&& actions[2] == Act::Emit(
                        PlenumEvent::Transfer(TransferEvent::Completed(summary)),
                    )
                    &&& actions[3] == Act::Emit(
                        PlenumEvent::Transfer(
                            TransferEvent::StateChanged {
                                direction: TransferDirection::Receive,
                                state: ConnectionState::Closed,
                                peer: Some(state.peer),
                            },
                        ),
                    )
                    &&& summary.direction is Receive
                    &&& summary.file_name == state.file_name
                    &&& summary.peer == Some(state.peer)
                    &&& summary.peer_name == state.sender_name
                    &&& summary.mode is Lan <==> seen.relayed is None
                    &&& summary.mode is Direct <==> seen.relayed == Some(false)
                    &&& summary.mode is Relay <==> seen.relayed == Some(true)
                    &&& summary.total_bytes == state.file_size
                    &&& summary.transferred_bytes == state.file_size
                    &&& state.resume_bytes <= state.file_size ==> summary.resumed_bytes
                        == state.resume_bytes
                    &&& seen.now_ns >= state.started_ns ==> summary.elapsed_ms * 1_000_000
                        <= seen.now_ns - state.started_ns < (summary.elapsed_ms + 1) * 1_000_000
                }
            }
            &&& state.bytes_received != state.file_size ==> {
                &&& n == 3
                &&& actions[1] is TryClose
                &&& actions[2] matches Action::Fail(AppError::Stalled(message)) && {
                    let counts = decimal(state.bytes_received as nat) + " of "@ + decimal(
                        state.file_size as nat,
                    ) + " bytes received"@;
                    if state.finish_received || state.bytes_received > state.file_size {
                        message == "transfer ended with "@ + counts
                    } else {
                        message == "connection closed before transfer completed ("@ + counts
                            + ")"@
                    }
                }
            }
        }),
{
    let state = run.receiver;
    let counts = decimal(state.bytes_received as nat) + " of "@ + decimal(state.file_size as nat);
    reveal_strlit(" bytes received)");
    reveal_strlit(" bytes received");
    reveal_strlit(")");
    assert("connection closed before transfer completed ("@ + decimal(state.bytes_received as nat)
        + " of "@ + decimal(state.file_size as nat) + " bytes received)"@
        =~= "connection closed before transfer completed ("@ + (counts + " bytes received"@)
        + ")"@);
    assert("transfer ended with "@ + decimal(state.bytes_received as nat) + " of "@ + decimal(
        state.file_size as nat,
    ) + " bytes received"@ =~= "transfer ended with "@ + (counts + " bytes received"@));
}

/// A connection that fails without being closed, or a frame that is no packet, fails the
/// transfer with that very error.
pub proof fn law_broken_connections_fail(run: ReceiveLoop, event: Happening, seen: Seen)
    requires
        run.phase is Receiving,
    ensures
        ({
            let step = receive_step(run, event, seen);
            &&& event matches Happening::RecvFailed { closed, error } ==> !closed ==> step.1
                == Wish::Perform(seq![Act::Fail(AppError::Transport(error))])
                && step.0.phase is Ending
            &&& event matches Happening::Garbled(reason) ==> step.1 == Wish::Perform(
                seq![Act::Fail(AppError::Protocol(reason))],
            ) && step.0.phase is Ending
        }),
{
}

/// A peer that closes for a reason has declined: the reason is told as it came, and the
/// transfer has failed with what it means. One that closes without a reason ends the
/// transfer as a lost connection does.
pub proof fn law_closing_peer_ends_it(run: ReceiveLoop, packet: Packet<Seq<u8>>, seen: Seen)
    requires
        run.phase is Receiving,
        packet.packet_type is Close,
    ensures
        ({
            let step = receive_step(run, Happening::Packet(packet), seen);
            let actions = performed(step.1);
            let reason = lossy(packet.payload);
            &&& step.0.phase is Ending
            &&& reason.len() > 0 ==> {
                &&& actions.len() == 2
                &&& actions[0] == Act::Emit(
                    PlenumEvent::Transfer(
                        TransferEvent::Declined { direction: TransferDirection::Receive, reason },
                    ),
                )
                &&& actions[1] matches Action::Fail(AppError::Rejected(message)) && means(
                    message,
                    reason,
                )
            }
            &&& reason.len() == 0 ==> step.1 == receive_step(
                ReceiveRun {
                    receiver: ReceiveTransfer {
                        frames: step.0.receiver.frames,
                        last_frame_ns: seen.now_ns,
                        ..run.receiver
                    },
                    phase: ReceivePhase::Finishing,
                    ..run
                },
                Happening::Done,
                seen,
            ).1
        }),
{
    lemma_rejection_means(lossy(packet.payload));
}

/// An offer with a payload that makes sense is looked into under the size that it says;
/// any other fails the transfer. Nothing is written or sent for it yet.
pub proof fn law_offer_is_looked_into(run: ReceiveLoop, packet: Packet<Seq<u8>>, seen: Seen)
    requires
        run.phase is Receiving,
        packet.packet_type is Start,
    ensures
        ({
            let step = receive_step(run, Happening::Packet(packet), seen);
            &&& start_fault(packet.payload) matches Some(fault) ==> step.0.phase is Ending
                && step.1 == Wish::Perform(seq![Act::Fail(AppError::InvalidRequest(fault))])
            &&& start_fault(packet.payload) is None ==> {
                &&& step.0.phase is Preparing
                &&& step.1 matches Wish::Prepare { name, size } && {
                    &&& size == start_fields(packet.payload).0 as u64
                    &&& step.0.offered matches Some(file) && {
                        &&& file.name == name
                        &&& file.size == size
                        &&& file.sender_name == start_fields(packet.payload).2
                        &&& file.checkpoint is None
                    }
                }
            }
        }),
{
}

/// An offered file goes on where its checkpoint stands exactly if that is of the same
/// name, size and chunk size: the file is kept and written to from there. Else it is
/// created anew with a checkpoint that has come to nothing, and a checkpoint of another
/// file is removed first.
pub proof fn law_offered_file_is_opened(
    run: ReceiveLoop,
    loaded: Option<ResumeCheckpoint<Seq<char>>>,
    path: Seq<char>,
    chunk_size: usize,
    seen: Seen,
)
    requires
        run.phase is Preparing,
        run.offered is Some,
    ensures
        ({
            let file = run.offered->Some_0;
            let step = receive_step(run, Happening::Prepared { loaded, path, chunk_size }, seen);
            let actions = performed(step.1);
            let same = loaded matches Some(held) && held.file_name == file.name && held.file_size
                == file.size && held.chunk_size == chunk_size;
            &&& step.0.phase is Opening
            &&& step.0.receiver == run.receiver
            &&& step.0.offered matches Some(opened) && opened.name == file.name && opened.size
                == file.size && opened.sender_name == file.sender_name && (
            opened.checkpoint matches Some(saved) && saved.path == path && {
                &&& same ==> Some(saved.checkpoint) == loaded && actions == seq![
                    Act::OpenExisting,
                    Act::Seek(saved.checkpoint.bytes_written),
                ]
                &&& !same ==> {
                    &&& saved.checkpoint.file_name == file.name
                    &&& saved.checkpoint.file_size == file.size
                    &&& saved.checkpoint.chunk_size == chunk_size
                    &&& saved.checkpoint.next_sequence == 0
                    &&& saved.checkpoint.bytes_written == 0
                    &&& actions == (if loaded is Some {
                        seq![Act::ClearCheckpoint]
                    } else {
                        Seq::empty()
                    }) + seq![Act::CreateFile, Act::SaveCheckpoint(saved.checkpoint)]
                }
            })
        }),
{
    let file = run.offered->Some_0;
    let step = receive_step(run, Happening::Prepared { loaded, path, chunk_size }, seen);
    let actions = performed(step.1);
    let saved = step.0.offered->Some_0.checkpoint->Some_0;
    let same = loaded matches Some(held) && held.file_name == file.name && held.file_size
        == file.size && held.chunk_size == chunk_size;
    if !same {
        assert(actions =~= (if loaded is Some {
            seq![Act::ClearCheckpoint]
        } else {
            Seq::empty()
        }) + seq![Act::CreateFile, Act::SaveCheckpoint(saved.checkpoint)]);
    }
}

/// Once the file is open the receiver has come as far as the checkpoint says, and expects
/// data from there on. The user is told of the offer before anything is answered.
pub proof fn law_offer_starts_at_the_checkpoint(run: ReceiveLoop, seen: Seen)
    requires
        run.phase is Opening,
        run.offered matches Some(file) && file.checkpoint is Some,
    ensures
        ({
            let file = run.offered->Some_0;
            let saved = file.checkpoint->Some_0;
            let step = receive_step(run, Happening::Done, seen);
            let after = step.0.receiver;
            let actions = performed(step.1);
            &&& step.0.phase is Offering
            &&& step.0.offered is None
            &&& after.file_name == file.name
            &&& after.file_size == file.size
            &&& after.sender_name == file.sender_name
            &&& after.saved == Some(saved)
            &&& after.resume_sequence == saved.checkpoint.next_sequence
            &&& after.resume_bytes == saved.checkpoint.bytes_written
            &&& after.bytes_received == saved.checkpoint.bytes_written
            &&& after.bytes_since_checkpoint == 0
            &&& after.last_checkpoint_ns == seen.now_ns
            &&& after.streaming == run.receiver.streaming
            &&& after.last_progress_ns == run.receiver.last_progress_ns
            &&& after.progress_dirty == run.receiver.progress_dirty
            &&& actions.len() == 3
            &&& actions[0] == Act::ExpectFrom(saved.checkpoint.next_sequence)
            &&& actions[2] == Act::Emit(
                PlenumEvent::Transfer(
                    TransferEvent::IncomingRequest {
                        direction: TransferDirection::Receive,
                        file_name: file.name,
                        total_bytes: file.size,
                        peer: Some(run.receiver.peer),
                        sender_name: file.sender_name,
                    },
                ),
            )
            &&& sends_nothing(actions)
        }),
{
}

/// The user decides: a receiver that asks goes by the answer, declines by itself after
/// two minutes without one, looks again every fifty milliseconds until then, and stops
/// where the session is cancelled. Whoever is turned down is told so.
pub proof fn law_the_user_decides(run: ReceiveLoop, seen: Seen)
    requires
        run.phase is Asking || (run.phase is Offering && !run.receiver.auto_accept),
    ensures
        ({
            let step = receive_step(run, Happening::Done, seen);
            let actions = performed(step.1);
            let asked_ns = if run.phase is Asking {
                run.asked_ns
            } else {
                seen.now_ns
            };
            let late = seen.now_ns - asked_ns >= 120_000_000_000;
            let declined = seen.decision is Declined || (seen.decision is Pending && late);
            &&& step.0.receiver == run.receiver
            &&& step.0.asked_ns == asked_ns
            &&& seen.cancelled ==> {
                &&& step.0.phase is Ending
                &&& is_turned_away(actions, run.receiver.resume_sequence, "cancelled".spec_bytes())
                &&& actions[2] == Act::Emit(
                    PlenumEvent::Transfer(
                        TransferEvent::Cancelled { direction: TransferDirection::Receive },
                    ),
                )
                &&& actions[3] == Act::Fail(AppError::Cancelled)
            }
            &&& !seen.cancelled && seen.decision is Accepted ==> {
                &&& step.0.phase is Answered
                &&& step.1 is ResetDecision
            }
            &&& !seen.cancelled && declined ==> {
                &&& step.0.phase is Ending
                &&& is_turned_away(actions, run.receiver.resume_sequence, "declined".spec_bytes())
                &&& actions[2] == Act::Emit(
                    PlenumEvent::Transfer(
                        TransferEvent::Declined {
                            direction: TransferDirection::Receive,
                            reason: "declined"@,
                        },
                    ),
                )
                &&& actions[3] == Act::Fail(
                    AppError::Rejected(
                        if seen.decision is Declined {
                            "transfer declined"@
                        } else {
                            "no decision within 120s; transfer declined"@
                        },
                    ),
                )
            }
            &&& !seen.cancelled && seen.decision is Pending && !late ==> {
                &&& step.0.phase is Asking
                &&& step.1 == Wish::Sleep(50)
            }
        }),
{
}

/// Whether a script of four actions begins by telling the peer why it is turned away, and
/// by closing the connection.
pub open spec fn is_turned_away(actions: Seq<Act>, sequence_no: u32, reason: Seq<u8>) -> bool {
    &&& actions.len() == 4
    &&& actions[0] == Act::TrySend(
        Packet { packet_type: PacketType::Close, sequence_no, payload: reason },
    )
    &&& actions[1] is TryClose
}

/// An acceptance is sent once the user has said yes, or at once where the receiver accepts
/// by itself: the offer to stream first, where the transport knows nothing of relays, then
/// the offset, where there is one, and last the acceptance itself.
pub proof fn law_acceptance_says_where_to_go_on(run: ReceiveLoop, seen: Seen)
    requires
        run.phase is Answered || (run.phase is Offering && run.receiver.auto_accept),
    ensures
        ({
            let state = run.receiver;
            let step = receive_step(run, Happening::Done, seen);
            let sent = packets_sent(performed(step.1));
            let offer = seq![
                Packet {
                    packet_type: PacketType::Resume,
                    sequence_no: 0u32,
                    payload: "PLENUM_STREAM_V1".spec_bytes(),
                },
            ];
            let offset = seq![
                Packet {
                    packet_type: PacketType::Resume,
                    sequence_no: state.resume_sequence,
                    payload: be_bytes(state.resume_bytes as nat, 8),
                },
            ];
            let accept = seq![
                Packet {
                    packet_type: PacketType::Accept,
                    sequence_no: state.resume_sequence,
                    payload: match state.device_name {
                        Some(name) => vstd::utf8::encode_utf8(name),
                        None => Seq::<u8>::empty(),
                    },
                },
            ];
            &&& step.0.phase is Accepting
            &&& step.0.receiver == (ReceiveTransfer {
                stream_offered: state.stream_offered || seen.relayed is None,
                ..state
            })
            &&& sent == (if seen.relayed is None {
                offer
            } else {
                Seq::empty()
            }) + (if state.resume_bytes > 0 {
                offset
            } else {
                Seq::empty()
            }) + accept
        }),
{
    let state = run.receiver;
    let actions = performed(receive_step(run, Happening::Done, seen).1);
    let first: Seq<Act> = if seen.relayed is None {
        actions.take(1)
    } else {
        Seq::empty()
    };
    let middle: Seq<Act> = if state.resume_bytes > 0 {
        actions.subrange(first.len() as int, first.len() as int + 2)
    } else {
        Seq::empty()
    };
    let told: Seq<Act> = if state.resume_bytes > 0 {
        seq![middle[0]]
    } else {
        Seq::empty()
    };
    let going: Seq<Act> = if state.resume_bytes > 0 {
        seq![middle[1]]
    } else {
        Seq::empty()
    };
    let last = seq![actions.last()];
    assert(actions =~= first + (told + going) + last);
    lemma_none_sent(Seq::empty());
    lemma_none_sent(told);
    lemma_sent_join(told, going);
    lemma_sent_join(first, told + going);
    lemma_sent_join(first + (told + going), last);
    if seen.relayed is None {
        assert(first =~= seq![Act::Send(first[0]->Send_0)]);
        lemma_one_sent(first[0]->Send_0);
    }
    if state.resume_bytes > 0 {
        assert(going =~= seq![Act::Send(middle[1]->Send_0)]);
        lemma_one_sent(middle[1]->Send_0);
    }
    assert(last =~= seq![Act::Send(actions.last()->Send_0)]);
    lemma_one_sent(actions.last()->Send_0);
    assert(packets_sent(told) + packets_sent(going) =~= packets_sent(going));
}

/// The transfer begins once the acceptance is sent, and from then on the sender is waited
/// for.
pub proof fn law_accepted_transfer_begins(run: ReceiveLoop, seen: Seen)
    requires
        run.phase is Accepting,
    ensures
        ({
            let step = receive_step(run, Happening::Done, seen);
            &&& step.0.phase is Turn
            &&& step.0.receiver.started_ns == seen.now_ns
            &&& step.0.receiver.last_frame_ns == seen.now_ns
            &&& performed(step.1) == seq![
                Act::Emit(
                    PlenumEvent::Transfer(
                        TransferEvent::Started {
                            direction: TransferDirection::Receive,
                            file_name: run.receiver.file_name,
                            total_bytes: run.receiver.file_size,
                            resumed_bytes: run.receiver.resume_bytes,
                        },
                    ),
                ),
            ]
        }),
{
}

/// A receiver starts with nothing received, nothing offered and nothing told, and first
/// tells over which path it is connected.
pub proof fn law_receiver_starts_empty(
    peer: Seq<char>,
    auto_accept: bool,
    device_name: Option<Seq<char>>,
    separator: char,
    seen: Seen,
)
    ensures
        ({
            let state = fresh_receiver(peer, auto_accept, device_name, seen.now_ns, seen.now_ms);
            let run = ReceiveRun {
                receiver: state,
                phase: ReceivePhase::Fresh,
                offered: None,
                asked_ns: seen.now_ns,
                separator,
            };
            let step = receive_step(run, Happening::Done, seen);
            &&& state.peer == peer
            &&& state.auto_accept == auto_accept
            &&& state.device_name == device_name
            &&& state.bytes_received == 0
            &&& state.file_size == 0
            &&& state.saved is None
            &&& state.sender_name is None
            &&& state.last_progress_ns is None
            &&& state.bytes_since_checkpoint == 0
            &&& state.bytes_since_stream_ack == 0
            &&& !state.stream_offered
            &&& !state.streaming
            &&& !state.finish_received
            &&& !state.progress_dirty
            &&& state.acks_sent == 0
            &&& state.frames == 0
            &&& state.data_recv == 0
            &&& state.last_frame_ns == seen.now_ns
            &&& state.started_ns == seen.now_ns
            &&& state.diag_last_ms == seen.now_ms
            &&& step.0 == (ReceiveRun { phase: ReceivePhase::Turn, ..run })
            &&& performed(step.1).len() == 2
            &&& performed(step.1)[0] matches Action::Emit(
                PlenumEvent::Transfer(TransferEvent::ConnectionEstablished { direction, mode }),
            ) && {
                &&& direction is Receive
                &&& mode is Lan <==> seen.relayed is None
                &&& mode is Direct <==> seen.relayed == Some(false)
                &&& mode is Relay <==> seen.relayed == Some(true)
            }
        }),
{
}

/// Whether an event answers what a receiver has asked for at its phase.
pub open spec fn is_awaited(phase: ReceivePhase, event: Happening) -> bool {
    match phase {
        ReceivePhase::Receiving => event is Packet || event is Garbled || event is Nothing
            || event is RecvFailed,
        ReceivePhase::Preparing => event is Prepared,
        ReceivePhase::Windowing => event is Windowed,
        ReceivePhase::Ending => false,
        _ => event is Done,
    }
}

/// A driver that tells of something else than it was asked for ends the transfer with an
/// error, and changes nothing of what has come.
pub proof fn law_receiver_out_of_step_fails(run: ReceiveLoop, event: Happening, seen: Seen)
    requires
        !is_awaited(run.phase, event),
    ensures
        ({
            let step = receive_step(run, event, seen);
            &&& step.0 == (ReceiveRun { phase: ReceivePhase::Ending, ..run })
            &&& performed(step.1).len() == 1
            &&& performed(step.1)[0] matches Action::Fail(AppError::Protocol(_))
        }),
{
}

/// Nothing is promised before it is kept: whatever a batch writes to the file is written
/// before the file is flushed, before a checkpoint that counts it is saved or told of, and
/// before a stream is acknowledged.
pub proof fn law_data_is_written_first(
    run: ReceiveLoop,
    controls: Seq<Packet<Seq<u8>>>,
    payloads: Seq<Seq<u8>>,
    seen: Seen,
)
    requires
        run.phase is Windowing,
    ensures
        ({
            let actions = on_windowed(run, controls, payloads, seen).1;
            forall|i: int, j: int|
                0 <= i < actions.len() && 0 <= j < actions.len() && (#[trigger] actions[i])
                    is Write && ((#[trigger] actions[j]) is Flush || actions[j] is SaveCheckpoint
                    || actions[j] is Emit || (run.receiver.streaming && actions[j] is Send))
                    ==> i < j
        }),
{
}

/// Data changes only what it counts: how much has come, the checkpoint, what was told and
/// what was acknowledged. Where the window lets nothing through, it changes nothing but
/// the number of acknowledgements, and only sends.
pub proof fn law_data_changes_what_it_counts(
    run: ReceiveLoop,
    controls: Seq<Packet<Seq<u8>>>,
    payloads: Seq<Seq<u8>>,
    seen: Seen,
)
    requires
        run.phase is Windowing,
    ensures
        ({
            let before = run.receiver;
            let (after, actions) = on_windowed(run, controls, payloads, seen);
            &&& after == (ReceiveTransfer {
                bytes_received: after.bytes_received,
                saved: after.saved,
                last_progress_ns: after.last_progress_ns,
                last_checkpoint_ns: after.last_checkpoint_ns,
                bytes_since_checkpoint: after.bytes_since_checkpoint,
                progress_dirty: after.progress_dirty,
                bytes_since_stream_ack: after.bytes_since_stream_ack,
                acks_sent: after.acks_sent,
                ..before
            })
            &&& !before.streaming ==> after.bytes_since_stream_ack == before.bytes_since_stream_ack
            &&& before.bytes_received + joined(payloads).len() <= u64::MAX ==> after.bytes_received
                == before.bytes_received + joined(payloads).len()
            &&& payloads.len() == 0 ==> after == (ReceiveTransfer {
                acks_sent: after.acks_sent,
                ..before
            }) && forall|i: int| 0 <= i < actions.len() ==> (#[trigger] actions[i]) is Send
            &&& receive_step(run, Happening::Windowed { controls, payloads }, seen).0.offered
                == run.offered
        }),
{
    lemma_joined_len(payloads);
}

/// An acknowledgement of the end of a stream is counted like any other.
pub proof fn law_last_acknowledgement_is_counted(
    run: ReceiveLoop,
    packet: Packet<Seq<u8>>,
    seen: Seen,
)
    requires
        run.phase is Receiving,
        packet.packet_type is Finish,
        run.receiver.acks_sent < u64::MAX,
    ensures
        receive_step(run, Happening::Packet(packet), seen).0.receiver.acks_sent
            == run.receiver.acks_sent + if run.receiver.streaming && seen.next_expected > 0 {
            1int
        } else {
            0int
        },
{
}

/// A packet that neither offers a file, nor carries data, nor ends anything leaves the
/// transfer going: nothing is sent for it, and the next turn starts.
pub proof fn law_side_packets_keep_the_transfer_going(
    run: ReceiveLoop,
    packet: Packet<Seq<u8>>,
    seen: Seen,
)
    requires
        run.phase is Receiving,
        packet.packet_type is Ack || packet.packet_type is Auth || packet.packet_type is Accept
            || packet.packet_type is Resume,
    ensures
        ({
            let step = receive_step(run, Happening::Packet(packet), seen);
            &&& step.0.phase is Turn
            &&& step.1 is Perform
            &&& forall|i: int|
                0 <= i < performed(step.1).len() ==> ((#[trigger] performed(step.1)[i])
                    matches Action::Emit(PlenumEvent::Log { .. }))
        }),
{
}

} // verus!
