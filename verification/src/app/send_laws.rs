//! What a sender owes its receiver and its user, step by step and over a whole course.

use vstd::prelude::*;
use vstd::string::*;

use crate::app::drive::{performed, Happening, Seen, Wish};
use crate::app::error::AppError;
use crate::app::handshake::packets_sent;
use crate::app::intake::joined;
use crate::app::outstanding::Unacked;
use crate::app::receive::Act;
use crate::app::script::Action;
use crate::app::stream_run::{stream_step, StreamLoop, StreamPhase, StreamRun};
use crate::app::streaming::{streaming_start, StreamingSend};
use crate::app::told::{
    fails, lemma_none_sent, lemma_one_sent, lemma_rejection_means, lemma_sent_join, means,
    progress_in, reports, reports_truly, sends_nothing,
};
use crate::app::types::{PlenumEvent, TransferDirection, TransferEvent};
use crate::app::window_run::{window_step, WindowLoop, WindowPhase, WindowRun};
use crate::app::windowed::{windowed_start, WindowedSend};
use crate::protocol::{Packet, PacketType};
use crate::text::{decimal, lossy};

verus! {

/// Whether reads are those of a file of `file_size` bytes from `offset` on: one gives
/// nothing only at the end of the file.
pub open spec fn reads_of_file(reads: Seq<Seq<u8>>, offset: u64, file_size: u64) -> bool {
    forall|i: int|
        0 <= i < reads.len() && (#[trigger] reads[i]).len() == 0 ==> offset + joined(
            reads.take(i),
        ).len() == file_size
}

/// A sender over a window after any number of steps.
pub open spec fn window_course(run: WindowLoop, steps: Seq<(Happening, Seen)>) -> WindowLoop
    decreases steps.len(),
{
    if steps.len() == 0 {
        run
    } else {
        window_step(window_course(run, steps.drop_last()), steps.last().0, steps.last().1).0
    }
}

/// What it has read by then.
pub open spec fn window_reads(run: WindowLoop, steps: Seq<(Happening, Seen)>) -> Seq<Seq<u8>>
    decreases steps.len(),
{
    if steps.len() == 0 {
        Seq::empty()
    } else {
        let before = window_reads(run, steps.drop_last());
        match (window_course(run, steps.drop_last()).phase, steps.last().0) {
            (WindowPhase::Reading, Happening::Read(data)) => before.push(data),
            _ => before,
        }
    }
}

/// A streaming sender after any number of steps.
pub open spec fn stream_course(run: StreamLoop, steps: Seq<(Happening, Seen)>) -> StreamLoop
    decreases steps.len(),
{
    if steps.len() == 0 {
        run
    } else {
        stream_step(stream_course(run, steps.drop_last()), steps.last().0, steps.last().1).0
    }
}

/// What it has read by then.
pub open spec fn stream_reads(run: StreamLoop, steps: Seq<(Happening, Seen)>) -> Seq<Seq<u8>>
    decreases steps.len(),
{
    if steps.len() == 0 {
        Seq::empty()
    } else {
        let before = stream_reads(run, steps.drop_last());
        match (stream_course(run, steps.drop_last()).phase, steps.last().0) {
            (StreamPhase::Reading, Happening::Read(data)) => before.push(data),
            _ => before,
        }
    }
}

/// Whether the reads so far tell whether the file is at its end: the last one gave
/// nothing, or all gave something.
spec fn reads_agree(reads: Seq<Seq<u8>>, file_done: bool) -> bool {
    if file_done {
        reads.len() > 0 && reads.last().len() == 0 && forall|i: int|
            0 <= i < reads.len() - 1 ==> (#[trigger] reads[i]).len() > 0
    } else {
        forall|i: int| 0 <= i < reads.len() ==> (#[trigger] reads[i]).len() > 0
    }
}

proof fn lemma_window_reads(run: WindowLoop, steps: Seq<(Happening, Seen)>)
    requires
        run.phase is Turn,
        !run.sender.file_done,
    ensures
        ({
            let after = window_course(run, steps);
            &&& reads_agree(window_reads(run, steps), after.sender.file_done)
            &&& after.phase is Reading ==> !after.sender.file_done
            &&& after.phase is Concluding ==> after.sender.file_done
        }),
    decreases steps.len(),
{
    if steps.len() > 0 {
        lemma_window_reads(run, steps.drop_last());
        let reads = window_reads(run, steps.drop_last());
        let now = window_reads(run, steps);
        if now.len() > reads.len() {
            assert(now.drop_last() =~= reads);
            assert forall|i: int| 0 <= i < reads.len() implies (#[trigger] now[i]).len() > 0 by {
                assert(now[i] == reads[i]);
            }
        }
    }
}

proof fn lemma_stream_reads(run: StreamLoop, steps: Seq<(Happening, Seen)>)
    requires
        run.phase is Turn,
        !run.sender.file_done,
    ensures
        ({
            let after = stream_course(run, steps);
            &&& reads_agree(stream_reads(run, steps), after.sender.file_done)
            &&& after.phase is Reading ==> !after.sender.file_done
            &&& after.phase is Concluding ==> after.sender.file_done
        }),
    decreases steps.len(),
{
    if steps.len() > 0 {
        lemma_stream_reads(run, steps.drop_last());
        let reads = stream_reads(run, steps.drop_last());
        let now = stream_reads(run, steps);
        if now.len() > reads.len() {
            assert(now.drop_last() =~= reads);
            assert forall|i: int| 0 <= i < reads.len() implies (#[trigger] now[i]).len() > 0 by {
                assert(now[i] == reads[i]);
            }
        }
    }
}

proof fn lemma_reads_cover(reads: Seq<Seq<u8>>, offset: u64, file_size: u64)
    requires
        reads_agree(reads, true),
        reads_of_file(reads, offset, file_size),
    ensures
        offset + joined(reads).len() == file_size,
{
    let n = reads.len() as int - 1;
    assert(reads[n].len() == 0);
    assert(reads.take(n) =~= reads.drop_last());
    assert(joined(reads) =~= joined(reads.drop_last()) + reads.last());
}

/// A sender over a window reads its file to the end: one that starts before the end wants
/// data, and goes on so until a read has given nothing. It concludes only after that, so
/// what it has read reaches from where it started to the end of the file.
pub proof fn law_window_reads_to_the_end(
    file_size: u64,
    window_size: usize,
    sequence_no: u32,
    resume_bytes: u64,
    seen: Seen,
    steps: Seq<(Happening, Seen)>,
)
    requires
        resume_bytes < file_size,
    ensures
        ({
            let start = WindowRun {
                sender: windowed_start(
                    file_size,
                    window_size,
                    sequence_no,
                    resume_bytes,
                    seen.now_ns,
                    seen.now_ms,
                ),
                phase: WindowPhase::Turn,
                turn_ms: seen.now_ms,
            };
            let after = window_course(start, steps);
            let reads = window_reads(start, steps);
            &&& !start.sender.file_done
            &&& after.sender.file_done <==> exists|i: int|
                0 <= i < reads.len() && (#[trigger] reads[i]).len() == 0
            &&& after.phase is Concluding ==> reads.len() > 0 && reads.last().len() == 0
            &&& after.phase is Concluding && reads_of_file(reads, resume_bytes, file_size)
                ==> resume_bytes + joined(reads).len() == file_size
        }),
{
    let start = WindowRun {
        sender: windowed_start(
            file_size,
            window_size,
            sequence_no,
            resume_bytes,
            seen.now_ns,
            seen.now_ms,
        ),
        phase: WindowPhase::Turn,
        turn_ms: seen.now_ms,
    };
    lemma_window_reads(start, steps);
    let reads = window_reads(start, steps);
    if window_course(start, steps).sender.file_done {
        assert(reads[reads.len() - 1].len() == 0);
        if reads_of_file(reads, resume_bytes, file_size) {
            lemma_reads_cover(reads, resume_bytes, file_size);
        }
    }
}

/// A streaming sender reads its file to the end in the same way.
pub proof fn law_stream_reads_to_the_end(
    file_size: u64,
    sequence_no: u32,
    resume_bytes: u64,
    seen: Seen,
    steps: Seq<(Happening, Seen)>,
)
    requires
        resume_bytes < file_size,
    ensures
        ({
            let start = StreamRun {
                sender: streaming_start(
                    file_size,
                    sequence_no,
                    resume_bytes,
                    seen.now_ns,
                    seen.now_ms,
                ),
                phase: StreamPhase::Turn,
            };
            let after = stream_course(start, steps);
            let reads = stream_reads(start, steps);
            &&& !start.sender.file_done
            &&& after.sender.file_done <==> exists|i: int|
                0 <= i < reads.len() && (#[trigger] reads[i]).len() == 0
            &&& after.phase is Concluding ==> reads.len() > 0 && reads.last().len() == 0
            &&& after.phase is Concluding && reads_of_file(reads, resume_bytes, file_size)
                ==> resume_bytes + joined(reads).len() == file_size
        }),
{
    let start = StreamRun {
        sender: streaming_start(file_size, sequence_no, resume_bytes, seen.now_ns, seen.now_ms),
        phase: StreamPhase::Turn,
    };
    lemma_stream_reads(start, steps);
    let reads = stream_reads(start, steps);
    if stream_course(start, steps).sender.file_done {
        assert(reads[reads.len() - 1].len() == 0);
        if reads_of_file(reads, resume_bytes, file_size) {
            lemma_reads_cover(reads, resume_bytes, file_size);
        }
    }
}

/// A sender whose receiver has the whole file reads nothing.
pub proof fn law_whole_files_are_not_read(
    file_size: u64,
    window_size: usize,
    sequence_no: u32,
    resume_bytes: u64,
    seen: Seen,
)
    ensures
        windowed_start(
            file_size,
            window_size,
            sequence_no,
            resume_bytes,
            seen.now_ns,
            seen.now_ms,
        ).file_done <==> resume_bytes >= file_size,
        streaming_start(
            file_size,
            sequence_no,
            resume_bytes,
            seen.now_ns,
            seen.now_ms,
        ).file_done <==> resume_bytes >= file_size,
{
}

/// A sender starts with what the receiver has as acknowledged, with nothing outstanding
/// and with the sequence number that the receiver waits for.
pub proof fn law_senders_start_where_the_receiver_is(
    file_size: u64,
    window_size: usize,
    sequence_no: u32,
    resume_bytes: u64,
    seen: Seen,
)
    ensures
        ({
            let windowed = windowed_start(
                file_size,
                window_size,
                sequence_no,
                resume_bytes,
                seen.now_ns,
                seen.now_ms,
            );
            let streaming = streaming_start(
                file_size,
                sequence_no,
                resume_bytes,
                seen.now_ns,
                seen.now_ms,
            );
            &&& windowed.file_size == file_size
            &&& windowed.window_size == window_size
            &&& windowed.sequence_no == sequence_no
            &&& windowed.bytes_acked == resume_bytes
            &&& windowed.outstanding.len() == 0
            &&& windowed.last_inbound_ns == seen.now_ns
            &&& windowed.last_progress_ns is None
            &&& !windowed.progress_dirty
            &&& windowed.acks_recv == 0
            &&& windowed.data_sent == 0
            &&& windowed.diag_last_ms == seen.now_ms
            &&& streaming.file_size == file_size
            &&& streaming.sequence_no == sequence_no
            &&& streaming.bytes_acked == resume_bytes
            &&& streaming.bytes_sent == resume_bytes
            &&& streaming.outstanding.len() == 0
            &&& streaming.last_inbound_ns == seen.now_ns
            &&& streaming.last_finish_ns == seen.now_ns
            &&& streaming.last_progress_ns is None
            &&& !streaming.finish_sent
            &&& streaming.bytes_since_poll == 0
            &&& streaming.acks_recv == 0
            &&& streaming.data_sent == 0
            &&& streaming.diag_last_ms == seen.now_ms
        }),
{
}

/// A streaming sender that hears nothing gives up: where it has bytes that are not
/// acknowledged and has heard nothing for thirty seconds, its turn ends with the transfer
/// stalled, whether or not the file is at its end. Where less time has passed, or
/// everything is acknowledged, nothing fails.
pub proof fn law_stalled_stream_fails(run: StreamLoop, seen: Seen)
    requires
        run.phase is Reporting,
    ensures
        ({
            let state = run.sender;
            let actions = performed(stream_step(run, Happening::Done, seen).1);
            let complete = state.file_done && state.bytes_acked >= state.file_size;
            let waits = if state.file_done {
                state.bytes_acked < state.file_size
            } else {
                state.bytes_acked < state.bytes_sent
            };
            let silent = seen.now_ns - state.last_inbound_ns >= 30_000_000_000;
            &&& !complete && waits && silent ==> actions.len() > 0 && actions.last() == Act::Fail(
                AppError::Stalled(
                    if state.file_done {
                        "no cumulative ACK from receiver for 30s ("@ + decimal(
                            state.bytes_acked as nat,
                        ) + " of "@ + decimal(state.file_size as nat) + " bytes acknowledged)"@
                    } else {
                        "no packets from receiver for 30s ("@ + decimal(
                            (state.bytes_sent - state.bytes_acked) as nat,
                        ) + " bytes unacknowledged)"@
                    },
                ),
            )
            &&& !silent ==> !fails(actions)
            &&& !waits ==> !fails(actions)
        }),
{
}

/// A streaming sender tells the receiver again that the file is at its end, every five
/// seconds until everything is acknowledged, and not more often. Nothing else is sent at
/// the end of a turn.
pub proof fn law_finish_is_told_again(run: StreamLoop, seen: Seen)
    requires
        run.phase is Reporting,
    ensures
        ({
            let state = run.sender;
            let step = stream_step(run, Happening::Done, seen);
            let actions = performed(step.1);
            let again = state.file_done && state.bytes_acked < state.file_size && seen.now_ns
                - state.last_finish_ns >= 5_000_000_000;
            &&& again ==> {
                &&& actions.len() > 0
                &&& actions[0] == Act::SendIfPossible(
                    Packet {
                        packet_type: PacketType::Finish,
                        sequence_no: state.sequence_no,
                        payload: Seq::<u8>::empty(),
                    },
                )
                &&& step.0.sender.last_finish_ns == seen.now_ns
                &&& sends_nothing(actions.skip(1))
            }
            &&& !again ==> sends_nothing(actions) && step.0.sender.last_finish_ns
                == state.last_finish_ns
            &&& step.0.sender == (StreamingSend {
                last_finish_ns: step.0.sender.last_finish_ns,
                ..state
            })
        }),
{
}

/// A streaming sender is complete exactly once the file is at its end and every byte of
/// it is acknowledged; then the user is told how far it has come, and it is finished.
/// Else the next turn starts.
pub proof fn law_stream_concludes_when_acknowledged(run: StreamLoop, seen: Seen, later: Seen)
    requires
        run.phase is Reporting,
    ensures
        ({
            let state = run.sender;
            let step = stream_step(run, Happening::Done, seen);
            let next = stream_step(step.0, Happening::Done, later);
            let complete = state.file_done && state.bytes_acked >= state.file_size;
            &&& step.1 is Perform
            &&& complete ==> {
                &&& step.0.phase is Concluding
                &&& reports(performed(step.1))
                &&& sends_nothing(performed(step.1))
                &&& !fails(performed(step.1))
                &&& next.1 is Finished
            }
            &&& !complete ==> step.0.phase is Turn && next.1 !is Finished
        }),
{
    let step = stream_step(run, Happening::Done, seen);
    if step.0.phase is Concluding {
        assert(progress_in(performed(step.1)[1]) is Some);
    }
}

/// Nothing but that end of a turn finishes a streaming sender.
pub proof fn law_stream_finishes_only_when_complete(run: StreamLoop, event: Happening, seen: Seen)
    ensures
        stream_step(run, event, seen).0.phase is Concluding && run.phase !is Concluding
            ==> run.phase is Reporting && run.sender.file_done && run.sender.bytes_acked
            >= run.sender.file_size,
        stream_step(run, event, seen).1 is Finished ==> run.phase is Concluding,
{
}

/// What a streaming sender tells of its progress is true at every step: the bytes are
/// those that are acknowledged, and never more than the file is long.
pub proof fn law_streamed_progress_is_true(run: StreamLoop, event: Happening, seen: Seen)
    ensures
        ({
            let step = stream_step(run, event, seen);
            reports_truly(
                performed(step.1),
                TransferDirection::Send,
                step.0.sender.bytes_acked,
                step.0.sender.file_size,
            )
        }),
{
}

/// What a sender over a window tells of its progress is true in the same way.
pub proof fn law_windowed_progress_is_true(run: WindowLoop, event: Happening, seen: Seen)
    ensures
        ({
            let step = window_step(run, event, seen);
            reports_truly(
                performed(step.1),
                TransferDirection::Send,
                step.0.sender.bytes_acked,
                step.0.sender.file_size,
            )
        }),
{
}

/// An acknowledgement is told of in time: if nothing was told yet, if a tenth of a second
/// has passed since, or if every byte of the file is acknowledged.
pub proof fn law_streamed_progress_is_told_in_time(
    run: StreamLoop,
    packet: Packet<Seq<u8>>,
    seen: Seen,
)
    requires
        run.phase is Receiving,
        packet.packet_type is Ack,
    ensures
        ({
            let step = stream_step(run, Happening::Packet(packet), seen);
            let owed = match run.sender.last_progress_ns {
                None => true,
                Some(last) => seen.now_ns - last >= 100_000_000,
            } || step.0.sender.bytes_acked >= run.sender.file_size;
            &&& reports(performed(step.1)) == owed
            &&& performed(step.1).len() <= 1
            &&& step.0.sender.last_progress_ns == if owed {
                Some(seen.now_ns)
            } else {
                run.sender.last_progress_ns
            }
        }),
{
    let step = stream_step(run, Happening::Packet(packet), seen);
    if performed(step.1).len() > 0 {
        assert(progress_in(performed(step.1)[0]) is Some);
    }
}

/// A sender over a window tells of new acknowledgements in time in the same way, each
/// time that it finds no more packets.
pub proof fn law_windowed_progress_is_told_in_time(run: WindowLoop, seen: Seen)
    requires
        run.phase is Receiving,
    ensures
        ({
            let step = window_step(run, Happening::Nothing, seen);
            let owed = run.sender.progress_dirty && (match run.sender.last_progress_ns {
                None => true,
                Some(last) => seen.now_ns - last >= 100_000_000,
            } || run.sender.bytes_acked >= run.sender.file_size);
            &&& step.0.phase is Telling
            &&& step.1 is Perform
            &&& reports(performed(step.1)) == owed
            &&& performed(step.1).len() <= 1
            &&& owed ==> step.0.sender == (WindowedSend {
                progress_dirty: false,
                last_progress_ns: Some(seen.now_ns),
                ..run.sender
            })
            &&& !owed ==> step.0.sender == run.sender && performed(step.1).len() == 0
        }),
{
    let step = window_step(run, Happening::Nothing, seen);
    if performed(step.1).len() > 0 {
        assert(progress_in(performed(step.1)[0]) is Some);
    }
}

/// A filtered list holds exactly the entries that the rule picks.
proof fn lemma_filter_holds(list: Unacked, rule: spec_fn((u32, usize)) -> bool)
    ensures
        forall|e: (u32, usize)| #[trigger]
            list.filter(rule).contains(e) <==> list.contains(e) && rule(e),
        list.filter(rule).len() <= list.len(),
    decreases list.len(),
{
    reveal(Seq::filter);
    if list.len() > 0 {
        let shorter = list.drop_last();
        lemma_filter_holds(shorter, rule);
        assert forall|e: (u32, usize)| #[trigger]
            list.filter(rule).contains(e) <==> list.contains(e) && rule(e) by {
            lemma_last_or_before(list, e);
            if rule(list.last()) {
                let kept = list.filter(rule);
                assert(kept == shorter.filter(rule).push(list.last()));
                assert(kept.drop_last() =~= shorter.filter(rule));
                lemma_last_or_before(kept, e);
            }
        }
    } else {
        assert(list.filter(rule).len() == 0);
    }
}

proof fn lemma_last_or_before(list: Unacked, e: (u32, usize))
    requires
        list.len() > 0,
    ensures
        list.contains(e) <==> list.drop_last().contains(e) || list.last() == e,
{
    if list.contains(e) {
        let i = choose|i: int| 0 <= i < list.len() && list[i] == e;
        if i < list.len() - 1 {
            assert(list.drop_last()[i] == e);
        }
    }
    if list.drop_last().contains(e) {
        let i = choose|i: int| 0 <= i < list.len() - 1 && list.drop_last()[i] == e;
        assert(list[i] == e);
    }
    assert(list[list.len() - 1] == list.last());
}

/// An acknowledgement of a stream covers everything up to its number and nothing after
/// it: what is then outstanding is exactly what was and has a greater number. Any packet
/// shows that the receiver is there, and no other packet acknowledges anything.
pub proof fn law_stream_acknowledgement_covers_up_to_its_number(
    run: StreamLoop,
    packet: Packet<Seq<u8>>,
    seen: Seen,
)
    requires
        run.phase is Receiving,
    ensures
        ({
            let before = run.sender;
            let step = stream_step(run, Happening::Packet(packet), seen);
            let after = step.0.sender;
            &&& after.last_inbound_ns == seen.now_ns
            &&& packet.packet_type is Ack ==> {
                &&& forall|e: (u32, usize)| #[trigger]
                    after.outstanding.contains(e) <==> before.outstanding.contains(e) && e.0
                        > packet.sequence_no
                &&& before.acks_recv < u64::MAX ==> after.acks_recv == before.acks_recv + 1
            }
            &&& packet.packet_type !is Ack ==> {
                &&& after.outstanding == before.outstanding
                &&& after.bytes_acked == before.bytes_acked
                &&& after.acks_recv == before.acks_recv
                &&& after.last_progress_ns == before.last_progress_ns
            }
            &&& after == (StreamingSend {
                outstanding: after.outstanding,
                bytes_acked: after.bytes_acked,
                acks_recv: after.acks_recv,
                last_inbound_ns: after.last_inbound_ns,
                last_progress_ns: after.last_progress_ns,
                ..before
            })
        }),
{
    let before = run.sender;
    let after = stream_step(run, Happening::Packet(packet), seen).0.sender;
    if packet.packet_type is Ack {
        lemma_filter_holds(
            before.outstanding,
            crate::app::outstanding::after(packet.sequence_no),
        );
        assert(after.outstanding == before.outstanding.filter(
            crate::app::outstanding::after(packet.sequence_no),
        ));
    }
}

/// An acknowledgement over a window is of its very number: that packet is no longer
/// outstanding, and every other one that was still is. Any packet shows that the receiver
/// is there, and no other packet acknowledges anything.
pub proof fn law_window_acknowledgement_is_of_its_number(
    run: WindowLoop,
    packet: Packet<Seq<u8>>,
    seen: Seen,
)
    requires
        run.phase is Receiving,
    ensures
        ({
            let before = run.sender;
            let step = window_step(run, Happening::Packet(packet), seen);
            let after = step.0.sender;
            &&& after.last_inbound_ns == seen.now_ns
            &&& packet.packet_type is Ack ==> {
                &&& forall|e: (u32, usize)| #[trigger]
                    after.outstanding.contains(e) <==> before.outstanding.contains(e) && e.0
                        != packet.sequence_no
                &&& before.acks_recv < u64::MAX ==> after.acks_recv == before.acks_recv + 1
                &&& (exists|e: (u32, usize)| #[trigger]
                    before.outstanding.contains(e) && e.0 == packet.sequence_no)
                    ==> after.progress_dirty
                &&& !(exists|e: (u32, usize)| #[trigger]
                    before.outstanding.contains(e) && e.0 == packet.sequence_no)
                    ==> after.progress_dirty == before.progress_dirty && after.bytes_acked
                    == before.bytes_acked
            }
            &&& packet.packet_type !is Ack ==> {
                &&& after.outstanding == before.outstanding
                &&& after.bytes_acked == before.bytes_acked
                &&& after.acks_recv == before.acks_recv
                &&& after.progress_dirty == before.progress_dirty
            }
            &&& after == (WindowedSend {
                outstanding: after.outstanding,
                bytes_acked: after.bytes_acked,
                acks_recv: after.acks_recv,
                last_inbound_ns: after.last_inbound_ns,
                progress_dirty: after.progress_dirty,
                ..before
            })
        }),
{
    let before = run.sender;
    let after = window_step(run, Happening::Packet(packet), seen).0.sender;
    if packet.packet_type is Ack {
        let number = packet.sequence_no;
        let settled = before.outstanding.filter(crate::app::outstanding::just(number));
        lemma_filter_holds(before.outstanding, crate::app::outstanding::but(number));
        lemma_filter_holds(before.outstanding, crate::app::outstanding::just(number));
        if settled.len() > 0 {
            assert(settled.contains(settled[0]));
        }
        if exists|e: (u32, usize)| #[trigger] before.outstanding.contains(e) && e.0 == number {
            let e = choose|e: (u32, usize)| #[trigger]
                before.outstanding.contains(e) && e.0 == number;
            assert(settled.contains(e));
        }
    }
}

/// What a chunk does to a streaming sender: it is outstanding under the number that it was
/// sent under, it counts as sent, and the next number is the next one. A read of nothing
/// only marks the end of the file.
pub proof fn law_chunk_is_recorded(run: StreamLoop, data: Seq<u8>, seen: Seen)
    requires
        run.phase is Reading,
        data.len() <= usize::MAX,
        run.sender.sequence_no < u32::MAX,
        forall|e: (u32, usize)| #[trigger]
            run.sender.outstanding.contains(e) ==> e.0 < run.sender.sequence_no,
    ensures
        ({
            let before = run.sender;
            let step = stream_step(run, Happening::Read(data), seen);
            let after = step.0.sender;
            &&& step.0.phase is Sending
            &&& data.len() == 0 ==> after.file_done && after.outstanding == before.outstanding
                && after.sequence_no == before.sequence_no && after.bytes_sent == before.bytes_sent
                && after.bytes_since_poll == before.bytes_since_poll && after.data_sent
                == before.data_sent
            &&& data.len() > 0 ==> {
                &&& after.outstanding == before.outstanding.push(
                    (before.sequence_no, data.len() as usize),
                )
                &&& after.sequence_no == before.sequence_no + 1
                &&& before.bytes_sent + data.len() <= u64::MAX ==> after.bytes_sent
                    == before.bytes_sent + data.len()
                &&& before.bytes_since_poll + data.len() <= u64::MAX ==> after.bytes_since_poll
                    == before.bytes_since_poll + data.len()
                &&& before.data_sent < u64::MAX ==> after.data_sent == before.data_sent + 1
                &&& after.file_done == before.file_done
            }
            &&& after.bytes_acked == before.bytes_acked
            &&& after.last_inbound_ns == before.last_inbound_ns
            &&& after.last_progress_ns == before.last_progress_ns
            &&& after.last_finish_ns == before.last_finish_ns
            &&& after.file_size == before.file_size
            &&& after.acks_recv == before.acks_recv
            &&& after.diag_last_ms == before.diag_last_ms
        }),
{
    let before = run.sender;
    if before.outstanding.len() > 0 {
        assert(before.outstanding.contains(before.outstanding.last())) by {
            assert(before.outstanding[before.outstanding.len() - 1] == before.outstanding.last());
        }
    }
}

/// What a chunk does to a sender over a window.
pub proof fn law_windowed_chunk_is_recorded(run: WindowLoop, data: Seq<u8>, seen: Seen)
    requires
        run.phase is Reading,
        data.len() <= usize::MAX,
        run.sender.sequence_no < u32::MAX,
        forall|e: (u32, usize)| #[trigger]
            run.sender.outstanding.contains(e) ==> e.0 < run.sender.sequence_no,
    ensures
        ({
            let before = run.sender;
            let step = window_step(run, Happening::Read(data), seen);
            let after = step.0.sender;
            &&& data.len() == 0 ==> step.0.phase is Receiving && step.1 is Receive && after == (
            WindowedSend { file_done: true, ..before })
            &&& data.len() > 0 ==> {
                &&& step.0.phase is Filling
                &&& step.1 == Wish::Enqueue(
                    Packet {
                        packet_type: PacketType::Data,
                        sequence_no: before.sequence_no,
                        payload: data,
                    },
                )
                &&& after == (WindowedSend {
                    outstanding: before.outstanding.push((before.sequence_no, data.len() as usize)),
                    sequence_no: (before.sequence_no + 1) as u32,
                    ..before
                })
            }
        }),
{
    let before = run.sender;
    if before.outstanding.len() > 0 {
        assert(before.outstanding.contains(before.outstanding.last())) by {
            assert(before.outstanding[before.outstanding.len() - 1] == before.outstanding.last());
        }
    }
}

/// The receiver of a stream is told once that the file is at its end, as soon as that is
/// known and behind the last chunk: the number is the one after all that was sent. Every
/// step that sends tells it exactly if it was not told before.
pub proof fn law_finish_is_told_once(run: StreamLoop, event: Happening, seen: Seen)
    requires
        run.phase is Turn && event is Done && !seen.cancelled || run.phase is Reading
            && event is Read,
    ensures
        ({
            let step = stream_step(run, event, seen);
            let after = step.0.sender;
            let sent = packets_sent(performed(step.1));
            let data = if event is Read && event->Read_0.len() > 0 {
                seq![
                    Packet {
                        packet_type: PacketType::Data,
                        sequence_no: run.sender.sequence_no,
                        payload: event->Read_0,
                    },
                ]
            } else {
                Seq::empty()
            };
            let finish = seq![
                Packet {
                    packet_type: PacketType::Finish,
                    sequence_no: after.sequence_no,
                    payload: Seq::<u8>::empty(),
                },
            ];
            &&& sent == data + if after.file_done && !run.sender.finish_sent {
                finish
            } else {
                Seq::empty()
            }
            &&& after.finish_sent == (run.sender.finish_sent || after.file_done)
        }),
{
    let step = stream_step(run, event, seen);
    let actions = performed(step.1);
    lemma_none_sent(Seq::empty());
    if actions.len() == 0 {
        assert(actions =~= Seq::empty());
    } else if actions.len() == 1 {
        let one = actions[0]->Send_0;
        assert(actions =~= seq![Act::Send(one)]);
        lemma_one_sent(one);
    } else {
        let one = actions[0]->Send_0;
        let two = actions[1]->Send_0;
        assert(actions =~= seq![Act::Send(one)] + seq![Act::Send(two)]);
        lemma_one_sent(one);
        lemma_one_sent(two);
        lemma_sent_join(seq![Act::Send(one)], seq![Act::Send(two)]);
    }
}

/// A streaming sender that is not cancelled reads on until its file is at its end. It then
/// looks for packets after every mebibyte that it has sent, and at the end of the file at
/// once, until there is none or everything is acknowledged.
pub proof fn law_stream_reads_on_and_looks(run: StreamLoop, seen: Seen)
    ensures
        run.phase is Turn && !seen.cancelled && !run.sender.file_done ==> {
            let step = stream_step(run, Happening::Done, seen);
            step.1 is Read && step.0.phase is Reading && step.0.sender == run.sender
        },
        run.phase is Turn && !seen.cancelled && run.sender.file_done ==> stream_step(
            run,
            Happening::Done,
            seen,
        ).0.phase is Sending,
        run.phase is Sending ==> {
            let step = stream_step(run, Happening::Done, seen);
            let complete = run.sender.file_done && run.sender.bytes_acked >= run.sender.file_size;
            let looks = run.sender.file_done || run.sender.bytes_since_poll >= 1_048_576;
            &&& step.1 is Receive <==> looks && !complete
            &&& step.1 is Receive ==> step.0.phase is Receiving
            &&& step.1 !is Receive ==> step.0.phase is Logging
            &&& looks ==> step.0.sender.bytes_since_poll == 0
            &&& !looks ==> step.0.sender.bytes_since_poll == run.sender.bytes_since_poll
            &&& step.0.sender == (StreamingSend {
                bytes_since_poll: step.0.sender.bytes_since_poll,
                diag_last_ms: step.0.sender.diag_last_ms,
                ..run.sender
            })
        },
        run.phase is Reacting ==> {
            let step = stream_step(run, Happening::Done, seen);
            let complete = run.sender.file_done && run.sender.bytes_acked >= run.sender.file_size;
            &&& step.1 is Receive <==> !complete
            &&& step.1 is Receive ==> step.0.phase is Receiving && step.0.sender == run.sender
            &&& step.1 !is Receive ==> step.0.phase is Logging
        },
        run.phase is Receiving ==> stream_step(run, Happening::Nothing, seen).0.phase is Logging,
        run.phase is Logging ==> stream_step(run, Happening::Done, seen) == (
            StreamRun { phase: StreamPhase::Reporting, ..run },
            Wish::Diagnostics,
        ),
{
}

/// A peer that closes has declined: the reason is told as it came, and the transfer has
/// failed with what it means. Every other packet leaves the transfer going.
pub proof fn law_closing_receiver_ends_the_stream(
    run: StreamLoop,
    packet: Packet<Seq<u8>>,
    seen: Seen,
)
    requires
        run.phase is Receiving,
    ensures
        ({
            let step = stream_step(run, Happening::Packet(packet), seen);
            &&& step.0.phase is Reacting
            &&& step.1 is Perform
            &&& packet.packet_type is Close ==> is_declined(
                performed(step.1),
                lossy(packet.payload),
            )
            &&& packet.packet_type !is Close ==> !fails(performed(step.1))
            &&& sends_nothing(performed(step.1))
        }),
{
    lemma_rejection_means(lossy(packet.payload));
}

/// Whether a script tells that the peer has declined for a reason, and fails with what
/// that means.
pub open spec fn is_declined(actions: Seq<Act>, reason: Seq<char>) -> bool {
    &&& actions.len() == 2
    &&& actions[0] == Act::Emit(
        PlenumEvent::Transfer(
            TransferEvent::Declined { direction: TransferDirection::Send, reason },
        ),
    )
    &&& actions[1] matches Action::Fail(AppError::Rejected(message)) && means(message, reason)
}

/// Over a window every packet of the receiver is handed to the window as it came, but for
/// those that mean nothing to it and for one that closes, which ends the transfer.
pub proof fn law_answers_reach_the_window(run: WindowLoop, packet: Packet<Seq<u8>>, seen: Seen)
    requires
        run.phase is Receiving,
    ensures
        ({
            let step = window_step(run, Happening::Packet(packet), seen);
            &&& packet.packet_type is Ack ==> step.1 == Wish::Control(packet)
                && step.0.phase is Handling
            &&& packet.packet_type is Accept || packet.packet_type is Resume
                || packet.packet_type is Auth ==> step.1 is Receive && step.0.phase is Receiving
            &&& packet.packet_type is Start || packet.packet_type is Data
                || packet.packet_type is Finish ==> step.1 == Wish::Control(packet)
                && step.0.phase is Handling
            &&& packet.packet_type is Close ==> step.0.phase is Ending && is_declined(
                performed(step.1),
                lossy(packet.payload),
            )
        }),
{
    lemma_rejection_means(lossy(packet.payload));
}

/// A sender over a window that hears nothing gives up: where the window still holds
/// something and nothing was heard for thirty seconds, the transfer has stalled. Where
/// less time has passed, or the window is empty, nothing fails.
pub proof fn law_stalled_window_fails(run: WindowLoop, seen: Seen)
    requires
        run.phase is Reporting,
    ensures
        ({
            let step = window_step(run, Happening::Done, seen);
            let actions = performed(step.1);
            let silent = seen.now_ns - run.sender.last_inbound_ns >= 30_000_000_000;
            &&& silent && !seen.window_empty ==> step.0.phase is Ending && actions.len() == 1
                && actions[0] == Act::Fail(
                AppError::Stalled(
                    "no packets from receiver for 30s ("@ + decimal(seen.in_flight as nat)
                        + " in flight, "@ + decimal(seen.pending as nat) + " pending)"@,
                ),
            )
            &&& !seen.cancelled && (!silent || seen.window_empty) ==> !fails(actions)
        }),
{
}

/// A sender over a window concludes exactly once its file is at its end and the window
/// holds nothing; progress that was not told is then told, and it is finished.
pub proof fn law_window_concludes_when_empty(run: WindowLoop, seen: Seen, later: Seen)
    requires
        run.phase is Reporting,
    ensures
        ({
            let step = window_step(run, Happening::Done, seen);
            let next = window_step(step.0, Happening::Done, later);
            let complete = run.sender.file_done && seen.window_empty;
            &&& complete <==> step.0.phase is Concluding
            &&& complete ==> {
                &&& step.1 is Perform
                &&& reports(performed(step.1)) == run.sender.progress_dirty
                &&& sends_nothing(performed(step.1))
                &&& !fails(performed(step.1))
                &&& step.0.sender == run.sender
                &&& next.1 is Finished
            }
        }),
{
    let step = window_step(run, Happening::Done, seen);
    if step.0.phase is Concluding && run.sender.progress_dirty {
        assert(progress_in(performed(step.1)[0]) is Some);
    }
}

/// One turn of a sender over a window: the file is read while it is not at its end and
/// fewer packets wait than twice the window, then packets are looked for until there is
/// none, then the window sends what is due at the time of day of the turn, and the state
/// is logged.
pub proof fn law_window_turn_goes_round(run: WindowLoop, seen: Seen, sent: usize)
    ensures
        run.phase is Turn && !seen.cancelled || run.phase is Filling ==> {
            let step = window_step(run, Happening::Done, seen);
            let reads = !run.sender.file_done && seen.pending < 2 * run.sender.window_size;
            &&& reads ==> step.1 is Read && step.0.phase is Reading
            &&& !reads ==> step.1 is Receive && step.0.phase is Receiving
            &&& step.0.sender == run.sender
            &&& step.0.turn_ms == if run.phase is Turn {
                seen.now_ms
            } else {
                run.turn_ms
            }
        },
        run.phase is Handling ==> window_step(run, Happening::Done, seen) == (
            WindowRun { phase: WindowPhase::Receiving, ..run },
            Wish::Receive,
        ),
        run.phase is Telling ==> window_step(run, Happening::Done, seen) == (
            WindowRun { phase: WindowPhase::Sending, ..run },
            Wish::SendWindow { now_ms: run.turn_ms },
        ),
        run.phase is Sending ==> {
            let step = window_step(run, Happening::Sent(sent), seen);
            &&& step.0.phase is Logging
            &&& step.1 is Perform
            &&& run.sender.data_sent + sent <= u64::MAX ==> step.0.sender.data_sent
                == run.sender.data_sent + sent
            &&& run.turn_ms - run.sender.diag_last_ms >= 1000 ==> step.0.sender.diag_last_ms
                == run.turn_ms && performed(step.1).len() == 1
            &&& run.turn_ms - run.sender.diag_last_ms < 1000 ==> step.0.sender.diag_last_ms
                == run.sender.diag_last_ms && performed(step.1).len() == 0
            &&& step.0.sender == (WindowedSend {
                data_sent: step.0.sender.data_sent,
                diag_last_ms: step.0.sender.diag_last_ms,
                ..run.sender
            })
        },
        run.phase is Logging ==> window_step(run, Happening::Done, seen) == (
            WindowRun { phase: WindowPhase::Reporting, ..run },
            Wish::Diagnostics,
        ),
        run.phase is Reporting && !seen.cancelled && !(run.sender.file_done && seen.window_empty)
            && (seen.window_empty || seen.now_ns - run.sender.last_inbound_ns < 30_000_000_000)
            ==> window_step(run, Happening::Done, seen) == window_step(WindowRun { phase: WindowPhase::Turn, ..run }, Happening::Done, seen),
{
}

/// Whether a script tells a receiver that the transfer is cancelled, tells the user, and
/// fails with that.
pub open spec fn is_cancelled(actions: Seq<Act>, sequence_no: u32) -> bool {
    &&& actions.len() == 4
    &&& actions[0] == Act::TrySend(
        Packet {
            packet_type: PacketType::Close,
            sequence_no,
            payload: "cancelled".spec_bytes(),
        },
    )
    &&& actions[1] is TryClose
    &&& actions[2] == Act::Emit(
        PlenumEvent::Transfer(TransferEvent::Cancelled { direction: TransferDirection::Send }),
    )
    &&& actions[3] == Act::Fail(AppError::Cancelled)
}

/// A sender whose session is cancelled stops at the start of its next turn, in either
/// mode, and tells the receiver and the user.
pub proof fn law_cancelled_senders_tell_everybody(
    stream: StreamLoop,
    window: WindowLoop,
    seen: Seen,
)
    requires
        seen.cancelled,
        stream.phase is Turn,
        window.phase is Turn || (window.phase is Reporting && !(window.sender.file_done
            && seen.window_empty) && (seen.window_empty || seen.now_ns
            - window.sender.last_inbound_ns < 30_000_000_000)),
    ensures
        ({
            let one = stream_step(stream, Happening::Done, seen);
            let two = window_step(window, Happening::Done, seen);
            &&& one.0.phase is Ending
            &&& is_cancelled(performed(one.1), stream.sender.sequence_no)
            &&& two.0.phase is Ending
            &&& is_cancelled(performed(two.1), window.sender.sequence_no)
        }),
{
}

/// A connection that fails, or a frame that is no packet, fails the transfer with that very
/// error, in either mode.
pub proof fn law_broken_connections_fail_senders(
    stream: StreamLoop,
    window: WindowLoop,
    event: Happening,
    seen: Seen,
)
    requires
        stream.phase is Receiving,
        window.phase is Receiving,
    ensures
        event matches Happening::RecvFailed { closed, error } ==> {
            let failed = Wish::Perform(seq![Act::Fail(AppError::Transport(error))]);
            &&& stream_step(stream, event, seen).1 == failed
            &&& stream_step(stream, event, seen).0.phase is Ending
            &&& window_step(window, event, seen).1 == failed
            &&& window_step(window, event, seen).0.phase is Ending
        },
        event matches Happening::Garbled(reason) ==> {
            let failed = Wish::Perform(seq![Act::Fail(AppError::Protocol(reason))]);
            &&& stream_step(stream, event, seen).1 == failed
            &&& stream_step(stream, event, seen).0.phase is Ending
            &&& window_step(window, event, seen).1 == failed
            &&& window_step(window, event, seen).0.phase is Ending
        },
{
}

/// A driver that tells of something else than it was asked for ends the transfer with an
/// error, in either mode, and changes nothing of what was sent.
pub proof fn law_senders_out_of_step_fail(
    stream: StreamLoop,
    window: WindowLoop,
    event: Happening,
    seen: Seen,
)
    ensures
        ({
            let awaited = match stream.phase {
                StreamPhase::Reading => event is Read,
                StreamPhase::Receiving => event is Packet || event is Garbled || event is Nothing
                    || event is RecvFailed,
                StreamPhase::Ending => false,
                _ => event is Done,
            };
            let step = stream_step(stream, event, seen);
            !awaited ==> {
                &&& step.0 == (StreamRun { phase: StreamPhase::Ending, ..stream })
                &&& performed(step.1).len() == 1
                &&& performed(step.1)[0] matches Action::Fail(AppError::Protocol(_))
            }
        }),
        ({
            let awaited = match window.phase {
                WindowPhase::Reading => event is Read,
                WindowPhase::Receiving => event is Packet || event is Garbled || event is Nothing
                    || event is RecvFailed,
                WindowPhase::Sending => event is Sent,
                WindowPhase::Ending => false,
                _ => event is Done,
            };
            let step = window_step(window, event, seen);
            !awaited ==> {
                &&& step.0 == (WindowRun { phase: WindowPhase::Ending, ..window })
                &&& performed(step.1).len() == 1
                &&& performed(step.1)[0] matches Action::Fail(AppError::Protocol(_))
            }
        }),
{
}

/// The state of a stream is logged once a second at most, each time that no more packets
/// are looked for.
pub proof fn law_stream_is_logged_once_a_second(run: StreamLoop, seen: Seen)
    requires
        run.phase is Receiving,
    ensures
        ({
            let step = stream_step(run, Happening::Nothing, seen);
            let owed = seen.now_ms - run.sender.diag_last_ms >= 1000;
            &&& step.1 is Perform
            &&& step.0.sender == (StreamingSend {
                diag_last_ms: if owed {
                    seen.now_ms
                } else {
                    run.sender.diag_last_ms
                },
                ..run.sender
            })
            &&& performed(step.1).len() == if owed {
                1nat
            } else {
                0nat
            }
            &&& owed ==> performed(step.1)[0] matches Action::Emit(PlenumEvent::Log { .. })
        }),
{
}

/// Packets that mean nothing to a streaming sender do nothing but show that the receiver is
/// there.
pub proof fn law_other_packets_do_nothing_to_a_stream(
    run: StreamLoop,
    packet: Packet<Seq<u8>>,
    seen: Seen,
)
    requires
        run.phase is Receiving,
        packet.packet_type !is Ack,
        packet.packet_type !is Close,
    ensures
        ({
            let step = stream_step(run, Happening::Packet(packet), seen);
            &&& performed(step.1).len() == 0
            &&& step.0 == (StreamRun {
                sender: StreamingSend { last_inbound_ns: seen.now_ns, ..run.sender },
                phase: StreamPhase::Reacting,
            })
        }),
{
}

/// A sequence number that has come to its limit stays there. It stands for the last chunk
/// that was sent under it, in either mode, and every chunk before it stays outstanding.
pub proof fn law_last_number_is_used_again(
    stream: StreamLoop,
    window: WindowLoop,
    data: Seq<u8>,
    seen: Seen,
)
    requires
        stream.phase is Reading,
        window.phase is Reading,
        0 < data.len() <= usize::MAX,
        stream.sender.sequence_no == u32::MAX,
        window.sender.sequence_no == u32::MAX,
    ensures
        ({
            let one = stream_step(stream, Happening::Read(data), seen).0.sender;
            let two = window_step(window, Happening::Read(data), seen).0.sender;
            &&& one.sequence_no == u32::MAX
            &&& is_recorded_last(stream.sender.outstanding, one.outstanding, data.len() as usize)
            &&& two.sequence_no == u32::MAX
            &&& is_recorded_last(window.sender.outstanding, two.outstanding, data.len() as usize)
        }),
{
    let size = data.len() as usize;
    let one = stream.sender.outstanding;
    let two = window.sender.outstanding;
    assert(one.push((u32::MAX, size)).drop_last() =~= one);
    assert(two.push((u32::MAX, size)).drop_last() =~= two);
    if one.len() > 0 {
        assert(one.drop_last().push((u32::MAX, size)).drop_last() =~= one.drop_last());
    }
    if two.len() > 0 {
        assert(two.drop_last().push((u32::MAX, size)).drop_last() =~= two.drop_last());
    }
}

/// Whether a list has a chunk of a size under the last number at its end, and before it
/// what another list has under other numbers.
pub open spec fn is_recorded_last(before: Unacked, after: Unacked, size: usize) -> bool {
    &&& after.len() > 0
    &&& after.last() == (u32::MAX, size)
    &&& before.len() > 0 && before.last().0 == u32::MAX ==> after.drop_last() == before.drop_last()
    &&& before.len() == 0 || before.last().0 != u32::MAX ==> after.drop_last() == before
}

} // verus!
