//! What both ends of a transfer amount to together.

use vstd::prelude::*;

use crate::app::clock::sat;
use crate::app::drive::{performed, Happening, Seen, Wish};
use crate::app::intake::{
    all_taken, before, delivered, finished, joined, law_file_holds_what_was_delivered,
    lemma_joined_len, total_len, written, Batch,
};
use crate::app::receive::{Act, Receiving};
use crate::app::receive_run::{
    all_let_through, law_file_follows_the_window, law_only_data_is_counted, receive_course,
    receive_ends, receive_step, ReceiveLoop, ReceivePhase,
};
use crate::app::script::{bare_packet, Action};
use crate::app::streaming::{
    all_read, law_chunks_are_numbered_in_order, law_last_acknowledgement_covers_all,
    stream_complete, stream_heard, stream_read, streaming_start,
};
use crate::protocol::PacketType;

verus! {

proof fn lemma_streaming_stays(state: Receiving, batches: Seq<Batch>)
    ensures
        all_taken(state, batches).0.streaming == state.streaming,
        all_taken(state, batches).0.file_size == state.file_size,
    decreases batches.len(),
{
    if batches.len() > 0 {
        lemma_streaming_stays(state, batches.drop_last());
    }
}

/// A streamed file arrives whole: over a transport and a window that let every data
/// packet through once and in order, the receiver writes exactly the chunks that the
/// sender read, one behind the other, and counts the whole file. The acknowledgement
/// with which it answers the end of the file then leaves the sender with nothing
/// unacknowledged. `resume_bytes` are what the receiver had before, and the chunks are
/// the rest of the file, of which nothing may be left.
pub proof fn law_streamed_file_arrives(
    file_size: u64,
    sequence_no: u32,
    resume_bytes: u64,
    chunks: Seq<Seq<u8>>,
    receiver: Receiving,
    batches: Seq<Batch>,
    now_ns: u64,
    now_ms: u64,
)
    requires
        forall|i: int| 0 <= i < chunks.len() ==> 0 < (#[trigger] chunks[i]).len() <= usize::MAX,
        sequence_no + chunks.len() < u32::MAX,
        resume_bytes + total_len(chunks) == file_size,
        receiver.streaming,
        receiver.saved is Some,
        receiver.file_size == file_size,
        receiver.bytes_received == resume_bytes,
        delivered(batches) == joined(chunks),
    ensures
        ({
            let sender = all_read(
                streaming_start(file_size, sequence_no, resume_bytes, now_ns, now_ms),
                chunks,
            );
            let at_end = stream_read(sender, Seq::empty());
            let taken = all_taken(receiver, batches);
            let last_ack = bare_packet(PacketType::Ack, before(sender.sequence_no));
            &&& written(taken.1) == joined(chunks)
            &&& taken.0.bytes_received == file_size
            &&& sender.sequence_no > 0 ==> finished(taken.0, sender.sequence_no).1.contains(
                Act::Send(last_ack),
            )
            &&& stream_complete(stream_heard(at_end, last_ack, now_ns))
        }),
{
    let start = streaming_start(file_size, sequence_no, resume_bytes, now_ns, now_ms);
    let sender = all_read(start, chunks);
    let at_end = stream_read(sender, Seq::empty());
    let taken = all_taken(receiver, batches);
    lemma_joined_len(chunks);
    law_chunks_are_numbered_in_order(start, chunks);
    law_file_holds_what_was_delivered(receiver, batches);
    lemma_streaming_stays(receiver, batches);
    if sender.sequence_no > 0 {
        law_last_acknowledgement_covers_all(at_end, now_ns);
    }
    lemma_read_keeps_size(start, chunks);
    let script = finished(taken.0, sender.sequence_no).1;
    let last_ack = Act::Send(bare_packet(PacketType::Ack, before(sender.sequence_no)));
    if sender.sequence_no > 0 {
        assert(script[1] == last_ack);
    }
}

proof fn lemma_read_keeps_size(
    state: crate::app::streaming::Streaming,
    chunks: Seq<Seq<u8>>,
)
    ensures
        all_read(state, chunks).file_size == state.file_size,
    decreases chunks.len(),
{
    if chunks.len() > 0 {
        lemma_read_keeps_size(state, chunks.drop_last());
    }
}

/// The payloads that the window hands on at a step.
pub open spec fn handed_on(run: ReceiveLoop, event: Happening) -> Seq<Seq<u8>> {
    match (run.phase, event) {
        (ReceivePhase::Windowing, Happening::Windowed { controls, payloads }) => payloads,
        _ => Seq::empty(),
    }
}

/// The payloads that the window hands on over any number of steps.
pub open spec fn all_handed_on(run: ReceiveLoop, steps: Seq<(Happening, Seen)>) -> Seq<Seq<u8>>
    decreases steps.len(),
{
    if steps.len() == 0 {
        Seq::empty()
    } else {
        all_handed_on(run, steps.drop_last()) + handed_on(
            receive_course(run, steps.drop_last()).0,
            steps.last().0,
        )
    }
}

/// The numbers of the data packets that have come over any number of steps, in whatever
/// order and however often: those of the packets that the window was given.
pub open spec fn numbers_come(run: ReceiveLoop, steps: Seq<(Happening, Seen)>) -> Set<u32>
    decreases steps.len(),
{
    if steps.len() == 0 {
        Set::empty()
    } else {
        let before = numbers_come(run, steps.drop_last());
        let course = receive_course(run, steps.drop_last()).0;
        match receive_step(course, steps.last().0, steps.last().1).1 {
            Wish::Window(packet) => before.insert(packet.sequence_no),
            _ => before,
        }
    }
}

/// How many of the `n` numbers from `first` on have come without a gap.
pub open spec fn unbroken(numbers: Set<u32>, first: u32, n: nat) -> nat
    decreases n,
{
    if n == 0 {
        0
    } else {
        let shorter = unbroken(numbers, first, (n - 1) as nat);
        if shorter == n - 1 && numbers.contains((first + n - 1) as u32) {
            n
        } else {
            shorter
        }
    }
}

/// Whether the window keeps the chunks of a file in order: of the chunks, numbered from
/// `first` on, it has handed on each once, in their order, up to the first whose packet
/// has not come.
pub open spec fn window_keeps_order(
    run: ReceiveLoop,
    steps: Seq<(Happening, Seen)>,
    first: u32,
    chunks: Seq<Seq<u8>>,
) -> bool {
    all_handed_on(run, steps) == chunks.take(
        unbroken(numbers_come(run, steps), first, chunks.len()) as int,
    )
}

/// Whether every chunk has come, at least once.
pub open spec fn all_come(
    run: ReceiveLoop,
    steps: Seq<(Happening, Seen)>,
    first: u32,
    chunks: Seq<Seq<u8>>,
) -> bool {
    forall|i: int|
        0 <= i < chunks.len() ==> numbers_come(run, steps).contains(#[trigger] number_of(first, i))
}

/// The number of a chunk.
pub open spec fn number_of(first: u32, i: int) -> u32 {
    (first + i) as u32
}

/// Whether no file is offered over any number of steps.
pub open spec fn offers_nothing(run: ReceiveLoop, steps: Seq<(Happening, Seen)>) -> bool
    decreases steps.len(),
{
    steps.len() == 0 || (offers_nothing(run, steps.drop_last()) && receive_course(
        run,
        steps.drop_last(),
    ).0.phase !is Opening)
}

proof fn lemma_joined_join(a: Seq<Seq<u8>>, b: Seq<Seq<u8>>)
    ensures
        joined(a + b) == joined(a) + joined(b),
    decreases b.len(),
{
    if b.len() == 0 {
        assert(a + b =~= a);
        assert(joined(a) + joined(b) =~= joined(a));
    } else {
        assert((a + b).drop_last() =~= a + b.drop_last());
        lemma_joined_join(a, b.drop_last());
        assert(joined(a + b) =~= joined(a) + joined(b));
    }
}

proof fn lemma_let_through_is_handed_on(run: ReceiveLoop, steps: Seq<(Happening, Seen)>)
    ensures
        all_let_through(run, steps) == joined(all_handed_on(run, steps)),
    decreases steps.len(),
{
    if steps.len() > 0 {
        lemma_let_through_is_handed_on(run, steps.drop_last());
        lemma_joined_join(
            all_handed_on(run, steps.drop_last()),
            handed_on(receive_course(run, steps.drop_last()).0, steps.last().0),
        );
    }
}

proof fn lemma_counted(run: ReceiveLoop, steps: Seq<(Happening, Seen)>)
    requires
        offers_nothing(run, steps),
    ensures
        ({
            let after = receive_course(run, steps).0.receiver;
            &&& after.bytes_received == sat(
                run.receiver.bytes_received + all_let_through(run, steps).len(),
            )
            &&& after.file_size == run.receiver.file_size
        }),
    decreases steps.len(),
{
    if steps.len() > 0 {
        lemma_counted(run, steps.drop_last());
        law_only_data_is_counted(
            receive_course(run, steps.drop_last()).0,
            steps.last().0,
            steps.last().1,
        );
    }
}

proof fn lemma_unbroken(numbers: Set<u32>, first: u32, n: nat)
    requires
        forall|i: int| 0 <= i < n ==> numbers.contains(#[trigger] number_of(first, i)),
    ensures
        unbroken(numbers, first, n) == n,
    decreases n,
{
    if n > 0 {
        lemma_unbroken(numbers, first, (n - 1) as nat);
        assert(numbers.contains(number_of(first, n - 1)));
    }
}

/// Neither the order in which data packets come nor how often they come matters: once
/// every chunk has come, over a window that keeps the chunks in order, the file has got
/// exactly the chunks, one behind the other, and exactly their bytes were counted.
pub proof fn law_order_and_repeats_do_not_matter(
    run: ReceiveLoop,
    steps: Seq<(Happening, Seen)>,
    first: u32,
    chunks: Seq<Seq<u8>>,
)
    requires
        run.receiver.saved is Some,
        run.receiver.bytes_received + total_len(chunks) <= u64::MAX,
        offers_nothing(run, steps),
        window_keeps_order(run, steps, first, chunks),
        all_come(run, steps, first, chunks),
    ensures
        written(receive_course(run, steps).1) == joined(chunks),
        receive_course(run, steps).0.receiver.bytes_received == run.receiver.bytes_received
            + total_len(chunks),
{
    law_file_follows_the_window(run, steps);
    lemma_let_through_is_handed_on(run, steps);
    lemma_unbroken(numbers_come(run, steps), first, chunks.len());
    assert(chunks.take(chunks.len() as int) =~= chunks);
    lemma_joined_len(chunks);
    lemma_counted(run, steps);
}

/// Two receivers of the same chunks agree: in whatever orders, and with whatever repeats,
/// the packets have come to each, both write the same bytes and count as many.
pub proof fn law_receivers_of_the_same_chunks_agree(
    a: ReceiveLoop,
    a_steps: Seq<(Happening, Seen)>,
    b: ReceiveLoop,
    b_steps: Seq<(Happening, Seen)>,
    first: u32,
    chunks: Seq<Seq<u8>>,
)
    requires
        a.receiver.saved is Some && b.receiver.saved is Some,
        a.receiver.bytes_received == b.receiver.bytes_received,
        a.receiver.bytes_received + total_len(chunks) <= u64::MAX,
        offers_nothing(a, a_steps) && offers_nothing(b, b_steps),
        window_keeps_order(a, a_steps, first, chunks),
        window_keeps_order(b, b_steps, first, chunks),
        all_come(a, a_steps, first, chunks),
        all_come(b, b_steps, first, chunks),
    ensures
        written(receive_course(a, a_steps).1) == written(receive_course(b, b_steps).1),
        receive_course(a, a_steps).0.receiver.bytes_received == receive_course(
            b,
            b_steps,
        ).0.receiver.bytes_received,
{
    law_order_and_repeats_do_not_matter(a, a_steps, first, chunks);
    law_order_and_repeats_do_not_matter(b, b_steps, first, chunks);
}

/// The received file is the sent one. The chunks are what a sender has read of a file of
/// which the receiver had `resume_bytes`: once their packets have come, over a window that
/// keeps them in order, the receiver has added to its file exactly what the sender read,
/// the sender's next number is the one behind them, and the transfer ends as complete with
/// all bytes of the file.
pub proof fn law_received_file_is_the_sent_one(
    file_size: u64,
    first: u32,
    resume_bytes: u64,
    chunks: Seq<Seq<u8>>,
    run: ReceiveLoop,
    steps: Seq<(Happening, Seen)>,
    seen: Seen,
)
    requires
        forall|i: int| 0 <= i < chunks.len() ==> 0 < (#[trigger] chunks[i]).len() <= usize::MAX,
        first + chunks.len() < u32::MAX,
        resume_bytes + total_len(chunks) == file_size,
        run.receiver.saved is Some,
        run.receiver.file_size == file_size,
        run.receiver.bytes_received == resume_bytes,
        offers_nothing(run, steps),
        window_keeps_order(run, steps, first, chunks),
        all_come(run, steps, first, chunks),
    ensures
        ({
            let sender = all_read(
                streaming_start(file_size, first, resume_bytes, seen.now_ns, seen.now_ms),
                chunks,
            );
            let course = receive_course(run, steps);
            let end = performed(receive_ends(course.0, seen).1);
            &&& written(course.1) == joined(chunks)
            &&& sender.sequence_no == first + chunks.len()
            &&& end.last() matches Action::Complete(summary) && summary.transferred_bytes
                == file_size && summary.total_bytes == file_size
        }),
{
    law_order_and_repeats_do_not_matter(run, steps, first, chunks);
    law_chunks_are_numbered_in_order(
        streaming_start(file_size, first, resume_bytes, seen.now_ns, seen.now_ms),
        chunks,
    );
    lemma_counted(run, steps);
}

} // verus!
