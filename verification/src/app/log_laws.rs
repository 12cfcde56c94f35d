//! What the log lines of a transfer say: each count stands behind its own label.

use vstd::prelude::*;
use vstd::string::*;

use crate::app::drive::{performed, Happening, Seen};
use crate::app::receive::Act;
use crate::app::receive_run::{receive_step, ReceiveLoop};
use crate::app::script::Action;
use crate::app::send_run::{send_step, SendCourse};
use crate::app::stream_run::{stream_step, StreamLoop};
use crate::app::types::{LogLevel, PlenumEvent};
use crate::app::window_run::{window_step, WindowLoop};
use crate::protocol::Packet;
use crate::lines::{lemma_five, lemma_named, lemma_three, says, stands_at};
use crate::text::decimal;

verus! {

/// The line that an action logs, if it logs one at this level.
pub open spec fn logged(action: Act, wanted: LogLevel) -> Option<Seq<char>> {
    match action {
        Action::Emit(PlenumEvent::Log { level, message }) => if level == wanted {
            Some(message)
        } else {
            None
        },
        _ => None,
    }
}

/// Once a second a receiver logs what it has seen, taken, answered and received, and what
/// its window waits for.
pub proof fn law_receiver_logs_its_counts(run: ReceiveLoop, seen: Seen)
    requires
        run.phase is Turn,
        !seen.cancelled,
        seen.now_ms - run.receiver.diag_last_ms >= 1000,
    ensures
        ({
            let state = run.receiver;
            let line = logged(
                performed(receive_step(run, Happening::Done, seen).1)[0],
                LogLevel::Info,
            );
            &&& line is Some
            &&& says(line->Some_0, "DIAG recv: frames="@, state.frames as nat)
            &&& says(line->Some_0, " data_recv="@, state.data_recv as nat)
            &&& says(line->Some_0, " acks_sent="@, state.acks_sent as nat)
            &&& says(line->Some_0, " bytes_recv="@, state.bytes_received as nat)
            &&& says(line->Some_0, " next_expected="@, seen.next_expected as nat)
        }),
{
    let state = run.receiver;
    let line = logged(performed(receive_step(run, Happening::Done, seen).1)[0], LogLevel::Info);
    lemma_five(
        ("DIAG recv: frames="@, state.frames as nat),
        (" data_recv="@, state.data_recv as nat),
        (" acks_sent="@, state.acks_sent as nat),
        (" bytes_recv="@, state.bytes_received as nat),
        (" next_expected="@, seen.next_expected as nat),
        Seq::empty(),
    );
    assert(line->Some_0 + Seq::<char>::empty() =~= line->Some_0);
}

/// At its end a receiver logs the same counts.
pub proof fn law_receiver_logs_its_end(run: ReceiveLoop, seen: Seen)
    requires
        run.phase is Finishing,
    ensures
        ({
            let state = run.receiver;
            let line = logged(
                performed(receive_step(run, Happening::Done, seen).1)[0],
                LogLevel::Info,
            );
            &&& line is Some
            &&& says(line->Some_0, "DIAG recv: transfer loop END frames="@, state.frames as nat)
            &&& says(line->Some_0, " data_recv="@, state.data_recv as nat)
            &&& says(line->Some_0, " acks_sent="@, state.acks_sent as nat)
            &&& says(line->Some_0, " bytes_recv="@, state.bytes_received as nat)
        }),
{
    let state = run.receiver;
    let line = logged(performed(receive_step(run, Happening::Done, seen).1)[0], LogLevel::Info);
    let last = " bytes_recv="@ + decimal(state.bytes_received as nat);
    lemma_three(
        ("DIAG recv: transfer loop END frames="@, state.frames as nat),
        (" data_recv="@, state.data_recv as nat),
        (" acks_sent="@, state.acks_sent as nat),
        last,
    );
    let head = "DIAG recv: transfer loop END frames="@ + decimal(state.frames as nat)
        + " data_recv="@ + decimal(state.data_recv as nat) + " acks_sent="@ + decimal(
        state.acks_sent as nat,
    );
    assert(line->Some_0 =~= head + last);
    assert(line->Some_0.subrange(head.len() as int, head.len() + last.len() as int) =~= last);
    assert(stands_at(line->Some_0, last, head.len() as int));
}

/// Once a second a streaming sender logs what it has sent and what was acknowledged, and
/// the next number.
pub proof fn law_stream_logs_its_counts(run: StreamLoop, seen: Seen)
    requires
        run.phase is Receiving,
        seen.now_ms - run.sender.diag_last_ms >= 1000,
    ensures
        ({
            let state = run.sender;
            let line = logged(
                performed(stream_step(run, Happening::Nothing, seen).1)[0],
                LogLevel::Info,
            );
            &&& line is Some
            &&& says(line->Some_0, "DIAG send: streaming data_sent="@, state.data_sent as nat)
            &&& says(line->Some_0, " acks_recv="@, state.acks_recv as nat)
            &&& says(line->Some_0, " bytes_sent="@, state.bytes_sent as nat)
            &&& says(line->Some_0, " bytes_acked="@, state.bytes_acked as nat)
            &&& says(line->Some_0, " seq_next="@, state.sequence_no as nat)
        }),
{
    let state = run.sender;
    let line = logged(performed(stream_step(run, Happening::Nothing, seen).1)[0], LogLevel::Info);
    lemma_five(
        ("DIAG send: streaming data_sent="@, state.data_sent as nat),
        (" acks_recv="@, state.acks_recv as nat),
        (" bytes_sent="@, state.bytes_sent as nat),
        (" bytes_acked="@, state.bytes_acked as nat),
        (" seq_next="@, state.sequence_no as nat),
        Seq::empty(),
    );
    assert(line->Some_0 + Seq::<char>::empty() =~= line->Some_0);
}

/// Once everything is acknowledged it logs what it has sent and what was acknowledged.
pub proof fn law_stream_logs_its_end(run: StreamLoop, seen: Seen)
    requires
        run.phase is Reporting,
        run.sender.file_done,
        run.sender.bytes_acked >= run.sender.file_size,
    ensures
        ({
            let state = run.sender;
            let line = logged(
                performed(stream_step(run, Happening::Done, seen).1)[0],
                LogLevel::Info,
            );
            &&& line is Some
            &&& says(
                line->Some_0,
                "DIAG send: streaming loop END data_sent="@,
                state.data_sent as nat,
            )
            &&& says(line->Some_0, " acks_recv="@, state.acks_recv as nat)
            &&& says(line->Some_0, " bytes_acked="@, state.bytes_acked as nat)
        }),
{
    let state = run.sender;
    let line = logged(performed(stream_step(run, Happening::Done, seen).1)[0], LogLevel::Info);
    lemma_three(
        ("DIAG send: streaming loop END data_sent="@, state.data_sent as nat),
        (" acks_recv="@, state.acks_recv as nat),
        (" bytes_acked="@, state.bytes_acked as nat),
        Seq::empty(),
    );
    assert(line->Some_0 + Seq::<char>::empty() =~= line->Some_0);
}

/// Once a second a sender over a window logs what was sent and acknowledged, what the
/// window holds, and the next number.
pub proof fn law_window_logs_its_counts(run: WindowLoop, sent: usize, seen: Seen)
    requires
        run.phase is Sending,
        run.turn_ms - run.sender.diag_last_ms >= 1000,
        run.sender.data_sent + sent <= u64::MAX,
    ensures
        ({
            let state = run.sender;
            let line = logged(
                performed(window_step(run, Happening::Sent(sent), seen).1)[0],
                LogLevel::Info,
            );
            &&& line is Some
            &&& says(line->Some_0, "DIAG send: data_sent="@, (state.data_sent + sent) as nat)
            &&& says(line->Some_0, " acks_recv="@, state.acks_recv as nat)
            &&& says(line->Some_0, " bytes_acked="@, state.bytes_acked as nat)
            &&& says(line->Some_0, " in_flight="@, seen.in_flight as nat)
            &&& says(line->Some_0, " pending="@, seen.pending as nat)
            &&& says(line->Some_0, " seq_next="@, state.sequence_no as nat)
        }),
{
    let state = run.sender;
    let line = logged(
        performed(window_step(run, Happening::Sent(sent), seen).1)[0],
        LogLevel::Info,
    );
    let last = " seq_next="@ + decimal(state.sequence_no as nat);
    lemma_five(
        ("DIAG send: data_sent="@, (state.data_sent + sent) as nat),
        (" acks_recv="@, state.acks_recv as nat),
        (" bytes_acked="@, state.bytes_acked as nat),
        (" in_flight="@, seen.in_flight as nat),
        (" pending="@, seen.pending as nat),
        last,
    );
    let head = "DIAG send: data_sent="@ + decimal((state.data_sent + sent) as nat)
        + " acks_recv="@ + decimal(state.acks_recv as nat) + " bytes_acked="@ + decimal(
        state.bytes_acked as nat,
    ) + " in_flight="@ + decimal(seen.in_flight as nat) + " pending="@ + decimal(
        seen.pending as nat,
    );
    assert(line->Some_0 =~= head + last);
    assert(line->Some_0.subrange(head.len() as int, head.len() + last.len() as int) =~= last);
    assert(stands_at(line->Some_0, last, head.len() as int));
}

/// Once the window is empty it logs what was sent and acknowledged.
pub proof fn law_window_logs_its_end(run: WindowLoop, seen: Seen)
    requires
        run.phase is Reporting,
        run.sender.file_done,
        seen.window_empty,
    ensures
        ({
            let state = run.sender;
            let line = logged(
                performed(window_step(run, Happening::Done, seen).1).last(),
                LogLevel::Info,
            );
            &&& line is Some
            &&& says(
                line->Some_0,
                "DIAG send: transfer loop END data_sent="@,
                state.data_sent as nat,
            )
            &&& says(line->Some_0, " acks_recv="@, state.acks_recv as nat)
            &&& says(line->Some_0, " bytes_acked="@, state.bytes_acked as nat)
        }),
{
    let state = run.sender;
    let line = logged(
        performed(window_step(run, Happening::Done, seen).1).last(),
        LogLevel::Info,
    );
    lemma_three(
        ("DIAG send: transfer loop END data_sent="@, state.data_sent as nat),
        (" acks_recv="@, state.acks_recv as nat),
        (" bytes_acked="@, state.bytes_acked as nat),
        Seq::empty(),
    );
    assert(line->Some_0 + Seq::<char>::empty() =~= line->Some_0);
}

/// A sender whose file is accepted logs which file it sends, and how it is tuned.
pub proof fn law_sender_logs_its_start(run: SendCourse, packet: Packet<Seq<u8>>, seen: Seen)
    requires
        run.phase is Waiting,
        packet.packet_type is Accept,
    ensures
        ({
            let at = if run.phase->Waiting_0.resume_bytes > 0 {
                3int
            } else {
                1int
            };
            let line = logged(
                performed(send_step(run, Happening::Packet(packet), seen).1)[at],
                LogLevel::Info,
            );
            let named = "DIAG send: transfer loop start, file="@ + run.file.file_name;
            &&& line is Some
            &&& stands_at(line->Some_0, named, 0)
            &&& says(line->Some_0, " size="@, run.file.file_size as nat)
            &&& says(line->Some_0, " chunk="@, run.file.chunk_size as nat)
            &&& says(line->Some_0, " window="@, run.file.window_size as nat)
        }),
{
    let at = if run.phase->Waiting_0.resume_bytes > 0 {
        3int
    } else {
        1int
    };
    let line = logged(
        performed(send_step(run, Happening::Packet(packet), seen).1)[at],
        LogLevel::Info,
    );
    let file = run.file;
    lemma_named(
        "DIAG send: transfer loop start, file="@ + file.file_name,
        (" size="@, file.file_size as nat),
        (" chunk="@, file.chunk_size as nat),
        (" window="@, file.window_size as nat),
    );
}

/// A receiver that is offered a file logs which it is, how large, and how much of it there
/// is already.
pub proof fn law_receiver_logs_an_offer(run: ReceiveLoop, seen: Seen)
    requires
        run.phase is Opening,
        run.offered matches Some(file) && file.checkpoint is Some,
    ensures
        ({
            let file = run.offered->Some_0;
            let line = logged(
                performed(receive_step(run, Happening::Done, seen).1)[1],
                LogLevel::Info,
            );
            let named = "DIAG recv: START received file="@ + file.name;
            &&& line is Some
            &&& stands_at(line->Some_0, named, 0)
            &&& says(line->Some_0, " size="@, file.size as nat)
            &&& says(
                line->Some_0,
                " resume="@,
                file.checkpoint->Some_0.checkpoint.bytes_written as nat,
            )
        }),
{
    let file = run.offered->Some_0;
    let line = logged(performed(receive_step(run, Happening::Done, seen).1)[1], LogLevel::Info);
    let named = "DIAG recv: START received file="@ + file.name;
    let size = " size="@ + decimal(file.size as nat);
    let resume = " resume="@ + decimal(
        file.checkpoint->Some_0.checkpoint.bytes_written as nat,
    );
    assert(line->Some_0 =~= named + (size + resume));
    assert(line->Some_0.subrange(0, named.len() as int) =~= named);
    let first = named.len() as int;
    assert(line->Some_0.subrange(first, first + size.len()) =~= size);
    assert(stands_at(line->Some_0, size, first));
    let second = first + size.len();
    assert(line->Some_0.subrange(second, second + resume.len()) =~= resume);
    assert(stands_at(line->Some_0, resume, second));
}

} // verus!
