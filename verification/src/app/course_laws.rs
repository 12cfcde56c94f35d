//! What a sender owes before its first chunk and after its last one, and what a listening
//! receiver owes those who connect.

use vstd::prelude::*;
use vstd::string::*;
use vstd::utf8::encode_utf8;

use crate::app::drive::{performed, Happening, Seen, Wish};
use crate::app::error::AppError;
use crate::app::handshake::{packets_sent, AcceptWait};
use crate::app::listen_run::{
    listen_step, ListenHappening, ListenPhase, ListenRun, ListenWish, Listener, Utterance,
};
use crate::app::payload::{peer_name_of, start_bytes};
use crate::app::receive::Act;
use crate::app::script::Action;
use crate::app::send_laws::{
    is_cancelled, is_declined, law_streamed_progress_is_true, law_windowed_progress_is_true,
};
use crate::app::send_run::{
    loop_step, send_loop, send_step, SendCourse, SendLoop, SendPhase, SendRun,
};
use crate::app::stream_run::{stream_step, StreamPhase, StreamRun};
use crate::app::streaming::streaming_start;
use crate::app::told::{
    fails, lemma_none_sent, lemma_one_sent, lemma_rejection_means, lemma_sent_join, progress_in,
    reports_truly,
};
use crate::app::types::{ConnectionState, PlenumEvent, TransferDirection, TransferEvent};
use crate::app::window_run::{window_step, WindowPhase, WindowRun};
use crate::app::windowed::windowed_start;
use crate::protocol::{Packet, PacketType};
use crate::text::{ascii_uppercase, lossy, trimmed};
use crate::wire::be_value;

verus! {

/// A file is offered with the pairing code first, where there is one, without the white
/// space around it, and then with its size, its name and the sender's name. The user is
/// told over which path the peers are connected, and that the receiver is waited for.
pub proof fn law_file_is_offered(run: SendCourse, seen: Seen)
    requires
        run.phase is Fresh,
    ensures
        ({
            let step = send_step(run, Happening::Done, seen);
            let actions = performed(step.1);
            let n = actions.len() as int;
            let code = match run.pin {
                Some(pin) => seq![
                    Packet {
                        packet_type: PacketType::Auth,
                        sequence_no: 0u32,
                        payload: encode_utf8(trimmed(pin)),
                    },
                ],
                None => Seq::empty(),
            };
            let start = Packet {
                packet_type: PacketType::Start,
                sequence_no: 0u32,
                payload: start_bytes(
                    run.file.file_size,
                    encode_utf8(run.file.file_name),
                    match run.device_name {
                        Some(name) => Some(encode_utf8(name)),
                        None => None,
                    },
                ),
            };
            &&& step.0 == (SendRun { phase: SendPhase::Offering, ..run })
            &&& packets_sent(actions) == code + seq![start]
            &&& n >= 3
            &&& actions[0] matches Action::Emit(
                PlenumEvent::Transfer(TransferEvent::ConnectionEstablished { direction, mode }),
            ) && {
                &&& direction is Send
                &&& mode is Lan <==> seen.relayed is None
                &&& mode is Direct <==> seen.relayed == Some(false)
                &&& mode is Relay <==> seen.relayed == Some(true)
            }
            &&& actions[n - 1] == Act::Emit(
                PlenumEvent::Transfer(
                    TransferEvent::AwaitingApproval {
                        direction: TransferDirection::Send,
                        file_name: run.file.file_name,
                    },
                ),
            )
        }),
{
    let actions = performed(send_step(run, Happening::Done, seen).1);
    let n = actions.len() as int;
    let first = actions.take(1);
    let last = actions.skip(n - 1);
    let start = seq![actions[n - 2]];
    let code: Seq<Act> = match run.pin {
        Some(_) => seq![actions[1]],
        None => Seq::empty(),
    };
    assert(actions =~= first + code + start + last);
    lemma_none_sent(Seq::empty());
    lemma_none_sent(first);
    lemma_none_sent(last);
    assert(start =~= seq![Act::Send(actions[n - 2]->Send_0)]);
    lemma_one_sent(actions[n - 2]->Send_0);
    if run.pin is Some {
        assert(code =~= seq![Act::Send(actions[1]->Send_0)]);
        lemma_one_sent(actions[1]->Send_0);
    }
    lemma_sent_join(first, code);
    lemma_sent_join(first + code, start);
    lemma_sent_join(first + code + start, last);
}

/// A sender waits for an answer for two and a half minutes from the offer on, and looks
/// for it every twenty milliseconds. A cancelled session tells the receiver and stops.
pub proof fn law_sender_waits_for_an_answer(run: SendCourse, seen: Seen)
    requires
        run.phase is Pausing || run.phase is Offering,
    ensures
        ({
            let step = send_step(run, Happening::Done, seen);
            let actions = performed(step.1);
            let wait = if run.phase is Offering {
                AcceptWait {
                    direction: TransferDirection::Send,
                    asked_ns: seen.now_ns,
                    resume_bytes: 0,
                    receiver_streams: false,
                }
            } else {
                run.phase->Pausing_0
            };
            let late = seen.now_ns - wait.asked_ns >= 150_000_000_000;
            let pause = send_step(step.0, Happening::Nothing, seen);
            &&& seen.cancelled && wait.direction is Send ==> step.0.phase is Ending
                && is_cancelled(actions, 0)
            &&& !seen.cancelled && late ==> step.0.phase is Ending && actions == seq![
                Act::Fail(
                    AppError::Stalled("receiver did not answer the transfer offer within 150s"@),
                ),
            ]
            &&& !seen.cancelled && !late ==> {
                &&& step == (SendRun { phase: SendPhase::Waiting(wait), ..run }, Wish::Receive)
                &&& pause == (SendRun { phase: SendPhase::Pausing(wait), ..run }, Wish::Sleep(20))
            }
        }),
{
}

/// What a waiting sender makes of a packet that neither accepts nor closes: an offer to
/// stream is remembered, eight bytes are the offset from which to go on, a resume packet
/// of any other length sets it to nothing, and every other packet changes nothing.
pub proof fn law_waiting_sender_listens(run: SendCourse, packet: Packet<Seq<u8>>, seen: Seen)
    requires
        run.phase is Waiting,
        packet.packet_type !is Accept,
        packet.packet_type !is Close,
        !seen.cancelled,
        seen.now_ns - run.phase->Waiting_0.asked_ns < 150_000_000_000,
    ensures
        ({
            let before = run.phase->Waiting_0;
            let step = send_step(run, Happening::Packet(packet), seen);
            &&& step.1 is Receive
            &&& step.0.phase matches SendPhase::Waiting(after) && {
                let offer = packet.packet_type is Resume && packet.payload
                    == "PLENUM_STREAM_V1".spec_bytes();
                let offset = packet.packet_type is Resume && !offer;
                &&& after.direction == before.direction
                &&& after.asked_ns == before.asked_ns
                &&& after.receiver_streams == (before.receiver_streams || offer)
                &&& offset && packet.payload.len() == 8 ==> after.resume_bytes == be_value(
                    packet.payload,
                ) as u64
                &&& offset && packet.payload.len() != 8 ==> after.resume_bytes == 0
                &&& !offset ==> after.resume_bytes == before.resume_bytes
            }
        }),
{
}

/// A receiver that closes has declined, and one that is gone or talks nonsense fails the
/// transfer with that.
pub proof fn law_refused_offers_fail(run: SendCourse, event: Happening, seen: Seen)
    requires
        run.phase is Waiting,
        run.phase->Waiting_0.direction is Send,
    ensures
        ({
            let step = send_step(run, event, seen);
            &&& event matches Happening::Packet(packet) ==> packet.packet_type is Close
                ==> step.0.phase is Ending && is_declined(
                performed(step.1),
                lossy(packet.payload),
            )
            &&& event matches Happening::Garbled(reason) ==> step.0.phase is Ending && step.1
                == Wish::Perform(seq![Act::Fail(AppError::Protocol(reason))])
            &&& event matches Happening::RecvFailed { closed, error } ==> step.0.phase is Ending
                && step.1 == Wish::Perform(seq![Act::Fail(AppError::Transport(error))])
        }),
{
    if event is Packet {
        lemma_rejection_means(lossy(event->Packet_0.payload));
    }
}

/// An accepted transfer begins where the receiver says: the file is read from its offset
/// on, the number is the one of the acceptance, and the transfer streams exactly if the
/// receiver has offered it and the transport knows nothing of relays. The receiver is
/// told so before any data.
pub proof fn law_accepted_transfer_goes_on_where_asked(
    run: SendCourse,
    packet: Packet<Seq<u8>>,
    seen: Seen,
)
    requires
        run.phase is Waiting,
        packet.packet_type is Accept,
    ensures
        ({
            let wait = run.phase->Waiting_0;
            let step = send_step(run, Happening::Packet(packet), seen);
            let actions = performed(step.1);
            let streams = wait.receiver_streams && seen.relayed is None;
            let at = if wait.resume_bytes > 0 {
                2int
            } else {
                0int
            };
            &&& step.0.phase matches SendPhase::Beginning { accepted, started_ns, streaming } && {
                &&& accepted.sequence_no == packet.sequence_no
                &&& accepted.resume_bytes == wait.resume_bytes
                &&& accepted.receiver_name == peer_name_of(packet.payload)
                &&& accepted.receiver_streams == wait.receiver_streams
                &&& started_ns == seen.now_ns
                &&& streaming == streams
            }
            &&& actions.len() == at + 2 + if streams {
                2int
            } else {
                0int
            }
            &&& wait.resume_bytes > 0 ==> actions[1] == Act::Seek(wait.resume_bytes) && actions[0]
                == Act::Emit(
                PlenumEvent::Transfer(
                    TransferEvent::Resumed {
                        direction: TransferDirection::Send,
                        next_sequence: packet.sequence_no,
                        resumed_bytes: wait.resume_bytes,
                    },
                ),
            )
            &&& actions[at] == Act::Emit(
                PlenumEvent::Transfer(
                    TransferEvent::Started {
                        direction: TransferDirection::Send,
                        file_name: run.file.file_name,
                        total_bytes: run.file.file_size,
                        resumed_bytes: wait.resume_bytes,
                    },
                ),
            )
            &&& streams ==> actions[at + 2] == Act::Send(
                Packet {
                    packet_type: PacketType::Resume,
                    sequence_no: 0,
                    payload: "PLENUM_STREAM_V1".spec_bytes(),
                },
            )
            &&& forall|i: int|
                0 <= i < actions.len() && i != at + 2 ==> !((#[trigger] actions[i]) is Send)
            &&& !fails(actions)
        }),
{
}

/// A transfer that has begun runs the loop of its mode, over the whole file and from where
/// the receiver is.
pub proof fn law_begun_transfer_runs_its_loop(run: SendCourse, seen: Seen)
    requires
        run.phase is Beginning,
        !seen.cancelled,
    ensures
        ({
            let accepted = run.phase->Beginning_accepted;
            let streaming = run.phase->Beginning_streaming;
            let step = send_step(run, Happening::Done, seen);
            let reads = accepted.resume_bytes < run.file.file_size;
            &&& step.0.phase matches SendPhase::Running { accepted: kept, started_ns, run: inner }
                && {
                &&& kept == accepted
                &&& started_ns == run.phase->Beginning_started_ns
                &&& inner matches SendLoop::Streaming(stream) ==> {
                    &&& streaming
                    &&& stream.sender.file_size == run.file.file_size
                    &&& stream.sender.sequence_no == accepted.sequence_no
                    &&& stream.sender.bytes_acked == accepted.resume_bytes
                    &&& stream.sender.bytes_sent == accepted.resume_bytes
                    &&& stream.sender.last_inbound_ns == seen.now_ns
                    &&& reads ==> step.1 is Read
                }
                &&& inner matches SendLoop::Windowed(window) ==> {
                    &&& !streaming
                    &&& window.sender.file_size == run.file.file_size
                    &&& window.sender.window_size == run.file.window_size
                    &&& window.sender.sequence_no == accepted.sequence_no
                    &&& window.sender.bytes_acked == accepted.resume_bytes
                    &&& window.sender.last_inbound_ns == seen.now_ns
                    &&& reads && seen.pending < 2 * run.file.window_size ==> step.1 is Read
                }
            }
        }),
{
}

/// A running transfer does what its loop does, until that is finished. The connection is
/// then closed; over a window the receiver is first told, with the number after the last
/// chunk, that the file is at its end.
pub proof fn law_finished_loop_closes_the_connection(
    run: SendCourse,
    event: Happening,
    seen: Seen,
)
    requires
        run.phase is Running,
    ensures
        ({
            let inner = run.phase->Running_run;
            let step = send_step(run, event, seen);
            let done = match inner {
                SendLoop::Streaming(stream) => stream.phase is Concluding && event is Done,
                SendLoop::Windowed(window) => window.phase is Concluding && event is Done,
            };
            &&& done ==> {
                &&& step.0.phase matches SendPhase::Closing { accepted, started_ns, relayed } && {
                    &&& accepted == run.phase->Running_accepted
                    &&& started_ns == run.phase->Running_started_ns
                    &&& relayed == seen.relayed
                }
                &&& inner is Streaming ==> performed(step.1) == seq![Act::Close]
                &&& inner matches SendLoop::Windowed(window) ==> performed(step.1) == seq![
                    Act::Send(
                        Packet {
                            packet_type: PacketType::Finish,
                            sequence_no: window.sender.sequence_no,
                            payload: Seq::empty(),
                        },
                    ),
                    Act::Close,
                ]
            }
            &&& !done ==> {
                &&& step.1 == loop_step(inner, event, seen).1
                &&& step.0.phase matches SendPhase::Running { accepted, started_ns, run: next } && {
                    &&& accepted == run.phase->Running_accepted
                    &&& started_ns == run.phase->Running_started_ns
                    &&& next == loop_step(inner, event, seen).0
                }
            }
            &&& step.0.file == run.file
        }),
{
}

/// A transfer whose connection is closed is complete: it is told to the user and with the
/// result what was sent, to whom, over which path and in how many milliseconds.
pub proof fn law_sender_completes(run: SendCourse, seen: Seen)
    requires
        run.phase is Closing,
    ensures
        ({
            let accepted = run.phase->Closing_accepted;
            let relayed = run.phase->Closing_relayed;
            let started_ns = run.phase->Closing_started_ns;
            let step = send_step(run, Happening::Done, seen);
            let actions = performed(step.1);
            &&& step.0.phase is Ending
            &&& actions.len() == 3
            &&& actions[2] matches Action::Complete(summary) && {
                &&& actions[0] == Act::Emit(
                    PlenumEvent::Transfer(TransferEvent::Completed(summary)),
                )
                &&& actions[1] == Act::Emit(
                    PlenumEvent::Transfer(
                        TransferEvent::StateChanged {
                            direction: TransferDirection::Send,
                            state: ConnectionState::Closed,
                            peer: run.file.peer,
                        },
                    ),
                )
                &&& summary.direction is Send
                &&& summary.file_name == run.file.file_name
                &&& summary.peer == run.file.peer
                &&& summary.peer_name == accepted.receiver_name
                &&& summary.mode is Lan <==> relayed is None
                &&& summary.mode is Direct <==> relayed == Some(false)
                &&& summary.mode is Relay <==> relayed == Some(true)
                &&& summary.total_bytes == run.file.file_size
                &&& summary.transferred_bytes == run.file.file_size
                &&& summary.resumed_bytes == accepted.resume_bytes
                &&& seen.now_ns >= started_ns ==> summary.elapsed_ms * 1_000_000 <= seen.now_ns
                    - started_ns < (summary.elapsed_ms + 1) * 1_000_000
            }
        }),
{
}

/// A listening receiver looks for a connection, again after twenty-five milliseconds where
/// there is none, and stops where the session is cancelled or the listening fails.
pub proof fn law_receiver_listens(
    run: Listener,
    error: crate::transport::IoError<Seq<char>>,
    cancelled: bool,
    now_ns: u64,
)
    ensures
        run.phase is Listening || run.phase is Pausing ==> {
            let step = listen_step(run, ListenHappening::Done, cancelled, now_ns);
            &&& cancelled ==> is_stopped(step.1) && step.0.phase is Ending
            &&& !cancelled ==> step == (
                ListenRun { phase: ListenPhase::Listening, ..run },
                ListenWish::Accept,
            )
        },
        run.phase is Listening ==> {
            let step = listen_step(run, ListenHappening::AcceptFailed(error), cancelled, now_ns);
            let again = error.kind is WouldBlock || error.kind is TimedOut;
            &&& again ==> step == (
                ListenRun { phase: ListenPhase::Pausing, ..run },
                ListenWish::Sleep(25),
            )
            &&& !again ==> step == (
                ListenRun { phase: ListenPhase::Ending, ..run },
                ListenWish::Perform(seq![Act::Fail(AppError::Io(error))]),
            )
        },
{
}

/// Whether a listener tells its user that it was cancelled, and fails with that.
pub open spec fn is_stopped(wish: ListenWish) -> bool {
    wish == ListenWish::Perform(
        seq![
            Act::Emit(
                PlenumEvent::Transfer(
                    TransferEvent::Cancelled { direction: TransferDirection::Receive },
                ),
            ),
            Act::Fail(AppError::Cancelled),
        ],
    )
}

/// Whoever connects is asked for the pairing code where there must be one, and is welcome
/// at once where not. The user is told of a welcome peer, and then the transfer runs.
pub proof fn law_connections_are_asked_for_the_code(
    run: Listener,
    peer: Seq<char>,
    cancelled: bool,
    now_ns: u64,
)
    requires
        run.phase is Listening,
    ensures
        ({
            let step = listen_step(run, ListenHappening::Connected(peer), cancelled, now_ns);
            let serve = listen_step(step.0, ListenHappening::Done, cancelled, now_ns);
            &&& run.require_pin && cancelled ==> is_stopped(step.1) && step.0.phase is Ending
            &&& run.require_pin && !cancelled ==> {
                &&& step.1 is Receive
                &&& step.0 == (ListenRun {
                    peer,
                    phase: ListenPhase::Guarding { asked_ns: now_ns },
                    ..run
                })
            }
            &&& !run.require_pin ==> {
                &&& step.0 == (ListenRun { peer, phase: ListenPhase::Greeting, ..run })
                &&& is_welcome(step.1, peer)
                &&& serve.1 is Serve
                &&& serve.0.peer == peer
            }
        }),
{
}

/// Whether a listener tells its user that a peer is connected.
pub open spec fn is_welcome(wish: ListenWish, peer: Seq<char>) -> bool {
    wish == ListenWish::Perform(
        seq![
            Act::Emit(
                PlenumEvent::Transfer(
                    TransferEvent::StateChanged {
                        direction: TransferDirection::Receive,
                        state: ConnectionState::Connected,
                        peer: Some(peer),
                    },
                ),
            ),
        ],
    )
}

/// Only the code opens, and it does: a code that comes first, in whatever case and with
/// whatever white space around it, is welcome. A wrong one, another packet, garbage, or
/// ten seconds of silence turn the peer away, who is told so, and the receiver listens
/// on. Until then the code is looked for every ten milliseconds.
pub proof fn law_the_code_is_judged(
    run: Listener,
    heard: Utterance,
    cancelled: bool,
    now_ns: u64,
)
    requires
        run.phase is Guarding,
    ensures
        ({
            let asked_ns = run.phase->Guarding_asked_ns;
            let step = listen_step(run, ListenHappening::Heard(heard), cancelled, now_ns);
            let right = heard matches Utterance::Packet(packet) && packet.packet_type is Auth
                && ascii_uppercase(trimmed(lossy(packet.payload))) == ascii_uppercase(run.code);
            let late = now_ns - asked_ns >= 10_000_000_000;
            let wrong = (heard is Packet && !right) || heard is Garbled || (heard is Nothing
                && late);
            &&& right ==> step.0 == (ListenRun { phase: ListenPhase::Greeting, ..run })
                && is_welcome(step.1, run.peer)
            &&& wrong ==> {
                &&& step.0 == (ListenRun { phase: ListenPhase::Pausing, ..run })
                &&& step.1 matches ListenWish::Perform(actions) && {
                    &&& actions.len() == 3
                    &&& actions[0] is Emit
                    &&& actions[1] == Act::TrySend(
                        Packet {
                            packet_type: PacketType::Close,
                            sequence_no: 0,
                            payload: "pin_rejected".spec_bytes(),
                        },
                    )
                    &&& actions[2] is TryClose
                }
            }
            &&& heard is Nothing && !late ==> step == (
                ListenRun { phase: ListenPhase::GuardPausing { asked_ns }, ..run },
                ListenWish::Sleep(10),
            )
            &&& heard matches Utterance::Failed(error) ==> step == (
                ListenRun { phase: ListenPhase::Ending, ..run },
                ListenWish::Perform(seq![Act::Fail(AppError::Transport(error))]),
            )
        }),
{
}

/// A receiver that waits for the code keeps looking for it from the same moment on, and
/// stops where the session is cancelled.
pub proof fn law_the_code_is_waited_for(run: Listener, cancelled: bool, now_ns: u64)
    requires
        run.phase is GuardPausing,
    ensures
        ({
            let step = listen_step(run, ListenHappening::Done, cancelled, now_ns);
            &&& cancelled ==> is_stopped(step.1) && step.0.phase is Ending
            &&& !cancelled ==> step == (
                ListenRun {
                    phase: ListenPhase::Guarding { asked_ns: run.phase->GuardPausing_asked_ns },
                    ..run
                },
                ListenWish::Receive,
            )
        }),
{
}

/// A driver that tells of something else than it was asked for before the data runs, or
/// after it, ends the transfer with an error.
pub proof fn law_sender_out_of_step_fails(run: SendCourse, event: Happening, seen: Seen)
    requires
        match run.phase {
            SendPhase::Running { .. } => false,
            SendPhase::Waiting(_) => !(event is Packet || event is Garbled || event is Nothing
                || event is RecvFailed),
            SendPhase::Ending => true,
            _ => event !is Done,
        },
    ensures
        ({
            let step = send_step(run, event, seen);
            &&& step.0 == (SendRun { phase: SendPhase::Ending, ..run })
            &&& performed(step.1).len() == 1
            &&& performed(step.1)[0] matches Action::Fail(AppError::Protocol(_))
        }),
{
}

/// What a sender tells of its progress is true at every step of its whole course, and it
/// tells of none before its data runs or after it.
pub proof fn law_sender_tells_true_progress(run: SendCourse, event: Happening, seen: Seen)
    ensures
        ({
            let step = send_step(run, event, seen);
            let actions = performed(step.1);
            match step.0.phase {
                SendPhase::Running { run: SendLoop::Streaming(inner), .. } => reports_truly(
                    actions,
                    TransferDirection::Send,
                    inner.sender.bytes_acked,
                    inner.sender.file_size,
                ),
                SendPhase::Running { run: SendLoop::Windowed(inner), .. } => reports_truly(
                    actions,
                    TransferDirection::Send,
                    inner.sender.bytes_acked,
                    inner.sender.file_size,
                ),
                _ => forall|i: int|
                    0 <= i < actions.len() ==> progress_in(#[trigger] actions[i]) is None,
            }
        }),
{
    match run.phase {
        SendPhase::Running { run: inner, .. } => {
            lemma_loop_tells_true_progress(inner, event, seen);
        },
        SendPhase::Beginning { accepted, streaming, .. } => {
            let inner = send_loop(run.file, accepted, streaming, seen);
            lemma_loop_tells_true_progress(inner, Happening::Done, seen);
        },
        _ => {},
    }
}

proof fn lemma_loop_tells_true_progress(
    inner: SendLoop<Seq<(u32, usize)>>,
    event: Happening,
    seen: Seen,
)
    ensures
        ({
            let step = loop_step(inner, event, seen);
            &&& step.0 matches SendLoop::Streaming(stream) ==> reports_truly(
                performed(step.1),
                TransferDirection::Send,
                stream.sender.bytes_acked,
                stream.sender.file_size,
            )
            &&& step.0 matches SendLoop::Windowed(window) ==> reports_truly(
                performed(step.1),
                TransferDirection::Send,
                window.sender.bytes_acked,
                window.sender.file_size,
            )
        }),
{
    match inner {
        SendLoop::Streaming(stream) => {
            law_streamed_progress_is_true(stream, event, seen);
        },
        SendLoop::Windowed(window) => {
            law_windowed_progress_is_true(window, event, seen);
        },
    }
}

/// A packet that is no answer does not keep a sender waiting beyond its time, nor a
/// cancelled session alive.
pub proof fn law_side_packets_do_not_prolong_the_wait(
    run: SendCourse,
    packet: Packet<Seq<u8>>,
    seen: Seen,
)
    requires
        run.phase is Waiting,
        run.phase->Waiting_0.direction is Send,
        packet.packet_type !is Accept,
        packet.packet_type !is Close,
    ensures
        ({
            let step = send_step(run, Happening::Packet(packet), seen);
            let late = seen.now_ns - run.phase->Waiting_0.asked_ns >= 150_000_000_000;
            &&& seen.cancelled ==> step.0.phase is Ending && is_cancelled(performed(step.1), 0)
            &&& !seen.cancelled && late ==> step.0.phase is Ending && performed(step.1) == seq![
                Act::Fail(
                    AppError::Stalled("receiver did not answer the transfer offer within 150s"@),
                ),
            ]
        }),
{
}

/// A transfer that has begun takes the first step of its loop: that of a sender at the
/// start of its first turn. A session that is cancelled by then tells the receiver and
/// stops there.
pub proof fn law_begun_transfer_takes_its_first_turn(run: SendCourse, seen: Seen)
    requires
        run.phase is Beginning,
    ensures
        ({
            let accepted = run.phase->Beginning_accepted;
            let step = send_step(run, Happening::Done, seen);
            let stream = StreamRun {
                sender: streaming_start(
                    run.file.file_size,
                    accepted.sequence_no,
                    accepted.resume_bytes,
                    seen.now_ns,
                    seen.now_ms,
                ),
                phase: StreamPhase::Turn,
            };
            let window = WindowRun {
                sender: windowed_start(
                    run.file.file_size,
                    run.file.window_size,
                    accepted.sequence_no,
                    accepted.resume_bytes,
                    seen.now_ns,
                    seen.now_ms,
                ),
                phase: WindowPhase::Turn,
                turn_ms: seen.now_ms,
            };
            &&& step.0.phase matches SendPhase::Running { run: inner, .. } && if
            run.phase->Beginning_streaming {
                let first = stream_step(stream, Happening::Done, seen);
                inner == SendLoop::<Seq<(u32, usize)>>::Streaming(first.0) && step.1 == first.1
            } else {
                let first = window_step(window, Happening::Done, seen);
                inner == SendLoop::<Seq<(u32, usize)>>::Windowed(first.0) && step.1 == first.1
            }
            &&& seen.cancelled ==> is_cancelled(performed(step.1), accepted.sequence_no)
        }),
{
}

/// A peer that was welcomed is served, and a listener whose driver tells of something else
/// than it was asked for is finished.
pub proof fn law_welcome_peers_are_served(
    run: Listener,
    event: ListenHappening,
    cancelled: bool,
    now_ns: u64,
)
    ensures
        run.phase is Greeting && event is Done ==> listen_step(run, event, cancelled, now_ns) == (
            ListenRun { phase: ListenPhase::Ending, ..run },
            ListenWish::Serve,
        ),
        ({
            let awaited = match run.phase {
                ListenPhase::Listening => event is Done || event is Connected
                    || event is AcceptFailed,
                ListenPhase::Guarding { .. } => event is Heard,
                ListenPhase::Ending => false,
                _ => event is Done,
            };
            !awaited ==> listen_step(run, event, cancelled, now_ns) == (
                ListenRun { phase: ListenPhase::Ending, ..run },
                ListenWish::Finished,
            )
        }),
{
}

} // verus!
