//! The whole course of a transfer for the sender.

use vstd::prelude::*;

use crate::app::clock::elapsed;
use crate::app::drive::{lost_step, out_of_step, Event, Happening, Request, Seen, Wish};
use crate::app::error::AppError;
use crate::app::handshake::{
    accept_heard, accepted_with, AcceptStep, AcceptWait, Accepted, ACCEPT_WAIT_TIMEOUT_NS,
};
use crate::app::intake::is_ordered;
use crate::app::receive::Act;
use crate::app::script::{bare_packet, cancel_script, one_action, rejection_script, script, Action};
use crate::app::send::{beginning, completion, offering, send_summary, streams, Outgoing};
use crate::app::stream_run::{
    concludes_rightly, law_streaming_ends_acknowledged, stream_step, StreamLoop, StreamPhase,
    StreamRun,
};
use crate::app::streaming::{stream_complete, streaming_start};
use crate::app::types::TransferDirection;
use crate::app::window_run::{window_step, WindowLoop, WindowPhase, WindowRun};
use crate::app::windowed::windowed_start;
use crate::protocol::{Packet, PacketType};
use crate::text::{borrow, lossy, owned_text, text_of};

verus! {

/// How long the sender sleeps between two looks for the receiver's answer.
pub const ACCEPT_POLL_MS: u64 = 20;

/// The loop that sends the data.
pub enum SendLoop<O = Vec<(u32, usize)>> {
    Streaming(StreamRun<O>),
    Windowed(WindowRun<O>),
}

impl View for SendLoop {
    type V = SendLoop<Seq<(u32, usize)>>;

    open spec fn view(&self) -> SendLoop<Seq<(u32, usize)>> {
        match self {
            SendLoop::Streaming(run) => SendLoop::Streaming(run@),
            SendLoop::Windowed(run) => SendLoop::Windowed(run@),
        }
    }
}

/// Where the sender stands.
pub enum SendPhase<S = String, O = Vec<(u32, usize)>> {
    /// Nothing was done yet.
    Fresh,
    /// The file is being offered.
    Offering,
    /// A frame is looked for.
    Waiting(AcceptWait),
    /// The sender sleeps until it looks again.
    Pausing(AcceptWait),
    /// The transfer is being begun, and will stream or not.
    Beginning { accepted: Accepted<S>, started_ns: u64, streaming: bool },
    /// The data is being sent.
    Running { accepted: Accepted<S>, started_ns: u64, run: SendLoop<O> },
    /// The connection is being closed. It ran over `relayed`.
    Closing { accepted: Accepted<S>, started_ns: u64, relayed: Option<bool> },
    /// The script that ends the transfer is being carried out.
    Ending,
}

impl View for SendPhase {
    type V = SendPhase<Seq<char>, Seq<(u32, usize)>>;

    open spec fn view(&self) -> SendPhase<Seq<char>, Seq<(u32, usize)>> {
        match self {
            SendPhase::Fresh => SendPhase::Fresh,
            SendPhase::Offering => SendPhase::Offering,
            SendPhase::Waiting(wait) => SendPhase::Waiting(*wait),
            SendPhase::Pausing(wait) => SendPhase::Pausing(*wait),
            SendPhase::Beginning { accepted, started_ns, streaming } => SendPhase::Beginning {
                accepted: accepted@,
                started_ns: *started_ns,
                streaming: *streaming,
            },
            SendPhase::Running { accepted, started_ns, run } => SendPhase::Running {
                accepted: accepted@,
                started_ns: *started_ns,
                run: run@,
            },
            SendPhase::Closing { accepted, started_ns, relayed } => SendPhase::Closing {
                accepted: accepted@,
                started_ns: *started_ns,
                relayed: *relayed,
            },
            SendPhase::Ending => SendPhase::Ending,
        }
    }
}

/// The course of a transfer for the sender.
pub struct SendRun<S = String, O = Vec<(u32, usize)>> {
    pub file: Outgoing<S>,
    pub pin: Option<S>,
    pub device_name: Option<S>,
    pub phase: SendPhase<S, O>,
}

/// The course of a transfer, its texts and lists taken as sequences.
pub type SendCourse = SendRun<Seq<char>, Seq<(u32, usize)>>;

impl View for SendRun {
    type V = SendCourse;

    open spec fn view(&self) -> SendCourse {
        SendRun {
            file: self.file@,
            pin: owned_text(self.pin),
            device_name: owned_text(self.device_name),
            phase: self.phase@,
        }
    }
}

/// The course of a transfer and what it asks for.
pub type SendStep = (SendCourse, Wish);

/// The sender at a phase, and actions.
pub open spec fn send_performs(
    run: SendCourse,
    phase: SendPhase<Seq<char>, Seq<(u32, usize)>>,
    actions: Seq<Act>,
) -> SendStep {
    (SendRun { phase, ..run }, Wish::Perform(actions))
}

/// The sender looks for the receiver's answer, unless the session is cancelled or the
/// receiver has taken too long.
pub open spec fn send_waits(run: SendCourse, wait: AcceptWait, seen: Seen) -> SendStep {
    if seen.cancelled {
        send_performs(run, SendPhase::Ending, cancel_script(wait.direction, 0))
    } else if elapsed(seen.now_ns, wait.asked_ns) >= ACCEPT_WAIT_TIMEOUT_NS {
        send_performs(
            run,
            SendPhase::Ending,
            seq![
                Act::Fail(
                    AppError::Stalled("receiver did not answer the transfer offer within 150s"@),
                ),
            ],
        )
    } else {
        (SendRun { phase: SendPhase::Waiting(wait), ..run }, Wish::Receive)
    }
}

/// A packet has come before the receiver's answer, or it is the answer.
pub open spec fn send_answered(
    run: SendCourse,
    wait: AcceptWait,
    packet: Packet<Seq<u8>>,
    seen: Seen,
) -> SendStep {
    match packet.packet_type {
        PacketType::Accept => {
            let accepted = accepted_with(wait, packet);
            send_performs(
                run,
                SendPhase::Beginning {
                    accepted,
                    started_ns: seen.now_ns,
                    streaming: streams(accepted, seen.relayed),
                },
                beginning(run.file, accepted, seen.relayed),
            )
        },
        PacketType::Close => send_performs(
            run,
            SendPhase::Ending,
            rejection_script(wait.direction, lossy(packet.payload)),
        ),
        _ => send_waits(run, accept_heard(wait, packet), seen),
    }
}

/// The loop that an accepted transfer runs.
pub open spec fn send_loop(
    file: Outgoing<Seq<char>>,
    accepted: Accepted<Seq<char>>,
    streaming: bool,
    seen: Seen,
) -> SendLoop<Seq<(u32, usize)>> {
    if streaming {
        SendLoop::Streaming(
            StreamRun {
                sender: streaming_start(
                    file.file_size,
                    accepted.sequence_no,
                    accepted.resume_bytes,
                    seen.now_ns,
                    seen.now_ms,
                ),
                phase: StreamPhase::Turn,
            },
        )
    } else {
        SendLoop::Windowed(
            WindowRun {
                sender: windowed_start(
                    file.file_size,
                    file.window_size,
                    accepted.sequence_no,
                    accepted.resume_bytes,
                    seen.now_ns,
                    seen.now_ms,
                ),
                phase: WindowPhase::Turn,
                turn_ms: seen.now_ms,
            },
        )
    }
}

/// One step of the loop that sends the data.
pub open spec fn loop_step(
    run: SendLoop<Seq<(u32, usize)>>,
    event: Happening,
    seen: Seen,
) -> (SendLoop<Seq<(u32, usize)>>, Wish) {
    match run {
        SendLoop::Streaming(inner) => {
            let step = stream_step(inner, event, seen);
            (SendLoop::Streaming(step.0), step.1)
        },
        SendLoop::Windowed(inner) => {
            let step = window_step(inner, event, seen);
            (SendLoop::Windowed(step.0), step.1)
        },
    }
}

/// How the connection is closed after a loop. Over a window the receiver is told that
/// the file is at its end; a streaming sender has told it already.
pub open spec fn closing_script(run: SendLoop<Seq<(u32, usize)>>) -> Seq<Act> {
    match run {
        SendLoop::Streaming(_) => seq![Act::Close],
        SendLoop::Windowed(inner) => seq![
            Act::Send(bare_packet(PacketType::Finish, inner.sender.sequence_no)),
            Act::Close,
        ],
    }
}

/// The loop goes on, and the connection is closed once it is finished.
pub open spec fn send_runs(
    run: SendCourse,
    accepted: Accepted<Seq<char>>,
    started_ns: u64,
    inner: SendLoop<Seq<(u32, usize)>>,
    event: Happening,
    seen: Seen,
) -> SendStep {
    let step = loop_step(inner, event, seen);
    if step.1 is Finished {
        send_performs(
            run,
            SendPhase::Closing { accepted, started_ns, relayed: seen.relayed },
            closing_script(step.0),
        )
    } else {
        (
            SendRun { phase: SendPhase::Running { accepted, started_ns, run: step.0 }, ..run },
            step.1,
        )
    }
}

/// One step of the sender.
pub open spec fn send_step(run: SendCourse, event: Happening, seen: Seen) -> SendStep {
    match (run.phase, event) {
        (SendPhase::Fresh, Happening::Done) => send_performs(
            run,
            SendPhase::Offering,
            offering(run.file, seen.relayed, run.pin, run.device_name),
        ),
        (SendPhase::Offering, Happening::Done) => send_waits(
            run,
            AcceptWait {
                direction: TransferDirection::Send,
                asked_ns: seen.now_ns,
                resume_bytes: 0,
                receiver_streams: false,
            },
            seen,
        ),
        (SendPhase::Waiting(wait), Happening::Packet(packet)) => send_answered(
            run,
            wait,
            packet,
            seen,
        ),
        (SendPhase::Waiting(wait), Happening::Nothing) => (
            SendRun { phase: SendPhase::Pausing(wait), ..run },
            Wish::Sleep(ACCEPT_POLL_MS),
        ),
        (SendPhase::Waiting(_), Happening::Garbled(reason)) => send_performs(
            run,
            SendPhase::Ending,
            seq![Act::Fail(AppError::Protocol(reason))],
        ),
        (SendPhase::Waiting(_), Happening::RecvFailed { closed, error }) => send_performs(
            run,
            SendPhase::Ending,
            seq![Act::Fail(AppError::Transport(error))],
        ),
        (SendPhase::Pausing(wait), Happening::Done) => send_waits(run, wait, seen),
        (SendPhase::Beginning { accepted, started_ns, streaming }, Happening::Done) => send_runs(
            run,
            accepted,
            started_ns,
            send_loop(run.file, accepted, streaming, seen),
            Happening::Done,
            seen,
        ),
        (SendPhase::Running { accepted, started_ns, run: inner }, _) => send_runs(
            run,
            accepted,
            started_ns,
            inner,
            event,
            seen,
        ),
        (SendPhase::Closing { accepted, started_ns, relayed }, Happening::Done) => send_performs(
            run,
            SendPhase::Ending,
            completion(send_summary(run.file, accepted, relayed, started_ns, seen.now_ns)),
        ),
        _ => send_performs(run, SendPhase::Ending, out_of_step()),
    }
}

impl SendLoop {
    /// The packets that are not acknowledged are in order.
    pub open spec fn wf(self) -> bool {
        match self {
            SendLoop::Streaming(run) => run.wf(),
            SendLoop::Windowed(run) => run.wf(),
        }
    }

    fn step(self, event: Event, seen: &Seen) -> (r: (SendLoop, Request))
        requires
            self.wf(),
        ensures
            r.0.wf(),
            (r.0@, r.1@) == loop_step(self@, event@, *seen),
    {
        match self {
            SendLoop::Streaming(run) => {
                let mut inner: StreamRun = run;
                let request: Request = inner.step(event, seen);
                (SendLoop::Streaming(inner), request)
            },
            SendLoop::Windowed(run) => {
                let mut inner: WindowRun = run;
                let request: Request = inner.step(event, seen);
                (SendLoop::Windowed(inner), request)
            },
        }
    }
}

impl SendRun {
    /// The packets that are not acknowledged are in order.
    pub open spec fn wf(self) -> bool {
        self.phase matches SendPhase::Running { run, .. } ==> run.wf()
    }

    /// The course of a transfer at its start.
    pub fn new(file: Outgoing, pin: Option<&str>, device_name: Option<&str>) -> (run: SendRun)
        ensures
            run.wf(),
            run@ == (SendCourse {
                file: file@,
                pin: text_of(pin),
                device_name: text_of(device_name),
                phase: SendPhase::Fresh,
            }),
    {
        SendRun {
            file,
            pin: crate::text::own(pin),
            device_name: crate::text::own(device_name),
            phase: SendPhase::Fresh,
        }
    }

    fn wait(&mut self, wait: AcceptWait, seen: &Seen) -> (request: Request)
        ensures
            final(self).wf(),
            (final(self)@, request@) == send_waits(old(self)@, wait, *seen),
    {
        let over: Vec<Action> = wait.poll(seen.cancelled, seen.now_ns);
        assert(over@.len() == script(over@).len());
        if over.len() > 0 {
            self.phase = SendPhase::Ending;
            return Request::Perform(over);
        }
        self.phase = SendPhase::Waiting(wait);
        Request::Receive
    }

    fn run(
        &mut self,
        accepted: Accepted,
        started_ns: u64,
        inner: SendLoop,
        event: Event,
        seen: &Seen,
    ) -> (request: Request)
        requires
            inner.wf(),
        ensures
            final(self).wf(),
            (final(self)@, request@) == send_runs(
                old(self)@,
                accepted@,
                started_ns,
                inner@,
                event@,
                *seen,
            ),
    {
        let (next, request) = inner.step(event, seen);
        match request {
            Request::Finished => {
                let actions: Vec<Action> = match next {
                    SendLoop::Streaming(run) => self.file.close(true, run.sender.sequence_no),
                    SendLoop::Windowed(run) => self.file.close(false, run.sender.sequence_no),
                };
                self.phase = SendPhase::Closing { accepted, started_ns, relayed: seen.relayed };
                Request::Perform(actions)
            },
            other => {
                self.phase = SendPhase::Running { accepted, started_ns, run: next };
                other
            },
        }
    }

    /// One step of the sender.
    pub fn step(&mut self, event: Event, seen: &Seen) -> (request: Request)
        requires
            old(self).wf(),
        ensures
            final(self).wf(),
            (final(self)@, request@) == send_step(old(self)@, event@, *seen),
    {
        let mut phase: SendPhase = SendPhase::Ending;
        std::mem::swap(&mut phase, &mut self.phase);
        match (phase, event) {
            (SendPhase::Fresh, Event::Done) => {
                self.phase = SendPhase::Offering;
                Request::Perform(
                    self.file.offer(seen.relayed, borrow(&self.pin), borrow(&self.device_name)),
                )
            },
            (SendPhase::Offering, Event::Done) => {
                let wait: AcceptWait = AcceptWait::new(TransferDirection::Send, seen.now_ns);
                self.wait(wait, seen)
            },
            (SendPhase::Waiting(held), Event::Packet(packet)) => {
                let mut wait: AcceptWait = held;
                match wait.on_packet(packet) {
                    AcceptStep::Accepted(accepted) => {
                        let actions: Vec<Action> = self.file.begin(&accepted, seen.relayed);
                        let streaming: bool = self.file.streams(&accepted, seen.relayed);
                        self.phase = SendPhase::Beginning {
                            accepted,
                            started_ns: seen.now_ns,
                            streaming,
                        };
                        Request::Perform(actions)
                    },
                    AcceptStep::End(actions) => {
                        self.phase = SendPhase::Ending;
                        Request::Perform(actions)
                    },
                    AcceptStep::Wait => self.wait(wait, seen),
                }
            },
            (SendPhase::Waiting(wait), Event::Nothing) => {
                self.phase = SendPhase::Pausing(wait);
                Request::Sleep(ACCEPT_POLL_MS)
            },
            (SendPhase::Waiting(_), Event::Garbled(reason)) => {
                self.phase = SendPhase::Ending;
                Request::Perform(one_action(Action::Fail(AppError::Protocol(reason))))
            },
            (SendPhase::Waiting(_), Event::RecvFailed { closed: _, error }) => {
                self.phase = SendPhase::Ending;
                Request::Perform(one_action(Action::Fail(AppError::Transport(error))))
            },
            (SendPhase::Pausing(wait), Event::Done) => self.wait(wait, seen),
            (SendPhase::Beginning { accepted, started_ns, streaming }, Event::Done) => {
                let inner: SendLoop = if streaming {
                    SendLoop::Streaming(
                        StreamRun::new(
                            self.file.file_size,
                            accepted.sequence_no,
                            accepted.resume_bytes,
                            seen.now_ns,
                            seen.now_ms,
                        ),
                    )
                } else {
                    SendLoop::Windowed(
                        WindowRun::new(
                            self.file.file_size,
                            self.file.window_size,
                            accepted.sequence_no,
                            accepted.resume_bytes,
                            seen.now_ns,
                            seen.now_ms,
                        ),
                    )
                };
                self.run(accepted, started_ns, inner, Event::Done, seen)
            },
            (SendPhase::Running { accepted, started_ns, run }, running) => {
                self.run(accepted, started_ns, run, running, seen)
            },
            (SendPhase::Closing { accepted, started_ns, relayed }, Event::Done) => {
                self.phase = SendPhase::Ending;
                Request::Perform(
                    self.file.complete(&accepted, relayed, started_ns, seen.now_ns),
                )
            },
            _ => {
                self.phase = SendPhase::Ending;
                Request::Perform(lost_step())
            },
        }
    }
}

/// Whether the sender is right about a streaming loop being complete.
pub open spec fn runs_rightly(run: SendCourse) -> bool {
    run.phase matches SendPhase::Running { run: SendLoop::Streaming(inner), .. }
        ==> concludes_rightly(inner)
}

/// A sender that streams closes the connection only once every byte of the file is
/// acknowledged.
pub proof fn law_streaming_closes_acknowledged(run: SendCourse, event: Happening, seen: Seen)
    requires
        runs_rightly(run),
    ensures
        runs_rightly(send_step(run, event, seen).0),
        run.phase !is Closing && send_step(run, event, seen).0.phase is Closing ==> (
        run.phase matches SendPhase::Running { run: SendLoop::Streaming(inner), .. }
            ==> stream_complete(inner.sender)),
{
    match run.phase {
        SendPhase::Running { run: SendLoop::Streaming(inner), .. } => {
            law_streaming_ends_acknowledged(inner, event, seen);
        },
        SendPhase::Beginning { accepted, started_ns, streaming } => {
            let inner = send_loop(run.file, accepted, streaming, seen);
            if inner is Streaming {
                law_streaming_ends_acknowledged(inner->Streaming_0, Happening::Done, seen);
            }
        },
        _ => {},
    }
}

/// Whether a script says that a transfer is complete.
pub open spec fn says_complete(actions: Seq<Act>) -> bool {
    exists|i: int| 0 <= i < actions.len() && (#[trigger] actions[i]) is Complete
}

proof fn lemma_stream_loop_completes_nothing(run: StreamLoop, event: Happening, seen: Seen)
    ensures
        stream_step(run, event, seen).1 matches Wish::Perform(actions) ==> !says_complete(actions),
{
}

proof fn lemma_window_loop_completes_nothing(run: WindowLoop, event: Happening, seen: Seen)
    ensures
        window_step(run, event, seen).1 matches Wish::Perform(actions) ==> !says_complete(actions),
{
}

proof fn lemma_loop_completes_nothing(
    run: SendCourse,
    accepted: Accepted<Seq<char>>,
    started_ns: u64,
    inner: SendLoop<Seq<(u32, usize)>>,
    event: Happening,
    seen: Seen,
)
    ensures
        send_runs(run, accepted, started_ns, inner, event, seen).1 matches Wish::Perform(actions)
            ==> !says_complete(actions),
{
    match inner {
        SendLoop::Streaming(run) => {
            lemma_stream_loop_completes_nothing(run, event, seen);
        },
        SendLoop::Windowed(run) => {
            lemma_window_loop_completes_nothing(run, event, seen);
        },
    }
}

/// A sender says that a transfer is complete only after it has closed the connection, and
/// of the whole file.
pub proof fn law_complete_comes_last(run: SendCourse, event: Happening, seen: Seen)
    ensures
        send_step(run, event, seen).1 matches Wish::Perform(actions) ==> (says_complete(actions)
            ==> run.phase is Closing && actions == completion(
            send_summary(
                run.file,
                run.phase->Closing_accepted,
                run.phase->Closing_relayed,
                run.phase->Closing_started_ns,
                seen.now_ns,
            ),
        )),
{
    match run.phase {
        SendPhase::Beginning { accepted, started_ns, streaming } => {
            let inner = send_loop(run.file, accepted, streaming, seen);
            lemma_loop_completes_nothing(run, accepted, started_ns, inner, event, seen);
        },
        SendPhase::Running { accepted, started_ns, run: inner } => {
            lemma_loop_completes_nothing(run, accepted, started_ns, inner, event, seen);
        },
        _ => {},
    }
}

/// What a sender says of a complete transfer holds together: it has sent the whole file,
/// and was not resumed with more than that, where the receiver had no more.
pub proof fn law_sent_summary_is_ordered(
    file: Outgoing<Seq<char>>,
    accepted: Accepted<Seq<char>>,
    relayed: Option<bool>,
    started_ns: u64,
    now_ns: u64,
)
    requires
        accepted.resume_bytes <= file.file_size,
    ensures
        is_ordered(send_summary(file, accepted, relayed, started_ns, now_ns)),
{
}

} // verus!
