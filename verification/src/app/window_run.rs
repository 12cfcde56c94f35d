//! The loop of a sender over a sliding window.

use vstd::prelude::*;

use crate::app::clock::{elapsed, sat};
use crate::app::drive::{lost_step, out_of_step, Event, Happening, Request, Seen, Wish};
use crate::app::error::AppError;
use crate::app::receive::{Act, DIAGNOSTIC_INTERVAL_MS};
use crate::app::script::{cancel_script, note, one_action, progress, rejection_script, Action};
use crate::app::streaming::{data_packet, SEND_STALL_TIMEOUT_NS};
use crate::app::types::{LogLevel, TransferDirection};
use crate::app::windowed::{
    window_concluded, window_diagnostic, window_heard, window_read, window_reports, windowed_start,
    WindowStep, WindowTurn, WindowedSend,
};
use crate::protocol::{Packet, PacketType};
use crate::text::{decimal, lossy};

verus! {

/// Where the loop stands.
#[derive(Debug, Clone, Copy, PartialEq, Eq, Structural)]
pub enum WindowPhase {
    /// At the start of a turn.
    Turn,
    /// A chunk is being read.
    Reading,
    /// A packet is being handed to the window.
    Filling,
    /// A frame is looked for.
    Receiving,
    /// An answer is being handed to the window.
    Handling,
    /// Progress is being told.
    Telling,
    /// The window sends.
    Sending,
    /// The state of the transfer is being logged.
    Logging,
    /// The transport's reports are being logged.
    Reporting,
    /// Everything is acknowledged, and this is being told.
    Concluding,
    /// The script that ends the transfer is being carried out.
    Ending,
}

/// The loop of a sender over a window.
pub struct WindowRun<O = Vec<(u32, usize)>> {
    pub sender: WindowedSend<O>,
    pub phase: WindowPhase,
    /// The time of day at the start of the turn.
    pub turn_ms: u64,
}

/// The loop, its lists taken as sequences.
pub type WindowLoop = WindowRun<Seq<(u32, usize)>>;

impl View for WindowRun {
    type V = WindowLoop;

    open spec fn view(&self) -> WindowLoop {
        WindowRun { sender: self.sender@, phase: self.phase, turn_ms: self.turn_ms }
    }
}

/// A loop and what it asks for.
pub type WindowLoopStep = (WindowLoop, Wish);

/// The file is read on while the window has room, and then packets are looked for.
pub open spec fn window_fills(run: WindowLoop, seen: Seen) -> WindowLoopStep {
    if !run.sender.file_done && seen.pending < 2 * run.sender.window_size {
        (WindowRun { phase: WindowPhase::Reading, ..run }, Wish::Read)
    } else {
        (WindowRun { phase: WindowPhase::Receiving, ..run }, Wish::Receive)
    }
}

/// A turn starts: a cancelled session ends.
pub open spec fn window_turn_starts(run: WindowLoop, seen: Seen) -> WindowLoopStep {
    if seen.cancelled {
        (
            WindowRun { phase: WindowPhase::Ending, ..run },
            Wish::Perform(cancel_script(TransferDirection::Send, run.sender.sequence_no)),
        )
    } else {
        window_fills(WindowRun { turn_ms: seen.now_ms, ..run }, seen)
    }
}

/// A chunk was read.
pub open spec fn window_chunk(run: WindowLoop, data: Seq<u8>) -> WindowLoopStep {
    let read = WindowRun { sender: window_read(run.sender, data), ..run };
    if data.len() == 0 {
        (WindowRun { phase: WindowPhase::Receiving, ..read }, Wish::Receive)
    } else {
        (
            WindowRun { phase: WindowPhase::Filling, ..read },
            Wish::Enqueue(data_packet(run.sender.sequence_no, data)),
        )
    }
}

/// A packet has come: the window is told, unless it is nothing for it, and a peer
/// that closes ends the transfer.
pub open spec fn window_packet(
    run: WindowLoop,
    packet: Packet<Seq<u8>>,
    seen: Seen,
) -> WindowLoopStep {
    let heard = WindowRun { sender: window_heard(run.sender, packet, seen.now_ns), ..run };
    match packet.packet_type {
        PacketType::Close => (
            WindowRun { phase: WindowPhase::Ending, ..heard },
            Wish::Perform(rejection_script(TransferDirection::Send, lossy(packet.payload))),
        ),
        PacketType::Accept => (heard, Wish::Receive),
        PacketType::Resume => (heard, Wish::Receive),
        PacketType::Auth => (heard, Wish::Receive),
        _ => (WindowRun { phase: WindowPhase::Handling, ..heard }, Wish::Control(packet)),
    }
}

/// No more packets are there: progress is told, if it is time to.
pub open spec fn window_tells(run: WindowLoop, seen: Seen) -> WindowLoopStep {
    if window_reports(run.sender, seen.now_ns) {
        (
            WindowRun {
                sender: WindowedSend {
                    progress_dirty: false,
                    last_progress_ns: Some(seen.now_ns),
                    ..run.sender
                },
                phase: WindowPhase::Telling,
                ..run
            },
            Wish::Perform(
                seq![
                    progress(
                        TransferDirection::Send,
                        run.sender.bytes_acked,
                        run.sender.file_size,
                    ),
                ],
            ),
        )
    } else {
        (WindowRun { phase: WindowPhase::Telling, ..run }, Wish::Perform(Seq::empty()))
    }
}

/// The window has sent: the state of the transfer is logged, if a second has passed.
pub open spec fn window_logs(run: WindowLoop, just_sent: usize, seen: Seen) -> WindowLoopStep {
    let counted = WindowedSend { data_sent: sat(run.sender.data_sent + just_sent), ..run.sender };
    if elapsed(run.turn_ms, run.sender.diag_last_ms) >= DIAGNOSTIC_INTERVAL_MS {
        (
            WindowRun {
                sender: WindowedSend { diag_last_ms: run.turn_ms, ..counted },
                phase: WindowPhase::Logging,
                ..run
            },
            Wish::Perform(
                seq![
                    note(
                        LogLevel::Info,
                        window_diagnostic(counted, seen.in_flight, seen.pending),
                    ),
                ],
            ),
        )
    } else {
        (
            WindowRun { sender: counted, phase: WindowPhase::Logging, ..run },
            Wish::Perform(Seq::empty()),
        )
    }
}

/// The end of a turn: the transfer is over once the file is at its end and the window
/// holds nothing, and it has stalled if nothing was heard for too long.
pub open spec fn window_settles(run: WindowLoop, seen: Seen) -> WindowLoopStep {
    if run.sender.file_done && seen.window_empty {
        (
            WindowRun { phase: WindowPhase::Concluding, ..run },
            Wish::Perform(window_concluded(run.sender)),
        )
    } else if !seen.window_empty && elapsed(seen.now_ns, run.sender.last_inbound_ns)
        >= SEND_STALL_TIMEOUT_NS {
        (
            WindowRun { phase: WindowPhase::Ending, ..run },
            Wish::Perform(
                seq![
                    Act::Fail(
                        AppError::Stalled(
                            "no packets from receiver for 30s ("@ + decimal(seen.in_flight as nat)
                                + " in flight, "@ + decimal(seen.pending as nat) + " pending)"@,
                        ),
                    ),
                ],
            ),
        )
    } else {
        window_turn_starts(run, seen)
    }
}

/// One step of the loop.
pub open spec fn window_step(run: WindowLoop, event: Happening, seen: Seen) -> WindowLoopStep {
    match (run.phase, event) {
        (WindowPhase::Turn, Happening::Done) => window_turn_starts(run, seen),
        (WindowPhase::Reading, Happening::Read(data)) => window_chunk(run, data),
        (WindowPhase::Filling, Happening::Done) => window_fills(run, seen),
        (WindowPhase::Receiving, Happening::Packet(packet)) => window_packet(run, packet, seen),
        (WindowPhase::Receiving, Happening::Nothing) => window_tells(run, seen),
        (WindowPhase::Receiving, Happening::Garbled(reason)) => (
            WindowRun { phase: WindowPhase::Ending, ..run },
            Wish::Perform(seq![Act::Fail(AppError::Protocol(reason))]),
        ),
        (WindowPhase::Receiving, Happening::RecvFailed { closed, error }) => (
            WindowRun { phase: WindowPhase::Ending, ..run },
            Wish::Perform(seq![Act::Fail(AppError::Transport(error))]),
        ),
        (WindowPhase::Handling, Happening::Done) => (
            WindowRun { phase: WindowPhase::Receiving, ..run },
            Wish::Receive,
        ),
        (WindowPhase::Telling, Happening::Done) => (
            WindowRun { phase: WindowPhase::Sending, ..run },
            Wish::SendWindow { now_ms: run.turn_ms },
        ),
        (WindowPhase::Sending, Happening::Sent(n)) => window_logs(run, n, seen),
        (WindowPhase::Logging, Happening::Done) => (
            WindowRun { phase: WindowPhase::Reporting, ..run },
            Wish::Diagnostics,
        ),
        (WindowPhase::Reporting, Happening::Done) => window_settles(run, seen),
        (WindowPhase::Concluding, Happening::Done) => (run, Wish::Finished),
        _ => (WindowRun { phase: WindowPhase::Ending, ..run }, Wish::Perform(out_of_step())),
    }
}

impl WindowRun {
    /// The packets that are not acknowledged are in order.
    pub open spec fn wf(self) -> bool {
        self.sender.wf()
    }

    /// The loop at its start.
    pub fn new(
        file_size: u64,
        window_size: usize,
        sequence_no: u32,
        resume_bytes: u64,
        now_ns: u64,
        now_ms: u64,
    ) -> (run: WindowRun)
        ensures
            run.wf(),
            run@ == (WindowRun {
                sender: windowed_start(
                    file_size,
                    window_size,
                    sequence_no,
                    resume_bytes,
                    now_ns,
                    now_ms,
                ),
                phase: WindowPhase::Turn,
                turn_ms: now_ms,
            }),
    {
        WindowRun {
            sender: WindowedSend::new(
                file_size,
                window_size,
                sequence_no,
                resume_bytes,
                now_ns,
                now_ms,
            ),
            phase: WindowPhase::Turn,
            turn_ms: now_ms,
        }
    }

    fn fill(&mut self, seen: &Seen) -> (request: Request)
        requires
            old(self).wf(),
        ensures
            final(self).wf(),
            (final(self)@, request@) == window_fills(old(self)@, *seen),
    {
        if self.sender.wants_data(seen.pending) {
            self.phase = WindowPhase::Reading;
            Request::Read
        } else {
            self.phase = WindowPhase::Receiving;
            Request::Receive
        }
    }

    fn start_turn(&mut self, seen: &Seen) -> (request: Request)
        requires
            old(self).wf(),
        ensures
            final(self).wf(),
            (final(self)@, request@) == window_turn_starts(old(self)@, *seen),
    {
        if seen.cancelled {
            self.phase = WindowPhase::Ending;
            return Request::Perform(self.sender.cancel());
        }
        self.turn_ms = seen.now_ms;
        self.fill(seen)
    }

    fn settle(&mut self, seen: &Seen) -> (request: Request)
        requires
            old(self).wf(),
        ensures
            final(self).wf(),
            (final(self)@, request@) == window_settles(old(self)@, *seen),
    {
        match self.sender.end_turn(seen.window_empty, seen.in_flight, seen.pending, seen.now_ns) {
            WindowTurn::Continue => self.start_turn(seen),
            WindowTurn::Done(actions) => {
                self.phase = WindowPhase::Concluding;
                Request::Perform(actions)
            },
            WindowTurn::Stalled(actions) => {
                self.phase = WindowPhase::Ending;
                Request::Perform(actions)
            },
        }
    }

    /// One step of the loop.
    pub fn step(&mut self, event: Event, seen: &Seen) -> (request: Request)
        requires
            old(self).wf(),
        ensures
            final(self).wf(),
            (final(self)@, request@) == window_step(old(self)@, event@, *seen),
    {
        match (self.phase, event) {
            (WindowPhase::Turn, Event::Done) => self.start_turn(seen),
            (WindowPhase::Reading, Event::Read(data)) => match self.sender.on_read(data) {
                Some(packet) => {
                    self.phase = WindowPhase::Filling;
                    Request::Enqueue(packet)
                },
                None => {
                    self.phase = WindowPhase::Receiving;
                    Request::Receive
                },
            },
            (WindowPhase::Filling, Event::Done) => self.fill(seen),
            (WindowPhase::Receiving, Event::Packet(packet)) => {
                match self.sender.on_packet(packet, seen.now_ns) {
                    WindowStep::Ignore => Request::Receive,
                    WindowStep::Control(control) => {
                        self.phase = WindowPhase::Handling;
                        Request::Control(control)
                    },
                    WindowStep::End(actions) => {
                        self.phase = WindowPhase::Ending;
                        Request::Perform(actions)
                    },
                }
            },
            (WindowPhase::Receiving, Event::Nothing) => {
                self.phase = WindowPhase::Telling;
                Request::Perform(self.sender.report(seen.now_ns))
            },
            (WindowPhase::Receiving, Event::Garbled(reason)) => {
                self.phase = WindowPhase::Ending;
                Request::Perform(one_action(Action::Fail(AppError::Protocol(reason))))
            },
            (WindowPhase::Receiving, Event::RecvFailed { closed: _, error }) => {
                self.phase = WindowPhase::Ending;
                Request::Perform(one_action(Action::Fail(AppError::Transport(error))))
            },
            (WindowPhase::Handling, Event::Done) => {
                self.phase = WindowPhase::Receiving;
                Request::Receive
            },
            (WindowPhase::Telling, Event::Done) => {
                self.phase = WindowPhase::Sending;
                Request::SendWindow { now_ms: self.turn_ms }
            },
            (WindowPhase::Sending, Event::Sent(n)) => {
                self.phase = WindowPhase::Logging;
                Request::Perform(
                    self.sender.on_sent(n, seen.in_flight, seen.pending, self.turn_ms),
                )
            },
            (WindowPhase::Logging, Event::Done) => {
                self.phase = WindowPhase::Reporting;
                Request::Diagnostics
            },
            (WindowPhase::Reporting, Event::Done) => self.settle(seen),
            (WindowPhase::Concluding, Event::Done) => Request::Finished,
            _ => {
                self.phase = WindowPhase::Ending;
                Request::Perform(lost_step())
            },
        }
    }
}

/// A sender over a window is done only once the file is at its end and the window
/// holds nothing more.
pub proof fn law_window_ends_empty(run: WindowLoop, event: Happening, seen: Seen)
    ensures
        run.phase !is Concluding && window_step(run, event, seen).0.phase is Concluding
            ==> run.sender.file_done && seen.window_empty,
        window_step(run, event, seen).1 is Finished ==> run.phase is Concluding,
{
}

/// Every chunk that is read is handed to the window, once and under the next number, and
/// nothing else is.
pub proof fn law_window_gets_what_is_read(run: WindowLoop, event: Happening, seen: Seen)
    ensures
        match window_step(run, event, seen).1 {
            Wish::Enqueue(packet) => run.phase is Reading && (event matches Happening::Read(data)
                && data.len() > 0 && packet == data_packet(run.sender.sequence_no, data)),
            _ => !(run.phase is Reading && (event matches Happening::Read(data) && data.len() > 0)),
        },
{
}

/// A cancelled session stops at the start of the next turn, which is the first one or
/// follows a turn that neither completed the transfer nor stalled: the receiver is
/// told, the user is told, and the transfer has failed with that.
pub proof fn law_cancelled_window_stops(run: WindowLoop, seen: Seen)
    requires
        run.phase is Turn || run.phase is Reporting,
        run.phase is Reporting ==> !(run.sender.file_done && seen.window_empty),
        run.phase is Reporting ==> seen.window_empty || elapsed(
            seen.now_ns,
            run.sender.last_inbound_ns,
        ) < SEND_STALL_TIMEOUT_NS,
        seen.cancelled,
    ensures
        window_step(run, Happening::Done, seen).1 == Wish::Perform(
            cancel_script(TransferDirection::Send, run.sender.sequence_no),
        ),
{
}

} // verus!
