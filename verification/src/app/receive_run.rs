//! The whole course of a transfer for the receiver.

use vstd::prelude::*;
use vstd::string::*;

use crate::app::clock::{elapsed, sat};
use crate::app::drive::{lost_step, out_of_step, performed, Event, Happening, Request, Seen, Wish};
use crate::app::error::AppError;
use crate::app::intake::{
    concluded, data_taken, finished, is_ordered, is_whole, joined, keeps_baseline,
    lemma_data_written, lemma_joined_len, lemma_nothing_written, lemma_written_join, summary_in,
    total_len, written,
};
use crate::app::name::{
    clean_name, file_name, law_saved_name_stays_in_folder, saved_name, stays_in_folder,
};
use crate::app::payload::start_fields;
use crate::app::receive::{
    acceptance, after_frame, after_offer, after_packet, decline_script, fresh_receiver,
    offer_script, prepare_resume_state, reaction, receive_cancelled, receive_diagnostic,
    receive_idle, resume_plan, Act, Approval, Reaction, ReceiveStep, ReceiveTransfer, Receiving,
    SavedCheckpoint, APPROVAL_TIMEOUT_NS, DIAGNOSTIC_INTERVAL_MS, RECEIVE_STALL_TIMEOUT_NS,
};
use crate::app::script::{
    cancel_script, close_packet, mode_of, note, one_action, tell, Action, CLOSE_REASON_CANCELLED,
};
use crate::app::types::{AcceptDecision, LogLevel, TransferDirection, TransferEvent};
use crate::stream::{advanced, ResumeCheckpoint};
use crate::text::{lossy, owned_text, text_of};

verus! {

/// How long the receiver sleeps between two looks at the user's answer.
pub const APPROVAL_POLL_MS: u64 = 50;

/// Where the receiver stands.
#[derive(Debug, Clone, Copy, PartialEq, Eq, Structural)]
pub enum ReceivePhase {
    /// Nothing was done yet.
    Fresh,
    /// At the start of a turn.
    Turn,
    /// The state of the transfer is being logged.
    Logging,
    /// The transport's reports are being logged.
    Reporting,
    /// A frame is looked for.
    Receiving,
    /// The driver finds out about an offered file.
    Preparing,
    /// The file is being opened.
    Opening,
    /// The offer is being told.
    Offering,
    /// The user is asked.
    Asking,
    /// The user's answer is being forgotten.
    Answered,
    /// The acceptance is being sent.
    Accepting,
    /// A data packet is in the window.
    Windowing,
    /// What follows the sender's last packet is being done.
    Finishing,
    /// The script that ends the transfer is being carried out.
    Ending,
}

/// An offered file whose transfer has not begun.
pub struct OfferedFile<S = String> {
    pub size: u64,
    pub sender_name: Option<S>,
    pub name: S,
    pub checkpoint: Option<SavedCheckpoint<S>>,
}

impl View for OfferedFile {
    type V = OfferedFile<Seq<char>>;

    open spec fn view(&self) -> OfferedFile<Seq<char>> {
        OfferedFile {
            size: self.size,
            sender_name: owned_text(self.sender_name),
            name: self.name@,
            checkpoint: crate::app::receive::saved_of(self.checkpoint),
        }
    }
}

/// The course of a transfer for the receiver.
pub struct ReceiveRun<S = String> {
    pub receiver: ReceiveTransfer<S>,
    pub phase: ReceivePhase,
    pub offered: Option<OfferedFile<S>>,
    pub asked_ns: u64,
    /// What separates the parts of a path on this machine.
    pub separator: char,
}

/// The course of a transfer, its texts taken as sequences.
pub type ReceiveLoop = ReceiveRun<Seq<char>>;

/// What an optional offered file holds.
pub open spec fn offered_of(offered: Option<OfferedFile>) -> Option<OfferedFile<Seq<char>>> {
    match offered {
        Some(file) => Some(file@),
        None => None,
    }
}

impl View for ReceiveRun {
    type V = ReceiveLoop;

    open spec fn view(&self) -> ReceiveLoop {
        ReceiveRun {
            receiver: self.receiver@,
            phase: self.phase,
            offered: offered_of(self.offered),
            asked_ns: self.asked_ns,
            separator: self.separator,
        }
    }
}

/// The course of a transfer and what it asks for.
pub type ReceiveLoopStep = (ReceiveLoop, Wish);

/// The course of a transfer at a phase, and actions.
pub open spec fn performs(
    run: ReceiveLoop,
    phase: ReceivePhase,
    actions: Seq<Act>,
) -> ReceiveLoopStep {
    (ReceiveRun { phase, ..run }, Wish::Perform(actions))
}

/// A turn starts: a cancelled session ends, and else the state of the transfer is
/// logged, if a second has passed.
pub open spec fn receive_turn_starts(run: ReceiveLoop, seen: Seen) -> ReceiveLoopStep {
    let state = run.receiver;
    if seen.cancelled {
        performs(run, ReceivePhase::Ending, receive_cancelled(state, seen.next_expected))
    } else if elapsed(seen.now_ms, state.diag_last_ms) >= DIAGNOSTIC_INTERVAL_MS {
        performs(
            ReceiveRun {
                receiver: ReceiveTransfer { diag_last_ms: seen.now_ms, ..state },
                ..run
            },
            ReceivePhase::Logging,
            seq![note(LogLevel::Info, receive_diagnostic(state, seen.next_expected))],
        )
    } else {
        performs(run, ReceivePhase::Logging, Seq::empty())
    }
}

/// No frame has come: the transfer has stalled, or the next turn starts.
pub open spec fn receive_waits(run: ReceiveLoop, seen: Seen) -> ReceiveLoopStep {
    let stalled = receive_idle(run.receiver, seen.next_expected, seen.now_ns);
    if stalled.len() > 0 {
        performs(run, ReceivePhase::Ending, stalled)
    } else {
        receive_turn_starts(run, seen)
    }
}

/// The transfer is over.
pub open spec fn receive_ends(run: ReceiveLoop, seen: Seen) -> ReceiveLoopStep {
    performs(run, ReceivePhase::Ending, concluded(run.receiver, seen.relayed, seen.now_ns))
}

/// A packet has come.
pub open spec fn receive_packet(
    run: ReceiveLoop,
    packet: crate::protocol::Packet<Seq<u8>>,
    seen: Seen,
) -> ReceiveLoopStep {
    let counted = after_frame(run.receiver, seen.now_ns);
    let heard = ReceiveRun { receiver: after_packet(counted, packet), ..run };
    match reaction(counted, packet) {
        Reaction::Continue(actions) => performs(heard, ReceivePhase::Turn, actions),
        Reaction::Conclude => receive_ends(heard, seen),
        Reaction::End(actions) => performs(heard, ReceivePhase::Ending, actions),
        Reaction::Offered(size, announced, sender_name) => {
            let name = saved_name(announced, run.separator);
            (
                ReceiveRun {
                    phase: ReceivePhase::Preparing,
                    offered: Some(
                        OfferedFile { size: size as u64, sender_name, name, checkpoint: None },
                    ),
                    ..heard
                },
                Wish::Prepare { name, size: size as u64 },
            )
        },
        Reaction::Data(data) => (
            ReceiveRun { phase: ReceivePhase::Windowing, ..heard },
            Wish::Window(data),
        ),
        Reaction::Finish => {
            let done = finished(heard.receiver, seen.next_expected);
            performs(
                ReceiveRun { receiver: done.0, ..heard },
                ReceivePhase::Finishing,
                done.1,
            )
        },
    }
}

/// The driver has found out about the offered file: it is opened.
pub open spec fn receive_opens(
    run: ReceiveLoop,
    loaded: Option<ResumeCheckpoint<Seq<char>>>,
    path: Seq<char>,
    chunk_size: usize,
) -> ReceiveLoopStep {
    match run.offered {
        Some(file) => {
            let plan = resume_plan(loaded, file.name, file.size, chunk_size);
            performs(
                ReceiveRun {
                    offered: Some(
                        OfferedFile {
                            checkpoint: Some(SavedCheckpoint { checkpoint: plan.0, path }),
                            ..file
                        },
                    ),
                    ..run
                },
                ReceivePhase::Opening,
                plan.1,
            )
        },
        None => (ReceiveRun { phase: ReceivePhase::Ending, ..run }, Wish::Perform(out_of_step())),
    }
}

/// The file is open: the offer is told.
pub open spec fn receive_tells_offer(run: ReceiveLoop, seen: Seen) -> ReceiveLoopStep {
    match run.offered {
        Some(OfferedFile { size, sender_name, name, checkpoint: Some(saved) }) => {
            let receiver = after_offer(
                run.receiver,
                name,
                size,
                sender_name,
                saved,
                seen.now_ns,
            );
            performs(
                ReceiveRun { receiver, offered: None, ..run },
                ReceivePhase::Offering,
                offer_script(receiver),
            )
        },
        _ => (ReceiveRun { phase: ReceivePhase::Ending, ..run }, Wish::Perform(out_of_step())),
    }
}

/// The acceptance is sent.
pub open spec fn receive_accepts(run: ReceiveLoop, seen: Seen) -> ReceiveLoopStep {
    performs(
        ReceiveRun {
            receiver: ReceiveTransfer {
                stream_offered: run.receiver.stream_offered || seen.relayed is None,
                ..run.receiver
            },
            ..run
        },
        ReceivePhase::Accepting,
        acceptance(run.receiver, seen.relayed),
    )
}

/// The user is asked, and waited for.
pub open spec fn receive_asks(run: ReceiveLoop, seen: Seen) -> ReceiveLoopStep {
    let sequence_no = run.receiver.resume_sequence;
    if seen.cancelled {
        performs(
            run,
            ReceivePhase::Ending,
            cancel_script(TransferDirection::Receive, sequence_no),
        )
    } else {
        match seen.decision {
            AcceptDecision::Accepted => (
                ReceiveRun { phase: ReceivePhase::Answered, ..run },
                Wish::ResetDecision,
            ),
            AcceptDecision::Declined => performs(
                run,
                ReceivePhase::Ending,
                decline_script(sequence_no, "transfer declined"@),
            ),
            AcceptDecision::Pending => if elapsed(seen.now_ns, run.asked_ns)
                >= APPROVAL_TIMEOUT_NS {
                performs(
                    run,
                    ReceivePhase::Ending,
                    decline_script(sequence_no, "no decision within 120s; transfer declined"@),
                )
            } else {
                (
                    ReceiveRun { phase: ReceivePhase::Asking, ..run },
                    Wish::Sleep(APPROVAL_POLL_MS),
                )
            },
        }
    }
}

/// The offer was told: the user is asked, unless the receiver accepts by itself.
pub open spec fn receive_answers(run: ReceiveLoop, seen: Seen) -> ReceiveLoopStep {
    if run.receiver.auto_accept {
        receive_accepts(run, seen)
    } else {
        receive_asks(ReceiveRun { asked_ns: seen.now_ns, ..run }, seen)
    }
}

/// One step of the receiver.
pub open spec fn receive_step(run: ReceiveLoop, event: Happening, seen: Seen) -> ReceiveLoopStep {
    let state = run.receiver;
    match (run.phase, event) {
        (ReceivePhase::Fresh, Happening::Done) => performs(
            run,
            ReceivePhase::Turn,
            seq![
                tell(
                    TransferEvent::ConnectionEstablished {
                        direction: TransferDirection::Receive,
                        mode: mode_of(seen.relayed),
                    },
                ),
                note(LogLevel::Info, "DIAG recv: transfer loop start, waiting for packets"@),
            ],
        ),
        (ReceivePhase::Turn, Happening::Done) => receive_turn_starts(run, seen),
        (ReceivePhase::Logging, Happening::Done) => (
            ReceiveRun { phase: ReceivePhase::Reporting, ..run },
            Wish::Diagnostics,
        ),
        (ReceivePhase::Reporting, Happening::Done) => (
            ReceiveRun { phase: ReceivePhase::Receiving, ..run },
            Wish::Receive,
        ),
        (ReceivePhase::Receiving, Happening::Nothing) => receive_waits(run, seen),
        (ReceivePhase::Receiving, Happening::RecvFailed { closed, error }) => if closed {
            receive_ends(run, seen)
        } else {
            performs(run, ReceivePhase::Ending, seq![Act::Fail(AppError::Transport(error))])
        },
        (ReceivePhase::Receiving, Happening::Garbled(reason)) => performs(
            ReceiveRun { receiver: after_frame(state, seen.now_ns), ..run },
            ReceivePhase::Ending,
            seq![Act::Fail(AppError::Protocol(reason))],
        ),
        (ReceivePhase::Receiving, Happening::Packet(packet)) => receive_packet(run, packet, seen),
        (ReceivePhase::Preparing, Happening::Prepared { loaded, path, chunk_size }) =>
            receive_opens(run, loaded, path, chunk_size),
        (ReceivePhase::Opening, Happening::Done) => receive_tells_offer(run, seen),
        (ReceivePhase::Offering, Happening::Done) => receive_answers(run, seen),
        (ReceivePhase::Asking, Happening::Done) => receive_asks(run, seen),
        (ReceivePhase::Answered, Happening::Done) => receive_accepts(run, seen),
        (ReceivePhase::Accepting, Happening::Done) => performs(
            ReceiveRun {
                receiver: ReceiveTransfer {
                    started_ns: seen.now_ns,
                    last_frame_ns: seen.now_ns,
                    ..state
                },
                ..run
            },
            ReceivePhase::Turn,
            seq![
                tell(
                    TransferEvent::Started {
                        direction: TransferDirection::Receive,
                        file_name: state.file_name,
                        total_bytes: state.file_size,
                        resumed_bytes: state.resume_bytes,
                    },
                ),
            ],
        ),
        (ReceivePhase::Windowing, Happening::Windowed { controls, payloads }) => {
            let taken = data_taken(state, controls, payloads, seen.next_expected, seen.now_ns);
            performs(ReceiveRun { receiver: taken.0, ..run }, ReceivePhase::Turn, taken.1)
        },
        (ReceivePhase::Finishing, Happening::Done) => receive_ends(run, seen),
        _ => (ReceiveRun { phase: ReceivePhase::Ending, ..run }, Wish::Perform(out_of_step())),
    }
}

impl ReceiveRun {
    /// The course of a transfer at its start, on a machine where `separator` separates
    /// the parts of a path.
    pub fn new(
        peer: &str,
        auto_accept: bool,
        device_name: Option<&str>,
        separator: char,
        now_ns: u64,
        now_ms: u64,
    ) -> (run: ReceiveRun)
        ensures
            run@ == (ReceiveRun {
                receiver: fresh_receiver(peer@, auto_accept, text_of(device_name), now_ns, now_ms),
                phase: ReceivePhase::Fresh,
                offered: None,
                asked_ns: now_ns,
                separator,
            }),
            separator == '/' || separator == '\\' ==> keeps_to_folder(run@),
    {
        proof {
            if separator == '/' || separator == '\\' {
                law_saved_name_stays_in_folder(Seq::empty(), separator);
                assert(saved_name(Seq::empty(), separator) == "received_file"@);
            }
        }
        ReceiveRun {
            receiver: ReceiveTransfer::new(peer, auto_accept, device_name, now_ns, now_ms),
            phase: ReceivePhase::Fresh,
            offered: None,
            asked_ns: now_ns,
            separator,
        }
    }

    fn start_turn(&mut self, seen: &Seen) -> (request: Request)
        ensures
            (final(self)@, request@) == receive_turn_starts(old(self)@, *seen),
    {
        if seen.cancelled {
            self.phase = ReceivePhase::Ending;
            return Request::Perform(self.receiver.cancel(seen.next_expected));
        }
        self.phase = ReceivePhase::Logging;
        Request::Perform(self.receiver.diagnose(seen.next_expected, seen.now_ms))
    }

    fn end(&mut self, seen: &Seen) -> (request: Request)
        ensures
            (final(self)@, request@) == receive_ends(old(self)@, *seen),
    {
        self.phase = ReceivePhase::Ending;
        Request::Perform(self.receiver.conclude(seen.relayed, seen.now_ns))
    }

    fn take_packet(&mut self, packet: crate::protocol::Packet, seen: &Seen) -> (request: Request)
        ensures
            (final(self)@, request@) == receive_packet(old(self)@, packet@, *seen),
    {
        self.receiver.on_frame(seen.now_ns);
        match self.receiver.on_packet(packet) {
            ReceiveStep::Continue(actions) => {
                self.phase = ReceivePhase::Turn;
                Request::Perform(actions)
            },
            ReceiveStep::Conclude => self.end(seen),
            ReceiveStep::End(actions) => {
                self.phase = ReceivePhase::Ending;
                Request::Perform(actions)
            },
            ReceiveStep::Offered(size, announced, sender_name) => {
                self.phase = ReceivePhase::Preparing;
                let name: String = clean_name(
                    file_name(announced.as_str(), self.separator),
                    self.separator,
                );
                let asked: String = name.as_str().to_string();
                self.offered = Some(OfferedFile { size, sender_name, name, checkpoint: None });
                Request::Prepare { name: asked, size }
            },
            ReceiveStep::Data(data) => {
                self.phase = ReceivePhase::Windowing;
                Request::Window(data)
            },
            ReceiveStep::Finish => {
                self.phase = ReceivePhase::Finishing;
                Request::Perform(self.receiver.on_finish(seen.next_expected))
            },
        }
    }

    fn open_file(
        &mut self,
        loaded: Option<ResumeCheckpoint>,
        path: String,
        chunk_size: usize,
    ) -> (request: Request)
        ensures
            (final(self)@, request@) == receive_opens(
                old(self)@,
                crate::app::receive::loaded_of(loaded),
                path@,
                chunk_size,
            ),
    {
        match self.offered.take() {
            Some(file) => {
                let plan: (ResumeCheckpoint, Vec<Action>) = prepare_resume_state(
                    loaded,
                    file.name.as_str(),
                    file.size,
                    chunk_size,
                );
                self.phase = ReceivePhase::Opening;
                self.offered = Some(
                    OfferedFile {
                        size: file.size,
                        sender_name: file.sender_name,
                        name: file.name,
                        checkpoint: Some(SavedCheckpoint { checkpoint: plan.0, path }),
                    },
                );
                Request::Perform(plan.1)
            },
            None => {
                self.phase = ReceivePhase::Ending;
                Request::Perform(lost_step())
            },
        }
    }

    fn tell_offer(&mut self, seen: &Seen) -> (request: Request)
        ensures
            (final(self)@, request@) == receive_tells_offer(old(self)@, *seen),
    {
        match self.offered.take() {
            Some(file) => match file.checkpoint {
                Some(saved) => {
                    self.phase = ReceivePhase::Offering;
                    Request::Perform(
                        self.receiver.on_offer(
                            file.name,
                            file.size,
                            file.sender_name,
                            saved.checkpoint,
                            saved.path,
                            seen.now_ns,
                        ),
                    )
                },
                None => {
                    self.phase = ReceivePhase::Ending;
                    self.offered = Some(
                        OfferedFile {
                            size: file.size,
                            sender_name: file.sender_name,
                            name: file.name,
                            checkpoint: None,
                        },
                    );
                    Request::Perform(lost_step())
                },
            },
            None => {
                self.phase = ReceivePhase::Ending;
                Request::Perform(lost_step())
            },
        }
    }

    fn accept(&mut self, seen: &Seen) -> (request: Request)
        ensures
            (final(self)@, request@) == receive_accepts(old(self)@, *seen),
    {
        self.phase = ReceivePhase::Accepting;
        Request::Perform(self.receiver.accept(seen.relayed))
    }

    fn ask(&mut self, seen: &Seen) -> (request: Request)
        ensures
            (final(self)@, request@) == receive_asks(old(self)@, *seen),
    {
        match self.receiver.poll_approval(
            seen.cancelled,
            seen.decision,
            self.asked_ns,
            seen.now_ns,
        ) {
            Approval::Accepted => {
                self.phase = ReceivePhase::Answered;
                Request::ResetDecision
            },
            Approval::Wait => {
                self.phase = ReceivePhase::Asking;
                Request::Sleep(APPROVAL_POLL_MS)
            },
            Approval::End(actions) => {
                self.phase = ReceivePhase::Ending;
                Request::Perform(actions)
            },
        }
    }

    fn answer(&mut self, seen: &Seen) -> (request: Request)
        ensures
            (final(self)@, request@) == receive_answers(old(self)@, *seen),
    {
        if !self.receiver.asks_user() {
            return self.accept(seen);
        }
        self.asked_ns = seen.now_ns;
        self.ask(seen)
    }

    fn wait(&mut self, seen: &Seen) -> (request: Request)
        ensures
            (final(self)@, request@) == receive_waits(old(self)@, *seen),
    {
        let stalled: Vec<Action> = self.receiver.on_idle(seen.next_expected, seen.now_ns);
        if stalled.len() > 0 {
            self.phase = ReceivePhase::Ending;
            return Request::Perform(stalled);
        }
        self.start_turn(seen)
    }

    /// One step of the receiver.
    pub fn step(&mut self, event: Event, seen: &Seen) -> (request: Request)
        ensures
            (final(self)@, request@) == receive_step(old(self)@, event@, *seen),
    {
        match (self.phase, event) {
            (ReceivePhase::Fresh, Event::Done) => {
                self.phase = ReceivePhase::Turn;
                Request::Perform(self.receiver.open(seen.relayed))
            },
            (ReceivePhase::Turn, Event::Done) => self.start_turn(seen),
            (ReceivePhase::Logging, Event::Done) => {
                self.phase = ReceivePhase::Reporting;
                Request::Diagnostics
            },
            (ReceivePhase::Reporting, Event::Done) => {
                self.phase = ReceivePhase::Receiving;
                Request::Receive
            },
            (ReceivePhase::Receiving, Event::Nothing) => self.wait(seen),
            (ReceivePhase::Receiving, Event::RecvFailed { closed, error }) => {
                match self.receiver.on_recv_error(closed, error) {
                    ReceiveStep::End(actions) => {
                        self.phase = ReceivePhase::Ending;
                        Request::Perform(actions)
                    },
                    _ => self.end(seen),
                }
            },
            (ReceivePhase::Receiving, Event::Garbled(reason)) => {
                self.receiver.on_frame(seen.now_ns);
                self.phase = ReceivePhase::Ending;
                Request::Perform(one_action(Action::Fail(AppError::Protocol(reason))))
            },
            (ReceivePhase::Receiving, Event::Packet(packet)) => self.take_packet(packet, seen),
            (ReceivePhase::Preparing, Event::Prepared { loaded, path, chunk_size }) =>
                self.open_file(loaded, path, chunk_size),
            (ReceivePhase::Opening, Event::Done) => self.tell_offer(seen),
            (ReceivePhase::Offering, Event::Done) => self.answer(seen),
            (ReceivePhase::Asking, Event::Done) => self.ask(seen),
            (ReceivePhase::Answered, Event::Done) => self.accept(seen),
            (ReceivePhase::Accepting, Event::Done) => {
                self.phase = ReceivePhase::Turn;
                Request::Perform(self.receiver.start(seen.now_ns))
            },
            (ReceivePhase::Windowing, Event::Windowed { controls, payloads }) => {
                self.phase = ReceivePhase::Turn;
                Request::Perform(
                    self.receiver.on_data(controls, payloads, seen.next_expected, seen.now_ns),
                )
            },
            (ReceivePhase::Finishing, Event::Done) => self.end(seen),
            _ => {
                self.phase = ReceivePhase::Ending;
                Request::Perform(lost_step())
            },
        }
    }
}

/// A cancelled session stops at the start of the next turn, which follows a packet or
/// a look for one that found nothing. What has come of the file is kept: the checkpoint
/// is saved with exactly as many bytes as were received, the sender and the user are
/// told, and the transfer has failed with that.
pub proof fn law_cancelled_receiver_keeps_its_checkpoint(
    run: ReceiveLoop,
    event: Happening,
    seen: Seen,
)
    requires
        (run.phase is Turn && event is Done) || (run.phase is Receiving && event is Nothing
            && elapsed(seen.now_ns, run.receiver.last_frame_ns) < RECEIVE_STALL_TIMEOUT_NS),
        seen.cancelled,
        run.receiver.saved is Some,
    ensures
        ({
            let saved = run.receiver.saved->Some_0;
            receive_step(run, event, seen).1 == Wish::Perform(
                seq![
                    Act::TrySaveCheckpoint(
                        advanced(
                            saved.checkpoint,
                            seen.next_expected,
                            run.receiver.bytes_received,
                        ),
                    ),
                    Act::TryFlush,
                    Act::SendIfPossible(
                        close_packet(seen.next_expected, CLOSE_REASON_CANCELLED.spec_bytes()),
                    ),
                    Act::TryClose,
                    tell(TransferEvent::Cancelled { direction: TransferDirection::Receive }),
                    Act::Fail(AppError::Cancelled),
                ],
            )
        }),
{
    let saved = run.receiver.saved->Some_0;
    assert(receive_cancelled(run.receiver, seen.next_expected) =~= seq![
        Act::TrySaveCheckpoint(
            advanced(saved.checkpoint, seen.next_expected, run.receiver.bytes_received),
        ),
        Act::TryFlush,
        Act::SendIfPossible(
            close_packet(seen.next_expected, CLOSE_REASON_CANCELLED.spec_bytes()),
        ),
        Act::TryClose,
        tell(TransferEvent::Cancelled { direction: TransferDirection::Receive }),
        Act::Fail(AppError::Cancelled),
    ]);
}

/// Whether a receiver has at least what it was resumed with, and holds a checkpoint that
/// says exactly how much it has.
pub open spec fn is_current(run: ReceiveLoop) -> bool {
    &&& keeps_baseline(run.receiver)
    &&& run.receiver.saved matches Some(saved) ==> saved.checkpoint.bytes_written
        == run.receiver.bytes_received
}

/// Whether a receiver, on a machine with one of the usual separators, has and is offered
/// only files whose names stay in their folder.
pub open spec fn keeps_to_folder(run: ReceiveLoop) -> bool {
    &&& run.separator == '/' || run.separator == '\\'
    &&& stays_in_folder(run.receiver.file_name, run.separator)
    &&& run.offered matches Some(file) ==> stays_in_folder(file.name, run.separator)
}

/// Whether an action sends an acceptance.
pub open spec fn accepts(action: Act) -> bool {
    action matches Action::Send(packet) && packet.packet_type is Accept
}

/// Whether an action says that a transfer is complete, of one that is not.
pub open spec fn completes_short(action: Act) -> bool {
    summary_in(action) matches Some(summary) && !is_ordered(summary)
}

/// Whether a step writes nothing, sends no acceptance, completes no transfer that is not
/// whole, and leaves a receiver current and in its folder.
spec fn is_quiet(run: ReceiveLoop, step: ReceiveLoopStep) -> bool {
    &&& is_current(run) ==> is_current(step.0)
    &&& keeps_to_folder(run) ==> keeps_to_folder(step.0)
    &&& run.receiver.saved is Some ==> step.0.receiver.saved is Some
    &&& run.phase !is Opening ==> step.0.receiver.bytes_received == run.receiver.bytes_received
        && step.0.receiver.file_size == run.receiver.file_size
    &&& step.1 matches Wish::Perform(actions) ==> forall|i: int|
        0 <= i < actions.len() ==> !((#[trigger] actions[i]) is Write) && !accepts(actions[i])
            && !completes_short(actions[i])
}

proof fn lemma_turn_is_quiet(run: ReceiveLoop, seen: Seen)
    ensures
        is_quiet(run, receive_turn_starts(run, seen)),
{
}

proof fn lemma_wait_is_quiet(run: ReceiveLoop, seen: Seen)
    ensures
        is_quiet(run, receive_waits(run, seen)),
{
    lemma_turn_is_quiet(run, seen);
}

proof fn lemma_end_is_quiet(run: ReceiveLoop, seen: Seen)
    ensures
        is_quiet(run, receive_ends(run, seen)),
{
}

proof fn lemma_finish_is_quiet(run: ReceiveLoop, next_expected: u32)
    ensures
        ({
            let done = finished(run.receiver, next_expected);
            is_quiet(
                run,
                performs(
                    ReceiveRun { receiver: done.0, ..run },
                    ReceivePhase::Finishing,
                    done.1,
                ),
            )
        }),
{
}

proof fn lemma_packet_is_quiet(
    run: ReceiveLoop,
    packet: crate::protocol::Packet<Seq<u8>>,
    seen: Seen,
)
    ensures
        is_quiet(run, receive_packet(run, packet, seen)),
{
    let counted = after_frame(run.receiver, seen.now_ns);
    let heard = ReceiveRun { receiver: after_packet(counted, packet), ..run };
    assert(is_current(run) ==> is_current(heard));
    match reaction(counted, packet) {
        Reaction::Offered(size, announced, sender_name) => {
            if keeps_to_folder(run) {
                law_saved_name_stays_in_folder(announced, run.separator);
            }
        },
        Reaction::Conclude => {
            lemma_end_is_quiet(heard, seen);
        },
        Reaction::Finish => {
            lemma_finish_is_quiet(heard, seen.next_expected);
        },
        _ => {},
    }
}

proof fn lemma_opening_is_quiet(
    run: ReceiveLoop,
    loaded: Option<ResumeCheckpoint<Seq<char>>>,
    path: Seq<char>,
    chunk_size: usize,
)
    ensures
        is_quiet(run, receive_opens(run, loaded, path, chunk_size)),
{
}

proof fn lemma_offer_is_quiet(run: ReceiveLoop, seen: Seen)
    requires
        run.phase is Opening,
    ensures
        is_quiet(run, receive_tells_offer(run, seen)),
{
}

proof fn lemma_question_is_quiet(run: ReceiveLoop, seen: Seen)
    ensures
        is_quiet(run, receive_asks(run, seen)),
{
}

proof fn lemma_acceptance_writes_nothing(run: ReceiveLoop, seen: Seen)
    ensures
        is_current(run) ==> is_current(receive_accepts(run, seen).0),
        keeps_to_folder(run) ==> keeps_to_folder(receive_accepts(run, seen).0),
        receive_accepts(run, seen).0.receiver.saved == run.receiver.saved,
        receive_accepts(run, seen).0.receiver.bytes_received == run.receiver.bytes_received,
        receive_accepts(run, seen).0.receiver.file_size == run.receiver.file_size,
        receive_accepts(run, seen).1 matches Wish::Perform(actions) && (forall|i: int|
            0 <= i < actions.len() ==> !((#[trigger] actions[i]) is Write) && summary_in(actions[i])
                is None),
{
}

/// Every step that takes no data and does not accept is quiet.
proof fn lemma_step_is_quiet(run: ReceiveLoop, event: Happening, seen: Seen)
    requires
        !(run.phase is Windowing && event is Windowed),
        !(run.phase is Answered && event is Done),
        !(run.phase is Offering && event is Done && run.receiver.auto_accept),
    ensures
        is_quiet(run, receive_step(run, event, seen)),
{
    match (run.phase, event) {
        (ReceivePhase::Turn, Happening::Done) => {
            lemma_turn_is_quiet(run, seen);
        },
        (ReceivePhase::Receiving, Happening::Nothing) => {
            lemma_wait_is_quiet(run, seen);
        },
        (ReceivePhase::Receiving, Happening::RecvFailed { closed, error }) => {
            lemma_end_is_quiet(run, seen);
        },
        (ReceivePhase::Receiving, Happening::Packet(packet)) => {
            lemma_packet_is_quiet(run, packet, seen);
        },
        (ReceivePhase::Preparing, Happening::Prepared { loaded, path, chunk_size }) => {
            lemma_opening_is_quiet(run, loaded, path, chunk_size);
        },
        (ReceivePhase::Opening, Happening::Done) => {
            lemma_offer_is_quiet(run, seen);
        },
        (ReceivePhase::Offering, Happening::Done) => {
            lemma_question_is_quiet(ReceiveRun { asked_ns: seen.now_ns, ..run }, seen);
        },
        (ReceivePhase::Asking, Happening::Done) => {
            lemma_question_is_quiet(run, seen);
        },
        (ReceivePhase::Finishing, Happening::Done) => {
            lemma_end_is_quiet(run, seen);
        },
        _ => {},
    }
}

/// Whatever happens, the checkpoint of a receiver says exactly how much it has, and it
/// has at least what it was resumed with.
pub proof fn law_receiver_stays_current(run: ReceiveLoop, event: Happening, seen: Seen)
    requires
        is_current(run),
    ensures
        is_current(receive_step(run, event, seen).0),
{
    match (run.phase, event) {
        (ReceivePhase::Windowing, Happening::Windowed { controls, payloads }) => {},
        (ReceivePhase::Answered, Happening::Done) => {
            lemma_acceptance_writes_nothing(run, seen);
        },
        (ReceivePhase::Offering, Happening::Done) => {
            if run.receiver.auto_accept {
                lemma_acceptance_writes_nothing(run, seen);
            } else {
                lemma_step_is_quiet(run, event, seen);
            }
        },
        _ => {
            lemma_step_is_quiet(run, event, seen);
        },
    }
}

proof fn lemma_data_completes_nothing(
    state: Receiving,
    controls: Seq<crate::protocol::Packet<Seq<u8>>>,
    payloads: Seq<Seq<u8>>,
    next_expected: u32,
    now_ns: u64,
)
    ensures
        ({
            let actions = data_taken(state, controls, payloads, next_expected, now_ns).1;
            forall|i: int| 0 <= i < actions.len() ==> summary_in(#[trigger] actions[i]) is None
        }),
{
}

/// A receiver never says that a transfer is complete unless it has the whole file: where
/// it does, to its user or with its result, the bytes transferred are the bytes of the
/// file, and no fewer than it was resumed with.
pub proof fn law_completed_files_are_whole(run: ReceiveLoop, event: Happening, seen: Seen)
    ensures
        ({
            let actions = performed(receive_step(run, event, seen).1);
            forall|i: int|
                0 <= i < actions.len() ==> (summary_in(#[trigger] actions[i]) matches Some(
                    summary,
                ) ==> is_ordered(summary))
        }),
{
    let actions = performed(receive_step(run, event, seen).1);
    match (run.phase, event) {
        (ReceivePhase::Windowing, Happening::Windowed { controls, payloads }) => {
            lemma_data_completes_nothing(
                run.receiver,
                controls,
                payloads,
                seen.next_expected,
                seen.now_ns,
            );
        },
        (ReceivePhase::Answered, Happening::Done) => {
            lemma_acceptance_writes_nothing(run, seen);
        },
        _ => {
            if run.phase is Offering && event is Done && run.receiver.auto_accept {
                lemma_acceptance_writes_nothing(run, seen);
            } else {
                lemma_step_is_quiet(run, event, seen);
                assert forall|i: int| 0 <= i < actions.len() implies (summary_in(
                    #[trigger] actions[i],
                ) matches Some(summary) ==> is_ordered(summary)) by {
                    assert(!completes_short(actions[i]));
                }
            }
        },
    }
}

/// Whether an event ends a transfer, as complete or not: the end of the file was answered,
/// the connection is gone, or the peer closes it without a reason.
pub open spec fn ends_transfer(run: ReceiveLoop, event: Happening) -> bool {
    match (run.phase, event) {
        (ReceivePhase::Finishing, Happening::Done) => true,
        (ReceivePhase::Receiving, Happening::RecvFailed { closed, error }) => closed,
        (ReceivePhase::Receiving, Happening::Packet(packet)) => packet.packet_type is Close
            && lossy(packet.payload).len() == 0,
        _ => false,
    }
}

/// A sender that ends too early, or a connection that does, fails the transfer: what ends
/// it ends it as complete exactly if the file is whole.
pub proof fn law_short_transfers_fail(run: ReceiveLoop, event: Happening, seen: Seen)
    requires
        ends_transfer(run, event),
    ensures
        ({
            let last = performed(receive_step(run, event, seen).1).last();
            &&& is_whole(run.receiver) ==> last is Complete
            &&& !is_whole(run.receiver) ==> last matches Action::Fail(AppError::Stalled(_))
        }),
{
}

/// Whatever a sender announces, a receiver has, tells of and asks its driver about only
/// files whose names stay in their folder. An offer goes by the last part of the announced
/// name, and the user is asked about it under that name.
pub proof fn law_files_stay_in_their_folder(run: ReceiveLoop, event: Happening, seen: Seen)
    requires
        keeps_to_folder(run),
    ensures
        ({
            let step = receive_step(run, event, seen);
            &&& keeps_to_folder(step.0)
            &&& step.1 matches Wish::Prepare { name, size } ==> stays_in_folder(
                name,
                run.separator,
            ) && (event matches Happening::Packet(packet) && name == saved_name(
                start_fields(packet.payload).1,
                run.separator,
            )) && (step.0.offered matches Some(file) && file.name == name)
            &&& step.0.phase is Offering && run.phase !is Offering ==> run.offered is Some
                && step.0.receiver.file_name == run.offered->Some_0.name && performed(
                step.1,
            ).contains(
                tell(
                    TransferEvent::IncomingRequest {
                        direction: TransferDirection::Receive,
                        file_name: run.offered->Some_0.name,
                        total_bytes: run.offered->Some_0.size,
                        peer: Some(run.receiver.peer),
                        sender_name: run.offered->Some_0.sender_name,
                    },
                ),
            )
        }),
{
    let step = receive_step(run, event, seen);
    match (run.phase, event) {
        (ReceivePhase::Windowing, Happening::Windowed { controls, payloads }) => {},
        (ReceivePhase::Answered, Happening::Done) => {
            lemma_acceptance_writes_nothing(run, seen);
        },
        (ReceivePhase::Receiving, Happening::Packet(packet)) => {
            lemma_packet_is_quiet(run, packet, seen);
            law_saved_name_stays_in_folder(start_fields(packet.payload).1, run.separator);
        },
        (ReceivePhase::Opening, Happening::Done) => {
            lemma_offer_is_quiet(run, seen);
            if step.0.phase is Offering {
                assert(performed(step.1)[2] == tell(
                    TransferEvent::IncomingRequest {
                        direction: TransferDirection::Receive,
                        file_name: run.offered->Some_0.name,
                        total_bytes: run.offered->Some_0.size,
                        peer: Some(run.receiver.peer),
                        sender_name: run.offered->Some_0.sender_name,
                    },
                ));
            }
        },
        _ => {
            if run.phase is Offering && event is Done && run.receiver.auto_accept {
                lemma_acceptance_writes_nothing(run, seen);
            } else {
                lemma_step_is_quiet(run, event, seen);
            }
        },
    }
}

/// What the window lets through at a step.
pub open spec fn let_through(run: ReceiveLoop, event: Happening) -> Seq<u8> {
    match (run.phase, event) {
        (ReceivePhase::Windowing, Happening::Windowed { controls, payloads }) => joined(payloads),
        _ => Seq::empty(),
    }
}

/// The file gets what the window lets through, in that order, and nothing else: no
/// other step of a receiver writes to it.
pub proof fn law_only_data_is_written(run: ReceiveLoop, event: Happening, seen: Seen)
    requires
        run.receiver.saved is Some,
    ensures
        written(performed(receive_step(run, event, seen).1)) == let_through(run, event),
        receive_step(run, event, seen).0.receiver.saved is Some,
{
    let step = receive_step(run, event, seen);
    match (run.phase, event) {
        (ReceivePhase::Windowing, Happening::Windowed { controls, payloads }) => {
            lemma_data_written(run.receiver, controls, payloads, seen.next_expected, seen.now_ns);
        },
        (ReceivePhase::Answered, Happening::Done) => {
            lemma_acceptance_writes_nothing(run, seen);
            lemma_nothing_written(performed(step.1));
        },
        _ => {
            if run.phase is Offering && event is Done && run.receiver.auto_accept {
                lemma_acceptance_writes_nothing(run, seen);
            } else {
                lemma_step_is_quiet(run, event, seen);
            }
            lemma_nothing_written(performed(step.1));
        },
    }
}

/// What the window lets through is counted, and nothing else is, except that the offer of
/// a file starts the count anew.
pub proof fn law_only_data_is_counted(run: ReceiveLoop, event: Happening, seen: Seen)
    requires
        run.phase !is Opening,
    ensures
        ({
            let after = receive_step(run, event, seen).0.receiver;
            &&& after.bytes_received == sat(
                run.receiver.bytes_received + let_through(run, event).len(),
            )
            &&& after.file_size == run.receiver.file_size
        }),
{
    match (run.phase, event) {
        (ReceivePhase::Windowing, Happening::Windowed { controls, payloads }) => {
            lemma_joined_len(payloads);
            assert(total_len(payloads) == joined(payloads).len());
        },
        (ReceivePhase::Answered, Happening::Done) => {
            lemma_acceptance_writes_nothing(run, seen);
        },
        _ => {
            if run.phase is Offering && event is Done && run.receiver.auto_accept {
                lemma_acceptance_writes_nothing(run, seen);
            } else {
                lemma_step_is_quiet(run, event, seen);
            }
        },
    }
}

/// A receiver after any number of steps, and all that it has had carried out.
pub open spec fn receive_course(run: ReceiveLoop, steps: Seq<(Happening, Seen)>) -> (
    ReceiveLoop,
    Seq<Act>,
)
    decreases steps.len(),
{
    if steps.len() == 0 {
        (run, Seq::empty())
    } else {
        let before = receive_course(run, steps.drop_last());
        let step = receive_step(before.0, steps.last().0, steps.last().1);
        (step.0, before.1 + performed(step.1))
    }
}

/// What the window lets through over any number of steps.
pub open spec fn all_let_through(run: ReceiveLoop, steps: Seq<(Happening, Seen)>) -> Seq<u8>
    decreases steps.len(),
{
    if steps.len() == 0 {
        Seq::empty()
    } else {
        all_let_through(run, steps.drop_last()) + let_through(
            receive_course(run, steps.drop_last()).0,
            steps.last().0,
        )
    }
}

/// Over the whole course of a transfer, whatever happens and in whatever order, the
/// bytes that go to the file are exactly those that the window has let through, one
/// behind the other.
pub proof fn law_file_follows_the_window(run: ReceiveLoop, steps: Seq<(Happening, Seen)>)
    requires
        run.receiver.saved is Some,
    ensures
        written(receive_course(run, steps).1) == all_let_through(run, steps),
        receive_course(run, steps).0.receiver.saved is Some,
    decreases steps.len(),
{
    if steps.len() > 0 {
        law_file_follows_the_window(run, steps.drop_last());
        let before = receive_course(run, steps.drop_last());
        law_only_data_is_written(before.0, steps.last().0, steps.last().1);
        lemma_written_join(
            before.1,
            performed(receive_step(before.0, steps.last().0, steps.last().1).1),
        );
    }
}

/// Nothing of an offered file is asked of the sender before the user has accepted it:
/// a receiver that asks its user sends an acceptance, apart from what its window may
/// answer to data, only after that answer.
pub proof fn law_acceptance_needs_the_user(run: ReceiveLoop, event: Happening, seen: Seen)
    requires
        !run.receiver.auto_accept,
        event !is Windowed,
        run.phase !is Answered,
    ensures
        receive_step(run, event, seen).1 matches Wish::Perform(actions) ==> forall|i: int|
            0 <= i < actions.len() ==> !accepts(#[trigger] actions[i]),
{
    lemma_step_is_quiet(run, event, seen);
}

/// A receiver takes the user's answer only where it is a yes.
pub proof fn law_only_yes_accepts(run: ReceiveLoop, event: Happening, seen: Seen)
    requires
        receive_step(run, event, seen).0.phase is Answered,
        run.phase !is Answered,
    ensures
        !seen.cancelled,
        seen.decision is Accepted,
{
}

} // verus!
