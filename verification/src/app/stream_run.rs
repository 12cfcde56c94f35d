//! The loop of a sender that streams.

use vstd::prelude::*;

use crate::app::clock::elapsed;
use crate::app::drive::{lost_step, out_of_step, performed, Event, Happening, Request, Seen, Wish};
use crate::app::error::AppError;
use crate::app::receive::{Act, DIAGNOSTIC_INTERVAL_MS};
use crate::app::script::{bare_packet, cancel_script, note, one_action, script, Action};
use crate::app::streaming::{
    accounts_for_all, data_packet, finish_again, law_acknowledgements_account_for_all,
    stream_complete, stream_concluded, stream_diagnostic, stream_heard, stream_reaction,
    stream_read, stream_turn, streaming_start, Streaming, StreamingSend, STREAM_RECV_POLL_BYTES,
};
use crate::app::types::{LogLevel, TransferDirection};
use crate::protocol::{Packet, PacketType};

verus! {

/// Where the loop stands.
#[derive(Debug, Clone, Copy, PartialEq, Eq, Structural)]
pub enum StreamPhase {
    /// At the start of a turn.
    Turn,
    /// A chunk is being read.
    Reading,
    /// What was read is being sent.
    Sending,
    /// A frame is looked for.
    Receiving,
    /// What a packet gave rise to is being done.
    Reacting,
    /// The state of the transfer is being logged.
    Logging,
    /// The transport's reports are being logged.
    Reporting,
    /// Everything is acknowledged, and this is being told.
    Concluding,
    /// The script that ends the transfer is being carried out.
    Ending,
}

/// The loop of a sender that streams.
pub struct StreamRun<O = Vec<(u32, usize)>> {
    pub sender: StreamingSend<O>,
    pub phase: StreamPhase,
}

/// The loop, its lists taken as sequences.
pub type StreamLoop = StreamRun<Seq<(u32, usize)>>;

impl View for StreamRun {
    type V = StreamLoop;

    open spec fn view(&self) -> StreamLoop {
        StreamRun { sender: self.sender@, phase: self.phase }
    }
}

/// A loop and what it asks for.
pub type StreamStep = (StreamLoop, Wish);

/// The sender once it has told the receiver that the file is at its end, if it is.
pub open spec fn finish_told(state: Streaming) -> Streaming {
    StreamingSend { finish_sent: state.finish_sent || state.file_done, ..state }
}

/// How it is told, once.
pub open spec fn finish_script(state: Streaming) -> Seq<Act> {
    if state.file_done && !state.finish_sent {
        seq![Act::Send(bare_packet(PacketType::Finish, state.sequence_no))]
    } else {
        Seq::empty()
    }
}

/// What follows a chunk that was read, or the end of the file: both are told.
pub open spec fn chunk_sent(state: Streaming, data: Seq<u8>) -> StreamStep {
    let read = stream_read(state, data);
    (
        StreamRun { sender: finish_told(read), phase: StreamPhase::Sending },
        Wish::Perform(
            (if data.len() == 0 {
                Seq::empty()
            } else {
                seq![Act::Send(data_packet(state.sequence_no, data))]
            }) + finish_script(read),
        ),
    )
}

/// A turn starts: a cancelled session ends, and else the file is read on, or its end
/// is told.
pub open spec fn stream_turn_starts(state: Streaming, seen: Seen) -> StreamStep {
    if seen.cancelled {
        (
            StreamRun { sender: state, phase: StreamPhase::Ending },
            Wish::Perform(cancel_script(TransferDirection::Send, state.sequence_no)),
        )
    } else if !state.file_done {
        (StreamRun { sender: state, phase: StreamPhase::Reading }, Wish::Read)
    } else {
        (
            StreamRun { sender: finish_told(state), phase: StreamPhase::Sending },
            Wish::Perform(finish_script(state)),
        )
    }
}

/// The state of the transfer is logged, if a second has passed.
pub open spec fn stream_logs(state: Streaming, seen: Seen) -> StreamStep {
    if elapsed(seen.now_ms, state.diag_last_ms) >= DIAGNOSTIC_INTERVAL_MS {
        (
            StreamRun {
                sender: StreamingSend { diag_last_ms: seen.now_ms, ..state },
                phase: StreamPhase::Logging,
            },
            Wish::Perform(seq![note(LogLevel::Info, stream_diagnostic(state))]),
        )
    } else {
        (
            StreamRun { sender: state, phase: StreamPhase::Logging },
            Wish::Perform(Seq::empty()),
        )
    }
}

/// Packets are looked for until there is none, or until everything is acknowledged.
pub open spec fn stream_drains(state: Streaming, seen: Seen) -> StreamStep {
    if stream_complete(state) {
        stream_logs(state, seen)
    } else {
        (StreamRun { sender: state, phase: StreamPhase::Receiving }, Wish::Receive)
    }
}

/// What was read is sent: packets are looked for, if it is time to.
pub open spec fn stream_polls(state: Streaming, seen: Seen) -> StreamStep {
    if state.file_done || state.bytes_since_poll >= STREAM_RECV_POLL_BYTES {
        stream_drains(StreamingSend { bytes_since_poll: 0, ..state }, seen)
    } else {
        stream_logs(state, seen)
    }
}

/// The end of a turn: the transfer is over once everything is acknowledged.
pub open spec fn stream_settles(state: Streaming, seen: Seen) -> StreamStep {
    if stream_complete(state) {
        (
            StreamRun { sender: state, phase: StreamPhase::Concluding },
            Wish::Perform(stream_concluded(state)),
        )
    } else {
        (
            StreamRun {
                sender: StreamingSend {
                    last_finish_ns: if finish_again(state, seen.now_ns) {
                        seen.now_ns
                    } else {
                        state.last_finish_ns
                    },
                    ..state
                },
                phase: StreamPhase::Turn,
            },
            Wish::Perform(stream_turn(state, seen.now_ns)),
        )
    }
}

/// One step of the loop.
pub open spec fn stream_step(run: StreamLoop, event: Happening, seen: Seen) -> StreamStep {
    let state = run.sender;
    match (run.phase, event) {
        (StreamPhase::Turn, Happening::Done) => stream_turn_starts(state, seen),
        (StreamPhase::Reading, Happening::Read(data)) => chunk_sent(state, data),
        (StreamPhase::Sending, Happening::Done) => stream_polls(state, seen),
        (StreamPhase::Receiving, Happening::Packet(packet)) => (
            StreamRun {
                sender: stream_heard(state, packet, seen.now_ns),
                phase: StreamPhase::Reacting,
            },
            Wish::Perform(stream_reaction(state, packet, seen.now_ns)),
        ),
        (StreamPhase::Receiving, Happening::Nothing) => stream_logs(state, seen),
        (StreamPhase::Receiving, Happening::Garbled(reason)) => (
            StreamRun { phase: StreamPhase::Ending, ..run },
            Wish::Perform(seq![Act::Fail(AppError::Protocol(reason))]),
        ),
        (StreamPhase::Receiving, Happening::RecvFailed { closed, error }) => (
            StreamRun { phase: StreamPhase::Ending, ..run },
            Wish::Perform(seq![Act::Fail(AppError::Transport(error))]),
        ),
        (StreamPhase::Reacting, Happening::Done) => stream_drains(state, seen),
        (StreamPhase::Logging, Happening::Done) => (
            StreamRun { phase: StreamPhase::Reporting, ..run },
            Wish::Diagnostics,
        ),
        (StreamPhase::Reporting, Happening::Done) => stream_settles(state, seen),
        (StreamPhase::Concluding, Happening::Done) => (run, Wish::Finished),
        _ => (StreamRun { phase: StreamPhase::Ending, ..run }, Wish::Perform(out_of_step())),
    }
}

impl StreamRun {
    /// The packets that are not acknowledged are in order.
    pub open spec fn wf(self) -> bool {
        self.sender.wf()
    }

    /// The loop at its start.
    pub fn new(
        file_size: u64,
        sequence_no: u32,
        resume_bytes: u64,
        now_ns: u64,
        now_ms: u64,
    ) -> (run: StreamRun)
        ensures
            run.wf(),
            run@ == (StreamRun {
                sender: streaming_start(file_size, sequence_no, resume_bytes, now_ns, now_ms),
                phase: StreamPhase::Turn,
            }),
    {
        StreamRun {
            sender: StreamingSend::new(file_size, sequence_no, resume_bytes, now_ns, now_ms),
            phase: StreamPhase::Turn,
        }
    }

    fn start_turn(&mut self, seen: &Seen) -> (request: Request)
        requires
            old(self).wf(),
        ensures
            final(self).wf(),
            (final(self)@, request@) == stream_turn_starts(old(self)@.sender, *seen),
    {
        if seen.cancelled {
            self.phase = StreamPhase::Ending;
            return Request::Perform(self.sender.cancel());
        }
        if self.sender.wants_data() {
            self.phase = StreamPhase::Reading;
            return Request::Read;
        }
        self.phase = StreamPhase::Sending;
        Request::Perform(self.sender.finish())
    }

    fn send_chunk(&mut self, data: Vec<u8>) -> (request: Request)
        requires
            old(self).wf(),
        ensures
            final(self).wf(),
            (final(self)@, request@) == chunk_sent(old(self)@.sender, data@),
    {
        let mut actions: Vec<Action> = self.sender.on_read(data);
        let mut finish: Vec<Action> = self.sender.finish();
        self.phase = StreamPhase::Sending;
        proof {
            crate::app::script::lemma_script_join(actions@, finish@);
        }
        actions.append(&mut finish);
        Request::Perform(actions)
    }

    fn log(&mut self, seen: &Seen) -> (request: Request)
        requires
            old(self).wf(),
        ensures
            final(self).wf(),
            (final(self)@, request@) == stream_logs(old(self)@.sender, *seen),
    {
        self.phase = StreamPhase::Logging;
        Request::Perform(self.sender.diagnose(seen.now_ms))
    }

    fn drain(&mut self, seen: &Seen) -> (request: Request)
        requires
            old(self).wf(),
        ensures
            final(self).wf(),
            (final(self)@, request@) == stream_drains(old(self)@.sender, *seen),
    {
        if self.sender.is_complete() {
            return self.log(seen);
        }
        self.phase = StreamPhase::Receiving;
        Request::Receive
    }

    fn settle(&mut self, seen: &Seen) -> (request: Request)
        requires
            old(self).wf(),
        ensures
            final(self).wf(),
            (final(self)@, request@) == stream_settles(old(self)@.sender, *seen),
    {
        if self.sender.is_complete() {
            self.phase = StreamPhase::Concluding;
            return Request::Perform(self.sender.conclude());
        }
        self.phase = StreamPhase::Turn;
        Request::Perform(self.sender.end_turn(seen.now_ns))
    }

    /// One step of the loop.
    pub fn step(&mut self, event: Event, seen: &Seen) -> (request: Request)
        requires
            old(self).wf(),
        ensures
            final(self).wf(),
            (final(self)@, request@) == stream_step(old(self)@, event@, *seen),
    {
        match (self.phase, event) {
            (StreamPhase::Turn, Event::Done) => self.start_turn(seen),
            (StreamPhase::Reading, Event::Read(data)) => self.send_chunk(data),
            (StreamPhase::Sending, Event::Done) => {
                if self.sender.polls() {
                    self.drain(seen)
                } else {
                    self.log(seen)
                }
            },
            (StreamPhase::Receiving, Event::Packet(packet)) => {
                self.phase = StreamPhase::Reacting;
                Request::Perform(self.sender.on_packet(packet, seen.now_ns))
            },
            (StreamPhase::Receiving, Event::Nothing) => self.log(seen),
            (StreamPhase::Receiving, Event::Garbled(reason)) => {
                self.phase = StreamPhase::Ending;
                Request::Perform(one_action(Action::Fail(AppError::Protocol(reason))))
            },
            (StreamPhase::Receiving, Event::RecvFailed { closed: _, error }) => {
                self.phase = StreamPhase::Ending;
                Request::Perform(one_action(Action::Fail(AppError::Transport(error))))
            },
            (StreamPhase::Reacting, Event::Done) => self.drain(seen),
            (StreamPhase::Logging, Event::Done) => {
                self.phase = StreamPhase::Reporting;
                Request::Diagnostics
            },
            (StreamPhase::Reporting, Event::Done) => self.settle(seen),
            (StreamPhase::Concluding, Event::Done) => Request::Finished,
            _ => {
                self.phase = StreamPhase::Ending;
                Request::Perform(lost_step())
            },
        }
    }
}

/// Whether the loop is right about being complete.
pub open spec fn concludes_rightly(run: StreamLoop) -> bool {
    run.phase is Concluding ==> stream_complete(run.sender)
}

/// A streaming sender is done only once every byte of the file is acknowledged: the
/// loop starts right about it, stays right about it, and is finished only then.
pub proof fn law_streaming_ends_acknowledged(run: StreamLoop, event: Happening, seen: Seen)
    requires
        concludes_rightly(run),
    ensures
        concludes_rightly(stream_step(run, event, seen).0),
        stream_step(run, event, seen).1 is Finished ==> run.phase is Concluding && stream_complete(
            run.sender,
        ),
{
}

/// No step of the loop loses a byte or counts one twice: what was acknowledged and what
/// is outstanding stays what was sent. A chunk that uses the last sequence number, or
/// that takes the count of bytes over its limit, is left out.
pub proof fn law_stream_loop_accounts_for_all(run: StreamLoop, event: Happening, seen: Seen)
    requires
        accounts_for_all(run.sender),
        event matches Happening::Read(data) ==> data.len() <= usize::MAX && run.sender.bytes_sent
            + data.len() <= u64::MAX && run.sender.sequence_no < u32::MAX,
    ensures
        accounts_for_all(stream_step(run, event, seen).0.sender),
        stream_step(run, event, seen).0.sender.bytes_acked <= stream_step(
            run,
            event,
            seen,
        ).0.sender.bytes_sent,
{
    let none = bare_packet(PacketType::Finish, 0);
    match event {
        Happening::Read(data) => {
            law_acknowledgements_account_for_all(run.sender, data, none, seen.now_ns);
        },
        Happening::Packet(packet) => {
            law_acknowledgements_account_for_all(run.sender, Seq::empty(), packet, seen.now_ns);
        },
        _ => {},
    }
}

/// The data packets that a script sends.
pub open spec fn data_of(actions: Seq<Act>) -> Seq<Packet<Seq<u8>>>
    decreases actions.len(),
{
    if actions.len() == 0 {
        Seq::empty()
    } else {
        let before = data_of(actions.drop_last());
        if sends_data(actions.last()) {
            before.push(actions.last()->Send_0)
        } else {
            before
        }
    }
}

/// Whether an action sends a data packet.
pub open spec fn sends_data(action: Act) -> bool {
    action matches Action::Send(packet) && packet.packet_type is Data
}

proof fn lemma_no_data(actions: Seq<Act>)
    requires
        forall|i: int| 0 <= i < actions.len() ==> !sends_data(#[trigger] actions[i]),
    ensures
        data_of(actions) == Seq::<Packet<Seq<u8>>>::empty(),
    decreases actions.len(),
{
    if actions.len() > 0 {
        assert(!sends_data(actions[actions.len() - 1]));
        lemma_no_data(actions.drop_last());
    }
}

proof fn lemma_data_join(a: Seq<Act>, b: Seq<Act>)
    ensures
        data_of(a + b) == data_of(a) + data_of(b),
    decreases b.len(),
{
    if b.len() == 0 {
        assert(a + b =~= a);
        assert(data_of(a) + data_of(b) =~= data_of(a));
    } else {
        assert((a + b).drop_last() =~= a + b.drop_last());
        lemma_data_join(a, b.drop_last());
        assert(data_of(a + b) =~= data_of(a) + data_of(b));
    }
}

/// The data packet of a step: the chunk that was read, under the next number.
pub open spec fn chunk_packets(run: StreamLoop, event: Happening) -> Seq<Packet<Seq<u8>>> {
    match (run.phase, event) {
        (StreamPhase::Reading, Happening::Read(data)) => if data.len() > 0 {
            seq![data_packet(run.sender.sequence_no, data)]
        } else {
            Seq::empty()
        },
        _ => Seq::empty(),
    }
}

/// Every chunk that is read is sent, once and under the next number, and no other data
/// is ever sent.
pub proof fn law_stream_sends_what_it_reads(run: StreamLoop, event: Happening, seen: Seen)
    ensures
        data_of(performed(stream_step(run, event, seen).1)) == chunk_packets(run, event),
{
    let actions = performed(stream_step(run, event, seen).1);
    match (run.phase, event) {
        (StreamPhase::Reading, Happening::Read(data)) => {
            let finish = finish_script(stream_read(run.sender, data));
            lemma_no_data(finish);
            if data.len() > 0 {
                let sending = seq![Act::Send(data_packet(run.sender.sequence_no, data))];
                assert(sending.drop_last() =~= Seq::<Act>::empty());
                assert(sends_data(sending.last()));
                reveal_with_fuel(data_of, 2);
                lemma_data_join(sending, finish);
                assert(data_of(sending) =~= chunk_packets(run, event));
                assert(data_of(sending) + data_of(finish) =~= chunk_packets(run, event));
            } else {
                lemma_data_join(Seq::empty(), finish);
                assert(data_of(actions) =~= chunk_packets(run, event));
            }
        },
        _ => {
            lemma_no_data(actions);
        },
    }
}

/// A cancelled session stops at the start of the next turn: the receiver is told, the
/// user is told, and the transfer has failed with that.
pub proof fn law_cancelled_stream_stops(run: StreamLoop, seen: Seen)
    requires
        run.phase is Turn,
        seen.cancelled,
    ensures
        stream_step(run, Happening::Done, seen).1 == Wish::Perform(
            cancel_script(TransferDirection::Send, run.sender.sequence_no),
        ),
{
}

} // verus!
