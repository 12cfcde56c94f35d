//! The loop of one iteration of a measurement.
//!
//! A payload is sent through a pair of windows over transports in memory, on a clock
//! of ticks, until everything has come through and is acknowledged.

use vstd::prelude::*;

use crate::app::intake::{joined, packets_of, payloads_of};
use crate::protocol::Packet;
use crate::wire::{bytes_equal, push_all};

verus! {

/// After how many ticks an iteration gives up.
pub const BENCHMARK_TICK_LIMIT: u64 = 200_000;

/// What a measurement sends: a byte for each index, which repeats after 251.
pub open spec fn benchmark_bytes(size: nat) -> Seq<u8> {
    Seq::new(size, |i: int| (i % 251) as u8)
}

/// Builds what a measurement sends.
pub fn benchmark_payload(size: usize) -> (payload: Vec<u8>)
    ensures
        payload@ == benchmark_bytes(size as nat),
{
    let mut payload: Vec<u8> = Vec::new();
    let mut i: usize = 0;
    while i < size
        invariant
            i <= size,
            payload@ == benchmark_bytes(i as nat),
        decreases size - i,
    {
        payload.push((i % 251) as u8);
        i = i + 1;
        assert(payload@ =~= benchmark_bytes(i as nat));
    }
    assert(payload@ =~= benchmark_bytes(size as nat));
    payload
}

/// Where an iteration stands.
#[derive(Debug, Clone, Copy, PartialEq, Eq, Structural)]
pub enum BenchmarkPhase {
    /// At the start of a tick.
    Tick,
    /// It is being found out what both ends have buffered.
    Measuring,
    /// The sender's window sends.
    Sending,
    /// A data packet is looked for.
    Receiving,
    /// A data packet is in the receiver's window.
    Windowing,
    /// The receiver's answers are being sent.
    Answering,
    /// An answer is looked for.
    Listening,
    /// An answer is being handed to the sender's window.
    Handling,
    /// The clock is being moved.
    Ticking,
    /// The iteration is over.
    Over,
}

/// What has happened.
pub enum BenchmarkInput {
    /// The request was carried out.
    Done,
    /// This is what the two windows have buffered.
    Buffered { sender: usize, receiver: usize },
    /// A packet has come.
    Packet(Packet),
    /// Nothing has come. The sender's window holds nothing, or it does.
    Nothing { sender_empty: bool },
    /// The receiver's window has answered and let through this.
    Windowed { controls: Vec<Packet>, payloads: Vec<Vec<u8>> },
}

/// What has happened, in terms of sequences.
pub enum BenchmarkHappening {
    Done,
    Buffered { sender: usize, receiver: usize },
    Packet(Packet<Seq<u8>>),
    Nothing { sender_empty: bool },
    Windowed { controls: Seq<Packet<Seq<u8>>>, payloads: Seq<Seq<u8>> },
}

impl View for BenchmarkInput {
    type V = BenchmarkHappening;

    open spec fn view(&self) -> BenchmarkHappening {
        match self {
            BenchmarkInput::Done => BenchmarkHappening::Done,
            BenchmarkInput::Buffered { sender, receiver } => BenchmarkHappening::Buffered {
                sender: *sender,
                receiver: *receiver,
            },
            BenchmarkInput::Packet(packet) => BenchmarkHappening::Packet(packet@),
            BenchmarkInput::Nothing { sender_empty } => BenchmarkHappening::Nothing {
                sender_empty: *sender_empty,
            },
            BenchmarkInput::Windowed { controls, payloads } => BenchmarkHappening::Windowed {
                controls: packets_of(controls@),
                payloads: payloads_of(payloads@),
            },
        }
    }
}

/// What an iteration asks for.
pub enum BenchmarkStep {
    /// Find out what both ends have buffered.
    Measure,
    /// Let the sender's window send again what is due at this tick, and what it has room
    /// for.
    Send { tick: u64 },
    /// Look for a packet on the transport of the data.
    ReceiveData,
    /// Hand a packet to the receiver's window.
    Window(Packet),
    /// Send packets on the transport of the answers.
    Answer(Vec<Packet>),
    /// Look for a packet on the transport of the answers.
    ReceiveAnswer,
    /// Hand a packet to the sender's window.
    Control(Packet),
    /// Move the clocks of both transports by one tick.
    Tick,
    /// Nothing more: the payload has come through, or the ticks have run out.
    Finished,
    /// Nothing more: the driver has told of something that it was not asked for.
    OutOfStep,
}

/// What an iteration asks for, in terms of sequences.
pub enum BenchmarkWish {
    Measure,
    Send { tick: u64 },
    ReceiveData,
    Window(Packet<Seq<u8>>),
    Answer(Seq<Packet<Seq<u8>>>),
    ReceiveAnswer,
    Control(Packet<Seq<u8>>),
    Tick,
    Finished,
    OutOfStep,
}

impl View for BenchmarkStep {
    type V = BenchmarkWish;

    open spec fn view(&self) -> BenchmarkWish {
        match self {
            BenchmarkStep::Measure => BenchmarkWish::Measure,
            BenchmarkStep::Send { tick } => BenchmarkWish::Send { tick: *tick },
            BenchmarkStep::ReceiveData => BenchmarkWish::ReceiveData,
            BenchmarkStep::Window(packet) => BenchmarkWish::Window(packet@),
            BenchmarkStep::Answer(packets) => BenchmarkWish::Answer(packets_of(packets@)),
            BenchmarkStep::ReceiveAnswer => BenchmarkWish::ReceiveAnswer,
            BenchmarkStep::Control(packet) => BenchmarkWish::Control(packet@),
            BenchmarkStep::Tick => BenchmarkWish::Tick,
            BenchmarkStep::Finished => BenchmarkWish::Finished,
            BenchmarkStep::OutOfStep => BenchmarkWish::OutOfStep,
        }
    }
}

/// One iteration of a measurement.
pub struct BenchmarkRun<B = Vec<u8>> {
    /// What is sent.
    pub payload: B,
    /// What has come through.
    pub restored: B,
    pub tick: u64,
    pub peak_sender_buffered_bytes: usize,
    pub peak_receiver_buffered_bytes: usize,
    pub phase: BenchmarkPhase,
}

/// An iteration, its bytes taken as sequences.
pub type Measurement = BenchmarkRun<Seq<u8>>;

impl View for BenchmarkRun {
    type V = Measurement;

    open spec fn view(&self) -> Measurement {
        BenchmarkRun {
            payload: self.payload@,
            restored: self.restored@,
            tick: self.tick,
            peak_sender_buffered_bytes: self.peak_sender_buffered_bytes,
            peak_receiver_buffered_bytes: self.peak_receiver_buffered_bytes,
            phase: self.phase,
        }
    }
}

/// The larger of two numbers.
pub open spec fn larger(a: usize, b: usize) -> usize {
    if a < b {
        b
    } else {
        a
    }
}

/// An iteration at its start.
pub open spec fn benchmark_start(payload: Seq<u8>) -> Measurement {
    BenchmarkRun {
        payload,
        restored: Seq::empty(),
        tick: 0,
        peak_sender_buffered_bytes: 0,
        peak_receiver_buffered_bytes: 0,
        phase: BenchmarkPhase::Tick,
    }
}

/// The end of a tick: an iteration is over once the sender's window holds nothing and
/// the payload has come through.
pub open spec fn tick_settles(run: Measurement, sender_empty: bool) -> (
    Measurement,
    BenchmarkWish,
) {
    if sender_empty && run.restored == run.payload {
        (BenchmarkRun { phase: BenchmarkPhase::Over, ..run }, BenchmarkWish::Finished)
    } else {
        (BenchmarkRun { phase: BenchmarkPhase::Ticking, ..run }, BenchmarkWish::Tick)
    }
}

/// The clock has moved: the next tick begins, unless the ticks have run out.
pub open spec fn tick_passes(run: Measurement) -> (Measurement, BenchmarkWish) {
    if run.tick + 1 >= BENCHMARK_TICK_LIMIT {
        (BenchmarkRun { phase: BenchmarkPhase::Over, ..run }, BenchmarkWish::Finished)
    } else {
        (
            BenchmarkRun {
                tick: (run.tick + 1) as u64,
                phase: BenchmarkPhase::Measuring,
                ..run
            },
            BenchmarkWish::Measure,
        )
    }
}

/// One step of an iteration.
pub open spec fn benchmark_step(run: Measurement, event: BenchmarkHappening) -> (
    Measurement,
    BenchmarkWish,
) {
    match (run.phase, event) {
        (BenchmarkPhase::Tick, BenchmarkHappening::Done) => (
            BenchmarkRun { phase: BenchmarkPhase::Measuring, ..run },
            BenchmarkWish::Measure,
        ),
        (BenchmarkPhase::Measuring, BenchmarkHappening::Buffered { sender, receiver }) => (
            BenchmarkRun {
                peak_sender_buffered_bytes: larger(run.peak_sender_buffered_bytes, sender),
                peak_receiver_buffered_bytes: larger(run.peak_receiver_buffered_bytes, receiver),
                phase: BenchmarkPhase::Sending,
                ..run
            },
            BenchmarkWish::Send { tick: run.tick },
        ),
        (BenchmarkPhase::Sending, BenchmarkHappening::Done) => (
            BenchmarkRun { phase: BenchmarkPhase::Receiving, ..run },
            BenchmarkWish::ReceiveData,
        ),
        (BenchmarkPhase::Receiving, BenchmarkHappening::Packet(packet)) => (
            BenchmarkRun { phase: BenchmarkPhase::Windowing, ..run },
            BenchmarkWish::Window(packet),
        ),
        (BenchmarkPhase::Receiving, BenchmarkHappening::Nothing { .. }) => (
            BenchmarkRun { phase: BenchmarkPhase::Listening, ..run },
            BenchmarkWish::ReceiveAnswer,
        ),
        (BenchmarkPhase::Windowing, BenchmarkHappening::Windowed { controls, payloads }) => (
            BenchmarkRun {
                restored: run.restored + joined(payloads),
                phase: BenchmarkPhase::Answering,
                ..run
            },
            BenchmarkWish::Answer(controls),
        ),
        (BenchmarkPhase::Answering, BenchmarkHappening::Done) => (
            BenchmarkRun { phase: BenchmarkPhase::Receiving, ..run },
            BenchmarkWish::ReceiveData,
        ),
        (BenchmarkPhase::Listening, BenchmarkHappening::Packet(packet)) => (
            BenchmarkRun { phase: BenchmarkPhase::Handling, ..run },
            BenchmarkWish::Control(packet),
        ),
        (BenchmarkPhase::Listening, BenchmarkHappening::Nothing { sender_empty }) => tick_settles(
            run,
            sender_empty,
        ),
        (BenchmarkPhase::Handling, BenchmarkHappening::Done) => (
            BenchmarkRun { phase: BenchmarkPhase::Listening, ..run },
            BenchmarkWish::ReceiveAnswer,
        ),
        (BenchmarkPhase::Ticking, BenchmarkHappening::Done) => tick_passes(run),
        _ => (BenchmarkRun { phase: BenchmarkPhase::Over, ..run }, BenchmarkWish::OutOfStep),
    }
}

impl BenchmarkRun {
    /// An iteration that sends `payload`.
    pub fn new(payload: Vec<u8>) -> (run: BenchmarkRun)
        ensures
            run@ == benchmark_start(payload@),
    {
        let restored: Vec<u8> = Vec::new();
        assert(restored@ =~= Seq::empty());
        BenchmarkRun {
            payload,
            restored,
            tick: 0,
            peak_sender_buffered_bytes: 0,
            peak_receiver_buffered_bytes: 0,
            phase: BenchmarkPhase::Tick,
        }
    }

    fn observe(&mut self, sender: usize, receiver: usize)
        ensures
            final(self)@ == (BenchmarkRun {
                peak_sender_buffered_bytes: larger(old(self).peak_sender_buffered_bytes, sender),
                peak_receiver_buffered_bytes: larger(
                    old(self).peak_receiver_buffered_bytes,
                    receiver,
                ),
                ..old(self)@
            }),
    {
        if self.peak_sender_buffered_bytes < sender {
            self.peak_sender_buffered_bytes = sender;
        }
        if self.peak_receiver_buffered_bytes < receiver {
            self.peak_receiver_buffered_bytes = receiver;
        }
    }

    fn restore(&mut self, payloads: Vec<Vec<u8>>)
        ensures
            final(self)@ == (BenchmarkRun {
                restored: old(self)@.restored + joined(payloads_of(payloads@)),
                ..old(self)@
            }),
    {
        let ghost all = payloads_of(payloads@);
        assert(all.take(0) =~= Seq::empty());
        assert(self.restored@ =~= old(self).restored@ + joined(all.take(0)));
        for payload in it: payloads
            invariant
                all == payloads_of(it.seq()),
                self@ == (BenchmarkRun {
                    restored: old(self)@.restored + joined(all.take(it.index() as int)),
                    ..old(self)@
                }),
        {
            let ghost done = it.index() as int;
            assert(payload@ == all[done]);
            push_all(&mut self.restored, payload.as_slice());
            proof {
                let next = all.take(done + 1);
                assert(next.drop_last() =~= all.take(done));
                assert(next.last() == all[done]);
                assert(self.restored@ =~= old(self).restored@ + joined(next));
            }
        }
        assert(all.take(all.len() as int) =~= all);
    }

    fn settle(&mut self, sender_empty: bool) -> (step: BenchmarkStep)
        ensures
            (final(self)@, step@) == tick_settles(old(self)@, sender_empty),
    {
        if sender_empty && bytes_equal(self.restored.as_slice(), self.payload.as_slice()) {
            self.phase = BenchmarkPhase::Over;
            BenchmarkStep::Finished
        } else {
            self.phase = BenchmarkPhase::Ticking;
            BenchmarkStep::Tick
        }
    }

    fn pass_tick(&mut self) -> (step: BenchmarkStep)
        ensures
            (final(self)@, step@) == tick_passes(old(self)@),
    {
        if self.tick >= BENCHMARK_TICK_LIMIT - 1 {
            self.phase = BenchmarkPhase::Over;
            return BenchmarkStep::Finished;
        }
        self.tick = self.tick + 1;
        self.phase = BenchmarkPhase::Measuring;
        BenchmarkStep::Measure
    }

    /// One step of the iteration.
    pub fn step(&mut self, event: BenchmarkInput) -> (step: BenchmarkStep)
        ensures
            (final(self)@, step@) == benchmark_step(old(self)@, event@),
    {
        match (self.phase, event) {
            (BenchmarkPhase::Tick, BenchmarkInput::Done) => {
                self.phase = BenchmarkPhase::Measuring;
                BenchmarkStep::Measure
            },
            (BenchmarkPhase::Measuring, BenchmarkInput::Buffered { sender, receiver }) => {
                self.observe(sender, receiver);
                self.phase = BenchmarkPhase::Sending;
                BenchmarkStep::Send { tick: self.tick }
            },
            (BenchmarkPhase::Sending, BenchmarkInput::Done) => {
                self.phase = BenchmarkPhase::Receiving;
                BenchmarkStep::ReceiveData
            },
            (BenchmarkPhase::Receiving, BenchmarkInput::Packet(packet)) => {
                self.phase = BenchmarkPhase::Windowing;
                BenchmarkStep::Window(packet)
            },
            (BenchmarkPhase::Receiving, BenchmarkInput::Nothing { sender_empty: _ }) => {
                self.phase = BenchmarkPhase::Listening;
                BenchmarkStep::ReceiveAnswer
            },
            (BenchmarkPhase::Windowing, BenchmarkInput::Windowed { controls, payloads }) => {
                self.restore(payloads);
                self.phase = BenchmarkPhase::Answering;
                BenchmarkStep::Answer(controls)
            },
            (BenchmarkPhase::Answering, BenchmarkInput::Done) => {
                self.phase = BenchmarkPhase::Receiving;
                BenchmarkStep::ReceiveData
            },
            (BenchmarkPhase::Listening, BenchmarkInput::Packet(packet)) => {
                self.phase = BenchmarkPhase::Handling;
                BenchmarkStep::Control(packet)
            },
            (BenchmarkPhase::Listening, BenchmarkInput::Nothing { sender_empty }) => {
                self.settle(sender_empty)
            },
            (BenchmarkPhase::Handling, BenchmarkInput::Done) => {
                self.phase = BenchmarkPhase::Listening;
                BenchmarkStep::ReceiveAnswer
            },
            (BenchmarkPhase::Ticking, BenchmarkInput::Done) => self.pass_tick(),
            _ => {
                self.phase = BenchmarkPhase::Over;
                BenchmarkStep::OutOfStep
            },
        }
    }
}

/// An iteration ends before its ticks have run out only with the payload restored
/// byte for byte and nothing left in the sender's window.
pub proof fn law_benchmark_ends_restored(run: Measurement, event: BenchmarkHappening)
    requires
        run.tick + 1 < BENCHMARK_TICK_LIMIT,
    ensures
        benchmark_step(run, event).1 is Finished ==> run.restored == run.payload && event
            == (BenchmarkHappening::Nothing { sender_empty: true }),
{
}

/// An iteration ends: a tick that passes takes it nearer to the limit, and no other
/// step takes it away from there.
pub proof fn law_benchmark_ticks_run_out(run: Measurement, event: BenchmarkHappening)
    requires
        run.tick < BENCHMARK_TICK_LIMIT,
    ensures
        run.tick <= benchmark_step(run, event).0.tick < BENCHMARK_TICK_LIMIT,
        run.phase is Ticking && event is Done ==> benchmark_step(run, event).1 is Finished
            || benchmark_step(run, event).0.tick == run.tick + 1,
{
}

/// One tick of an iteration: what both ends have buffered is measured before anything is
/// sent, and the highest of it is kept; the sender's window sends what is due at this tick;
/// every data packet goes to the receiver's window and every answer of that is sent; every
/// answer that has come goes to the sender's window.
pub proof fn law_tick_goes_round(
    run: Measurement,
    sender: usize,
    receiver: usize,
    packet: Packet<Seq<u8>>,
    controls: Seq<Packet<Seq<u8>>>,
    payloads: Seq<Seq<u8>>,
)
    ensures
        run.phase is Tick ==> benchmark_step(run, BenchmarkHappening::Done) == (
            BenchmarkRun { phase: BenchmarkPhase::Measuring, ..run },
            BenchmarkWish::Measure,
        ),
        run.phase is Measuring ==> {
            let step = benchmark_step(run, BenchmarkHappening::Buffered { sender, receiver });
            let after = step.0;
            &&& step.1 == (BenchmarkWish::Send { tick: run.tick })
            &&& after.phase is Sending
            &&& after.peak_sender_buffered_bytes >= run.peak_sender_buffered_bytes
            &&& after.peak_sender_buffered_bytes >= sender
            &&& after.peak_sender_buffered_bytes == run.peak_sender_buffered_bytes
                || after.peak_sender_buffered_bytes == sender
            &&& after.peak_receiver_buffered_bytes >= run.peak_receiver_buffered_bytes
            &&& after.peak_receiver_buffered_bytes >= receiver
            &&& after.peak_receiver_buffered_bytes == run.peak_receiver_buffered_bytes
                || after.peak_receiver_buffered_bytes == receiver
            &&& after.payload == run.payload && after.restored == run.restored && after.tick
                == run.tick
        },
        run.phase is Sending || run.phase is Answering ==> benchmark_step(
            run,
            BenchmarkHappening::Done,
        ) == (BenchmarkRun { phase: BenchmarkPhase::Receiving, ..run }, BenchmarkWish::ReceiveData),
        run.phase is Receiving ==> benchmark_step(run, BenchmarkHappening::Packet(packet)) == (
            BenchmarkRun { phase: BenchmarkPhase::Windowing, ..run },
            BenchmarkWish::Window(packet),
        ),
        run.phase is Receiving ==> forall|empty: bool|
            #[trigger] benchmark_step(run, BenchmarkHappening::Nothing { sender_empty: empty }) == (
                BenchmarkRun { phase: BenchmarkPhase::Listening, ..run },
                BenchmarkWish::ReceiveAnswer,
            ),
        run.phase is Windowing ==> {
            let step = benchmark_step(run, BenchmarkHappening::Windowed { controls, payloads });
            &&& step.1 == BenchmarkWish::Answer(controls)
            &&& step.0 == (BenchmarkRun {
                restored: run.restored + joined(payloads),
                phase: BenchmarkPhase::Answering,
                ..run
            })
        },
        run.phase is Listening ==> benchmark_step(run, BenchmarkHappening::Packet(packet)) == (
            BenchmarkRun { phase: BenchmarkPhase::Handling, ..run },
            BenchmarkWish::Control(packet),
        ),
        run.phase is Handling ==> benchmark_step(run, BenchmarkHappening::Done) == (
            BenchmarkRun { phase: BenchmarkPhase::Listening, ..run },
            BenchmarkWish::ReceiveAnswer,
        ),
{
}

/// An iteration ends in a tick exactly if the sender's window holds nothing and what has
/// come through is what was sent. Else the clock moves by one tick, and the next begins
/// unless two hundred thousand have passed.
pub proof fn law_iteration_ends_restored(run: Measurement, sender_empty: bool)
    ensures
        run.phase is Listening ==> {
            let step = benchmark_step(run, BenchmarkHappening::Nothing { sender_empty });
            let done = sender_empty && run.restored == run.payload;
            &&& step.1 is Finished <==> done
            &&& done ==> step.0 == (BenchmarkRun { phase: BenchmarkPhase::Over, ..run })
            &&& !done ==> step == (
                BenchmarkRun { phase: BenchmarkPhase::Ticking, ..run },
                BenchmarkWish::Tick,
            )
        },
        run.phase is Ticking && run.tick + 1 < 200_000 ==> benchmark_step(
            run,
            BenchmarkHappening::Done,
        ) == (
            BenchmarkRun {
                tick: (run.tick + 1) as u64,
                phase: BenchmarkPhase::Measuring,
                ..run
            },
            BenchmarkWish::Measure,
        ),
        run.phase is Ticking && run.tick + 1 >= 200_000 ==> benchmark_step(
            run,
            BenchmarkHappening::Done,
        ) == (BenchmarkRun { phase: BenchmarkPhase::Over, ..run }, BenchmarkWish::Finished),
{
}

/// What a measurement sends has the size that was asked for, and counts up to two hundred
/// and fifty over and over.
pub proof fn law_payload_counts(size: nat)
    ensures
        benchmark_bytes(size).len() == size,
        forall|i: int| 0 <= i < size ==> #[trigger] benchmark_bytes(size)[i] as int == i % 251,
{
}

} // verus!
