//! The iterations of a measurement, and what is told of them.

use vstd::prelude::*;

verus! {

/// What an iteration amounts to, apart from its throughput.
#[derive(Debug, Clone, Copy, PartialEq, Eq, Structural)]
pub struct BenchmarkIteration {
    /// The first iteration has number one.
    pub iteration: usize,
    pub peak_sender_buffered_bytes: usize,
    pub peak_receiver_buffered_bytes: usize,
}

/// Where a measurement stands.
#[derive(Debug, Clone, Copy, PartialEq, Eq, Structural)]
pub enum SeriesPhase {
    /// Between two iterations.
    Between,
    /// An iteration runs.
    Iterating,
    /// All was told.
    Over,
}

/// The iterations of a measurement.
pub struct BenchmarkSeries<L = Vec<BenchmarkIteration>> {
    pub size_mb: usize,
    /// How many iterations were asked for.
    pub iterations: usize,
    /// The iterations that are complete.
    pub completed: L,
    pub phase: SeriesPhase,
}

/// The iterations of a measurement, taken as a sequence.
pub type Series = BenchmarkSeries<Seq<BenchmarkIteration>>;

impl View for BenchmarkSeries {
    type V = Series;

    open spec fn view(&self) -> Series {
        BenchmarkSeries {
            size_mb: self.size_mb,
            iterations: self.iterations,
            completed: self.completed@,
            phase: self.phase,
        }
    }
}

/// What has happened to a measurement.
#[derive(Debug, Clone, Copy, PartialEq, Eq, Structural)]
pub enum SeriesEvent {
    /// The request was carried out.
    Done,
    /// The iteration is complete, and had at most so much buffered at its ends.
    Iterated { peak_sender_buffered_bytes: usize, peak_receiver_buffered_bytes: usize },
}

/// What a measurement asks for.
pub enum SeriesRequest<L = Vec<BenchmarkIteration>> {
    /// Run an iteration.
    Iterate { iteration: usize },
    /// Tell that an iteration is complete.
    TellIteration(BenchmarkIteration),
    /// Tell that the measurement is complete, and return that.
    TellCompleted { size_mb: usize, iterations: L },
    /// Nothing: the driver has told of something that it was not asked for.
    OutOfStep,
}

/// What a measurement asks for, its iterations taken as a sequence.
pub type SeriesWish = SeriesRequest<Seq<BenchmarkIteration>>;

impl View for SeriesRequest {
    type V = SeriesWish;

    open spec fn view(&self) -> SeriesWish {
        match self {
            SeriesRequest::Iterate { iteration } => SeriesRequest::Iterate {
                iteration: *iteration,
            },
            SeriesRequest::TellIteration(iteration) => SeriesRequest::TellIteration(*iteration),
            SeriesRequest::TellCompleted { size_mb, iterations } => SeriesRequest::TellCompleted {
                size_mb: *size_mb,
                iterations: iterations@,
            },
            SeriesRequest::OutOfStep => SeriesRequest::OutOfStep,
        }
    }
}

/// One step of a measurement.
pub open spec fn series_step(series: Series, event: SeriesEvent) -> (Series, SeriesWish) {
    match (series.phase, event) {
        (SeriesPhase::Between, SeriesEvent::Done) => if series.completed.len()
            < series.iterations {
            (
                BenchmarkSeries { phase: SeriesPhase::Iterating, ..series },
                SeriesRequest::Iterate { iteration: (series.completed.len() + 1) as usize },
            )
        } else {
            (
                BenchmarkSeries {
                    phase: SeriesPhase::Over,
                    completed: Seq::empty(),
                    ..series
                },
                SeriesRequest::TellCompleted {
                    size_mb: series.size_mb,
                    iterations: series.completed,
                },
            )
        },
        (
            SeriesPhase::Iterating,
            SeriesEvent::Iterated { peak_sender_buffered_bytes, peak_receiver_buffered_bytes },
        ) => {
            let figures = BenchmarkIteration {
                iteration: (series.completed.len() + 1) as usize,
                peak_sender_buffered_bytes,
                peak_receiver_buffered_bytes,
            };
            (
                BenchmarkSeries {
                    phase: SeriesPhase::Between,
                    completed: series.completed.push(figures),
                    ..series
                },
                SeriesRequest::TellIteration(figures),
            )
        },
        _ => (BenchmarkSeries { phase: SeriesPhase::Over, ..series }, SeriesRequest::OutOfStep),
    }
}

/// A measurement of which nothing has run.
pub open spec fn series_start(size_mb: usize, iterations: usize) -> Series {
    BenchmarkSeries {
        size_mb,
        iterations,
        completed: Seq::empty(),
        phase: SeriesPhase::Between,
    }
}

impl BenchmarkSeries {
    /// No more iterations are complete than were asked for, and one that runs is asked for.
    pub open spec fn wf(self) -> bool {
        &&& self.completed@.len() <= self.iterations
        &&& self.phase is Iterating ==> self.completed@.len() < self.iterations
    }

    /// A measurement of which nothing has run.
    pub fn new(size_mb: usize, iterations: usize) -> (series: BenchmarkSeries)
        ensures
            series.wf(),
            series@ == series_start(size_mb, iterations),
    {
        let series: BenchmarkSeries = BenchmarkSeries {
            size_mb,
            iterations,
            completed: Vec::new(),
            phase: SeriesPhase::Between,
        };
        assert(series.completed@ =~= Seq::empty());
        series
    }

    /// One step of a measurement.
    pub fn step(&mut self, event: SeriesEvent) -> (request: SeriesRequest)
        requires
            old(self).wf(),
        ensures
            final(self).wf(),
            (final(self)@, request@) == series_step(old(self)@, event),
    {
        match (self.phase, event) {
            (SeriesPhase::Between, SeriesEvent::Done) => {
                if self.completed.len() < self.iterations {
                    self.phase = SeriesPhase::Iterating;
                    return SeriesRequest::Iterate { iteration: self.completed.len() + 1 };
                }
                self.phase = SeriesPhase::Over;
                let mut iterations: Vec<BenchmarkIteration> = Vec::new();
                std::mem::swap(&mut iterations, &mut self.completed);
                assert(self.completed@ =~= Seq::empty());
                SeriesRequest::TellCompleted { size_mb: self.size_mb, iterations }
            },
            (
                SeriesPhase::Iterating,
                SeriesEvent::Iterated { peak_sender_buffered_bytes, peak_receiver_buffered_bytes },
            ) => {
                let figures: BenchmarkIteration = BenchmarkIteration {
                    iteration: self.completed.len() + 1,
                    peak_sender_buffered_bytes,
                    peak_receiver_buffered_bytes,
                };
                self.phase = SeriesPhase::Between;
                self.completed.push(figures);
                SeriesRequest::TellIteration(figures)
            },
            _ => {
                self.phase = SeriesPhase::Over;
                SeriesRequest::OutOfStep
            },
        }
    }
}

/// The most that the ends of each iteration had buffered: the sender's and the receiver's.
pub type Peaks = Seq<(usize, usize)>;

/// What is told of an iteration.
pub open spec fn figures(number: int, peak: (usize, usize)) -> BenchmarkIteration {
    BenchmarkIteration {
        iteration: number as usize,
        peak_sender_buffered_bytes: peak.0,
        peak_receiver_buffered_bytes: peak.1,
    }
}

/// What is told of iterations: they are numbered from one on.
pub open spec fn numbered(peaks: Peaks) -> Seq<BenchmarkIteration> {
    Seq::new(peaks.len(), |i: int| figures(i + 1, peaks[i]))
}

/// A measurement after iterations with these peaks, and all that it has asked for.
pub open spec fn series_course(series: Series, peaks: Peaks) -> (Series, Seq<SeriesWish>)
    decreases peaks.len(),
{
    if peaks.len() == 0 {
        (series, Seq::empty())
    } else {
        let (before, wishes) = series_course(series, peaks.drop_last());
        let (running, starts) = series_step(before, SeriesEvent::Done);
        let (after, tells) = series_step(
            running,
            SeriesEvent::Iterated {
                peak_sender_buffered_bytes: peaks.last().0,
                peak_receiver_buffered_bytes: peaks.last().1,
            },
        );
        (after, wishes.push(starts).push(tells))
    }
}

/// What a measurement asks for over iterations: each is run and then told, in order.
pub open spec fn all_iterated(peaks: Peaks) -> Seq<SeriesWish> {
    Seq::new(
        2 * peaks.len(),
        |i: int|
            if i % 2 == 0 {
                SeriesRequest::Iterate { iteration: (i / 2 + 1) as usize }
            } else {
                SeriesRequest::TellIteration(figures(i / 2 + 1, peaks[i / 2]))
            },
    )
}

/// A measurement runs exactly as many iterations as were asked for. They are numbered from
/// one on, each is told once it is complete, and behind the last of them the whole is told:
/// the size that was asked for, and every iteration in order. Then nothing more is asked
/// for.
pub proof fn law_measurement_tells_all(size_mb: usize, iterations: usize, peaks: Peaks)
    requires
        peaks.len() <= iterations,
    ensures
        ({
            let (series, wishes) = series_course(series_start(size_mb, iterations), peaks);
            let (over, told) = series_step(series, SeriesEvent::Done);
            &&& series == BenchmarkSeries {
                completed: numbered(peaks),
                ..series_start(size_mb, iterations)
            }
            &&& wishes == all_iterated(peaks)
            &&& peaks.len() < iterations ==> told == SeriesWish::Iterate {
                iteration: (peaks.len() + 1) as usize,
            }
            &&& peaks.len() == iterations ==> told == SeriesWish::TellCompleted {
                size_mb,
                iterations: numbered(peaks),
            } && series_step(over, SeriesEvent::Done).1 == SeriesWish::OutOfStep
        }),
    decreases peaks.len(),
{
    let start = series_start(size_mb, iterations);
    if peaks.len() > 0 {
        law_measurement_tells_all(size_mb, iterations, peaks.drop_last());
        let (before, wishes) = series_course(start, peaks.drop_last());
        assert(numbered(peaks) =~= numbered(peaks.drop_last()).push(
            figures(peaks.len() as int, peaks.last()),
        ));
        let n = peaks.len() as int;
        let (after, all) = series_course(start, peaks);
        assert(all.len() == 2 * n);
        assert forall|i: int| 0 <= i < 2 * n implies all[i] == all_iterated(peaks)[i] by {
            if i < 2 * n - 2 {
                assert(all[i] == wishes[i]);
                assert(wishes[i] == all_iterated(peaks.drop_last())[i]);
                assert(peaks.drop_last()[i / 2] == peaks[i / 2]);
            } else if i == 2 * n - 2 {
                assert(i / 2 == n - 1 && i % 2 == 0);
            } else {
                assert(i / 2 == n - 1 && i % 2 == 1);
            }
        }
        assert(all =~= all_iterated(peaks));
    } else {
        assert(numbered(peaks) =~= Seq::empty());
        assert(all_iterated(peaks) =~= Seq::empty());
    }
}

} // verus!
