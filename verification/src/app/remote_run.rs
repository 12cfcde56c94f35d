//! The tries of a remote transfer.
//!
//! A remote transfer is tried over whatever path comes up. Where the path was at fault, it
//! is tried once more over a relay.

use vstd::prelude::*;

use crate::app::error::AppError;
use crate::app::receive::Act;
use crate::app::remote::{
    after_first_attempt, limit_chunk_size, limited, offers_turn, path_at_fault, relay_delay,
    retry_plan, Retry,
};
use crate::app::script::{script, Action};
use crate::app::types::{TransferDirection, TransferOptions, TransferSummary};
use crate::signaling::{servers_of, Ice, IceServer};

verus! {

/// Where a remote transfer stands.
pub enum RemotePhase<S = String> {
    /// Nothing was tried yet.
    Fresh,
    /// The first try runs.
    First,
    /// That the transfer is tried again is being told.
    Announcing { failure: AppError<S>, delay_secs: u64 },
    /// The second try is being waited for.
    Waiting { failure: AppError<S> },
    /// The second try runs.
    Second,
    /// The result was returned.
    Over,
}

impl View for RemotePhase {
    type V = RemotePhase<Seq<char>>;

    open spec fn view(&self) -> RemotePhase<Seq<char>> {
        match self {
            RemotePhase::Fresh => RemotePhase::Fresh,
            RemotePhase::First => RemotePhase::First,
            RemotePhase::Announcing { failure, delay_secs } => RemotePhase::Announcing {
                failure: failure@,
                delay_secs: *delay_secs,
            },
            RemotePhase::Waiting { failure } => RemotePhase::Waiting { failure: failure@ },
            RemotePhase::Second => RemotePhase::Second,
            RemotePhase::Over => RemotePhase::Over,
        }
    }
}

/// The tries of a remote transfer.
pub struct RemoteRun<S = String> {
    pub direction: TransferDirection,
    /// How each try is tuned.
    pub options: TransferOptions,
    pub phase: RemotePhase<S>,
}

/// The tries of a remote transfer, their texts taken as sequences.
pub type RemoteCourse = RemoteRun<Seq<char>>;

impl View for RemoteRun {
    type V = RemoteCourse;

    open spec fn view(&self) -> RemoteCourse {
        RemoteRun { direction: self.direction, options: self.options, phase: self.phase@ }
    }
}

/// How a transfer has ended.
pub type Outcome = Result<TransferSummary, AppError>;

/// How a transfer has ended, its texts taken as sequences.
pub type Ending = Result<TransferSummary<Seq<char>>, AppError<Seq<char>>>;

/// What an outcome holds.
pub open spec fn ending_of(outcome: Outcome) -> Ending {
    match outcome {
        Ok(summary) => Ok(summary@),
        Err(error) => Err(error@),
    }
}

/// What has happened to a remote transfer.
pub enum RemoteEvent {
    /// The request was carried out.
    Done,
    /// The try has ended so; the text is the message of its error, if there is one.
    Ended { outcome: Outcome, error_text: String },
}

/// What has happened to a remote transfer, in terms of sequences.
pub enum RemoteHappening {
    Done,
    Ended { outcome: Ending, error_text: Seq<char> },
}

impl View for RemoteEvent {
    type V = RemoteHappening;

    open spec fn view(&self) -> RemoteHappening {
        match self {
            RemoteEvent::Done => RemoteHappening::Done,
            RemoteEvent::Ended { outcome, error_text } => RemoteHappening::Ended {
                outcome: ending_of(*outcome),
                error_text: error_text@,
            },
        }
    }
}

/// What a remote transfer asks for.
pub enum RemoteRequest {
    /// Try the transfer, only over a relay or not, tuned like this.
    Attempt { force_relay: bool, options: TransferOptions },
    /// Carry out the actions.
    Perform(Vec<Action>),
    /// Sleep for so many seconds.
    Sleep(u64),
    /// The transfer is over with this result.
    Return(Outcome),
    /// Nothing: the driver has told of something that it was not asked for.
    OutOfStep,
}

/// What a remote transfer asks for, in terms of sequences.
pub enum RemoteWish {
    Attempt { force_relay: bool, options: TransferOptions },
    Perform(Seq<Act>),
    Sleep(u64),
    Return(Ending),
    OutOfStep,
}

impl View for RemoteRequest {
    type V = RemoteWish;

    open spec fn view(&self) -> RemoteWish {
        match self {
            RemoteRequest::Attempt { force_relay, options } => RemoteWish::Attempt {
                force_relay: *force_relay,
                options: *options,
            },
            RemoteRequest::Perform(actions) => RemoteWish::Perform(script(actions@)),
            RemoteRequest::Sleep(secs) => RemoteWish::Sleep(*secs),
            RemoteRequest::Return(outcome) => RemoteWish::Return(ending_of(*outcome)),
            RemoteRequest::OutOfStep => RemoteWish::OutOfStep,
        }
    }
}

/// A remote transfer at a phase, and what it asks for.
pub open spec fn asks(
    run: RemoteCourse,
    phase: RemotePhase<Seq<char>>,
    wish: RemoteWish,
) -> (RemoteCourse, RemoteWish) {
    (RemoteRun { phase, ..run }, wish)
}

/// One step of a remote transfer, where `servers` are those that it may use.
pub open spec fn remote_step(
    run: RemoteCourse,
    event: RemoteHappening,
    servers: Seq<Ice>,
    cancelled: bool,
) -> (RemoteCourse, RemoteWish) {
    match (run.phase, event) {
        (RemotePhase::Fresh, RemoteHappening::Done) => asks(
            run,
            RemotePhase::First,
            RemoteWish::Attempt { force_relay: false, options: run.options },
        ),
        (RemotePhase::First, RemoteHappening::Ended { outcome, error_text }) => match outcome {
            Ok(_) => asks(run, RemotePhase::Over, RemoteWish::Return(outcome)),
            Err(failure) => match retry_plan(
                run.direction,
                failure,
                error_text,
                servers,
                cancelled,
            ) {
                None => asks(run, RemotePhase::Over, RemoteWish::Return(outcome)),
                Some((actions, delay_secs)) => asks(
                    run,
                    RemotePhase::Announcing { failure, delay_secs },
                    RemoteWish::Perform(actions),
                ),
            },
        },
        (RemotePhase::Announcing { failure, delay_secs }, RemoteHappening::Done) => asks(
            run,
            RemotePhase::Waiting { failure },
            RemoteWish::Sleep(delay_secs),
        ),
        (RemotePhase::Waiting { failure }, RemoteHappening::Done) => if cancelled {
            asks(run, RemotePhase::Over, RemoteWish::Return(Err(failure)))
        } else {
            asks(
                run,
                RemotePhase::Second,
                RemoteWish::Attempt { force_relay: true, options: run.options },
            )
        },
        (RemotePhase::Second, RemoteHappening::Ended { outcome, error_text }) => asks(
            run,
            RemotePhase::Over,
            RemoteWish::Return(outcome),
        ),
        _ => asks(run, RemotePhase::Over, RemoteWish::OutOfStep),
    }
}

/// A remote transfer of which nothing was tried yet.
pub open spec fn remote_start(
    direction: TransferDirection,
    options: TransferOptions,
) -> RemoteCourse {
    RemoteRun { direction, options: limited(options), phase: RemotePhase::Fresh }
}

impl RemoteRun {
    /// A remote transfer of which nothing was tried yet. Its chunks are limited to what a
    /// data channel takes.
    pub fn new(direction: TransferDirection, options: &TransferOptions) -> (run: RemoteRun)
        ensures
            run@ == remote_start(direction, *options),
    {
        let mut options: TransferOptions = *options;
        limit_chunk_size(&mut options);
        RemoteRun { direction, options, phase: RemotePhase::Fresh }
    }

    /// One step of a remote transfer, where `ice_servers` are those that it may use.
    pub fn step(&mut self, event: RemoteEvent, ice_servers: &[IceServer], cancelled: bool) -> (
        request: RemoteRequest)
        ensures
            (final(self)@, request@) == remote_step(
                old(self)@,
                event@,
                servers_of(ice_servers@),
                cancelled,
            ),
    {
        let mut phase: RemotePhase = RemotePhase::Over;
        std::mem::swap(&mut phase, &mut self.phase);
        match (phase, event) {
            (RemotePhase::Fresh, RemoteEvent::Done) => {
                self.phase = RemotePhase::First;
                RemoteRequest::Attempt { force_relay: false, options: self.options }
            },
            (RemotePhase::First, RemoteEvent::Ended { outcome, error_text }) => match outcome {
                Ok(summary) => RemoteRequest::Return(Ok(summary)),
                Err(failure) => match after_first_attempt(
                    self.direction,
                    &failure,
                    error_text.as_str(),
                    ice_servers,
                    cancelled,
                ) {
                    Retry::GiveUp => RemoteRequest::Return(Err(failure)),
                    Retry::ViaRelay { actions, delay_secs } => {
                        self.phase = RemotePhase::Announcing { failure, delay_secs };
                        RemoteRequest::Perform(actions)
                    },
                },
            },
            (RemotePhase::Announcing { failure, delay_secs }, RemoteEvent::Done) => {
                self.phase = RemotePhase::Waiting { failure };
                RemoteRequest::Sleep(delay_secs)
            },
            (RemotePhase::Waiting { failure }, RemoteEvent::Done) => {
                if cancelled {
                    return RemoteRequest::Return(Err(failure));
                }
                self.phase = RemotePhase::Second;
                RemoteRequest::Attempt { force_relay: true, options: self.options }
            },
            (RemotePhase::Second, RemoteEvent::Ended { outcome, .. }) => RemoteRequest::Return(
                outcome,
            ),
            _ => RemoteRequest::OutOfStep,
        }
    }
}

/// What happens at one step of a remote transfer.
pub struct RemoteMoment {
    pub event: RemoteHappening,
    pub servers: Seq<Ice>,
    pub cancelled: bool,
}

/// A remote transfer after any number of steps, and the tries that it has asked for, each
/// by whether it goes only over a relay, with how it is tuned.
pub open spec fn remote_course(run: RemoteCourse, moments: Seq<RemoteMoment>) -> (
    RemoteCourse,
    Seq<(bool, TransferOptions)>,
)
    decreases moments.len(),
{
    if moments.len() == 0 {
        (run, Seq::empty())
    } else {
        let (before, tries) = remote_course(run, moments.drop_last());
        let last = moments.last();
        let (after, wish) = remote_step(before, last.event, last.servers, last.cancelled);
        (
            after,
            match wish {
                RemoteWish::Attempt { force_relay, options } => tries.push((force_relay, options)),
                _ => tries,
            },
        )
    }
}

/// A remote transfer is tried at most twice, whatever happens: first over any path, and
/// then only over a relay. Both tries are tuned alike, with chunks that a data channel
/// takes.
pub proof fn law_at_most_two_attempts(
    direction: TransferDirection,
    options: TransferOptions,
    moments: Seq<RemoteMoment>,
)
    ensures
        ({
            let first = (false, limited(options));
            let second = (true, limited(options));
            let (after, tries) = remote_course(remote_start(direction, options), moments);
            &&& tries == Seq::<(bool, TransferOptions)>::empty() || tries == seq![first] || tries
                == seq![first, second]
            &&& after.direction == direction
            &&& after.options == limited(options)
            &&& after.phase is Fresh ==> tries.len() == 0
            &&& after.phase is First || after.phase is Announcing || after.phase is Waiting
                ==> tries.len() == 1
        }),
    decreases moments.len(),
{
    if moments.len() > 0 {
        let start = remote_start(direction, options);
        law_at_most_two_attempts(direction, options, moments.drop_last());
        let (before, tries) = remote_course(start, moments.drop_last());
        let (after, all) = remote_course(start, moments);
        let first = (false, limited(options));
        let second = (true, limited(options));
        if before.phase is Fresh {
            assert(Seq::<(bool, TransferOptions)>::empty().push(first) =~= seq![first]);
        }
        if before.phase is Waiting {
            assert(seq![first].push(second) =~= seq![first, second]);
        }
    }
}

/// A second try is made exactly where it can help: the first has failed because of its
/// path, there is a TURN server, and the user has cancelled neither before nor during the
/// wait, which is that of the direction. Everything else leaves the first result as it is.
pub proof fn law_second_attempt_is_earned(
    run: RemoteCourse,
    outcome: Ending,
    error_text: Seq<char>,
    servers: Seq<Ice>,
    cancelled: bool,
    later: Seq<Ice>,
    cancelled_later: bool,
)
    requires
        run.phase is First,
    ensures
        ({
            let ended = RemoteHappening::Ended { outcome, error_text };
            let told = remote_step(run, ended, servers, cancelled);
            let waits = remote_step(told.0, RemoteHappening::Done, servers, cancelled);
            let decided = remote_step(waits.0, RemoteHappening::Done, later, cancelled_later);
            let worth = outcome is Err && path_at_fault(outcome->Err_0) && offers_turn(servers)
                && !cancelled;
            &&& !worth ==> told.1 == RemoteWish::Return(outcome)
            &&& worth ==> {
                &&& told.1 is Perform
                &&& waits.1 == RemoteWish::Sleep(relay_delay(run.direction))
                &&& decided.1 == if cancelled_later {
                    RemoteWish::Return(outcome)
                } else {
                    RemoteWish::Attempt { force_relay: true, options: run.options }
                }
            }
        }),
{
}

/// What the second try ends with is the result, as it is.
pub proof fn law_second_result_stands(
    run: RemoteCourse,
    outcome: Ending,
    error_text: Seq<char>,
    servers: Seq<Ice>,
    cancelled: bool,
)
    requires
        run.phase is Second,
    ensures
        remote_step(
            run,
            RemoteHappening::Ended { outcome, error_text },
            servers,
            cancelled,
        ).1 == RemoteWish::Return(outcome),
{
}

/// The first try goes over any path, and a driver that tells of something else than it was
/// asked for is told so and asked for nothing more.
pub proof fn law_remote_transfer_keeps_in_step(
    run: RemoteCourse,
    event: RemoteHappening,
    servers: Seq<Ice>,
    cancelled: bool,
)
    ensures
        run.phase is Fresh && event is Done ==> remote_step(run, event, servers, cancelled) == (
            RemoteRun { phase: RemotePhase::First, ..run },
            RemoteWish::Attempt { force_relay: false, options: run.options },
        ),
        ({
            let awaited = match run.phase {
                RemotePhase::First => event is Ended,
                RemotePhase::Second => event is Ended,
                RemotePhase::Over => false,
                _ => event is Done,
            };
            !awaited ==> remote_step(run, event, servers, cancelled) == (
                RemoteRun { phase: RemotePhase::Over, ..run },
                RemoteWish::OutOfStep,
            )
        }),
{
}

} // verus!
