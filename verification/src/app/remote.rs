//! Remote transfers: which servers they need, and when one is tried again.

use vstd::prelude::*;
use vstd::string::*;

use crate::app::error::AppError;
use crate::app::receive::Act;
use crate::app::script::{event, log_line, no_actions, note, one_action, script, tell, Action};
use crate::app::types::{LogLevel, TransferDirection, TransferEvent, TransferOptions};
use crate::rtc::RtcError;
use crate::signaling::{servers_of, texts, Ice, IceServer};
use crate::text::{has_prefix, starts_with};
use crate::transport::TransportError;

verus! {

/// The largest chunk that a data channel takes.
pub const RTC_MAX_CHUNK_SIZE: usize = 32768;

/// How long a sender waits before it tries again. It waits longer than a receiver, so
/// that the receiver is back when the sender's offer comes.
pub const RELAY_RETRY_DELAY_SEND_SECS: u64 = 5;

/// How long a receiver waits before it tries again.
pub const RELAY_RETRY_DELAY_RECEIVE_SECS: u64 = 2;

/// Whether an address is that of a TURN server.
pub open spec fn is_turn_url(url: Seq<char>) -> bool {
    has_prefix(url, "turn:"@) || has_prefix(url, "turns:"@)
}

/// Whether one of the addresses of a server is that of a TURN server.
pub open spec fn is_turn_server(server: Ice) -> bool {
    exists|i: int| 0 <= i < server.urls.len() && is_turn_url(#[trigger] server.urls[i])
}

/// Whether one of the servers is a TURN server.
pub open spec fn offers_turn(servers: Seq<Ice>) -> bool {
    exists|i: int| 0 <= i < servers.len() && is_turn_server(#[trigger] servers[i])
}

fn has_turn_url(urls: &Vec<String>) -> (found: bool)
    ensures
        found == (exists|i: int|
            0 <= i < texts(urls@).len() && is_turn_url(#[trigger] texts(urls@)[i])),
{
    let mut i: usize = 0;
    while i < urls.len()
        invariant
            i <= urls@.len(),
            forall|j: int| 0 <= j < i ==> !is_turn_url(#[trigger] texts(urls@)[j]),
        decreases urls@.len() - i,
    {
        assert(texts(urls@)[i as int] == urls@[i as int]@);
        if starts_with(urls[i].as_str(), "turn:") || starts_with(urls[i].as_str(), "turns:") {
            return true;
        }
        i = i + 1;
    }
    false
}

/// Whether one of the servers is a TURN server.
pub fn has_turn_server(ice_servers: &[IceServer]) -> (found: bool)
    ensures
        found == offers_turn(servers_of(ice_servers@)),
{
    let mut i: usize = 0;
    while i < ice_servers.len()
        invariant
            i <= ice_servers@.len(),
            forall|j: int|
                0 <= j < i ==> !is_turn_server(#[trigger] servers_of(ice_servers@)[j]),
        decreases ice_servers@.len() - i,
    {
        assert(servers_of(ice_servers@)[i as int] == ice_servers@[i as int]@);
        if has_turn_url(&ice_servers[i].urls) {
            proof {
                let server = servers_of(ice_servers@)[i as int];
                assert(server.urls == texts(ice_servers@[i as int].urls@));
                let k = choose|k: int|
                    0 <= k < server.urls.len() && is_turn_url(#[trigger] server.urls[k]);
                assert(is_turn_url(server.urls[k]));
                assert(is_turn_server(server));
            }
            return true;
        }
        i = i + 1;
    }
    false
}

/// Whether an error says that the path is at fault: no path came up in time although
/// both peers were there, or the path went dead during the transfer. A peer that
/// never came is no fault of the path.
pub open spec fn path_at_fault(error: AppError<Seq<char>>) -> bool {
    error == AppError::Rtc(RtcError::<Seq<char>>::Timeout) || error == AppError::Transport(
        TransportError::<Seq<char>>::DeadPath,
    )
}

/// Whether a failed transfer is worth another try over a relay.
pub fn should_retry_via_relay(error: &AppError, ice_servers: &[IceServer]) -> (retry: bool)
    ensures
        retry == (path_at_fault(error@) && offers_turn(servers_of(ice_servers@))),
{
    let retryable: bool = match error {
        AppError::Rtc(RtcError::Timeout) => true,
        AppError::Transport(TransportError::DeadPath) => true,
        _ => false,
    };
    retryable && has_turn_server(ice_servers)
}

/// Options with the chunk size that a data channel takes.
pub open spec fn limited(options: TransferOptions) -> TransferOptions {
    TransferOptions {
        chunk_size: if options.chunk_size < RTC_MAX_CHUNK_SIZE {
            options.chunk_size
        } else {
            RTC_MAX_CHUNK_SIZE
        },
        ..options
    }
}

/// Limits the chunk size of a remote transfer to what a data channel takes.
pub fn limit_chunk_size(options: &mut TransferOptions)
    ensures
        *final(options) == limited(*old(options)),
{
    if options.chunk_size > RTC_MAX_CHUNK_SIZE {
        options.chunk_size = RTC_MAX_CHUNK_SIZE;
    }
}

/// Takes the TURN server that was fetched into the list. There is nothing to fetch
/// where the list has one already: `has_turn_server` tells.
pub fn ensure_turn_server(ice_servers: &mut Vec<IceServer>, fetched: Option<IceServer>) -> (actions:
    Vec<Action>)
    ensures
        offers_turn(servers_of(final(ice_servers)@)) <==> offers_turn(
            servers_of(old(ice_servers)@),
        ) || (fetched matches Some(server) && is_turn_server(server@)),
        ({
            let before = servers_of(old(ice_servers)@);
            if offers_turn(before) {
                &&& servers_of(final(ice_servers)@) == before
                &&& script(actions@) == Seq::<Act>::empty()
            } else {
                match fetched {
                    Some(server) => {
                        &&& servers_of(final(ice_servers)@) == before.push(server@)
                        &&& script(actions@) == seq![
                            note(
                                LogLevel::Info,
                                "DIAG rtc: no TURN server in request; fetched credentials via core fallback path"@,
                            ),
                        ]
                    },
                    None => {
                        &&& servers_of(final(ice_servers)@) == before
                        &&& script(actions@) == seq![
                            note(
                                LogLevel::Warn,
                                "DIAG rtc: no TURN server available (fetch failed); proceeding STUN-only"@,
                            ),
                        ]
                    },
                }
            }
        }),
{
    if has_turn_server(ice_servers.as_slice()) {
        return no_actions();
    }
    match fetched {
        Some(server) => {
            proof {
                law_any_turn_server_counts(servers_of(ice_servers@), server@);
            }
            ice_servers.push(server);
            assert(servers_of(ice_servers@) =~= servers_of(old(ice_servers)@).push(server@));
            one_action(
                log_line(
                    LogLevel::Info,
                    "DIAG rtc: no TURN server in request; fetched credentials via core fallback path".to_string(),
                ),
            )
        },
        None => one_action(
            log_line(
                LogLevel::Warn,
                "DIAG rtc: no TURN server available (fetch failed); proceeding STUN-only".to_string(),
            ),
        ),
    }
}

/// Turns the failure of a remote connection into an error of the engine. That the
/// user cancelled it is told first.
pub fn rtc_connect_error(error: RtcError, direction: TransferDirection) -> (r: (
    AppError,
    Vec<Action>,
))
    ensures
        r.0@ is Cancelled <==> error is Cancelled,
        if error is Cancelled {
            &&& r.0@ == AppError::<Seq<char>>::Cancelled
            &&& script(r.1@) == seq![tell(TransferEvent::Cancelled { direction })]
        } else {
            &&& r.0@ == AppError::Rtc(error@)
            &&& script(r.1@) == Seq::<Act>::empty()
        },
{
    match error {
        RtcError::Cancelled => (
            AppError::Cancelled,
            one_action(event(TransferEvent::Cancelled { direction })),
        ),
        other => (AppError::Rtc(other), no_actions()),
    }
}

/// What is done after the first try of a remote transfer has failed.
pub enum Retry {
    /// Nothing: the failure stands.
    GiveUp,
    /// Carry out the actions, wait, and try once more over a relay, unless the user
    /// has cancelled meanwhile.
    ViaRelay { actions: Vec<Action>, delay_secs: u64 },
}

/// The name of a direction in a log line.
pub open spec fn direction_verb(direction: TransferDirection) -> Seq<char> {
    match direction {
        TransferDirection::Send => "send"@,
        TransferDirection::Receive => "receive"@,
    }
}

/// How long is waited before a transfer is tried again.
pub open spec fn relay_delay(direction: TransferDirection) -> u64 {
    match direction {
        TransferDirection::Send => RELAY_RETRY_DELAY_SEND_SECS,
        TransferDirection::Receive => RELAY_RETRY_DELAY_RECEIVE_SECS,
    }
}

/// What is told, and how long is waited, before a transfer whose first try has failed is
/// tried again, if it is.
pub open spec fn retry_plan(
    direction: TransferDirection,
    error: AppError<Seq<char>>,
    error_text: Seq<char>,
    servers: Seq<Ice>,
    cancelled: bool,
) -> Option<(Seq<Act>, u64)> {
    if cancelled || !path_at_fault(error) || !offers_turn(servers) {
        None
    } else {
        Some(
            (
                seq![
                    note(
                        LogLevel::Warn,
                        "DIAG rtc: "@ + direction_verb(direction)
                            + " failed on dead/timed-out path ("@ + error_text
                            + "); retrying once via forced TURN relay"@,
                    ),
                ],
                relay_delay(direction),
            ),
        )
    }
}

/// Decides what is done after the first try of a remote transfer has failed with
/// `error`, whose message is `error_text`.
pub fn after_first_attempt(
    direction: TransferDirection,
    error: &AppError,
    error_text: &str,
    ice_servers: &[IceServer],
    cancelled: bool,
) -> (retry: Retry)
    ensures
        retry_plan(direction, error@, error_text@, servers_of(ice_servers@), cancelled) == (
        match retry {
            Retry::GiveUp => None,
            Retry::ViaRelay { actions, delay_secs } => Some((script(actions@), delay_secs)),
        }),
{
    if !should_retry_via_relay(error, ice_servers) || cancelled {
        return Retry::GiveUp;
    }
    let mut message: String = "DIAG rtc: ".to_string();
    message.append(
        match direction {
            TransferDirection::Send => "send",
            TransferDirection::Receive => "receive",
        },
    );
    message.append(" failed on dead/timed-out path (");
    message.append(error_text);
    message.append("); retrying once via forced TURN relay");
    Retry::ViaRelay {
        actions: one_action(log_line(LogLevel::Warn, message)),
        delay_secs: match direction {
            TransferDirection::Send => RELAY_RETRY_DELAY_SEND_SECS,
            TransferDirection::Receive => RELAY_RETRY_DELAY_RECEIVE_SECS,
        },
    }
}

/// A list offers a TURN server exactly if one of its servers is one: none is lost
/// when another server joins the list, and an empty list offers none.
pub proof fn law_any_turn_server_counts(servers: Seq<Ice>, server: Ice)
    ensures
        offers_turn(servers.push(server)) == (offers_turn(servers) || is_turn_server(server)),
        !offers_turn(Seq::<Ice>::empty()),
{
    let more = servers.push(server);
    if offers_turn(servers) {
        let i = choose|i: int| 0 <= i < servers.len() && is_turn_server(#[trigger] servers[i]);
        assert(more[i] == servers[i]);
    }
    if is_turn_server(server) {
        assert(more[servers.len() as int] == server);
    }
    if offers_turn(more) {
        let i = choose|i: int| 0 <= i < more.len() && is_turn_server(#[trigger] more[i]);
        if i < servers.len() {
            assert(servers[i] == more[i]);
        }
    }
}

/// A chunk of a remote transfer is never larger than a data channel takes, and only one
/// that would be is cut down. Nothing else about a transfer is changed by that.
pub proof fn law_chunks_fit_the_channel(options: TransferOptions)
    ensures
        limited(options).chunk_size <= 32_768,
        options.chunk_size <= 32_768 ==> limited(options) == options,
        options.chunk_size > 32_768 ==> limited(options).chunk_size == 32_768,
        limited(options).window_size == options.window_size,
        limited(options).timeout_ticks == options.timeout_ticks,
{
}

/// A failed transfer is tried again exactly where its path was at fault, which a timeout
/// of the connection or a dead path says and nothing else does, where one of the servers
/// is a TURN server, and where the user has not cancelled. A sender waits five seconds, a
/// receiver two, so that the receiver is back first.
pub proof fn law_only_bad_paths_are_tried_again(
    direction: TransferDirection,
    error: AppError<Seq<char>>,
    error_text: Seq<char>,
    servers: Seq<Ice>,
    cancelled: bool,
)
    ensures
        ({
            let plan = retry_plan(direction, error, error_text, servers, cancelled);
            let path = (error matches AppError::Rtc(cause) && cause is Timeout) || (
            error matches AppError::Transport(cause) && cause is DeadPath);
            let relay = exists|i: int, j: int|
                0 <= i < servers.len() && 0 <= j < servers[i].urls.len() && (
                #[trigger] has_prefix(servers[i].urls[j], "turn:"@) || has_prefix(
                    servers[i].urls[j],
                    "turns:"@,
                ));
            &&& plan is Some <==> path && relay && !cancelled
            &&& plan matches Some(waits) ==> {
                &&& waits.1 == if direction is Send {
                    5u64
                } else {
                    2u64
                }
                &&& waits.0 == seq![
                    note(
                        LogLevel::Warn,
                        "DIAG rtc: "@ + (if direction is Send {
                            "send"@
                        } else {
                            "receive"@
                        }) + " failed on dead/timed-out path ("@ + error_text
                            + "); retrying once via forced TURN relay"@,
                    ),
                ]
            }
        }),
{
    if offers_turn(servers) {
        let i = choose|i: int| 0 <= i < servers.len() && is_turn_server(#[trigger] servers[i]);
        let j = choose|j: int|
            0 <= j < servers[i].urls.len() && is_turn_url(#[trigger] servers[i].urls[j]);
        assert(has_prefix(servers[i].urls[j], "turn:"@) || has_prefix(
            servers[i].urls[j],
            "turns:"@,
        ));
    }
    if exists|i: int, j: int|
        0 <= i < servers.len() && 0 <= j < servers[i].urls.len() && (#[trigger] has_prefix(
            servers[i].urls[j],
            "turn:"@,
        ) || has_prefix(servers[i].urls[j], "turns:"@)) {
        let (i, j) = choose|i: int, j: int|
            0 <= i < servers.len() && 0 <= j < servers[i].urls.len() && (#[trigger] has_prefix(
                servers[i].urls[j],
                "turn:"@,
            ) || has_prefix(servers[i].urls[j], "turns:"@));
        assert(is_turn_url(servers[i].urls[j]));
        assert(is_turn_server(servers[i]));
    }
}

} // verus!
