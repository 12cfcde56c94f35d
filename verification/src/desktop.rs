//! The sessions of a desktop shell.
//!
//! Every running transfer has a number, and the registry holds the engine of each. What
//! the user says names the number, and is said to that engine and to no other: the steps
//! of a transfer see what its engine was told.

use std::collections::hash_map::Entry;
use std::collections::HashMap;

use vstd::prelude::*;

use crate::app::control::SessionControl;
use crate::app::drive::{seen_in, Sight};
use crate::app::engine::PlenumCore;
use crate::app::types::AcceptDecision;
use crate::text::{owned_text, text_equal, text_of};

verus! {

broadcast use vstd::std_specs::hash::group_hash_axioms;

/// How old a log may become, in seconds: seven days.
pub const MAX_LOG_AGE_SECS: u64 = 604_800;

/// The engines of the running sessions by their numbers, and the next number.
pub struct SessionRegistry {
    pub next_id: u64,
    pub sessions: HashMap<u64, PlenumCore>,
}

/// The engines of the running sessions by their numbers, and the next number.
pub struct Sessions {
    pub next_id: u64,
    pub sessions: Map<u64, PlenumCore>,
}

impl View for SessionRegistry {
    type V = Sessions;

    open spec fn view(&self) -> Sessions {
        Sessions { next_id: self.next_id, sessions: self.sessions@ }
    }
}

/// The number after this one. After the last comes zero.
pub open spec fn next_number(id: u64) -> u64 {
    if id == u64::MAX {
        0
    } else {
        (id + 1) as u64
    }
}

/// What was said to a session once the user has answered.
pub open spec fn answered_control(control: SessionControl, accept: bool) -> SessionControl {
    SessionControl {
        decision: if accept {
            AcceptDecision::Accepted
        } else {
            AcceptDecision::Declined
        },
        ..control
    }
}

/// The sessions after one more was registered.
pub open spec fn registered(state: Sessions, core: PlenumCore) -> Sessions {
    Sessions {
        next_id: next_number(state.next_id),
        sessions: state.sessions.insert(state.next_id, core),
    }
}

/// The sessions after this was said to one of them, if it runs.
pub open spec fn told(state: Sessions, session_id: u64, control: SessionControl) -> Sessions {
    if state.sessions.contains_key(session_id) {
        Sessions {
            sessions: state.sessions.insert(
                session_id,
                PlenumCore { control, ..state.sessions[session_id] },
            ),
            ..state
        }
    } else {
        state
    }
}

/// The sessions after the user has answered one of them.
pub open spec fn responded(state: Sessions, session_id: u64, accept: bool) -> Sessions {
    told(
        state,
        session_id,
        answered_control(state.sessions[session_id].control, accept),
    )
}

/// The sessions after the user has cancelled one of them.
pub open spec fn cancelled(state: Sessions, session_id: u64) -> Sessions {
    told(
        state,
        session_id,
        SessionControl { cancelled: true, ..state.sessions[session_id].control },
    )
}

/// What was said to a session, if it runs.
pub open spec fn control_of(state: Sessions, session_id: u64) -> Option<SessionControl> {
    if state.sessions.contains_key(session_id) {
        Some(state.sessions[session_id].control)
    } else {
        None
    }
}

impl SessionRegistry {
    /// No session runs. The first will have number one.
    pub fn new() -> (registry: SessionRegistry)
        ensures
            registry@ == (Sessions { next_id: 1, sessions: Map::empty() }),
    {
        SessionRegistry { next_id: 1, sessions: HashMap::new() }
    }

    /// Registers a session by its engine. Gives its number.
    pub fn register_session(&mut self, core: PlenumCore) -> (session_id: u64)
        ensures
            session_id == old(self).next_id,
            final(self)@ == registered(old(self)@, core),
    {
        let session_id: u64 = self.next_id;
        self.next_id = if session_id == u64::MAX {
            0
        } else {
            session_id + 1
        };
        self.sessions.insert(session_id, core);
        session_id
    }

    /// Forgets a session.
    pub fn unregister_session(&mut self, session_id: u64)
        ensures
            final(self)@ == (Sessions {
                sessions: old(self)@.sessions.remove(session_id),
                ..old(self)@
            }),
    {
        self.sessions.remove(&session_id);
    }

    /// The engine of a session, if it runs.
    pub fn session(&mut self, session_id: u64) -> (core: Option<&mut PlenumCore>)
        ensures
            match core {
                Some(c) => {
                    &&& old(self)@.sessions.contains_key(session_id)
                    &&& *c == old(self)@.sessions[session_id]
                    &&& final(self)@ == (Sessions {
                        sessions: old(self)@.sessions.insert(session_id, *final(c)),
                        ..old(self)@
                    })
                },
                None => !old(self)@.sessions.contains_key(session_id) && final(self)@ == old(self)@,
            },
    {
        if !self.sessions.contains_key(&session_id) {
            return None;
        }
        match self.sessions.entry(session_id) {
            Entry::Occupied(entry) => Some(entry.into_mut()),
            Entry::Vacant(_) => None,
        }
    }

    /// What the user says to a session, if it runs.
    pub fn session_control(&mut self, session_id: u64) -> (control: Option<&mut SessionControl>)
        ensures
            match control {
                Some(c) => {
                    &&& control_of(old(self)@, session_id) == Some(*c)
                    &&& final(self)@ == told(old(self)@, session_id, *final(c))
                },
                None => control_of(old(self)@, session_id) is None && final(self)@ == old(self)@,
            },
    {
        match self.session(session_id) {
            Some(core) => Some(core.control()),
            None => None,
        }
    }

    /// Hands the user's answer to a session. A session that no longer runs is an
    /// error, so that the user sees that the answer did not arrive.
    pub fn respond_to_incoming_command(&mut self, session_id: u64, accept: bool) -> (r: Result<
        (),
        String,
    >)
        ensures
            final(self)@ == responded(old(self)@, session_id, accept),
            match r {
                Ok(_) => old(self)@.sessions.contains_key(session_id),
                Err(message) => !old(self)@.sessions.contains_key(session_id) && message@
                    == "transfer request is no longer active"@,
            },
    {
        match self.session_control(session_id) {
            Some(control) => {
                if accept {
                    control.accept();
                } else {
                    control.decline();
                }
                Ok(())
            },
            None => Err("transfer request is no longer active".to_string()),
        }
    }

    /// Asks a session to stop, if it runs.
    pub fn cancel_session_command(&mut self, session_id: u64)
        ensures
            final(self)@ == cancelled(old(self)@, session_id),
    {
        match self.session_control(session_id) {
            Some(control) => control.cancel(),
            None => {},
        }
    }
}

/// What is said to one session reaches no other.
pub proof fn law_sessions_are_isolated(
    state: Sessions,
    session_id: u64,
    other: u64,
    accept: bool,
    control: SessionControl,
    core: PlenumCore,
)
    requires
        other != session_id,
    ensures
        control_of(responded(state, session_id, accept), other) == control_of(state, other),
        control_of(cancelled(state, session_id), other) == control_of(state, other),
        control_of(told(state, session_id, control), other) == control_of(state, other),
        other != state.next_id ==> control_of(registered(state, core), other) == control_of(
            state,
            other,
        ),
{
}

/// An answer or a cancellation reaches the transfer that was meant: the next step of that
/// session, whatever else its driver sees, sees it.
pub proof fn law_what_is_said_is_seen(
    state: Sessions,
    session_id: u64,
    accept: bool,
    sight: Sight,
)
    requires
        state.sessions.contains_key(session_id),
    ensures
        ({
            let answered = responded(state, session_id, accept).sessions[session_id];
            let stopped = cancelled(state, session_id).sessions[session_id];
            let before = state.sessions[session_id].control;
            &&& seen_in(answered.control, sight).decision == if accept {
                AcceptDecision::Accepted
            } else {
                AcceptDecision::Declined
            }
            &&& seen_in(answered.control, sight).cancelled == before.cancelled
            &&& seen_in(stopped.control, sight).cancelled
            &&& seen_in(stopped.control, sight).decision == before.decision
        }),
{
}

/// Whether every running session has a number below the next.
pub open spec fn numbers_are_fresh(state: Sessions) -> bool {
    forall|id: u64| #[trigger] state.sessions.contains_key(id) ==> id < state.next_id
}

/// No two sessions ever have the same number, until the numbers have run out.
pub proof fn law_numbers_stay_fresh(
    state: Sessions,
    core: PlenumCore,
    session_id: u64,
    control: SessionControl,
)
    requires
        numbers_are_fresh(state),
        state.next_id < u64::MAX,
    ensures
        !state.sessions.contains_key(state.next_id),
        numbers_are_fresh(registered(state, core)),
        numbers_are_fresh(told(state, session_id, control)),
        numbers_are_fresh(
            (Sessions { sessions: state.sessions.remove(session_id), ..state }),
        ),
{
}

/// Whether a file in the log directory is to be removed: a log that is older than
/// seven days. One whose age is not known stays.
pub fn is_stale_log(extension: Option<&str>, age_secs: Option<u64>) -> (stale: bool)
    ensures
        stale == (text_of(extension) == Some("jsonl"@) && age_secs is Some && age_secs->Some_0
            > MAX_LOG_AGE_SECS),
{
    let is_log: bool = match extension {
        Some(ext) => text_equal(ext, "jsonl"),
        None => false,
    };
    let aged_out: bool = match age_secs {
        Some(age) => age > MAX_LOG_AGE_SECS,
        None => false,
    };
    is_log && aged_out
}

/// The device name of a request: the one that was given, or else the machine's.
pub fn device_name_or(given: Option<String>, machine: Option<String>) -> (name: Option<String>)
    ensures
        owned_text(name) == match given {
            Some(n) => Some(n@),
            None => owned_text(machine),
        },
{
    match given {
        Some(name) => Some(name),
        None => machine,
    }
}

/// A session that is registered runs under the number that was next, with its own engine,
/// and the next number is the one after it; every other session goes on as it was.
pub proof fn law_registered_session_runs(state: Sessions, core: PlenumCore, other: u64)
    ensures
        ({
            let after = registered(state, core);
            &&& after.sessions.contains_key(state.next_id)
            &&& after.sessions[state.next_id] == core
            &&& state.next_id < u64::MAX ==> after.next_id == state.next_id + 1
            &&& state.next_id == u64::MAX ==> after.next_id == 0
            &&& other != state.next_id ==> after.sessions.contains_key(other)
                == state.sessions.contains_key(other) && (state.sessions.contains_key(other)
                ==> after.sessions[other] == state.sessions[other])
        }),
{
}

/// Nothing that is said to a session that does not run changes anything, and nothing that
/// is said to one that runs starts or ends a session.
pub proof fn law_saying_starts_and_ends_nothing(
    state: Sessions,
    session_id: u64,
    accept: bool,
    other: u64,
)
    ensures
        !state.sessions.contains_key(session_id) ==> responded(state, session_id, accept) == state
            && cancelled(state, session_id) == state,
        responded(state, session_id, accept).sessions.contains_key(other)
            == state.sessions.contains_key(other),
        cancelled(state, session_id).sessions.contains_key(other) == state.sessions.contains_key(
            other,
        ),
        responded(state, session_id, accept).next_id == state.next_id,
        cancelled(state, session_id).next_id == state.next_id,
{
}

/// A log may become seven days old.
pub proof fn law_logs_are_kept_for_a_week()
    ensures
        MAX_LOG_AGE_SECS == 7 * 24 * 60 * 60,
{
}

} // verus!
