//! What the user of a running session can say to it.

use vstd::prelude::*;

use crate::app::types::AcceptDecision;

verus! {

/// What the user has said to a session: whether to stop, and whether an incoming
/// transfer is welcome.
#[derive(Debug, Clone, Copy, PartialEq, Eq, Structural)]
pub struct SessionControl {
    pub cancelled: bool,
    pub decision: AcceptDecision,
}

impl SessionControl {
    /// Nothing was said yet.
    pub fn new() -> (control: SessionControl)
        ensures
            control == (SessionControl { cancelled: false, decision: AcceptDecision::Pending }),
    {
        SessionControl { cancelled: false, decision: AcceptDecision::Pending }
    }

    /// Asks the session to stop.
    pub fn cancel(&mut self)
        ensures
            *final(self) == (SessionControl { cancelled: true, ..*old(self) }),
    {
        self.cancelled = true;
    }

    /// Whether the session was asked to stop.
    pub fn is_cancelled(&self) -> (cancelled: bool)
        ensures
            cancelled == self.cancelled,
    {
        self.cancelled
    }

    /// Accepts the incoming transfer.
    pub fn accept(&mut self)
        ensures
            *final(self) == (SessionControl { decision: AcceptDecision::Accepted, ..*old(self) }),
    {
        self.decision = AcceptDecision::Accepted;
    }

    /// Declines the incoming transfer.
    pub fn decline(&mut self)
        ensures
            *final(self) == (SessionControl { decision: AcceptDecision::Declined, ..*old(self) }),
    {
        self.decision = AcceptDecision::Declined;
    }

    /// What was said of the incoming transfer.
    pub fn decision(&self) -> (decision: AcceptDecision)
        ensures
            decision == self.decision,
    {
        self.decision
    }

    /// Forgets what was said of an incoming transfer.
    pub fn reset_decision(&mut self)
        ensures
            *final(self) == (SessionControl { decision: AcceptDecision::Pending, ..*old(self) }),
    {
        self.decision = AcceptDecision::Pending;
    }
}

} // verus!
