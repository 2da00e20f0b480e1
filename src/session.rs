use vstd::prelude::*;

verus! {

/// Where a goal session stands.
#[derive(Clone, Copy, Debug, PartialEq, Eq, Structural)]
pub enum GoalStatus {
    Pending,
    Accepted,
    Active,
    Succeeded,
    Failed,
    Rejected,
    Canceled,
    TimedOut,
}

impl GoalStatus {
    /// A status from which the session never moves on.
    pub open spec fn spec_is_terminal(self) -> bool {
        match self {
            GoalStatus::Pending | GoalStatus::Accepted | GoalStatus::Active => false,
            _ => true,
        }
    }

    pub fn is_terminal(&self) -> (r: bool)
        ensures
            r == self.spec_is_terminal(),
    {
        match self {
            GoalStatus::Pending | GoalStatus::Accepted | GoalStatus::Active => false,
            _ => true,
        }
    }
}

/// The record of the one goal in flight.
///
/// Times are milliseconds on a monotonic clock chosen by the caller.
#[derive(Clone, Copy, Debug, PartialEq, Eq, Structural)]
pub struct GoalSession {
    /// Distinguishes this session from earlier and later ones.
    pub id: u64,
    /// The accepted goal's handle; absent before acceptance and once taken for cancellation.
    pub handle: Option<u64>,
    pub status: GoalStatus,
    /// Time of acceptance or of the latest feedback message.
    pub last_activity_at: u64,
    /// Set once, when a terminal outcome is recorded.
    pub done: bool,
    /// Whether the one-shot cancellation signal of this session has fired.
    pub cancel_fired: bool,
    /// Whether a protocol-level cancel has been issued for this session.
    pub cancel_requested: bool,
}

impl GoalSession {
    /// The session's fields agree with each other.
    pub open spec fn wf(self) -> bool {
        &&& self.done <==> self.status.spec_is_terminal()
        &&& self.status == GoalStatus::Pending ==> self.handle.is_none() && !self.cancel_requested
        &&& self.cancel_requested ==> self.handle.is_none() && self.cancel_fired
    }
}

} // verus!
