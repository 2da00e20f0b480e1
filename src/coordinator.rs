use vstd::prelude::*;

use crate::error::Error;
use crate::session::{GoalSession, GoalStatus};

verus! {

/// How long `execute` waits for the actuator to become reachable.
pub const CONNECT_TIMEOUT_MS: u64 = 3000;

/// Period of the watchdog's checks.
pub const POLL_INTERVAL_MS: u64 = 100;

/// Feedback silence after which the watchdog cancels the goal.
pub const STALENESS_MS: u64 = 10000;

/// What happened: a request from outside, or news from one of the session's tasks.
///
/// `session` names the session a task works for, so that news of a session
/// that has been torn down is told apart from news of the live one.
#[derive(Clone, Copy, Debug, PartialEq, Eq, Structural)]
pub enum Event {
    /// An "execute" request at time `now`.
    Execute { now: u64 },
    /// The availability probe gave up.
    AvailabilityTimedOut { session: u64 },
    /// The actuator declined the goal.
    Rejected { session: u64 },
    /// The actuator accepted the goal and gave it `handle`.
    Accepted { session: u64, handle: u64, now: u64 },
    /// A feedback message came at time `now`.
    Feedback { session: u64, now: u64 },
    /// The goal's result came, successful or not.
    ResultArrived { session: u64, success: bool },
    /// The watchdog woke at time `now`.
    Tick { session: u64, now: u64 },
    /// A "cancel" request.
    Cancel,
    /// The actuator acknowledged the cancel issued for the session.
    CancelAcknowledged { session: u64 },
}

/// What the task that reported an event is to do next.
#[derive(Clone, Debug, PartialEq, Eq)]
pub enum Action {
    /// Probe availability, then submit the goal of this session.
    Dispatch { session: u64 },
    /// Report this failure to the requester.
    Refuse(Error),
    /// Keep observing the goal.
    Observe,
    /// Stop observing: the session is gone, finished, or being cancelled.
    Stop,
    /// The terminal status was recorded.
    Recorded,
    /// The watchdog sleeps one more interval.
    Wait,
    /// The watchdog exits; the session, if it was finished, is torn down.
    Finish,
    /// The watchdog found the goal stale: it fires the cancellation signal
    /// when `broadcast` holds, cancels `cancel` at the protocol level when
    /// present, and exits. The session is torn down.
    TimeOut { broadcast: bool, cancel: Option<u64> },
    /// Fire the cancellation signal when `broadcast` holds and cancel
    /// `handle` at the protocol level.
    SendCancel { session: u64, handle: u64, broadcast: bool },
}

/// The coordinator's state as values: the single session slot, the next
/// session identifier, and the final status of the latest session once it
/// has been torn down.
pub struct CoordinatorModel {
    pub slot: Option<GoalSession>,
    pub next_id: u64,
    pub last_outcome: Option<(u64, GoalStatus)>,
}

pub open spec fn successor(id: u64) -> u64 {
    if id < u64::MAX { (id + 1) as u64 } else { 0 }
}

/// A session just created by "execute" at time `now`.
pub open spec fn fresh_session(id: u64, now: u64) -> GoalSession {
    GoalSession {
        id,
        handle: None,
        status: GoalStatus::Pending,
        last_activity_at: now,
        done: false,
        cancel_fired: false,
        cancel_requested: false,
    }
}

/// The feedback silence of `s` at time `now` has reached the threshold.
pub open spec fn is_stale(s: GoalSession, now: u64) -> bool {
    now >= s.last_activity_at && now - s.last_activity_at >= STALENESS_MS
}

impl CoordinatorModel {
    pub open spec fn wf(self) -> bool {
        self.slot is Some ==> self.slot->0.wf() && self.last_outcome is None
    }

    /// The slot holds the session `id`.
    pub open spec fn live(self, id: u64) -> bool {
        self.slot is Some && self.slot->0.id == id
    }

    pub open spec fn session(self) -> GoalSession {
        self.slot->0
    }

    /// The terminal status recorded for session `id`, if any.
    pub open spec fn final_status(self, id: u64) -> Option<GoalStatus> {
        if self.live(id) {
            if self.session().done { Some(self.session().status) } else { None }
        } else if self.last_outcome is Some && (self.last_outcome->0).0 == id {
            Some((self.last_outcome->0).1)
        } else {
            None
        }
    }

    pub open spec fn with_session(self, s: GoalSession) -> CoordinatorModel {
        CoordinatorModel { slot: Some(s), ..self }
    }

    /// The slot emptied, with `status` recorded as the outcome of session `id`.
    pub open spec fn torn_down(self, id: u64, status: GoalStatus) -> CoordinatorModel {
        CoordinatorModel { slot: None, last_outcome: Some((id, status)), ..self }
    }

    /// The state after `ev`, and what the reporting task does next.
    pub open spec fn next(self, ev: Event) -> (CoordinatorModel, Action) {
        let s = self.session();
        match ev {
            Event::Execute { now } => {
                if self.slot is Some {
                    (self, Action::Refuse(Error::GoalInProgress))
                } else {
                    (
                        CoordinatorModel {
                            slot: Some(fresh_session(self.next_id, now)),
                            next_id: successor(self.next_id),
                            last_outcome: None,
                        },
                        Action::Dispatch { session: self.next_id },
                    )
                }
            },
            Event::AvailabilityTimedOut { session } => {
                if self.live(session) && s.status == GoalStatus::Pending {
                    (CoordinatorModel { slot: None, ..self }, Action::Refuse(Error::ActuatorUnavailable))
                } else {
                    (self, Action::Refuse(Error::ActuatorUnavailable))
                }
            },
            Event::Rejected { session } => {
                if self.live(session) && s.status == GoalStatus::Pending {
                    (self.torn_down(session, GoalStatus::Rejected), Action::Refuse(Error::GoalRejected))
                } else {
                    (self, Action::Refuse(Error::GoalRejected))
                }
            },
            Event::Accepted { session, handle, now } => {
                if self.live(session) && s.status == GoalStatus::Pending {
                    (
                        self.with_session(
                            GoalSession {
                                handle: Some(handle),
                                status: GoalStatus::Accepted,
                                last_activity_at: now,
                                ..s
                            },
                        ),
                        Action::Observe,
                    )
                } else {
                    (self, Action::Stop)
                }
            },
            Event::Feedback { session, now } => {
                if self.live(session) && !s.done && !s.cancel_fired {
                    (
                        self.with_session(
                            GoalSession {
                                status: if s.status == GoalStatus::Accepted {
                                    GoalStatus::Active
                                } else {
                                    s.status
                                },
                                last_activity_at: if now > s.last_activity_at {
                                    now
                                } else {
                                    s.last_activity_at
                                },
                                ..s
                            },
                        ),
                        Action::Observe,
                    )
                } else {
                    (self, Action::Stop)
                }
            },
            Event::ResultArrived { session, success } => {
                if self.live(session) && !s.done && !s.cancel_fired {
                    (
                        self.with_session(
                            GoalSession {
                                status: if success {
                                    GoalStatus::Succeeded
                                } else {
                                    GoalStatus::Failed
                                },
                                done: true,
                                ..s
                            },
                        ),
                        Action::Recorded,
                    )
                } else {
                    (self, Action::Stop)
                }
            },
            Event::Tick { session, now } => {
                if !self.live(session) {
                    (self, Action::Finish)
                } else if s.done {
                    (self.torn_down(session, s.status), Action::Finish)
                } else if is_stale(s, now) {
                    (
                        self.torn_down(session, GoalStatus::TimedOut),
                        Action::TimeOut { broadcast: !s.cancel_fired, cancel: s.handle },
                    )
                } else {
                    (self, Action::Wait)
                }
            },
            Event::Cancel => {
                if self.slot is Some && s.handle is Some && !s.done {
                    (
                        self.with_session(
                            GoalSession {
                                handle: None,
                                cancel_fired: true,
                                cancel_requested: true,
                                ..s
                            },
                        ),
                        Action::SendCancel {
                            session: s.id,
                            handle: s.handle->0,
                            broadcast: !s.cancel_fired,
                        },
                    )
                } else {
                    (self, Action::Refuse(Error::NoValidGoalExists))
                }
            },
            Event::CancelAcknowledged { session } => {
                if self.live(session) && !s.done {
                    (
                        self.with_session(
                            GoalSession { status: GoalStatus::Canceled, done: true, ..s },
                        ),
                        Action::Recorded,
                    )
                } else {
                    (self, Action::Stop)
                }
            },
        }
    }
}

/// The goal lifecycle coordinator: owns the single goal session and decides,
/// for each event reported by a request or by one of the session's tasks,
/// how the session changes and what that task does next.
pub struct Coordinator {
    slot: Option<GoalSession>,
    next_id: u64,
    last_outcome: Option<(u64, GoalStatus)>,
}

impl View for Coordinator {
    type V = CoordinatorModel;

    closed spec fn view(&self) -> CoordinatorModel {
        CoordinatorModel { slot: self.slot, next_id: self.next_id, last_outcome: self.last_outcome }
    }
}

/// Every step keeps the state well formed.
pub proof fn lemma_next_preserves_wf(c: CoordinatorModel, ev: Event)
    requires
        c.wf(),
    ensures
        c.next(ev).0.wf(),
{
}

impl Coordinator {
    /// A coordinator with no session.
    pub fn new() -> (r: Coordinator)
        ensures
            r@ == (CoordinatorModel { slot: None, next_id: 0, last_outcome: None }),
            r@.wf(),
    {
        Coordinator { slot: None, next_id: 0, last_outcome: None }
    }

    pub fn current_session(&self) -> (r: Option<GoalSession>)
        ensures
            r == self@.slot,
    {
        self.slot
    }

    /// The final status of the latest session, with its identifier, once it
    /// has been torn down.
    pub fn last_outcome(&self) -> (r: Option<(u64, GoalStatus)>)
        ensures
            r == self@.last_outcome,
    {
        self.last_outcome
    }

    fn holds(&self, id: u64) -> (r: bool)
        ensures
            r == self@.live(id),
    {
        match self.slot {
            Some(s) => s.id == id,
            None => false,
        }
    }

    fn tear_down(&mut self, id: u64, status: GoalStatus)
        ensures
            final(self)@ == old(self)@.torn_down(id, status),
    {
        self.slot = None;
        self.last_outcome = Some((id, status));
    }

    fn on_execute(&mut self, now: u64) -> (a: Action)
        ensures
            (final(self)@, a) == old(self)@.next(Event::Execute { now }),
    {
        if self.slot.is_some() {
            Action::Refuse(Error::GoalInProgress)
        } else {
            let id = self.next_id;
            self.slot = Some(
                GoalSession {
                    id,
                    handle: None,
                    status: GoalStatus::Pending,
                    last_activity_at: now,
                    done: false,
                    cancel_fired: false,
                    cancel_requested: false,
                },
            );
            self.next_id = if id < u64::MAX { id + 1 } else { 0 };
            self.last_outcome = None;
            Action::Dispatch { session: id }
        }
    }

    fn on_availability_timed_out(&mut self, session: u64) -> (a: Action)
        ensures
            (final(self)@, a) == old(self)@.next(Event::AvailabilityTimedOut { session }),
    {
        if let Some(s) = self.slot {
            if s.id == session && s.status == GoalStatus::Pending {
                self.slot = None;
            }
        }
        Action::Refuse(Error::ActuatorUnavailable)
    }

    fn on_rejected(&mut self, session: u64) -> (a: Action)
        ensures
            (final(self)@, a) == old(self)@.next(Event::Rejected { session }),
    {
        if let Some(s) = self.slot {
            if s.id == session && s.status == GoalStatus::Pending {
                self.tear_down(session, GoalStatus::Rejected);
            }
        }
        Action::Refuse(Error::GoalRejected)
    }

    fn on_accepted(&mut self, session: u64, handle: u64, now: u64) -> (a: Action)
        ensures
            (final(self)@, a) == old(self)@.next(Event::Accepted { session, handle, now }),
    {
        if let Some(s) = self.slot {
            if s.id == session && s.status == GoalStatus::Pending {
                    self.slot = Some(
                        GoalSession {
                            handle: Some(handle),
                            status: GoalStatus::Accepted,
                            last_activity_at: now,
                            ..s
                        },
                    );
                    Action::Observe
            } else {
                Action::Stop
            }
        } else {
            Action::Stop
        }
    }

    fn on_feedback(&mut self, session: u64, now: u64) -> (a: Action)
        ensures
            (final(self)@, a) == old(self)@.next(Event::Feedback { session, now }),
    {
        if let Some(s) = self.slot {
            if s.id == session && !s.done && !s.cancel_fired {
                    let status = if s.status == GoalStatus::Accepted {
                        GoalStatus::Active
                    } else {
                        s.status
                    };
                    let last = if now > s.last_activity_at {
                        now
                    } else {
                        s.last_activity_at
                    };
                    self.slot = Some(GoalSession { status, last_activity_at: last, ..s });
                    Action::Observe
            } else {
                Action::Stop
            }
        } else {
            Action::Stop
        }
    }

    fn on_result(&mut self, session: u64, success: bool) -> (a: Action)
        ensures
            (final(self)@, a) == old(self)@.next(Event::ResultArrived { session, success }),
    {
        if let Some(s) = self.slot {
            if s.id == session && !s.done && !s.cancel_fired {
                    let status = if success {
                        GoalStatus::Succeeded
                    } else {
                        GoalStatus::Failed
                    };
                    self.slot = Some(GoalSession { status, done: true, ..s });
                    Action::Recorded
            } else {
                Action::Stop
            }
        } else {
            Action::Stop
        }
    }

    fn on_tick(&mut self, session: u64, now: u64) -> (a: Action)
        ensures
            (final(self)@, a) == old(self)@.next(Event::Tick { session, now }),
    {
        if !self.holds(session) {
            return Action::Finish;
        }
        let s = self.slot.unwrap();
        if s.done {
            self.tear_down(session, s.status);
            Action::Finish
        } else if now >= s.last_activity_at && now - s.last_activity_at >= STALENESS_MS {
            self.tear_down(session, GoalStatus::TimedOut);
            Action::TimeOut { broadcast: !s.cancel_fired, cancel: s.handle }
        } else {
            Action::Wait
        }
    }

    fn on_cancel(&mut self) -> (a: Action)
        ensures
            (final(self)@, a) == old(self)@.next(Event::Cancel),
    {
        if let Some(s) = self.slot {
            if let Some(handle) = s.handle {
                if !s.done {
                    self.slot = Some(
                        GoalSession { handle: None, cancel_fired: true, cancel_requested: true, ..s },
                    );
                    return Action::SendCancel { session: s.id, handle, broadcast: !s.cancel_fired };
                }
            }
        }
        Action::Refuse(Error::NoValidGoalExists)
    }

    fn on_cancel_acknowledged(&mut self, session: u64) -> (a: Action)
        ensures
            (final(self)@, a) == old(self)@.next(Event::CancelAcknowledged { session }),
    {
        if let Some(s) = self.slot {
            if s.id == session && !s.done {
                    self.slot = Some(
                        GoalSession { status: GoalStatus::Canceled, done: true, ..s },
                    );
                    Action::Recorded
            } else {
                Action::Stop
            }
        } else {
            Action::Stop
        }
    }

    /// Applies `ev` and returns what the reporting task does next.
    pub fn step(&mut self, ev: Event) -> (a: Action)
        requires
            old(self)@.wf(),
        ensures
            (final(self)@, a) == old(self)@.next(ev),
            final(self)@.wf(),
    {
        proof {
            lemma_next_preserves_wf(self@, ev);
        }
        match ev {
            Event::Execute { now } => self.on_execute(now),
            Event::AvailabilityTimedOut { session } => self.on_availability_timed_out(session),
            Event::Rejected { session } => self.on_rejected(session),
            Event::Accepted { session, handle, now } => self.on_accepted(session, handle, now),
            Event::Feedback { session, now } => self.on_feedback(session, now),
            Event::ResultArrived { session, success } => self.on_result(session, success),
            Event::Tick { session, now } => self.on_tick(session, now),
            Event::Cancel => self.on_cancel(),
            Event::CancelAcknowledged { session } => self.on_cancel_acknowledged(session),
        }
    }
}

} // verus!
