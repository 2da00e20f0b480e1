use rust_axum_ros2::coordinator::{
    Action, Coordinator, Event, CONNECT_TIMEOUT_MS, POLL_INTERVAL_MS, STALENESS_MS,
};
use rust_axum_ros2::error::Error;
use rust_axum_ros2::session::GoalStatus;

/// Starts a session at time 0 and has its goal accepted with handle 7.
fn accepted() -> (Coordinator, u64) {
    let mut c = Coordinator::new();
    let id = match c.step(Event::Execute { now: 0 }) {
        Action::Dispatch { session } => session,
        other => panic!("unexpected {:?}", other),
    };
    assert_eq!(c.step(Event::Accepted { session: id, handle: 7, now: 0 }), Action::Observe);
    (c, id)
}

#[test]
fn policy_constants() {
    assert_eq!(CONNECT_TIMEOUT_MS, 3000);
    assert_eq!(POLL_INTERVAL_MS, 100);
    assert_eq!(STALENESS_MS, 10000);
}

#[test]
fn new_coordinator_is_idle() {
    let c = Coordinator::new();
    assert!(c.current_session().is_none());
    assert!(c.last_outcome().is_none());
}

#[test]
fn execute_creates_pending_session() {
    let mut c = Coordinator::new();
    assert_eq!(c.step(Event::Execute { now: 5 }), Action::Dispatch { session: 0 });
    let s = c.current_session().unwrap();
    assert_eq!(s.id, 0);
    assert_eq!(s.status, GoalStatus::Pending);
    assert_eq!(s.handle, None);
    assert_eq!(s.last_activity_at, 5);
    assert!(!s.done);
}

#[test]
fn second_execute_is_refused_while_live() {
    let (mut c, id) = accepted();
    let before = c.current_session();
    assert_eq!(c.step(Event::Execute { now: 1 }), Action::Refuse(Error::GoalInProgress));
    assert_eq!(c.current_session(), before);
    assert_eq!(c.current_session().unwrap().id, id);
}

#[test]
fn execute_after_teardown_gets_a_new_session() {
    let (mut c, id) = accepted();
    assert_eq!(c.step(Event::ResultArrived { session: id, success: true }), Action::Recorded);
    assert_eq!(c.step(Event::Tick { session: id, now: 100 }), Action::Finish);
    assert_eq!(c.step(Event::Execute { now: 200 }), Action::Dispatch { session: id + 1 });
    assert!(c.last_outcome().is_none());
}

#[test]
fn cancel_twice_sends_one_protocol_cancel() {
    let (mut c, id) = accepted();
    assert_eq!(
        c.step(Event::Cancel),
        Action::SendCancel { session: id, handle: 7, broadcast: true }
    );
    assert_eq!(c.step(Event::Cancel), Action::Refuse(Error::NoValidGoalExists));
    let s = c.current_session().unwrap();
    assert_eq!(s.handle, None);
    assert!(s.cancel_requested);
}

#[test]
fn cancel_without_session_fails() {
    let mut c = Coordinator::new();
    assert_eq!(c.step(Event::Cancel), Action::Refuse(Error::NoValidGoalExists));
}

#[test]
fn cancel_before_acceptance_fails() {
    let mut c = Coordinator::new();
    c.step(Event::Execute { now: 0 });
    assert_eq!(c.step(Event::Cancel), Action::Refuse(Error::NoValidGoalExists));
}

#[test]
fn cancel_then_acknowledge_records_canceled() {
    let (mut c, id) = accepted();
    c.step(Event::Cancel);
    // Both observers stop once the signal has fired.
    assert_eq!(c.step(Event::Feedback { session: id, now: 50 }), Action::Stop);
    assert_eq!(c.step(Event::ResultArrived { session: id, success: true }), Action::Stop);
    assert_eq!(c.step(Event::CancelAcknowledged { session: id }), Action::Recorded);
    assert_eq!(c.current_session().unwrap().status, GoalStatus::Canceled);
    assert_eq!(c.step(Event::Tick { session: id, now: 100 }), Action::Finish);
    assert!(c.current_session().is_none());
    assert_eq!(c.last_outcome(), Some((id, GoalStatus::Canceled)));
}

#[test]
fn watchdog_fires_after_silence() {
    let (mut c, id) = accepted();
    assert_eq!(c.step(Event::Feedback { session: id, now: 2000 }), Action::Observe);
    assert_eq!(c.step(Event::Tick { session: id, now: 11900 }), Action::Wait);
    assert_eq!(
        c.step(Event::Tick { session: id, now: 12000 }),
        Action::TimeOut { broadcast: true, cancel: Some(7) }
    );
    assert!(c.current_session().is_none());
    assert_eq!(c.last_outcome(), Some((id, GoalStatus::TimedOut)));
    // The signal fires once: later checks find nothing to do.
    assert_eq!(c.step(Event::Tick { session: id, now: 12100 }), Action::Finish);
}

#[test]
fn watchdog_after_external_cancel_does_not_broadcast_again() {
    let (mut c, id) = accepted();
    assert_eq!(
        c.step(Event::Cancel),
        Action::SendCancel { session: id, handle: 7, broadcast: true }
    );
    assert_eq!(
        c.step(Event::Tick { session: id, now: STALENESS_MS }),
        Action::TimeOut { broadcast: false, cancel: None }
    );
    assert_eq!(c.step(Event::CancelAcknowledged { session: id }), Action::Stop);
    assert_eq!(c.last_outcome(), Some((id, GoalStatus::TimedOut)));
}

#[test]
fn result_before_watchdog_wins() {
    let (mut c, id) = accepted();
    assert_eq!(c.step(Event::ResultArrived { session: id, success: false }), Action::Recorded);
    assert_eq!(c.step(Event::CancelAcknowledged { session: id }), Action::Stop);
    assert_eq!(c.step(Event::Cancel), Action::Refuse(Error::NoValidGoalExists));
    assert_eq!(c.step(Event::Tick { session: id, now: 50000 }), Action::Finish);
    assert_eq!(c.last_outcome(), Some((id, GoalStatus::Failed)));
}

#[test]
fn acknowledgement_before_result_wins() {
    let (mut c, id) = accepted();
    c.step(Event::Cancel);
    assert_eq!(c.step(Event::CancelAcknowledged { session: id }), Action::Recorded);
    assert_eq!(c.step(Event::ResultArrived { session: id, success: true }), Action::Stop);
    assert_eq!(c.step(Event::Tick { session: id, now: 100 }), Action::Finish);
    assert_eq!(c.last_outcome(), Some((id, GoalStatus::Canceled)));
}

#[test]
fn availability_timeout_leaves_no_session() {
    let mut c = Coordinator::new();
    let id = match c.step(Event::Execute { now: 0 }) {
        Action::Dispatch { session } => session,
        other => panic!("unexpected {:?}", other),
    };
    assert_eq!(
        c.step(Event::AvailabilityTimedOut { session: id }),
        Action::Refuse(Error::ActuatorUnavailable)
    );
    assert!(c.current_session().is_none());
    assert!(c.last_outcome().is_none());
}

#[test]
fn rejection_records_rejected() {
    let mut c = Coordinator::new();
    c.step(Event::Execute { now: 0 });
    assert_eq!(c.step(Event::Rejected { session: 0 }), Action::Refuse(Error::GoalRejected));
    assert!(c.current_session().is_none());
    assert_eq!(c.last_outcome(), Some((0, GoalStatus::Rejected)));
}

#[test]
fn news_of_an_old_session_is_ignored() {
    let (mut c, id) = accepted();
    assert_eq!(c.step(Event::Feedback { session: id + 5, now: 10 }), Action::Stop);
    assert_eq!(c.step(Event::ResultArrived { session: id + 5, success: true }), Action::Stop);
    assert_eq!(c.step(Event::Tick { session: id + 5, now: 99999 }), Action::Finish);
    assert_eq!(c.current_session().unwrap().status, GoalStatus::Accepted);
}

#[test]
fn feedback_keeps_activity_monotonic() {
    let (mut c, id) = accepted();
    c.step(Event::Feedback { session: id, now: 3000 });
    c.step(Event::Feedback { session: id, now: 1000 });
    let s = c.current_session().unwrap();
    assert_eq!(s.last_activity_at, 3000);
    assert_eq!(s.status, GoalStatus::Active);
}

#[test]
fn scenario_feedback_then_success() {
    let (mut c, id) = accepted();
    let mut t: u64 = 0;
    let feedback = [1000u64, 3000, 6000];
    let mut next = 0;
    while t < 7000 {
        t += POLL_INTERVAL_MS;
        if next < feedback.len() && t == feedback[next] {
            assert_eq!(c.step(Event::Feedback { session: id, now: t }), Action::Observe);
            next += 1;
        }
        if t == 7000 {
            assert_eq!(c.step(Event::ResultArrived { session: id, success: true }), Action::Recorded);
        }
        let a = c.step(Event::Tick { session: id, now: t });
        if t < 7000 {
            assert_eq!(a, Action::Wait);
        } else {
            assert_eq!(a, Action::Finish);
        }
    }
    assert_eq!(c.last_outcome(), Some((id, GoalStatus::Succeeded)));
}

#[test]
fn scenario_silence_times_out() {
    let (mut c, id) = accepted();
    assert_eq!(c.step(Event::Feedback { session: id, now: 1000 }), Action::Observe);
    let mut t: u64 = 1000;
    loop {
        t += POLL_INTERVAL_MS;
        match c.step(Event::Tick { session: id, now: t }) {
            Action::Wait => assert!(t < 11000),
            Action::TimeOut { broadcast, cancel } => {
                assert!(broadcast);
                assert_eq!(cancel, Some(7));
                break;
            }
            other => panic!("unexpected {:?}", other),
        }
    }
    assert_eq!(t, 11000);
    assert_eq!(c.last_outcome(), Some((id, GoalStatus::TimedOut)));
}

#[test]
fn pending_goal_times_out_without_handle() {
    let mut c = Coordinator::new();
    c.step(Event::Execute { now: 0 });
    assert_eq!(
        c.step(Event::Tick { session: 0, now: STALENESS_MS }),
        Action::TimeOut { broadcast: true, cancel: None }
    );
    assert_eq!(c.step(Event::Accepted { session: 0, handle: 3, now: 10100 }), Action::Stop);
}
