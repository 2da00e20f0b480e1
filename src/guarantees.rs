use vstd::prelude::*;

use crate::coordinator::{is_stale, Action, CoordinatorModel, Event, POLL_INTERVAL_MS, STALENESS_MS};
use crate::error::Error;
use crate::session::GoalStatus;

verus! {

/// The state after the events `evs`, applied in order.
pub open spec fn run(c: CoordinatorModel, evs: Seq<Event>) -> CoordinatorModel
    decreases evs.len(),
{
    if evs.len() == 0 {
        c
    } else {
        run(c.next(evs[0]).0, evs.drop_first())
    }
}

/// None of `evs` is an "execute" request.
pub open spec fn no_execute(evs: Seq<Event>) -> bool {
    forall|i: int| 0 <= i < evs.len() ==> !(evs[i] is Execute)
}

/// The action fires the session's cancellation signal.
pub open spec fn broadcasts(a: Action) -> bool {
    match a {
        Action::TimeOut { broadcast, .. } => broadcast,
        Action::SendCancel { broadcast, .. } => broadcast,
        _ => false,
    }
}

/// A live session is never replaced: whatever happens, the slot afterwards
/// is empty or still holds the same session.
pub proof fn lemma_slot_never_overwritten(c: CoordinatorModel, ev: Event)
    requires
        c.wf(),
        c.slot is Some,
    ensures
        c.next(ev).0.slot is Some ==> c.next(ev).0.slot->0.id == c.slot->0.id,
{
}

/// An "execute" request while a session is live is refused and changes nothing.
pub proof fn lemma_execute_refused_while_live(c: CoordinatorModel, now: u64)
    requires
        c.wf(),
        c.slot is Some,
    ensures
        c.next(Event::Execute { now }) == (c, Action::Refuse(Error::GoalInProgress)),
{
}

/// Two "cancel" requests in a row: when the first issues a protocol-level
/// cancel, the second issues none, fails with `NoValidGoalExists`, and
/// changes nothing.
pub proof fn lemma_cancel_issued_once(c: CoordinatorModel)
    requires
        c.wf(),
    ensures
        c.next(Event::Cancel).1 is SendCancel ==> {
            let c1 = c.next(Event::Cancel).0;
            c1.next(Event::Cancel) == (c1, Action::Refuse(Error::NoValidGoalExists))
        },
{
}

/// A watchdog check at or past the staleness threshold of an unfinished
/// session records `TimedOut`, tears the session down, and fires the
/// cancellation signal unless a cancel already fired it.
pub proof fn lemma_watchdog_fires_when_stale(c: CoordinatorModel, id: u64, now: u64)
    requires
        c.wf(),
        c.live(id),
        !c.session().done,
        now >= c.session().last_activity_at + crate::coordinator::STALENESS_MS,
    ensures
        c.next(Event::Tick { session: id, now }).0.slot is None,
        c.next(Event::Tick { session: id, now }).0.final_status(id) == Some(GoalStatus::TimedOut),
        c.next(Event::Tick { session: id, now }).1 == (Action::TimeOut {
            broadcast: !c.session().cancel_fired,
            cancel: c.session().handle,
        }),
{
    assert(is_stale(c.session(), now));
}

/// A watchdog check before the staleness threshold of an unfinished session
/// changes nothing and keeps watching.
pub proof fn lemma_watchdog_waits_while_fresh(c: CoordinatorModel, id: u64, now: u64)
    requires
        c.wf(),
        c.live(id),
        !c.session().done,
        now < c.session().last_activity_at + crate::coordinator::STALENESS_MS,
    ensures
        c.next(Event::Tick { session: id, now }) == (c, Action::Wait),
{
}

/// A step that fires a session's cancellation signal finds it unfired, and
/// afterwards the signal stays fired for as long as the session is live: the
/// signal fires at most once per session.
pub proof fn lemma_signal_fires_once(c: CoordinatorModel, ev: Event)
    requires
        c.wf(),
    ensures
        broadcasts(c.next(ev).1) ==> c.slot is Some && !c.session().cancel_fired,
        broadcasts(c.next(ev).1) && c.next(ev).0.slot is Some ==> c.next(ev).0.live(c.session().id)
            && c.next(ev).0.session().cancel_fired,
        c.slot is Some && c.session().cancel_fired && c.next(ev).0.live(c.session().id)
            ==> c.next(ev).0.session().cancel_fired,
{
}

/// The first event that ends an unfinished session sets its final status:
/// a result gives `Succeeded` or `Failed`, a watchdog timeout `TimedOut`, an
/// acknowledged cancel `Canceled`, a rejection `Rejected`.
pub proof fn lemma_first_terminal_event_decides(c: CoordinatorModel, id: u64, ev: Event)
    requires
        c.wf(),
        c.live(id),
        !c.session().done,
    ensures
        c.next(ev).0.final_status(id) is Some ==> match ev {
            Event::ResultArrived { session, success } => session == id
                && c.next(ev).0.final_status(id) == Some(
                if success {
                    GoalStatus::Succeeded
                } else {
                    GoalStatus::Failed
                },
            ),
            Event::Tick { session, .. } => session == id && c.next(ev).0.final_status(id) == Some(
                GoalStatus::TimedOut,
            ),
            Event::CancelAcknowledged { session } => session == id && c.next(ev).0.final_status(id)
                == Some(GoalStatus::Canceled),
            Event::Rejected { session } => session == id && c.next(ev).0.final_status(id) == Some(
                GoalStatus::Rejected,
            ),
            _ => false,
        },
{
}

/// The recorded outcome of session `id`, live and finished or torn down,
/// with no other session in the slot.
pub open spec fn settled(c: CoordinatorModel, id: u64, st: GoalStatus) -> bool {
    ||| c.live(id) && c.session().done && c.session().status == st
    ||| c.slot is None && c.last_outcome == Some((id, st))
}

proof fn lemma_settled_step(c: CoordinatorModel, id: u64, st: GoalStatus, ev: Event)
    requires
        c.wf(),
        settled(c, id, st),
        !(ev is Execute),
    ensures
        settled(c.next(ev).0, id, st),
{
}

/// Once a session has its final status, no later event of any ordering
/// (short of a new "execute") writes another one.
pub proof fn lemma_final_status_written_once(c: CoordinatorModel, id: u64, evs: Seq<Event>)
    requires
        c.wf(),
        c.live(id),
        c.session().done,
        no_execute(evs),
    ensures
        run(c, evs).final_status(id) == Some(c.session().status),
{
    lemma_settled_run(c, id, c.session().status, evs);
}

proof fn lemma_settled_run(c: CoordinatorModel, id: u64, st: GoalStatus, evs: Seq<Event>)
    requires
        c.wf(),
        settled(c, id, st),
        no_execute(evs),
    ensures
        settled(run(c, evs), id, st),
        run(c, evs).final_status(id) == Some(st),
    decreases evs.len(),
{
    if evs.len() > 0 {
        assert(!(evs[0] is Execute));
        lemma_settled_step(c, id, st, evs[0]);
        crate::coordinator::lemma_next_preserves_wf(c, evs[0]);
        let rest = evs.drop_first();
        assert forall|i: int| 0 <= i < rest.len() implies !(rest[i] is Execute) by {
            assert(rest[i] == evs[i + 1]);
        }
        lemma_settled_run(c.next(evs[0]).0, id, st, rest);
    }
}

/// When the availability probe of a just-created session gives up, the
/// request fails with `ActuatorUnavailable` and no session is left.
pub proof fn lemma_connect_timeout_leaves_no_session(c: CoordinatorModel, now: u64)
    requires
        c.wf(),
        c.slot is None,
    ensures
        ({
            let c1 = c.next(Event::Execute { now }).0;
            let id = c.next_id;
            &&& c.next(Event::Execute { now }).1 == (Action::Dispatch { session: id })
            &&& c1.next(Event::AvailabilityTimedOut { session: id }).0.slot is None
            &&& c1.next(Event::AvailabilityTimedOut { session: id }).1 == Action::Refuse(
                Error::ActuatorUnavailable,
            )
        }),
{
}

/// The state after `n` watchdog checks of session `id`, one every poll
/// interval after time `start`, with nothing else happening.
pub open spec fn watch(c: CoordinatorModel, id: u64, start: nat, n: nat) -> CoordinatorModel
    decreases n,
{
    if n == 0 {
        c
    } else {
        let t = (start + POLL_INTERVAL_MS) as nat;
        watch(c.next(Event::Tick { session: id, now: t as u64 }).0, id, t, (n - 1) as nat)
    }
}

/// A watchdog that checks every poll interval from `start`, no later than
/// the staleness deadline of an unfinished session that gets no more
/// feedback, changes nothing until the check that records `TimedOut`, and
/// that check comes within the threshold plus one interval of the last
/// activity.
pub proof fn lemma_watchdog_deadline(c: CoordinatorModel, id: u64, start: nat) -> (n: nat)
    requires
        c.wf(),
        c.live(id),
        !c.session().done,
        start <= c.session().last_activity_at + STALENESS_MS,
        c.session().last_activity_at + STALENESS_MS + POLL_INTERVAL_MS <= u64::MAX,
    ensures
        n >= 1,
        start + n * POLL_INTERVAL_MS <= c.session().last_activity_at + STALENESS_MS
            + POLL_INTERVAL_MS,
        watch(c, id, start, n).final_status(id) == Some(GoalStatus::TimedOut),
        forall|m: nat| m < n ==> #[trigger] watch(c, id, start, m) == c,
    decreases c.session().last_activity_at + STALENESS_MS - start,
{
    let t = (start + POLL_INTERVAL_MS) as nat;
    let tick = Event::Tick { session: id, now: t as u64 };
    if t >= c.session().last_activity_at + STALENESS_MS {
        lemma_watchdog_fires_when_stale(c, id, t as u64);
        let c1 = c.next(tick).0;
        assert(watch(c1, id, t, 0) == c1);
        assert(watch(c, id, start, 1) == c1);
        assert forall|m: nat| m < 1 implies #[trigger] watch(c, id, start, m) == c by {
            assert(m == 0);
        }
        1
    } else {
        lemma_watchdog_waits_while_fresh(c, id, t as u64);
        assert(c.next(tick).0 == c);
        let n1 = lemma_watchdog_deadline(c, id, t);
        assert(watch(c, id, start, n1 + 1) == watch(c, id, t, n1));
        assert forall|m: nat| m < n1 + 1 implies #[trigger] watch(c, id, start, m) == c by {
            if m > 0 {
                assert(watch(c, id, start, m) == watch(c, id, t, (m - 1) as nat));
            }
        }
        n1 + 1
    }
}

} // verus!
