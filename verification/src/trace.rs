use vstd::prelude::*;
use crate::command::{Command, Direction, Query};
use crate::endpoint::EndpointView;
use crate::error::SessionError;
use crate::session::{
    ActionView, EventView, Pending, SessionState, SessionView, SETTLING_INTERVAL_MS,
};
use crate::status::{assembled, StatusReplyView};

verus! {

/// Where a session ends up after a sequence of events, and what it answered
/// to each of them.
pub struct Run {
    pub last: SessionView,
    pub actions: Seq<ActionView>,
}

/// Feeds `events` to a session that starts in `start`, one after the other.
pub open spec fn run(start: SessionView, events: Seq<EventView>) -> Run
    decreases events.len(),
{
    if events.len() == 0 {
        Run { last: start, actions: Seq::empty() }
    } else {
        let before = run(start, events.drop_last());
        let step = before.last.step(events.last());
        Run { last: step.next, actions: before.actions.push(step.action) }
    }
}

/// The events of one status refresh over a transport that takes every write.
pub open spec fn refresh_script(reply: StatusReplyView) -> Seq<EventView> {
    seq![
        EventView::RefreshStatus,
        EventView::Written,
        EventView::Written,
        EventView::Written,
        EventView::Written,
        EventView::Settled,
        EventView::Drained(reply),
    ]
}

/// How a refresh ends once the reply has been read: with the snapshot made
/// from it, or with `StatusParseFailed` where none can be made.
pub open spec fn refresh_verdict(endpoint: EndpointView, reply: StatusReplyView) -> ActionView {
    match assembled(endpoint.name, reply) {
        Some(snapshot) => ActionView::Report(snapshot),
        None => ActionView::Fail(SessionError::StatusParseFailed),
    }
}

/// One more event extends a run by one step.
pub proof fn run_extends(start: SessionView, events: Seq<EventView>, k: int)
    requires
        0 <= k < events.len(),
    ensures
        run(start, events.take(k + 1)).last == run(start, events.take(k)).last.step(
            events[k],
        ).next,
        run(start, events.take(k + 1)).actions == run(start, events.take(k)).actions.push(
            run(start, events.take(k)).last.step(events[k]).action,
        ),
{
    assert(events.take(k + 1).drop_last() =~= events.take(k));
    assert(events.take(k + 1).last() == events[k]);
}

/// A session is well formed before anything has happened to it, and no
/// event makes a well-formed session ill formed.
pub proof fn step_keeps_well_formed(session: SessionView, event: EventView)
    requires
        session.wf(),
    ensures
        SessionView::initial().wf(),
        session.step(event).next.wf(),
{
}

/// Whatever happens to a session in whatever order, it stays well formed,
/// and it answers each event with one action.
pub proof fn run_keeps_well_formed(start: SessionView, events: Seq<EventView>)
    requires
        start.wf(),
    ensures
        run(start, events).last.wf(),
        run(start, events).actions.len() == events.len(),
    decreases events.len(),
{
    if events.len() > 0 {
        run_keeps_well_formed(start, events.drop_last());
        step_keeps_well_formed(run(start, events.drop_last()).last, events.last());
    }
}

/// After every answer a session waits for the work that the answer asks
/// for, and for the very command whose line it handed out. After an answer
/// that ends an operation well it waits for nothing, and after a refusal for
/// what it waited for before, or for nothing.
pub proof fn asks_for_what_it_awaits(session: SessionView, event: EventView)
    requires
        session.wf(),
    ensures
        ({
            let step = session.step(event);
            match step.action {
                ActionView::Open(endpoint) => step.next.pending == Pending::Open
                    && step.next.endpoint == Some(endpoint),
                ActionView::Write(line) => step.next.pending matches Pending::Write(command)
                    && line == command.wire(),
                ActionView::Settle(_) => step.next.pending == Pending::Settle,
                ActionView::Drain => step.next.pending == Pending::Drain,
                ActionView::Release => step.next.state == SessionState::Closed,
                ActionView::Done | ActionView::Report(_) => step.next.pending
                    == Pending::Nothing,
                ActionView::Fail(_) => step.next.pending == session.pending || step.next.pending
                    == Pending::Nothing,
            }
        }),
{
}

/// A jog or a refresh asked of a session that is not connected and idle is
/// refused with `NotConnected`: the session stays as it is and nothing is
/// written.
pub proof fn busy_or_unconnected_refuses(session: SessionView, direction: Direction)
    requires
        !session.idle(),
    ensures
        session.step(EventView::Jog(direction)) == session.refuse(SessionError::NotConnected),
        session.step(EventView::RefreshStatus) == session.refuse(SessionError::NotConnected),
{
}

/// A jog asked of a disconnected session always fails with `NotConnected`,
/// and no write comes of it: the session asks for nothing and stays
/// disconnected.
pub proof fn disconnected_jog_writes_nothing(session: SessionView, direction: Direction)
    requires
        session.state == SessionState::Disconnected,
    ensures
        session.step(EventView::Jog(direction)).action == ActionView::Fail(
            SessionError::NotConnected,
        ),
        session.step(EventView::Jog(direction)).next == session,
{
}

/// A line is written only for a connected session, and only in answer to a
/// jog, a refresh, or the report that the query before it was written.
pub proof fn writes_need_connection(session: SessionView, event: EventView)
    requires
        session.wf(),
        session.step(event).action is Write,
    ensures
        session.state == SessionState::Connected,
        event is Jog || event is RefreshStatus || event is Written,
        event is Jog ==> session.step(event).action == ActionView::Write(
            Command::Jog(event->Jog_0).wire(),
        ),
{
}

/// A closed session stays exactly as it is whatever happens, and never asks
/// for outside work again: no write, no release. Closing it again is
/// answered with `Done`.
pub proof fn closed_is_final(session: SessionView, event: EventView)
    requires
        session.wf(),
        session.state == SessionState::Closed,
    ensures
        session.step(event).next == session,
        session.step(event).action is Done || session.step(event).action is Fail,
        session.step(EventView::Close).action == ActionView::Done,
{
}

/// Closing twice is closing once: the second close changes nothing, succeeds
/// and asks for nothing.
pub proof fn close_is_idempotent(session: SessionView)
    ensures
        ({
            let once = session.step(EventView::Close);
            let twice = once.next.step(EventView::Close);
            &&& once.next.state == SessionState::Closed
            &&& twice.next == once.next
            &&& twice.action == ActionView::Done
        }),
{
}

/// Once a session has been closed, nothing that happens changes it and
/// nothing is asked of the transport again: whatever events follow the
/// close, in whatever order, each is answered with `Done` or with an error,
/// never with a write, and the session stays as the close left it.
pub proof fn nothing_follows_close(session: SessionView, events: Seq<EventView>)
    requires
        session.wf(),
    ensures
        ({
            let closed = session.step(EventView::Close).next;
            let after = run(closed, events);
            &&& closed.state == SessionState::Closed
            &&& after.last == closed
            &&& after.actions.len() == events.len()
            &&& forall|i: int|
                0 <= i < events.len() ==> #[trigger] after.actions[i] is Done || after.actions[i]
                    is Fail
        }),
    decreases events.len(),
{
    let closed = session.step(EventView::Close).next;
    step_keeps_well_formed(session, EventView::Close);
    if events.len() > 0 {
        nothing_follows_close(session, events.drop_last());
        closed_is_final(closed, events.last());
    }
}

/// The stored snapshot changes only when a refresh succeeds: in answer to
/// the device's reply, read while the session waited for it, and then the
/// new snapshot is the one reported. An operation that fails leaves the
/// snapshot as it was.
pub proof fn snapshot_changes_only_by_report(session: SessionView, event: EventView)
    ensures
        ({
            let step = session.step(event);
            &&& step.next.snapshot != session.snapshot ==> session.pending == Pending::Drain
                && event is Drained && step.action is Report
            &&& step.action matches ActionView::Report(snapshot) ==> step.next.snapshot == Some(
                snapshot,
            ) && session.pending == Pending::Drain
            &&& step.action is Fail ==> step.next.snapshot == session.snapshot
        }),
{
}

/// The reply is read only after the settling interval, the interval is
/// waited only after the last query of the batch was written, and each query
/// is written only after the one before it: a session comes to wait for a
/// piece of outside work only from waiting for the piece before it.
pub proof fn refresh_goes_in_order(session: SessionView, event: EventView)
    ensures
        ({
            let next = session.step(event).next;
            next.pending != session.pending ==> {
            &&& next.pending == Pending::Drain ==> session.pending == Pending::Settle && event
                == EventView::Settled
            &&& next.pending == Pending::Settle ==> session.pending == Pending::Write(
                Command::Query(Query::SettingsGroups),
            ) && event == EventView::Written
            &&& next.pending matches Pending::Write(Command::Query(query)) ==> {
                ||| query == Query::ExtendedInfo && session.idle() && event
                    == EventView::RefreshStatus
                ||| session.pending matches Pending::Write(Command::Query(before))
                    && before.spec_next() == Some(query) && event == EventView::Written
            }
            &&& next.pending matches Pending::Write(Command::Jog(direction)) ==> session.idle()
                && event == EventView::Jog(direction)
            }
        }),
{
}

/// One refresh of an idle connected session, over a transport that takes
/// every write, writes the four queries once each and in their fixed order,
/// then waits the settling interval once, then reads the reply, and ends
/// with a snapshot or with `StatusParseFailed`. Either way the session is
/// connected and idle again, and only a snapshot replaces the stored one.
pub proof fn refresh_writes_batch_in_order(session: SessionView, reply: StatusReplyView)
    requires
        session.wf(),
        session.idle(),
    ensures
        ({
            let done = run(session, refresh_script(reply));
            &&& done.actions == seq![
                ActionView::Write(Command::Query(Query::ExtendedInfo).wire()),
                ActionView::Write(Command::Query(Query::AllSettings).wire()),
                ActionView::Write(Command::Query(Query::SettingsDetails).wire()),
                ActionView::Write(Command::Query(Query::SettingsGroups).wire()),
                ActionView::Settle(SETTLING_INTERVAL_MS),
                ActionView::Drain,
                refresh_verdict(session.endpoint->0, reply),
            ]
            &&& done.last.idle()
            &&& done.last.endpoint == session.endpoint
            &&& done.last.snapshot == match assembled(session.endpoint->0.name, reply) {
                Some(snapshot) => Some(snapshot),
                None => session.snapshot,
            }
        }),
{
    let events = refresh_script(reply);
    let waiting = |query: Query| session.waiting_for(Pending::Write(Command::Query(query)));
    assert(events.take(0) =~= Seq::<EventView>::empty());
    assert(run(session, events.take(0)).last == session);
    run_extends(session, events, 0);
    assert(run(session, events.take(1)).last == waiting(Query::ExtendedInfo));
    run_extends(session, events, 1);
    assert(run(session, events.take(2)).last == waiting(Query::AllSettings));
    run_extends(session, events, 2);
    assert(run(session, events.take(3)).last == waiting(Query::SettingsDetails));
    run_extends(session, events, 3);
    assert(run(session, events.take(4)).last == waiting(Query::SettingsGroups));
    run_extends(session, events, 4);
    assert(run(session, events.take(5)).last == session.waiting_for(Pending::Settle));
    run_extends(session, events, 5);
    assert(run(session, events.take(6)).last == session.waiting_for(Pending::Drain));
    run_extends(session, events, 6);
    assert(events.take(7) =~= events);
}

/// Feeding a session one sequence of events and then another is feeding it
/// the two joined.
pub proof fn run_continues(start: SessionView, first: Seq<EventView>, then: Seq<EventView>)
    ensures
        run(start, first + then).last == run(run(start, first).last, then).last,
        run(start, first + then).actions == run(start, first).actions + run(
            run(start, first).last,
            then,
        ).actions,
    decreases then.len(),
{
    if then.len() == 0 {
        assert(first + then =~= first);
        assert(run(start, first).actions + Seq::<ActionView>::empty() =~= run(
            start,
            first,
        ).actions);
    } else {
        run_continues(start, first, then.drop_last());
        assert((first + then).drop_last() =~= first + then.drop_last());
        assert((first + then).last() == then.last());
        let middle = run(start, first);
        let before = run(middle.last, then.drop_last());
        let step = before.last.step(then.last());
        assert(middle.actions + before.actions.push(step.action) =~= (middle.actions
            + before.actions).push(step.action));
    }
}

/// The events of a connection whose endpoint opens.
pub open spec fn connect_script(endpoint: EndpointView) -> Seq<EventView> {
    seq![EventView::Connect(endpoint), EventView::Opened]
}

/// Connecting a new session to an endpoint that opens leaves it connected
/// and idle, owning that endpoint: it asked for the opening and for nothing
/// else.
pub proof fn connect_reaches_connected(endpoint: EndpointView)
    ensures
        ({
            let done = run(SessionView::initial(), connect_script(endpoint));
            &&& done.actions == seq![ActionView::Open(endpoint), ActionView::Done]
            &&& done.last == SessionView {
                state: SessionState::Connected,
                pending: Pending::Nothing,
                endpoint: Some(endpoint),
                snapshot: None,
            }
        }),
{
    let events = connect_script(endpoint);
    assert(events.take(0) =~= Seq::<EventView>::empty());
    run_extends(SessionView::initial(), events, 0);
    run_extends(SessionView::initial(), events, 1);
    assert(events.take(2) =~= events);
}

/// Connecting a new session to an endpoint that does not open fails with
/// `EndpointUnavailable` and leaves the session as new: disconnected, with no
/// endpoint kept.
pub proof fn failed_connect_stays_disconnected(endpoint: EndpointView)
    ensures
        ({
            let done = run(
                SessionView::initial(),
                seq![EventView::Connect(endpoint), EventView::OpenFailed],
            );
            &&& done.actions == seq![
                ActionView::Open(endpoint),
                ActionView::Fail(SessionError::EndpointUnavailable),
            ]
            &&& done.last == SessionView::initial()
        }),
{
    let events = seq![EventView::Connect(endpoint), EventView::OpenFailed];
    assert(events.take(0) =~= Seq::<EventView>::empty());
    run_extends(SessionView::initial(), events, 0);
    run_extends(SessionView::initial(), events, 1);
    assert(events.take(2) =~= events);
}

/// Connecting a new session to an endpoint that opens and refreshing at
/// once, over a transport that takes every write, ends with the session
/// connected and with either the snapshot made from the reply or
/// `StatusParseFailed`. On the way the session asks for the opening, the
/// four writes, one settling interval and one read, and for nothing else.
pub proof fn connect_then_refresh(endpoint: EndpointView, reply: StatusReplyView)
    ensures
        ({
            let done = run(
                SessionView::initial(),
                connect_script(endpoint) + refresh_script(reply),
            );
            &&& done.last.state == SessionState::Connected
            &&& done.last.idle()
            &&& done.actions.len() == 9
            &&& done.actions.last() == refresh_verdict(endpoint, reply)
            &&& done.actions.last() is Report || done.actions.last() == ActionView::Fail(
                SessionError::StatusParseFailed,
            )
            &&& done.actions.last() matches ActionView::Report(snapshot) ==> done.last.snapshot
                == Some(snapshot) && snapshot.id == endpoint.name
            &&& done.actions.last() is Fail ==> done.last.snapshot is None
            &&& forall|i: int|
                0 <= i < 9 && #[trigger] done.actions[i] is Settle ==> i == 6 && done.actions[i]
                    == ActionView::Settle(SETTLING_INTERVAL_MS)
        }),
{
    let connected = run(SessionView::initial(), connect_script(endpoint));
    connect_reaches_connected(endpoint);
    refresh_writes_batch_in_order(connected.last, reply);
    run_continues(SessionView::initial(), connect_script(endpoint), refresh_script(reply));
}

/// A jog of an idle connected session, over a transport that takes the
/// write, writes exactly one line, the one that jogs in `direction`, and
/// leaves the session as it was.
pub proof fn jog_writes_one_line(session: SessionView, direction: Direction)
    requires
        session.idle(),
    ensures
        ({
            let done = run(session, seq![EventView::Jog(direction), EventView::Written]);
            &&& done.actions == seq![
                ActionView::Write(Command::Jog(direction).wire()),
                ActionView::Done,
            ]
            &&& done.last == session
        }),
{
    let events = seq![EventView::Jog(direction), EventView::Written];
    assert(events.take(0) =~= Seq::<EventView>::empty());
    run_extends(session, events, 0);
    run_extends(session, events, 1);
    assert(events.take(2) =~= events);
}

/// A write that the transport refuses ends the operation at once with
/// `WriteFailed`: no further command of the batch is written, no interval
/// waited and no reply read. The session stays connected and idle, with the
/// snapshot it had.
pub proof fn failed_write_ends_operation(session: SessionView)
    requires
        session.pending is Write,
    ensures
        session.step(EventView::WriteFailed).action == ActionView::Fail(SessionError::WriteFailed),
        session.step(EventView::WriteFailed).next == session.waiting_for(Pending::Nothing),
{
}

} // verus!
