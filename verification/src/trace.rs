//! What holds of every run of a poller.
//!
//! A run is a poller state and the events that arrive after it. The
//! statements here are about the plain-value model of the poller, which is
//! what `Poller::step` and `Poller::action` are specified by.

use vstd::prelude::*;
use crate::device::{DeviceEventView, lemma_table_apply, table_apply};
use crate::error::ErrorKind;
use crate::poll::{ActionView, EventView, Liveness, Phase, PollerView};
use crate::poll::{lemma_next_pending, needs_transport};
use crate::protocol::{check_outcome, register_frame, register_outcome, sign_frame, sign_outcome};

verus! {

/// The state a poller is in after `events` have arrived one by one.
pub open spec fn run(state: PollerView, events: Seq<EventView>) -> PollerView
    decreases events.len(),
{
    if events.len() == 0 {
        state
    } else {
        run(state.step(events[0]), events.drop_first())
    }
}

/// `count` events that each report a finished action.
pub open spec fn dones(count: nat) -> Seq<EventView> {
    Seq::new(count, |i: int| EventView::Done)
}

/// `count` events that each report a failed exchange.
pub open spec fn failures(count: nat) -> Seq<EventView> {
    Seq::new(count, |i: int| EventView::ExchangeFailed)
}

/// Whether an action only releases or delivers: it closes a device, closes
/// the monitor, or hands over the result.
pub open spec fn is_releasing_action(action: ActionView) -> bool {
    action is CloseDevice || action is CloseMonitor || action is Complete
}

/// Going on with the pending events keeps the invariant.
proof fn lemma_resume_wf(state: PollerView, from: int)
    requires
        state.valid_input(),
        state.table.no_duplicates(),
        state.result is None,
        0 <= from <= state.pending.len(),
    ensures
        state.resume(from).wf(),
{
    lemma_next_pending(state.table, state.pending, from);
}

/// Every step keeps the invariant of the poller.
pub proof fn lemma_step_wf(state: PollerView, event: EventView)
    requires
        state.wf(),
    ensures
        state.step(event).wf(),
{
    match (state.phase, event) {
        (Phase::PollingMonitor, EventView::Events(events)) => {
            lemma_resume_wf(PollerView { pending: events, ..state }, 0);
        },
        (Phase::Opening, EventView::Opened(opened)) => {
            lemma_table_apply(state.table, state.pending[state.cursor], opened);
            lemma_resume_wf(
                PollerView {
                    table: table_apply(state.table, state.pending[state.cursor], opened),
                    ..state
                },
                state.cursor + 1,
            );
        },
        (Phase::Closing, EventView::Done) => {
            lemma_table_apply(state.table, state.pending[state.cursor], false);
            lemma_resume_wf(
                PollerView {
                    table: table_apply(state.table, state.pending[state.cursor], false),
                    ..state
                },
                state.cursor + 1,
            );
        },
        (Phase::Releasing, EventView::Done) => {
            lemma_release_one(state);
        },
        _ => {},
    }
}

/// Closing the last device of the table takes exactly that device out.
proof fn lemma_release_one(state: PollerView)
    requires
        state.wf(),
        state.phase == Phase::Releasing,
    ensures
        state.step(EventView::Done).table == state.table.drop_last(),
        state.step(EventView::Done).table.no_duplicates(),
{
    let table = state.table;
    let last = table.last();
    assert(table[table.len() - 1] == last);
    assert(table.contains(last));
    let at = table.index_of(last);
    assert(at == table.len() - 1);
    assert(table.remove(at) =~= table.drop_last());
}

/// Every run keeps the invariant of the poller.
pub proof fn lemma_run_wf(state: PollerView, events: Seq<EventView>)
    requires
        state.wf(),
    ensures
        run(state, events).wf(),
    decreases events.len(),
{
    if events.len() > 0 {
        lemma_step_wf(state, events[0]);
        lemma_run_wf(state.step(events[0]), events.drop_first());
    }
}

/// The table changes only when the transport has opened or closed a device:
/// a step out of any other phase leaves the table as it is. In particular
/// the devices tried in one cycle are those the table held when the monitor
/// events of that cycle had been applied.
pub proof fn lemma_table_changes(state: PollerView, event: EventView)
    requires
        state.wf(),
    ensures
        state.phase == Phase::Opening && event is Opened ==> state.step(event).table
            == table_apply(state.table, state.pending[state.cursor], event->Opened_0),
        state.phase == Phase::Closing && event is Done ==> state.step(event).table == table_apply(
            state.table,
            state.pending[state.cursor],
            false,
        ),
        state.phase == Phase::Releasing && event is Done ==> state.step(event).table
            == state.table.drop_last(),
        !(state.phase == Phase::Opening && event is Opened) && !(state.phase == Phase::Closing
            && event is Done) && !(state.phase == Phase::Releasing && event is Done)
            ==> state.step(event).table == state.table,
{
    if state.phase == Phase::Releasing && event is Done {
        lemma_release_one(state);
    }
}

/// A device that was added and could be opened is in the table from then
/// on, so the next attempts include it; a device that was removed is out of
/// the table as soon as its handle is closed, so the next attempts leave it
/// out.
pub proof fn lemma_hotplug(state: PollerView, event: EventView)
    requires
        state.wf(),
    ensures
        state.phase == Phase::Opening && event == EventView::Opened(true) ==> state.step(
            event,
        ).table.contains(state.pending[state.cursor].identity()),
        state.phase == Phase::Opening && event == EventView::Opened(false) ==> state.step(
            event,
        ).table == state.table,
        state.phase == Phase::Closing && event is Done ==> !state.step(event).table.contains(
            state.pending[state.cursor].identity(),
        ),
{
    if state.phase == Phase::Opening && event is Opened {
        lemma_table_apply(state.table, state.pending[state.cursor], event->Opened_0);
    }
    if state.phase == Phase::Closing && event is Done {
        lemma_table_apply(state.table, state.pending[state.cursor], false);
    }
}

/// An event that takes no action of the transport leaves the table as it
/// is: it removes a device that is not there.
pub proof fn lemma_inert_event(table: Seq<Seq<u8>>, event: DeviceEventView, opened: bool)
    requires
        !needs_transport(table, event),
    ensures
        table_apply(table, event, opened) == table,
{
}

/// The monitor's events are applied in the order in which they came. After
/// the poll, and after each answer of the transport during the drain, the
/// poller stands at the next event that takes an action of the transport;
/// every event it passed over leaves the table as it is. When no such event
/// is left, the devices of the table are tried, beginning with the first.
pub proof fn lemma_drain(state: PollerView, event: EventView)
    requires
        state.wf(),
        (state.phase == Phase::PollingMonitor && event is Events) || (state.phase
            == Phase::Opening && event is Opened) || (state.phase == Phase::Closing
            && event is Done),
    ensures
        ({
            let next = state.step(event);
            let events = if state.phase == Phase::PollingMonitor {
                event->Events_0
            } else {
                state.pending
            };
            let from = if state.phase == Phase::PollingMonitor {
                0
            } else {
                state.cursor + 1
            };
            let draining = next.phase == Phase::Opening || next.phase == Phase::Closing;
            let to = if draining {
                next.cursor
            } else {
                events.len() as int
            };
            &&& from <= to <= events.len()
            &&& forall|k: int| from <= k < to ==> !needs_transport(next.table, #[trigger] events[k])
            &&& draining ==> next.pending == events && (next.phase == Phase::Opening
                <==> events[to] is Add)
            &&& !draining ==> next.pending.len() == 0 && (if next.table.len() > 0 {
                next.cursor == 0 && (next.phase == Phase::Registering || next.phase
                    == Phase::Checking)
            } else {
                next.phase == Phase::Sleeping
            })
        }),
{
    let from = if state.phase == Phase::PollingMonitor {
        0
    } else {
        state.cursor + 1
    };
    let before = match (state.phase, event) {
        (Phase::PollingMonitor, EventView::Events(events)) => PollerView {
            pending: events,
            ..state
        },
        (Phase::Opening, EventView::Opened(opened)) => PollerView {
            table: table_apply(state.table, state.pending[state.cursor], opened),
            ..state
        },
        _ => PollerView {
            table: table_apply(state.table, state.pending[state.cursor], false),
            ..state
        },
    };
    assert(state.step(event) == before.resume(from));
    lemma_next_pending(before.table, before.pending, from);
}

/// Every exchange the poller asks for is with a device that is in the
/// table. The monitor is closed, and the result delivered, only after the
/// result is decided.
pub proof fn lemma_actions(state: PollerView)
    requires
        state.wf(),
    ensures
        state.action() matches ActionView::Exchange { device, request } ==> state.table.contains(
            device,
        ),
        state.action() is Exchange <==> (state.phase == Phase::Registering || state.phase
            == Phase::Checking || state.phase == Phase::Signing || state.phase
            == Phase::Blinking),
        state.action() is CloseMonitor <==> state.phase == Phase::ClosingMonitor,
        state.action() is Complete <==> state.phase == Phase::Finished,
        state.action() is CloseMonitor || state.action() is Complete ==> state.decided(),
{
    if state.action() is Exchange {
        assert(state.table[state.cursor] == state.action()->Exchange_device);
    }
}

/// In one cycle every device of the table is tried, in the table's order:
/// when the first `k` devices have failed, the next exchange is with the
/// device at index `k`, and when all have failed the poller sleeps for the
/// poll interval. The table is the same throughout.
pub proof fn lemma_cycle_tries_every_device(state: PollerView, k: nat)
    requires
        state.wf(),
        state.phase == Phase::Registering || state.phase == Phase::Checking,
        state.cursor == 0,
        k <= state.table.len(),
    ensures
        run(state, failures(k)).table == state.table,
        k < state.table.len() ==> run(state, failures(k)).action() is Exchange && run(
            state,
            failures(k),
        ).action()->Exchange_device == state.table[k as int],
        k == state.table.len() ==> run(state, failures(k)).action() == ActionView::Sleep(
            crate::poll::POLL_INTERVAL_MS,
        ),
{
    lemma_failures_advance(state, k);
}

/// After `k` failed exchanges the poller stands `k` devices further.
proof fn lemma_failures_advance(state: PollerView, k: nat)
    requires
        state.wf(),
        state.phase == Phase::Registering || state.phase == Phase::Checking,
        state.cursor + k <= state.table.len(),
    ensures
        run(state, failures(k)).table == state.table,
        run(state, failures(k)).mode == state.mode,
        state.cursor + k < state.table.len() ==> run(state, failures(k)).phase == state.phase
            && run(state, failures(k)).cursor == state.cursor + k,
        state.cursor + k == state.table.len() ==> run(state, failures(k)).phase
            == Phase::Sleeping,
    decreases k,
{
    if k == 0 {
        assert(failures(0).len() == 0);
    } else {
        let next = state.step(EventView::ExchangeFailed);
        assert(failures(k)[0] == EventView::ExchangeFailed);
        assert(failures(k).drop_first() =~= failures((k - 1) as nat));
        lemma_step_wf(state, EventView::ExchangeFailed);
        if state.cursor + 1 < state.table.len() {
            lemma_failures_advance(next, (k - 1) as nat);
        } else {
            assert(k == 1);
            assert(failures(0).len() == 0);
            assert(run(next, failures(0)) == next);
        }
    }
}

/// At the head of a cycle the run loop decides: alive, the monitor is
/// polled next; cancelled or timed out, the result is decided with that
/// kind and nothing but releasing follows.
pub proof fn lemma_liveness(state: PollerView, liveness: Liveness)
    requires
        state.wf(),
        state.phase == Phase::CheckingLiveness,
    ensures
        liveness == Liveness::Alive ==> state.step(EventView::Liveness(liveness)).action()
            == ActionView::PollMonitor,
        liveness == Liveness::Cancelled ==> state.step(EventView::Liveness(liveness)).result
            == Some(Err::<Seq<u8>, ErrorKind>(ErrorKind::Cancelled)),
        liveness == Liveness::TimedOut ==> state.step(EventView::Liveness(liveness)).result == Some(
            Err::<Seq<u8>, ErrorKind>(ErrorKind::TimedOut),
        ),
        liveness != Liveness::Alive ==> state.step(EventView::Liveness(liveness)).decided(),
{
}

/// In register mode the first device whose response is a register response
/// with a success status ends the operation with that response; any other
/// response, and a failed exchange, leaves the result open and moves on to
/// the next device, or to the pause when this was the last one.
pub proof fn lemma_register_attempt(state: PollerView, event: EventView)
    requires
        state.wf(),
        state.phase == Phase::Registering,
        event is Reply || event is ExchangeFailed,
    ensures
        event is Reply && register_outcome(event->Reply_0) is Ok ==> state.step(event).result
            == Some(Ok::<Seq<u8>, ErrorKind>(register_outcome(event->Reply_0)->Ok_0))
            && state.step(event).decided(),
        !(event is Reply && register_outcome(event->Reply_0) is Ok) ==> state.step(event)
            == state.attempt_at(state.cursor + 1) && !state.step(event).decided(),
{
}

/// In sign mode the check-only response decides what is asked of the device
/// next: a device that knows the key handle is asked to sign, a device that
/// does not is asked to register, which makes it blink and signs nothing. A
/// failed or unreadable check skips the device for this cycle.
pub proof fn lemma_check_attempt(state: PollerView, event: EventView)
    requires
        state.wf(),
        state.phase == Phase::Checking,
        event is Reply || event is ExchangeFailed,
    ensures
        event is Reply && check_outcome(event->Reply_0) == Ok::<bool, ErrorKind>(true)
            ==> state.step(event).action() == (ActionView::Exchange {
            device: state.table[state.cursor],
            request: sign_frame(state.challenge, state.application, state.key_handle),
        }),
        event is Reply && check_outcome(event->Reply_0) == Ok::<bool, ErrorKind>(false)
            ==> state.step(event).phase == Phase::Blinking && state.step(event).action() == (
        ActionView::Exchange {
            device: state.table[state.cursor],
            request: register_frame(state.challenge, state.application),
        }),
        !(event is Reply && check_outcome(event->Reply_0) is Ok) ==> state.step(event)
            == state.attempt_at(state.cursor + 1),
        !state.step(event).decided(),
{
}

/// A sign response with a success status ends the operation with that
/// response; anything else moves on.
pub proof fn lemma_sign_attempt(state: PollerView, event: EventView)
    requires
        state.wf(),
        state.phase == Phase::Signing,
        event is Reply || event is ExchangeFailed,
    ensures
        event is Reply && sign_outcome(event->Reply_0) is Ok ==> state.step(event).result == Some(
            Ok::<Seq<u8>, ErrorKind>(sign_outcome(event->Reply_0)->Ok_0),
        ) && state.step(event).decided(),
        !(event is Reply && sign_outcome(event->Reply_0) is Ok) ==> state.step(event)
            == state.attempt_at(state.cursor + 1) && !state.step(event).decided(),
{
}

/// When a device that does not know the key handle answers the register
/// request with success, the user has touched that device, and the
/// operation ends with `InvalidKey`. Between the check and this end no sign
/// request was asked of the device: the request of the blinking phase is
/// the register request, which differs from every sign request.
pub proof fn lemma_blink_attempt(state: PollerView, event: EventView)
    requires
        state.wf(),
        state.phase == Phase::Blinking,
        event is Reply || event is ExchangeFailed,
    ensures
        state.action()->Exchange_request != sign_frame(
            state.challenge,
            state.application,
            state.key_handle,
        ),
        event is Reply && register_outcome(event->Reply_0) is Ok ==> state.step(event).result
            == Some(Err::<Seq<u8>, ErrorKind>(ErrorKind::InvalidKey)) && state.step(
            event,
        ).decided(),
        !(event is Reply && register_outcome(event->Reply_0) is Ok) ==> state.step(event)
            == state.attempt_at(state.cursor + 1) && !state.step(event).decided(),
{
    let register = register_frame(state.challenge, state.application);
    let sign = sign_frame(state.challenge, state.application, state.key_handle);
    assert(register[1] == 0x01u8);
    assert(sign[1] == 0x02u8);
}

/// Once the result is decided it stays as it is, whatever arrives, and the
/// poller asks for nothing but closing a device, closing the monitor, or
/// delivering: no device is opened, polled or talked to after the decision.
pub proof fn lemma_decided_is_final(state: PollerView, events: Seq<EventView>)
    requires
        state.wf(),
        state.decided(),
    ensures
        run(state, events).decided(),
        run(state, events).result == state.result,
        is_releasing_action(run(state, events).action()),
    decreases events.len(),
{
    if events.len() > 0 {
        lemma_step_wf(state, events[0]);
        lemma_decided_is_final(state.step(events[0]), events.drop_first());
    }
}

/// After the decision the open devices are closed one by one, the last of
/// the table first, then the monitor is closed, and then the result is
/// delivered: with `n` devices open, the action after `k < n` closings is to
/// close the device at index `n - 1 - k`, the action after `n` is to close
/// the monitor, and the action after `n + 1` is to deliver the decided
/// result, with no device left in the table.
pub proof fn lemma_release(state: PollerView, k: nat)
    requires
        state.wf(),
        state.phase == Phase::Releasing || state.phase == Phase::ClosingMonitor,
        k <= state.table.len() + 1,
    ensures
        k < state.table.len() ==> run(state, dones(k)).action() == ActionView::CloseDevice(
            state.table[state.table.len() - 1 - k],
        ),
        k == state.table.len() ==> run(state, dones(k)).action() == ActionView::CloseMonitor,
        k == state.table.len() + 1 ==> run(state, dones(k)).action() == ActionView::Complete(
            state.result->Some_0,
        ) && run(state, dones(k)).table.len() == 0,
    decreases k,
{
    if k == 0 {
        assert(dones(0).len() == 0);
    } else {
        let next = state.step(EventView::Done);
        assert(dones(k)[0] == EventView::Done);
        assert(dones(k).drop_first() =~= dones((k - 1) as nat));
        lemma_step_wf(state, EventView::Done);
        if state.phase == Phase::Releasing {
            lemma_release_one(state);
            lemma_release(next, (k - 1) as nat);
        } else {
            assert(k == 1);
            assert(dones(0).len() == 0);
            assert(run(next, dones(0)) == next);
        }
    }
}

/// An operation ends with a response, or with one of four kinds of failure:
/// cancelled, timed out, invalid key, or a transport error. A register
/// operation never ends with an invalid key, and the response it ends with
/// is a register response. This holds after any events whatever.
pub proof fn lemma_results(state: PollerView, events: Seq<EventView>)
    requires
        state.wf(),
    ensures
        run(state, events).result matches Some(result) ==> run(state, events).possible_result(
            result,
        ),
        run(state, events).mode == state.mode,
        run(state, events).challenge == state.challenge,
        run(state, events).application == state.application,
        run(state, events).key_handle == state.key_handle,
        run(state, events).timeout == state.timeout,
    decreases events.len(),
{
    if events.len() > 0 {
        lemma_step_wf(state, events[0]);
        lemma_results(state.step(events[0]), events.drop_first());
    }
}

/// After the pause the next cycle begins with the liveness check, and the
/// monitor is polled once the run loop has said that the operation is alive:
/// liveness is looked at before each cycle, the monitor once in each.
pub proof fn lemma_cycle(state: PollerView)
    requires
        state.wf(),
        state.phase == Phase::Sleeping,
    ensures
        state.step(EventView::Done).action() == ActionView::CheckAlive,
        state.step(EventView::Done).step(EventView::Liveness(Liveness::Alive)).action()
            == ActionView::PollMonitor,
{
}

/// When the monitor cannot be opened the operation ends at once with a
/// transport error as its result, which is delivered like any other.
pub proof fn lemma_monitor_failure(state: PollerView)
    requires
        state.wf(),
        state.phase == Phase::Start,
    ensures
        state.action() == ActionView::OpenMonitor,
        state.step(EventView::MonitorOpened(false)).action() == ActionView::Complete(
            Err::<Seq<u8>, ErrorKind>(ErrorKind::TransportError),
        ),
        state.step(EventView::MonitorOpened(true)).action() == ActionView::CheckAlive,
{
}

} // verus!
