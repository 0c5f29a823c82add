//! The device poller's decisions.
//!
//! The poller keeps a connection to the device open and hands every
//! record it reads to the consumer. It is either waiting for the device
//! or connected to it. The work itself (opening the device, reading
//! eight bytes, pushing a record into the handoff) is done by whoever
//! drives the poller: it performs the action it is given and reports
//! what happened as an event. What to do next is decided here.
//!
//! ```text
//!                    OpenFailed
//!                   +----------+
//!                   v          |
//!             WaitingForDevice-+---Opened---> Connected <--+
//!                   ^                           |   |      |
//!                   |  ReadFailed, ConsumerGone |   +------+
//!                   +---------------------------+  RecordRead, Delivered
//! ```

use vstd::prelude::*;

verus! {

/// Where the poller stands.
#[derive(Debug, Clone, Copy, PartialEq, Eq)]
pub enum PollerState {
    /// No device handle is held.
    WaitingForDevice,
    /// The handle opened last is held and read from.
    Connected,
}

/// What happened when the driver performed the last action.
#[derive(Debug, Clone, Copy, PartialEq, Eq)]
pub enum PollerEvent {
    /// The device could not be opened.
    OpenFailed,
    /// The device was opened; the driver holds the new handle.
    Opened,
    /// The read failed or came up short.
    ReadFailed,
    /// A full record was read.
    RecordRead([u8; 8]),
    /// The record was pushed into the handoff.
    Delivered,
    /// The record could not be pushed: the consumer has dropped its end.
    ConsumerGone,
}

/// What the driver has to do next.
#[derive(Debug, Clone, Copy, PartialEq, Eq)]
pub enum PollerAction {
    /// Drop the handle, if one is held, and try to open the device.
    OpenDevice,
    /// Read exactly eight bytes from the handle.
    ReadRecord,
    /// Push this record into the handoff.
    Deliver([u8; 8]),
}

/// The outcome of one decision: the state to be in and the action to perform.
#[derive(Debug, Clone, Copy, PartialEq, Eq)]
pub struct Transition {
    pub state: PollerState,
    pub action: PollerAction,
}

/// The poller's first move: no handle yet, so open the device.
pub open spec fn initial() -> Transition {
    Transition { state: PollerState::WaitingForDevice, action: PollerAction::OpenDevice }
}

/// The transition function.
///
/// Any failure, and the loss of the consumer, sends the poller back to
/// `WaitingForDevice`; a successful open connects it. A record is passed
/// on only while connected, and exactly as it was read. A record or a
/// delivery reported while no handle is held is dropped, and the poller
/// asks for the device again.
pub open spec fn next(state: PollerState, event: PollerEvent) -> Transition {
    match event {
        PollerEvent::Opened => Transition {
            state: PollerState::Connected,
            action: PollerAction::ReadRecord,
        },
        PollerEvent::OpenFailed | PollerEvent::ReadFailed | PollerEvent::ConsumerGone => initial(),
        PollerEvent::RecordRead(record) => match state {
            PollerState::Connected => Transition {
                state: PollerState::Connected,
                action: PollerAction::Deliver(record),
            },
            PollerState::WaitingForDevice => initial(),
        },
        PollerEvent::Delivered => match state {
            PollerState::Connected => Transition {
                state: PollerState::Connected,
                action: PollerAction::ReadRecord,
            },
            PollerState::WaitingForDevice => initial(),
        },
    }
}

/// Starts the poller: it waits for the device and asks for it to be opened.
pub fn start() -> (first: Transition)
    ensures
        first == initial(),
{
    Transition { state: PollerState::WaitingForDevice, action: PollerAction::OpenDevice }
}

/// Decides what follows `event` in `state`.
///
/// The poller asks for the device to be opened exactly when it ends up
/// waiting for it, so a handle is held exactly while it is connected.
pub fn step(state: PollerState, event: PollerEvent) -> (taken: Transition)
    ensures
        taken == next(state, event),
        taken.action is OpenDevice <==> taken.state is WaitingForDevice,
        taken.action matches PollerAction::Deliver(record) ==> state is Connected && event
            == PollerEvent::RecordRead(record),
{
    let waiting = Transition {
        state: PollerState::WaitingForDevice,
        action: PollerAction::OpenDevice,
    };
    let reading = Transition { state: PollerState::Connected, action: PollerAction::ReadRecord };
    match event {
        PollerEvent::Opened => reading,
        PollerEvent::OpenFailed => waiting,
        PollerEvent::ReadFailed => waiting,
        PollerEvent::ConsumerGone => waiting,
        PollerEvent::RecordRead(record) => match state {
            PollerState::Connected => Transition {
                state: PollerState::Connected,
                action: PollerAction::Deliver(record),
            },
            PollerState::WaitingForDevice => waiting,
        },
        PollerEvent::Delivered => match state {
            PollerState::Connected => reading,
            PollerState::WaitingForDevice => waiting,
        },
    }
}

/// Whether `event` reports that something went wrong.
pub open spec fn is_failure(event: PollerEvent) -> bool {
    event is OpenFailed || event is ReadFailed || event is ConsumerGone
}

/// The state that `events`, taken in order, lead to from `state`.
pub open spec fn run(state: PollerState, events: Seq<PollerEvent>) -> PollerState
    decreases events.len(),
{
    if events.len() == 0 {
        state
    } else {
        next(run(state, events.drop_last()), events.last()).state
    }
}

/// The records that the poller asks to be delivered along `events`, in
/// the order in which it asks.
pub open spec fn deliveries(state: PollerState, events: Seq<PollerEvent>) -> Seq<[u8; 8]>
    decreases events.len(),
{
    if events.len() == 0 {
        Seq::empty()
    } else {
        let before = deliveries(state, events.drop_last());
        match next(run(state, events.drop_last()), events.last()).action {
            PollerAction::Deliver(record) => before.push(record),
            _ => before,
        }
    }
}

/// The records that `events` report as read, in order.
pub open spec fn records_read(events: Seq<PollerEvent>) -> Seq<[u8; 8]>
    decreases events.len(),
{
    if events.len() == 0 {
        Seq::empty()
    } else {
        let before = records_read(events.drop_last());
        match events.last() {
            PollerEvent::RecordRead(record) => before.push(record),
            _ => before,
        }
    }
}

/// Running two stretches of events one after the other is running their
/// concatenation, and the deliveries add up in order.
pub proof fn lemma_run_in_two_parts(
    state: PollerState,
    first: Seq<PollerEvent>,
    second: Seq<PollerEvent>,
)
    ensures
        run(state, first + second) == run(run(state, first), second),
        deliveries(state, first + second) == deliveries(state, first) + deliveries(
            run(state, first),
            second,
        ),
    decreases second.len(),
{
    if second.len() == 0 {
        assert(first + second =~= first);
    } else {
        assert((first + second).drop_last() =~= first + second.drop_last());
        assert((first + second).last() == second.last());
        lemma_run_in_two_parts(state, first, second.drop_last());
    }
}

/// While the device cannot be opened the poller keeps waiting, however
/// often it tries, and delivers nothing.
pub proof fn lemma_open_failures_keep_waiting(attempts: Seq<PollerEvent>)
    requires
        forall|i: int| 0 <= i < attempts.len() ==> #[trigger] attempts[i] is OpenFailed,
    ensures
        run(PollerState::WaitingForDevice, attempts) == PollerState::WaitingForDevice,
        deliveries(PollerState::WaitingForDevice, attempts) == Seq::<[u8; 8]>::empty(),
    decreases attempts.len(),
{
    if attempts.len() > 0 {
        lemma_open_failures_keep_waiting(attempts.drop_last());
    }
}

/// While nothing fails, a connected poller stays connected and asks for
/// every record that is read to be delivered: each one once, unchanged,
/// and in the order of reading.
pub proof fn lemma_connected_delivers_every_read(events: Seq<PollerEvent>)
    requires
        forall|i: int| 0 <= i < events.len() ==> !is_failure(#[trigger] events[i]),
    ensures
        run(PollerState::Connected, events) == PollerState::Connected,
        deliveries(PollerState::Connected, events) == records_read(events),
    decreases events.len(),
{
    if events.len() > 0 {
        lemma_connected_delivers_every_read(events.drop_last());
    }
}

/// After any number of failed attempts the first successful open
/// connects the poller, nothing has been delivered by then, and from
/// there on every record read is delivered in order for as long as
/// nothing fails.
pub proof fn lemma_connects_on_first_success(
    attempts: Seq<PollerEvent>,
    reads: Seq<PollerEvent>,
)
    requires
        forall|i: int| 0 <= i < attempts.len() ==> #[trigger] attempts[i] is OpenFailed,
        forall|i: int| 0 <= i < reads.len() ==> !is_failure(#[trigger] reads[i]),
    ensures
        run(PollerState::WaitingForDevice, attempts.push(PollerEvent::Opened))
            == PollerState::Connected,
        deliveries(PollerState::WaitingForDevice, attempts.push(PollerEvent::Opened))
            == Seq::<[u8; 8]>::empty(),
        run(PollerState::WaitingForDevice, attempts.push(PollerEvent::Opened) + reads)
            == PollerState::Connected,
        deliveries(PollerState::WaitingForDevice, attempts.push(PollerEvent::Opened) + reads)
            == records_read(reads),
{
    let opening = attempts.push(PollerEvent::Opened);
    assert(opening.drop_last() =~= attempts);
    lemma_open_failures_keep_waiting(attempts);
    lemma_run_in_two_parts(PollerState::WaitingForDevice, opening, reads);
    lemma_connected_delivers_every_read(reads);
    assert(Seq::<[u8; 8]>::empty() + records_read(reads) =~= records_read(reads));
}

/// A failure, whenever it comes, leaves the poller waiting for the
/// device and adds nothing to what is delivered.
pub proof fn lemma_failure_disconnects(
    state: PollerState,
    events: Seq<PollerEvent>,
    failure: PollerEvent,
)
    requires
        is_failure(failure),
    ensures
        run(state, events.push(failure)) == PollerState::WaitingForDevice,
        deliveries(state, events.push(failure)) == deliveries(state, events),
{
    assert(events.push(failure).drop_last() =~= events);
}

/// The poller makes up no record: whatever it asks to be delivered was
/// reported as read, and it never asks for more deliveries than there
/// were reads.
pub proof fn lemma_deliveries_were_read(state: PollerState, events: Seq<PollerEvent>)
    ensures
        deliveries(state, events).len() <= records_read(events).len(),
        forall|k: int|
            0 <= k < deliveries(state, events).len() ==> records_read(events).contains(
                #[trigger] deliveries(state, events)[k],
            ),
    decreases events.len(),
{
    if events.len() > 0 {
        let earlier = events.drop_last();
        lemma_deliveries_were_read(state, earlier);
        let read_before = records_read(earlier);
        let read_now = records_read(events);
        assert forall|k: int| 0 <= k < deliveries(state, events).len() implies read_now.contains(
            #[trigger] deliveries(state, events)[k],
        ) by {
            if k < deliveries(state, earlier).len() {
                let record = deliveries(state, earlier)[k];
                assert(read_before.contains(record));
                let at = choose|at: int| 0 <= at < read_before.len() && read_before[at] == record;
                assert(read_now[at] == record);
            } else {
                assert(read_now.last() == deliveries(state, events)[k]);
            }
        }
    }
}

} // verus!
