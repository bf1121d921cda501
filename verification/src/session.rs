//! The downstream session: the decisions of the task that serves one client.
//!
//! Like the adapter, the session performs no I/O. The task that drives it
//! receives from its hub cursor and writes to the client socket as the session
//! asks, and reports what came of it. A session forwards every envelope it is
//! handed, one at a time and in the order received, and ends when the hub is
//! closed, when its cursor has lagged, or when a write fails.
//!
//! Lag policy: a session whose cursor has lagged is closed. The client is
//! expected to connect again.

use crate::hub::{Cursor, Delivery, DeliveryView};
use vstd::prelude::*;

verus! {

/// What the driving task reports to the session.
#[derive(Clone, Debug, PartialEq, Eq)]
pub enum SessionEvent {
    /// What the receive on the hub cursor yielded.
    Delivered(Delivery),
    /// The frame that was to be sent has been written to the client.
    Written,
    /// The frame that was to be sent could not be written.
    WriteFailed,
}

/// An event as plain values.
pub enum SessionEventView {
    Delivered(DeliveryView),
    Written,
    WriteFailed,
}

impl View for SessionEvent {
    type V = SessionEventView;

    open spec fn view(&self) -> SessionEventView {
        match self {
            SessionEvent::Delivered(delivery) => SessionEventView::Delivered(delivery@),
            SessionEvent::Written => SessionEventView::Written,
            SessionEvent::WriteFailed => SessionEventView::WriteFailed,
        }
    }
}

/// Why a session ended.
#[derive(Clone, Copy, Debug, PartialEq, Eq, Structural)]
pub enum CloseReason {
    /// The hub has no publisher left: a clean shutdown.
    HubClosed,
    /// The cursor fell behind and this many envelopes were skipped.
    Lagged(u64),
    /// A write to the client failed.
    ClientGone,
    /// An event arrived that does not answer the session's last action.
    OutOfTurn,
}

/// What the driving task is to do next.
#[derive(Clone, Debug, PartialEq, Eq)]
pub enum SessionAction {
    /// Receive from the hub cursor.
    Receive,
    /// Send this text frame to the client.
    Send(String),
    /// Close the client socket and release the cursor. No further action
    /// follows.
    Close(CloseReason),
}

/// An action as plain values.
pub enum SessionActionView {
    Receive,
    Send(Seq<char>),
    Close(CloseReason),
}

impl View for SessionAction {
    type V = SessionActionView;

    open spec fn view(&self) -> SessionActionView {
        match self {
            SessionAction::Receive => SessionActionView::Receive,
            SessionAction::Send(frame) => SessionActionView::Send(frame@),
            SessionAction::Close(reason) => SessionActionView::Close(*reason),
        }
    }
}

/// Where a session stands. It holds no envelope: the one being sent is with
/// the driving task.
#[derive(Clone, Copy, Debug, PartialEq, Eq, Structural)]
pub enum Session {
    /// A receive on the hub cursor is under way.
    Waiting,
    /// A frame is being written to the client.
    Sending,
    /// The session has ended.
    Closed(CloseReason),
}

/// The state of a session that ends for `reason`, and the action that says
/// so.
pub open spec fn closed(reason: CloseReason) -> (Session, SessionActionView) {
    (Session::Closed(reason), SessionActionView::Close(reason))
}

/// The session's transition: the state after `event` and the action to carry
/// out next.
///
/// While waiting, an envelope is sent on to the client; a lag or the end of
/// the hub closes the session. While sending, a completed write is followed
/// by the next receive and a failed one closes the session. A closed session
/// stays closed. An event that does not answer the last action closes the
/// session.
pub open spec fn next(state: Session, event: SessionEventView) -> (Session, SessionActionView) {
    match state {
        Session::Waiting => match event {
            SessionEventView::Delivered(DeliveryView::Envelope(text)) => (
                Session::Sending,
                SessionActionView::Send(text),
            ),
            SessionEventView::Delivered(DeliveryView::Lagged(skipped)) => closed(
                CloseReason::Lagged(skipped),
            ),
            SessionEventView::Delivered(DeliveryView::Closed) => closed(CloseReason::HubClosed),
            _ => closed(CloseReason::OutOfTurn),
        },
        Session::Sending => match event {
            SessionEventView::Written => (Session::Waiting, SessionActionView::Receive),
            SessionEventView::WriteFailed => closed(CloseReason::ClientGone),
            _ => closed(CloseReason::OutOfTurn),
        },
        Session::Closed(reason) => (state, SessionActionView::Close(reason)),
    }
}

impl Session {
    /// Starts a session on a fresh cursor: the first action is a receive.
    pub fn attach() -> (r: (Session, SessionAction))
        ensures
            r.0 == Session::Waiting,
            r.1@ == SessionActionView::Receive,
    {
        (Session::Waiting, SessionAction::Receive)
    }

    /// Ends the session for `reason`.
    fn close(&mut self, reason: CloseReason) -> (action: SessionAction)
        ensures
            (*final(self), action@) == closed(reason),
    {
        *self = Session::Closed(reason);
        SessionAction::Close(reason)
    }

    /// Takes in what came of the last action and decides the next one.
    pub fn step(&mut self, event: SessionEvent) -> (action: SessionAction)
        ensures
            (*final(self), action@) == next(*old(self), event@),
    {
        match *self {
            Session::Waiting => match event {
                SessionEvent::Delivered(Delivery::Envelope(text)) => {
                    *self = Session::Sending;
                    SessionAction::Send(text)
                },
                SessionEvent::Delivered(Delivery::Lagged(skipped)) => self.close(
                    CloseReason::Lagged(skipped),
                ),
                SessionEvent::Delivered(Delivery::Closed) => self.close(CloseReason::HubClosed),
                _ => self.close(CloseReason::OutOfTurn),
            },
            Session::Sending => match event {
                SessionEvent::Written => {
                    *self = Session::Waiting;
                    SessionAction::Receive
                },
                SessionEvent::WriteFailed => self.close(CloseReason::ClientGone),
                _ => self.close(CloseReason::OutOfTurn),
            },
            Session::Closed(reason) => SessionAction::Close(reason),
        }
    }

    /// Takes what is pending on `cursor`, without waiting, and decides on it
    /// as `step` does. Returns `None`, with the session as it was, where
    /// nothing is pending or the session is not waiting for a delivery.
    ///
    /// Only a waiting session touches the cursor: a session that is sending
    /// or closed takes nothing from it, so no envelope is taken and lost.
    /// What a waiting session is handed is the channel's answer, and with it
    /// whether anything is returned.
    pub fn take_pending(&mut self, cursor: &mut Cursor) -> (action: Option<SessionAction>)
        ensures
            *old(self) != Session::Waiting ==> action is None && *final(cursor) == *old(cursor),
            action is None ==> *final(self) == *old(self),
            action matches Some(decided) ==> exists|delivery: DeliveryView|
                (delivery matches DeliveryView::Lagged(skipped) ==> skipped >= 1) && (
                    *final(self),
                    decided@,
                ) == #[trigger] next(Session::Waiting, SessionEventView::Delivered(delivery)),
    {
        match *self {
            Session::Waiting => match cursor.poll() {
                Some(delivery) => {
                    let ghost event = SessionEventView::Delivered(delivery@);
                    let decided = self.step(SessionEvent::Delivered(delivery));
                    assert((*self, decided@) == next(Session::Waiting, event));
                    Some(decided)
                },
                None => None,
            },
            _ => None,
        }
    }
}

/// The state that `events` lead to from `start`, and the actions decided on
/// the way, one for each event.
pub open spec fn run(start: Session, events: Seq<SessionEventView>) -> (
    Session,
    Seq<SessionActionView>,
)
    decreases events.len(),
{
    if events.len() == 0 {
        (start, Seq::empty())
    } else {
        let before = run(start, events.drop_last());
        let step = next(before.0, events.last());
        (step.0, before.1.push(step.1))
    }
}

/// The envelopes that the hub delivered among `events`, in order.
pub open spec fn delivered(events: Seq<SessionEventView>) -> Seq<Seq<char>>
    decreases events.len(),
{
    if events.len() == 0 {
        Seq::empty()
    } else {
        let before = delivered(events.drop_last());
        match events.last() {
            SessionEventView::Delivered(DeliveryView::Envelope(text)) => before.push(text),
            _ => before,
        }
    }
}

/// The frames that `actions` send to the client, in order.
pub open spec fn forwarded(actions: Seq<SessionActionView>) -> Seq<Seq<char>>
    decreases actions.len(),
{
    if actions.len() == 0 {
        Seq::empty()
    } else {
        let before = forwarded(actions.drop_last());
        match actions.last() {
            SessionActionView::Send(frame) => before.push(frame),
            _ => before,
        }
    }
}

/// Whether `event` ends a session whatever its state: a lag, the end of the
/// hub, or a failed write.
pub open spec fn ends_session(event: SessionEventView) -> bool {
    ||| event is WriteFailed
    ||| event matches SessionEventView::Delivered(delivery) && !(delivery is Envelope)
}

/// Order and preservation on the forwarding side: whatever the events, the
/// frames that a session sends to its client are the envelopes that its
/// cursor delivered, unaltered, in the order of delivery and without a gap.
/// Nothing is sent that was not delivered to this session. While the session
/// is open, every envelope delivered has been handed on.
pub proof fn lemma_forwards_deliveries_in_order(start: Session, events: Seq<SessionEventView>)
    ensures
        run(start, events).1.len() == events.len(),
        forwarded(run(start, events).1).len() <= delivered(events).len(),
        forall|k: int|
            0 <= k < forwarded(run(start, events).1).len() ==> #[trigger] forwarded(
                run(start, events).1,
            )[k] == delivered(events)[k],
        !(run(start, events).0 is Closed) ==> forwarded(run(start, events).1).len()
            == delivered(events).len(),
    decreases events.len(),
{
    if events.len() > 0 {
        lemma_forwards_deliveries_in_order(start, events.drop_last());
        let before = run(start, events.drop_last());
        let step = next(before.0, events.last());
        assert(before.1.push(step.1).drop_last() =~= before.1);
    }
}

/// Termination: from the first event that ends a session, every action is
/// `Close`, so nothing is received or sent any more. A lag is such an event.
pub proof fn lemma_closes_for_good(start: Session, events: Seq<SessionEventView>, at: int)
    requires
        0 <= at < events.len(),
        ends_session(events[at]),
    ensures
        run(start, events).0 is Closed,
        forall|k: int| at <= k < events.len() ==> #[trigger] run(start, events).1[k] is Close,
    decreases events.len(),
{
    lemma_forwards_deliveries_in_order(start, events);
    let before = run(start, events.drop_last());
    lemma_forwards_deliveries_in_order(start, events.drop_last());
    if at < events.len() - 1 {
        assert(events.drop_last()[at] == events[at]);
        lemma_closes_for_good(start, events.drop_last(), at);
    }
}

} // verus!
