//! The upstream feed adapter: the decisions of the task that owns one
//! exchange connection.
//!
//! The adapter itself performs no I/O. It is a state machine: the task that
//! drives it carries out each action on the socket and reports what came of
//! it as the next event. In order, an adapter connects, sends the feed's
//! subscription frames, and then reads frames for as long as the connection
//! lasts, publishing one envelope for every text frame.

use crate::descriptor::{normalized_url, FeedDescriptor, FeedView};
use crate::envelope::{
    envelope_members, envelope_text, fields_of, is_identifier, lemma_envelope_is_object,
    lemma_fields_of_envelope, wrap,
};
use crate::hub::Hub;
use crate::json::{is_json_text, is_object_of};
use vstd::prelude::*;
use vstd::string::*;

verus! {

/// A frame read from the upstream socket.
#[derive(Clone, Debug, PartialEq, Eq)]
pub enum Frame {
    /// A text frame with its payload.
    Text(String),
    /// A binary, ping, pong or close frame. None of them is forwarded.
    Other,
}

/// A frame as plain values.
pub enum FrameView {
    Text(Seq<char>),
    Other,
}

impl View for Frame {
    type V = FrameView;

    open spec fn view(&self) -> FrameView {
        match self {
            Frame::Text(text) => FrameView::Text(text@),
            Frame::Other => FrameView::Other,
        }
    }
}

/// What the driving task reports to the adapter.
#[derive(Clone, Debug, PartialEq, Eq)]
pub enum UpstreamEvent {
    /// The websocket handshake is done.
    Connected,
    /// The connection could not be opened, or the handshake failed.
    ConnectFailed,
    /// The frame that was to be sent has been written.
    Sent,
    /// The frame that was to be sent could not be written.
    SendFailed,
    /// A frame has been read.
    Received(Frame),
    /// Reading failed.
    ReadFailed,
    /// The upstream closed the connection.
    Ended,
}

/// An event as plain values.
pub enum UpstreamEventView {
    Connected,
    ConnectFailed,
    Sent,
    SendFailed,
    Received(FrameView),
    ReadFailed,
    Ended,
}

impl View for UpstreamEvent {
    type V = UpstreamEventView;

    open spec fn view(&self) -> UpstreamEventView {
        match self {
            UpstreamEvent::Connected => UpstreamEventView::Connected,
            UpstreamEvent::ConnectFailed => UpstreamEventView::ConnectFailed,
            UpstreamEvent::Sent => UpstreamEventView::Sent,
            UpstreamEvent::SendFailed => UpstreamEventView::SendFailed,
            UpstreamEvent::Received(frame) => UpstreamEventView::Received(frame@),
            UpstreamEvent::ReadFailed => UpstreamEventView::ReadFailed,
            UpstreamEvent::Ended => UpstreamEventView::Ended,
        }
    }
}

/// Why an adapter stopped.
#[derive(Clone, Copy, Debug, PartialEq, Eq, Structural)]
pub enum StopReason {
    /// The configured endpoint is no absolute URL.
    BadEndpoint,
    /// The connection could not be established.
    ConnectFailed,
    /// A read failed, or a subscription frame could not be sent.
    UpstreamFailed,
    /// The upstream closed the connection.
    UpstreamClosed,
    /// An event arrived that does not answer the adapter's last action.
    OutOfTurn,
}

/// What the driving task is to do next.
#[derive(Clone, Debug, PartialEq, Eq)]
pub enum AdapterAction {
    /// Open a websocket session to this URL.
    Connect(String),
    /// Send this text frame upstream.
    Send(String),
    /// Read the next frame.
    Read,
    /// Publish this envelope to the hub, then read the next frame.
    Publish(String),
    /// Give the connection up. No further action follows.
    Stop(StopReason),
}

/// An action as plain values.
pub enum AdapterActionView {
    Connect(Seq<char>),
    Send(Seq<char>),
    Read,
    Publish(Seq<char>),
    Stop(StopReason),
}

impl View for AdapterAction {
    type V = AdapterActionView;

    open spec fn view(&self) -> AdapterActionView {
        match self {
            AdapterAction::Connect(url) => AdapterActionView::Connect(url@),
            AdapterAction::Send(frame) => AdapterActionView::Send(frame@),
            AdapterAction::Read => AdapterActionView::Read,
            AdapterAction::Publish(envelope) => AdapterActionView::Publish(envelope@),
            AdapterAction::Stop(reason) => AdapterActionView::Stop(*reason),
        }
    }
}

/// Where an adapter stands.
#[derive(Clone, Copy, Debug, PartialEq, Eq, Structural)]
pub enum Phase {
    /// The connection is being opened.
    Connecting,
    /// The subscription frame with this index is being sent.
    Subscribing(usize),
    /// Frames are being read.
    Pumping,
    /// The adapter has stopped.
    Stopped(StopReason),
}

/// An adapter as plain values.
pub struct AdapterView {
    pub feed: FeedView,
    pub phase: Phase,
}

/// The state in which an adapter stops for `reason`, and the action that
/// says so.
pub open spec fn stopped(state: AdapterView, reason: StopReason) -> (
    AdapterView,
    AdapterActionView,
) {
    (
        AdapterView { feed: state.feed, phase: Phase::Stopped(reason) },
        AdapterActionView::Stop(reason),
    )
}

/// The state in which an adapter reads frames, and the action that asks for
/// the next one.
pub open spec fn pumping(state: AdapterView) -> (AdapterView, AdapterActionView) {
    (AdapterView { feed: state.feed, phase: Phase::Pumping }, AdapterActionView::Read)
}

/// The state in which the subscription frame `index` is being sent, and the
/// action that sends it; once every frame has been sent, the adapter reads.
pub open spec fn subscribing(state: AdapterView, index: int) -> (AdapterView, AdapterActionView) {
    if 0 <= index < state.feed.subscriptions.len() && index <= usize::MAX {
        (
            AdapterView { feed: state.feed, phase: Phase::Subscribing(index as usize) },
            AdapterActionView::Send(state.feed.subscriptions[index]),
        )
    } else {
        pumping(state)
    }
}

/// How an adapter starts: it connects to the endpoint if the descriptor names
/// one, and stops otherwise.
pub open spec fn opened(feed: FeedView, endpoint: Option<Seq<char>>) -> (
    AdapterView,
    AdapterActionView,
) {
    match endpoint {
        Some(url) => (
            AdapterView { feed, phase: Phase::Connecting },
            AdapterActionView::Connect(url),
        ),
        None => stopped(AdapterView { feed, phase: Phase::Connecting }, StopReason::BadEndpoint),
    }
}

/// The adapter's transition: the state after `event` and the action to carry
/// out next.
///
/// While connecting, the handshake's end starts the subscription. While
/// subscribing, each written frame is followed by the next one, then by the
/// first read. While pumping, a text frame is published as an envelope tagged
/// with the feed's identifier and any other frame is discarded; a failed read
/// or the end of the stream stops the adapter. A stopped adapter stays
/// stopped. An event that does not answer the last action stops the adapter.
pub open spec fn next(state: AdapterView, event: UpstreamEventView) -> (
    AdapterView,
    AdapterActionView,
) {
    match state.phase {
        Phase::Connecting => match event {
            UpstreamEventView::Connected => subscribing(state, 0),
            UpstreamEventView::ConnectFailed => stopped(state, StopReason::ConnectFailed),
            _ => stopped(state, StopReason::OutOfTurn),
        },
        Phase::Subscribing(index) => match event {
            UpstreamEventView::Sent => subscribing(state, index + 1),
            UpstreamEventView::SendFailed => stopped(state, StopReason::UpstreamFailed),
            _ => stopped(state, StopReason::OutOfTurn),
        },
        Phase::Pumping => match event {
            UpstreamEventView::Received(FrameView::Text(text)) => (
                state,
                AdapterActionView::Publish(envelope_text(state.feed.exchange, text)),
            ),
            UpstreamEventView::Received(FrameView::Other) => (state, AdapterActionView::Read),
            UpstreamEventView::ReadFailed => stopped(state, StopReason::UpstreamFailed),
            UpstreamEventView::Ended => stopped(state, StopReason::UpstreamClosed),
            _ => stopped(state, StopReason::OutOfTurn),
        },
        Phase::Stopped(reason) => (state, AdapterActionView::Stop(reason)),
    }
}

/// What is left of `action` for the driving task once a publication has been
/// handed to the hub: the read that follows it. Every other action is left
/// as it is.
pub open spec fn after_publishing(action: AdapterActionView) -> AdapterActionView {
    match action {
        AdapterActionView::Publish(_) => AdapterActionView::Read,
        _ => action,
    }
}

/// The adapter of one feed.
pub struct Adapter {
    feed: FeedDescriptor,
    phase: Phase,
}

impl View for Adapter {
    type V = AdapterView;

    closed spec fn view(&self) -> AdapterView {
        AdapterView { feed: self.feed@, phase: self.phase }
    }
}

impl Adapter {
    /// Starts an adapter for `feed`: resolves the endpoint and asks for the
    /// connection, or stops where the descriptor names no endpoint.
    pub fn open(feed: FeedDescriptor) -> (r: (Adapter, AdapterAction))
        ensures
            (r.0@, r.1@) == opened(feed@, normalized_url(feed@.url)),
    {
        let endpoint = feed.endpoint();
        Adapter::open_at(feed, endpoint)
    }

    /// Starts an adapter for `feed` whose endpoint has been resolved to
    /// `endpoint`.
    pub fn open_at(feed: FeedDescriptor, endpoint: Option<String>) -> (r: (Adapter, AdapterAction))
        ensures
            (r.0@, r.1@) == opened(
                feed@,
                match endpoint {
                    Some(url) => Some(url@),
                    None => None,
                },
            ),
    {
        match endpoint {
            Some(url) => (Adapter { feed, phase: Phase::Connecting }, AdapterAction::Connect(url)),
            None => (
                Adapter { feed, phase: Phase::Stopped(StopReason::BadEndpoint) },
                AdapterAction::Stop(StopReason::BadEndpoint),
            ),
        }
    }

    /// Where the adapter stands.
    pub fn phase(&self) -> (phase: Phase)
        ensures
            phase == self@.phase,
    {
        self.phase
    }

    /// The feed that the adapter serves.
    pub fn feed(&self) -> (feed: &FeedDescriptor)
        ensures
            feed@ == self@.feed,
    {
        &self.feed
    }

    /// Takes the adapter to the subscription frame `index`, or to reading
    /// where the feed has no such frame.
    fn subscribe_from(&mut self, index: usize) -> (action: AdapterAction)
        ensures
            (final(self)@, action@) == subscribing(old(self)@, index as int),
    {
        let frames = self.feed.subscriptions();
        if index < frames.len() {
            let frame = frames[index].clone();
            self.phase = Phase::Subscribing(index);
            AdapterAction::Send(frame)
        } else {
            self.phase = Phase::Pumping;
            AdapterAction::Read
        }
    }

    /// Stops the adapter for `reason`.
    fn stop(&mut self, reason: StopReason) -> (action: AdapterAction)
        ensures
            (final(self)@, action@) == stopped(old(self)@, reason),
    {
        self.phase = Phase::Stopped(reason);
        AdapterAction::Stop(reason)
    }

    /// Takes in what came of the last action and decides the next one.
    pub fn step(&mut self, event: UpstreamEvent) -> (action: AdapterAction)
        ensures
            (final(self)@, action@) == next(old(self)@, event@),
    {
        match self.phase {
            Phase::Connecting => match event {
                UpstreamEvent::Connected => self.subscribe_from(0),
                UpstreamEvent::ConnectFailed => self.stop(StopReason::ConnectFailed),
                _ => self.stop(StopReason::OutOfTurn),
            },
            Phase::Subscribing(index) => match event {
                UpstreamEvent::Sent => {
                    if index < usize::MAX {
                        self.subscribe_from(index + 1)
                    } else {
                        self.phase = Phase::Pumping;
                        AdapterAction::Read
                    }
                },
                UpstreamEvent::SendFailed => self.stop(StopReason::UpstreamFailed),
                _ => self.stop(StopReason::OutOfTurn),
            },
            Phase::Pumping => match event {
                UpstreamEvent::Received(Frame::Text(text)) => AdapterAction::Publish(
                    wrap(self.feed.exchange(), text.as_str()),
                ),
                UpstreamEvent::Received(Frame::Other) => AdapterAction::Read,
                UpstreamEvent::ReadFailed => self.stop(StopReason::UpstreamFailed),
                UpstreamEvent::Ended => self.stop(StopReason::UpstreamClosed),
                _ => self.stop(StopReason::OutOfTurn),
            },
            Phase::Stopped(reason) => AdapterAction::Stop(reason),
        }
    }

    /// Takes in what came of the last action, as `step` does, and carries
    /// out a publication itself: the envelope goes to `hub` without blocking,
    /// whether or not anyone is subscribed, and the driving task is asked for
    /// the read that follows.
    pub fn advance(&mut self, event: UpstreamEvent, hub: &Hub) -> (action: AdapterAction)
        ensures
            final(self)@ == next(old(self)@, event@).0,
            action@ == after_publishing(next(old(self)@, event@).1),
    {
        match self.step(event) {
            AdapterAction::Publish(envelope) => {
                hub.publish(envelope);
                AdapterAction::Read
            },
            action => action,
        }
    }
}

/// The state that `events` lead to from `start`, and the actions decided on
/// the way, one for each event.
pub open spec fn run(start: AdapterView, events: Seq<UpstreamEventView>) -> (
    AdapterView,
    Seq<AdapterActionView>,
)
    decreases events.len(),
{
    if events.len() == 0 {
        (start, Seq::empty())
    } else {
        let before = run(start, events.drop_last());
        let step = next(before.0, events.last());
        (step.0, before.1.push(step.1))
    }
}

/// Every action of an adapter of `feed` whose endpoint resolved to
/// `endpoint`, from the first one on, as `events` come in.
pub open spec fn trace(
    feed: FeedView,
    endpoint: Option<Seq<char>>,
    events: Seq<UpstreamEventView>,
) -> Seq<AdapterActionView> {
    let first = opened(feed, endpoint);
    seq![first.1] + run(first.0, events).1
}

/// The payloads of the text frames among `events`, in order.
pub open spec fn text_frames(events: Seq<UpstreamEventView>) -> Seq<Seq<char>>
    decreases events.len(),
{
    if events.len() == 0 {
        Seq::empty()
    } else {
        let before = text_frames(events.drop_last());
        match events.last() {
            UpstreamEventView::Received(FrameView::Text(text)) => before.push(text),
            _ => before,
        }
    }
}

/// The envelopes that `actions` publish, in order.
pub open spec fn published(actions: Seq<AdapterActionView>) -> Seq<Seq<char>>
    decreases actions.len(),
{
    if actions.len() == 0 {
        Seq::empty()
    } else {
        let before = published(actions.drop_last());
        match actions.last() {
            AdapterActionView::Publish(envelope) => before.push(envelope),
            _ => before,
        }
    }
}

/// The frames that `actions` send upstream, in order.
pub open spec fn sent(actions: Seq<AdapterActionView>) -> Seq<Seq<char>>
    decreases actions.len(),
{
    if actions.len() == 0 {
        Seq::empty()
    } else {
        let before = sent(actions.drop_last());
        match actions.last() {
            AdapterActionView::Send(frame) => before.push(frame),
            _ => before,
        }
    }
}

/// Whether `action` reads from the upstream socket.
pub open spec fn reads(action: AdapterActionView) -> bool {
    action is Read || action is Publish
}

/// Payload preservation and order on the publishing side: whatever the
/// events, the envelopes that an adapter publishes are the text frames it
/// received, each framed with the feed's identifier and none altered, in the
/// order of arrival and without a gap. While the adapter has not stopped,
/// every text frame received has been published.
pub proof fn lemma_publishes_text_frames_in_order(
    start: AdapterView,
    events: Seq<UpstreamEventView>,
)
    ensures
        run(start, events).0.feed == start.feed,
        run(start, events).1.len() == events.len(),
        published(run(start, events).1).len() <= text_frames(events).len(),
        forall|k: int|
            0 <= k < published(run(start, events).1).len() ==> #[trigger] published(
                run(start, events).1,
            )[k] == envelope_text(start.feed.exchange, text_frames(events)[k]),
        !(run(start, events).0.phase is Stopped) ==> published(run(start, events).1).len()
            == text_frames(events).len(),
    decreases events.len(),
{
    if events.len() > 0 {
        lemma_publishes_text_frames_in_order(start, events.drop_last());
        let before = run(start, events.drop_last());
        let step = next(before.0, events.last());
        assert(before.1.push(step.1).drop_last() =~= before.1);
    }
}

/// Well-formedness and payload preservation of what is published: each
/// envelope that an adapter publishes reads back as the feed's identifier and
/// the text frame it was made from, character for character. Where that text
/// frame is a JSON text, the envelope is the JSON object with exactly the
/// members `exchange` and `data`.
pub proof fn lemma_published_envelopes_carry_text_frames(
    start: AdapterView,
    events: Seq<UpstreamEventView>,
)
    requires
        is_identifier(start.feed.exchange),
    ensures
        forall|k: int|
            0 <= k < published(run(start, events).1).len() ==> fields_of(
                #[trigger] published(run(start, events).1)[k],
            ) == Some((start.feed.exchange, text_frames(events)[k])),
        forall|k: int|
            0 <= k < published(run(start, events).1).len() && is_json_text(text_frames(events)[k])
                ==> is_json_text(#[trigger] published(run(start, events).1)[k]) && is_object_of(
                published(run(start, events).1)[k],
                envelope_members(start.feed.exchange, text_frames(events)[k]),
            ),
{
    lemma_publishes_text_frames_in_order(start, events);
    let out = published(run(start, events).1);
    assert forall|k: int| 0 <= k < out.len() implies fields_of(#[trigger] out[k]) == Some(
        (start.feed.exchange, text_frames(events)[k]),
    ) by {
        lemma_fields_of_envelope(start.feed.exchange, text_frames(events)[k]);
    }
    assert forall|k: int|
        0 <= k < out.len() && is_json_text(text_frames(events)[k]) implies is_json_text(
        #[trigger] out[k],
    ) && is_object_of(out[k], envelope_members(start.feed.exchange, text_frames(events)[k])) by {
        lemma_envelope_is_object(start.feed.exchange, text_frames(events)[k]);
    }
}

/// Whether the frames sent by `actions` are the first subscription frames of
/// `feed`, in order.
pub open spec fn sends_subscriptions(feed: FeedView, actions: Seq<AdapterActionView>) -> bool {
    &&& sent(actions).len() <= feed.subscriptions.len()
    &&& forall|k: int|
        0 <= k < sent(actions).len() ==> #[trigger] sent(actions)[k] == feed.subscriptions[k]
}

/// Whether every read among `actions` comes after all subscription frames of
/// `feed` have been sent.
pub open spec fn reads_follow_subscriptions(
    feed: FeedView,
    actions: Seq<AdapterActionView>,
) -> bool {
    forall|j: int|
        0 <= j < actions.len() && reads(#[trigger] actions[j]) ==> sent(actions.take(j))
            =~= feed.subscriptions
}

/// What holds of the actions so far in each phase of an adapter that was
/// started by `opened`.
spec fn subscription_progress(state: AdapterView, actions: Seq<AdapterActionView>) -> bool {
    let frames = state.feed.subscriptions;
    &&& sends_subscriptions(state.feed, actions)
    &&& reads_follow_subscriptions(state.feed, actions)
    &&& match state.phase {
        Phase::Connecting => sent(actions).len() == 0 && forall|j: int|
            0 <= j < actions.len() ==> !reads(#[trigger] actions[j]),
        Phase::Subscribing(index) => index < frames.len() && sent(actions).len() == index + 1
            && forall|j: int| 0 <= j < actions.len() ==> !reads(#[trigger] actions[j]),
        Phase::Pumping => sent(actions).len() == frames.len(),
        Phase::Stopped(_) => true,
    }
}

proof fn lemma_sent_push(actions: Seq<AdapterActionView>, action: AdapterActionView)
    ensures
        sent(actions.push(action)) == match action {
            AdapterActionView::Send(frame) => sent(actions).push(frame),
            _ => sent(actions),
        },
{
    assert(actions.push(action).drop_last() =~= actions);
}

proof fn lemma_subscription_progress_step(
    state: AdapterView,
    actions: Seq<AdapterActionView>,
    event: UpstreamEventView,
)
    requires
        subscription_progress(state, actions),
        state.feed.subscriptions.len() <= usize::MAX,
    ensures
        subscription_progress(next(state, event).0, actions.push(next(state, event).1)),
{
    let step = next(state, event);
    let grown = actions.push(step.1);
    lemma_sent_push(actions, step.1);
    assert forall|j: int| 0 <= j < grown.len() && reads(#[trigger] grown[j]) implies sent(
        grown.take(j),
    ) =~= state.feed.subscriptions by {
        if j < actions.len() {
            assert(grown.take(j) =~= actions.take(j));
        } else {
            assert(grown.take(j) =~= actions);
        }
    }
}

proof fn lemma_subscription_progress_run(
    start: AdapterView,
    first: Seq<AdapterActionView>,
    events: Seq<UpstreamEventView>,
)
    requires
        subscription_progress(start, first),
        start.feed.subscriptions.len() <= usize::MAX,
    ensures
        subscription_progress(run(start, events).0, first + run(start, events).1),
    decreases events.len(),
{
    lemma_publishes_text_frames_in_order(start, events);
    if events.len() == 0 {
        assert(first + run(start, events).1 =~= first);
    } else {
        lemma_subscription_progress_run(start, first, events.drop_last());
        let before = run(start, events.drop_last());
        lemma_publishes_text_frames_in_order(start, events.drop_last());
        lemma_subscription_progress_step(before.0, first + before.1, events.last());
        let step = next(before.0, events.last());
        assert((first + before.1).push(step.1) =~= first + before.1.push(step.1));
    }
}

/// Subscription before the first read: whatever the events, an adapter sends
/// the feed's subscription frames in their order and nothing else, and it
/// asks for no read before every one of them has been sent.
pub proof fn lemma_subscribes_before_reading(
    feed: FeedView,
    endpoint: Option<Seq<char>>,
    events: Seq<UpstreamEventView>,
)
    requires
        feed.subscriptions.len() <= usize::MAX,
    ensures
        sends_subscriptions(feed, trace(feed, endpoint, events)),
        reads_follow_subscriptions(feed, trace(feed, endpoint, events)),
{
    let first = opened(feed, endpoint);
    let head = seq![first.1];
    assert(head =~= Seq::<AdapterActionView>::empty().push(first.1));
    lemma_sent_push(Seq::empty(), first.1);
    assert(subscription_progress(first.0, head));
    lemma_subscription_progress_run(first.0, head, events);
    lemma_publishes_text_frames_in_order(first.0, events);
}

} // verus!
