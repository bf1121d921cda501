//! The hub: the bounded broadcast channel between adapters and sessions.
//!
//! The channel is `tokio::sync::broadcast`. Adapters publish through a `Hub`
//! handle; each session reads through a `Cursor` of its own.
//!
//! The channel keeps the most recent envelopes in a ring, as many as its
//! capacity rounded up to a power of two. It hands them to each receiver in
//! publish order, from the receiver's subscription on, and tells a receiver
//! that was overtaken how many envelopes it missed. All of this is the
//! channel's own work and is not proved here. The channel is shared by every
//! task of the process, so what a call returns depends on what the other
//! tasks have done: the functions here hand on what the channel answered,
//! and the session decides on it (see `crate::session`).

use tokio::sync::broadcast::error::TryRecvError;
use tokio::sync::broadcast::{channel, Receiver, Sender};
use vstd::prelude::*;

verus! {

/// The sending half of a `tokio::sync::broadcast` channel, carried as it is.
#[verifier::external_type_specification]
#[verifier::external_body]
#[verifier::reject_recursive_types(T)]
pub struct ExSender<T>(Sender<T>);

/// The receiving half of a `tokio::sync::broadcast` channel, carried as it
/// is.
#[verifier::external_type_specification]
#[verifier::external_body]
#[verifier::reject_recursive_types(T)]
pub struct ExReceiver<T>(Receiver<T>);

/// The capacity of a hub where none is configured.
pub const DEFAULT_CAPACITY: usize = 100;

/// The largest capacity that a hub can have: 2^24 envelopes. The channel
/// allocates its whole ring when it is made, and a ring of this size still
/// fits a 32-bit address space.
pub const MAX_CAPACITY: usize = 16_777_216;

/// Why no hub was made.
#[derive(Clone, Copy, Debug, PartialEq, Eq, Structural)]
pub enum HubError {
    /// A hub must be able to hold one envelope.
    ZeroCapacity,
    /// The capacity is above `MAX_CAPACITY`.
    CapacityTooLarge,
}

/// What a receive on a cursor yields.
#[derive(Clone, Debug, PartialEq, Eq)]
pub enum Delivery {
    /// The next envelope, as text.
    Envelope(String),
    /// The cursor fell behind and this many envelopes were skipped.
    Lagged(u64),
    /// Every publisher is gone and nothing is left to read.
    Closed,
}

/// A delivery as plain values.
pub enum DeliveryView {
    Envelope(Seq<char>),
    Lagged(u64),
    Closed,
}

impl View for Delivery {
    type V = DeliveryView;

    open spec fn view(&self) -> DeliveryView {
        match self {
            Delivery::Envelope(text) => DeliveryView::Envelope(text@),
            Delivery::Lagged(skipped) => DeliveryView::Lagged(*skipped),
            Delivery::Closed => DeliveryView::Closed,
        }
    }
}

/// Calls `tokio::sync::broadcast::channel` and keeps the sending half. The
/// receiving half is dropped: a hub starts without subscribers.
///
/// Trusted: the call panics on a capacity of zero or above `usize::MAX / 2`,
/// which `requires` leaves out. It allocates a ring of the next power of two
/// slots and, like every allocation, does not return where memory runs out.
#[verifier::external_body]
fn channel_open(capacity: usize) -> (sender: Sender<String>)
    requires
        1 <= capacity <= MAX_CAPACITY,
{
    channel::<String>(capacity).0
}

/// Calls `Sender::clone`: another handle on the same channel.
#[verifier::external_body]
fn channel_handle(sender: &Sender<String>) -> (handle: Sender<String>) {
    sender.clone()
}

/// Calls `Sender::send`. The answer is the number of receivers subscribed at
/// that moment, or `None` where there was none and the value was not kept.
///
/// Trusted: the channel answers with a count only where it has a receiver,
/// so a count is never zero. How many receivers there are depends on the
/// other tasks; nothing more is claimed.
#[verifier::external_body]
fn channel_send(sender: &Sender<String>, text: String) -> (receivers: Option<usize>)
    ensures
        receivers matches Some(count) ==> count >= 1,
{
    sender.send(text).ok()
}

/// Calls `Sender::subscribe`: a receiver that sees the values sent from now
/// on.
///
/// Trusted: the call panics only where the channel already has
/// `usize::MAX / 4` receivers, more than memory can hold.
#[verifier::external_body]
fn channel_subscribe(sender: &Sender<String>) -> (receiver: Receiver<String>) {
    sender.subscribe()
}

/// Calls `Receiver::try_recv` and names its answer: a value, the number of
/// values skipped, the end of the channel, or `None` where nothing is pending.
///
/// Trusted: the channel reports a lag only where the receiver missed a
/// value, so the number skipped is never zero. Which answer comes depends on
/// the other tasks; nothing more is claimed.
#[verifier::external_body]
fn channel_try_recv(receiver: &mut Receiver<String>) -> (answer: Option<Delivery>)
    ensures
        answer matches Some(Delivery::Lagged(skipped)) ==> skipped >= 1,
{
    match receiver.try_recv() {
        Ok(text) => Some(Delivery::Envelope(text)),
        Err(TryRecvError::Lagged(skipped)) => Some(Delivery::Lagged(skipped)),
        Err(TryRecvError::Closed) => Some(Delivery::Closed),
        Err(TryRecvError::Empty) => None,
    }
}

/// The number of subscribers that a publication reached, from what the
/// channel answered: none where it answered nothing.
pub fn subscribers_reached(answer: Option<usize>) -> (count: usize)
    ensures
        count == match answer {
            Some(receivers) => receivers,
            None => 0usize,
        },
{
    match answer {
        Some(receivers) => receivers,
        None => 0,
    }
}

/// A publisher's handle on the hub.
pub struct Hub {
    sender: Sender<String>,
    capacity: usize,
}

/// A subscriber's position in the hub. It advances independently of every
/// other cursor.
pub struct Cursor {
    /// The receiving half, for the task that awaits on it.
    pub receiver: Receiver<String>,
}

impl Hub {
    /// The capacity that the hub was made with.
    pub closed spec fn spec_capacity(&self) -> usize {
        self.capacity
    }

    /// Makes a hub whose channel is asked to retain `capacity` envelopes for
    /// each subscriber. The capacity must lie between 1 and `MAX_CAPACITY`.
    pub fn new(capacity: usize) -> (r: Result<Hub, HubError>)
        ensures
            match r {
                Ok(hub) => 1 <= capacity <= MAX_CAPACITY && hub.capacity() == capacity,
                Err(HubError::ZeroCapacity) => capacity == 0,
                Err(HubError::CapacityTooLarge) => capacity > MAX_CAPACITY,
            },
    {
        if capacity == 0 {
            Err(HubError::ZeroCapacity)
        } else if capacity > MAX_CAPACITY {
            Err(HubError::CapacityTooLarge)
        } else {
            Ok(Hub { sender: channel_open(capacity), capacity })
        }
    }

    /// Makes a hub of the default capacity.
    pub fn with_default_capacity() -> (hub: Hub)
        ensures
            hub.capacity() == DEFAULT_CAPACITY,
    {
        Hub { sender: channel_open(DEFAULT_CAPACITY), capacity: DEFAULT_CAPACITY }
    }

    /// The capacity that the hub was made with.
    #[verifier::when_used_as_spec(spec_capacity)]
    pub fn capacity(&self) -> (capacity: usize)
        ensures
            capacity == self.capacity(),
    {
        self.capacity
    }

    /// Another handle on the same hub, for one more publisher.
    pub fn handle(&self) -> (hub: Hub)
        ensures
            hub.capacity() == self.capacity(),
    {
        Hub { sender: channel_handle(&self.sender), capacity: self.capacity }
    }

    /// Publishes an envelope without blocking and returns the number of
    /// subscribers at that moment. With no subscriber the envelope is dropped
    /// and the count is zero.
    pub fn publish(&self, envelope: String) -> (subscribers: usize) {
        let answer = channel_send(&self.sender, envelope);
        subscribers_reached(answer)
    }

    /// A fresh cursor, positioned at the next envelope to be published.
    pub fn subscribe(&self) -> (cursor: Cursor) {
        Cursor { receiver: channel_subscribe(&self.sender) }
    }
}

impl Cursor {
    /// Takes what is pending for this cursor, without waiting: the next
    /// envelope, the report of a lag, the end of the hub, or `None` where
    /// nothing is pending.
    pub fn poll(&mut self) -> (answer: Option<Delivery>)
        ensures
            answer matches Some(Delivery::Lagged(skipped)) ==> skipped >= 1,
    {
        channel_try_recv(&mut self.receiver)
    }
}

} // verus!
