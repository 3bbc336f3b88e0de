//! Event fan-out: lifecycle and message events of one device, delivered
//! to whoever listens at the moment of publishing, over a broadcast
//! channel of `tokio`.

use vstd::prelude::*;
use tokio::sync::broadcast::{Receiver, Sender};
use tokio::sync::broadcast::error::TryRecvError;
use crate::message::ButtplugCurrentSpecServerMessage;

verus! {

/// The sending half of a `tokio` broadcast channel.
#[verifier::external_type_specification]
#[verifier::external_body]
#[verifier::reject_recursive_types(T)]
pub struct ExSender<T>(Sender<T>);

/// The receiving half of a `tokio` broadcast channel.
#[verifier::external_type_specification]
#[verifier::external_body]
#[verifier::reject_recursive_types(T)]
pub struct ExReceiver<T>(Receiver<T>);

/// What happens to a device, as its listeners are told.
#[derive(Clone, Debug, PartialEq, Eq)]
pub enum ButtplugClientDeviceEvent {
    /// The device has gone.
    DeviceRemoved,
    /// The session has gone.
    ClientDisconnect,
    /// The remote side sent a message about this device.
    Message(ButtplugCurrentSpecServerMessage),
}

/// Why a listener got no event.
#[derive(Clone, Copy, Debug, PartialEq, Eq, Structural)]
pub enum EventStreamError {
    /// No event is waiting.
    Empty,
    /// Every publisher is gone: no event will come.
    Closed,
    /// The listener fell behind and missed this many events.
    Lagged(u64),
}

/// How many events a channel keeps for a slow listener before the oldest
/// is dropped.
pub const EVENT_CHANNEL_CAPACITY: usize = 256;

/// `tokio::sync::broadcast::channel`, keeping the sender: a new channel
/// for `capacity` values, without a listener. The capacities on which it
/// panics, zero and those above half the address space, are excluded.
/// Nothing is claimed of the channel.
#[verifier::external_body]
pub(crate) fn broadcast_channel<T: Clone>(capacity: usize) -> (sender: Sender<T>)
    requires
        0 < capacity <= usize::MAX / 2,
{
    let (sender, _) = tokio::sync::broadcast::channel(capacity);
    sender
}

/// `Sender::receiver_count`: how many listeners the channel has at this
/// moment. Other handles change it, so nothing is claimed of the number.
#[verifier::external_body]
pub(crate) fn broadcast_receiver_count<T>(sender: &Sender<T>) -> (count: usize) {
    sender.receiver_count()
}

/// `Sender::send`: queues a value for every listener and returns their
/// number, which is not zero; with no listener it hands the value back.
/// Which of the two happens depends on the other handles of the channel.
#[verifier::external_body]
pub(crate) fn broadcast_send<T>(sender: &Sender<T>, value: T) -> (r: Result<usize, T>)
    ensures
        match r {
            Ok(listeners) => listeners >= 1,
            Err(returned) => returned == value,
        },
{
    sender.send(value).map_err(|e| e.0)
}

/// `Sender::subscribe`: a new listener, which gets the values sent after
/// this call. It panics only with a quarter of the address space in
/// listeners, which no process can hold. Nothing is claimed of the
/// listener.
#[verifier::external_body]
pub(crate) fn broadcast_subscribe<T>(sender: &Sender<T>) -> (receiver: Receiver<T>) {
    sender.subscribe()
}

/// `Receiver::try_recv`: the next value that waits for this listener, or
/// the reason why none was returned. Which of them comes depends on the
/// other handles of the channel; claimed is only that a report of lag
/// counts at least one missed value, as `tokio` documents and its source
/// shows.
#[verifier::external_body]
pub(crate) fn broadcast_try_recv<T: Clone>(receiver: &mut Receiver<T>) -> (r: Result<
    T,
    EventStreamError,
>)
    ensures
        r matches Err(EventStreamError::Lagged(missed)) ==> missed >= 1,
{
    match receiver.try_recv() {
        Ok(value) => Ok(value),
        Err(TryRecvError::Empty) => Err(EventStreamError::Empty),
        Err(TryRecvError::Closed) => Err(EventStreamError::Closed),
        Err(TryRecvError::Lagged(missed)) => Err(EventStreamError::Lagged(missed)),
    }
}

/// Whether an event is sent at all: only where somebody listens.
pub fn has_listeners(receiver_count: usize) -> (b: bool)
    ensures
        b == (receiver_count != 0),
{
    receiver_count != 0
}

/// The fan-out endpoint of one device.
pub struct EventBroadcaster {
    sender: Sender<ButtplugClientDeviceEvent>,
}

/// One listener's view of the events of a device: those published after
/// it subscribed.
pub struct EventSubscription {
    receiver: Receiver<ButtplugClientDeviceEvent>,
}

impl EventBroadcaster {
    /// A broadcaster without listeners.
    pub fn new() -> (broadcaster: Self) {
        EventBroadcaster { sender: broadcast_channel(EVENT_CHANNEL_CAPACITY) }
    }

    /// A new listener.
    pub fn subscribe(&self) -> (subscription: EventSubscription) {
        EventSubscription { receiver: broadcast_subscribe(&self.sender) }
    }

    /// How many listeners there are at this moment.
    pub fn receiver_count(&self) -> (count: usize) {
        broadcast_receiver_count(&self.sender)
    }

    /// Publishes an event without waiting for anyone. With no listener
    /// the event is not queued, and is handed back as dropped; so it is
    /// where the last listener leaves between the count and the send.
    pub fn publish(&self, event: ButtplugClientDeviceEvent) -> (dropped: Option<
        ButtplugClientDeviceEvent,
    >)
        ensures
            dropped matches Some(e) ==> e == event,
    {
        self.publish_counted(broadcast_receiver_count(&self.sender), event)
    }

    /// Publishes an event for the number of listeners counted. With none
    /// counted nothing is sent and the event is handed back as dropped.
    /// With some counted the event is sent; it is handed back only where
    /// the channel returns it, the last listener having left meanwhile.
    pub fn publish_counted(&self, receiver_count: usize, event: ButtplugClientDeviceEvent) -> (dropped:
        Option<ButtplugClientDeviceEvent>)
        ensures
            receiver_count == 0 ==> dropped == Some(event),
            dropped matches Some(e) ==> e == event,
    {
        if !has_listeners(receiver_count) {
            return Some(event);
        }
        undelivered(broadcast_send(&self.sender, event))
    }
}

impl EventSubscription {
    /// The next event that waits for this listener, without waiting for
    /// one to come. Whether one waits is the channel's to say; a listener
    /// that is told it fell behind has missed at least one event.
    pub fn try_next(&mut self) -> (r: Result<ButtplugClientDeviceEvent, EventStreamError>)
        ensures
            r matches Err(EventStreamError::Lagged(missed)) ==> missed >= 1,
    {
        broadcast_try_recv(&mut self.receiver)
    }

    /// The channel end itself, for a caller that waits on it.
    pub fn into_receiver(self) -> (receiver: Receiver<ButtplugClientDeviceEvent>)
        ensures
            receiver == self.channel_end(),
    {
        self.receiver
    }

    /// The channel end that this subscription reads from.
    pub closed spec fn channel_end(self) -> Receiver<ButtplugClientDeviceEvent> {
        self.receiver
    }
}

/// What becomes of an event that was sent: nothing is left of one that
/// was queued, for however many listeners; one that the channel handed
/// back is dropped, and is returned as it came back.
pub fn undelivered(sent: Result<usize, ButtplugClientDeviceEvent>) -> (dropped: Option<
    ButtplugClientDeviceEvent,
>)
    ensures
        dropped == (match sent {
            Ok(_) => None,
            Err(returned) => Some(returned),
        }),
{
    match sent {
        Ok(_) => None,
        Err(returned) => Some(returned),
    }
}

} // verus!
