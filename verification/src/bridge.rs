//! The broadcast bridge: one channel that hands every published event to all
//! subscribers attached at that moment, and the rules by which a long poll on
//! it ends.

use vstd::prelude::*;

verus! {

/// Number of events the bridge is asked to retain for slow subscribers.
pub const BRIDGE_CAPACITY: usize = 100;

/// Seconds a long poll waits for an event before it gives up.
pub const RECEIVE_TIMEOUT_SECS: u64 = 60;

/// `tokio::sync::broadcast::Sender`, the sending half of a channel. Nothing
/// inside it is visible here.
#[verifier::external_type_specification]
#[verifier::external_body]
#[verifier::reject_recursive_types(T)]
pub struct ExSender<T>(tokio::sync::broadcast::Sender<T>);

/// `tokio::sync::broadcast::Receiver`, a receiving half of a channel. Nothing
/// inside it is visible here.
#[verifier::external_type_specification]
#[verifier::external_body]
#[verifier::reject_recursive_types(T)]
pub struct ExReceiver<T>(tokio::sync::broadcast::Receiver<T>);

/// What one look at a subscription found, after a bounded wait or at once.
#[derive(Debug, Clone, PartialEq, Eq)]
pub enum Received {
    /// The next event, in publish order.
    Event(String),
    /// No event: the wait ran out, or nothing is buffered right now.
    NoEvent,
    /// The subscriber fell behind and this many events were dropped for it.
    Lagged(u64),
    /// The bridge is closed and nothing is left to read.
    Closed,
}

/// What a long poll hands back.
#[derive(Debug, Clone, PartialEq, Eq)]
pub enum Delivery {
    /// An event.
    Event(String),
    /// No event this time; the subscriber may poll again.
    Empty,
    /// No event, and none will come: the bridge is closed.
    Closed,
}

/// The result of a long poll: what is delivered, and how many events the
/// subscriber lost to lag on the way.
#[derive(Debug, Clone, PartialEq, Eq)]
pub struct Receipt {
    pub delivery: Delivery,
    pub skipped: u64,
}

/// `Received` as a mathematical value.
pub enum ReceivedView {
    Event(Seq<char>),
    NoEvent,
    Lagged(u64),
    Closed,
}

/// `Delivery` as a mathematical value.
pub enum DeliveryView {
    Event(Seq<char>),
    Empty,
    Closed,
}

/// `Receipt` as a mathematical value.
pub struct ReceiptView {
    pub delivery: DeliveryView,
    pub skipped: u64,
}

impl View for Received {
    type V = ReceivedView;

    open spec fn view(&self) -> ReceivedView {
        match *self {
            Received::Event(event) => ReceivedView::Event(event@),
            Received::NoEvent => ReceivedView::NoEvent,
            Received::Lagged(skipped) => ReceivedView::Lagged(skipped),
            Received::Closed => ReceivedView::Closed,
        }
    }
}

impl View for Delivery {
    type V = DeliveryView;

    open spec fn view(&self) -> DeliveryView {
        match *self {
            Delivery::Event(event) => DeliveryView::Event(event@),
            Delivery::Empty => DeliveryView::Empty,
            Delivery::Closed => DeliveryView::Closed,
        }
    }
}

impl View for Receipt {
    type V = ReceiptView;

    open spec fn view(&self) -> ReceiptView {
        ReceiptView { delivery: self.delivery@, skipped: self.skipped }
    }
}

/// What a lagged subscriber gets from the look that follows the lag at once:
/// the event found there, else nothing.
pub open spec fn recovered(drained: ReceivedView) -> DeliveryView {
    match drained {
        ReceivedView::Event(event) => DeliveryView::Event(event),
        _ => DeliveryView::Empty,
    }
}

/// How a long poll ends. `waited` is what the bounded wait found; `drained` is
/// what the look right after a lag found, and counts only then.
pub open spec fn settled(waited: ReceivedView, drained: ReceivedView) -> ReceiptView {
    match waited {
        ReceivedView::Event(event) => ReceiptView {
            delivery: DeliveryView::Event(event),
            skipped: 0,
        },
        ReceivedView::NoEvent => ReceiptView { delivery: DeliveryView::Empty, skipped: 0 },
        ReceivedView::Lagged(skipped) => ReceiptView { delivery: recovered(drained), skipped },
        ReceivedView::Closed => ReceiptView { delivery: DeliveryView::Closed, skipped: 0 },
    }
}

/// The text of a receipt as it goes over the wire: the event, or the empty
/// text where there is none. Only the receipt itself tells a closed bridge
/// from a wait that ran out, and a lag from either.
pub open spec fn receipt_text(receipt: ReceiptView) -> Seq<char> {
    match receipt.delivery {
        DeliveryView::Event(event) => event,
        _ => Seq::empty(),
    }
}

/// Ends a long poll from the result of its bounded wait and, for a lagged
/// subscriber, from the result of the look that followed at once.
pub fn settle(waited: Received, drained: Received) -> (receipt: Receipt)
    ensures
        receipt@ == settled(waited@, drained@),
{
    match waited {
        Received::Event(event) => Receipt { delivery: Delivery::Event(event), skipped: 0 },
        Received::NoEvent => Receipt { delivery: Delivery::Empty, skipped: 0 },
        Received::Lagged(skipped) => {
            let delivery = match drained {
                Received::Event(event) => Delivery::Event(event),
                _ => Delivery::Empty,
            };
            Receipt { delivery, skipped }
        },
        Received::Closed => Receipt { delivery: Delivery::Closed, skipped: 0 },
    }
}

impl Receipt {
    /// The text of this receipt as it goes over the wire.
    pub fn into_text(self) -> (text: String)
        ensures
            text@ == receipt_text(self@),
    {
        match self.delivery {
            Delivery::Event(event) => event,
            _ => String::new(),
        }
    }
}

/// Opens a channel with `tokio::sync::broadcast::channel` and keeps its
/// sending half. The call panics for a capacity of zero or above
/// `usize::MAX / 2`, which `requires` leaves out. Nothing is claimed of the
/// sender.
#[verifier::external_body]
fn open_channel(capacity: usize) -> (sender: tokio::sync::broadcast::Sender<String>)
    requires
        0 < capacity <= usize::MAX / 2,
{
    let (sender, _) = tokio::sync::broadcast::channel(capacity);
    sender
}

/// Sends with `tokio::sync::broadcast::Sender::send`, which never blocks, and
/// returns the number of receivers it counted, zero where it reported that
/// there is none. Who is attached depends on the rest of the program, so
/// nothing is claimed of the number.
#[verifier::external_body]
fn send_event(sender: &tokio::sync::broadcast::Sender<String>, event: String) -> (attached: usize) {
    match sender.send(event) {
        Ok(attached) => attached,
        Err(_) => 0,
    }
}

/// Subscribes with `tokio::sync::broadcast::Sender::subscribe`, which gives
/// up only where the channel already counts as many receivers as it can.
/// Nothing is claimed of the receiver.
#[verifier::external_body]
fn attach_receiver(sender: &tokio::sync::broadcast::Sender<String>) -> (receiver:
    tokio::sync::broadcast::Receiver<String>) {
    sender.subscribe()
}

/// Looks at a receiver with `tokio::sync::broadcast::Receiver::try_recv`,
/// which never waits, and reports its result variant by variant. What it
/// finds depends on what was sent meanwhile, so the one claim is that a lag is
/// never reported with a count of zero.
#[verifier::external_body]
fn try_receive(receiver: &mut tokio::sync::broadcast::Receiver<String>) -> (found: Received)
    ensures
        found matches Received::Lagged(skipped) ==> skipped >= 1,
{
    match receiver.try_recv() {
        Ok(event) => Received::Event(event),
        Err(tokio::sync::broadcast::error::TryRecvError::Empty) => Received::NoEvent,
        Err(tokio::sync::broadcast::error::TryRecvError::Lagged(skipped)) => Received::Lagged(
            skipped,
        ),
        Err(tokio::sync::broadcast::error::TryRecvError::Closed) => Received::Closed,
    }
}

/// The publishing side of the bridge.
pub struct Bridge {
    sender: tokio::sync::broadcast::Sender<String>,
    capacity: usize,
}

/// One subscriber's place in the stream of events. It starts at the moment of
/// subscription and lives as long as one long poll.
pub struct Cursor {
    /// The receiving half that the subscriber waits on.
    pub receiver: tokio::sync::broadcast::Receiver<String>,
}

impl Bridge {
    /// The capacity this bridge was opened with.
    pub closed spec fn spec_capacity(&self) -> usize {
        self.capacity
    }

    /// Opens a bridge with the standard capacity.
    pub fn new() -> (bridge: Bridge)
        ensures
            bridge.capacity() == BRIDGE_CAPACITY,
    {
        Bridge::with_capacity(BRIDGE_CAPACITY)
    }

    /// Opens a bridge that retains about `capacity` events for slow
    /// subscribers.
    pub fn with_capacity(capacity: usize) -> (bridge: Bridge)
        requires
            0 < capacity <= usize::MAX / 2,
        ensures
            bridge.capacity() == capacity,
    {
        Bridge { sender: open_channel(capacity), capacity }
    }

    /// The capacity this bridge was opened with.
    #[verifier::when_used_as_spec(spec_capacity)]
    pub fn capacity(&self) -> (capacity: usize)
        ensures
            capacity == self.spec_capacity(),
    {
        self.capacity
    }

    /// Hands `event` to every subscriber attached right now, without waiting
    /// for any of them, and returns how many there were. With no subscriber
    /// the event is lost.
    pub fn publish(&self, event: String) -> usize {
        send_event(&self.sender, event)
    }

    /// Attaches a subscriber. It sees the events published from now on, none
    /// from before.
    pub fn subscribe(&self) -> Cursor {
        Cursor { receiver: attach_receiver(&self.sender) }
    }
}

impl Cursor {
    /// Looks for the next event without waiting. A lag is reported with the
    /// number of events lost, which is at least one.
    pub fn poll(&mut self) -> (found: Received)
        ensures
            found matches Received::Lagged(skipped) ==> skipped >= 1,
    {
        try_receive(&mut self.receiver)
    }

    /// Ends a long poll whose bounded wait found `waited`. A lagged subscriber
    /// gets one more look at once and is handed what that finds, if anything;
    /// in every other case the cursor is not touched.
    pub fn receive(&mut self, waited: Received) -> (receipt: Receipt)
        ensures
            !(waited is Lagged) ==> receipt@ == settled(waited@, ReceivedView::NoEvent)
                && *final(self) == *old(self),
            exists|drained: ReceivedView| receipt@ == settled(waited@, drained),
    {
        let lagged = match &waited {
            Received::Lagged(_) => true,
            _ => false,
        };
        let drained = if lagged {
            self.poll()
        } else {
            Received::NoEvent
        };
        settle(waited, drained)
    }
}

/// A lag is never passed over in silence, and nothing else is taken for one:
/// the receipt of a lagged poll carries the number of events lost, every other
/// receipt carries zero and does not depend on a further look; an event is
/// delivered only where the wait found it or the look after a lag did; and
/// only a closed bridge is reported as closed.
pub proof fn lemma_lag_is_reported(waited: ReceivedView, drained: ReceivedView)
    ensures
        waited matches ReceivedView::Lagged(skipped) ==> settled(waited, drained).skipped
            == skipped,
        !(waited is Lagged) ==> settled(waited, drained).skipped == 0 && settled(waited, drained)
            == settled(waited, ReceivedView::NoEvent),
        settled(waited, drained).delivery matches DeliveryView::Event(event) ==> waited
            == ReceivedView::Event(event) || (waited is Lagged && drained == ReceivedView::Event(
            event,
        )),
        settled(waited, drained).delivery is Closed <==> waited is Closed,
        waited is NoEvent ==> settled(waited, drained).delivery is Empty,
{
}

} // verus!
