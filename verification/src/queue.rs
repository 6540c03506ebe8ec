//! The bounded dispatch queue: a fixed-capacity, first-in first-out
//! channel between the producer of messages and their consumer. It is a
//! `tokio` bounded channel whose two ends are held together, so that one
//! thread of control can play both sides in turn.

use crate::message::{MessageView, OutboundMessage};
use tokio::sync::mpsc::error::{TryRecvError, TrySendError};
use tokio::sync::mpsc::{Receiver, Sender};
use vstd::prelude::*;

verus! {

/// The capacity that the pipeline gives its queue.
pub const DEFAULT_CAPACITY: usize = 1024;

/// The largest capacity a queue can be made with.
pub const MAX_CAPACITY: usize = usize::MAX / 8;

/// `tokio::sync::mpsc::Sender`, a sending handle of a bounded channel.
/// Nothing inside it is visible here.
#[verifier::external_type_specification]
#[verifier::external_body]
#[verifier::reject_recursive_types(T)]
pub struct ExSender<T>(Sender<T>);

/// `tokio::sync::mpsc::Receiver`, the receiving handle of a bounded
/// channel. Nothing inside it is visible here.
#[verifier::external_type_specification]
#[verifier::external_body]
#[verifier::reject_recursive_types(T)]
pub struct ExReceiver<T>(Receiver<T>);

/// The messages that wait in the channel read by `rx`, oldest first.
pub uninterp spec fn buffered(rx: Receiver<OutboundMessage>) -> Seq<MessageView>;

/// The buffer size that the channel read by `rx` was made with.
pub uninterp spec fn bound(rx: Receiver<OutboundMessage>) -> nat;

/// Whether the receiving side of the channel has been closed.
pub uninterp spec fn shut(rx: Receiver<OutboundMessage>) -> bool;

/// Whether every sending handle of the channel has been dropped.
pub uninterp spec fn hung_up(rx: Receiver<OutboundMessage>) -> bool;

/// Whether `tx` is the one sending handle of the channel that `rx` reads.
pub uninterp spec fn feeds(tx: Sender<OutboundMessage>, rx: Receiver<OutboundMessage>) -> bool;

/// What became of a message offered to the queue.
#[derive(Debug, PartialEq, Eq)]
pub enum Enqueued {
    /// The message is in the queue.
    Accepted,
    /// The queue holds as many messages as it can; the message comes back.
    Full(OutboundMessage),
    /// Nobody will read the queue any more; the message comes back.
    Closed(OutboundMessage),
}

/// What a consumer gets when it asks the queue for the next message.
#[derive(Debug, PartialEq, Eq)]
pub enum Dequeued {
    /// The oldest waiting message.
    Item(OutboundMessage),
    /// Nothing waits, but more may come.
    Pending,
    /// Nothing waits and nothing will come.
    Finished,
}

/// `tokio::sync::mpsc::channel`: a new, empty, open channel that buffers
/// up to `capacity` messages, with its one sender. The outside function
/// panics for a capacity of zero or above `usize::MAX >> 3`.
#[verifier::external_body]
fn open_channel(capacity: usize) -> (ends: (Sender<OutboundMessage>, Receiver<OutboundMessage>))
    requires
        1 <= capacity <= MAX_CAPACITY,
    ensures
        buffered(ends.1) == Seq::<MessageView>::empty(),
        bound(ends.1) == capacity,
        !shut(ends.1),
        !hung_up(ends.1),
        feeds(ends.0, ends.1),
{
    tokio::sync::mpsc::channel(capacity)
}

/// `Sender::try_send`: refuses with `Closed` once the receiving side is
/// closed, else with `Full` when the buffer holds `bound` messages, and
/// else appends the message. A refusal hands the message back and
/// changes nothing.
#[verifier::external_body]
fn offer(tx: &Sender<OutboundMessage>, rx: &mut Receiver<OutboundMessage>, msg: OutboundMessage) -> (out:
    Enqueued)
    requires
        feeds(*tx, *old(rx)),
    ensures
        feeds(*tx, *final(rx)),
        bound(*final(rx)) == bound(*old(rx)),
        shut(*final(rx)) == shut(*old(rx)),
        hung_up(*final(rx)) == hung_up(*old(rx)),
        shut(*old(rx)) ==> out == Enqueued::Closed(msg) && buffered(*final(rx)) == buffered(*old(rx)),
        !shut(*old(rx)) && buffered(*old(rx)).len() >= bound(*old(rx)) ==> out == Enqueued::Full(msg)
            && buffered(*final(rx)) == buffered(*old(rx)),
        !shut(*old(rx)) && buffered(*old(rx)).len() < bound(*old(rx)) ==> out == Enqueued::Accepted
            && buffered(*final(rx)) == buffered(*old(rx)).push(msg@),
{
    let _ = rx;
    match tx.try_send(msg) {
        Ok(()) => Enqueued::Accepted,
        Err(TrySendError::Full(back)) => Enqueued::Full(back),
        Err(TrySendError::Closed(back)) => Enqueued::Closed(back),
    }
}

/// `Receiver::try_recv`: takes the oldest waiting message if there is
/// one; on an empty buffer it reports `Disconnected` when every sender
/// is gone or the receiving side was closed, and `Empty` otherwise.
#[verifier::external_body]
fn poll(rx: &mut Receiver<OutboundMessage>) -> (out: Dequeued)
    ensures
        bound(*final(rx)) == bound(*old(rx)),
        shut(*final(rx)) == shut(*old(rx)),
        hung_up(*final(rx)) == hung_up(*old(rx)),
        forall|tx: Sender<OutboundMessage>| feeds(tx, *old(rx)) ==> feeds(tx, *final(rx)),
        buffered(*old(rx)).len() > 0 ==> (out matches Dequeued::Item(msg) && msg@ == buffered(
            *old(rx),
        ).first()) && buffered(*final(rx)) == buffered(*old(rx)).drop_first(),
        buffered(*old(rx)).len() == 0 ==> buffered(*final(rx)) == buffered(*old(rx)) && out == (if hung_up(
            *old(rx),
        ) || shut(*old(rx)) {
            Dequeued::Finished
        } else {
            Dequeued::Pending
        }),
{
    match rx.try_recv() {
        Ok(msg) => Dequeued::Item(msg),
        Err(TryRecvError::Empty) => Dequeued::Pending,
        Err(TryRecvError::Disconnected) => Dequeued::Finished,
    }
}

/// `Receiver::close`: closes the receiving side and leaves the waiting
/// messages where they are.
#[verifier::external_body]
fn shut_receiver(rx: &mut Receiver<OutboundMessage>)
    ensures
        shut(*final(rx)),
        buffered(*final(rx)) == buffered(*old(rx)),
        bound(*final(rx)) == bound(*old(rx)),
        hung_up(*final(rx)) == hung_up(*old(rx)),
        forall|tx: Sender<OutboundMessage>| feeds(tx, *old(rx)) ==> feeds(tx, *final(rx)),
{
    rx.close()
}

/// Dropping the channel's one `Sender`: the channel counts as hung up
/// from then on, and the waiting messages stay.
#[verifier::external_body]
fn hang_up(tx: Sender<OutboundMessage>, rx: &mut Receiver<OutboundMessage>)
    requires
        feeds(tx, *old(rx)),
    ensures
        hung_up(*final(rx)),
        buffered(*final(rx)) == buffered(*old(rx)),
        bound(*final(rx)) == bound(*old(rx)),
        shut(*final(rx)) == shut(*old(rx)),
{
    let _ = rx;
    drop(tx)
}

/// What a [`DispatchQueue`] is, as mathematical values.
pub struct QueueView {
    /// The waiting messages, oldest first.
    pub items: Seq<MessageView>,
    /// How many messages may wait at once.
    pub capacity: nat,
    /// Whether the producer can still offer messages.
    pub sender_open: bool,
    /// Whether the consumer still reads.
    pub receiver_open: bool,
}

impl QueueView {
    /// A new queue: empty, with both sides open.
    pub open spec fn fresh(capacity: nat) -> QueueView {
        QueueView { items: Seq::empty(), capacity, sender_open: true, receiver_open: true }
    }

    /// Whether as many messages wait as the queue can hold.
    pub open spec fn is_full(self) -> bool {
        self.items.len() >= self.capacity
    }

    /// Whether an offered message would be refused for good.
    pub open spec fn refuses(self) -> bool {
        !self.sender_open || !self.receiver_open
    }

    /// Whether an offered message would go in.
    pub open spec fn accepts(self) -> bool {
        !self.refuses() && !self.is_full()
    }

    /// The queue after `msg` was offered to it: one message longer if it
    /// accepts, unchanged if not.
    pub open spec fn offered(self, msg: MessageView) -> QueueView {
        if self.accepts() {
            QueueView { items: self.items.push(msg), ..self }
        } else {
            self
        }
    }

    /// Whether a consumer will never get another message.
    pub open spec fn is_finished(self) -> bool {
        self.items.len() == 0 && self.refuses()
    }

    /// The queue after a consumer asked for the next message: without
    /// its oldest message, if it had one.
    pub open spec fn taken(self) -> QueueView {
        if self.items.len() > 0 {
            QueueView { items: self.items.drop_first(), ..self }
        } else {
            self
        }
    }

    /// The queue after the producer gave up its handle.
    pub open spec fn sender_closed(self) -> QueueView {
        QueueView { sender_open: false, ..self }
    }

    /// The queue after the consumer stopped reading.
    pub open spec fn receiver_closed(self) -> QueueView {
        QueueView { receiver_open: false, ..self }
    }

    /// A full queue holds the producer back: while no message is taken,
    /// an offered message stays out and the queue stays as it is; as
    /// soon as the consumer has taken one, the offered message goes in
    /// behind the others.
    pub proof fn lemma_full_queue_holds_back(self, msg: MessageView)
        requires
            1 <= self.capacity,
            self.items.len() == self.capacity,
            !self.refuses(),
        ensures
            !self.accepts(),
            self.offered(msg) == self,
            self.taken().accepts(),
            self.taken().offered(msg).items == self.items.drop_first().push(msg),
            self.taken().offered(msg).items.len() == self.capacity,
    {
    }

    /// With room for one message, the second of two is held back until
    /// the first has been taken.
    pub proof fn lemma_second_waits_for_first(first: MessageView, second: MessageView)
        ensures
            QueueView::fresh(1).offered(first).items == seq![first],
            QueueView::fresh(1).offered(first).offered(second) == QueueView::fresh(1).offered(first),
            QueueView::fresh(1).offered(first).taken().offered(second).items == seq![second],
    {
        let one = QueueView::fresh(1).offered(first);
        assert(one.items =~= seq![first]);
        one.lemma_full_queue_holds_back(second);
        assert(one.taken().offered(second).items =~= seq![second]);
    }
}

/// A bounded first-in first-out queue of outbound messages.
pub struct DispatchQueue {
    tx: Option<Sender<OutboundMessage>>,
    rx: Receiver<OutboundMessage>,
    capacity: usize,
}

impl View for DispatchQueue {
    type V = QueueView;

    closed spec fn view(&self) -> QueueView {
        QueueView {
            items: buffered(self.rx),
            capacity: self.capacity as nat,
            sender_open: self.tx is Some,
            receiver_open: !shut(self.rx),
        }
    }
}

impl DispatchQueue {
    /// The queue's invariant: it holds no more than its capacity, which
    /// is at least one, and its two ends belong together.
    pub closed spec fn wf(&self) -> bool {
        &&& 1 <= self.capacity <= MAX_CAPACITY
        &&& bound(self.rx) == self.capacity
        &&& buffered(self.rx).len() <= self.capacity
        &&& match self.tx {
            Some(tx) => feeds(tx, self.rx) && !hung_up(self.rx),
            None => hung_up(self.rx),
        }
    }

    /// A well-formed queue never holds more than its capacity, and its
    /// capacity is within the limits.
    pub proof fn lemma_within_capacity(&self)
        requires
            self.wf(),
        ensures
            self@.items.len() <= self@.capacity,
            1 <= self@.capacity <= MAX_CAPACITY,
    {
    }

    /// Makes an empty queue for up to `capacity` messages, both sides
    /// open. There is no queue of capacity zero, nor one above
    /// [`MAX_CAPACITY`].
    pub fn bounded(capacity: usize) -> (made: Option<DispatchQueue>)
        ensures
            made is Some <==> 1 <= capacity <= MAX_CAPACITY,
            made matches Some(queue) ==> queue.wf() && queue@ == QueueView::fresh(capacity as nat),
    {
        if capacity == 0 || capacity > MAX_CAPACITY {
            return None;
        }
        let (tx, rx) = open_channel(capacity);
        Some(DispatchQueue { tx: Some(tx), rx, capacity })
    }

    /// Offers `msg` to the queue without waiting. A queue whose consumer
    /// is gone, or whose sending handle was given up, answers `Closed`; a
    /// full one answers `Full`. Either way the message comes back and
    /// the queue is as before. Otherwise the message goes to the back of
    /// the queue.
    pub fn enqueue(&mut self, msg: OutboundMessage) -> (out: Enqueued)
        requires
            old(self).wf(),
        ensures
            final(self).wf(),
            final(self)@ == old(self)@.offered(msg@),
            out == (if old(self)@.refuses() {
                Enqueued::Closed(msg)
            } else if old(self)@.is_full() {
                Enqueued::Full(msg)
            } else {
                Enqueued::Accepted
            }),
    {
        match &self.tx {
            Some(tx) => offer(tx, &mut self.rx, msg),
            None => Enqueued::Closed(msg),
        }
    }

    /// Asks for the next message without waiting: the oldest one if any
    /// waits, `Finished` if none waits and none can come, `Pending` if
    /// none waits but the producer may still send.
    pub fn dequeue(&mut self) -> (out: Dequeued)
        requires
            old(self).wf(),
        ensures
            final(self).wf(),
            final(self)@ == old(self)@.taken(),
            old(self)@.items.len() > 0 ==> (out matches Dequeued::Item(msg) && msg@ == old(
                self,
            )@.items.first()),
            old(self)@.items.len() == 0 ==> out == (if old(self)@.refuses() {
                Dequeued::Finished
            } else {
                Dequeued::Pending
            }),
    {
        poll(&mut self.rx)
    }

    /// Gives up the sending handle: nothing more can be offered, and the
    /// waiting messages stay readable. Doing so twice changes nothing.
    pub fn close_sender(&mut self)
        requires
            old(self).wf(),
        ensures
            final(self).wf(),
            final(self)@ == old(self)@.sender_closed(),
    {
        let tx = self.tx.take();
        match tx {
            Some(tx) => hang_up(tx, &mut self.rx),
            None => {},
        }
    }

    /// Stops reading: every later offer is refused, and the waiting
    /// messages stay readable.
    pub fn close_receiver(&mut self)
        requires
            old(self).wf(),
        ensures
            final(self).wf(),
            final(self)@ == old(self)@.receiver_closed(),
    {
        shut_receiver(&mut self.rx)
    }

    /// How many messages may wait at once.
    pub fn capacity(&self) -> (n: usize)
        ensures
            n == self@.capacity,
    {
        self.capacity
    }

    /// Takes the queue apart into its sending handle, if it still has
    /// one, and its receiving handle.
    pub fn into_parts(self) -> (parts: (Option<Sender<OutboundMessage>>, Receiver<OutboundMessage>))
        requires
            self.wf(),
        ensures
            parts.0 is Some == self@.sender_open,
            parts.0 matches Some(tx) ==> feeds(tx, parts.1),
            buffered(parts.1) == self@.items,
            bound(parts.1) == self@.capacity,
            shut(parts.1) == !self@.receiver_open,
    {
        (self.tx, self.rx)
    }
}

} // verus!
