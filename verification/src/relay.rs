//! A cooperative run of the pipeline: one thread of control plays the
//! producer and the consumer in turn over one bounded queue. Whenever
//! the producer finds the queue full, the consumer takes the oldest
//! message, and the producer goes on.

use crate::content::ContentSet;
use crate::message::{message_for, MessageView, OutboundMessage};
use crate::producer::{
    lemma_produced_extend, lemma_produced_stops_at_end, message_views, produced, unended, Producer,
    ProducerAction, ProducerView, Reaction, SourceEvent,
};
use crate::queue::{Dequeued, DispatchQueue, QueueView, MAX_CAPACITY};
use vstd::prelude::*;

verus! {

/// The queue and the consumer's takings after the producer acted on
/// `reaction`. A message for a full queue first lets the consumer take
/// the oldest one; a message for a queue that refuses is lost.
pub open spec fn fed(queue: QueueView, taken: Seq<MessageView>, reaction: Reaction) -> (
    QueueView,
    Seq<MessageView>,
) {
    match reaction {
        Reaction::Pull => (queue, taken),
        Reaction::Stop => (queue.sender_closed(), taken),
        Reaction::Enqueue(msg) => if !queue.refuses() && queue.is_full() && queue.items.len() > 0 {
            (queue.taken().offered(msg), taken.push(queue.items.first()))
        } else {
            (queue.offered(msg), taken)
        },
    }
}

/// Lets the producer act on one event of the source, with the consumer
/// standing by: a record's message goes into the queue, after the
/// consumer has made room for it if the queue was full; the end of the
/// source closes the queue's sending side.
pub fn feed(
    producer: &mut Producer,
    event: SourceEvent,
    queue: &mut DispatchQueue,
    taken: &mut Vec<OutboundMessage>,
)
    requires
        old(queue).wf(),
    ensures
        final(queue).wf(),
        final(producer)@ == old(producer)@.after(event),
        (final(queue)@, message_views(final(taken)@)) == fed(
            old(queue)@,
            message_views(old(taken)@),
            old(producer)@.reaction(event),
        ),
{
    proof {
        queue.lemma_within_capacity();
    }
    match producer.on_source(event) {
        ProducerAction::Pull => {},
        ProducerAction::Stop => {
            queue.close_sender();
        },
        ProducerAction::Enqueue(msg) => {
            let outcome = queue.enqueue(msg);
            match producer.on_enqueued(outcome) {
                ProducerAction::Enqueue(again) => {
                    match queue.dequeue() {
                        Dequeued::Item(oldest) => {
                            proof {
                                assert(message_views(taken@.push(oldest)) =~= message_views(taken@).push(
                                    oldest@,
                                ));
                            }
                            taken.push(oldest);
                        },
                        _ => {},
                    }
                    queue.enqueue(again);
                },
                _ => {},
            }
        },
    }
}

/// Lets the consumer take every message that waits in the queue, oldest
/// first. The answer says whether the consumer has thereby seen the end
/// of the stream: nothing waits and nothing more can come.
pub fn drain(queue: &mut DispatchQueue, taken: &mut Vec<OutboundMessage>) -> (finished: bool)
    requires
        old(queue).wf(),
    ensures
        final(queue).wf(),
        final(queue)@ == (QueueView { items: Seq::empty(), ..old(queue)@ }),
        message_views(final(taken)@) == message_views(old(taken)@) + old(queue)@.items,
        finished == old(queue)@.refuses(),
{
    let ghost before = queue@;
    let ghost had = message_views(taken@);
    let mut finished = false;
    let mut more = true;
    while more
        invariant
            queue.wf(),
            queue@.capacity == before.capacity,
            queue@.sender_open == before.sender_open,
            queue@.receiver_open == before.receiver_open,
            message_views(taken@) + queue@.items == had + before.items,
            more ==> !finished,
            !more ==> queue@.items.len() == 0 && finished == before.refuses(),
        decreases queue@.items.len() + (if more { 1nat } else { 0nat }),
    {
        let ghost waiting = queue@.items;
        let ghost sofar = message_views(taken@);
        match queue.dequeue() {
            Dequeued::Item(oldest) => {
                proof {
                    assert(message_views(taken@.push(oldest)) =~= sofar.push(oldest@));
                    assert(sofar.push(waiting.first()) + waiting.drop_first() =~= sofar + waiting);
                }
                taken.push(oldest);
            },
            Dequeued::Pending => {
                more = false;
            },
            Dequeued::Finished => {
                finished = true;
                more = false;
            },
        }
    }
    proof {
        assert(queue@.items =~= Seq::<MessageView>::empty());
        assert(message_views(taken@) =~= had + before.items);
    }
    finished
}

/// The consumer's takings when `producer` is run over the whole of
/// `source`: the messages of the source's records up to its end, in the
/// source's order, and nothing from a producer that had already ended.
pub open spec fn delivered_by(producer: ProducerView, source: Seq<SourceEvent>) -> Seq<MessageView> {
    if producer.ending is Some {
        Seq::empty()
    } else {
        produced(source, producer.contents, producer.label, producer.sender)
    }
}

/// Runs `producer` over the whole of `source` with a queue of the given
/// capacity: every event goes to the producer, the consumer takes what
/// the queue holds whenever it is full and at the end, and the
/// consumer's takings come back in the order in which it took them,
/// whatever the capacity. There is no run without a queue: a capacity
/// of zero, or one above [`MAX_CAPACITY`], gives `None`.
pub fn dispatch(producer: Producer, source: Vec<SourceEvent>, capacity: usize) -> (delivered: Option<
    Vec<OutboundMessage>,
>)
    ensures
        delivered is Some <==> 1 <= capacity <= MAX_CAPACITY,
        delivered matches Some(messages) ==> message_views(messages@) == delivered_by(producer@, source@),
{
    let mut queue = match DispatchQueue::bounded(capacity) {
        Some(queue) => queue,
        None => {
            return None;
        },
    };
    let ghost all = source@;
    let ghost first = producer@;
    let ghost set = first.contents;
    let ghost label = first.label;
    let ghost sender = first.sender;
    let ghost expected = delivered_by(first, all);
    let mut producer = producer;
    let mut taken: Vec<OutboundMessage> = Vec::new();
    proof {
        assert(all.take(0) =~= Seq::<SourceEvent>::empty());
        assert(message_views(taken@) + queue@.items =~= Seq::<MessageView>::empty());
    }
    for event in it: source
        invariant
            it.seq() == all,
            queue.wf(),
            queue@.receiver_open,
            queue@.capacity == capacity,
            producer@.contents == set,
            producer@.label == label,
            producer@.sender == sender,
            first.ending is Some ==> producer@.ending is Some,
            expected == delivered_by(first, all),
            set == first.contents,
            label == first.label,
            sender == first.sender,
            producer@.ending is None ==> queue@.sender_open && unended(all.take(it.index() as int))
                && message_views(taken@) + queue@.items == produced(
                all.take(it.index() as int),
                set,
                label,
                sender,
            ),
            producer@.ending is Some ==> message_views(taken@) + queue@.items == expected,
    {
        let ghost seen = all.take(it.index() as int);
        let ghost waiting = queue@.items;
        let ghost sofar = message_views(taken@);
        proof {
            queue.lemma_within_capacity();
            assert(all.take(it.index() + 1) =~= seen.push(event));
            if producer@.ending is None {
                lemma_produced_extend(seen, event, set, label, sender);
                if event.is_terminal() {
                    let rest = all.skip(it.index() + 1);
                    assert(all =~= seen.push(event) + rest);
                    lemma_produced_stops_at_end(seen, event, rest, set, label, sender);
                } else {
                    assert forall|i: int| 0 <= i < seen.push(event).len() implies !(
                    #[trigger] seen.push(event)[i]).is_terminal() by {
                        if i < seen.len() {
                            assert(seen.push(event)[i] == seen[i]);
                        }
                    }
                }
                if event is Record {
                    let msg = message_for(event->Record_0@, set, label, sender);
                    if queue@.is_full() {
                        assert(sofar.push(waiting.first()) + waiting.drop_first().push(msg) =~= (sofar
                            + waiting) + seq![msg]);
                    } else {
                        assert(sofar + waiting.push(msg) =~= (sofar + waiting) + seq![msg]);
                    }
                } else {
                    assert((sofar + waiting) + Seq::<MessageView>::empty() =~= sofar + waiting);
                }
            }
        }
        feed(&mut producer, event, &mut queue, &mut taken);
    }
    proof {
        assert(all.take(all.len() as int) =~= all);
    }
    queue.close_sender();
    drain(&mut queue, &mut taken);
    Some(taken)
}

/// Runs a whole pipeline over a queue of the given capacity, with a new
/// producer for the given content, label and sender. The consumer gets
/// one message for each record that the source yields before its end,
/// in the source's order.
pub fn dispatch_all(
    source: Vec<SourceEvent>,
    contents: ContentSet,
    label: &str,
    sender: &str,
    capacity: usize,
) -> (delivered: Option<Vec<OutboundMessage>>)
    ensures
        delivered is Some <==> 1 <= capacity <= MAX_CAPACITY,
        delivered matches Some(messages) ==> message_views(messages@) == produced(
            source@,
            contents@,
            label@,
            sender@,
        ),
{
    dispatch(Producer::new(contents, label, sender), source, capacity)
}

} // verus!
