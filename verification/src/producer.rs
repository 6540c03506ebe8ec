//! The producer task: what it does with each thing the record source
//! yields, and a cooperative run of producer and consumer over one queue.

use crate::content::{ContentSet, ContentView};
use crate::message::{compose, message_for, MessageView, OutboundMessage, RecipientRecord};
use crate::queue::Enqueued;
use vstd::prelude::*;

verus! {

/// What one pull from the record source can yield.
#[derive(Clone, Debug, PartialEq, Eq)]
pub enum SourceEvent {
    /// A valid record.
    Record(RecipientRecord),
    /// An entry that the source could not deliver; the source goes on.
    Rejected,
    /// The source has no more entries.
    Exhausted,
    /// The connection to the source broke; nothing more will come.
    Failed,
}

impl SourceEvent {
    /// Whether nothing is pulled after this event.
    pub open spec fn is_terminal(self) -> bool {
        self is Exhausted || self is Failed
    }
}

/// How a producer came to its end.
#[derive(Clone, Copy, Debug, PartialEq, Eq)]
pub enum Ending {
    /// The source ran out.
    Exhausted,
    /// The source broke.
    Failed,
}

/// What the producer does next.
#[derive(Debug, PartialEq, Eq)]
pub enum ProducerAction {
    /// Pull the next entry from the source.
    Pull,
    /// Offer this message to the queue, waiting for room if need be.
    Enqueue(OutboundMessage),
    /// Give up the queue's sending handle and end.
    Stop,
}

/// A [`ProducerAction`] as mathematical values.
pub enum Reaction {
    Pull,
    Enqueue(MessageView),
    Stop,
}

impl View for ProducerAction {
    type V = Reaction;

    open spec fn view(&self) -> Reaction {
        match self {
            ProducerAction::Pull => Reaction::Pull,
            ProducerAction::Enqueue(msg) => Reaction::Enqueue(msg@),
            ProducerAction::Stop => Reaction::Stop,
        }
    }
}

/// What a [`Producer`] is, as mathematical values.
pub struct ProducerView {
    /// The content that every message of the run carries.
    pub contents: Seq<ContentView>,
    /// The label of every message of the run.
    pub label: Seq<char>,
    /// The sender address of every message of the run.
    pub sender: Seq<char>,
    /// How the producer ended, once it has.
    pub ending: Option<Ending>,
}

impl ProducerView {
    /// What the producer does when the source yields `event`: a record
    /// becomes a message to enqueue, a rejected entry is passed over, and
    /// the end of the source, clean or not, stops the producer. A stopped
    /// producer stays stopped.
    pub open spec fn reaction(self, event: SourceEvent) -> Reaction {
        if self.ending is Some {
            Reaction::Stop
        } else {
            match event {
                SourceEvent::Record(record) => Reaction::Enqueue(
                    message_for(record@, self.contents, self.label, self.sender),
                ),
                SourceEvent::Rejected => Reaction::Pull,
                SourceEvent::Exhausted => Reaction::Stop,
                SourceEvent::Failed => Reaction::Stop,
            }
        }
    }

    /// The producer after the source yielded `event`.
    pub open spec fn after(self, event: SourceEvent) -> ProducerView {
        if self.ending is Some {
            self
        } else {
            match event {
                SourceEvent::Exhausted => ProducerView { ending: Some(Ending::Exhausted), ..self },
                SourceEvent::Failed => ProducerView { ending: Some(Ending::Failed), ..self },
                _ => self,
            }
        }
    }

    /// What the producer does once the queue has answered an offer: an
    /// accepted message and a message refused for good both send it back
    /// to the source, and a full queue makes it offer the same message
    /// again.
    pub open spec fn follow_up(self, outcome: Enqueued) -> Reaction {
        if self.ending is Some {
            Reaction::Stop
        } else {
            match outcome {
                Enqueued::Accepted => Reaction::Pull,
                Enqueued::Closed(_) => Reaction::Pull,
                Enqueued::Full(msg) => Reaction::Enqueue(msg@),
            }
        }
    }
}

/// The messages that a producer puts out for the given source: one for
/// each record that comes before the source's end, in the source's order.
pub open spec fn produced(
    events: Seq<SourceEvent>,
    contents: Seq<ContentView>,
    label: Seq<char>,
    sender: Seq<char>,
) -> Seq<MessageView>
    decreases events.len(),
{
    if events.len() == 0 {
        Seq::empty()
    } else {
        let rest = produced(events.drop_first(), contents, label, sender);
        match events.first() {
            SourceEvent::Record(record) => seq![message_for(record@, contents, label, sender)] + rest,
            SourceEvent::Rejected => rest,
            SourceEvent::Exhausted => Seq::empty(),
            SourceEvent::Failed => Seq::empty(),
        }
    }
}

/// Whether the source's end is not among `events`.
pub open spec fn unended(events: Seq<SourceEvent>) -> bool {
    forall|i: int| 0 <= i < events.len() ==> !(#[trigger] events[i]).is_terminal()
}

/// The views of a sequence of messages, in the same order.
pub open spec fn message_views(messages: Seq<OutboundMessage>) -> Seq<MessageView> {
    messages.map_values(|m: OutboundMessage| m@)
}

/// Adding one event to a source that has not ended adds that event's
/// message, if it is a record, and nothing otherwise.
pub proof fn lemma_produced_extend(
    events: Seq<SourceEvent>,
    next: SourceEvent,
    contents: Seq<ContentView>,
    label: Seq<char>,
    sender: Seq<char>,
)
    requires
        unended(events),
    ensures
        produced(events.push(next), contents, label, sender) == produced(events, contents, label, sender)
            + (match next {
            SourceEvent::Record(record) => seq![message_for(record@, contents, label, sender)],
            _ => Seq::empty(),
        }),
    decreases events.len(),
{
    let grown = events.push(next);
    if events.len() == 0 {
        assert(grown.drop_first() =~= Seq::<SourceEvent>::empty());
        assert(produced(grown.drop_first(), contents, label, sender) =~= Seq::<MessageView>::empty());
        assert(produced(grown, contents, label, sender) =~= produced(events, contents, label, sender) + (
        match next {
            SourceEvent::Record(record) => seq![message_for(record@, contents, label, sender)],
            _ => Seq::empty(),
        }));
    } else {
        let tail = events.drop_first();
        assert(grown.drop_first() =~= tail.push(next));
        assert(grown.first() == events.first());
        assert(!events[0].is_terminal());
        assert(unended(tail)) by {
            assert forall|i: int| 0 <= i < tail.len() implies !(#[trigger] tail[i]).is_terminal() by {
                assert(tail[i] == events[i + 1]);
            }
        }
        lemma_produced_extend(tail, next, contents, label, sender);
        assert(produced(grown, contents, label, sender) =~= produced(events, contents, label, sender) + (
        match next {
            SourceEvent::Record(record) => seq![message_for(record@, contents, label, sender)],
            _ => Seq::empty(),
        }));
    }
}

/// Nothing that comes after the end of the source is produced.
pub proof fn lemma_produced_stops_at_end(
    before: Seq<SourceEvent>,
    end: SourceEvent,
    after: Seq<SourceEvent>,
    contents: Seq<ContentView>,
    label: Seq<char>,
    sender: Seq<char>,
)
    requires
        end.is_terminal(),
    ensures
        produced(before.push(end) + after, contents, label, sender) == produced(
            before,
            contents,
            label,
            sender,
        ),
    decreases before.len(),
{
    let whole = before.push(end) + after;
    if before.len() == 0 {
        assert(whole.first() == end);
        assert(produced(before, contents, label, sender) =~= Seq::<MessageView>::empty());
    } else {
        let tail = before.drop_first();
        assert(whole.first() == before.first());
        assert(whole.drop_first() =~= tail.push(end) + after);
        lemma_produced_stops_at_end(tail, end, after, contents, label, sender);
    }
}

/// The events of a source that yields the given records, one after the
/// other, and nothing else.
pub open spec fn all_valid(records: Seq<RecipientRecord>) -> Seq<SourceEvent> {
    records.map_values(|r: RecipientRecord| SourceEvent::Record(r))
}

/// A source that yields valid records only gives exactly one message
/// for each of them, in the order of the source: as many messages as
/// records, the i-th message made from the i-th record.
pub proof fn lemma_one_message_per_record(
    records: Seq<RecipientRecord>,
    contents: Seq<ContentView>,
    label: Seq<char>,
    sender: Seq<char>,
)
    ensures
        produced(all_valid(records), contents, label, sender) == records.map_values(
            |r: RecipientRecord| message_for(r@, contents, label, sender),
        ),
        produced(all_valid(records), contents, label, sender).len() == records.len(),
    decreases records.len(),
{
    let events = all_valid(records);
    let expected = records.map_values(|r: RecipientRecord| message_for(r@, contents, label, sender));
    if records.len() == 0 {
        assert(produced(events, contents, label, sender) =~= expected);
    } else {
        let front = records.drop_last();
        let last = records.last();
        lemma_one_message_per_record(front, contents, label, sender);
        assert(events =~= all_valid(front).push(SourceEvent::Record(last)));
        lemma_produced_extend(all_valid(front), SourceEvent::Record(last), contents, label, sender);
        assert(produced(events, contents, label, sender) =~= expected);
    }
}

/// An entry that the source rejects is passed over: the messages are
/// those of the source without that entry, so every record around it
/// still gets its message, once.
pub proof fn lemma_rejected_entry_is_skipped(
    before: Seq<SourceEvent>,
    after: Seq<SourceEvent>,
    contents: Seq<ContentView>,
    label: Seq<char>,
    sender: Seq<char>,
)
    ensures
        produced(before.push(SourceEvent::Rejected) + after, contents, label, sender) == produced(
            before + after,
            contents,
            label,
            sender,
        ),
    decreases before.len(),
{
    let with = before.push(SourceEvent::Rejected) + after;
    let without = before + after;
    if before.len() == 0 {
        assert(with.first() == SourceEvent::Rejected);
        assert(with.drop_first() =~= after);
        assert(without =~= after);
    } else {
        let tail = before.drop_first();
        assert(with.first() == before.first());
        assert(without.first() == before.first());
        assert(with.drop_first() =~= tail.push(SourceEvent::Rejected) + after);
        assert(without.drop_first() =~= tail + after);
        lemma_rejected_entry_is_skipped(tail, after, contents, label, sender);
    }
}

/// Every message of a run carries the run's whole content set, its
/// label and its sender, and is addressed to one recipient: the content
/// is the same for all recipients, and empty when the set is empty.
pub proof fn lemma_every_message_carries_the_set(
    events: Seq<SourceEvent>,
    contents: Seq<ContentView>,
    label: Seq<char>,
    sender: Seq<char>,
)
    ensures
        forall|i: int|
            0 <= i < produced(events, contents, label, sender).len() ==> {
                let msg = #[trigger] produced(events, contents, label, sender)[i];
                &&& msg.contents == contents
                &&& msg.label == label
                &&& msg.sender == sender
                &&& msg.recipients.len() == 1
            },
    decreases events.len(),
{
    if events.len() > 0 {
        let rest = produced(events.drop_first(), contents, label, sender);
        let all = produced(events, contents, label, sender);
        lemma_every_message_carries_the_set(events.drop_first(), contents, label, sender);
        assert forall|i: int| 0 <= i < all.len() implies {
            let msg = #[trigger] all[i];
            &&& msg.contents == contents
            &&& msg.label == label
            &&& msg.sender == sender
            &&& msg.recipients.len() == 1
        } by {
            match events.first() {
                SourceEvent::Record(record) => {
                    if i > 0 {
                        assert(all[i] == rest[i - 1]);
                    }
                },
                SourceEvent::Rejected => {
                    assert(all[i] == rest[i]);
                },
                _ => {},
            }
        }
    }
}

/// The decisions of one producer task.
#[derive(Debug)]
pub struct Producer {
    contents: ContentSet,
    label: String,
    sender: String,
    ending: Option<Ending>,
}

impl View for Producer {
    type V = ProducerView;

    closed spec fn view(&self) -> ProducerView {
        ProducerView {
            contents: self.contents@,
            label: self.label@,
            sender: self.sender@,
            ending: self.ending,
        }
    }
}

impl Producer {
    /// A producer that has not pulled anything yet.
    pub fn new(contents: ContentSet, label: &str, sender: &str) -> (producer: Producer)
        ensures
            producer@ == (ProducerView {
                contents: contents@,
                label: label@,
                sender: sender@,
                ending: None,
            }),
    {
        Producer { contents, label: label.to_owned(), sender: sender.to_owned(), ending: None }
    }

    /// How the producer ended, if it has.
    pub fn ending(&self) -> (ending: Option<Ending>)
        ensures
            ending == self@.ending,
    {
        self.ending
    }

    /// Takes what the source yielded and says what to do next.
    pub fn on_source(&mut self, event: SourceEvent) -> (action: ProducerAction)
        ensures
            action@ == old(self)@.reaction(event),
            final(self)@ == old(self)@.after(event),
    {
        if self.ending.is_some() {
            return ProducerAction::Stop;
        }
        match event {
            SourceEvent::Record(record) => ProducerAction::Enqueue(
                compose(record, &self.contents, self.label.as_str(), self.sender.as_str()),
            ),
            SourceEvent::Rejected => ProducerAction::Pull,
            SourceEvent::Exhausted => {
                self.ending = Some(Ending::Exhausted);
                ProducerAction::Stop
            },
            SourceEvent::Failed => {
                self.ending = Some(Ending::Failed);
                ProducerAction::Stop
            },
        }
    }

    /// Takes the queue's answer to an offer and says what to do next. A
    /// receiver that is gone costs the message and nothing else: the
    /// producer goes back to the source.
    pub fn on_enqueued(&self, outcome: Enqueued) -> (action: ProducerAction)
        ensures
            action@ == self@.follow_up(outcome),
    {
        if self.ending.is_some() {
            return ProducerAction::Stop;
        }
        match outcome {
            Enqueued::Accepted => ProducerAction::Pull,
            Enqueued::Closed(_) => ProducerAction::Pull,
            Enqueued::Full(msg) => ProducerAction::Enqueue(msg),
        }
    }
}

} // verus!
