//! Recipient records, outbound messages, and the mapping from one to the
//! other.

use crate::content::{ContentSet, ContentView};
use vstd::prelude::*;

verus! {

/// One row of the record source: whom to write to.
#[derive(Clone, Debug, PartialEq, Eq)]
pub struct RecipientRecord {
    pub email: String,
    pub name: String,
}

/// What a [`RecipientRecord`] holds, as mathematical values.
pub struct RecipientView {
    pub email: Seq<char>,
    pub name: Seq<char>,
}

impl View for RecipientRecord {
    type V = RecipientView;

    open spec fn view(&self) -> RecipientView {
        RecipientView { email: self.email@, name: self.name@ }
    }
}

/// One request to the delivery sink: a labelled message from `sender` to
/// the listed recipients, with the run's content attached.
#[derive(Clone, Debug, PartialEq, Eq)]
pub struct OutboundMessage {
    pub label: String,
    pub sender: String,
    pub recipients: Vec<String>,
    pub contents: ContentSet,
}

/// What an [`OutboundMessage`] holds, as mathematical values.
pub struct MessageView {
    pub label: Seq<char>,
    pub sender: Seq<char>,
    pub recipients: Seq<Seq<char>>,
    pub contents: Seq<ContentView>,
}

impl View for OutboundMessage {
    type V = MessageView;

    open spec fn view(&self) -> MessageView {
        MessageView {
            label: self.label@,
            sender: self.sender@,
            recipients: self.recipients@.map_values(|r: String| r@),
            contents: self.contents@,
        }
    }
}

/// The message that one record gives rise to: addressed to the record's
/// email alone, and carrying the whole content set.
pub open spec fn message_for(
    record: RecipientView,
    contents: Seq<ContentView>,
    label: Seq<char>,
    sender: Seq<char>,
) -> MessageView {
    MessageView { label, sender, recipients: seq![record.email], contents }
}

/// Builds the message for one record. The content set is shared with the
/// caller, not copied.
pub fn compose(record: RecipientRecord, contents: &ContentSet, label: &str, sender: &str) -> (msg:
    OutboundMessage)
    ensures
        msg@ == message_for(record@, contents@, label@, sender@),
{
    let mut recipients: Vec<String> = Vec::new();
    recipients.push(record.email);
    let msg = OutboundMessage {
        label: label.to_owned(),
        sender: sender.to_owned(),
        recipients,
        contents: contents.share(),
    };
    assert(msg@.recipients =~= seq![record@.email]);
    msg
}

} // verus!
